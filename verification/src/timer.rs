//! One-shot countdown timers over whole nanoseconds.

use vstd::prelude::*;

verus! {

/// A timer that runs once from zero to `duration` and then stays finished.
#[derive(Clone, Copy, Debug, PartialEq, Eq, Structural)]
pub struct Timer {
    pub duration: u64,
    pub elapsed: u64,
    pub finished: bool,
    pub just_finished: bool,
}

impl Timer {
    /// A timer that has not been ticked yet.
    pub open spec fn fresh(duration: u64) -> Timer {
        Timer { duration, elapsed: 0, finished: false, just_finished: false }
    }

    /// The elapsed time never passes the duration, a finished timer sits at
    /// its duration, and only a finished timer can have just finished.
    pub open spec fn wf(self) -> bool {
        &&& self.elapsed <= self.duration
        &&& self.finished ==> self.elapsed == self.duration
        &&& self.just_finished ==> self.finished
    }

    /// The timer after `delta` more nanoseconds.
    pub open spec fn ticked(self, delta: u64) -> Timer {
        if self.finished {
            Timer { just_finished: false, ..self }
        } else if self.elapsed + delta >= self.duration {
            Timer { elapsed: self.duration, finished: true, just_finished: true, ..self }
        } else {
            Timer { elapsed: (self.elapsed + delta) as u64, just_finished: false, ..self }
        }
    }

    /// Whether the timer is well formed. A timer made by `new` and changed
    /// by `tick` and `reset` alone always is.
    pub fn check(&self) -> (ok: bool)
        ensures
            ok == self.wf(),
    {
        self.elapsed <= self.duration && (!self.finished || self.elapsed == self.duration) && (
        !self.just_finished || self.finished)
    }

    /// A timer of the given duration that has not been ticked yet.
    pub fn new(duration: u64) -> (t: Timer)
        ensures
            t == Timer::fresh(duration),
            t.wf(),
    {
        Timer { duration, elapsed: 0, finished: false, just_finished: false }
    }

    /// Advances the timer by `delta`; see `ticked`.
    pub fn tick(&mut self, delta: u64)
        requires
            old(self).wf(),
        ensures
            *final(self) == old(self).ticked(delta),
            final(self).wf(),
    {
        if self.finished {
            self.just_finished = false;
        } else if delta >= self.duration - self.elapsed {
            self.elapsed = self.duration;
            self.finished = true;
            self.just_finished = true;
        } else {
            self.elapsed = self.elapsed + delta;
            self.just_finished = false;
        }
    }

    /// Starts the timer over.
    pub fn reset(&mut self)
        ensures
            *final(self) == Timer::fresh(old(self).duration),
    {
        self.elapsed = 0;
        self.finished = false;
        self.just_finished = false;
    }

    /// Whether the timer has run out.
    pub fn finished(&self) -> (b: bool)
        ensures
            b == self.finished,
    {
        self.finished
    }

    /// Whether the timer ran out on the last tick.
    pub fn just_finished(&self) -> (b: bool)
        ensures
            b == self.just_finished,
    {
        self.just_finished
    }
}

/// The sum of a run of tick lengths.
pub open spec fn total(deltas: Seq<u64>) -> nat
    decreases deltas.len(),
{
    if deltas.len() == 0 {
        0
    } else {
        total(deltas.drop_last()) + deltas.last() as nat
    }
}

impl Timer {
    /// The timer after one tick for each entry of `deltas`, in order.
    pub open spec fn after(self, deltas: Seq<u64>) -> Timer
        decreases deltas.len(),
    {
        if deltas.len() == 0 {
            self
        } else {
            self.after(deltas.drop_last()).ticked(deltas.last())
        }
    }

    /// A fresh timer is finished exactly when it has been ticked at least
    /// once and the ticks add up to its duration or more; until then it
    /// shows their sum.
    pub proof fn lemma_finished_iff_elapsed(duration: u64, deltas: Seq<u64>)
        ensures
            Timer::fresh(duration).after(deltas).wf(),
            Timer::fresh(duration).after(deltas).duration == duration,
            Timer::fresh(duration).after(deltas).finished <==> deltas.len() > 0 && total(deltas)
                >= duration,
            !Timer::fresh(duration).after(deltas).finished ==> Timer::fresh(duration).after(
                deltas,
            ).elapsed == total(deltas),
        decreases deltas.len(),
    {
        if deltas.len() > 0 {
            Timer::lemma_finished_iff_elapsed(duration, deltas.drop_last());
        }
    }

    /// A timer reports `just_finished` on the tick it runs out and on no
    /// later tick.
    pub proof fn lemma_finishes_once(self, first: u64, later: Seq<u64>)
        requires
            self.wf(),
            self.ticked(first).finished,
            later.len() > 0,
        ensures
            self.ticked(first).after(later).finished,
            !self.ticked(first).after(later).just_finished,
        decreases later.len(),
    {
        if later.len() > 1 {
            self.lemma_finishes_once(first, later.drop_last());
        } else {
            assert(self.ticked(first).after(later.drop_last()) == self.ticked(first));
        }
    }
}

} // verus!
