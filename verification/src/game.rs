//! Session-wide state: the score and the arbiter that ends the game.

use vstd::prelude::*;
use crate::app_state::AppState;

verus! {

/// The score of the running session. It only ever grows, and it stops at
/// the largest value the machine can count to rather than wrap around.
#[derive(Clone, Copy, Debug, PartialEq, Eq)]
pub struct Score(pub usize);

/// The sum of two counts, held at the machine's largest count.
pub open spec fn capped(total: int) -> usize {
    if total > usize::MAX {
        usize::MAX
    } else {
        total as usize
    }
}

/// `k` cubed.
pub open spec fn cube(k: int) -> int {
    k * k * k
}

/// `k` cubed, held at the machine's largest count.
pub fn cubed(k: usize) -> (c: usize)
    ensures
        c == capped(cube(k as int)),
{
    assert(cube(k as int) == (k * k) * k);
    match k.checked_mul(k) {
        Some(square) => match square.checked_mul(k) {
            Some(c) => c,
            None => usize::MAX,
        },
        None => {
            assert(k * k * k >= k * k) by (nonlinear_arith)
                requires
                    k * k > usize::MAX,
                    k >= 0,
            ;
            usize::MAX
        },
    }
}

impl Score {
    /// The score at session start.
    pub fn new() -> (s: Score)
        ensures
            s.0 == 0,
    {
        Score(0)
    }

    /// Adds `points` to the score.
    pub fn award(&mut self, points: usize)
        ensures
            final(self).0 == capped(old(self).0 + points),
            final(self).0 >= old(self).0,
    {
        self.0 = match self.0.checked_add(points) {
            Some(sum) => sum,
            None => usize::MAX,
        };
    }
}

/// The arbiter that ends the session. It turns the first lethal event it
/// hears of into the order to end the game and stays silent ever after.
#[derive(Clone, Copy, Debug, PartialEq, Eq)]
pub struct GameOverTrigger {
    pub fired: bool,
}

impl GameOverTrigger {
    /// The arbiter after it has heard of one event.
    pub open spec fn heard(self, lethal: bool) -> GameOverTrigger {
        GameOverTrigger { fired: self.fired || lethal }
    }

    /// The arbiter orders the end of the game on hearing of this event.
    pub open spec fn fires(self, lethal: bool) -> bool {
        lethal && !self.fired
    }

    /// The arbiter after it has heard of a run of events, in order.
    pub open spec fn after(self, reports: Seq<bool>) -> GameOverTrigger
        decreases reports.len(),
    {
        if reports.len() == 0 {
            self
        } else {
            self.after(reports.drop_last()).heard(reports.last())
        }
    }

    /// How often the arbiter orders the end of the game over a run of
    /// events.
    pub open spec fn fire_count(self, reports: Seq<bool>) -> nat
        decreases reports.len(),
    {
        if reports.len() == 0 {
            0
        } else {
            let before = self.fire_count(reports.drop_last());
            if self.after(reports.drop_last()).fires(reports.last()) {
                before + 1
            } else {
                before
            }
        }
    }

    /// The end of the game is ordered at most once, however many lethal
    /// events come in and whenever they come: once if the arbiter had not
    /// fired before and a lethal event is among them, and never otherwise.
    pub proof fn lemma_fires_at_most_once(self, reports: Seq<bool>)
        ensures
            self.fire_count(reports) <= 1,
            self.fire_count(reports) == 1 <==> !self.fired && reports.contains(true),
            self.after(reports).fired == (self.fired || reports.contains(true)),
        decreases reports.len(),
    {
        if reports.len() > 0 {
            let head = reports.drop_last();
            self.lemma_fires_at_most_once(head);
            assert(reports.contains(true) <==> head.contains(true) || reports.last()) by {
                if head.contains(true) {
                    let i = choose|i: int| 0 <= i < head.len() && head[i];
                    assert(reports[i]);
                }
                if reports.last() {
                    assert(reports[reports.len() - 1]);
                }
                if reports.contains(true) {
                    let i = choose|i: int| 0 <= i < reports.len() && reports[i];
                    if i < head.len() {
                        assert(head[i]);
                    }
                }
            }
        } else {
            assert(!reports.contains(true));
        }
    }

    /// An arbiter that has not fired yet.
    pub fn new() -> (t: GameOverTrigger)
        ensures
            !t.fired,
    {
        GameOverTrigger { fired: false }
    }

    /// Hears of one event. Returns whether the game is to end now, which
    /// is so exactly for the first lethal event of the session.
    pub fn report(&mut self, lethal: bool) -> (fire: bool)
        ensures
            fire == old(self).fires(lethal),
            *final(self) == old(self).heard(lethal),
    {
        if lethal && !self.fired {
            self.fired = true;
            true
        } else {
            false
        }
    }
}

/// The phase after the arbiter has spoken: a running session ends when it
/// fires, and nothing else ever changes the phase from here.
pub open spec fn phase_after(phase: AppState, fire: bool) -> AppState {
    if fire && phase == AppState::InGame {
        AppState::GameOver
    } else {
        phase
    }
}

/// Applies the arbiter's order to the phase of the application.
pub fn end_session(phase: AppState, fire: bool) -> (next: AppState)
    ensures
        next == phase_after(phase, fire),
{
    if fire && phase == AppState::InGame {
        AppState::GameOver
    } else {
        phase
    }
}

} // verus!
