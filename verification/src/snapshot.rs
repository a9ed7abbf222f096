//! The read-only picture of actor positions that a tick works from.

use vstd::prelude::*;
use crate::geometry::Point;

verus! {

/// Where one actor stands.
#[derive(Clone, Copy, Debug, PartialEq, Eq)]
pub struct Placement {
    pub id: u64,
    pub position: Point,
}

/// Positions of all actors at the start of a tick.
pub struct Snapshot {
    pub actors: Vec<Placement>,
}

/// The position of the first of the first `n` placements that carries `id`.
pub open spec fn locate(actors: Seq<Placement>, id: u64, n: int) -> Option<Point>
    decreases n,
{
    if n <= 0 {
        None
    } else {
        match locate(actors, id, n - 1) {
            Some(p) => Some(p),
            None => if actors[n - 1].id == id {
                Some(actors[n - 1].position)
            } else {
                None
            },
        }
    }
}

impl Snapshot {
    /// The position of actor `id`, if the snapshot holds it.
    pub open spec fn position_of(&self, id: u64) -> Option<Point> {
        locate(self.actors@, id, self.actors@.len() as int)
    }

    /// A snapshot that holds nobody.
    pub fn new() -> (s: Snapshot)
        ensures
            s.actors@.len() == 0,
    {
        Snapshot { actors: Vec::new() }
    }

    /// Adds an actor; of two entries for one actor the earlier counts.
    pub fn place(&mut self, id: u64, position: Point)
        ensures
            final(self).actors@ == old(self).actors@.push(Placement { id, position }),
    {
        self.actors.push(Placement { id, position });
    }

    /// Looks an actor up; an actor that is gone is no error, just `None`.
    pub fn position(&self, id: u64) -> (r: Option<Point>)
        ensures
            r == self.position_of(id),
    {
        let mut i: usize = 0;
        while i < self.actors.len()
            invariant
                i <= self.actors@.len(),
                locate(self.actors@, id, i as int) is None,
            decreases self.actors@.len() - i,
        {
            if self.actors[i].id == id {
                proof {
                    lemma_locate_stable(self.actors@, id, i as int + 1, self.actors@.len() as int);
                }
                return Some(self.actors[i].position);
            }
            i += 1;
        }
        None
    }
}

/// Once an actor is found among the first `n` placements, looking further
/// does not change the answer.
pub proof fn lemma_locate_stable(actors: Seq<Placement>, id: u64, n: int, m: int)
    requires
        0 <= n <= m,
        locate(actors, id, n) is Some,
    ensures
        locate(actors, id, m) == locate(actors, id, n),
    decreases m - n,
{
    if n < m {
        lemma_locate_stable(actors, id, n, m - 1);
    }
}

} // verus!
