//! Small pieces shared by the actors: animation ranges and despawn timers.

use vstd::prelude::*;
use crate::timer::Timer;

verus! {

/// The frames an animation runs through, both ends included.
#[derive(Clone, Copy, Debug, PartialEq, Eq, Structural)]
pub struct AnimationIndices {
    pub first: usize,
    pub last: usize,
}

/// A timer whose owner is removed when it runs out.
#[derive(Clone, Copy, Debug, PartialEq, Eq)]
pub struct DespawnTimer(pub Timer);

/// The collision groups of a collider: the groups it belongs to and the
/// groups it reacts to, each as a set of bits.
#[derive(Clone, Copy, Debug, PartialEq, Eq, Structural)]
pub struct CollisionGroups {
    pub memberships: u32,
    pub filters: u32,
}

impl AnimationIndices {
    /// The frame that follows `index`: the next one inside the range, and
    /// the first of the range from its last frame or from outside it.
    pub open spec fn next_frame(self, index: usize) -> usize {
        if index >= self.last || index < self.first {
            self.first
        } else {
            (index + 1) as usize
        }
    }
}

/// Steps a sprite's frame once its animation timer has gone off. With no
/// animation range, or before the timer goes off, the frame stays.
pub fn animate_sprite(indices: Option<AnimationIndices>, due: bool, index: usize) -> (next: usize)
    ensures
        next == if indices is Some && due {
            indices->0.next_frame(index)
        } else {
            index
        },
{
    match indices {
        Some(range) => {
            if !due {
                index
            } else if index >= range.last || index < range.first {
                range.first
            } else {
                index + 1
            }
        },
        None => index,
    }
}

} // verus!
