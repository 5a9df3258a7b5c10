//! What the player is asked to do.

use vstd::prelude::*;

verus! {

/// Controls state for the player.
#[derive(Clone, Copy, Debug, PartialEq, Eq, Structural)]
pub struct PlayerControls {
    pub move_l: bool,
    pub move_r: bool,
    pub move_f: bool,
    pub move_b: bool,
}

/// The signed unit step that a pair of opposing controls asks for: `1` when
/// only `positive` is held, `-1` when only `negative` is held, `0` otherwise.
pub open spec fn axis(positive: bool, negative: bool) -> int {
    (if positive { 1int } else { 0int }) - (if negative { 1int } else { 0int })
}

impl PlayerControls {
    /// The direction the controls ask the player to move in, one step per
    /// axis: `x` grows to the right, `y` grows forward.
    pub fn direction(&self) -> (dir: (i8, i8))
        ensures
            dir.0 == axis(self.move_r, self.move_l),
            dir.1 == axis(self.move_f, self.move_b),
    {
        let right: i8 = if self.move_r { 1 } else { 0 };
        let left: i8 = if self.move_l { 1 } else { 0 };
        let forward: i8 = if self.move_f { 1 } else { 0 };
        let back: i8 = if self.move_b { 1 } else { 0 };
        (right - left, forward - back)
    }
}

} // verus!
