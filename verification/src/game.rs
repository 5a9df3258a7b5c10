//! The input of the game as the window reports it.

use vstd::prelude::*;
use crate::player::PlayerControls;

verus! {

/// Any possible player game input, as last reported by the window.
#[derive(Default, Debug)]
pub struct Input {
    pub move_l: bool,
    pub move_r: bool,
    pub move_f: bool,
    pub move_b: bool,
}

impl Input {
    /// Extracts the player controls from the current input state.
    ///
    /// The two structs happen to have the same fields today. They are
    /// kept apart so that either can change without the other.
    pub fn player_controls(&self) -> (controls: PlayerControls)
        ensures
            controls.move_l == self.move_l,
            controls.move_r == self.move_r,
            controls.move_f == self.move_f,
            controls.move_b == self.move_b,
    {
        PlayerControls {
            move_l: self.move_l,
            move_r: self.move_r,
            move_f: self.move_f,
            move_b: self.move_b,
        }
    }
}

} // verus!
