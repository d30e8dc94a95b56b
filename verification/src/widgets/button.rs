//! Push button interaction state.

use vstd::prelude::*;

verus! {

/// Immediate-mode button: `pressed` tracks pointer-down inside the hit rect.
#[derive(Debug, Clone, Copy, PartialEq, Eq, Structural)]
pub struct Button {
    pub pressed: bool,
}

impl Default for Button {
    fn default() -> (r: Self)
        ensures
            !r.pressed,
    {
        Button { pressed: false }
    }
}

impl Button {
    pub fn new() -> (r: Self)
        ensures
            !r.pressed,
    {
        Button { pressed: false }
    }

    pub fn set_pressed(&mut self, down: bool)
        ensures
            final(self).pressed == down,
    {
        self.pressed = down;
    }
}

} // verus!
