//! Icon-only button.

use vstd::prelude::*;
use super::icon::Icon;

verus! {

#[derive(Debug, Clone, Copy, PartialEq, Eq, Structural)]
pub struct IconButton {
    pub pressed: bool,
    pub icon: Icon,
}

impl IconButton {
    pub fn new(icon: Icon) -> (r: Self)
        ensures
            !r.pressed,
            r.icon == icon,
    {
        IconButton { pressed: false, icon }
    }

    pub fn set_pressed(&mut self, down: bool)
        ensures
            final(self).pressed == down,
            final(self).icon == old(self).icon,
    {
        self.pressed = down;
    }
}

} // verus!
