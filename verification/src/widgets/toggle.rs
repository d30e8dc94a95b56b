//! Boolean toggle.

use vstd::prelude::*;

verus! {

#[derive(Debug, Clone, Copy, PartialEq, Eq, Structural)]
pub struct Toggle {
    pub on: bool,
}

impl Toggle {
    pub fn new(on: bool) -> (r: Self)
        ensures
            r.on == on,
    {
        Toggle { on }
    }

    pub fn flip(&mut self)
        ensures
            final(self).on == !old(self).on,
    {
        self.on = !self.on;
    }

    pub fn set(&mut self, on: bool)
        ensures
            final(self).on == on,
    {
        self.on = on;
    }
}

} // verus!
