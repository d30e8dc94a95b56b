//! Checkbox (boolean, named for forms; same data as a toggle).

use vstd::prelude::*;
use super::toggle::Toggle;

verus! {

/// Two-state checkbox.
#[derive(Debug, Clone, Copy, PartialEq, Eq, Structural)]
pub struct Checkbox {
    pub inner: Toggle,
}

impl Checkbox {
    pub fn new(checked: bool) -> (r: Self)
        ensures
            r.inner.on == checked,
    {
        Checkbox { inner: Toggle::new(checked) }
    }

    pub fn checked(&self) -> (r: bool)
        ensures
            r == self.inner.on,
    {
        self.inner.on
    }

    pub fn toggle(&mut self)
        ensures
            final(self).inner.on == !old(self).inner.on,
    {
        self.inner.flip();
    }

    pub fn set(&mut self, checked: bool)
        ensures
            final(self).inner.on == checked,
    {
        self.inner.set(checked);
    }
}

} // verus!
