//! Icon descriptor (drawn by the app with its font or image atlas).

use vstd::prelude::*;

verus! {

/// Logical icon: one Unicode codepoint or private-use slot, plus nominal pixel size.
#[derive(Debug, Clone, Copy, PartialEq, Eq, Structural)]
pub struct Icon {
    pub codepoint: char,
    pub size_px: u32,
}

impl Icon {
    pub fn new(codepoint: char, size_px: u32) -> (r: Self)
        ensures
            r.codepoint == codepoint,
            r.size_px == size_px,
    {
        Icon { codepoint, size_px }
    }
}

} // verus!
