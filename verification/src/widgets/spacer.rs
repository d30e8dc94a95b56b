//! Fixed empty space for flex-like layouts.

use vstd::prelude::*;
use crate::geometry::Size;

verus! {

/// A fixed amount of empty space.
#[derive(Debug, Clone, Copy, PartialEq, Eq)]
pub struct Spacer {
    pub size: Size,
}

impl Spacer {
    pub fn new(width: u32, height: u32) -> (r: Self)
        ensures
            r.size.width == width,
            r.size.height == height,
    {
        Spacer { size: Size::new(width, height) }
    }
}

} // verus!
