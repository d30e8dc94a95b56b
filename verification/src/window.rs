//! Keyboard-driven multi-window focus and per-window placement nudging.

use vstd::prelude::*;
use crate::focus::cycle_spec;

verus! {

/// How many top-level windows take part in focus cycling, and which one has focus.
#[derive(Debug, Clone, Copy, PartialEq, Eq, Structural)]
pub struct WindowStack {
    pub count: usize,
    pub focused: usize,
}

impl WindowStack {
    /// At least one window; focus on the first.
    pub fn new(count: usize) -> (r: Self)
        ensures
            r.count == if count == 0 { 1 } else { count },
            r.focused == 0,
    {
        WindowStack { count: if count == 0 { 1 } else { count }, focused: 0 }
    }

    /// Focus the next window, wrapping to the first.
    pub fn focus_next(&mut self)
        requires
            old(self).count > 0,
            old(self).focused < usize::MAX,
        ensures
            final(self).count == old(self).count,
            final(self).focused == cycle_spec(old(self).focused as int, old(self).count as int, false),
    {
        self.focused = (self.focused + 1) % self.count;
    }

    /// Focus the previous window, wrapping to the last.
    pub fn focus_prev(&mut self)
        requires
            old(self).count > 0,
            old(self).focused + old(self).count <= usize::MAX,
        ensures
            final(self).count == old(self).count,
            final(self).focused == cycle_spec(old(self).focused as int, old(self).count as int, true),
    {
        self.focused = (self.focused + self.count - 1) % self.count;
    }
}

/// Pixel offset of a window's top-left from its default anchor.
#[derive(Debug, Clone, Copy, PartialEq, Eq, Structural)]
pub struct WindowOffset {
    pub x: i32,
    pub y: i32,
}

/// `v` clamped into `[lo, hi]`.
pub open spec fn clamp_between(v: int, lo: int, hi: int) -> int {
    if v < lo { lo } else if v > hi { hi } else { v }
}

impl WindowOffset {
    /// The zero offset.
    pub fn zero() -> (r: Self)
        ensures
            r.x == 0 && r.y == 0,
    {
        WindowOffset { x: 0, y: 0 }
    }

    /// Move by `(dx, dy)` and clamp each axis into its range.
    pub fn nudge(&mut self, dx: i32, dy: i32, min_x: i32, min_y: i32, max_x: i32, max_y: i32)
        requires
            min_x <= max_x,
            min_y <= max_y,
            i32::MIN <= old(self).x + dx <= i32::MAX,
            i32::MIN <= old(self).y + dy <= i32::MAX,
        ensures
            final(self).x == clamp_between(old(self).x + dx, min_x as int, max_x as int),
            final(self).y == clamp_between(old(self).y + dy, min_y as int, max_y as int),
    {
        let x = self.x + dx;
        let y = self.y + dy;
        self.x = if x < min_x { min_x } else if x > max_x { max_x } else { x };
        self.y = if y < min_y { min_y } else if y > max_y { max_y } else { y };
    }
}

} // verus!
