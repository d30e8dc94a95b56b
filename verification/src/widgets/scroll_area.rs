//! Scroll area: viewport into a larger virtual surface.

use vstd::prelude::*;

verus! {

/// Tracks 2D scroll offset and content extents (the app clips when drawing).
#[derive(Debug, Clone, Copy, PartialEq, Eq, Structural)]
pub struct ScrollArea {
    pub scroll_x: u32,
    pub scroll_y: u32,
    pub content_w: u32,
    pub content_h: u32,
    pub viewport_w: u32,
    pub viewport_h: u32,
}

/// `a - b`, or `0` when `b > a`.
pub open spec fn sat_sub(a: int, b: int) -> int {
    if a > b { a - b } else { 0 }
}

/// Where a scroll offset lands after moving by `d`: clamped into `[0, max]`.
pub open spec fn scrolled(pos: int, d: int, max: int) -> int {
    if pos + d < 0 { 0 } else if pos + d > max { max } else { pos + d }
}

impl ScrollArea {
    pub fn new(viewport_w: u32, viewport_h: u32, content_w: u32, content_h: u32) -> (r: Self)
        ensures
            r.scroll_x == 0,
            r.scroll_y == 0,
            r.content_w == content_w,
            r.content_h == content_h,
            r.viewport_w == viewport_w,
            r.viewport_h == viewport_h,
    {
        ScrollArea { scroll_x: 0, scroll_y: 0, content_w, content_h, viewport_w, viewport_h }
    }

    pub fn max_scroll_x(&self) -> (r: u32)
        ensures
            r == sat_sub(self.content_w as int, self.viewport_w as int),
    {
        if self.content_w > self.viewport_w { self.content_w - self.viewport_w } else { 0 }
    }

    pub fn max_scroll_y(&self) -> (r: u32)
        ensures
            r == sat_sub(self.content_h as int, self.viewport_h as int),
    {
        if self.content_h > self.viewport_h { self.content_h - self.viewport_h } else { 0 }
    }

    /// Move the offsets by `(dx, dy)`, clamped to `[0, max_scroll]` on each axis. The
    /// offsets are taken as `i32` (an offset above `i32::MAX` wraps, as the cast does).
    pub fn scroll_by(&mut self, dx: i32, dy: i32)
        requires
            i32::MIN <= old(self).scroll_x as i32 + dx <= i32::MAX,
            i32::MIN <= old(self).scroll_y as i32 + dy <= i32::MAX,
            sat_sub(old(self).content_w as int, old(self).viewport_w as int) <= i32::MAX,
            sat_sub(old(self).content_h as int, old(self).viewport_h as int) <= i32::MAX,
        ensures
            final(self).scroll_x == scrolled(
                (old(self).scroll_x as i32) as int,
                dx as int,
                sat_sub(old(self).content_w as int, old(self).viewport_w as int),
            ),
            final(self).scroll_y == scrolled(
                (old(self).scroll_y as i32) as int,
                dy as int,
                sat_sub(old(self).content_h as int, old(self).viewport_h as int),
            ),
            final(self).content_w == old(self).content_w,
            final(self).content_h == old(self).content_h,
            final(self).viewport_w == old(self).viewport_w,
            final(self).viewport_h == old(self).viewport_h,
    {
        let mx = self.max_scroll_x() as i32;
        let my = self.max_scroll_y() as i32;
        let x = self.scroll_x as i32 + dx;
        let y = self.scroll_y as i32 + dy;
        self.scroll_x = (if x < 0 { 0 } else if x > mx { mx } else { x }) as u32;
        self.scroll_y = (if y < 0 { 0 } else if y > my { my } else { y }) as u32;
    }
}

} // verus!
