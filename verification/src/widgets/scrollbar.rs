//! Scrollbar offset state and hit-testing of a vertical scrollbar.
//!
//! The thumb's position and length are fractions of the track computed in floating
//! point by the front end; hit-testing takes the thumb's pixel span as it was drawn.

use vstd::prelude::*;

verus! {

/// Scrollbar orientation.
#[derive(Debug, Clone, Copy, PartialEq, Eq, Structural)]
pub enum ScrollAxis {
    Vertical,
    Horizontal,
}

/// Which zone of the scrollbar a pointer is on.
#[derive(Debug, Clone, Copy, PartialEq, Eq, Structural)]
pub enum ScrollbarHit {
    /// On the up-arrow button.
    ArrowUp,
    /// On the down-arrow button.
    ArrowDown,
    /// On the track above the thumb (page up zone).
    PageUp,
    /// On the track below the thumb (page down zone).
    PageDown,
    /// On the thumb itself (begin drag).
    Thumb,
    /// Outside the scrollbar rectangle.
    Outside,
}

/// Scroll state along one axis.
#[derive(Debug, Clone)]
pub struct ScrollbarState {
    pub axis: ScrollAxis,
    /// Total content extent in abstract units (e.g. lines or px).
    pub content_len: usize,
    /// Visible viewport (same units).
    pub viewport_len: usize,
    /// Scroll offset: first visible unit index.
    pub offset: usize,
}

/// The largest offset when the content overflows the viewport.
pub open spec fn max_offset(content: int, viewport: int) -> int {
    if content > viewport { content - viewport } else { 0 }
}

/// `v` is an `i32` value.
pub open spec fn fits(v: int) -> bool {
    i32::MIN <= v <= i32::MAX
}

/// Start and length of the track of a vertical scrollbar at `y`, `w` px wide and `h`
/// px tall: between the two `w` px square arrow buttons (length at least 0). Sizes are
/// read as `i32`.
pub open spec fn track_of(y: i32, w: u32, h: u32) -> (int, int) {
    let d = h as i32 - 2 * (w as i32);
    (y + w as i32, if d > 0 { d } else { 0 })
}

/// Which zone of a vertical scrollbar at `(x, y)`, `w` × `h` px, the point `(px, py)`
/// is in, with the thumb drawn over rows `[thumb_y, thumb_y + thumb_h)`. The arrow
/// buttons are `w` px tall squares at both ends; the track lies between them.
pub open spec fn vertical_hit(x: i32, y: i32, w: u32, h: u32, px: i32, py: i32, thumb_y: i32, thumb_h: u32) -> ScrollbarHit {
    let wi = w as i32 as int;
    let hi = h as i32 as int;
    if px < x || px >= x + wi || py < y || py >= y + hi {
        ScrollbarHit::Outside
    } else if py < y + wi {
        ScrollbarHit::ArrowUp
    } else if py >= y + hi - wi {
        ScrollbarHit::ArrowDown
    } else if track_of(y, w, h).1 == 0 {
        ScrollbarHit::Outside
    } else if py >= thumb_y && py < thumb_y + thumb_h as i32 {
        ScrollbarHit::Thumb
    } else if py < thumb_y {
        ScrollbarHit::PageUp
    } else {
        ScrollbarHit::PageDown
    }
}

/// The hit-test arithmetic stays in `i32` along the path it takes for `(px, py)`.
pub open spec fn hit_ok(x: i32, y: i32, w: u32, h: u32, px: i32, py: i32, thumb_y: i32, thumb_h: u32) -> bool {
    let wi = w as i32 as int;
    let hi = h as i32 as int;
    let inside = x <= px < x + wi && y <= py < y + hi;
    &&& px >= x ==> fits(x + wi)
    &&& (px >= x && px < x + wi && py >= y) ==> fits(y + hi)
    &&& inside ==> fits(y + wi)
    &&& (inside && py >= y + wi) ==> fits(y + hi - wi)
    &&& (inside && py >= y + wi && py < y + hi - wi) ==> fits(2 * wi) && fits(hi - 2 * wi)
    &&& (inside && py >= y + wi && py < y + hi - wi && py >= thumb_y) ==> fits(thumb_y + thumb_h as i32)
}

/// The track of a vertical scrollbar (see [`track_of`]).
pub fn vertical_track(rect_y: i32, rect_w: u32, rect_h: u32) -> (r: (i32, u32))
    requires
        fits(rect_y + rect_w as i32),
        fits(2 * (rect_w as i32)),
        fits(rect_h as i32 - 2 * (rect_w as i32)),
    ensures
        (r.0 as int, r.1 as int) == track_of(rect_y, rect_w, rect_h),
{
    let arrow_h = rect_w as i32;
    let d = rect_h as i32 - arrow_h * 2;
    (rect_y + arrow_h, if d > 0 { d as u32 } else { 0 })
}

impl ScrollbarState {
    pub fn new(axis: ScrollAxis, content_len: usize, viewport_len: usize, offset: usize) -> (r: Self)
        ensures
            r.axis == axis,
            r.content_len == content_len,
            r.viewport_len == viewport_len,
            r.offset == offset,
    {
        ScrollbarState { axis, content_len, viewport_len, offset }
    }

    /// Scroll up by one line; stops at 0.
    pub fn scroll_line_up(&mut self)
        ensures
            final(self).offset == if old(self).offset > 0 { old(self).offset - 1 } else { 0 },
            final(self).content_len == old(self).content_len,
            final(self).viewport_len == old(self).viewport_len,
            final(self).axis == old(self).axis,
    {
        self.offset = if self.offset > 0 { self.offset - 1 } else { 0 };
    }

    /// Scroll down by one line; stops at the largest offset (no change without overflow).
    pub fn scroll_line_down(&mut self)
        requires
            old(self).content_len > old(self).viewport_len ==> old(self).offset < usize::MAX,
        ensures
            final(self).offset == if old(self).content_len > old(self).viewport_len {
                let m = max_offset(old(self).content_len as int, old(self).viewport_len as int);
                if old(self).offset + 1 < m { old(self).offset + 1 } else { m }
            } else {
                old(self).offset as int
            },
            final(self).content_len == old(self).content_len,
            final(self).viewport_len == old(self).viewport_len,
            final(self).axis == old(self).axis,
    {
        if self.content_len > self.viewport_len {
            let max_off = self.content_len - self.viewport_len;
            let n = self.offset + 1;
            self.offset = if n < max_off { n } else { max_off };
        }
    }

    /// Scroll up by one viewport (at least one unit); stops at 0.
    pub fn scroll_page_up(&mut self)
        ensures
            final(self).offset == {
                let page = if old(self).viewport_len < 1 { 1 } else { old(self).viewport_len as int };
                if old(self).offset > page { old(self).offset - page } else { 0 }
            },
            final(self).content_len == old(self).content_len,
            final(self).viewport_len == old(self).viewport_len,
            final(self).axis == old(self).axis,
    {
        let page = if self.viewport_len < 1 { 1 } else { self.viewport_len };
        self.offset = if self.offset > page { self.offset - page } else { 0 };
    }

    /// Scroll down by one viewport (at least one unit); stops at the largest offset.
    pub fn scroll_page_down(&mut self)
        requires
            old(self).content_len > old(self).viewport_len ==> old(self).offset + (
                if old(self).viewport_len < 1 { 1 } else { old(self).viewport_len as int }) <= usize::MAX,
        ensures
            final(self).offset == if old(self).content_len > old(self).viewport_len {
                let m = max_offset(old(self).content_len as int, old(self).viewport_len as int);
                let page = if old(self).viewport_len < 1 { 1 } else { old(self).viewport_len as int };
                if old(self).offset + page < m { old(self).offset + page } else { m }
            } else {
                old(self).offset as int
            },
            final(self).content_len == old(self).content_len,
            final(self).viewport_len == old(self).viewport_len,
            final(self).axis == old(self).axis,
    {
        if self.content_len > self.viewport_len {
            let max_off = self.content_len - self.viewport_len;
            let page = if self.viewport_len < 1 { 1 } else { self.viewport_len };
            let n = self.offset + page;
            self.offset = if n < max_off { n } else { max_off };
        }
    }

    /// Hit-test a pointer at `(px, py)` against a vertical scrollbar drawn at
    /// `(rect_x, rect_y)`, `rect_w` × `rect_h` px, whose thumb covers rows
    /// `[thumb_y, thumb_y + thumb_h)` (see [`vertical_hit`]).
    pub fn hit_test_vertical(
        &self,
        rect_x: i32,
        rect_y: i32,
        rect_w: u32,
        rect_h: u32,
        px: i32,
        py: i32,
        thumb_y: i32,
        thumb_h: u32,
    ) -> (r: ScrollbarHit)
        requires
            hit_ok(rect_x, rect_y, rect_w, rect_h, px, py, thumb_y, thumb_h),
        ensures
            r == vertical_hit(rect_x, rect_y, rect_w, rect_h, px, py, thumb_y, thumb_h),
    {
        if px < rect_x || px >= rect_x + rect_w as i32 || py < rect_y || py >= rect_y + rect_h as i32 {
            return ScrollbarHit::Outside;
        }
        let arrow_h = rect_w as i32;
        if py < rect_y + arrow_h {
            return ScrollbarHit::ArrowUp;
        }
        if py >= rect_y + rect_h as i32 - arrow_h {
            return ScrollbarHit::ArrowDown;
        }
        let (_track_y, track_h) = vertical_track(rect_y, rect_w, rect_h);
        if track_h == 0 {
            return ScrollbarHit::Outside;
        }
        if py >= thumb_y && py < thumb_y + thumb_h as i32 {
            return ScrollbarHit::Thumb;
        }
        if py < thumb_y {
            ScrollbarHit::PageUp
        } else {
            ScrollbarHit::PageDown
        }
    }
}

} // verus!
