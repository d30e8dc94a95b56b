//! Absolute pointing devices (tablets, touch screens): device coordinates to pixels
//! and button reading, on the values the firmware protocol reports.

use vstd::prelude::*;

verus! {

/// A sample of an absolute pointing device.
#[derive(Debug, Clone, Copy, PartialEq, Eq, Structural)]
pub struct AbsPointerState {
    pub current_x: u64,
    pub current_y: u64,
    pub current_z: u64,
    pub active_buttons: u32,
}

/// The coordinate ranges of an absolute pointing device.
#[derive(Debug, Clone, Copy, PartialEq, Eq, Structural)]
pub struct AbsPointerMode {
    pub absolute_min_x: u64,
    pub absolute_min_y: u64,
    pub absolute_min_z: u64,
    pub absolute_max_x: u64,
    pub absolute_max_y: u64,
    pub absolute_max_z: u64,
    pub attributes: u32,
}

/// `a - b` floored at 0.
pub open spec fn sat_sub(a: int, b: int) -> int {
    if a > b { a - b } else { 0 }
}

/// `v` clamped to `[0, hi]`.
pub open spec fn clamp0(v: int, hi: int) -> int {
    if v < 0 { 0 } else if v > hi { hi } else { v }
}

/// Device coordinate `v` in `[min, max]` scaled to pixels `0..n` (read as `i32`),
/// clamped to `[0, n - 1]`.
pub open spec fn scale_axis(v: u64, min: u64, max: u64, n: usize) -> int {
    let last = sat_sub(n as int, 1);
    clamp0(((sat_sub(v as int, min as int) * last) / (max - min)) as i32 as int, last as i32 as int)
}

/// The pixel under the device position (`(0, 0)` for a device with an empty range).
pub open spec fn abs_to_pixels(st: AbsPointerState, mode: AbsPointerMode, w: usize, h: usize) -> (int, int) {
    if mode.absolute_max_x <= mode.absolute_min_x || mode.absolute_max_y <= mode.absolute_min_y {
        (0, 0)
    } else {
        (
            scale_axis(st.current_x, mode.absolute_min_x, mode.absolute_max_x, w),
            scale_axis(st.current_y, mode.absolute_min_y, mode.absolute_max_y, h),
        )
    }
}

/// The scaling stays in `u64` and the screen extents fit `i32`.
pub open spec fn abs_to_pixels_ok(st: AbsPointerState, mode: AbsPointerMode, w: usize, h: usize) -> bool {
    &&& sat_sub(w as int, 1) <= i32::MAX && sat_sub(h as int, 1) <= i32::MAX
    &&& mode.absolute_min_x < mode.absolute_max_x ==>
        sat_sub(st.current_x as int, mode.absolute_min_x as int) * sat_sub(w as int, 1) <= u64::MAX
    &&& mode.absolute_min_y < mode.absolute_max_y ==>
        sat_sub(st.current_y as int, mode.absolute_min_y as int) * sat_sub(h as int, 1) <= u64::MAX
}

fn scale(v: u64, min: u64, max: u64, n: usize) -> (r: i32)
    requires
        min < max,
        sat_sub(n as int, 1) <= i32::MAX,
        sat_sub(v as int, min as int) * sat_sub(n as int, 1) <= u64::MAX,
    ensures
        r == scale_axis(v, min, max, n),
{
    let d = if v > min { v - min } else { 0 };
    let last = if n > 1 { (n - 1) as u64 } else { 0 };
    let p = ((d * last) / (max - min)) as i32;
    let hi = last as i32;
    if p < 0 { 0 } else if p > hi { hi } else { p }
}

/// Map device coordinates to pixel coordinates in `0..w` × `0..h` (see [`abs_to_pixels`]).
pub fn map_abs_to_pixels(st: &AbsPointerState, mode: &AbsPointerMode, w: usize, h: usize) -> (r: (i32, i32))
    requires
        abs_to_pixels_ok(*st, *mode, w, h),
    ensures
        (r.0 as int, r.1 as int) == abs_to_pixels(*st, *mode, w, h),
{
    if mode.absolute_max_x <= mode.absolute_min_x || mode.absolute_max_y <= mode.absolute_min_y {
        return (0, 0);
    }
    (
        scale(st.current_x, mode.absolute_min_x, mode.absolute_max_x, w),
        scale(st.current_y, mode.absolute_min_y, mode.absolute_max_y, h),
    )
}

/// Any active button or contact (tablets may set bits other than bit 0).
pub fn primary_button(st: &AbsPointerState) -> (r: bool)
    ensures
        r == (st.active_buttons != 0),
{
    st.active_buttons != 0
}

/// Bit 1 of the buttons: the alternate (right-click) button.
pub fn right_button(st: &AbsPointerState) -> (r: bool)
    ensures
        r == (st.active_buttons & 2 != 0),
{
    st.active_buttons & 0x02 != 0
}

/// The sample compared between frames to detect movement: position and buttons.
pub fn abs_state_key(st: &AbsPointerState) -> (r: (u64, u64, u32))
    ensures
        r == (st.current_x, st.current_y, st.active_buttons),
{
    (st.current_x, st.current_y, st.active_buttons)
}

} // verus!
