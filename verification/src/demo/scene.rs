//! Loading the showcase's preview image.

use vstd::prelude::*;
use crate::png::{png_dimensions_and_size, decode_png_to_rgba, png_header_info, png_decoded, image_pixels};
use vstd::slice::slice_to_vec;
use crate::geometry::Rectangle;
use crate::text::{byte_len, is_boundary};
use crate::widgets::textarea::{caret_line_col, TextArea, TextModel};

verus! {

/// Largest RGBA buffer the showcase decodes into (16 MiB).
pub const MAX_DEMO_PNG_BYTES: usize = 16 * 1024 * 1024;

/// `n` zero bytes: the buffer the showcase decodes into.
pub open spec fn zeros(n: nat) -> Seq<u8> {
    Seq::new(n, |i: int| 0u8)
}

/// Decode a PNG to its RGBA8 pixels with its width and height; `None` when the header
/// does not decode, the buffer would exceed [`MAX_DEMO_PNG_BYTES`], the buffer cannot
/// be allocated, or decoding fails. The bytes are decoded into a zero-filled buffer of
/// the size the header announces; on success the pixels are exactly what the decoder
/// yields there.
pub fn decode_demo_png(bytes: &[u8]) -> (r: Option<(Vec<u8>, u32, u32)>)
    ensures
        match png_header_info(bytes@) {
            Err(_) => r is None,
            Ok((w, h, need)) => if need > MAX_DEMO_PNG_BYTES {
                r is None
            } else {
                &&& png_decoded(bytes@, zeros(need as nat)) is Err ==> r is None
                &&& r matches Some((px, pw, ph)) ==> pw == w && ph == h
                    && png_decoded(bytes@, zeros(need as nat)) is Ok
                    && png_decoded(bytes@, zeros(need as nat))->Ok_0 == px@
                    && (4 * w * h <= usize::MAX ==> px@.len() == 4 * w * h)
            },
        },
{
    let (w, h, need) = match png_dimensions_and_size(bytes) {
        Ok(t) => t,
        Err(_) => {
            return None;
        },
    };
    if need > MAX_DEMO_PNG_BYTES {
        return None;
    }
    let mut buf: Vec<u8> = Vec::new();
    match buf.try_reserve(need) {
        Ok(()) => {},
        Err(_) => {
            return None;
        },
    }
    buf.resize(need, 0);
    assert(buf@ =~= zeros(need as nat));
    match decode_png_to_rgba(bytes, buf.as_mut_slice()) {
        Ok(img) => {
            let px = image_pixels(&img);
            Some((slice_to_vec(px), w, h))
        },
        Err(_) => None,
    }
}

/// Where the caret is drawn: its column `char_w` px per character right of the
/// inner rectangle's left edge plus 4, its line (counted from the first visible one,
/// at least 0) `line_h` px per line below the top.
pub open spec fn caret_pos(m: TextModel, inner: Rectangle, line_h: i32, char_w: i32) -> (int, int) {
    let (line, col) = caret_line_col(m);
    let rel = if line >= m.scroll_top_line { line - m.scroll_top_line } else { 0 };
    (inner.top_left.x + 4 + (col as i32) * char_w, inner.top_left.y + (rel as i32) * line_h)
}

/// The caret position arithmetic stays in `i32`, and the caret lies on a character
/// boundary (or past the end) so that its line can be sliced out.
pub open spec fn caret_pos_ok(m: TextModel, inner: Rectangle, line_h: i32, char_w: i32) -> bool {
    let (line, col) = caret_line_col(m);
    let rel = if line >= m.scroll_top_line { line - m.scroll_top_line } else { 0 };
    &&& is_boundary(m.text, m.cursor as int) || m.cursor >= byte_len(m.text)
    &&& i32::MIN <= inner.top_left.x + 4 <= i32::MAX
    &&& i32::MIN <= (col as i32) * char_w <= i32::MAX
    &&& i32::MIN <= inner.top_left.x + 4 + (col as i32) * char_w <= i32::MAX
    &&& i32::MIN <= (rel as i32) * line_h <= i32::MAX
    &&& i32::MIN <= inner.top_left.y + (rel as i32) * line_h <= i32::MAX
}

/// Pixel position of the caret in the text area (see [`caret_pos`]).
pub fn caret_xy(ta: &TextArea, inner: &Rectangle, line_h: i32, char_w: i32) -> (r: (i32, i32))
    requires
        caret_pos_ok(ta@, *inner, line_h, char_w),
    ensures
        (r.0 as int, r.1 as int) == caret_pos(ta@, *inner, line_h, char_w),
{
    let (line_idx, col) = ta.cursor_line_col();
    let top = ta.scroll_top();
    let rel = if line_idx >= top { line_idx - top } else { 0 };
    let cx = inner.top_left.x + 4 + col as i32 * char_w;
    let cy = inner.top_left.y + rel as i32 * line_h;
    (cx, cy)
}

} // verus!
