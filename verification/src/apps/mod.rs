//! Logic of the two text editors built on the library: key mapping, menu geometry,
//! search and scrolling.

pub mod lotus_os;
pub mod skriver;

use vstd::prelude::*;
use crate::geometry::{Point, Rectangle, Size};

verus! {

/// Number of characters of `s` shown in a menu: `&` marks a mnemonic and `-` draws
/// a separator, neither takes a column.
pub open spec fn menu_label_len(s: Seq<char>) -> nat
    decreases s.len(),
{
    if s.len() == 0 {
        0
    } else {
        menu_label_len(s.drop_last()) + if s.last() == '&' || s.last() == '-' { 0nat } else { 1nat }
    }
}

/// Largest [`menu_label_len`] among `items[..n]` (0 when `n == 0`).
pub open spec fn max_label_len(items: Seq<&str>, n: int) -> nat
    decreases n,
{
    if n <= 0 {
        0
    } else {
        let m = max_label_len(items, n - 1);
        let v = menu_label_len(items[n - 1]@);
        if v > m { v } else { m }
    }
}

/// Count the menu columns of `s` (see [`menu_label_len`]).
pub fn menu_label_chars(s: &str) -> (r: usize)
    ensures
        r == menu_label_len(s@),
{
    let nbytes = s.as_bytes().len();
    proof {
        crate::text::lemma_byte_len_encode(s@);
        crate::text::lemma_byte_len_ge_len(s@);
    }
    let mut n: usize = 0;
    for c in it: s.chars()
        invariant
            it.seq() == s@,
            s@.len() <= nbytes,
            n == menu_label_len(s@.take(it.index() as int)),
            n <= it.index(),
    {
        assert(s@.take(it.index() + 1).drop_last() =~= s@.take(it.index() as int));
        if c != '&' && c != '-' {
            n = n + 1;
        }
    }
    assert(s@.take(s@.len() as int) =~= s@);
    n
}

/// The drop-down under menubar cell `cell` for `items`: `char_w` px per column of the
/// longest item plus 20 (at least `min_w`), `line_h` px per item plus 8 (at least 4).
pub open spec fn popup_under(cell: Rectangle, items: Seq<&str>, char_w: i32, line_h: i32, min_w: i32) -> Rectangle {
    let wv = (max_label_len(items, items.len() as int) as i32) * char_w + 20;
    let hv = (items.len() as i32) * line_h + 8;
    Rectangle {
        top_left: Point { x: cell.top_left.x, y: (cell.top_left.y + cell.size.height as i32) as i32 },
        size: Size { width: (if wv < min_w { min_w as int } else { wv }) as u32, height: (if hv < 4 { 4 } else { hv }) as u32 },
    }
}

/// The drop-down geometry arithmetic stays in `i32`.
pub open spec fn popup_under_ok(cell: Rectangle, items: Seq<&str>, char_w: i32, line_h: i32) -> bool {
    &&& i32::MIN <= (max_label_len(items, items.len() as int) as i32) * char_w <= i32::MAX
    &&& i32::MIN <= (max_label_len(items, items.len() as int) as i32) * char_w + 20 <= i32::MAX
    &&& i32::MIN <= (items.len() as i32) * line_h <= i32::MAX
    &&& i32::MIN <= (items.len() as i32) * line_h + 8 <= i32::MAX
    &&& i32::MIN <= cell.top_left.y + cell.size.height as i32 <= i32::MAX
}

/// Drop-down rectangle under a menubar cell (see [`popup_under`]).
pub fn popup_rect_under(cell: &Rectangle, items: &[&str], char_w: i32, line_h: i32, min_w: i32) -> (r: Rectangle)
    requires
        popup_under_ok(*cell, items@, char_w, line_h),
    ensures
        r == popup_under(*cell, items@, char_w, line_h, min_w),
{
    let mut max_ch: usize = 0;
    let mut i: usize = 0;
    while i < items.len()
        invariant
            i <= items@.len(),
            max_ch == max_label_len(items@, i as int),
        decreases items@.len() - i,
    {
        let v = menu_label_chars(items[i]);
        if v > max_ch {
            max_ch = v;
        }
        i = i + 1;
    }
    let wv = (max_ch as i32) * char_w + 20;
    let hv = (items.len() as i32) * line_h + 8;
    Rectangle::new(
        Point::new(cell.top_left.x, cell.top_left.y + cell.size.height as i32),
        Size::new((if wv < min_w { min_w } else { wv }) as u32, (if hv < 4 { 4 } else { hv }) as u32),
    )
}

} // verus!
