//! Layout helpers: split rectangles into rows, columns, and grids (panels).
//!
//! All sizes are in pixels; gaps are applied between cells. Sizes and gaps are
//! reinterpreted as `i32` for the arithmetic, as two's complement casts do.

use vstd::prelude::*;
use crate::geometry::{Point, Rectangle, Size};
use crate::popover::div_trunc;

verus! {

/// Rust's `%` on signed integers: the remainder takes the sign of the dividend.
pub open spec fn rem_trunc(a: int, b: int) -> int {
    if a >= 0 { a % b } else { -((-a) % b) }
}

/// `max(v, 1)`.
pub open spec fn at_least1(v: int) -> int {
    if v < 1 { 1 } else { v }
}

/// A `u32` extent read as `i32` after `max(1)`, then floored at 1 again.
pub open spec fn extent1(v: u32) -> int {
    at_least1((at_least1(v as int) as u32) as i32 as int)
}

/// Width of cell `i` of `count` equal cells sharing `inner` px (the first `inner % count` get one more).
pub open spec fn share(inner: int, count: int, i: int) -> int {
    div_trunc(inner, count) + if i < rem_trunc(inner, count) { 1int } else { 0int }
}

/// Start of cell `i` when cells of width `share(inner, count, j)` follow each other with `gap` px between.
pub open spec fn share_start(start: int, inner: int, count: int, gap: int, i: int) -> int
    decreases i,
{
    if i <= 0 { start } else { share_start(start, inner, count, gap, i - 1) + share(inner, count, i - 1) + gap }
}

/// Start of cell `i` of a left-packed row of `widths` (each at least 1 px) with `gap` px between.
pub open spec fn packed_start(start: int, widths: Seq<u32>, gap: int, i: int) -> int
    decreases i,
{
    if i <= 0 {
        start
    } else {
        packed_start(start, widths, gap, i - 1) + (at_least1(widths[i - 1] as int) as u32) as i32 as int + gap
    }
}

/// Cell `i` of [`row_panels_fit_start`].
pub open spec fn packed_cell(area: Rectangle, widths: Seq<u32>, gap: u32, i: int) -> Rectangle {
    Rectangle {
        top_left: Point { x: packed_start(area.top_left.x as int, widths, gap as i32 as int, i) as i32, y: area.top_left.y },
        size: Size { width: at_least1(widths[i] as int) as u32 as i32 as u32, height: extent1(area.size.height) as u32 },
    }
}

/// Space left for `count` cells of an `extent` px span once the gaps are taken out.
pub open spec fn inner_span(extent: int, gap: int, count: int) -> int {
    extent - gap * (if count - 1 > 0 { count - 1 } else { 0 })
}

/// The cell starts and ends of a left-packed row stay in `i32`.
pub open spec fn row_fit_ok(area: Rectangle, widths: Seq<u32>, gap: u32) -> bool {
    &&& forall|i: int| 0 <= i < widths.len() ==>
        i32::MIN <= #[trigger] packed_start(area.top_left.x as int, widths, gap as i32 as int, i) <= i32::MAX
    &&& forall|i: int| 0 <= i < widths.len() ==>
        i32::MIN <= packed_start(area.top_left.x as int, widths, gap as i32 as int, i)
            + (at_least1(#[trigger] widths[i] as int) as u32) as i32 as int <= i32::MAX
}

/// Left-aligned row: cell `i` is `widths[i]` wide (at least 1), `gap` px between cells;
/// cells are not stretched to fill `area`.
pub fn row_panels_fit_start(area: Rectangle, widths: &[u32], gap: u32) -> (r: Vec<Rectangle>)
    requires
        row_fit_ok(area, widths@, gap),
    ensures
        r@.len() == widths@.len(),
        forall|i: int| 0 <= i < r@.len() ==> #[trigger] r@[i] == packed_cell(area, widths@, gap, i),
{
    let mut out: Vec<Rectangle> = Vec::new();
    if widths.len() == 0 {
        return out;
    }
    let hm = if area.size.height < 1 { 1 } else { area.size.height };
    let ah0 = hm as i32;
    let ah = if ah0 < 1 { 1 } else { ah0 };
    let g = gap as i32;
    let mut x = area.top_left.x;
    let y = area.top_left.y;
    let mut i: usize = 0;
    while i < widths.len()
        invariant
            i <= widths@.len(),
            out@.len() == i,
            i < widths@.len() ==> x == packed_start(area.top_left.x as int, widths@, g as int, i as int),
            g == gap as i32,
            ah == extent1(area.size.height),
            y == area.top_left.y,
            forall|k: int| 0 <= k < widths@.len() ==>
                i32::MIN <= #[trigger] packed_start(area.top_left.x as int, widths@, g as int, k) <= i32::MAX,
            forall|k: int| 0 <= k < widths@.len() ==>
                i32::MIN <= packed_start(area.top_left.x as int, widths@, g as int, k)
                    + (at_least1(#[trigger] widths@[k] as int) as u32) as i32 as int <= i32::MAX,
            forall|k: int| 0 <= k < i ==> #[trigger] out@[k] == packed_cell(area, widths@, gap, k),
        decreases widths@.len() - i,
    {
        let cw = widths[i];
        let w = (if cw < 1 { 1 } else { cw }) as i32;
        out.push(Rectangle::new(Point::new(x, y), Size::new(w as u32, ah as u32)));
        assert(packed_start(area.top_left.x as int, widths@, g as int, i + 1)
            == x + w + g);
        x = x + w;
        if i + 1 < widths.len() {
            x = x + g;
        }
        i = i + 1;
    }
    out
}


/// Cell `i` of [`row_panels`] on `area` split into `count` cells.
pub open spec fn row_cell(area: Rectangle, count: int, gap: u32, i: int) -> Rectangle {
    let inner = inner_span(area.size.width as i32 as int, gap as i32 as int, count);
    Rectangle {
        top_left: Point {
            x: share_start(area.top_left.x as int, inner, count, gap as i32 as int, i) as i32,
            y: area.top_left.y,
        },
        size: Size { width: at_least1(share(inner, count, i)) as u32, height: extent1(area.size.height) as u32 },
    }
}

/// Cell `i` of [`column_panels`] on `area` split into `count` cells.
pub open spec fn column_cell(area: Rectangle, count: int, gap: u32, i: int) -> Rectangle {
    let inner = inner_span(area.size.height as i32 as int, gap as i32 as int, count);
    Rectangle {
        top_left: Point {
            x: area.top_left.x,
            y: share_start(area.top_left.y as int, inner, count, gap as i32 as int, i) as i32,
        },
        size: Size { width: extent1(area.size.width) as u32, height: at_least1(share(inner, count, i)) as u32 },
    }
}

/// The arithmetic of splitting a span of `extent` px into `count` cells stays within `i32`.
pub open spec fn split_fits(start: int, extent: int, gap: int, count: int) -> bool {
    let inner = inner_span(extent, gap, count);
    &&& i32::MIN <= gap * (if count - 1 > 0 { count - 1 } else { 0 }) <= i32::MAX
    &&& i32::MIN <= inner <= i32::MAX
    &&& forall|i: int| 0 <= i < count ==> i32::MIN <= #[trigger] share(inner, count, i) + gap <= i32::MAX
    &&& forall|i: int| 0 <= i <= count ==> i32::MIN <= #[trigger] share_start(start, inner, count, gap, i) <= i32::MAX
}

proof fn lemma_share_bounds(inner: int, count: int, i: int)
    requires
        0 < count <= i32::MAX,
        i32::MIN <= inner <= i32::MAX,
        0 <= i,
    ensures
        i32::MIN <= div_trunc(inner, count) <= i32::MAX,
        i32::MIN <= rem_trunc(inner, count) <= i32::MAX,
        i32::MIN <= share(inner, count, i) <= i32::MAX,
{
    if inner >= 0 {
        assert(0 <= inner / count <= inner) by (nonlinear_arith) requires inner >= 0, count > 0;
        assert(0 <= inner % count < count) by (nonlinear_arith) requires count > 0;
        assert(count * (inner / count) + inner % count == inner) by (nonlinear_arith) requires count > 0;
        if inner % count > 0 {
            assert(inner / count < inner) by (nonlinear_arith)
                requires count * (inner / count) + inner % count == inner, inner % count > 0, count > 0, inner / count >= 0;
        }
    } else {
        assert(0 <= (-inner) / count <= -inner) by (nonlinear_arith) requires -inner >= 0, count > 0;
        assert(0 <= (-inner) % count < count) by (nonlinear_arith) requires count > 0;
    }
}

/// Split a span into `count` equal cells (first ones one px larger when it does not divide).
/// Returns the starts and sizes of the cells.
fn split_span(start: i32, extent: u32, gap: u32, count: usize) -> (r: (Vec<i32>, Vec<i32>))
    requires
        0 < count <= i32::MAX,
        split_fits(start as int, extent as i32 as int, gap as i32 as int, count as int),
    ensures
        r.0@.len() == count,
        r.1@.len() == count,
        forall|i: int| 0 <= i < count ==> #[trigger] r.0@[i] == share_start(
            start as int, inner_span(extent as i32 as int, gap as i32 as int, count as int), count as int, gap as i32 as int, i),
        forall|i: int| 0 <= i < count ==> #[trigger] r.1@[i] == share(
            inner_span(extent as i32 as int, gap as i32 as int, count as int), count as int, i),
{
    let e = extent as i32;
    let g = gap as i32;
    let c = count as i32;
    let gaps = g * (if c - 1 > 0 { c - 1 } else { 0 });
    let inner = e - gaps;
    let ghost inner_s = inner_span(extent as i32 as int, gap as i32 as int, count as int);
    assert(inner == inner_s);
    let base = inner / c;
    let rem = inner % c;
    proof { lemma_share_bounds(inner as int, c as int, 0); }
    let mut starts: Vec<i32> = Vec::new();
    let mut sizes: Vec<i32> = Vec::new();
    let mut x = start;
    let mut i: usize = 0;
    while i < count
        invariant
            i <= count,
            count <= i32::MAX,
            c == count,
            g == gap as i32,
            inner == inner_s,
            base == div_trunc(inner as int, c as int),
            rem == rem_trunc(inner as int, c as int),
            split_fits(start as int, extent as i32 as int, g as int, count as int),
            inner_s == inner_span(extent as i32 as int, g as int, count as int),
            x == share_start(start as int, inner_s, count as int, g as int, i as int),
            starts@.len() == i,
            sizes@.len() == i,
            forall|k: int| 0 <= k < i ==> #[trigger] starts@[k] == share_start(start as int, inner_s, count as int, g as int, k),
            forall|k: int| 0 <= k < i ==> #[trigger] sizes@[k] == share(inner_s, count as int, k),
        decreases count - i,
    {
        proof { lemma_share_bounds(inner as int, c as int, i as int); }
        let extra: i32 = if (i as i32) < rem { 1 } else { 0 };
        let w = base + extra;
        assert(w == share(inner_s, count as int, i as int));
        assert(i32::MIN <= share(inner_s, count as int, i as int) + g <= i32::MAX);
        assert(i32::MIN <= share_start(start as int, inner_s, count as int, g as int, i + 1) <= i32::MAX);
        starts.push(x);
        sizes.push(w);
        x = x + (w + g);
        i = i + 1;
    }
    (starts, sizes)
}

/// Horizontal stack: `count` rectangles of equal width inside `area`, `gap` px between.
pub fn row_panels(area: Rectangle, count: usize, gap: u32) -> (r: Vec<Rectangle>)
    requires
        count <= i32::MAX,
        count > 0 ==> split_fits(area.top_left.x as int, area.size.width as i32 as int, gap as i32 as int, count as int),
    ensures
        r@.len() == count,
        forall|i: int| 0 <= i < count ==> #[trigger] r@[i] == row_cell(area, count as int, gap, i),
{
    let mut out: Vec<Rectangle> = Vec::new();
    if count == 0 {
        return out;
    }
    let hm = if area.size.height < 1 { 1 } else { area.size.height };
    let ah0 = hm as i32;
    let ah = if ah0 < 1 { 1 } else { ah0 };
    let (starts, sizes) = split_span(area.top_left.x, area.size.width, gap, count);
    let mut i: usize = 0;
    while i < count
        invariant
            i <= count,
            starts@.len() == count,
            sizes@.len() == count,
            ah == extent1(area.size.height),
            out@.len() == i,
            forall|k: int| 0 <= k < count ==> #[trigger] starts@[k] == share_start(
                area.top_left.x as int, inner_span(area.size.width as i32 as int, gap as i32 as int, count as int),
                count as int, gap as i32 as int, k),
            forall|k: int| 0 <= k < count ==> #[trigger] sizes@[k] == share(
                inner_span(area.size.width as i32 as int, gap as i32 as int, count as int), count as int, k),
            forall|k: int| 0 <= k < i ==> #[trigger] out@[k] == row_cell(area, count as int, gap, k),
        decreases count - i,
    {
        let w = sizes[i];
        out.push(Rectangle::new(
            Point::new(starts[i], area.top_left.y),
            Size::new((if w < 1 { 1 } else { w }) as u32, ah as u32),
        ));
        i = i + 1;
    }
    out
}

/// Vertical stack: `count` rectangles of equal height inside `area`, `gap` px between.
pub fn column_panels(area: Rectangle, count: usize, gap: u32) -> (r: Vec<Rectangle>)
    requires
        count <= i32::MAX,
        count > 0 ==> split_fits(area.top_left.y as int, area.size.height as i32 as int, gap as i32 as int, count as int),
    ensures
        r@.len() == count,
        forall|i: int| 0 <= i < count ==> #[trigger] r@[i] == column_cell(area, count as int, gap, i),
{
    let mut out: Vec<Rectangle> = Vec::new();
    if count == 0 {
        return out;
    }
    let wm = if area.size.width < 1 { 1 } else { area.size.width };
    let aw0 = wm as i32;
    let aw = if aw0 < 1 { 1 } else { aw0 };
    let (starts, sizes) = split_span(area.top_left.y, area.size.height, gap, count);
    let mut i: usize = 0;
    while i < count
        invariant
            i <= count,
            starts@.len() == count,
            sizes@.len() == count,
            aw == extent1(area.size.width),
            out@.len() == i,
            forall|k: int| 0 <= k < count ==> #[trigger] starts@[k] == share_start(
                area.top_left.y as int, inner_span(area.size.height as i32 as int, gap as i32 as int, count as int),
                count as int, gap as i32 as int, k),
            forall|k: int| 0 <= k < count ==> #[trigger] sizes@[k] == share(
                inner_span(area.size.height as i32 as int, gap as i32 as int, count as int), count as int, k),
            forall|k: int| 0 <= k < i ==> #[trigger] out@[k] == column_cell(area, count as int, gap, k),
        decreases count - i,
    {
        let h = sizes[i];
        out.push(Rectangle::new(
            Point::new(area.top_left.x, starts[i]),
            Size::new(aw as u32, (if h < 1 { 1 } else { h }) as u32),
        ));
        i = i + 1;
    }
    out
}

/// Size of one grid cell along an axis: the span left after gaps divided evenly, at least 1.
pub open spec fn grid_step_size(extent: u32, gap: u32, n: int) -> int {
    at_least1(div_trunc(inner_span(extent as i32 as int, gap as i32 as int, n), n))
}

/// Cell at row `rr`, column `cc` of [`grid_panels`].
pub open spec fn grid_cell(area: Rectangle, cols: int, rows: int, gap: u32, rr: int, cc: int) -> Rectangle {
    let cw = grid_step_size(area.size.width, gap, cols);
    let ch = grid_step_size(area.size.height, gap, rows);
    Rectangle {
        top_left: Point {
            x: (area.top_left.x + cc * (cw + gap as i32)) as i32,
            y: (area.top_left.y + rr * (ch + gap as i32)) as i32,
        },
        size: Size { width: cw as u32, height: ch as u32 },
    }
}

/// The arithmetic of a `cols × rows` grid stays within `i32`.
pub open spec fn grid_fits(area: Rectangle, cols: int, rows: int, gap: u32) -> bool {
    let g = gap as i32 as int;
    let cw = grid_step_size(area.size.width, gap, cols);
    let ch = grid_step_size(area.size.height, gap, rows);
    &&& i32::MIN <= g * (cols - 1) <= i32::MAX
    &&& i32::MIN <= g * (rows - 1) <= i32::MAX
    &&& i32::MIN <= inner_span(area.size.width as i32 as int, g, cols) <= i32::MAX
    &&& i32::MIN <= inner_span(area.size.height as i32 as int, g, rows) <= i32::MAX
    &&& i32::MIN <= cw + g <= i32::MAX
    &&& i32::MIN <= ch + g <= i32::MAX
    &&& forall|k: int| 0 <= k <= cols ==> i32::MIN <= #[trigger] (area.top_left.x + k * (cw + g)) <= i32::MAX
    &&& forall|k: int| 0 <= k <= rows ==> i32::MIN <= #[trigger] (area.top_left.y + k * (ch + g)) <= i32::MAX
}

proof fn lemma_grid_index(rr: int, cc: int, r: int, c: int, cols: int)
    requires
        0 <= rr,
        0 <= cc < cols,
        0 <= c <= cols,
        rr < r || (rr == r && cc < c),
    ensures
        rr * cols + cc < r * cols + c,
        0 <= rr * cols + cc,
{
    if rr < r {
        assert(rr * cols + cc < r * cols) by (nonlinear_arith) requires rr < r, cc < cols, 0 <= cc;
        assert(r * cols <= r * cols + c) by (nonlinear_arith) requires c >= 0;
    }
    assert(0 <= rr * cols) by (nonlinear_arith) requires 0 <= rr, 0 <= cols;
}

/// `cols × rows` grid in reading order, uniform cells, `gap` px gutters.
pub fn grid_panels(area: Rectangle, cols: usize, rows: usize, gap: u32) -> (r: Vec<Rectangle>)
    requires
        cols <= i32::MAX,
        rows <= i32::MAX,
        cols * rows <= usize::MAX,
        cols > 0 && rows > 0 ==> grid_fits(area, cols as int, rows as int, gap),
    ensures
        r@.len() == cols * rows,
        forall|rr: int, cc: int| 0 <= rr < rows && 0 <= cc < cols ==>
            #[trigger] r@[rr * cols + cc] == grid_cell(area, cols as int, rows as int, gap, rr, cc),
{
    let mut out: Vec<Rectangle> = Vec::new();
    if cols == 0 || rows == 0 {
        assert(cols * rows == 0) by (nonlinear_arith) requires cols == 0 || rows == 0;
        return out;
    }
    let gx = gap as i32;
    let gy = gap as i32;
    let c32 = cols as i32;
    let r32 = rows as i32;
    let inner_w = area.size.width as i32 - gx * (if c32 - 1 > 0 { c32 - 1 } else { 0 });
    let inner_h = area.size.height as i32 - gy * (if r32 - 1 > 0 { r32 - 1 } else { 0 });
    let cw0 = inner_w / c32;
    let ch0 = inner_h / r32;
    let cw = if cw0 < 1 { 1 } else { cw0 };
    let ch = if ch0 < 1 { 1 } else { ch0 };
    assert(cw == grid_step_size(area.size.width, gap, cols as int));
    assert(ch == grid_step_size(area.size.height, gap, rows as int));
    let mut y = area.top_left.y;
    let mut ri: usize = 0;
    while ri < rows
        invariant
            0 < cols <= i32::MAX,
            0 < rows <= i32::MAX,
            cols * rows <= usize::MAX,
            ri <= rows,
            gx == gap as i32,
            gy == gap as i32,
            grid_fits(area, cols as int, rows as int, gap),
            cw == grid_step_size(area.size.width, gap, cols as int),
            ch == grid_step_size(area.size.height, gap, rows as int),
            y == area.top_left.y + ri * (ch + gy),
            out@.len() == ri * cols,
            forall|rr: int, cc: int| 0 <= rr < ri && 0 <= cc < cols ==>
                #[trigger] out@[rr * cols + cc] == grid_cell(area, cols as int, rows as int, gap, rr, cc),
        decreases rows - ri,
    {
        let mut x = area.top_left.x;
        let mut ci: usize = 0;
        while ci < cols
            invariant
                0 < cols <= i32::MAX,
                0 < rows <= i32::MAX,
                cols * rows <= usize::MAX,
                ri < rows,
                ci <= cols,
                gx == gap as i32,
                gy == gap as i32,
                grid_fits(area, cols as int, rows as int, gap),
                cw == grid_step_size(area.size.width, gap, cols as int),
                ch == grid_step_size(area.size.height, gap, rows as int),
                y == area.top_left.y + ri * (ch + gy),
                x == area.top_left.x + ci * (cw + gx),
                out@.len() == ri * cols + ci,
                forall|rr: int, cc: int| 0 <= rr < ri && 0 <= cc < cols ==>
                    #[trigger] out@[rr * cols + cc] == grid_cell(area, cols as int, rows as int, gap, rr, cc),
                forall|cc: int| 0 <= cc < ci ==>
                    #[trigger] out@[ri * cols + cc] == grid_cell(area, cols as int, rows as int, gap, ri as int, cc),
            decreases cols - ci,
        {
            proof {
                assert(area.top_left.x + (ci + 1) * (cw + gx) == x + (cw + gx)) by (nonlinear_arith)
                    requires x == area.top_left.x + ci * (cw + gx);
                assert(i32::MIN <= area.top_left.x + (ci + 1) * (cw + gx) <= i32::MAX);
                assert(ri * cols + ci < cols * rows) by (nonlinear_arith)
                    requires ri < rows, ci < cols, 0 <= ri;
            }
            let ghost before = out@;
            out.push(Rectangle::new(Point::new(x, y), Size::new(cw as u32, ch as u32)));
            proof {
                assert forall|rr: int, cc: int| 0 <= rr < ri && 0 <= cc < cols implies
                    #[trigger] out@[rr * cols + cc] == grid_cell(area, cols as int, rows as int, gap, rr, cc) by {
                    lemma_grid_index(rr, cc, ri as int, ci as int, cols as int);
                    assert(out@[rr * cols + cc] == before[rr * cols + cc]);
                }
                assert forall|cc: int| 0 <= cc < ci + 1 implies
                    #[trigger] out@[ri * cols + cc] == grid_cell(area, cols as int, rows as int, gap, ri as int, cc) by {
                    if cc < ci {
                        assert(out@[ri * cols + cc] == before[ri * cols + cc]);
                    }
                }
            }
            x = x + (cw + gx);
            ci = ci + 1;
        }
        proof {
            assert(area.top_left.y + (ri + 1) * (ch + gy) == y + (ch + gy)) by (nonlinear_arith)
                requires y == area.top_left.y + ri * (ch + gy);
            assert(i32::MIN <= area.top_left.y + (ri + 1) * (ch + gy) <= i32::MAX);
            assert(ri * cols + cols == (ri + 1) * cols) by (nonlinear_arith);
            assert forall|rr: int, cc: int| 0 <= rr < ri + 1 && 0 <= cc < cols implies
                #[trigger] out@[rr * cols + cc] == grid_cell(area, cols as int, rows as int, gap, rr, cc) by {
                if rr == ri {
                } else {
                }
            }
        }
        y = y + (ch + gy);
        ri = ri + 1;
    }
    assert(rows * cols == cols * rows) by (nonlinear_arith);
    out
}

/// Insetting `area` by `pad_px` stays in `i32`.
pub open spec fn pad_ok(area: Rectangle, pad_px: u32) -> bool {
    &&& i32::MIN <= 2 * (pad_px as i32) <= i32::MAX
    &&& i32::MIN <= area.size.width as i32 - 2 * (pad_px as i32) <= i32::MAX
    &&& i32::MIN <= area.size.height as i32 - 2 * (pad_px as i32) <= i32::MAX
    &&& i32::MIN <= area.top_left.x + (pad_px as i32) <= i32::MAX
    &&& i32::MIN <= area.top_left.y + (pad_px as i32) <= i32::MAX
}

/// `area` inset by `pad_px` on every side (sizes at least 1).
pub open spec fn padded(area: Rectangle, pad_px: u32) -> Rectangle {
    Rectangle {
        top_left: Point {
            x: (area.top_left.x + (pad_px as i32)) as i32,
            y: (area.top_left.y + (pad_px as i32)) as i32,
        },
        size: Size {
            width: at_least1(area.size.width as i32 - 2 * (pad_px as i32)) as u32,
            height: at_least1(area.size.height as i32 - 2 * (pad_px as i32)) as u32,
        },
    }
}

/// Inset `area` by `pad_px` on every side (at least 1×1).
pub fn pad(area: Rectangle, pad_px: u32) -> (r: Rectangle)
    requires
        pad_ok(area, pad_px),
    ensures
        r == padded(area, pad_px),
        r.top_left.x == area.top_left.x + (pad_px as i32),
        r.top_left.y == area.top_left.y + (pad_px as i32),
        r.size.width == at_least1(area.size.width as i32 - 2 * (pad_px as i32)),
        r.size.height == at_least1(area.size.height as i32 - 2 * (pad_px as i32)),
{
    let p = pad_px as i32;
    let w0 = area.size.width as i32 - 2 * p;
    let h0 = area.size.height as i32 - 2 * p;
    let w = if w0 < 1 { 1 } else { w0 };
    let h = if h0 < 1 { 1 } else { h0 };
    Rectangle::new(Point::new(area.top_left.x + p, area.top_left.y + p), Size::new(w as u32, h as u32))
}

} // verus!
