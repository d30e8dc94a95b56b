//! Window layout of the gallery showcase, shared by hit-testing and painting.
//!
//! All arithmetic is that of the pixel types: sizes are `u32` (reduced with a floor
//! at 0), positions `i32`, and a size is read as `i32` where it moves a position.

use vstd::prelude::*;
use crate::geometry::{Point, Rectangle, Size};
use crate::layout::{pad, padded, pad_ok, row_panels_fit_start, row_fit_ok, packed_cell};
use crate::popover::{center_in_screen, centered, center_ok, div_trunc};
use crate::window::WindowOffset;
use crate::text::{lemma_byte_len_encode, lemma_byte_len_ge_len};
use crate::popover::lemma_div_neg_divisor;

verus! {

/// Focus regions of the showcase window.
#[derive(Clone, Copy, PartialEq, Eq, Debug, Structural)]
pub enum Focus {
    Menu,
    Editor,
    Scrollbar,
    Gallery,
}

/// Width of the gallery panel.
pub const GALLERY_W: u32 = 300;
/// Padding left of a menubar label.
pub const MENU_CELL_PAD_LEFT: u32 = 4;
/// Padding right of a menubar label.
pub const MENU_CELL_PAD_RIGHT: u32 = 8;

/// Title bar height.
pub const TITLE_H: u32 = 26;
/// Menubar height.
pub const MENU_H: u32 = 22;
/// Preview panel height (when the body has room).
pub const PREVIEW_H: u32 = 128;
/// Scrollbar width.
pub const SB_W: u32 = 26;
/// Auxiliary panel width.
pub const AUX_W: u32 = 192;
/// Auxiliary panel height.
pub const AUX_H: u32 = 100;

/// Labels of the menubar (`&` marks the mnemonic letter).
pub fn menu_labels() -> (r: Vec<&'static str>)
    ensures
        r@.len() == 4,
        r@[0]@ == "&File"@,
        r@[1]@ == "&Edit"@,
        r@[2]@ == "&View"@,
        r@[3]@ == "&Help"@,
{
    let mut v: Vec<&'static str> = Vec::new();
    v.push("&File");
    v.push("&Edit");
    v.push("&View");
    v.push("&Help");
    v
}

/// Number of characters of `s` shown on screen (every `&` is a mnemonic marker).
pub open spec fn visible_len(s: Seq<char>) -> nat
    decreases s.len(),
{
    if s.len() == 0 { 0 } else { visible_len(s.drop_last()) + if s.last() == '&' { 0nat } else { 1nat } }
}

/// Number of characters of `s` other than `&`.
pub fn visible_char_count(s: &str) -> (r: usize)
    ensures
        r == visible_len(s@),
{
    let nbytes = s.as_bytes().len();
    proof {
        lemma_byte_len_encode(s@);
        lemma_byte_len_ge_len(s@);
    }
    let mut n: usize = 0;
    for c in it: s.chars()
        invariant
            it.seq() == s@,
            s@.len() <= nbytes,
            n == visible_len(s@.take(it.index() as int)),
            n <= it.index(),
    {
        assert(s@.take(it.index() + 1).drop_last() =~= s@.take(it.index() as int));
        if c != '&' {
            n = n + 1;
        }
    }
    assert(s@.take(s@.len() as int) =~= s@);
    n
}

/// `a` minus `b`, floored at 0 (as `u32::saturating_sub`).
pub open spec fn sat_sub(a: u32, b: int) -> u32 {
    if a > b { (a - b) as u32 } else { 0 }
}

/// The screen of `w` × `h` px.
pub open spec fn screen_rect(w: usize, h: usize) -> Rectangle {
    Rectangle { top_left: Point { x: 0, y: 0 }, size: Size { width: w as u32, height: h as u32 } }
}

/// Window size: four fifths of the screen, at least 480 × 360.
pub open spec fn win_size(w: usize, h: usize) -> Size {
    Size {
        width: (if w * 4 / 5 < 480 { 480 } else { w * 4 / 5 }) as u32,
        height: (if h * 4 / 5 < 360 { 360 } else { h * 4 / 5 }) as u32,
    }
}

/// The window, centered on the screen.
pub open spec fn layout_win(w: usize, h: usize) -> Rectangle {
    centered(win_size(w, h), screen_rect(w, h))
}

/// The menubar strip under the title bar.
pub open spec fn layout_menu_strip(win: Rectangle) -> Rectangle {
    Rectangle {
        top_left: Point { x: win.top_left.x, y: (win.top_left.y + TITLE_H as i32) as i32 },
        size: Size { width: win.size.width, height: MENU_H },
    }
}

/// The window body under the menubar.
pub open spec fn layout_body(win: Rectangle) -> Rectangle {
    Rectangle {
        top_left: Point { x: win.top_left.x, y: (win.top_left.y + TITLE_H as i32 + MENU_H as i32) as i32 },
        size: Size { width: win.size.width, height: sat_sub(win.size.height, TITLE_H + MENU_H) },
    }
}

/// Width of a menubar cell of a label with 4 visible characters.
pub open spec fn menu_width(mcw: u32) -> u32 {
    (MENU_CELL_PAD_LEFT + 4 * mcw + MENU_CELL_PAD_RIGHT) as u32
}

/// Widths of the menubar cells.
pub open spec fn menu_widths(mcw: u32) -> Seq<u32> {
    seq![menu_width(mcw), menu_width(mcw), menu_width(mcw), menu_width(mcw)]
}

/// Height of the preview panel: 128 px, less when the body is short.
pub open spec fn preview_height(body_pad: Rectangle) -> u32 {
    let a = sat_sub(body_pad.size.height, 48);
    if PREVIEW_H < a { PREVIEW_H } else { a }
}

/// Top of the row of gallery, editor and scrollbar.
pub open spec fn row_top(body_pad: Rectangle) -> int {
    body_pad.top_left.y + preview_height(body_pad) as i32 + 4
}

/// Height of that row.
pub open spec fn row_height(body_pad: Rectangle) -> u32 {
    sat_sub(body_pad.size.height, preview_height(body_pad) + 4)
}

/// Width of the editor.
pub open spec fn text_width(body_pad: Rectangle) -> u32 {
    sat_sub(body_pad.size.width, GALLERY_W + 6 + SB_W + 4)
}

/// The editor's rectangle.
pub open spec fn layout_text_rect(body_pad: Rectangle) -> Rectangle {
    Rectangle {
        top_left: Point { x: (body_pad.top_left.x + GALLERY_W as i32 + 6) as i32, y: row_top(body_pad) as i32 },
        size: Size { width: text_width(body_pad), height: row_height(body_pad) },
    }
}

/// Geometry of the showcase window.
pub struct UiLayoutModel {
    pub win: Rectangle,
    pub title_bar: Rectangle,
    pub menu_strip: Rectangle,
    pub menu_cells: Seq<Rectangle>,
    pub preview_rect: Rectangle,
    pub preview_inner: Rectangle,
    pub gallery_rect: Rectangle,
    pub gallery_inner: Rectangle,
    pub text_rect: Rectangle,
    pub sb_rect: Rectangle,
    pub text_inner: Rectangle,
    pub visible_lines: usize,
    pub aux_panel: Rectangle,
}

/// The layout of a `w` × `h` screen with text lines `line_h` px high, menubar
/// characters `mcw` px wide, and the auxiliary panel moved by `nudge`.
pub open spec fn ui_layout(w: usize, h: usize, line_h: i32, mcw: u32, nudge: WindowOffset) -> UiLayoutModel {
    let win = layout_win(w, h);
    let menu_strip = layout_menu_strip(win);
    let body_pad = padded(layout_body(win), 6);
    let preview_rect = Rectangle { top_left: body_pad.top_left, size: Size { width: body_pad.size.width, height: preview_height(body_pad) } };
    let rt = row_top(body_pad) as i32;
    let rh = row_height(body_pad);
    let gallery_rect = Rectangle { top_left: Point { x: body_pad.top_left.x, y: rt }, size: Size { width: GALLERY_W, height: rh } };
    let text_rect = layout_text_rect(body_pad);
    let text_inner = padded(text_rect, 3);
    let lines = div_trunc(text_inner.size.height as i32 as int, line_h as int);
    UiLayoutModel {
        win,
        title_bar: Rectangle { top_left: win.top_left, size: Size { width: win.size.width, height: TITLE_H } },
        menu_strip,
        menu_cells: Seq::new(4, |i: int| packed_cell(padded(menu_strip, 2), menu_widths(mcw), 4, i)),
        preview_rect,
        preview_inner: padded(preview_rect, 4),
        gallery_rect,
        gallery_inner: padded(gallery_rect, 3),
        text_rect,
        sb_rect: Rectangle {
            top_left: Point { x: (text_rect.top_left.x + text_rect.size.width as i32 + 4) as i32, y: rt },
            size: Size { width: SB_W, height: rh },
        },
        text_inner,
        visible_lines: (if lines < 1 { 1 } else { lines }) as usize,
        aux_panel: Rectangle {
            top_left: Point {
                x: (body_pad.top_left.x + body_pad.size.width as i32 - AUX_W as i32 - 8 + nudge.x) as i32,
                y: (body_pad.top_left.y + body_pad.size.height as i32 - AUX_H as i32 - 8 + nudge.y) as i32,
            },
            size: Size { width: AUX_W, height: AUX_H },
        },
    }
}

/// The inputs for which the layout arithmetic stays in range (`line_h` must not be 0).
pub open spec fn ui_layout_ok(w: usize, h: usize, line_h: i32, mcw: u32, nudge: WindowOffset) -> bool {
    let win = layout_win(w, h);
    let menu_strip = layout_menu_strip(win);
    let body = layout_body(win);
    let body_pad = padded(body, 6);
    let preview_rect = Rectangle { top_left: body_pad.top_left, size: Size { width: body_pad.size.width, height: preview_height(body_pad) } };
    let rt = row_top(body_pad) as i32;
    let gallery_rect = Rectangle { top_left: Point { x: body_pad.top_left.x, y: rt }, size: Size { width: GALLERY_W, height: row_height(body_pad) } };
    let text_rect = layout_text_rect(body_pad);
    &&& w * 4 <= usize::MAX
    &&& h * 4 <= usize::MAX
    &&& center_ok(win_size(w, h), screen_rect(w, h))
    &&& 4 * mcw + MENU_CELL_PAD_LEFT + MENU_CELL_PAD_RIGHT <= u32::MAX
    &&& win.top_left.y + TITLE_H as i32 + MENU_H as i32 <= i32::MAX
    &&& pad_ok(menu_strip, 2)
    &&& row_fit_ok(padded(menu_strip, 2), menu_widths(mcw), 4)
    &&& pad_ok(body, 6)
    &&& pad_ok(preview_rect, 4)
    &&& body_pad.top_left.y + preview_height(body_pad) as i32 + 4 <= i32::MAX
    &&& pad_ok(gallery_rect, 3)
    &&& body_pad.top_left.x + GALLERY_W as i32 + 6 <= i32::MAX
    &&& i32::MIN <= text_rect.top_left.x + text_rect.size.width as i32 <= i32::MAX
    &&& i32::MIN <= text_rect.top_left.x + text_rect.size.width as i32 + 4 <= i32::MAX
    &&& pad_ok(text_rect, 3)
    &&& line_h != 0
    &&& i32::MIN <= body_pad.top_left.x + body_pad.size.width as i32 <= i32::MAX
    &&& i32::MIN <= body_pad.top_left.x + body_pad.size.width as i32 - AUX_W as i32 <= i32::MAX
    &&& i32::MIN <= body_pad.top_left.x + body_pad.size.width as i32 - AUX_W as i32 - 8 <= i32::MAX
    &&& i32::MIN <= body_pad.top_left.x + body_pad.size.width as i32 - AUX_W as i32 - 8 + nudge.x <= i32::MAX
    &&& i32::MIN <= body_pad.top_left.y + body_pad.size.height as i32 <= i32::MAX
    &&& i32::MIN <= body_pad.top_left.y + body_pad.size.height as i32 - AUX_H as i32 <= i32::MAX
    &&& i32::MIN <= body_pad.top_left.y + body_pad.size.height as i32 - AUX_H as i32 - 8 <= i32::MAX
    &&& i32::MIN <= body_pad.top_left.y + body_pad.size.height as i32 - AUX_H as i32 - 8 + nudge.y <= i32::MAX
}

/// Layout shared by hit-testing and painting.
pub struct UiLayout {
    pub win: Rectangle,
    pub title_bar: Rectangle,
    /// Full-width strip under the title bar (behind `menu_cells`).
    pub menu_strip: Rectangle,
    pub menu_cells: Vec<Rectangle>,
    pub preview_rect: Rectangle,
    pub preview_inner: Rectangle,
    pub gallery_rect: Rectangle,
    pub gallery_inner: Rectangle,
    pub text_rect: Rectangle,
    pub sb_rect: Rectangle,
    pub text_inner: Rectangle,
    pub visible_lines: usize,
    pub aux_panel: Rectangle,
}

impl View for UiLayout {
    type V = UiLayoutModel;

    open spec fn view(&self) -> UiLayoutModel {
        UiLayoutModel {
            win: self.win,
            title_bar: self.title_bar,
            menu_strip: self.menu_strip,
            menu_cells: self.menu_cells@,
            preview_rect: self.preview_rect,
            preview_inner: self.preview_inner,
            gallery_rect: self.gallery_rect,
            gallery_inner: self.gallery_inner,
            text_rect: self.text_rect,
            sb_rect: self.sb_rect,
            text_inner: self.text_inner,
            visible_lines: self.visible_lines,
            aux_panel: self.aux_panel,
        }
    }
}

fn sat_sub_u32(a: u32, b: u32) -> (r: u32)
    ensures
        r == sat_sub(a, b as int),
{
    if a > b { a - b } else { 0 }
}

/// Compute the window layout (see [`ui_layout`]).
pub fn compute_layout(w: usize, h: usize, line_h: i32, menu_char_w: u32, aux_nudge: WindowOffset) -> (r: UiLayout)
    requires
        ui_layout_ok(w, h, line_h, menu_char_w, aux_nudge),
    ensures
        r@ == ui_layout(w, h, line_h, menu_char_w, aux_nudge),
{
    let screen = Rectangle::new(Point::new(0, 0), Size::new(w as u32, h as u32));
    let ww = w * 4 / 5;
    let wh = h * 4 / 5;
    let win = center_in_screen(
        Size::new((if ww < 480 { 480 } else { ww }) as u32, (if wh < 360 { 360 } else { wh }) as u32),
        screen,
    );
    let title_bar = Rectangle::new(win.top_left, Size::new(win.size.width, TITLE_H));
    let menu_strip = Rectangle::new(
        Point::new(win.top_left.x, win.top_left.y + TITLE_H as i32),
        Size::new(win.size.width, MENU_H),
    );
    let body = Rectangle::new(
        Point::new(win.top_left.x, win.top_left.y + TITLE_H as i32 + MENU_H as i32),
        Size::new(win.size.width, sat_sub_u32(win.size.height, TITLE_H + MENU_H)),
    );
    let labels = menu_labels();
    let mut menu_widths_v: Vec<u32> = Vec::new();
    proof {
        reveal_strlit("&File");
        reveal_strlit("&Edit");
        reveal_strlit("&View");
        reveal_strlit("&Help");
        reveal_with_fuel(visible_len, 6);
    }
    let mut i: usize = 0;
    while i < labels.len()
        invariant
            labels@.len() == 4,
            i <= 4,
            forall|k: int| 0 <= k < 4 ==> visible_len((#[trigger] labels@[k])@) == 4,
            4 * menu_char_w + MENU_CELL_PAD_LEFT + MENU_CELL_PAD_RIGHT <= u32::MAX,
            menu_widths_v@ == menu_widths(menu_char_w).take(i as int),
        decreases 4 - i,
    {
        let n = visible_char_count(labels[i]);
        let text_w = n as u32 * menu_char_w;
        menu_widths_v.push(MENU_CELL_PAD_LEFT + text_w + MENU_CELL_PAD_RIGHT);
        assert(menu_widths_v@ =~= menu_widths(menu_char_w).take(i + 1));
        i = i + 1;
    }
    assert(menu_widths(menu_char_w).take(4) =~= menu_widths(menu_char_w));
    let menu_pad = pad(menu_strip, 2);
    let menu_cells = row_panels_fit_start(menu_pad, menu_widths_v.as_slice(), 4);
    assert(menu_cells@ =~= Seq::new(4, |k: int| packed_cell(padded(menu_strip, 2), menu_widths(menu_char_w), 4, k)));
    let body_pad = pad(body, 6);
    let pa = sat_sub_u32(body_pad.size.height, 48);
    let preview_h = if PREVIEW_H < pa { PREVIEW_H } else { pa };
    let preview_rect = Rectangle::new(body_pad.top_left, Size::new(body_pad.size.width, preview_h));
    let preview_inner = pad(preview_rect, 4);
    let row_top = body_pad.top_left.y + preview_rect.size.height as i32 + 4;
    let row_h = sat_sub_u32(body_pad.size.height, preview_rect.size.height + 4);
    let gallery_rect = Rectangle::new(Point::new(body_pad.top_left.x, row_top), Size::new(GALLERY_W, row_h));
    let gallery_inner = pad(gallery_rect, 3);
    let text_w = sat_sub_u32(body_pad.size.width, GALLERY_W + 6 + SB_W + 4);
    let text_rect = Rectangle::new(
        Point::new(body_pad.top_left.x + GALLERY_W as i32 + 6, row_top),
        Size::new(text_w, row_h),
    );
    let sb_rect = Rectangle::new(
        Point::new(text_rect.top_left.x + text_rect.size.width as i32 + 4, row_top),
        Size::new(SB_W, row_h),
    );
    let text_inner = pad(text_rect, 3);
    let hi = text_inner.size.height as i32;
    assert(hi >= 1);
    // Quotient rounded toward zero, taken with a positive divisor.
    let q: i32 = if line_h > 0 {
        hi / line_h
    } else if line_h == i32::MIN {
        0
    } else {
        -(hi / (-line_h))
    };
    proof {
        if line_h < 0 {
            lemma_div_neg_divisor(hi as int, line_h as int);
        }
    }
    let visible_lines = (if q < 1 { 1 } else { q }) as usize;
    let aux_panel = Rectangle::new(
        Point::new(
            body_pad.top_left.x + body_pad.size.width as i32 - AUX_W as i32 - 8 + aux_nudge.x,
            body_pad.top_left.y + body_pad.size.height as i32 - AUX_H as i32 - 8 + aux_nudge.y,
        ),
        Size::new(AUX_W, AUX_H),
    );
    assert(win == layout_win(w, h));
    assert(menu_strip == layout_menu_strip(win));
    assert(body == layout_body(win));
    assert(text_rect == layout_text_rect(body_pad));
    assert(visible_lines == ui_layout(w, h, line_h, menu_char_w, aux_nudge).visible_lines);
    UiLayout {
        win,
        title_bar,
        menu_strip,
        menu_cells,
        preview_rect,
        preview_inner,
        gallery_rect,
        gallery_inner,
        text_rect,
        sb_rect,
        text_inner,
        visible_lines,
        aux_panel,
    }
}

/// Largest visible length among `labels[..n]` (0 when `n == 0`).
pub open spec fn max_visible(labels: Seq<&str>, n: int) -> nat
    decreases n,
{
    if n <= 0 {
        0
    } else {
        let m = max_visible(labels, n - 1);
        let v = visible_len(labels[n - 1]@);
        if v > m { v } else { m }
    }
}

/// The drop-down under menubar cell `cell` for `labels`: as wide as the longest label
/// (`char_w` px per character, plus 16, at least 72), one `line_h` row per label plus 8.
pub open spec fn submenu_rect(cell: Rectangle, labels: Seq<&str>, char_w: i32, line_h: i32) -> Rectangle {
    let wv = (max_visible(labels, labels.len() as int) as i32) * char_w + 16;
    let hv = (labels.len() as i32) * line_h + 8;
    Rectangle {
        top_left: Point { x: cell.top_left.x, y: (cell.top_left.y + cell.size.height as i32) as i32 },
        size: Size { width: (if wv < 72 { 72 } else { wv }) as u32, height: (if hv < 1 { 1 } else { hv }) as u32 },
    }
}

/// Drop-down rectangle under a menubar cell (`labels` = submenu entries).
pub fn submenu_popup_rect(cell: &Rectangle, labels: &[&str], char_w: i32, line_h: i32) -> (r: Rectangle)
    requires
        i32::MIN <= (max_visible(labels@, labels@.len() as int) as i32) * char_w <= i32::MAX,
        i32::MIN <= (max_visible(labels@, labels@.len() as int) as i32) * char_w + 16 <= i32::MAX,
        i32::MIN <= (labels@.len() as i32) * line_h <= i32::MAX,
        i32::MIN <= (labels@.len() as i32) * line_h + 8 <= i32::MAX,
        i32::MIN <= cell.top_left.y + cell.size.height as i32 <= i32::MAX,
    ensures
        r == submenu_rect(*cell, labels@, char_w, line_h),
{
    let mut max_chars: usize = 0;
    let mut i: usize = 0;
    while i < labels.len()
        invariant
            i <= labels@.len(),
            max_chars == max_visible(labels@, i as int),
        decreases labels@.len() - i,
    {
        let v = visible_char_count(labels[i]);
        if v > max_chars {
            max_chars = v;
        }
        i = i + 1;
    }
    let wv = (max_chars as i32) * char_w + 16;
    let hv = (labels.len() as i32) * line_h + 8;
    Rectangle::new(
        Point::new(cell.top_left.x, cell.top_left.y + cell.size.height as i32),
        Size::new((if wv < 72 { 72 } else { wv }) as u32, (if hv < 1 { 1 } else { hv }) as u32),
    )
}

} // verus!
