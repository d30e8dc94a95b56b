//! Input handling of the showcase window outside the gallery: firmware keys, the
//! pointer cursor shape, scrolling the editor with its scrollbar focused, and caret
//! placement by clicking.

use vstd::prelude::*;
use crate::geometry::{Point, Rectangle};
use crate::input::{Key, KeyEvent, Modifiers};
use crate::keymap::{
    RawKey, nav_key, nav_key_of, printable_event, printable_key_event, SCAN_INSERT, SCAN_FUNCTION_1,
    SCAN_FUNCTION_12,
};
use crate::demo::layout::{UiLayout, UiLayoutModel};
use crate::text::split_on;
use crate::widgets::scrollbar::{ScrollAxis, ScrollbarState};
use crate::widgets::textarea::{at, index_at_line_col, textarea_sync_vertical_scroll, wrapped, TextArea, TextModel};

verus! {

// ── Firmware keys ───────────────────────────────────────────────────────────

/// The showcase's reading of a firmware key: navigation keys, Insert (as
/// `Other(0x7F)`), F1–F12, and printable characters (see [`printable_event`]).
pub open spec fn demo_key_event(k: RawKey) -> Option<KeyEvent> {
    match k {
        RawKey::Printable(u) => printable_event(u),
        RawKey::Special(code) => {
            if nav_key(code) is Some {
                Some(KeyEvent { key: nav_key(code)->0, modifiers: Modifiers::none_spec() })
            } else if code == SCAN_INSERT {
                Some(KeyEvent { key: Key::Other(0x7F), modifiers: Modifiers::none_spec() })
            } else if SCAN_FUNCTION_1 <= code <= SCAN_FUNCTION_12 {
                Some(KeyEvent { key: Key::Function((code - SCAN_FUNCTION_1 + 1) as u8), modifiers: Modifiers::none_spec() })
            } else {
                None
            }
        },
    }
}

/// Map a firmware key to a key event (see [`demo_key_event`]).
pub fn map_uefi_to_key_event(k: RawKey) -> (r: Option<KeyEvent>)
    ensures
        r == demo_key_event(k),
{
    match k {
        RawKey::Printable(u) => printable_key_event(u),
        RawKey::Special(code) => {
            match nav_key_of(code) {
                Some(key) => Some(KeyEvent::new(key)),
                None => {
                    if code == SCAN_INSERT {
                        Some(KeyEvent::new(Key::Other(0x7F)))
                    } else if SCAN_FUNCTION_1 <= code && code <= SCAN_FUNCTION_12 {
                        Some(KeyEvent::new(Key::Function((code - SCAN_FUNCTION_1 + 1) as u8)))
                    } else {
                        None
                    }
                },
            }
        },
    }
}

/// Navigation keys add the latched virtual Shift / Alt to their modifiers; other
/// events pass through unchanged.
pub open spec fn merged_nav(ev: KeyEvent, virtual_shift: bool, virtual_alt: bool) -> KeyEvent {
    match ev.key {
        Key::Left | Key::Right | Key::Up | Key::Down | Key::Home | Key::End | Key::PageUp | Key::PageDown => KeyEvent {
            key: ev.key,
            modifiers: Modifiers {
                shift: ev.modifiers.shift || virtual_shift,
                alt: ev.modifiers.alt || virtual_alt,
                ctrl: ev.modifiers.ctrl,
            },
        },
        _ => ev,
    }
}

/// Apply latched virtual modifiers to a navigation key (see [`merged_nav`]).
pub fn merge_virtual_nav(ev: KeyEvent, virtual_shift: bool, virtual_alt: bool) -> (r: KeyEvent)
    ensures
        r == merged_nav(ev, virtual_shift, virtual_alt),
{
    let nav = match ev.key {
        Key::Left | Key::Right | Key::Up | Key::Down | Key::Home | Key::End | Key::PageUp | Key::PageDown => true,
        _ => false,
    };
    if !nav {
        return ev;
    }
    KeyEvent {
        key: ev.key,
        modifiers: Modifiers {
            shift: ev.modifiers.shift || virtual_shift,
            alt: ev.modifiers.alt || virtual_alt,
            ctrl: ev.modifiers.ctrl,
        },
    }
}

// ── Pointer cursor ──────────────────────────────────────────────────────────

/// Pointer cursor shapes.
#[derive(Debug, Clone, Copy, PartialEq, Eq, Structural)]
pub enum CursorShape {
    Arrow,
    IBeam,
    Hand,
    /// Horizontal resize (left/right window edge).
    ResizeH,
    /// Vertical resize (bottom window edge).
    ResizeV,
    /// Diagonal resize (bottom-right corner).
    ResizeNWSE,
    /// Diagonal resize (bottom-left corner).
    ResizeNESW,
}

/// Pixels from a window edge that select a resize cursor.
pub const RESIZE_HIT: i32 = 6;

/// The window edges stay in `i32` with the resize margin around them.
pub open spec fn cursor_layout_ok(l: UiLayoutModel) -> bool {
    let wx0 = l.win.top_left.x as int;
    let wy0 = l.win.top_left.y as int;
    let wx1 = wx0 + l.win.size.width as i32;
    let wy1 = wy0 + l.win.size.height as i32;
    &&& i32::MIN <= wx0 - 6 && wx0 + 6 <= i32::MAX
    &&& i32::MIN <= wy0 - 6 && wy0 + 6 <= i32::MAX
    &&& i32::MIN <= wx1 - 6 && wx1 + 6 <= i32::MAX
    &&& i32::MIN <= wy1 - 6 && wy1 + 6 <= i32::MAX
}

/// The cursor over `(px, py)`: resize arrows within 6 px of the left, right and
/// bottom window edges (corners first; the top edge is for dragging), an I-beam over
/// the text, a hand over the gallery, the menubar cells and the scrollbar, the arrow
/// elsewhere.
pub open spec fn cursor_shape(px: i32, py: i32, l: UiLayoutModel) -> CursorShape {
    let pt = Point { x: px, y: py };
    let wx0 = l.win.top_left.x as int;
    let wy0 = l.win.top_left.y as int;
    let wx1 = wx0 + l.win.size.width as i32;
    let wy1 = wy0 + l.win.size.height as i32;
    let near = wx0 - 6 <= px <= wx1 + 6 && wy0 - 6 <= py <= wy1 + 6;
    let on_left = wx0 - 6 <= px < wx0 + 6;
    let on_right = wx1 - 6 < px <= wx1 + 6;
    let on_bottom = wy1 - 6 < py <= wy1 + 6;
    if near && on_bottom && on_left {
        CursorShape::ResizeNESW
    } else if near && on_bottom && on_right {
        CursorShape::ResizeNWSE
    } else if near && (on_left || on_right) {
        CursorShape::ResizeH
    } else if near && on_bottom {
        CursorShape::ResizeV
    } else if l.text_inner.contains_spec(pt) {
        CursorShape::IBeam
    } else if l.gallery_inner.contains_spec(pt)
        || (exists|i: int| 0 <= i < l.menu_cells.len() && #[trigger] l.menu_cells[i].contains_spec(pt))
        || l.sb_rect.contains_spec(pt) {
        CursorShape::Hand
    } else {
        CursorShape::Arrow
    }
}

/// Whether any rectangle of `cells` contains `pt`.
fn any_contains(cells: &Vec<Rectangle>, pt: Point) -> (r: bool)
    ensures
        r == exists|i: int| 0 <= i < cells@.len() && #[trigger] cells@[i].contains_spec(pt),
{
    let mut i: usize = 0;
    while i < cells.len()
        invariant
            i <= cells@.len(),
            forall|j: int| 0 <= j < i ==> !(#[trigger] cells@[j].contains_spec(pt)),
        decreases cells@.len() - i,
    {
        if cells[i].contains(pt) {
            return true;
        }
        i = i + 1;
    }
    false
}

/// The cursor shape at `(px, py)` (see [`cursor_shape`]).
pub fn cursor_shape_at(px: i32, py: i32, layout: &UiLayout) -> (r: CursorShape)
    requires
        cursor_layout_ok(layout@),
    ensures
        r == cursor_shape(px, py, layout@),
{
    let pt = Point::new(px, py);
    let win = layout.win;
    let wx0 = win.top_left.x;
    let wy0 = win.top_left.y;
    let wx1 = wx0 + win.size.width as i32;
    let wy1 = wy0 + win.size.height as i32;
    let near_win = px >= wx0 - RESIZE_HIT && px <= wx1 + RESIZE_HIT && py >= wy0 - RESIZE_HIT && py <= wy1 + RESIZE_HIT;
    if near_win {
        let on_left = px >= wx0 - RESIZE_HIT && px < wx0 + RESIZE_HIT;
        let on_right = px > wx1 - RESIZE_HIT && px <= wx1 + RESIZE_HIT;
        let on_bottom = py > wy1 - RESIZE_HIT && py <= wy1 + RESIZE_HIT;
        if on_bottom && on_left {
            return CursorShape::ResizeNESW;
        }
        if on_bottom && on_right {
            return CursorShape::ResizeNWSE;
        }
        if on_left || on_right {
            return CursorShape::ResizeH;
        }
        if on_bottom {
            return CursorShape::ResizeV;
        }
    }
    assert(pt == Point { x: px, y: py });
    assert(layout@.menu_cells == layout.menu_cells@);
    if layout.text_inner.contains(pt) {
        CursorShape::IBeam
    } else if layout.gallery_inner.contains(pt) || any_contains(&layout.menu_cells, pt) || layout.sb_rect.contains(pt) {
        CursorShape::Hand
    } else {
        CursorShape::Arrow
    }
}

// ── Scrolling with the scrollbar focused ────────────────────────────────────

/// Whether the text overflows a window of `visible_lines` (at least 1) lines, so the
/// scrollbar can take focus.
pub open spec fn overflows(m: TextModel, visible_lines: usize) -> bool {
    let n = split_on(m.text, '\n').len();
    (if n < 1 { 1 } else { n }) > (if visible_lines < 1 { 1 } else { visible_lines as int })
}

/// Whether the scrollbar can take focus (see [`overflows`]).
pub fn scroll_focusable(textarea: &TextArea, visible_lines: usize) -> (r: bool)
    ensures
        r == overflows(textarea@, visible_lines),
{
    let vl = if visible_lines < 1 { 1 } else { visible_lines };
    let n = textarea.line_count();
    (if n < 1 { 1 } else { n }) > vl
}

/// The first visible line after `key` with `lines` lines in a window of `vl` lines:
/// Up/Down move by one, Page Up/Down by a window, Home/End go to the ends; the result
/// is at most `lines - vl` (at least 0), other keys only apply that cap.
pub open spec fn scrolled_top(top: usize, key: Key, lines: int, vl: usize) -> int {
    let v = if vl < 1 { 1 } else { vl as int };
    let max_top = if lines > v { lines - v } else { 0 };
    let t = match key {
        Key::Up => if top >= 1 { top - 1 } else { 0 },
        Key::Down => if top + 1 < max_top { top + 1 } else { max_top },
        Key::PageUp => if top >= v { top - v } else { 0 },
        Key::PageDown => if top + v < max_top { top + v } else { max_top },
        Key::Home => 0,
        Key::End => max_top,
        _ => top as int,
    };
    if t < max_top { t } else { max_top }
}

/// The keys that move by adding to the first visible line stay in `usize`.
pub open spec fn scroll_key_ok(top: usize, key: Key, vl: usize) -> bool {
    &&& key == Key::Down ==> top + 1 <= usize::MAX
    &&& key == Key::PageDown ==> top + (if vl < 1 { 1 } else { vl as int }) <= usize::MAX
}

/// Scroll the text by `ev` and point the scrollbar at the result (see [`scrolled_top`]).
pub fn apply_scrollbar_keys(textarea: &mut TextArea, scroll: &mut ScrollbarState, ev: &KeyEvent, visible_lines: usize)
    requires
        scroll_key_ok(old(textarea)@.scroll_top_line, ev.key, visible_lines),
    ensures
        final(textarea)@ == (TextModel {
            scroll_top_line: scrolled_top(
                old(textarea)@.scroll_top_line, ev.key, split_on(old(textarea)@.text, '\n').len() as int, visible_lines,
            ) as usize,
            ..old(textarea)@
        }),
        final(scroll).axis == ScrollAxis::Vertical,
        final(scroll).content_len == (if wrapped(old(textarea)@.text, 0).len() < 1 { 1 } else {
            wrapped(old(textarea)@.text, 0).len()
        }),
        final(scroll).viewport_len == (if visible_lines < 1 { 1 } else { visible_lines }),
        final(scroll).offset == final(textarea)@.scroll_top_line,
{
    let vl = if visible_lines < 1 { 1 } else { visible_lines };
    let n = textarea.line_count();
    let max_top = if n > vl { n - vl } else { 0 };
    let top = textarea.scroll_top();
    let t = match ev.key {
        Key::Up => if top >= 1 { top - 1 } else { 0 },
        Key::Down => if top + 1 < max_top { top + 1 } else { max_top },
        Key::PageUp => if top >= vl { top - vl } else { 0 },
        Key::PageDown => if top + vl < max_top { top + vl } else { max_top },
        Key::Home => 0,
        Key::End => max_top,
        _ => top,
    };
    textarea.set_scroll_top(if t < max_top { t } else { max_top });
    textarea_sync_vertical_scroll(textarea, visible_lines, 0, scroll);
}

// ── Clicking into the text ──────────────────────────────────────────────────

/// The byte offset under a click at `(px, py)` in a text area whose inner rectangle
/// starts at `inner` (text indented 4 px), rows `line_h` (at least 1) px high and
/// characters `char_w` px wide; `None` above the text or below its last line.
pub open spec fn click_byte(m: TextModel, scroll_top_line: usize, inner: Point, line_h: i32, char_w: u32, px: i32, py: i32) -> Option<usize> {
    let rel_y = py - inner.y;
    let lh = if line_h < 1 { 1 } else { line_h as int };
    let line = scroll_top_line + rel_y / lh;
    let rel_x = px - inner.x - 4;
    let col = if rel_x <= 0 { 0 } else { rel_x / (char_w as int) };
    if rel_y < 0 || line >= split_on(m.text, '\n').len() {
        None
    } else {
        Some(at(m, index_at_line_col(m.text, line as nat, col)))
    }
}

/// Byte offset for a mouse click in the text area (see [`click_byte`]).
pub fn byte_at_click(
    ta: &TextArea,
    scroll_top_line: usize,
    inner_top_left: Point,
    line_h: i32,
    char_w: u32,
    px: i32,
    py: i32,
) -> (r: Option<usize>)
    requires
        char_w > 0,
        i32::MIN <= py - inner_top_left.y <= i32::MAX,
        i32::MIN <= px - inner_top_left.x - 4 && px - inner_top_left.x <= i32::MAX,
        py >= inner_top_left.y ==> scroll_top_line + (py - inner_top_left.y) / (if line_h < 1 { 1 } else { line_h as int }) <= usize::MAX,
    ensures
        r == click_byte(ta@, scroll_top_line, inner_top_left, line_h, char_w, px, py),
{
    let rel_y = py - inner_top_left.y;
    if rel_y < 0 {
        return None;
    }
    let lh = (if line_h < 1 { 1 } else { line_h }) as usize;
    let line_idx = scroll_top_line + (rel_y as usize / lh);
    let rel_x = px - inner_top_left.x - 4;
    let col = if rel_x <= 0 { 0 } else { (rel_x as u32 / char_w) as usize };
    ta.byte_at_line_col(line_idx, col)
}

} // verus!
