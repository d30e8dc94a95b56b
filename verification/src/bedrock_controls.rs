//! Geometry of the Bedrock-style dialogs: the file picker and the keyboard
//! layout picker. Sizes are read as `i32` for the arithmetic, as two's
//! complement casts do.

use vstd::prelude::*;
use crate::geometry::{Point, Rectangle, Size};
use crate::layout::{pad, pad_ok, padded};
use crate::popover::div_trunc;

verus! {

/// Width of the Bedrock bevel, in pixels.
pub const BEVEL_PX: u32 = 3;
/// Scrollbar width of the file picker list.
pub const FP_SB_W: u32 = 26;
/// Height of the title bar in the file picker dialog.
pub const FP_TITLE_H: u32 = 26;
/// Height of the "Look in" toolbar strip.
pub const FP_TOOLBAR_H: u32 = 34;
/// Height of the filename / file-type row.
pub const FP_FIELD_ROW_H: u32 = 26;
/// Height of the OK / Cancel button row + padding.
pub const FP_BUTTON_ROW_H: u32 = 38;
/// Width of OK / Cancel buttons.
pub const FP_BTN_W: u32 = 80;
/// Width of the label column ("File name:", "Files of type:").
pub const FP_LABEL_W: u32 = 90;
/// Scrollbar width of the keyboard layout list.
pub const KBD_SB_W: u32 = 26;
/// Height of the title bar in the keyboard layout picker.
pub const KBD_TITLE_H: u32 = 26;
/// Height of the OK / Cancel button row + padding.
pub const KBD_BUTTON_ROW_H: u32 = 38;
/// Width of OK / Cancel buttons.
pub const KBD_BTN_W: u32 = 80;

/// `v` is an `i32` value.
pub open spec fn fits(v: int) -> bool {
    i32::MIN <= v <= i32::MAX
}

/// `max(v, 0)`.
pub open spec fn at_least0(v: int) -> int {
    if v < 0 { 0 } else { v }
}

/// `a - b` floored at 0.
pub open spec fn sat_sub(a: u32, b: int) -> u32 {
    if a > b { (a - b) as u32 } else { 0 }
}

/// A rectangle from plain coordinates.
pub open spec fn rect(x: int, y: int, w: u32, h: u32) -> Rectangle {
    Rectangle { top_left: Point { x: x as i32, y: y as i32 }, size: Size { width: w, height: h } }
}

/// Computed geometry for the file picker dialog.
#[derive(Debug, Clone, Copy, PartialEq, Eq, Structural)]
pub struct FilePickerLayout {
    pub dialog: Rectangle,
    pub title_bar: Rectangle,
    pub close_btn: Rectangle,
    pub toolbar: Rectangle,
    pub look_in_label: Rectangle,
    pub look_in_dd: Rectangle,
    pub nav_up_btn: Rectangle,
    pub list_outer: Rectangle,
    pub list_inner: Rectangle,
    pub sb_rect: Rectangle,
    pub filename_label: Rectangle,
    pub filename_field: Rectangle,
    pub filetype_label: Rectangle,
    pub filetype_field: Rectangle,
    pub ok_btn: Rectangle,
    pub cancel_btn: Rectangle,
    /// Number of rows visible in the file list (`list_inner.height / line_h`).
    pub visible_rows: usize,
}

/// Height of the file list of a dialog `dh` px high (before the cast to `u32`).
pub open spec fn fp_list_h(dh: u32) -> int {
    at_least0(dh as i32 - 26 - 34 - 96 - 16)
}

/// Left edge of the scrollbar (and the nav-up button) in a file picker at `x`, `dw` px wide.
pub open spec fn fp_sb_x(x: int, dw: u32, sb_w: u32) -> int {
    x + 8 + ((dw - 16) as u32) as i32 - sb_w as i32
}

/// The file picker geometry for `dialog`, rows `line_h` px high and a scrollbar `sb_w` px wide.
pub open spec fn file_picker_layout(dialog: Rectangle, line_h: i32, sb_w: u32) -> FilePickerLayout {
    let x = dialog.top_left.x as int;
    let y = dialog.top_left.y as int;
    let dw = dialog.size.width;
    let dh = dialog.size.height;
    let ty = y + 26;
    let list_top = ty + 34 + 8;
    let list_h = fp_list_h(dh) as u32;
    let inner_h = sat_sub(list_h, 6);
    let fields_top = list_top + list_h + 8;
    let filetype_top = fields_top + 26 + 4;
    let field_w = at_least0(dw as i32 - 8 - 90 - 8) as u32;
    let btn_y = y + dh as i32 - 38 + 6;
    let dd_x = x + 12 + 56 + 4;
    FilePickerLayout {
        dialog,
        title_bar: rect(x, y, dw, 26),
        close_btn: rect(x + dw as i32 - 3 - 22, y + 3, 22, 20),
        toolbar: rect(x + 8, ty, (dw - 16) as u32, 34),
        look_in_label: rect(x + 12, ty + div_trunc(34 - line_h, 2), 56, line_h as u32),
        look_in_dd: rect(dd_x, ty + 4, at_least0(fp_sb_x(x, dw, sb_w) - dd_x - 4) as u32, 26),
        nav_up_btn: rect(fp_sb_x(x, dw, sb_w), ty + div_trunc(34 - sb_w as i32, 2), sb_w, sb_w),
        list_outer: rect(x + 8, list_top, (dw - 16) as u32, list_h),
        list_inner: rect(x + 11, list_top + 3, sat_sub((dw - 16) as u32, 6 + sb_w), inner_h),
        sb_rect: rect(fp_sb_x(x, dw, sb_w), list_top, sb_w, list_h),
        filename_label: rect(x + 12, fields_top + div_trunc(26 - line_h, 2), 90, line_h as u32),
        filename_field: rect(x + 98, fields_top, field_w, 26),
        filetype_label: rect(x + 12, filetype_top + div_trunc(26 - line_h, 2), 90, line_h as u32),
        filetype_field: rect(x + 98, filetype_top, field_w, 26),
        ok_btn: rect(x + dw as i32 - 88 - 88, btn_y, 80, 26),
        cancel_btn: rect(x + dw as i32 - 88, btn_y, 80, 26),
        visible_rows: (if line_h > 0 { inner_h as int / line_h as int } else { 0 }) as usize,
    }
}

/// The inputs on which the file picker arithmetic stays in range.
pub open spec fn file_picker_layout_ok(dialog: Rectangle, line_h: i32, sb_w: u32) -> bool {
    let x = dialog.top_left.x as int;
    let y = dialog.top_left.y as int;
    let dw = dialog.size.width;
    let dh = dialog.size.height;
    let dwi = dw as i32 as int;
    let dhi = dh as i32 as int;
    let ty = y + 26;
    let list_top = ty + 34 + 8;
    let fields_top = list_top + fp_list_h(dh) + 8;
    let sbx = fp_sb_x(x, dw, sb_w);
    &&& dw >= 16
    &&& 6 + sb_w <= u32::MAX
    &&& fits(x + dwi) && fits(x + dwi - 3) && fits(x + dwi - 25)
    &&& fits(x + 98) && fits(list_top)
    &&& fits(x + 8 + ((dw - 16) as u32) as i32) && fits(sbx)
    &&& fits(34 - sb_w as i32) && fits(ty + div_trunc(34 - sb_w as i32, 2))
    &&& fits(34 - line_h) && fits(26 - line_h)
    &&& fits(ty + div_trunc(34 - line_h, 2))
    &&& fits(sbx - (x + 72)) && fits(sbx - (x + 72) - 4)
    &&& fits(dhi - 172)
    &&& fits(fields_top) && fits(fields_top + 30)
    &&& fits(fields_top + div_trunc(26 - line_h, 2))
    &&& fits(fields_top + 30 + div_trunc(26 - line_h, 2))
    &&& fits(dwi - 106)
    &&& fits(y + dhi) && fits(y + dhi - 38) && fits(y + dhi - 32)
    &&& fits(x + dwi - 8) && fits(x + dwi - 88) && fits(x + dwi - 168) && fits(x + dwi - 176)
}

fn fits64(v: i64) -> (r: bool)
    ensures
        r == fits(v as int),
{
    -2147483648i64 <= v && v <= 2147483647i64
}

/// Whether [`compute_file_picker_layout`] can take these inputs: exactly
/// [`file_picker_layout_ok`], the inputs on which the arithmetic stays in range.
pub fn file_picker_layout_fits(dialog: Rectangle, line_h: i32, sb_w: u32) -> (r: bool)
    ensures
        r == file_picker_layout_ok(dialog, line_h, sb_w),
{
    let dw = dialog.size.width;
    let dh = dialog.size.height;
    if dw < 16 || sb_w > 4294967289u32 {
        return false;
    }
    let x = dialog.top_left.x as i64;
    let y = dialog.top_left.y as i64;
    let dwi = (dw as i32) as i64;
    let dhi = (dh as i32) as i64;
    let sbw = (sb_w as i32) as i64;
    let lh = line_h as i64;
    let ty = y + 26;
    let list_top = ty + 34 + 8;
    let lh0 = dhi - 26 - 34 - 96 - 16;
    let list_h = if lh0 < 0 { 0 } else { lh0 };
    let fields_top = list_top + list_h + 8;
    let inner_w = (((dw - 16) as u32) as i32) as i64;
    let sbx = x + 8 + inner_w - sbw;
    fits64(x + dwi) && fits64(x + dwi - 3) && fits64(x + dwi - 25)
        && fits64(x + 98) && fits64(list_top)
        && fits64(x + 8 + inner_w) && fits64(sbx)
        && fits64(34 - sbw) && fits64(ty + (34 - sbw) / 2)
        && fits64(34 - lh) && fits64(26 - lh)
        && fits64(ty + (34 - lh) / 2)
        && fits64(sbx - (x + 72)) && fits64(sbx - (x + 72) - 4)
        && fits64(dhi - 172)
        && fits64(fields_top) && fits64(fields_top + 30)
        && fits64(fields_top + (26 - lh) / 2)
        && fits64(fields_top + 30 + (26 - lh) / 2)
        && fits64(dwi - 106)
        && fits64(y + dhi) && fits64(y + dhi - 38) && fits64(y + dhi - 32)
        && fits64(x + dwi - 8) && fits64(x + dwi - 88) && fits64(x + dwi - 168) && fits64(x + dwi - 176)
}

/// Derive all sub-rectangles of the file picker from its outer rect and `line_h`
/// (see [`file_picker_layout`]).
pub fn compute_file_picker_layout(dialog: Rectangle, line_h: i32, sb_w: u32) -> (r: FilePickerLayout)
    requires
        file_picker_layout_ok(dialog, line_h, sb_w),
    ensures
        r == file_picker_layout(dialog, line_h, sb_w),
{
    let x = dialog.top_left.x;
    let y = dialog.top_left.y;
    let dw = dialog.size.width;
    let dh = dialog.size.height;
    let bevel = BEVEL_PX as i32;
    let pad_px = bevel + 5;

    let title_bar = Rectangle::new(Point::new(x, y), Size::new(dw, FP_TITLE_H));
    let cb_w = 22i32;
    let cb_h = 20i32;
    let close_btn = Rectangle::new(
        Point::new(x + dw as i32 - 3 - cb_w, y + (FP_TITLE_H as i32 - cb_h) / 2),
        Size::new(cb_w as u32, cb_h as u32),
    );

    let toolbar_y = y + FP_TITLE_H as i32;
    let toolbar = Rectangle::new(Point::new(x + pad_px, toolbar_y), Size::new(dw - pad_px as u32 * 2, FP_TOOLBAR_H));
    let look_in_label_w = 56i32;
    let look_in_label = Rectangle::new(
        Point::new(toolbar.top_left.x + 4, toolbar_y + (FP_TOOLBAR_H as i32 - line_h) / 2),
        Size::new(look_in_label_w as u32, line_h as u32),
    );
    let nav_btn = Rectangle::new(
        Point::new(
            toolbar.top_left.x + toolbar.size.width as i32 - sb_w as i32,
            toolbar_y + (FP_TOOLBAR_H as i32 - sb_w as i32) / 2,
        ),
        Size::new(sb_w, sb_w),
    );
    let dd_x = look_in_label.top_left.x + look_in_label_w + 4;
    let dd_w0 = nav_btn.top_left.x - dd_x - 4;
    let dd_w = (if dd_w0 < 0 { 0 } else { dd_w0 }) as u32;
    let look_in_dd = Rectangle::new(
        Point::new(dd_x, toolbar_y + (FP_TOOLBAR_H as i32 - FP_FIELD_ROW_H as i32) / 2),
        Size::new(dd_w, FP_FIELD_ROW_H),
    );

    let footer_h = FP_FIELD_ROW_H * 2 + 6 + FP_BUTTON_ROW_H;
    let list_top = toolbar_y + FP_TOOLBAR_H as i32 + pad_px;
    let list_h0 = dh as i32 - FP_TITLE_H as i32 - FP_TOOLBAR_H as i32 - footer_h as i32 - pad_px * 2;
    let list_h = (if list_h0 < 0 { 0 } else { list_h0 }) as u32;
    let list_outer = Rectangle::new(Point::new(x + pad_px, list_top), Size::new(dw - pad_px as u32 * 2, list_h));
    let sb_rect = Rectangle::new(
        Point::new(list_outer.top_left.x + list_outer.size.width as i32 - sb_w as i32, list_outer.top_left.y),
        Size::new(sb_w, list_h),
    );
    let inner_w_cut = bevel as u32 * 2 + sb_w;
    let inner_w = if list_outer.size.width > inner_w_cut { list_outer.size.width - inner_w_cut } else { 0 };
    let inner_h = if list_h > bevel as u32 * 2 { list_h - bevel as u32 * 2 } else { 0 };
    let list_inner = Rectangle::new(
        Point::new(list_outer.top_left.x + bevel, list_outer.top_left.y + bevel),
        Size::new(inner_w, inner_h),
    );
    let visible_rows = if line_h > 0 { list_inner.size.height as usize / line_h as usize } else { 0 };

    let fields_top = list_top + list_h as i32 + pad_px;
    let filename_label = Rectangle::new(
        Point::new(x + pad_px + 4, fields_top + (FP_FIELD_ROW_H as i32 - line_h) / 2),
        Size::new(FP_LABEL_W, line_h as u32),
    );
    let fn_field_x = x + pad_px + FP_LABEL_W as i32;
    let fn_w0 = dw as i32 - pad_px - FP_LABEL_W as i32 - pad_px;
    let fn_field_w = (if fn_w0 < 0 { 0 } else { fn_w0 }) as u32;
    let filename_field = Rectangle::new(Point::new(fn_field_x, fields_top), Size::new(fn_field_w, FP_FIELD_ROW_H));

    let filetype_top = fields_top + FP_FIELD_ROW_H as i32 + 4;
    let filetype_label = Rectangle::new(
        Point::new(x + pad_px + 4, filetype_top + (FP_FIELD_ROW_H as i32 - line_h) / 2),
        Size::new(FP_LABEL_W, line_h as u32),
    );
    let ft_field_x = x + pad_px + FP_LABEL_W as i32;
    let ft_w0 = dw as i32 - pad_px - FP_LABEL_W as i32 - pad_px;
    let ft_field_w = (if ft_w0 < 0 { 0 } else { ft_w0 }) as u32;
    let filetype_field = Rectangle::new(Point::new(ft_field_x, filetype_top), Size::new(ft_field_w, FP_FIELD_ROW_H));

    let btn_y = y + dh as i32 - FP_BUTTON_ROW_H as i32 + (FP_BUTTON_ROW_H as i32 - FP_FIELD_ROW_H as i32) / 2;
    let cancel_btn = Rectangle::new(
        Point::new(x + dw as i32 - pad_px - FP_BTN_W as i32, btn_y),
        Size::new(FP_BTN_W, FP_FIELD_ROW_H),
    );
    let ok_btn = Rectangle::new(
        Point::new(cancel_btn.top_left.x - FP_BTN_W as i32 - 8, btn_y),
        Size::new(FP_BTN_W, FP_FIELD_ROW_H),
    );

    FilePickerLayout {
        dialog,
        title_bar,
        close_btn,
        toolbar,
        look_in_label,
        look_in_dd,
        nav_up_btn: nav_btn,
        list_outer,
        list_inner,
        sb_rect,
        filename_label,
        filename_field,
        filetype_label,
        filetype_field,
        ok_btn,
        cancel_btn,
        visible_rows,
    }
}

/// Computed geometry for the keyboard layout picker dialog.
#[derive(Debug, Clone, Copy, PartialEq, Eq, Structural)]
pub struct KeyboardLayoutPickerLayout {
    pub dialog: Rectangle,
    pub title_bar: Rectangle,
    pub close_btn: Rectangle,
    pub list_outer: Rectangle,
    pub list_inner: Rectangle,
    pub sb_rect: Rectangle,
    pub ok_btn: Rectangle,
    pub cancel_btn: Rectangle,
    /// Number of rows visible in the layout list (`list_outer.height / line_h`).
    pub visible_rows: usize,
}

/// Height of the layout list of the keyboard picker (before the cast to `u32`).
pub open spec fn kbd_list_h(dialog: Rectangle) -> int {
    let y = dialog.top_left.y as int;
    at_least0((y + dialog.size.height as i32 - 38 + 8) - (y + 26 + 8))
}

/// The keyboard layout picker geometry for `dialog`, rows `line_h` px high and a
/// scrollbar `sb_w` px wide.
pub open spec fn keyboard_layout_picker_layout(dialog: Rectangle, line_h: i32, sb_w: u32) -> KeyboardLayoutPickerLayout {
    let x = dialog.top_left.x as int;
    let y = dialog.top_left.y as int;
    let dw = dialog.size.width;
    let list_top = y + 26 + 8;
    let btn_y = y + dialog.size.height as i32 - 38 + 8;
    let list_h = kbd_list_h(dialog) as u32;
    let list_outer = rect(x + 8, list_top, (dw - 16) as u32, list_h);
    KeyboardLayoutPickerLayout {
        dialog,
        title_bar: rect(x, y, dw, 26),
        close_btn: rect(x + dw as i32 - 3 - 22, y + 3, 22, 20),
        list_outer,
        list_inner: padded(list_outer, 3),
        sb_rect: rect(x + 8 + ((dw - 16) as u32) as i32 - sb_w as i32, list_top, sb_w, list_h),
        ok_btn: rect(x + dw as i32 - 88 - 88, btn_y, 80, 22),
        cancel_btn: rect(x + dw as i32 - 88, btn_y, 80, 22),
        visible_rows: (kbd_list_h(dialog) / (if line_h < 1 { 1 } else { line_h as int })) as usize,
    }
}

/// The inputs on which the keyboard layout picker arithmetic stays in range.
pub open spec fn keyboard_layout_picker_layout_ok(dialog: Rectangle, line_h: i32, sb_w: u32) -> bool {
    let x = dialog.top_left.x as int;
    let y = dialog.top_left.y as int;
    let dw = dialog.size.width;
    let dwi = dw as i32 as int;
    let dhi = dialog.size.height as i32 as int;
    let list_top = y + 26 + 8;
    let btn_y = y + dhi - 38 + 8;
    let list_h = kbd_list_h(dialog) as u32;
    &&& dw >= 16
    &&& fits(x + dwi) && fits(x + dwi - 3) && fits(x + dwi - 25)
    &&& fits(x + 8) && fits(list_top)
    &&& fits(y + dhi) && fits(y + dhi - 38) && fits(btn_y)
    &&& fits(btn_y - list_top)
    &&& pad_ok(rect(x + 8, list_top, (dw - 16) as u32, list_h), 3)
    &&& fits(x + 8 + ((dw - 16) as u32) as i32) && fits(x + 8 + ((dw - 16) as u32) as i32 - sb_w as i32)
    &&& fits(x + dwi - 8) && fits(x + dwi - 88) && fits(x + dwi - 168) && fits(x + dwi - 176)
}

/// Whether [`compute_keyboard_layout_picker_layout`] can take these inputs: exactly
/// [`keyboard_layout_picker_layout_ok`].
pub fn keyboard_layout_picker_layout_fits(dialog: Rectangle, line_h: i32, sb_w: u32) -> (r: bool)
    ensures
        r == keyboard_layout_picker_layout_ok(dialog, line_h, sb_w),
{
    let dw = dialog.size.width;
    if dw < 16 {
        return false;
    }
    let x = dialog.top_left.x as i64;
    let y = dialog.top_left.y as i64;
    let dwi = (dw as i32) as i64;
    let dhi = (dialog.size.height as i32) as i64;
    let list_top = y + 26 + 8;
    let btn_y = y + dhi - 38 + 8;
    let lh0 = btn_y - list_top;
    let inner_w = (((dw - 16) as u32) as i32) as i64;
    let sbw = (sb_w as i32) as i64;
    if !(fits64(x + 8) && fits64(list_top) && fits64(lh0) && fits64(y + dhi) && fits64(btn_y)) {
        return false;
    }
    let list_h = if lh0 < 0 { 0u32 } else { lh0 as u32 };
    let lhi = (list_h as i32) as i64;
    fits64(x + dwi) && fits64(x + dwi - 3) && fits64(x + dwi - 25)
        && fits64(y + dhi - 38)
        && fits64(inner_w - 6) && fits64(lhi - 6)
        && fits64(x + 8 + 3) && fits64(list_top + 3)
        && fits64(x + 8 + inner_w) && fits64(x + 8 + inner_w - sbw)
        && fits64(x + dwi - 8) && fits64(x + dwi - 88) && fits64(x + dwi - 168) && fits64(x + dwi - 176)
}

/// Derive all sub-rectangles of the keyboard layout picker from its outer rect
/// and `line_h` (see [`keyboard_layout_picker_layout`]).
pub fn compute_keyboard_layout_picker_layout(dialog: Rectangle, line_h: i32, sb_w: u32) -> (r: KeyboardLayoutPickerLayout)
    requires
        keyboard_layout_picker_layout_ok(dialog, line_h, sb_w),
    ensures
        r == keyboard_layout_picker_layout(dialog, line_h, sb_w),
{
    let x = dialog.top_left.x;
    let y = dialog.top_left.y;
    let dw = dialog.size.width;
    let dh = dialog.size.height;
    let bevel_px = BEVEL_PX as i32;
    let inner_pad = bevel_px + 5;

    let title_bar = Rectangle::new(Point::new(x, y), Size::new(dw, KBD_TITLE_H));
    let cb_w = 22i32;
    let cb_h = 20i32;
    let close_btn = Rectangle::new(
        Point::new(x + dw as i32 - 3 - cb_w, y + (KBD_TITLE_H as i32 - cb_h) / 2),
        Size::new(cb_w as u32, cb_h as u32),
    );

    let list_top = y + KBD_TITLE_H as i32 + inner_pad;
    let btn_y = y + dh as i32 - KBD_BUTTON_ROW_H as i32 + (KBD_BUTTON_ROW_H as i32 - 22) / 2;
    let list_h0 = btn_y - list_top;
    let list_h = (if list_h0 < 0 { 0 } else { list_h0 }) as u32;
    let list_outer = Rectangle::new(Point::new(x + inner_pad, list_top), Size::new(dw - inner_pad as u32 * 2, list_h));
    let list_inner = pad(list_outer, BEVEL_PX);
    let sb_rect = Rectangle::new(
        Point::new(list_outer.top_left.x + list_outer.size.width as i32 - sb_w as i32, list_outer.top_left.y),
        Size::new(sb_w, list_h),
    );

    let cancel_btn = Rectangle::new(
        Point::new(x + dw as i32 - inner_pad - KBD_BTN_W as i32, btn_y),
        Size::new(KBD_BTN_W, 22),
    );
    let ok_btn = Rectangle::new(
        Point::new(cancel_btn.top_left.x - KBD_BTN_W as i32 - 8, btn_y),
        Size::new(KBD_BTN_W, 22),
    );

    let per_row = if line_h < 1 { 1 } else { line_h };
    let visible_rows = (list_h as i32 / per_row) as usize;

    KeyboardLayoutPickerLayout {
        dialog,
        title_bar,
        close_btn,
        list_outer,
        list_inner,
        sb_rect,
        ok_btn,
        cancel_btn,
        visible_rows,
    }
}

} // verus!
