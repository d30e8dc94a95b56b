use uefi_ui::bedrock_controls::{
    compute_file_picker_layout, compute_keyboard_layout_picker_layout, FP_SB_W, KBD_SB_W,
};
use uefi_ui::geometry::{Point, Rectangle, Size};

fn r(x: i32, y: i32, w: u32, h: u32) -> Rectangle {
    Rectangle::new(Point::new(x, y), Size::new(w, h))
}

#[test]
fn file_picker_layout_splits_the_dialog() {
    let dialog = r(100, 50, 500, 400);
    let l = compute_file_picker_layout(dialog, 16, FP_SB_W);
    assert_eq!(l.dialog, dialog);
    assert_eq!(l.title_bar, r(100, 50, 500, 26));
    assert_eq!(l.close_btn, r(575, 53, 22, 20));
    assert_eq!(l.toolbar, r(108, 76, 484, 34));
    assert_eq!(l.look_in_label, r(112, 85, 56, 16));
    assert_eq!(l.nav_up_btn, r(566, 80, 26, 26));
    assert_eq!(l.look_in_dd, r(172, 80, 390, 26));
    assert_eq!(l.list_outer, r(108, 118, 484, 228));
    assert_eq!(l.sb_rect, r(566, 118, 26, 228));
    assert_eq!(l.list_inner, r(111, 121, 452, 222));
    assert_eq!(l.visible_rows, 13);
    assert_eq!(l.filename_label, r(112, 359, 90, 16));
    assert_eq!(l.filename_field, r(198, 354, 394, 26));
    assert_eq!(l.filetype_label, r(112, 389, 90, 16));
    assert_eq!(l.filetype_field, r(198, 384, 394, 26));
    assert_eq!(l.cancel_btn, r(512, 418, 80, 26));
    assert_eq!(l.ok_btn, r(424, 418, 80, 26));
}

#[test]
fn file_picker_layout_small_dialog_has_empty_list() {
    let l = compute_file_picker_layout(r(0, 0, 200, 150), 16, FP_SB_W);
    assert_eq!(l.list_outer.size.height, 0);
    assert_eq!(l.list_inner.size.height, 0);
    assert_eq!(l.visible_rows, 0);
}

#[test]
fn file_picker_layout_zero_line_height_shows_no_rows() {
    let l = compute_file_picker_layout(r(0, 0, 500, 400), 0, FP_SB_W);
    assert_eq!(l.visible_rows, 0);
}

#[test]
fn keyboard_picker_layout_splits_the_dialog() {
    let dialog = r(100, 50, 500, 400);
    let l = compute_keyboard_layout_picker_layout(dialog, 16, KBD_SB_W);
    assert_eq!(l.title_bar, r(100, 50, 500, 26));
    assert_eq!(l.close_btn, r(575, 53, 22, 20));
    assert_eq!(l.list_outer, r(108, 84, 484, 336));
    assert_eq!(l.list_inner, r(111, 87, 478, 330));
    assert_eq!(l.sb_rect, r(566, 84, 26, 336));
    assert_eq!(l.cancel_btn, r(512, 420, 80, 22));
    assert_eq!(l.ok_btn, r(424, 420, 80, 22));
    assert_eq!(l.visible_rows, 21);
}

#[test]
fn keyboard_picker_layout_line_height_floor_is_one() {
    let l = compute_keyboard_layout_picker_layout(r(0, 0, 300, 200), 0, KBD_SB_W);
    // list from y 34 to button row at 170: 136 rows of 1 px
    assert_eq!(l.list_outer.size.height, 136);
    assert_eq!(l.visible_rows, 136);
}
