use uefi_ui::apps::{lotus_os, skriver};
use uefi_ui::demo::absolute_pointer::{
    abs_state_key, map_abs_to_pixels, primary_button, right_button, AbsPointerMode, AbsPointerState,
};
use uefi_ui::demo::interaction::{
    apply_scrollbar_keys, byte_at_click, cursor_shape_at, map_uefi_to_key_event, merge_virtual_nav,
    scroll_focusable, CursorShape,
};
use uefi_ui::demo::layout::UiLayout;
use uefi_ui::demo::scene::caret_xy;
use uefi_ui::geometry::{Point, Rectangle, Size};
use uefi_ui::input::{Key, KeyEvent, Modifiers};
use uefi_ui::keymap::RawKey;
use uefi_ui::widgets::scrollbar::{ScrollAxis, ScrollbarState};
use uefi_ui::widgets::textarea::TextArea;

fn r(x: i32, y: i32, w: u32, h: u32) -> Rectangle {
    Rectangle::new(Point::new(x, y), Size::new(w, h))
}

fn ctrl(c: char) -> Option<KeyEvent> {
    Some(KeyEvent::with_modifiers(Key::Character(c), Modifiers { shift: false, ctrl: true, alt: false }))
}

#[test]
fn demo_keys_map_scan_codes() {
    assert_eq!(map_uefi_to_key_event(RawKey::Special(0x04)), Some(KeyEvent::new(Key::Left)));
    assert_eq!(map_uefi_to_key_event(RawKey::Special(0x01)), Some(KeyEvent::new(Key::Up)));
    assert_eq!(map_uefi_to_key_event(RawKey::Special(0x0A)), Some(KeyEvent::new(Key::PageDown)));
    assert_eq!(map_uefi_to_key_event(RawKey::Special(0x17)), Some(KeyEvent::new(Key::Escape)));
    assert_eq!(map_uefi_to_key_event(RawKey::Special(0x07)), Some(KeyEvent::new(Key::Other(0x7F))));
    assert_eq!(map_uefi_to_key_event(RawKey::Special(0x0B)), Some(KeyEvent::new(Key::Function(1))));
    assert_eq!(map_uefi_to_key_event(RawKey::Special(0x16)), Some(KeyEvent::new(Key::Function(12))));
    assert_eq!(map_uefi_to_key_event(RawKey::Special(0x68)), None);
    assert_eq!(map_uefi_to_key_event(RawKey::Special(0x00)), None);
}

#[test]
fn demo_keys_map_printable_characters() {
    assert_eq!(map_uefi_to_key_event(RawKey::Printable(13)), Some(KeyEvent::new(Key::Enter)));
    assert_eq!(map_uefi_to_key_event(RawKey::Printable(10)), Some(KeyEvent::new(Key::Enter)));
    assert_eq!(map_uefi_to_key_event(RawKey::Printable(9)), Some(KeyEvent::new(Key::Tab)));
    assert_eq!(map_uefi_to_key_event(RawKey::Printable(8)), Some(KeyEvent::new(Key::Backspace)));
    assert_eq!(map_uefi_to_key_event(RawKey::Printable(3)), ctrl('c'));
    assert_eq!(map_uefi_to_key_event(RawKey::Printable(26)), ctrl('z'));
    assert_eq!(map_uefi_to_key_event(RawKey::Printable(0x41)), Some(KeyEvent::new(Key::Character('A'))));
    assert_eq!(map_uefi_to_key_event(RawKey::Printable(0xE9)), Some(KeyEvent::new(Key::Character('é'))));
    assert_eq!(map_uefi_to_key_event(RawKey::Printable(0xD800)), None);
}

#[test]
fn editor_keys_map_their_own_specials() {
    assert_eq!(lotus_os::map_key(RawKey::Special(0x03)), Some(KeyEvent::new(Key::Right)));
    assert_eq!(lotus_os::map_key(RawKey::Special(0x14)), None);
    assert_eq!(lotus_os::map_key(RawKey::Special(0x07)), None);
    assert_eq!(lotus_os::map_key(RawKey::Printable(19)), ctrl('s'));
    assert_eq!(skriver::map_key(RawKey::Special(0x14)), Some(KeyEvent::new(Key::Function(10))));
    assert_eq!(skriver::map_key(RawKey::Special(0x0B)), None);
    assert_eq!(skriver::map_key(RawKey::Special(0x08)), Some(KeyEvent::new(Key::Delete)));
    assert_eq!(skriver::map_key(RawKey::Printable(0x20)), Some(KeyEvent::new(Key::Character(' '))));
}

#[test]
fn virtual_modifiers_apply_to_navigation_only() {
    let left = KeyEvent::new(Key::Left);
    let merged = merge_virtual_nav(left, true, false);
    assert_eq!(merged.modifiers, Modifiers { shift: true, ctrl: false, alt: false });
    let both = merge_virtual_nav(KeyEvent::new(Key::End), true, true);
    assert_eq!(both.modifiers, Modifiers { shift: true, ctrl: false, alt: true });
    let ch = KeyEvent::new(Key::Character('x'));
    assert_eq!(merge_virtual_nav(ch, true, true), ch);
    let held = KeyEvent::with_modifiers(Key::Up, Modifiers { shift: true, ctrl: true, alt: false });
    assert_eq!(merge_virtual_nav(held, false, false), held);
}

#[test]
fn find_in_lists_every_occurrence() {
    assert_eq!(lotus_os::find_in("abab", "ab"), vec![(0, 2), (2, 4)]);
    assert_eq!(lotus_os::find_in("aaa", "aa"), vec![(0, 2), (1, 3)]);
    assert_eq!(lotus_os::find_in("héllo hé", "h"), vec![(0, 1), (7, 8)]);
    assert_eq!(lotus_os::find_in("abc", ""), Vec::<(usize, usize)>::new());
    assert_eq!(lotus_os::find_in("ab", "abc"), Vec::<(usize, usize)>::new());
    assert_eq!(lotus_os::find_in("xyz", "q"), Vec::<(usize, usize)>::new());
}

#[test]
fn mode_hints_name_the_keys() {
    assert_eq!(lotus_os::mode_hint(lotus_os::Mode::Editing), "Esc: menu");
    assert_eq!(lotus_os::mode_hint(lotus_os::Mode::Find), "type query  Enter: next match  Esc: close");
}

#[test]
fn editor_popups_fit_the_longest_item() {
    let cell = r(10, 0, 40, 20);
    let items = ["&New", "--", "Save &As..."];
    assert_eq!(lotus_os::popup_rect_for(&cell, &items), r(10, 20, 100, 38));
    assert_eq!(skriver::popup_rect_for(&cell, &items), r(10, 20, 80, 38));
    assert_eq!(skriver::popup_rect_for(&cell, &[]), r(10, 20, 72, 8));
}

#[test]
fn click_places_the_caret_by_line_and_column() {
    let ta = TextArea::from_str("ab\ncd");
    let o = Point::new(0, 0);
    assert_eq!(byte_at_click(&ta, 0, o, 10, 5, 11, 12), Some(4));
    assert_eq!(byte_at_click(&ta, 0, o, 10, 5, 0, 0), Some(0));
    assert_eq!(byte_at_click(&ta, 0, o, 10, 5, 100, 15), Some(5));
    assert_eq!(byte_at_click(&ta, 0, o, 10, 5, 11, -1), None);
    assert_eq!(byte_at_click(&ta, 0, o, 10, 5, 11, 25), None);
    assert_eq!(byte_at_click(&ta, 1, o, 10, 5, 11, 2), Some(4));
    let wide = TextArea::from_str("éa\nb");
    assert_eq!(byte_at_click(&wide, 0, o, 10, 5, 9, 0), Some(2));
}

fn sample_layout() -> UiLayout {
    let z = r(0, 0, 1, 1);
    UiLayout {
        win: r(100, 100, 400, 300),
        title_bar: z,
        menu_strip: z,
        menu_cells: vec![r(110, 120, 20, 10)],
        preview_rect: z,
        preview_inner: z,
        gallery_rect: z,
        gallery_inner: r(300, 150, 50, 50),
        text_rect: z,
        sb_rect: r(260, 150, 10, 100),
        text_inner: r(150, 150, 100, 100),
        visible_lines: 1,
        aux_panel: z,
    }
}

#[test]
fn cursor_shape_follows_edges_and_regions() {
    let l = sample_layout();
    assert_eq!(cursor_shape_at(97, 250, &l), CursorShape::ResizeH);
    assert_eq!(cursor_shape_at(503, 250, &l), CursorShape::ResizeH);
    assert_eq!(cursor_shape_at(100, 398, &l), CursorShape::ResizeNESW);
    assert_eq!(cursor_shape_at(500, 400, &l), CursorShape::ResizeNWSE);
    assert_eq!(cursor_shape_at(300, 402, &l), CursorShape::ResizeV);
    assert_eq!(cursor_shape_at(300, 100, &l), CursorShape::Arrow);
    assert_eq!(cursor_shape_at(160, 160, &l), CursorShape::IBeam);
    assert_eq!(cursor_shape_at(115, 125, &l), CursorShape::Hand);
    assert_eq!(cursor_shape_at(265, 200, &l), CursorShape::Hand);
    assert_eq!(cursor_shape_at(310, 160, &l), CursorShape::Hand);
    assert_eq!(cursor_shape_at(200, 300, &l), CursorShape::Arrow);
}

fn ten_lines() -> TextArea {
    TextArea::from_str("0\n1\n2\n3\n4\n5\n6\n7\n8\n9")
}

fn sb() -> ScrollbarState {
    ScrollbarState { axis: ScrollAxis::Horizontal, content_len: 0, viewport_len: 0, offset: 0 }
}

#[test]
fn scrollbar_keys_move_the_first_visible_line() {
    let mut ta = ten_lines();
    let mut s = sb();
    apply_scrollbar_keys(&mut ta, &mut s, &KeyEvent::new(Key::Down), 3);
    assert_eq!(ta.scroll_top_line, 1);
    assert_eq!((s.axis, s.content_len, s.viewport_len, s.offset), (ScrollAxis::Vertical, 10, 3, 1));
    apply_scrollbar_keys(&mut ta, &mut s, &KeyEvent::new(Key::End), 3);
    assert_eq!(ta.scroll_top_line, 7);
    apply_scrollbar_keys(&mut ta, &mut s, &KeyEvent::new(Key::PageDown), 3);
    assert_eq!(ta.scroll_top_line, 7);
    apply_scrollbar_keys(&mut ta, &mut s, &KeyEvent::new(Key::PageUp), 3);
    assert_eq!(ta.scroll_top_line, 4);
    apply_scrollbar_keys(&mut ta, &mut s, &KeyEvent::new(Key::Home), 3);
    assert_eq!(ta.scroll_top_line, 0);
    apply_scrollbar_keys(&mut ta, &mut s, &KeyEvent::new(Key::Up), 3);
    assert_eq!(ta.scroll_top_line, 0);
    assert_eq!(s.offset, 0);
    let mut sk = sb();
    skriver::scroll_keys(&mut ta, &mut sk, &KeyEvent::new(Key::PageDown), 0);
    assert_eq!(ta.scroll_top_line, 1);
    assert_eq!(sk.viewport_len, 1);
}

#[test]
fn scrollbar_focus_needs_overflow() {
    let ta = ten_lines();
    assert!(scroll_focusable(&ta, 3));
    assert!(!scroll_focusable(&ta, 10));
    assert!(!scroll_focusable(&TextArea::new(), 0));
}

#[test]
fn caret_position_in_pixels() {
    let ta = TextArea::from_str("ab\ncd");
    assert_eq!(caret_xy(&ta, &r(10, 20, 100, 100), 10, 6), (26, 30));
    let mut scrolled = TextArea::from_str("ab\ncd");
    scrolled.scroll_top_line = 5;
    assert_eq!(caret_xy(&scrolled, &r(10, 20, 100, 100), 10, 6), (26, 20));
}

fn mode(lo: u64, hi: u64) -> AbsPointerMode {
    AbsPointerMode {
        absolute_min_x: lo,
        absolute_min_y: lo,
        absolute_min_z: 0,
        absolute_max_x: hi,
        absolute_max_y: hi,
        absolute_max_z: 0,
        attributes: 0,
    }
}

#[test]
fn absolute_positions_scale_to_the_screen() {
    let st = AbsPointerState { current_x: 500, current_y: 1000, current_z: 0, active_buttons: 2 };
    assert_eq!(map_abs_to_pixels(&st, &mode(0, 1000), 800, 600), (399, 599));
    assert_eq!(map_abs_to_pixels(&st, &mode(5, 5), 800, 600), (0, 0));
    let below = AbsPointerState { current_x: 0, current_y: 2000, current_z: 0, active_buttons: 1 };
    assert_eq!(map_abs_to_pixels(&below, &mode(100, 1100), 800, 600), (0, 599));
    assert!(primary_button(&st) && right_button(&st));
    assert!(primary_button(&below) && !right_button(&below));
    assert_eq!(abs_state_key(&st), (500, 1000, 2));
}
