use uefi_ui::input::{Key, KeyEvent, Modifiers};
use uefi_ui::widgets::{
    textarea_sync_vertical_scroll, ScrollAxis, ScrollbarHit, ScrollbarState, TextArea,
    TextAreaAction,
};
use uefi_ui::widgets::scrollbar::vertical_track;

fn shift() -> Modifiers {
    Modifiers { shift: true, ctrl: false, alt: false }
}

/// The thumb's pixel span as the front end computes it: position and length are
/// fractions of the track in `f32`.
fn thumb_geometry(s: &ScrollbarState, track_y: i32, track_h: u32) -> (i32, u32) {
    if s.content_len <= s.viewport_len || s.viewport_len == 0 {
        return (track_y, track_h);
    }
    let max_off = s.content_len - s.viewport_len;
    let tc = (s.offset as f32 / max_off as f32).clamp(0.0, 1.0);
    let tl = (s.viewport_len as f32 / s.content_len as f32).clamp(0.05, 1.0);
    let th = ((track_h as f32 * tl) as u32).max(12).min(track_h);
    let avail = track_h.saturating_sub(th);
    (track_y + (avail as f32 * tc) as i32, th)
}

fn hit(s: &ScrollbarState, x: i32, y: i32, w: u32, h: u32, px: i32, py: i32) -> ScrollbarHit {
    let (ty, th) = vertical_track(y, w, h);
    let (thumb_y, thumb_h) = thumb_geometry(s, ty, th);
    s.hit_test_vertical(x, y, w, h, px, py, thumb_y, thumb_h)
}

#[test]
fn multiline_and_cursor() {
    let mut t = TextArea::from_str("a\nbc");
    t.set_cursor(0);
    assert_eq!(t.lines(), vec!["a", "bc"]);
    t.apply_key(Key::Down);
    assert!(t.cursor() > 0);
}

#[test]
fn scroll_clamps() {
    let mut t = TextArea::new();
    for _ in 0..30 {
        t.apply_key(Key::Character('x'));
        t.apply_key(Key::Enter);
    }
    t.scroll_top_line = 100;
    t.scroll_to_cursor(5);
    assert!(t.scroll_top_line <= t.line_count());
}

#[test]
fn shift_right_extends_stream_selection() {
    let mut t = TextArea::from_str("hello");
    t.set_cursor(0);
    let ev = KeyEvent::with_modifiers(
        Key::Right,
        Modifiers {
            shift: true,
            ctrl: false,
            alt: false,
        },
    );
    t.apply_key_event(&ev).unwrap();
    assert!(t.has_selection());
    assert_eq!(t.selection_range_bytes(), Some((0, 1)));
}

#[test]
fn typing_replaces_selection() {
    let mut t = TextArea::from_str("abcdef");
    // Stream selection anchored at 0 with the caret at byte 3.
    t.set_cursor(0);
    for _ in 0..3 {
        t.apply_key_event(&KeyEvent::with_modifiers(Key::Right, shift())).unwrap();
    }
    assert_eq!(t.cursor(), 3);
    t.apply_key_event(&KeyEvent::new(Key::Character('z'))).unwrap();
    assert_eq!(t.text, "zdef");
}

#[test]
fn select_all_ctrl_a() {
    let mut t = TextArea::from_str("hi");
    let ev = KeyEvent {
        key: Key::Character('a'),
        modifiers: Modifiers {
            shift: false,
            ctrl: true,
            alt: false,
        },
    };
    t.apply_key_event(&ev).unwrap();
    assert_eq!(t.selection_range_bytes(), Some((0, 2)));
}

#[test]
fn alt_shift_block_columns() {
    let mut t = TextArea::from_str("abcd\nefgh");
    t.set_cursor(0);
    let m = Modifiers {
        shift: true,
        ctrl: false,
        alt: true,
    };
    t.apply_key_event(&KeyEvent::with_modifiers(Key::Right, m)).unwrap();
    t.apply_key_event(&KeyEvent::with_modifiers(Key::Right, m)).unwrap();
    t.apply_key_event(&KeyEvent::with_modifiers(Key::Down, m)).unwrap();
    assert!(t.is_block_selection());
    let h0 = t.selection_highlight_on_line(0).unwrap();
    let h1 = t.selection_highlight_on_line(1).unwrap();
    assert_eq!(h0, (0, 3));
    assert_eq!(h1, (0, 3));
}

#[test]
fn block_selection_text_and_delete() {
    let mut t = TextArea::from_str("abcd\nefgh");
    t.set_cursor(1);
    let m = Modifiers { shift: true, ctrl: false, alt: true };
    t.apply_key_event(&KeyEvent::with_modifiers(Key::Right, m)).unwrap();
    t.apply_key_event(&KeyEvent::with_modifiers(Key::Down, m)).unwrap();
    assert_eq!(t.selected_text(), Some(String::from("bc\nfg")));
    assert_eq!(t.apply_key(Key::Backspace), Some(TextAreaAction::Edited));
    assert_eq!(t.text, "ad\neh");
    assert_eq!(t.cursor(), 1);
    assert!(!t.has_selection());
}

#[test]
fn stream_selected_text_and_paste() {
    let mut t = TextArea::from_str("hello world");
    t.set_cursor(0);
    for _ in 0..5 {
        t.apply_key_event(&KeyEvent::with_modifiers(Key::Right, shift())).unwrap();
    }
    assert_eq!(t.selected_text(), Some(String::from("hello")));
    assert_eq!(t.replace_selection_with_str("bye"), Some(TextAreaAction::Edited));
    assert_eq!(t.text, "bye world");
    assert_eq!(t.cursor(), 3);
    assert_eq!(t.selection_range_bytes(), None);
}

#[test]
fn insert_then_backspace_restores_text() {
    let mut t = TextArea::from_str("añb");
    t.set_cursor(3);
    t.apply_key(Key::Character('é'));
    assert_eq!(t.text, "añéb");
    assert_eq!(t.cursor(), 5);
    t.apply_key(Key::Backspace);
    assert_eq!(t.text, "añb");
    assert_eq!(t.cursor(), 3);
}

#[test]
fn delete_at_end_reports_nothing() {
    let mut t = TextArea::from_str("ab");
    assert_eq!(t.apply_key(Key::Delete), None);
    t.set_cursor(0);
    assert_eq!(t.apply_key(Key::Delete), Some(TextAreaAction::Edited));
    assert_eq!(t.text, "b");
    assert_eq!(t.apply_key(Key::Escape), None);
}

#[test]
fn cursor_moves_to_char_boundary() {
    let mut t = TextArea::from_str("ñx");
    t.set_cursor(1);
    assert_eq!(t.cursor(), 0);
    t.apply_key(Key::Right);
    assert_eq!(t.cursor(), 2);
    t.apply_key(Key::End);
    assert_eq!(t.cursor(), 3);
    t.apply_key(Key::Home);
    assert_eq!(t.cursor(), 0);
}

#[test]
fn up_down_keep_preferred_column() {
    let mut t = TextArea::from_str("abcd\nx\nabcd");
    t.set_cursor(3);
    t.apply_key(Key::Down);
    assert_eq!(t.cursor(), 6);
    t.apply_key(Key::Down);
    assert_eq!(t.cursor(), 10);
    t.apply_key(Key::PageUp);
    assert_eq!(t.cursor(), 3);
}

#[test]
fn wrapped_lines_break_at_spaces() {
    let t = TextArea::from_str("hello world foo\n\nabcdefgh");
    assert_eq!(t.wrapped_lines(8), vec!["hello", "world", "foo", "", "abcdefgh"]);
    assert_eq!(t.wrapped_lines(3), vec!["hel", "lo", "wor", "ld", "foo", "", "abc", "def", "gh"]);
    assert_eq!(t.wrapped_line_count(0), 3);
    assert_eq!(TextArea::new().wrapped_lines(4), vec![""]);
}

#[test]
fn textarea_sync_smoke() {
    let ta = TextArea::from_str("a\nb");
    let mut sb = ScrollbarState::new(ScrollAxis::Vertical, 0, 1, 0);
    textarea_sync_vertical_scroll(&ta, 1, 0, &mut sb);
    assert_eq!(sb.offset, ta.scroll_top_line);
    assert_eq!(sb.content_len, 2);
    assert_eq!(sb.viewport_len, 1);
}

#[test]
fn scroll_line_clamps() {
    let mut s = ScrollbarState::new(ScrollAxis::Vertical, 10, 3, 0);
    s.scroll_line_up();
    assert_eq!(s.offset, 0);
    s.offset = 7;
    s.scroll_line_down();
    assert_eq!(s.offset, 7);
    s.scroll_line_down();
    assert_eq!(s.offset, 7);
}

#[test]
fn scroll_page() {
    let mut s = ScrollbarState::new(ScrollAxis::Vertical, 20, 5, 0);
    s.scroll_page_down();
    assert_eq!(s.offset, 5);
    s.scroll_page_down();
    assert_eq!(s.offset, 10);
    s.scroll_page_up();
    assert_eq!(s.offset, 5);
}

#[test]
fn hit_test_arrows() {
    let s = ScrollbarState::new(ScrollAxis::Vertical, 100, 10, 0);
    assert_eq!(hit(&s, 0, 0, 26, 200, 13, 5), ScrollbarHit::ArrowUp);
    assert_eq!(hit(&s, 0, 0, 26, 200, 13, 195), ScrollbarHit::ArrowDown);
}

#[test]
fn hit_test_outside() {
    let s = ScrollbarState::new(ScrollAxis::Vertical, 100, 10, 0);
    assert_eq!(hit(&s, 10, 10, 26, 200, 5, 50), ScrollbarHit::Outside);
}

#[test]
fn hit_test_page_zones() {
    let s = ScrollbarState::new(ScrollAxis::Vertical, 100, 10, 0);
    assert_eq!(hit(&s, 0, 0, 26, 200, 13, 150), ScrollbarHit::PageDown);
}

#[test]
fn hit_test_thumb_span_decides_thumb_and_pages() {
    let s = ScrollbarState::new(ScrollAxis::Vertical, 100, 10, 0);
    assert_eq!(s.hit_test_vertical(0, 0, 26, 200, 13, 60, 50, 20), ScrollbarHit::Thumb);
    assert_eq!(s.hit_test_vertical(0, 0, 26, 200, 13, 40, 50, 20), ScrollbarHit::PageUp);
    assert_eq!(s.hit_test_vertical(0, 0, 26, 200, 13, 70, 50, 20), ScrollbarHit::PageDown);
    assert_eq!(vertical_track(10, 26, 200), (36, 148));
    assert_eq!(vertical_track(0, 26, 40), (26, 0));
}

#[test]
fn typing_then_backspace_restores_the_text() {
    let mut ta = TextArea::from_str("ab");
    ta.set_cursor(1);
    ta.apply_key(Key::Character('é'));
    assert_eq!(ta.text, "aéb");
    assert_eq!(ta.cursor(), 3);
    ta.apply_key(Key::Backspace);
    assert_eq!(ta.text, "ab");
    assert_eq!(ta.cursor(), 1);
}
