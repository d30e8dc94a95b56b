use uefi_ui::focus::cycle_tab_index;
use uefi_ui::input::{apply_key_event_to_menu, key_event_up, Key, KeyEvent, KeyboardInput};
use uefi_ui::menu::MenuBar;
use uefi_ui::scene::UiFrame;
use uefi_ui::window::WindowStack;

#[test]
fn cycle_roundtrip_forward() {
    for len in 1..=64 {
        for start in 0..len {
            let mut i = start;
            for _ in 0..len {
                i = cycle_tab_index(i, len, false);
            }
            assert_eq!(i, start, "len={len} start={start}");
        }
    }
}

#[test]
fn cycle_roundtrip_backward() {
    for len in 1..=64 {
        for start in 0..len {
            let mut i = start;
            for _ in 0..len {
                i = cycle_tab_index(i, len, true);
            }
            assert_eq!(i, start, "len={len} start={start}");
        }
    }
}

#[test]
fn cycle_randomized_lengths() {
    let mut seed: u64 = 0xC0FFEEu64;
    for _ in 0..500 {
        seed = seed
            .wrapping_mul(6364136223846793005)
            .wrapping_add(1442695040888963407);
        let len = (seed % 48) as usize + 1;
        let start = ((seed >> 16) as usize) % len;

        let mut i = start;
        for _ in 0..len {
            i = cycle_tab_index(i, len, false);
        }
        assert_eq!(i, start, "forward seed={seed} len={len} start={start}");

        let mut j = start;
        for _ in 0..len {
            j = cycle_tab_index(j, len, true);
        }
        assert_eq!(j, start, "reverse seed={seed} len={len} start={start}");
    }
}

#[test]
fn len_zero_no_panic() {
    assert_eq!(cycle_tab_index(3, 0, false), 0);
    assert_eq!(cycle_tab_index(3, 0, true), 0);
}

#[test]
fn cycle_forward_then_backward_is_identity() {
    assert_eq!(cycle_tab_index(cycle_tab_index(4, 5, false), 5, true), 4);
    assert_eq!(cycle_tab_index(cycle_tab_index(0, 5, true), 5, false), 0);
    assert_eq!(cycle_tab_index(0, 5, true), 4);
}

#[test]
fn enter_once_until_release() {
    let labels: &[&str] = &["A", "B"];
    let mut bar = MenuBar::new(labels);
    let mut gate = KeyboardInput::default();
    assert_eq!(
        apply_key_event_to_menu(&mut bar, &KeyEvent::new(Key::Enter), &mut gate),
        Some(0)
    );
    assert_eq!(
        apply_key_event_to_menu(&mut bar, &KeyEvent::new(Key::Enter), &mut gate),
        None
    );
    key_event_up(&mut bar, &KeyEvent::new(Key::Enter), &mut gate);
    assert_eq!(
        apply_key_event_to_menu(&mut bar, &KeyEvent::new(Key::Enter), &mut gate),
        Some(0)
    );
}

#[test]
fn arrows_move_focus() {
    let labels: &[&str] = &["A", "B", "C"];
    let mut bar = MenuBar::new(labels);
    let mut gate = KeyboardInput::default();
    apply_key_event_to_menu(&mut bar, &KeyEvent::new(Key::Right), &mut gate);
    apply_key_event_to_menu(&mut bar, &KeyEvent::new(Key::Right), &mut gate);
    assert_eq!(bar.focused_index(), 2);
    apply_key_event_to_menu(&mut bar, &KeyEvent::new(Key::Left), &mut gate);
    assert_eq!(bar.focused_index(), 1);
}

#[test]
fn s3_nav_next_wraps() {
    let labels: &[&str] = &["A", "B", "C"];
    let mut m = MenuBar::new(labels);
    assert_eq!(m.focused_index(), 0);
    m.nav_next();
    assert_eq!(m.focused_index(), 1);
    m.nav_next();
    m.nav_next();
    assert_eq!(m.focused_index(), 0);
}

#[test]
fn s3_nav_prev_wraps() {
    let labels: &[&str] = &["A", "B"];
    let mut m = MenuBar::new(labels);
    m.nav_prev();
    assert_eq!(m.focused_index(), 1);
    m.nav_prev();
    assert_eq!(m.focused_index(), 0);
}

#[test]
fn s3_activate_focused_returns_index() {
    let labels: &[&str] = &["File", "Edit"];
    let mut m = MenuBar::new(labels);
    m.nav_next();
    assert_eq!(m.activate_focused(), Some(1));
}

#[test]
fn empty_menu_activates_nothing() {
    let labels: &[&str] = &[];
    let m = MenuBar::new(labels);
    assert_eq!(m.activate_focused(), None);
    assert!(m.is_empty());
}

#[test]
fn s2_begin_frame_clears_activations() {
    let mut ui = UiFrame::new();
    ui.queue_activate(1);
    ui.begin_frame();
    assert_eq!(ui.take_activations().len(), 0);
}

#[test]
fn queued_activations_are_taken_once() {
    let mut ui = UiFrame::new();
    ui.queue_activate(3);
    ui.queue_activate(5);
    assert_eq!(ui.take_activations(), vec![3, 5]);
    assert_eq!(ui.take_activations().len(), 0);
}

#[test]
fn stack_wraps() {
    let mut s = WindowStack::new(3);
    assert_eq!(s.focused, 0);
    s.focus_next();
    assert_eq!(s.focused, 1);
    s.focus_prev();
    assert_eq!(s.focused, 0);
    s.focus_prev();
    assert_eq!(s.focused, 2);
}
