use uefi_ui::demo::dispatch::{
    context_action, context_click, context_hover_at, context_menu_rect, demo_key, menu_command,
    right_click, ContextAction, DemoCommand, DemoContext, DemoKeys, MenuCommand, RightClick,
};
use uefi_ui::demo::layout::Focus;
use uefi_ui::input::{Key, KeyEvent, Modifiers};

fn keys() -> DemoKeys {
    DemoKeys { virtual_shift: false, virtual_alt: false, context_hovered: None, esc_pending: false, show_pointer_diag: false }
}

fn ctx(focus: Focus) -> DemoContext {
    DemoContext { modal_blocking: false, picker_open: false, aux_focused: false, focus }
}

fn ctrl(c: char) -> KeyEvent {
    KeyEvent::with_modifiers(Key::Character(c), Modifiers { shift: false, ctrl: true, alt: false })
}

#[test]
fn esc_chord_in_editor() {
    let (s1, c1) = demo_key(DemoKeys { virtual_shift: true, ..keys() }, ctx(Focus::Editor), &KeyEvent::new(Key::Escape));
    assert_eq!(c1, DemoCommand::Nothing);
    assert!(s1.esc_pending && !s1.virtual_shift);
    let (s2, c2) = demo_key(s1, ctx(Focus::Editor), &KeyEvent::new(Key::Character('A')));
    assert_eq!(c2, DemoCommand::SelectAll);
    assert!(!s2.esc_pending);
    let (_, c3) = demo_key(s1, ctx(Focus::Editor), &KeyEvent::new(Key::Escape));
    assert_eq!(c3, DemoCommand::FocusMenu);
    let (s4, c4) = demo_key(s1, ctx(Focus::Editor), &KeyEvent::new(Key::Character('z')));
    assert_eq!(c4, DemoCommand::EditorKey(KeyEvent::new(Key::Character('z'))));
    assert!(!s4.esc_pending);
}

#[test]
fn ctrl_shortcuts_and_latches_in_editor() {
    assert_eq!(demo_key(keys(), ctx(Focus::Editor), &ctrl('x')).1, DemoCommand::Cut);
    assert_eq!(demo_key(keys(), ctx(Focus::Editor), &ctrl('S')).1, DemoCommand::SavePicker);
    assert_eq!(demo_key(keys(), ctx(Focus::Editor), &ctrl('o')).1, DemoCommand::OpenPicker);
    let (s, _) = demo_key(keys(), ctx(Focus::Editor), &KeyEvent::new(Key::Function(2)));
    assert!(s.virtual_shift);
    let (_, c) = demo_key(s, ctx(Focus::Editor), &KeyEvent::new(Key::Left));
    assert_eq!(c, DemoCommand::EditorKey(KeyEvent::with_modifiers(Key::Left, Modifiers { shift: true, ctrl: false, alt: false })));
    // In the gallery Ctrl+X is an ordinary key.
    assert_eq!(demo_key(keys(), ctx(Focus::Gallery), &ctrl('x')).1, DemoCommand::GalleryKey(ctrl('x')));
}

#[test]
fn context_menu_keys() {
    let s = DemoKeys { context_hovered: Some(0), ..keys() };
    let (s1, _) = demo_key(s, ctx(Focus::Editor), &KeyEvent::new(Key::Down));
    assert_eq!(s1.context_hovered, Some(1));
    let (s2, c2) = demo_key(s1, ctx(Focus::Editor), &KeyEvent::new(Key::Enter));
    assert_eq!(c2, DemoCommand::RunContext(ContextAction::Copy));
    assert_eq!(s2.context_hovered, None);
    let last = DemoKeys { context_hovered: Some(4), ..keys() };
    assert_eq!(demo_key(last, ctx(Focus::Editor), &KeyEvent::new(Key::Down)).0.context_hovered, Some(4));
    let sep = DemoKeys { context_hovered: Some(3), ..keys() };
    assert_eq!(demo_key(sep, ctx(Focus::Editor), &KeyEvent::new(Key::Enter)).1, DemoCommand::Nothing);
    assert_eq!(context_action(4), Some(ContextAction::SelectAll));
}

#[test]
fn modal_picker_and_second_window_take_keys() {
    let modal = DemoContext { modal_blocking: true, ..ctx(Focus::Editor) };
    assert_eq!(demo_key(keys(), modal, &KeyEvent::new(Key::Escape)).1, DemoCommand::PopModal);
    assert_eq!(demo_key(keys(), modal, &KeyEvent::new(Key::Function(6))).1, DemoCommand::Nothing);
    let picker = DemoContext { picker_open: true, ..ctx(Focus::Editor) };
    assert_eq!(demo_key(keys(), picker, &KeyEvent::new(Key::Down)).1, DemoCommand::PickerKey);
    let aux = DemoContext { aux_focused: true, ..ctx(Focus::Editor) };
    assert_eq!(demo_key(keys(), aux, &KeyEvent::new(Key::Up)).1, DemoCommand::NudgeAux { dx: 0, dy: -6 });
    assert_eq!(demo_key(keys(), ctx(Focus::Menu), &KeyEvent::new(Key::Tab)).1, DemoCommand::Tab { shift: false });
}

#[test]
fn menu_commands() {
    assert_eq!(menu_command(3, Some(1)), MenuCommand::ShowAbout);
    assert_eq!(menu_command(0, Some(0)), MenuCommand::NewDocument);
    assert_eq!(menu_command(0, Some(2)), MenuCommand::SaveFile);
    assert_eq!(menu_command(1, Some(0)), MenuCommand::OtherItem);
    assert_eq!(menu_command(2, None), MenuCommand::BarTitle);
}

#[test]
fn context_menu_geometry_and_clicks() {
    let r = context_menu_rect(790, 10, 800, 600, 8, 16);
    assert_eq!((r.size.width, r.size.height), (104, 88));
    assert_eq!((r.top_left.x, r.top_left.y), (696, 10));
    assert_eq!(context_hover_at(10 + 4 + 16 * 2 + 3, 10, 16), 2);
    assert_eq!(context_hover_at(1000, 10, 16), 4);
    assert_eq!(context_click(&r, 700, 10 + 4 + 16 * 4, 16), Some(ContextAction::SelectAll));
    assert_eq!(context_click(&r, 10, 10, 16), None);
    assert_eq!(right_click(false, false, true, false, false), RightClick::OpenContext);
    assert_eq!(right_click(false, true, true, false, false), RightClick::CloseContext);
    assert_eq!(right_click(true, true, true, false, false), RightClick::Nothing);
    assert_eq!(right_click(false, false, true, true, false), RightClick::PopModal);
}
