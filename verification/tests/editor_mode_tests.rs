use uefi_ui::apps::lotus_os::{lotus_key, lotus_ui_new, LotusCommand, LotusUi, Mode};
use uefi_ui::apps::skriver::{skriver_key, SkriverCommand, SkriverMenu};
use uefi_ui::input::{Key, KeyEvent, Modifiers};

fn ev(k: Key) -> KeyEvent {
    KeyEvent::new(k)
}

fn ctrl(c: char) -> KeyEvent {
    KeyEvent::with_modifiers(Key::Character(c), Modifiers { shift: false, ctrl: true, alt: false })
}

fn ui(mode: Mode, menu_sel: usize, menu_focus: usize) -> LotusUi {
    LotusUi { mode, menu_sel, menu_focus, find_current: 0 }
}

#[test]
fn lotus_escape_toggles_between_editing_and_menu_bar() {
    let start = lotus_ui_new();
    let (m, c) = lotus_key(start, &ev(Key::Escape), false, false, 0);
    assert_eq!((m.mode, m.menu_focus, c), (Mode::MenuBar, 0, LotusCommand::ShowHint));
    let (m2, c2) = lotus_key(m, &ev(Key::Escape), false, false, 0);
    assert_eq!((m2.mode, c2), (Mode::Editing, LotusCommand::ShowHint));
    let (m3, c3) = lotus_key(m2, &ev(Key::Character('x')), false, false, 0);
    assert_eq!((m3, c3), (m2, LotusCommand::Edit));
}

#[test]
fn lotus_menu_bar_moves_and_opens_menus() {
    let bar = ui(Mode::MenuBar, 0, 0);
    let (r, _) = lotus_key(bar, &ev(Key::Right), false, false, 0);
    assert_eq!(r.menu_focus, 1);
    let (r2, _) = lotus_key(r, &ev(Key::Right), false, false, 0);
    assert_eq!(r2.menu_focus, 1);
    let (r3, _) = lotus_key(r2, &ev(Key::Left), false, false, 0);
    assert_eq!(r3.menu_focus, 0);
    let (f, c) = lotus_key(bar, &ev(Key::Enter), false, false, 0);
    assert_eq!((f.mode, f.menu_sel, c), (Mode::FileMenu, 0, LotusCommand::ShowHint));
    let (e, _) = lotus_key(ui(Mode::MenuBar, 0, 1), &ev(Key::Down), false, false, 0);
    assert_eq!((e.mode, e.menu_sel), (Mode::EditMenu, 0));
    let (e2, _) = lotus_key(bar, &ev(Key::Character('E')), false, false, 0);
    assert_eq!(e2.mode, Mode::EditMenu);
}

#[test]
fn lotus_menu_bar_letters_run_commands() {
    let bar = ui(Mode::MenuBar, 0, 0);
    assert_eq!(lotus_key(bar, &ev(Key::Character('n')), false, false, 0), (ui(Mode::Editing, 0, 0), LotusCommand::New));
    assert_eq!(lotus_key(bar, &ev(Key::Character('o')), false, false, 0), (ui(Mode::FilePicker, 0, 0), LotusCommand::OpenPicker));
    assert_eq!(lotus_key(bar, &ev(Key::Character('s')), false, true, 0), (ui(Mode::Editing, 0, 0), LotusCommand::WriteCurrent));
    assert_eq!(lotus_key(bar, &ev(Key::Character('s')), false, false, 0), (ui(Mode::FilePicker, 0, 0), LotusCommand::SavePicker));
    assert_eq!(lotus_key(bar, &ev(Key::Character('q')), false, false, 0), (bar, LotusCommand::Quit));
    assert_eq!(lotus_key(bar, &ev(Key::Character('z')), false, false, 0), (bar, LotusCommand::Idle));
}

#[test]
fn lotus_file_menu_arrows_skip_separator_and_missing_last_file() {
    let down = |sel: usize, has_last: bool| lotus_key(ui(Mode::FileMenu, sel, 0), &ev(Key::Down), has_last, false, 0).0.menu_sel;
    let up = |sel: usize, has_last: bool| lotus_key(ui(Mode::FileMenu, sel, 0), &ev(Key::Up), has_last, false, 0).0.menu_sel;
    assert_eq!(down(0, false), 2);
    assert_eq!(down(0, true), 1);
    assert_eq!(down(4, true), 6);
    assert_eq!(down(6, true), 6);
    assert_eq!(up(2, false), 0);
    assert_eq!(up(2, true), 1);
    assert_eq!(up(6, false), 4);
    assert_eq!(up(0, true), 0);
}

#[test]
fn lotus_file_menu_runs_rows() {
    let menu = ui(Mode::FileMenu, 6, 0);
    assert_eq!(lotus_key(menu, &ev(Key::Enter), false, false, 0).1, LotusCommand::Quit);
    assert_eq!(lotus_key(menu, &ev(Key::Character('l')), false, false, 0), (menu, LotusCommand::Idle));
    assert_eq!(lotus_key(menu, &ev(Key::Character('L')), true, false, 0), (ui(Mode::Editing, 6, 0), LotusCommand::OpenLast));
    assert_eq!(lotus_key(menu, &ev(Key::Character('a')), false, true, 0), (ui(Mode::FilePicker, 6, 0), LotusCommand::SavePicker));
    assert_eq!(lotus_key(ui(Mode::FileMenu, 5, 1), &ev(Key::Enter), false, false, 0), (ui(Mode::MenuBar, 5, 1), LotusCommand::ShowHint));
    assert_eq!(lotus_key(ui(Mode::FileMenu, 3, 1), &ev(Key::Escape), false, false, 0), (ui(Mode::MenuBar, 3, 0), LotusCommand::ShowHint));
}

#[test]
fn lotus_edit_menu_rows_and_search() {
    let down = lotus_key(ui(Mode::EditMenu, 3, 1), &ev(Key::Down), false, false, 0).0;
    assert_eq!(down.menu_sel, 5);
    let up = lotus_key(down, &ev(Key::Up), false, false, 0).0;
    assert_eq!(up.menu_sel, 3);
    let (find, c) = lotus_key(down, &ev(Key::Enter), false, false, 0);
    assert_eq!((find.mode, find.find_current, c), (Mode::Find, 0, LotusCommand::StartFind));
    assert_eq!(lotus_key(ui(Mode::EditMenu, 0, 1), &ev(Key::Character('c')), false, false, 0).1, LotusCommand::Copy);
    assert_eq!(lotus_key(ui(Mode::EditMenu, 0, 0), &ev(Key::Escape), false, false, 0).0.menu_focus, 1);

    let searching = LotusUi { mode: Mode::Find, menu_sel: 0, menu_focus: 0, find_current: 2 };
    let (next, c) = lotus_key(searching, &ev(Key::Enter), false, false, 3);
    assert_eq!((next.find_current, c), (0, LotusCommand::FindNext));
    assert_eq!(lotus_key(searching, &ev(Key::Enter), false, false, 0), (searching, LotusCommand::Idle));
    let (typed, c) = lotus_key(searching, &ev(Key::Character('a')), false, false, 3);
    assert_eq!((typed.find_current, c), (0, LotusCommand::FindKey));
    let (closed, c) = lotus_key(searching, &ev(Key::Escape), false, false, 3);
    assert_eq!((closed.mode, c), (Mode::Editing, LotusCommand::FindClose));
    let picking = ui(Mode::FilePicker, 0, 0);
    assert_eq!(lotus_key(picking, &ev(Key::Escape), false, false, 0), (picking, LotusCommand::PickerKey));
}

#[test]
fn skriver_shortcuts_and_menu() {
    let closed = SkriverMenu { open: None, sel: 0 };
    assert_eq!(skriver_key(closed, &ev(Key::Character('a')), true), (closed, SkriverCommand::PickerKey));
    assert_eq!(skriver_key(closed, &ctrl('o'), false).1, SkriverCommand::Open);
    assert_eq!(skriver_key(closed, &ctrl('S'), false).1, SkriverCommand::Save);
    assert_eq!(skriver_key(closed, &ctrl('n'), false).1, SkriverCommand::New);
    assert_eq!(skriver_key(closed, &ctrl('q'), false).1, SkriverCommand::Quit);
    assert_eq!(skriver_key(closed, &ctrl('x'), false).1, SkriverCommand::Edit);
    assert_eq!(skriver_key(closed, &ev(Key::Character('a')), false), (closed, SkriverCommand::Edit));

    let (open, c) = skriver_key(closed, &ev(Key::Function(10)), false);
    assert_eq!((open, c), (SkriverMenu { open: Some(0), sel: 0 }, SkriverCommand::Idle));
    let (m1, _) = skriver_key(open, &ev(Key::Up), false);
    assert_eq!(m1.sel, 0);
    let last = SkriverMenu { open: Some(0), sel: 7 };
    assert_eq!(skriver_key(last, &ev(Key::Down), false).0.sel, 7);
    assert_eq!(skriver_key(SkriverMenu { open: Some(0), sel: 3 }, &ev(Key::Enter), false), (SkriverMenu { open: None, sel: 3 }, SkriverCommand::SaveAs));
    assert_eq!(skriver_key(SkriverMenu { open: Some(0), sel: 5 }, &ev(Key::Enter), false).1, SkriverCommand::DeleteUnsupported);
    assert_eq!(skriver_key(SkriverMenu { open: Some(0), sel: 4 }, &ev(Key::Enter), false), (SkriverMenu { open: None, sel: 4 }, SkriverCommand::Idle));
    assert_eq!(skriver_key(last, &ev(Key::Escape), false).0.open, None);
    assert_eq!(skriver_key(last, &ev(Key::Character('a')), false), (last, SkriverCommand::Idle));
}
