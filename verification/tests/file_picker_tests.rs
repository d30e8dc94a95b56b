use uefi_ui::file_picker::{
    sort_dir_entries, DirEntry, FileIo, FilePickerAction, FilePickerDialogAction,
    FilePickerDialogState, FilePickerFocus, FilePickerState, LineInput, PickerMode,
};
use uefi_ui::input::{Key, KeyEvent, Modifiers};

struct TreeFs;
impl FileIo for TreeFs {
    type Error = ();
    fn list(&mut self, path: &[String]) -> Result<Vec<DirEntry>, ()> {
        if path.is_empty() {
            return Ok(vec![
                DirEntry {
                    name: String::from("z_dir"),
                    is_dir: true,
                },
                DirEntry {
                    name: String::from("a.txt"),
                    is_dir: false,
                },
            ]);
        }
        if path == [String::from("z_dir")] {
            return Ok(vec![DirEntry {
                name: String::from("nested.txt"),
                is_dir: false,
            }]);
        }
        Ok(vec![])
    }
    fn read_file(&mut self, _: &[String], _: &str) -> Result<Vec<u8>, ()> {
        Ok(vec![])
    }
    fn write_file(&mut self, _: &[String], _: &str, _: &[u8]) -> Result<(), ()> {
        Ok(())
    }
}

struct FailFs;
impl FileIo for FailFs {
    type Error = u8;
    fn list(&mut self, _: &[String]) -> Result<Vec<DirEntry>, u8> {
        Err(7)
    }
    fn read_file(&mut self, _: &[String], _: &str) -> Result<Vec<u8>, u8> {
        Err(7)
    }
    fn write_file(&mut self, _: &[String], _: &str, _: &[u8]) -> Result<(), u8> {
        Err(7)
    }
}

#[test]
fn pick_file() {
    let mut p = FilePickerState::new(PickerMode::Load);
    p.entries = vec![
        DirEntry {
            name: String::from(".."),
            is_dir: true,
        },
        DirEntry {
            name: String::from("cfg.txt"),
            is_dir: false,
        },
    ];
    p.selected = 1;
    assert_eq!(
        p.activate(),
        FilePickerAction::PickedFile(String::from("cfg.txt"))
    );
}

#[test]
fn reload_sorts_dirs_before_files_and_prepends_parent() {
    let mut p = FilePickerState::new(PickerMode::Load);
    p.path.push(String::from("z_dir"));
    let mut fs = TreeFs;
    p.reload(&mut fs).unwrap();
    assert_eq!(p.entries[0].name, "..");
    assert_eq!(p.entries[1].name, "nested.txt");
}

#[test]
fn reload_error_leaves_state() {
    let mut p = FilePickerState::new(PickerMode::Load);
    p.selected = 3;
    assert_eq!(p.reload(&mut FailFs), Err(7));
    assert_eq!(p.selected, 3);
    assert!(p.entries.is_empty());
}

#[test]
fn sort_puts_dirs_first_then_names() {
    let v = vec![
        DirEntry { name: String::from("b.txt"), is_dir: false },
        DirEntry { name: String::from("zz"), is_dir: true },
        DirEntry { name: String::from("a.txt"), is_dir: false },
        DirEntry { name: String::from("aa"), is_dir: true },
    ];
    let s = sort_dir_entries(v);
    let names: Vec<&str> = s.iter().map(|e| e.name.as_str()).collect();
    assert_eq!(names, vec!["aa", "zz", "a.txt", "b.txt"]);
}

#[test]
fn interact_opens_dir_and_picks_file() {
    let mut p = FilePickerState::new(PickerMode::Load);
    let mut fs = TreeFs;
    p.reload(&mut fs).unwrap();
    assert_eq!(p.entries[0].name, "z_dir");
    p.selected = 0;
    assert_eq!(
        p.interact(&mut fs, &KeyEvent::new(Key::Enter), 8).unwrap(),
        Some(FilePickerAction::Navigated)
    );
    assert_eq!(p.path, vec![String::from("z_dir")]);
    assert_eq!(p.entries[1].name, "nested.txt");
    p.selected = 1;
    assert_eq!(
        p.interact(&mut fs, &KeyEvent::new(Key::Enter), 8).unwrap(),
        Some(FilePickerAction::PickedFile(String::from("nested.txt")))
    );
}

#[test]
fn focus_cycles_with_tab() {
    let mut dlg = FilePickerDialogState::new(PickerMode::Load, 2, &mut TreeFs).unwrap();
    assert_eq!(dlg.focus, FilePickerFocus::List);
    dlg.handle_key(&KeyEvent::new(Key::Tab), 8, &mut TreeFs).unwrap();
    assert_eq!(dlg.focus, FilePickerFocus::FilenameField);
    dlg.handle_key(&KeyEvent::new(Key::Tab), 8, &mut TreeFs).unwrap();
    assert_eq!(dlg.focus, FilePickerFocus::FiletypeDropdown);
    dlg.handle_key(&KeyEvent::new(Key::Tab), 8, &mut TreeFs).unwrap();
    assert_eq!(dlg.focus, FilePickerFocus::OkButton);
    dlg.handle_key(&KeyEvent::new(Key::Tab), 8, &mut TreeFs).unwrap();
    assert_eq!(dlg.focus, FilePickerFocus::CancelButton);
    dlg.handle_key(&KeyEvent::new(Key::Tab), 8, &mut TreeFs).unwrap();
    assert_eq!(dlg.focus, FilePickerFocus::List);
    dlg.handle_key(
        &KeyEvent::with_modifiers(Key::Tab, Modifiers { shift: true, ..Default::default() }),
        8, &mut TreeFs,
    ).unwrap();
    assert_eq!(dlg.focus, FilePickerFocus::CancelButton);
}

#[test]
fn escape_returns_cancel() {
    let mut dlg = FilePickerDialogState::new(PickerMode::Load, 1, &mut TreeFs).unwrap();
    let action = dlg.handle_key(&KeyEvent::new(Key::Escape), 8, &mut TreeFs).unwrap();
    assert_eq!(action, FilePickerDialogAction::Cancel);
}

#[test]
fn enter_on_file_populates_filename_and_shifts_focus() {
    let mut dlg = FilePickerDialogState::new(PickerMode::Load, 1, &mut TreeFs).unwrap();
    dlg.picker.selected = 1;
    dlg.handle_key(&KeyEvent::new(Key::Enter), 8, &mut TreeFs).unwrap();
    assert_eq!(dlg.filename.text, "a.txt");
    assert_eq!(dlg.focus, FilePickerFocus::FilenameField);
}

#[test]
fn ok_button_confirms_filename_text() {
    let mut dlg = FilePickerDialogState::new(PickerMode::Load, 1, &mut TreeFs).unwrap();
    dlg.filename = LineInput::from_str("a.txt");
    dlg.focus = FilePickerFocus::OkButton;
    let action = dlg.handle_key(&KeyEvent::new(Key::Enter), 8, &mut TreeFs).unwrap();
    assert!(matches!(action, FilePickerDialogAction::Confirm { ref name, .. } if name == "a.txt"));
}

#[test]
fn ok_button_with_blank_name_does_nothing() {
    let mut dlg = FilePickerDialogState::new(PickerMode::Load, 1, &mut TreeFs).unwrap();
    dlg.filename = LineInput::from_str("   ");
    dlg.focus = FilePickerFocus::OkButton;
    let action = dlg.handle_key(&KeyEvent::new(Key::Enter), 8, &mut TreeFs).unwrap();
    assert_eq!(action, FilePickerDialogAction::Nothing);
}

#[test]
fn cancel_button_returns_cancel() {
    let mut dlg = FilePickerDialogState::new(PickerMode::Load, 1, &mut TreeFs).unwrap();
    dlg.focus = FilePickerFocus::CancelButton;
    let action = dlg.handle_key(&KeyEvent::new(Key::Enter), 8, &mut TreeFs).unwrap();
    assert_eq!(action, FilePickerDialogAction::Cancel);
}

#[test]
fn enter_on_dir_navigates() {
    let mut dlg = FilePickerDialogState::new(PickerMode::Load, 1, &mut TreeFs).unwrap();
    dlg.picker.selected = 0;
    dlg.handle_key(&KeyEvent::new(Key::Enter), 8, &mut TreeFs).unwrap();
    assert_eq!(dlg.picker.path, vec![String::from("z_dir")]);
    assert_eq!(dlg.focus, FilePickerFocus::List);
}

#[test]
fn filetype_arrow_cycles() {
    let mut dlg = FilePickerDialogState::new(PickerMode::Load, 3, &mut TreeFs).unwrap();
    dlg.focus = FilePickerFocus::FiletypeDropdown;
    assert_eq!(dlg.filetype_sel, 0);
    dlg.handle_key(&KeyEvent::new(Key::Down), 8, &mut TreeFs).unwrap();
    assert_eq!(dlg.filetype_sel, 1);
    dlg.handle_key(&KeyEvent::new(Key::Up), 8, &mut TreeFs).unwrap();
    assert_eq!(dlg.filetype_sel, 0);
    dlg.handle_key(&KeyEvent::new(Key::Up), 8, &mut TreeFs).unwrap();
    assert_eq!(dlg.filetype_sel, 0);
}

#[test]
fn line_input_typing_and_backspace() {
    let mut inp = LineInput::new();
    inp.apply_key(Key::Character('h'));
    inp.apply_key(Key::Character('i'));
    assert_eq!(inp.text, "hi");
    inp.apply_key(Key::Backspace);
    assert_eq!(inp.text, "h");
    assert_eq!(inp.cursor_col(), 1);
}

#[test]
fn line_input_multibyte_cursor() {
    let mut inp = LineInput::from_str("é");
    assert_eq!(inp.cursor_col(), 1);
    inp.apply_key(Key::Character('x'));
    assert_eq!(inp.text, "éx");
    inp.apply_key(Key::Left);
    inp.apply_key(Key::Backspace);
    assert_eq!(inp.text, "x");
}

#[test]
fn backspace_pops_path() {
    let mut p = FilePickerState::new(PickerMode::Load);
    let mut fs = TreeFs;
    p.reload(&mut fs).unwrap();
    p.selected = 0;
    p.interact(&mut fs, &KeyEvent::new(Key::Enter), 8).unwrap();
    assert_eq!(p.path.len(), 1);
    assert_eq!(
        p.interact(&mut fs, &KeyEvent::new(Key::Backspace), 8).unwrap(),
        Some(FilePickerAction::Navigated)
    );
    assert!(p.path.is_empty());
}

#[test]
fn root_clamps_backspace() {
    let root = vec![String::from("z_dir")];
    let mut p = FilePickerState::new_rooted(PickerMode::Load, root.clone());
    let mut fs = TreeFs;
    p.reload(&mut fs).unwrap();
    assert!(p.at_root(), "should be at root on creation");
    let r = p.interact(&mut fs, &KeyEvent::new(Key::Backspace), 8).unwrap();
    assert_eq!(r, None);
    assert_eq!(p.path, root, "path must not change");
}

#[test]
fn root_no_parent_entry_shown() {
    let root = vec![String::from("z_dir")];
    let mut p = FilePickerState::new_rooted(PickerMode::Load, root);
    let mut fs = TreeFs;
    p.reload(&mut fs).unwrap();
    assert!(p.entries.iter().all(|e| e.name != ".."), ".. must not appear at root");
}

#[test]
fn root_empty_means_volume_root_unclamped() {
    let mut p = FilePickerState::new(PickerMode::Load);
    let mut fs = TreeFs;
    p.path.push(String::from("z_dir"));
    p.reload(&mut fs).unwrap();
    assert!(p.entries.iter().any(|e| e.name == ".."), ".. must appear below volume root");
}

#[test]
fn with_root_restores_last_dir() {
    let root = vec![];
    let last = vec![String::from("z_dir")];
    let mut fs = TreeFs;
    let dlg = FilePickerDialogState::with_root(PickerMode::Load, 1, root, last.clone(), &mut fs).unwrap();
    assert_eq!(dlg.picker.path, last, "should start in last_dir");
    assert_eq!(dlg.last_dir, last);
}

#[test]
fn last_dir_updated_on_navigation() {
    let mut dlg = FilePickerDialogState::new(PickerMode::Load, 1, &mut TreeFs).unwrap();
    dlg.picker.selected = 0;
    dlg.handle_key(&KeyEvent::new(Key::Enter), 8, &mut TreeFs).unwrap();
    assert_eq!(dlg.last_dir, vec![String::from("z_dir")]);
}

#[test]
fn last_dir_updated_on_confirm() {
    let mut dlg = FilePickerDialogState::new(PickerMode::Load, 1, &mut TreeFs).unwrap();
    dlg.picker.selected = 1;
    dlg.handle_key(&KeyEvent::new(Key::Enter), 8, &mut TreeFs).unwrap();
    let action = dlg.handle_key(&KeyEvent::new(Key::Enter), 8, &mut TreeFs).unwrap();
    assert!(matches!(action, FilePickerDialogAction::Confirm { .. }));
    assert_eq!(dlg.last_dir, vec![] as Vec<String>, "confirmed at root");
}

#[test]
fn with_root_starts_in_any_nonempty_last_dir() {
    let root = vec![String::from("a")];
    let last = vec![String::from("z_dir")];
    let dlg = FilePickerDialogState::with_root(PickerMode::Load, 0, root.clone(), last.clone(), &mut TreeFs).unwrap();
    assert_eq!(dlg.picker.path, last);
    assert_eq!(dlg.last_dir, last);
    assert_eq!(dlg.picker.root, root);
    assert_eq!(dlg.filetype_count, 1);
    let dlg2 = FilePickerDialogState::with_root(PickerMode::Load, 1, root.clone(), vec![], &mut TreeFs).unwrap();
    assert_eq!(dlg2.picker.path, root);
}

#[test]
fn line_input_rejects_newline() {
    let mut li = LineInput::from_str("ab");
    assert!(!li.apply_key(Key::Character('\n')));
    assert_eq!(li.text, "ab");
    assert_eq!(li.cursor, 2);
    assert!(li.apply_key(Key::Character('c')));
    assert_eq!(li.text, "abc");
}
