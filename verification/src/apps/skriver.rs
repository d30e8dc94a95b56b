//! The Skriver editor: firmware key mapping, menu geometry and scrolling.

use vstd::prelude::*;
use crate::apps::{popup_rect_under, popup_under, popup_under_ok};
use crate::demo::interaction::{apply_scrollbar_keys, scroll_key_ok, scrolled_top};
use crate::geometry::Rectangle;
use crate::input::{KeyEvent, Key, Modifiers};
use crate::keymap::{RawKey, nav_key, nav_key_of, printable_event, printable_key_event, SCAN_FUNCTION_10};
use crate::text::split_on;
use crate::widgets::scrollbar::{ScrollAxis, ScrollbarState};
use crate::widgets::textarea::{wrapped, TextArea, TextModel};

verus! {

/// Height of a text row.
pub const LINE_H: i32 = 10;
/// Width of a character cell.
pub const CHAR_W: i32 = 6;

/// The editor's reading of a firmware key: navigation keys, F10 (the menu) and
/// printable characters.
pub open spec fn editor_key_event(k: RawKey) -> Option<KeyEvent> {
    match k {
        RawKey::Printable(u) => printable_event(u),
        RawKey::Special(code) => {
            if nav_key(code) is Some {
                Some(KeyEvent { key: nav_key(code)->0, modifiers: Modifiers::none_spec() })
            } else if code == SCAN_FUNCTION_10 {
                Some(KeyEvent { key: Key::Function(10), modifiers: Modifiers::none_spec() })
            } else {
                None
            }
        },
    }
}

/// Map a firmware key to a key event (see [`editor_key_event`]).
pub fn map_key(k: RawKey) -> (r: Option<KeyEvent>)
    ensures
        r == editor_key_event(k),
{
    match k {
        RawKey::Printable(u) => printable_key_event(u),
        RawKey::Special(code) => match nav_key_of(code) {
            Some(key) => Some(KeyEvent::new(key)),
            None => if code == SCAN_FUNCTION_10 { Some(KeyEvent::new(Key::Function(10))) } else { None },
        },
    }
}

/// Drop-down under a menubar cell: at least 72 px wide.
pub fn popup_rect_for(cell: &Rectangle, items: &[&str]) -> (r: Rectangle)
    requires
        popup_under_ok(*cell, items@, CHAR_W, LINE_H),
    ensures
        r == popup_under(*cell, items@, CHAR_W, LINE_H, 72),
{
    popup_rect_under(cell, items, CHAR_W, LINE_H, 72)
}

/// Scroll the text with the scrollbar focused (see [`scrolled_top`]).
pub fn scroll_keys(ta: &mut TextArea, sb: &mut ScrollbarState, ev: &KeyEvent, vl: usize)
    requires
        scroll_key_ok(old(ta)@.scroll_top_line, ev.key, vl),
    ensures
        final(ta)@ == (TextModel {
            scroll_top_line: scrolled_top(old(ta)@.scroll_top_line, ev.key, split_on(old(ta)@.text, '\n').len() as int, vl) as usize,
            ..old(ta)@
        }),
        final(sb).axis == ScrollAxis::Vertical,
        final(sb).content_len == (if wrapped(old(ta)@.text, 0).len() < 1 { 1 } else { wrapped(old(ta)@.text, 0).len() }),
        final(sb).viewport_len == (if vl < 1 { 1 } else { vl }),
        final(sb).offset == final(ta)@.scroll_top_line,
{
    let v = if vl < 1 { 1 } else { vl };
    apply_scrollbar_keys(ta, sb, ev, v);
}


// ── Keyboard handling ───────────────────────────────────────────────────────

/// Rows of the File menu: New, Open, Save, Save As, a separator, Delete, a
/// separator, Exit.
pub const FILE_MENU_LEN: usize = 8;

/// The File menu of the editor.
#[derive(Debug, Clone, Copy, PartialEq, Eq, Structural)]
pub struct SkriverMenu {
    /// The open drop-down (only the File menu exists).
    pub open: Option<usize>,
    /// Highlighted row while it is open.
    pub sel: usize,
}

/// What the front end does after a key.
#[derive(Debug, Clone, Copy, PartialEq, Eq, Structural)]
pub enum SkriverCommand {
    /// Nothing beyond redrawing.
    Idle,
    /// Give the key to the text area.
    Edit,
    /// Give the key to the open file picker.
    PickerKey,
    /// Start an empty document.
    New,
    /// Open the picker to load a file.
    Open,
    /// Write the current file, or pick a name when there is none.
    Save,
    /// Open the picker to save under a name.
    SaveAs,
    /// Deleting files is not offered: say so.
    DeleteUnsupported,
    /// Save the settings and leave.
    Quit,
}

/// Whether `k` is the letter `lower` or its capital.
pub open spec fn is_letter_key(k: Key, lower: char) -> bool {
    k == Key::Character(lower) || k == Key::Character(((lower as int) - 32) as char)
}

/// Running File menu row `sel`.
pub open spec fn skriver_row_command(sel: usize) -> SkriverCommand {
    if sel == 0 {
        SkriverCommand::New
    } else if sel == 1 {
        SkriverCommand::Open
    } else if sel == 2 || sel == 3 {
        SkriverCommand::SaveAs
    } else if sel == 5 {
        SkriverCommand::DeleteUnsupported
    } else if sel == 7 {
        SkriverCommand::Quit
    } else {
        SkriverCommand::Idle
    }
}

/// The editor's answer to one key: with the picker open every key goes to it; Esc
/// closes the menu; Ctrl+N, O, S, Q run New, Open, Save, Quit (other Ctrl keys go to
/// the text); F10 opens the File menu on its first row; with the menu open Up/Down
/// move and Enter runs the row and closes the menu; other keys edit the text.
pub open spec fn skriver_step(m: SkriverMenu, ev: KeyEvent, picker_open: bool) -> (SkriverMenu, SkriverCommand) {
    let k = ev.key;
    if picker_open {
        (m, SkriverCommand::PickerKey)
    } else if k == Key::Escape {
        (SkriverMenu { open: None, ..m }, SkriverCommand::Idle)
    } else if ev.modifiers.ctrl {
        if is_letter_key(k, 'n') {
            (m, SkriverCommand::New)
        } else if is_letter_key(k, 'o') {
            (m, SkriverCommand::Open)
        } else if is_letter_key(k, 's') {
            (m, SkriverCommand::Save)
        } else if is_letter_key(k, 'q') {
            (m, SkriverCommand::Quit)
        } else {
            (m, SkriverCommand::Edit)
        }
    } else if k == Key::Function(10) {
        (SkriverMenu { open: Some(0), sel: 0 }, SkriverCommand::Idle)
    } else if m.open is Some {
        match k {
            Key::Up => (SkriverMenu { sel: if m.sel > 0 { (m.sel - 1) as usize } else { m.sel }, ..m }, SkriverCommand::Idle),
            Key::Down => (SkriverMenu { sel: if m.sel + 1 < FILE_MENU_LEN { (m.sel + 1) as usize } else { m.sel }, ..m }, SkriverCommand::Idle),
            Key::Enter => (SkriverMenu { open: None, ..m }, skriver_row_command(m.sel)),
            _ => (m, SkriverCommand::Idle),
        }
    } else {
        (m, SkriverCommand::Edit)
    }
}

/// The highlighted row stays inside the menu.
pub open spec fn skriver_menu_ok(m: SkriverMenu) -> bool {
    m.sel < FILE_MENU_LEN
}

/// The editor's answer to one key (see [`skriver_step`]).
pub fn skriver_key(m: SkriverMenu, ev: &KeyEvent, picker_open: bool) -> (r: (SkriverMenu, SkriverCommand))
    requires
        skriver_menu_ok(m),
    ensures
        r == skriver_step(m, *ev, picker_open),
        skriver_menu_ok(r.0),
{
    let k = ev.key;
    if picker_open {
        return (m, SkriverCommand::PickerKey);
    }
    if k == Key::Escape {
        return (SkriverMenu { open: None, ..m }, SkriverCommand::Idle);
    }
    if ev.modifiers.ctrl {
        let c = match k {
            Key::Character(c) => c,
            _ => '\0',
        };
        return if c == 'n' || c == 'N' {
            (m, SkriverCommand::New)
        } else if c == 'o' || c == 'O' {
            (m, SkriverCommand::Open)
        } else if c == 's' || c == 'S' {
            (m, SkriverCommand::Save)
        } else if c == 'q' || c == 'Q' {
            (m, SkriverCommand::Quit)
        } else {
            (m, SkriverCommand::Edit)
        };
    }
    if k == Key::Function(10) {
        return (SkriverMenu { open: Some(0), sel: 0 }, SkriverCommand::Idle);
    }
    if m.open.is_some() {
        match k {
            Key::Up => (SkriverMenu { sel: if m.sel > 0 { m.sel - 1 } else { m.sel }, ..m }, SkriverCommand::Idle),
            Key::Down => (SkriverMenu { sel: if m.sel + 1 < FILE_MENU_LEN { m.sel + 1 } else { m.sel }, ..m }, SkriverCommand::Idle),
            Key::Enter => {
                let cmd = if m.sel == 0 {
                    SkriverCommand::New
                } else if m.sel == 1 {
                    SkriverCommand::Open
                } else if m.sel == 2 || m.sel == 3 {
                    SkriverCommand::SaveAs
                } else if m.sel == 5 {
                    SkriverCommand::DeleteUnsupported
                } else if m.sel == 7 {
                    SkriverCommand::Quit
                } else {
                    SkriverCommand::Idle
                };
                (SkriverMenu { open: None, ..m }, cmd)
            },
            _ => (m, SkriverCommand::Idle),
        }
    } else {
        (m, SkriverCommand::Edit)
    }
}

} // verus!
