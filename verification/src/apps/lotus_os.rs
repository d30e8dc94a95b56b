//! The Lotus editor: firmware key mapping, menu geometry, modes and text search.

use vstd::prelude::*;
use crate::apps::{popup_rect_under, popup_under, popup_under_ok};
use crate::geometry::Rectangle;
use crate::input::{Key, KeyEvent, Modifiers};
use crate::keymap::{RawKey, nav_key, nav_key_of, printable_event, printable_key_event};
use crate::keyboard_layout::{char_from_u32, is_scalar};
use vstd::utf8::encode_utf8;

verus! {

/// Height of a text row.
pub const LINE_H: i32 = 10;
/// Width of a character cell.
pub const CHAR_W: i32 = 6;

/// What the keyboard drives.
#[derive(Debug, Clone, Copy, PartialEq, Eq, Structural)]
pub enum Mode {
    Editing,
    /// Menu bar focused, no drop-down.
    MenuBar,
    /// File drop-down open.
    FileMenu,
    /// Edit drop-down open.
    EditMenu,
    Find,
    FilePicker,
}

/// The editor's reading of a firmware key: navigation keys and printable characters.
pub open spec fn editor_key_event(k: RawKey) -> Option<KeyEvent> {
    match k {
        RawKey::Printable(u) => printable_event(u),
        RawKey::Special(code) => match nav_key(code) {
            Some(key) => Some(KeyEvent { key, modifiers: Modifiers::none_spec() }),
            None => None,
        },
    }
}

/// Map a firmware key to a key event (see [`editor_key_event`]).
pub fn map_key(k: RawKey) -> (r: Option<KeyEvent>)
    ensures
        r == editor_key_event(k),
{
    match k {
        RawKey::Printable(u) => printable_key_event(u),
        RawKey::Special(code) => match nav_key_of(code) {
            Some(key) => Some(KeyEvent::new(key)),
            None => None,
        },
    }
}

/// Drop-down under a menubar cell: at least 100 px wide.
pub fn popup_rect_for(cell: &Rectangle, items: &[&str]) -> (r: Rectangle)
    requires
        popup_under_ok(*cell, items@, CHAR_W, LINE_H),
    ensures
        r == popup_under(*cell, items@, CHAR_W, LINE_H, 100),
{
    popup_rect_under(cell, items, CHAR_W, LINE_H, 100)
}

/// The status-bar hint for each mode.
pub open spec fn hint_of(mode: Mode) -> &'static str {
    match mode {
        Mode::Editing => "Esc: menu",
        Mode::MenuBar => "f: File  e: Edit  n: New  o: Open  s: Save  q: Quit  Esc: back",
        Mode::FileMenu => "n: New  l: Open Last  o: Open  s: Save  a: Save As  q: Quit  Esc: back",
        Mode::EditMenu => "c: Copy  v: Paste  a: Select All  d: Deselect  f: Find  Esc: back",
        Mode::Find => "type query  Enter: next match  Esc: close",
        Mode::FilePicker => "arrows: navigate  Enter: confirm  Esc: cancel",
    }
}

/// The status-bar hint for `mode` (see [`hint_of`]).
pub fn mode_hint(mode: Mode) -> (r: &'static str)
    ensures
        r == hint_of(mode),
{
    match mode {
        Mode::Editing => "Esc: menu",
        Mode::MenuBar => "f: File  e: Edit  n: New  o: Open  s: Save  q: Quit  Esc: back",
        Mode::FileMenu => "n: New  l: Open Last  o: Open  s: Save  a: Save As  q: Quit  Esc: back",
        Mode::EditMenu => "c: Copy  v: Paste  a: Select All  d: Deselect  f: Find  Esc: back",
        Mode::Find => "type query  Enter: next match  Esc: close",
        Mode::FilePicker => "arrows: navigate  Enter: confirm  Esc: cancel",
    }
}

/// Whether `q` occurs in `t` at byte `p`.
pub open spec fn occurs_at(t: Seq<u8>, q: Seq<u8>, p: int) -> bool {
    0 <= p && p + q.len() <= t.len() && t.subrange(p, p + q.len()) == q
}

/// The byte ranges `[p, p + q.len())` of the occurrences of `q` in `t` at positions
/// `p >= start`, in increasing order (overlapping occurrences included).
pub open spec fn ranges_from(t: Seq<u8>, q: Seq<u8>, start: int) -> Seq<(usize, usize)>
    decreases t.len() + 1 - start,
{
    if start < 0 || start + q.len() > t.len() {
        Seq::empty()
    } else if occurs_at(t, q, start) {
        seq![(start as usize, (start + q.len()) as usize)] + ranges_from(t, q, start + 1)
    } else {
        ranges_from(t, q, start + 1)
    }
}

/// The byte ranges `[lo, hi)` of every occurrence of `query` in `text`, in order
/// (overlapping ones included; none for an empty query).
pub open spec fn found_ranges(text: &str, query: &str) -> Seq<(usize, usize)> {
    if encode_utf8(query@).len() == 0 {
        Seq::empty()
    } else {
        ranges_from(encode_utf8(text@), encode_utf8(query@), 0)
    }
}

/// Whether `q` occurs in `t` at `p` (byte comparison).
fn occurs_at_exec(t: &[u8], q: &[u8], p: usize) -> (r: bool)
    requires
        p + q@.len() <= t@.len(),
    ensures
        r == occurs_at(t@, q@, p as int),
{
    let _n = t.len();
    let mut k: usize = 0;
    while k < q.len()
        invariant
            k <= q@.len(),
            t@.len() <= usize::MAX,
            p + q@.len() <= t@.len(),
            forall|j: int| 0 <= j < k ==> t@[p + j] == q@[j],
        decreases q@.len() - k,
    {
        if t[p + k] != q[k] {
            assert(t@.subrange(p as int, p + q@.len())[k as int] != q@[k as int]);
            return false;
        }
        k = k + 1;
    }
    assert(t@.subrange(p as int, p + q@.len()) =~= q@);
    true
}

/// Every occurrence of `query` in `text` as a byte range (see [`found_ranges`]). When
/// the query starts with a non-ASCII character it must not occur in `text`: the next
/// search would start inside that character.
pub fn find_in(text: &str, query: &str) -> (r: Vec<(usize, usize)>)
    requires
        encode_utf8(query@).len() == 0 || encode_utf8(query@)[0] < 0x80
            || ranges_from(encode_utf8(text@), encode_utf8(query@), 0).len() == 0,
    ensures
        r@ == found_ranges(text, query),
{
    let t = text.as_bytes();
    let q = query.as_bytes();
    let mut out: Vec<(usize, usize)> = Vec::new();
    if q.len() == 0 {
        return out;
    }
    if q.len() > t.len() {
        assert(ranges_from(t@, q@, 0) =~= Seq::<(usize, usize)>::empty());
        return out;
    }
    let last = t.len() - q.len();
    let mut p: usize = 0;
    while p <= last
        invariant
            q@.len() > 0,
            t@.len() <= usize::MAX,
            last + q@.len() == t@.len(),
            p <= last + 1,
            out@ + ranges_from(t@, q@, p as int) == ranges_from(t@, q@, 0),
        decreases last + 1 - p,
    {
        if occurs_at_exec(t, q, p) {
            let ghost before = out@;
            out.push((p, p + q.len()));
            assert(ranges_from(t@, q@, p as int) == seq![(p, (p + q@.len()) as usize)] + ranges_from(t@, q@, p + 1));
            assert(before + ranges_from(t@, q@, p as int) =~= out@ + ranges_from(t@, q@, p + 1));
        } else {
            assert(ranges_from(t@, q@, p as int) == ranges_from(t@, q@, p + 1));
        }
        p = p + 1;
    }
    assert(ranges_from(t@, q@, p as int) =~= Seq::<(usize, usize)>::empty());
    assert(out@ =~= ranges_from(t@, q@, 0));
    out
}


// ── Keyboard modes ──────────────────────────────────────────────────────────

/// Rows of the File menu, in order.
pub const FILE_MENU_LEN: usize = 7;
pub const FILE_IDX_NEW: usize = 0;
pub const FILE_IDX_OPEN_LAST: usize = 1;
pub const FILE_IDX_OPEN: usize = 2;
pub const FILE_IDX_SAVE: usize = 3;
pub const FILE_IDX_SAVE_AS: usize = 4;
/// The separator row of the File menu.
pub const FILE_IDX_SEPARATOR: usize = 5;
pub const FILE_IDX_QUIT: usize = 6;
/// Rows of the Edit menu, in order.
pub const EDIT_MENU_LEN: usize = 6;
pub const EDIT_IDX_COPY: usize = 0;
pub const EDIT_IDX_PASTE: usize = 1;
pub const EDIT_IDX_SELECT_ALL: usize = 2;
pub const EDIT_IDX_DESELECT: usize = 3;
/// The separator row of the Edit menu.
pub const EDIT_IDX_SEPARATOR: usize = 4;
pub const EDIT_IDX_FIND: usize = 5;

/// Where the keyboard is in the editor.
#[derive(Debug, Clone, Copy, PartialEq, Eq, Structural)]
pub struct LotusUi {
    pub mode: Mode,
    /// Highlighted row of the open drop-down.
    pub menu_sel: usize,
    /// Focused menubar title (File = 0, Edit = 1).
    pub menu_focus: usize,
    /// Match shown by the search bar.
    pub find_current: usize,
}

/// What the front end does after a key.
#[derive(Debug, Clone, Copy, PartialEq, Eq, Structural)]
pub enum LotusCommand {
    /// Nothing.
    Idle,
    /// Show the hint of the new mode.
    ShowHint,
    /// Give the key to the text area.
    Edit,
    /// Give the key to the open file picker.
    PickerKey,
    /// Start an empty document.
    New,
    /// Reopen the last edited file.
    OpenLast,
    /// Open the picker to load a file (on failure the mode goes back to editing).
    OpenPicker,
    /// Write the text to the current file.
    WriteCurrent,
    /// Open the picker to save under a new name (on failure back to editing).
    SavePicker,
    /// Save the settings and leave.
    Quit,
    /// Copy the selection to the clipboard.
    Copy,
    /// Type the clipboard into the text area.
    Paste,
    SelectAll,
    Deselect,
    /// Open an empty search bar.
    StartFind,
    /// Type the key into the search field and search again.
    FindKey,
    /// Show the next match.
    FindNext,
    /// Close the search bar and forget the matches.
    FindClose,
}

/// The ASCII letter a key types, lower-cased (`None` for other keys).
pub open spec fn key_letter(k: Key) -> Option<char> {
    match k {
        Key::Character(c) => if 0x61 <= c as int <= 0x7A {
            Some(c)
        } else if 0x41 <= c as int <= 0x5A {
            Some((c as int + 32) as char)
        } else {
            None
        },
        _ => None,
    }
}

/// The lower-cased ASCII letter of a key (see [`key_letter`]).
fn letter_of(k: Key) -> (r: Option<char>)
    ensures
        r == key_letter(k),
{
    match k {
        Key::Character(c) => {
            let u = c as u32;
            if 0x61 <= u && u <= 0x7A {
                Some(c)
            } else if 0x41 <= u && u <= 0x5A {
                assert(is_scalar(u + 32));
                char_from_u32(u + 32)
            } else {
                None
            }
        },
        _ => None,
    }
}

/// Whether File menu row `i` is skipped by the arrows: the separator, and "Open Last
/// File" when there is no last file.
pub open spec fn file_row_skipped(i: int, has_last: bool) -> bool {
    i == FILE_IDX_SEPARATOR || (i == FILE_IDX_OPEN_LAST && !has_last)
}

/// The File menu row above `i` that the Up arrow lands on (0 stays).
pub open spec fn file_row_up(i: int, has_last: bool) -> int
    decreases i,
{
    if i <= 0 { 0 } else if file_row_skipped(i - 1, has_last) { file_row_up(i - 1, has_last) } else { i - 1 }
}

/// The File menu row below `i` that the Down arrow lands on (the last row stays).
pub open spec fn file_row_down(i: int, has_last: bool) -> int
    decreases FILE_MENU_LEN - i,
{
    if i + 1 >= FILE_MENU_LEN { i } else if file_row_skipped(i + 1, has_last) { file_row_down(i + 1, has_last) } else { i + 1 }
}

/// The Edit menu row above `i` (the separator skipped; 0 stays).
pub open spec fn edit_row_up(i: int) -> int
    decreases i,
{
    if i <= 0 { 0 } else if i - 1 == EDIT_IDX_SEPARATOR { edit_row_up(i - 1) } else { i - 1 }
}

/// The Edit menu row below `i` (the separator skipped; the last row stays).
pub open spec fn edit_row_down(i: int) -> int
    decreases EDIT_MENU_LEN - i,
{
    if i + 1 >= EDIT_MENU_LEN { i } else if i + 1 == EDIT_IDX_SEPARATOR { edit_row_down(i + 1) } else { i + 1 }
}

/// Saving: write the current file if there is one, else pick a name.
pub open spec fn save_step(ui: LotusUi, has_current: bool) -> (LotusUi, LotusCommand) {
    if has_current {
        (LotusUi { mode: Mode::Editing, ..ui }, LotusCommand::WriteCurrent)
    } else {
        (LotusUi { mode: Mode::FilePicker, ..ui }, LotusCommand::SavePicker)
    }
}

/// Running File menu row `idx`.
pub open spec fn file_action(ui: LotusUi, idx: int, has_current: bool) -> (LotusUi, LotusCommand) {
    if idx == FILE_IDX_NEW {
        (LotusUi { mode: Mode::Editing, ..ui }, LotusCommand::New)
    } else if idx == FILE_IDX_OPEN_LAST {
        (LotusUi { mode: Mode::Editing, ..ui }, LotusCommand::OpenLast)
    } else if idx == FILE_IDX_OPEN {
        (LotusUi { mode: Mode::FilePicker, ..ui }, LotusCommand::OpenPicker)
    } else if idx == FILE_IDX_SAVE {
        save_step(ui, has_current)
    } else if idx == FILE_IDX_SAVE_AS {
        (LotusUi { mode: Mode::FilePicker, ..ui }, LotusCommand::SavePicker)
    } else if idx == FILE_IDX_QUIT {
        (ui, LotusCommand::Quit)
    } else {
        (LotusUi { mode: Mode::MenuBar, ..ui }, LotusCommand::ShowHint)
    }
}

/// Running Edit menu row `idx`.
pub open spec fn edit_action(ui: LotusUi, idx: int) -> (LotusUi, LotusCommand) {
    if idx == EDIT_IDX_COPY {
        (LotusUi { mode: Mode::Editing, ..ui }, LotusCommand::Copy)
    } else if idx == EDIT_IDX_PASTE {
        (LotusUi { mode: Mode::Editing, ..ui }, LotusCommand::Paste)
    } else if idx == EDIT_IDX_SELECT_ALL {
        (LotusUi { mode: Mode::Editing, ..ui }, LotusCommand::SelectAll)
    } else if idx == EDIT_IDX_DESELECT {
        (LotusUi { mode: Mode::Editing, ..ui }, LotusCommand::Deselect)
    } else if idx == EDIT_IDX_FIND {
        (LotusUi { mode: Mode::Find, find_current: 0, ..ui }, LotusCommand::StartFind)
    } else {
        (LotusUi { mode: Mode::MenuBar, ..ui }, LotusCommand::ShowHint)
    }
}

/// The File menu row a letter picks: n, l (only with a last file), o, s, a, q.
pub open spec fn file_letter_row(c: char, has_last: bool) -> Option<int> {
    if c == 'n' { Some(FILE_IDX_NEW as int) }
    else if c == 'l' && has_last { Some(FILE_IDX_OPEN_LAST as int) }
    else if c == 'o' { Some(FILE_IDX_OPEN as int) }
    else if c == 's' { Some(FILE_IDX_SAVE as int) }
    else if c == 'a' { Some(FILE_IDX_SAVE_AS as int) }
    else if c == 'q' { Some(FILE_IDX_QUIT as int) }
    else { None }
}

/// The Edit menu row a letter picks: c, v, a, d, f.
pub open spec fn edit_letter_row(c: char) -> Option<int> {
    if c == 'c' { Some(EDIT_IDX_COPY as int) }
    else if c == 'v' { Some(EDIT_IDX_PASTE as int) }
    else if c == 'a' { Some(EDIT_IDX_SELECT_ALL as int) }
    else if c == 'd' { Some(EDIT_IDX_DESELECT as int) }
    else if c == 'f' { Some(EDIT_IDX_FIND as int) }
    else { None }
}

/// A key in the menu bar: Esc back to editing, Left/Right move between File and Edit,
/// Enter or Down open the focused menu; then the letters f and e open a menu, n, o,
/// s and q run New, Open, Save and Quit.
pub open spec fn menubar_step(ui: LotusUi, k: Key, has_current: bool) -> (LotusUi, LotusCommand) {
    let f = ui.menu_focus;
    let (ui1, c1) = match k {
        Key::Escape => (LotusUi { mode: Mode::Editing, ..ui }, LotusCommand::ShowHint),
        Key::Left => (LotusUi { menu_focus: if f >= 1 { (f - 1) as usize } else { 0 }, ..ui }, LotusCommand::ShowHint),
        Key::Right => (LotusUi { menu_focus: if f + 1 < 1 { (f + 1) as usize } else { 1 }, ..ui }, LotusCommand::ShowHint),
        Key::Enter | Key::Down => if f == 0 {
            (LotusUi { mode: Mode::FileMenu, menu_sel: FILE_IDX_NEW, ..ui }, LotusCommand::ShowHint)
        } else {
            (LotusUi { mode: Mode::EditMenu, menu_sel: EDIT_IDX_COPY, ..ui }, LotusCommand::ShowHint)
        },
        _ => (ui, LotusCommand::Idle),
    };
    match key_letter(k) {
        Some(c) => if c == 'f' {
            (LotusUi { mode: Mode::FileMenu, menu_sel: FILE_IDX_NEW, ..ui1 }, LotusCommand::ShowHint)
        } else if c == 'e' {
            (LotusUi { mode: Mode::EditMenu, menu_sel: EDIT_IDX_COPY, ..ui1 }, LotusCommand::ShowHint)
        } else if c == 'n' {
            (LotusUi { mode: Mode::Editing, ..ui1 }, LotusCommand::New)
        } else if c == 'o' {
            (LotusUi { mode: Mode::FilePicker, ..ui1 }, LotusCommand::OpenPicker)
        } else if c == 's' {
            save_step(ui1, has_current)
        } else if c == 'q' {
            (ui1, LotusCommand::Quit)
        } else {
            (ui1, c1)
        },
        None => (ui1, c1),
    }
}

/// A key with the File menu open: Esc back to the menu bar, Up/Down move over the
/// rows that can be picked, Enter or a letter runs a row.
pub open spec fn file_menu_step(ui: LotusUi, k: Key, has_last: bool, has_current: bool) -> (LotusUi, LotusCommand) {
    let (ui1, c1, act) = match k {
        Key::Escape => (LotusUi { mode: Mode::MenuBar, menu_focus: 0, ..ui }, LotusCommand::ShowHint, None),
        Key::Up => (LotusUi { menu_sel: file_row_up(ui.menu_sel as int, has_last) as usize, ..ui }, LotusCommand::ShowHint, None),
        Key::Down => (LotusUi { menu_sel: file_row_down(ui.menu_sel as int, has_last) as usize, ..ui }, LotusCommand::ShowHint, None),
        Key::Enter => (ui, LotusCommand::Idle, Some(ui.menu_sel as int)),
        _ => (ui, LotusCommand::Idle, None),
    };
    let act2 = match k {
        Key::Character(_) => match key_letter(k) {
            Some(c) => file_letter_row(c, has_last),
            None => None,
        },
        _ => act,
    };
    match act2 {
        Some(idx) => file_action(ui1, idx, has_current),
        None => (ui1, c1),
    }
}

/// A key with the Edit menu open: Esc back to the menu bar (Edit focused), Up/Down
/// move past the separator, Enter or a letter runs a row.
pub open spec fn edit_menu_step(ui: LotusUi, k: Key) -> (LotusUi, LotusCommand) {
    let (ui1, c1, act) = match k {
        Key::Escape => (LotusUi { mode: Mode::MenuBar, menu_focus: 1, ..ui }, LotusCommand::ShowHint, None),
        Key::Up => (LotusUi { menu_sel: edit_row_up(ui.menu_sel as int) as usize, ..ui }, LotusCommand::ShowHint, None),
        Key::Down => (LotusUi { menu_sel: edit_row_down(ui.menu_sel as int) as usize, ..ui }, LotusCommand::ShowHint, None),
        Key::Enter => (ui, LotusCommand::Idle, Some(ui.menu_sel as int)),
        _ => (ui, LotusCommand::Idle, None),
    };
    let act2 = match k {
        Key::Character(_) => match key_letter(k) {
            Some(c) => edit_letter_row(c),
            None => None,
        },
        _ => act,
    };
    match act2 {
        Some(idx) => edit_action(ui1, idx),
        None => (ui1, c1),
    }
}

/// The editor's answer to one key: the new keyboard state and what the front end
/// does. `has_last` says whether a last file is remembered, `has_current` whether
/// the text has a file, `find_count` how many matches the search bar holds.
pub open spec fn lotus_step(ui: LotusUi, ev: KeyEvent, has_last: bool, has_current: bool, find_count: usize) -> (LotusUi, LotusCommand) {
    let k = ev.key;
    match ui.mode {
        Mode::FilePicker => (ui, LotusCommand::PickerKey),
        Mode::Find => match k {
            Key::Escape => (LotusUi { mode: Mode::Editing, ..ui }, LotusCommand::FindClose),
            Key::Enter => if find_count > 0 {
                (LotusUi { find_current: ((ui.find_current + 1) % (find_count as int)) as usize, ..ui }, LotusCommand::FindNext)
            } else {
                (ui, LotusCommand::Idle)
            },
            _ => (LotusUi { find_current: 0, ..ui }, LotusCommand::FindKey),
        },
        Mode::MenuBar => menubar_step(ui, k, has_current),
        Mode::FileMenu => file_menu_step(ui, k, has_last, has_current),
        Mode::EditMenu => edit_menu_step(ui, k),
        Mode::Editing => if k == Key::Escape {
            (LotusUi { mode: Mode::MenuBar, menu_focus: 0, ..ui }, LotusCommand::ShowHint)
        } else {
            (ui, LotusCommand::Edit)
        },
    }
}

/// The keyboard state stays within the menus: the focused title is File or Edit,
/// the highlighted row is inside the open drop-down, the search can advance.
pub open spec fn lotus_ui_ok(ui: LotusUi) -> bool {
    &&& ui.menu_focus < 2
    &&& ui.mode == Mode::FileMenu ==> ui.menu_sel < FILE_MENU_LEN
    &&& ui.mode == Mode::EditMenu ==> ui.menu_sel < EDIT_MENU_LEN
    &&& ui.find_current < usize::MAX
}

fn file_up_exec(i: usize, has_last: bool) -> (r: usize)
    requires
        i < FILE_MENU_LEN,
    ensures
        r == file_row_up(i as int, has_last),
        r < FILE_MENU_LEN,
    decreases i,
{
    if i == 0 {
        0
    } else if i - 1 == FILE_IDX_SEPARATOR || (i - 1 == FILE_IDX_OPEN_LAST && !has_last) {
        file_up_exec(i - 1, has_last)
    } else {
        i - 1
    }
}

fn file_down_exec(i: usize, has_last: bool) -> (r: usize)
    requires
        i < FILE_MENU_LEN,
    ensures
        r == file_row_down(i as int, has_last),
        r < FILE_MENU_LEN,
    decreases FILE_MENU_LEN - i,
{
    if i + 1 >= FILE_MENU_LEN {
        i
    } else if i + 1 == FILE_IDX_SEPARATOR || (i + 1 == FILE_IDX_OPEN_LAST && !has_last) {
        file_down_exec(i + 1, has_last)
    } else {
        i + 1
    }
}

fn edit_up_exec(i: usize) -> (r: usize)
    requires
        i < EDIT_MENU_LEN,
    ensures
        r == edit_row_up(i as int),
        r < EDIT_MENU_LEN,
    decreases i,
{
    if i == 0 {
        0
    } else if i - 1 == EDIT_IDX_SEPARATOR {
        edit_up_exec(i - 1)
    } else {
        i - 1
    }
}

fn edit_down_exec(i: usize) -> (r: usize)
    requires
        i < EDIT_MENU_LEN,
    ensures
        r == edit_row_down(i as int),
        r < EDIT_MENU_LEN,
    decreases EDIT_MENU_LEN - i,
{
    if i + 1 >= EDIT_MENU_LEN {
        i
    } else if i + 1 == EDIT_IDX_SEPARATOR {
        edit_down_exec(i + 1)
    } else {
        i + 1
    }
}

fn save_exec(ui: LotusUi, has_current: bool) -> (r: (LotusUi, LotusCommand))
    ensures
        r == save_step(ui, has_current),
{
    if has_current {
        (LotusUi { mode: Mode::Editing, ..ui }, LotusCommand::WriteCurrent)
    } else {
        (LotusUi { mode: Mode::FilePicker, ..ui }, LotusCommand::SavePicker)
    }
}

fn file_action_exec(ui: LotusUi, idx: usize, has_current: bool) -> (r: (LotusUi, LotusCommand))
    ensures
        r == file_action(ui, idx as int, has_current),
{
    if idx == FILE_IDX_NEW {
        (LotusUi { mode: Mode::Editing, ..ui }, LotusCommand::New)
    } else if idx == FILE_IDX_OPEN_LAST {
        (LotusUi { mode: Mode::Editing, ..ui }, LotusCommand::OpenLast)
    } else if idx == FILE_IDX_OPEN {
        (LotusUi { mode: Mode::FilePicker, ..ui }, LotusCommand::OpenPicker)
    } else if idx == FILE_IDX_SAVE {
        save_exec(ui, has_current)
    } else if idx == FILE_IDX_SAVE_AS {
        (LotusUi { mode: Mode::FilePicker, ..ui }, LotusCommand::SavePicker)
    } else if idx == FILE_IDX_QUIT {
        (ui, LotusCommand::Quit)
    } else {
        (LotusUi { mode: Mode::MenuBar, ..ui }, LotusCommand::ShowHint)
    }
}

fn edit_action_exec(ui: LotusUi, idx: usize) -> (r: (LotusUi, LotusCommand))
    ensures
        r == edit_action(ui, idx as int),
{
    if idx == EDIT_IDX_COPY {
        (LotusUi { mode: Mode::Editing, ..ui }, LotusCommand::Copy)
    } else if idx == EDIT_IDX_PASTE {
        (LotusUi { mode: Mode::Editing, ..ui }, LotusCommand::Paste)
    } else if idx == EDIT_IDX_SELECT_ALL {
        (LotusUi { mode: Mode::Editing, ..ui }, LotusCommand::SelectAll)
    } else if idx == EDIT_IDX_DESELECT {
        (LotusUi { mode: Mode::Editing, ..ui }, LotusCommand::Deselect)
    } else if idx == EDIT_IDX_FIND {
        (LotusUi { mode: Mode::Find, find_current: 0, ..ui }, LotusCommand::StartFind)
    } else {
        (LotusUi { mode: Mode::MenuBar, ..ui }, LotusCommand::ShowHint)
    }
}

fn menubar_exec(ui: LotusUi, k: Key, has_current: bool) -> (r: (LotusUi, LotusCommand))
    requires
        lotus_ui_ok(ui),
    ensures
        r == menubar_step(ui, k, has_current),
        lotus_ui_ok(r.0),
{
    let f = ui.menu_focus;
    let (ui1, c1) = match k {
        Key::Escape => (LotusUi { mode: Mode::Editing, ..ui }, LotusCommand::ShowHint),
        Key::Left => (LotusUi { menu_focus: if f >= 1 { f - 1 } else { 0 }, ..ui }, LotusCommand::ShowHint),
        Key::Right => (LotusUi { menu_focus: if f + 1 < 1 { f + 1 } else { 1 }, ..ui }, LotusCommand::ShowHint),
        Key::Enter | Key::Down => if f == 0 {
            (LotusUi { mode: Mode::FileMenu, menu_sel: FILE_IDX_NEW, ..ui }, LotusCommand::ShowHint)
        } else {
            (LotusUi { mode: Mode::EditMenu, menu_sel: EDIT_IDX_COPY, ..ui }, LotusCommand::ShowHint)
        },
        _ => (ui, LotusCommand::Idle),
    };
    match letter_of(k) {
        Some(c) => if c == 'f' {
            (LotusUi { mode: Mode::FileMenu, menu_sel: FILE_IDX_NEW, ..ui1 }, LotusCommand::ShowHint)
        } else if c == 'e' {
            (LotusUi { mode: Mode::EditMenu, menu_sel: EDIT_IDX_COPY, ..ui1 }, LotusCommand::ShowHint)
        } else if c == 'n' {
            (LotusUi { mode: Mode::Editing, ..ui1 }, LotusCommand::New)
        } else if c == 'o' {
            (LotusUi { mode: Mode::FilePicker, ..ui1 }, LotusCommand::OpenPicker)
        } else if c == 's' {
            save_exec(ui1, has_current)
        } else if c == 'q' {
            (ui1, LotusCommand::Quit)
        } else {
            (ui1, c1)
        },
        None => (ui1, c1),
    }
}

fn file_letter_exec(c: char, has_last: bool) -> (r: Option<usize>)
    ensures
        match file_letter_row(c, has_last) {
            Some(i) => r == Some(i as usize),
            None => r is None,
        },
{
    if c == 'n' { Some(FILE_IDX_NEW) }
    else if c == 'l' && has_last { Some(FILE_IDX_OPEN_LAST) }
    else if c == 'o' { Some(FILE_IDX_OPEN) }
    else if c == 's' { Some(FILE_IDX_SAVE) }
    else if c == 'a' { Some(FILE_IDX_SAVE_AS) }
    else if c == 'q' { Some(FILE_IDX_QUIT) }
    else { None }
}

fn edit_letter_exec(c: char) -> (r: Option<usize>)
    ensures
        match edit_letter_row(c) {
            Some(i) => r == Some(i as usize),
            None => r is None,
        },
{
    if c == 'c' { Some(EDIT_IDX_COPY) }
    else if c == 'v' { Some(EDIT_IDX_PASTE) }
    else if c == 'a' { Some(EDIT_IDX_SELECT_ALL) }
    else if c == 'd' { Some(EDIT_IDX_DESELECT) }
    else if c == 'f' { Some(EDIT_IDX_FIND) }
    else { None }
}

fn file_menu_exec(ui: LotusUi, k: Key, has_last: bool, has_current: bool) -> (r: (LotusUi, LotusCommand))
    requires
        lotus_ui_ok(ui),
        ui.mode == Mode::FileMenu,
    ensures
        r == file_menu_step(ui, k, has_last, has_current),
        lotus_ui_ok(r.0),
{
    let (ui1, c1, act): (LotusUi, LotusCommand, Option<usize>) = match k {
        Key::Escape => (LotusUi { mode: Mode::MenuBar, menu_focus: 0, ..ui }, LotusCommand::ShowHint, None),
        Key::Up => (LotusUi { menu_sel: file_up_exec(ui.menu_sel, has_last), ..ui }, LotusCommand::ShowHint, None),
        Key::Down => (LotusUi { menu_sel: file_down_exec(ui.menu_sel, has_last), ..ui }, LotusCommand::ShowHint, None),
        Key::Enter => (ui, LotusCommand::Idle, Some(ui.menu_sel)),
        _ => (ui, LotusCommand::Idle, None),
    };
    let act2: Option<usize> = match k {
        Key::Character(_) => match letter_of(k) {
            Some(c) => file_letter_exec(c, has_last),
            None => None,
        },
        _ => act,
    };
    match act2 {
        Some(idx) => file_action_exec(ui1, idx, has_current),
        None => (ui1, c1),
    }
}

fn edit_menu_exec(ui: LotusUi, k: Key) -> (r: (LotusUi, LotusCommand))
    requires
        lotus_ui_ok(ui),
        ui.mode == Mode::EditMenu,
    ensures
        r == edit_menu_step(ui, k),
        lotus_ui_ok(r.0),
{
    let (ui1, c1, act): (LotusUi, LotusCommand, Option<usize>) = match k {
        Key::Escape => (LotusUi { mode: Mode::MenuBar, menu_focus: 1, ..ui }, LotusCommand::ShowHint, None),
        Key::Up => (LotusUi { menu_sel: edit_up_exec(ui.menu_sel), ..ui }, LotusCommand::ShowHint, None),
        Key::Down => (LotusUi { menu_sel: edit_down_exec(ui.menu_sel), ..ui }, LotusCommand::ShowHint, None),
        Key::Enter => (ui, LotusCommand::Idle, Some(ui.menu_sel)),
        _ => (ui, LotusCommand::Idle, None),
    };
    let act2: Option<usize> = match k {
        Key::Character(_) => match letter_of(k) {
            Some(c) => edit_letter_exec(c),
            None => None,
        },
        _ => act,
    };
    match act2 {
        Some(idx) => edit_action_exec(ui1, idx),
        None => (ui1, c1),
    }
}

/// The editor's answer to one key (see [`lotus_step`]); the keyboard state stays
/// within the menus.
pub fn lotus_key(ui: LotusUi, ev: &KeyEvent, has_last: bool, has_current: bool, find_count: usize) -> (r: (LotusUi, LotusCommand))
    requires
        lotus_ui_ok(ui),
    ensures
        r == lotus_step(ui, *ev, has_last, has_current, find_count),
        lotus_ui_ok(r.0),
{
    let k = ev.key;
    match ui.mode {
        Mode::FilePicker => (ui, LotusCommand::PickerKey),
        Mode::Find => match k {
            Key::Escape => (LotusUi { mode: Mode::Editing, ..ui }, LotusCommand::FindClose),
            Key::Enter => if find_count > 0 {
                (LotusUi { find_current: (ui.find_current + 1) % find_count, ..ui }, LotusCommand::FindNext)
            } else {
                (ui, LotusCommand::Idle)
            },
            _ => (LotusUi { find_current: 0, ..ui }, LotusCommand::FindKey),
        },
        Mode::MenuBar => menubar_exec(ui, k, has_current),
        Mode::FileMenu => file_menu_exec(ui, k, has_last, has_current),
        Mode::EditMenu => edit_menu_exec(ui, k),
        Mode::Editing => if k == Key::Escape {
            (LotusUi { mode: Mode::MenuBar, menu_focus: 0, ..ui }, LotusCommand::ShowHint)
        } else {
            (ui, LotusCommand::Edit)
        },
    }
}

/// The keyboard state when the editor starts: editing, File focused.
pub fn lotus_ui_new() -> (r: LotusUi)
    ensures
        r == (LotusUi { mode: Mode::Editing, menu_sel: 0, menu_focus: 0, find_current: 0 }),
        lotus_ui_ok(r),
{
    LotusUi { mode: Mode::Editing, menu_sel: 0, menu_focus: 0, find_current: 0 }
}

} // verus!
