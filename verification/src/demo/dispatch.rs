//! What one key means to the showcase window: the virtual Shift/Alt latches, the text
//! area's context menu, the modal About box, the window cycle, the file picker, the
//! movable second window, the Esc chord, Tab, and the Ctrl shortcuts of the editor.
//! The front end performs the command that comes back.

use vstd::prelude::*;
use crate::input::{Key, KeyEvent};
use crate::demo::layout::Focus;
use crate::demo::interaction::{merge_virtual_nav, merged_nav};
use crate::geometry::{Point, Rectangle, Size};

verus! {

/// Rows of the text area's context menu: Cut, Copy, Paste, a separator, Select All.
pub const CONTEXT_ITEM_COUNT: usize = 5;

/// What a context-menu row does.
#[derive(Debug, Clone, Copy, PartialEq, Eq, Structural)]
pub enum ContextAction {
    Cut,
    Copy,
    Paste,
    SelectAll,
}

/// The action of context-menu row `i` (`None` for the separator and past the end).
pub open spec fn context_action_at(i: int) -> Option<ContextAction> {
    if i == 0 {
        Some(ContextAction::Cut)
    } else if i == 1 {
        Some(ContextAction::Copy)
    } else if i == 2 {
        Some(ContextAction::Paste)
    } else if i == 4 {
        Some(ContextAction::SelectAll)
    } else {
        None
    }
}

/// The action of context-menu row `i` (see [`context_action_at`]).
pub fn context_action(i: usize) -> (r: Option<ContextAction>)
    ensures
        r == context_action_at(i as int),
{
    if i == 0 {
        Some(ContextAction::Cut)
    } else if i == 1 {
        Some(ContextAction::Copy)
    } else if i == 2 {
        Some(ContextAction::Paste)
    } else if i == 4 {
        Some(ContextAction::SelectAll)
    } else {
        None
    }
}

/// Keyboard state of the showcase that only keys change.
#[derive(Debug, Clone, Copy, PartialEq, Eq, Structural)]
pub struct DemoKeys {
    /// F2 latch: Shift added to navigation keys in the editor.
    pub virtual_shift: bool,
    /// F3 latch: Alt added to navigation keys in the editor.
    pub virtual_alt: bool,
    /// Highlighted row of the open context menu (`None` when it is closed).
    pub context_hovered: Option<usize>,
    /// Esc was pressed in the editor and waits for A, C or a second Esc.
    pub esc_pending: bool,
    /// F12 toggles the pointer diagnostics overlay.
    pub show_pointer_diag: bool,
}

/// The rest of the window that decides where a key goes.
#[derive(Debug, Clone, Copy, PartialEq, Eq, Structural)]
pub struct DemoContext {
    /// A modal popover (the About box) blocks input.
    pub modal_blocking: bool,
    /// The file picker dialog is open.
    pub picker_open: bool,
    /// The second (movable) window has the window focus.
    pub aux_focused: bool,
    /// The focused region of the main window.
    pub focus: Focus,
}

/// What the front end does after a key.
#[derive(Debug, Clone, Copy, PartialEq, Eq, Structural)]
pub enum DemoCommand {
    /// Nothing beyond the state change.
    Nothing,
    /// Run a context-menu action on the text area.
    RunContext(ContextAction),
    /// Close the top popover.
    PopModal,
    /// Give the window focus to the next window.
    FocusNextWindow,
    /// Give the key to the file picker dialog.
    PickerKey,
    /// Move the second window by this many pixels (within its limits).
    NudgeAux { dx: i32, dy: i32 },
    /// Select all text.
    SelectAll,
    /// Copy the selection to the clipboard.
    Copy,
    /// Copy the selection to the clipboard and remove it.
    Cut,
    /// Replace the selection with the clipboard.
    Paste,
    /// Start an empty document.
    NewDocument,
    /// Open the picker to load a file.
    OpenPicker,
    /// Open the picker to save the text.
    SavePicker,
    /// Focus the menu bar.
    FocusMenu,
    /// Move focus along the Tab order (backwards with Shift).
    Tab { shift: bool },
    /// Give the key to the menu bar.
    MenuKey(KeyEvent),
    /// Give the key to the gallery (with the Shift latch).
    GalleryKey(KeyEvent),
    /// Give the key (with the latches merged in) to the text area.
    EditorKey(KeyEvent),
    /// Give the key to the editor's scrollbar.
    ScrollbarKey(KeyEvent),
}

/// The highlighted context-menu row stays a row.
pub open spec fn demo_keys_ok(s: DemoKeys) -> bool {
    s.context_hovered matches Some(h) ==> h < CONTEXT_ITEM_COUNT
}

/// Whether `k` is the letter `lower` in either case (`lower` a lower-case ASCII letter).
pub open spec fn is_letter(k: Key, lower: char) -> bool {
    k == Key::Character(lower) || k == Key::Character(((lower as int) - 32) as char)
}

/// Ctrl shortcuts of the editor; other keys go to the text area.
pub open spec fn editor_command(e: KeyEvent) -> DemoCommand {
    let k = e.key;
    if !e.modifiers.ctrl {
        DemoCommand::EditorKey(e)
    } else if is_letter(k, 'a') {
        DemoCommand::SelectAll
    } else if is_letter(k, 'c') {
        DemoCommand::Copy
    } else if is_letter(k, 'x') {
        DemoCommand::Cut
    } else if is_letter(k, 'v') {
        DemoCommand::Paste
    } else if is_letter(k, 'n') {
        DemoCommand::NewDocument
    } else if is_letter(k, 'o') {
        DemoCommand::OpenPicker
    } else if is_letter(k, 's') {
        DemoCommand::SavePicker
    } else {
        DemoCommand::EditorKey(e)
    }
}

/// A key that reaches the focused region: Tab moves focus (and drops a pending Esc),
/// anything else goes to the region, the editor merging in the latches first.
pub open spec fn routed(s: DemoKeys, focus: Focus, ev: KeyEvent) -> (DemoKeys, DemoCommand) {
    if ev.key == Key::Tab {
        (DemoKeys { esc_pending: false, ..s }, DemoCommand::Tab { shift: ev.modifiers.shift })
    } else {
        match focus {
            Focus::Menu => (s, DemoCommand::MenuKey(ev)),
            Focus::Gallery => (s, DemoCommand::GalleryKey(ev)),
            Focus::Editor => (s, editor_command(merged_nav(ev, s.virtual_shift, s.virtual_alt))),
            Focus::Scrollbar => (s, DemoCommand::ScrollbarKey(ev)),
        }
    }
}

/// The showcase's answer to one key, in order of precedence: F2 and F3 flip the
/// latches; an open context menu takes the key (Up/Down move, Enter runs the row,
/// anything else closes it); a modal box swallows keys but Esc, which closes it; F6
/// cycles windows; F12 flips the diagnostics overlay; an open picker takes the key;
/// the second window moves 6 px per arrow key; in the editor, Esc starts a chord
/// (Esc A selects all, Esc C copies, Esc Esc focuses the menu bar; another key drops
/// it and goes on) and clears the latches, as Esc elsewhere does before going on;
/// then [`routed`].
pub open spec fn demo_key_step(s: DemoKeys, c: DemoContext, ev: KeyEvent) -> (DemoKeys, DemoCommand) {
    let k = ev.key;
    if k == Key::Function(2) {
        (DemoKeys { virtual_shift: !s.virtual_shift, ..s }, DemoCommand::Nothing)
    } else if k == Key::Function(3) {
        (DemoKeys { virtual_alt: !s.virtual_alt, ..s }, DemoCommand::Nothing)
    } else if s.context_hovered is Some {
        let h = s.context_hovered->Some_0;
        if k == Key::Up {
            (DemoKeys { context_hovered: Some(if h > 0 { (h - 1) as usize } else { h }), ..s }, DemoCommand::Nothing)
        } else if k == Key::Down {
            (DemoKeys { context_hovered: Some(if h + 1 < CONTEXT_ITEM_COUNT { (h + 1) as usize } else { h }), ..s },
                DemoCommand::Nothing)
        } else if k == Key::Enter {
            (DemoKeys { context_hovered: None, ..s }, match context_action_at(h as int) {
                Some(a) => DemoCommand::RunContext(a),
                None => DemoCommand::Nothing,
            })
        } else {
            (DemoKeys { context_hovered: None, ..s }, DemoCommand::Nothing)
        }
    } else if c.modal_blocking {
        (s, if k == Key::Escape { DemoCommand::PopModal } else { DemoCommand::Nothing })
    } else if k == Key::Function(6) {
        (s, DemoCommand::FocusNextWindow)
    } else if k == Key::Function(12) {
        (DemoKeys { show_pointer_diag: !s.show_pointer_diag, ..s }, DemoCommand::Nothing)
    } else if c.picker_open {
        (s, DemoCommand::PickerKey)
    } else if c.aux_focused {
        (s, match k {
            Key::Left => DemoCommand::NudgeAux { dx: -6i32, dy: 0i32 },
            Key::Right => DemoCommand::NudgeAux { dx: 6, dy: 0 },
            Key::Up => DemoCommand::NudgeAux { dx: 0i32, dy: -6i32 },
            Key::Down => DemoCommand::NudgeAux { dx: 0, dy: 6 },
            _ => DemoCommand::Nothing,
        })
    } else if c.focus == Focus::Editor {
        if s.esc_pending && is_letter(k, 'a') {
            (DemoKeys { esc_pending: false, ..s }, DemoCommand::SelectAll)
        } else if s.esc_pending && is_letter(k, 'c') {
            (DemoKeys { esc_pending: false, ..s }, DemoCommand::Copy)
        } else if s.esc_pending && k == Key::Escape {
            (DemoKeys { esc_pending: false, ..s }, DemoCommand::FocusMenu)
        } else if !s.esc_pending && k == Key::Escape {
            (DemoKeys { esc_pending: true, virtual_shift: false, virtual_alt: false, ..s }, DemoCommand::Nothing)
        } else {
            routed(DemoKeys { esc_pending: false, ..s }, c.focus, ev)
        }
    } else if k == Key::Escape {
        routed(DemoKeys { virtual_shift: false, virtual_alt: false, ..s }, c.focus, ev)
    } else {
        routed(s, c.focus, ev)
    }
}

fn is_letter_exec(k: Key, lower: char, upper: char) -> (r: bool)
    ensures
        r == (k == Key::Character(lower) || k == Key::Character(upper)),
{
    match k {
        Key::Character(c) => c == lower || c == upper,
        _ => false,
    }
}

fn editor_command_exec(e: KeyEvent) -> (r: DemoCommand)
    ensures
        r == editor_command(e),
{
    let k = e.key;
    if !e.modifiers.ctrl {
        DemoCommand::EditorKey(e)
    } else if is_letter_exec(k, 'a', 'A') {
        DemoCommand::SelectAll
    } else if is_letter_exec(k, 'c', 'C') {
        DemoCommand::Copy
    } else if is_letter_exec(k, 'x', 'X') {
        DemoCommand::Cut
    } else if is_letter_exec(k, 'v', 'V') {
        DemoCommand::Paste
    } else if is_letter_exec(k, 'n', 'N') {
        DemoCommand::NewDocument
    } else if is_letter_exec(k, 'o', 'O') {
        DemoCommand::OpenPicker
    } else if is_letter_exec(k, 's', 'S') {
        DemoCommand::SavePicker
    } else {
        DemoCommand::EditorKey(e)
    }
}

fn routed_exec(s: DemoKeys, focus: Focus, ev: KeyEvent) -> (r: (DemoKeys, DemoCommand))
    ensures
        r == routed(s, focus, ev),
{
    if ev.key == Key::Tab {
        (DemoKeys { esc_pending: false, ..s }, DemoCommand::Tab { shift: ev.modifiers.shift })
    } else {
        match focus {
            Focus::Menu => (s, DemoCommand::MenuKey(ev)),
            Focus::Gallery => (s, DemoCommand::GalleryKey(ev)),
            Focus::Editor => (s, editor_command_exec(merge_virtual_nav(ev, s.virtual_shift, s.virtual_alt))),
            Focus::Scrollbar => (s, DemoCommand::ScrollbarKey(ev)),
        }
    }
}

/// The showcase's answer to one key (see [`demo_key_step`]); the context menu's
/// highlight stays a row.
pub fn demo_key(s: DemoKeys, c: DemoContext, ev: &KeyEvent) -> (r: (DemoKeys, DemoCommand))
    requires
        demo_keys_ok(s),
    ensures
        r == demo_key_step(s, c, *ev),
        demo_keys_ok(r.0),
{
    let k = ev.key;
    if k == Key::Function(2) {
        (DemoKeys { virtual_shift: !s.virtual_shift, ..s }, DemoCommand::Nothing)
    } else if k == Key::Function(3) {
        (DemoKeys { virtual_alt: !s.virtual_alt, ..s }, DemoCommand::Nothing)
    } else if let Some(h) = s.context_hovered {
        if k == Key::Up {
            (DemoKeys { context_hovered: Some(if h > 0 { h - 1 } else { h }), ..s }, DemoCommand::Nothing)
        } else if k == Key::Down {
            (DemoKeys { context_hovered: Some(if h + 1 < CONTEXT_ITEM_COUNT { h + 1 } else { h }), ..s },
                DemoCommand::Nothing)
        } else if k == Key::Enter {
            let cmd = match context_action(h) {
                Some(a) => DemoCommand::RunContext(a),
                None => DemoCommand::Nothing,
            };
            (DemoKeys { context_hovered: None, ..s }, cmd)
        } else {
            (DemoKeys { context_hovered: None, ..s }, DemoCommand::Nothing)
        }
    } else if c.modal_blocking {
        (s, if k == Key::Escape { DemoCommand::PopModal } else { DemoCommand::Nothing })
    } else if k == Key::Function(6) {
        (s, DemoCommand::FocusNextWindow)
    } else if k == Key::Function(12) {
        (DemoKeys { show_pointer_diag: !s.show_pointer_diag, ..s }, DemoCommand::Nothing)
    } else if c.picker_open {
        (s, DemoCommand::PickerKey)
    } else if c.aux_focused {
        let cmd = match k {
            Key::Left => DemoCommand::NudgeAux { dx: -6i32, dy: 0i32 },
            Key::Right => DemoCommand::NudgeAux { dx: 6, dy: 0 },
            Key::Up => DemoCommand::NudgeAux { dx: 0i32, dy: -6i32 },
            Key::Down => DemoCommand::NudgeAux { dx: 0, dy: 6 },
            _ => DemoCommand::Nothing,
        };
        (s, cmd)
    } else if c.focus == Focus::Editor {
        if s.esc_pending && is_letter_exec(k, 'a', 'A') {
            (DemoKeys { esc_pending: false, ..s }, DemoCommand::SelectAll)
        } else if s.esc_pending && is_letter_exec(k, 'c', 'C') {
            (DemoKeys { esc_pending: false, ..s }, DemoCommand::Copy)
        } else if s.esc_pending && k == Key::Escape {
            (DemoKeys { esc_pending: false, ..s }, DemoCommand::FocusMenu)
        } else if !s.esc_pending && k == Key::Escape {
            (DemoKeys { esc_pending: true, virtual_shift: false, virtual_alt: false, ..s }, DemoCommand::Nothing)
        } else {
            routed_exec(DemoKeys { esc_pending: false, ..s }, c.focus, *ev)
        }
    } else if k == Key::Escape {
        routed_exec(DemoKeys { virtual_shift: false, virtual_alt: false, ..s }, c.focus, *ev)
    } else {
        routed_exec(s, c.focus, *ev)
    }
}

/// What choosing a menu entry does: the top-level index and, for a submenu row, its
/// index.
#[derive(Debug, Clone, Copy, PartialEq, Eq, Structural)]
pub enum MenuCommand {
    /// Help > About: show the modal About box.
    ShowAbout,
    /// File > New.
    NewDocument,
    /// File > Open: the picker in load mode.
    OpenFile,
    /// File > Save: the picker in save mode.
    SaveFile,
    /// Another submenu row: only its label is shown.
    OtherItem,
    /// A menubar title was chosen without a submenu row.
    BarTitle,
}

/// The command of menu entry `(top, sub)`.
pub open spec fn menu_command_of(top: usize, sub: Option<usize>) -> MenuCommand {
    match sub {
        None => MenuCommand::BarTitle,
        Some(si) => if top == 3 && si == 1 {
            MenuCommand::ShowAbout
        } else if top == 0 && si == 0 {
            MenuCommand::NewDocument
        } else if top == 0 && si == 1 {
            MenuCommand::OpenFile
        } else if top == 0 && si == 2 {
            MenuCommand::SaveFile
        } else {
            MenuCommand::OtherItem
        },
    }
}

/// The command of menu entry `(top, sub)` (see [`menu_command_of`]).
pub fn menu_command(top: usize, sub: Option<usize>) -> (r: MenuCommand)
    ensures
        r == menu_command_of(top, sub),
{
    match sub {
        None => MenuCommand::BarTitle,
        Some(si) => if top == 3 && si == 1 {
            MenuCommand::ShowAbout
        } else if top == 0 && si == 0 {
            MenuCommand::NewDocument
        } else if top == 0 && si == 1 {
            MenuCommand::OpenFile
        } else if top == 0 && si == 2 {
            MenuCommand::SaveFile
        } else {
            MenuCommand::OtherItem
        },
    }
}

// ── Pointer ─────────────────────────────────────────────────────────────────

/// Pixels from a popup's top to its first row.
pub const CONTEXT_TOP_PAD: i32 = 4;
/// Characters of the widest context-menu label ("Select All").
pub const CONTEXT_LABEL_CHARS: i32 = 10;

/// The context-menu row under `py` for a popup whose top is `top`: rows are `line_h`
/// tall below the top padding, and a point above the first row counts as row 0.
pub open spec fn context_row(py: int, top: int, line_h: int) -> int {
    let d = py - top - CONTEXT_TOP_PAD;
    if d < 0 { 0 } else { d / line_h }
}

/// The context-menu row under `py` (see [`context_row`]).
pub fn context_row_at(py: i32, top: i32, line_h: i32) -> (r: usize)
    requires
        line_h > 0,
        i32::MIN <= py - top <= i32::MAX,
        i32::MIN <= py - top - CONTEXT_TOP_PAD <= i32::MAX,
    ensures
        r == context_row(py as int, top as int, line_h as int),
{
    let d = py - top - CONTEXT_TOP_PAD;
    if d < 0 {
        0
    } else {
        (d / line_h) as usize
    }
}

/// The highlighted row while the pointer is at `py`: its row, at most the last one.
pub fn context_hover_at(py: i32, top: i32, line_h: i32) -> (r: usize)
    requires
        line_h > 0,
        i32::MIN <= py - top <= i32::MAX,
        i32::MIN <= py - top - CONTEXT_TOP_PAD <= i32::MAX,
    ensures
        r == if context_row(py as int, top as int, line_h as int) < CONTEXT_ITEM_COUNT {
            context_row(py as int, top as int, line_h as int)
        } else {
            CONTEXT_ITEM_COUNT - 1
        },
        r < CONTEXT_ITEM_COUNT,
{
    let j = context_row_at(py, top, line_h);
    if j < CONTEXT_ITEM_COUNT { j } else { CONTEXT_ITEM_COUNT - 1 }
}

/// Width of the context menu: its widest label plus 24 px, at least 80.
pub open spec fn context_menu_w(char_w: int) -> int {
    if CONTEXT_LABEL_CHARS * char_w + 24 < 80 { 80 } else { CONTEXT_LABEL_CHARS * char_w + 24 }
}

/// Height of the context menu: five rows plus 8 px, at least 1.
pub open spec fn context_menu_h(line_h: int) -> int {
    if CONTEXT_ITEM_COUNT * line_h + 8 < 1 { 1 } else { CONTEXT_ITEM_COUNT * line_h + 8 }
}

/// The context menu opened by a right click at `(px, py)` on a `w` × `h` screen:
/// wide enough for its widest label plus 24 px (at least 80), five rows plus 8 px
/// tall, placed at the pointer but moved left and up to stay on screen (never past
/// the top-left corner).
pub open spec fn context_menu_rect_spec(px: int, py: int, w: int, h: int, char_w: int, line_h: int) -> (int, int, int, int) {
    let pw = context_menu_w(char_w);
    let ph = context_menu_h(line_h);
    let cx0 = if px < w - pw { px } else { w - pw };
    let cy0 = if py < h - ph { py } else { h - ph };
    (if cx0 < 0 { 0 } else { cx0 }, if cy0 < 0 { 0 } else { cy0 }, pw, ph)
}

/// The context menu's rectangle (see [`context_menu_rect_spec`]).
pub fn context_menu_rect(px: i32, py: i32, w: i32, h: i32, char_w: i32, line_h: i32) -> (r: Rectangle)
    requires
        i32::MIN <= CONTEXT_LABEL_CHARS * char_w <= i32::MAX,
        i32::MIN <= CONTEXT_LABEL_CHARS * char_w + 24 <= i32::MAX,
        i32::MIN <= CONTEXT_ITEM_COUNT * line_h <= i32::MAX,
        i32::MIN <= CONTEXT_ITEM_COUNT * line_h + 8 <= i32::MAX,
        i32::MIN <= w - context_menu_w(char_w as int) <= i32::MAX,
        i32::MIN <= h - context_menu_h(line_h as int) <= i32::MAX,
    ensures
        (r.top_left.x as int, r.top_left.y as int, r.size.width as int, r.size.height as int)
            == context_menu_rect_spec(px as int, py as int, w as int, h as int, char_w as int, line_h as int),
{
    let pw0 = CONTEXT_LABEL_CHARS * char_w + 24;
    let pw = if pw0 < 80 { 80 } else { pw0 };
    let ph0 = 5 * line_h + 8;
    let ph = if ph0 < 1 { 1 } else { ph0 };
    let cx0 = if px < w - pw { px } else { w - pw };
    let cy0 = if py < h - ph { py } else { h - ph };
    let cx = if cx0 < 0 { 0 } else { cx0 };
    let cy = if cy0 < 0 { 0 } else { cy0 };
    Rectangle { top_left: Point { x: cx, y: cy }, size: Size { width: pw as u32, height: ph as u32 } }
}

/// What a right click does.
#[derive(Debug, Clone, Copy, PartialEq, Eq, Structural)]
pub enum RightClick {
    /// Close the open context menu.
    CloseContext,
    /// Open the context menu at the pointer (row 0 highlighted).
    OpenContext,
    /// Close the modal box.
    PopModal,
    /// Close the open submenu.
    CloseSubmenu,
    Nothing,
}

/// A right click, unless the file picker is open: it closes an open context menu;
/// in the text area (with no modal box) it opens one; else it closes the modal box,
/// or else an open submenu.
pub open spec fn right_click_of(picker_open: bool, context_open: bool, in_text: bool, modal_blocking: bool, submenu_open: bool) -> RightClick {
    if picker_open {
        RightClick::Nothing
    } else if context_open {
        RightClick::CloseContext
    } else if in_text && !modal_blocking {
        RightClick::OpenContext
    } else if modal_blocking {
        RightClick::PopModal
    } else if submenu_open {
        RightClick::CloseSubmenu
    } else {
        RightClick::Nothing
    }
}

/// What a right click does (see [`right_click_of`]).
pub fn right_click(picker_open: bool, context_open: bool, in_text: bool, modal_blocking: bool, submenu_open: bool) -> (r: RightClick)
    ensures
        r == right_click_of(picker_open, context_open, in_text, modal_blocking, submenu_open),
{
    if picker_open {
        RightClick::Nothing
    } else if context_open {
        RightClick::CloseContext
    } else if in_text && !modal_blocking {
        RightClick::OpenContext
    } else if modal_blocking {
        RightClick::PopModal
    } else if submenu_open {
        RightClick::CloseSubmenu
    } else {
        RightClick::Nothing
    }
}

/// A left click while the context menu is open closes it; on one of its rows it also
/// runs that row's action (the separator does nothing).
pub fn context_click(menu: &Rectangle, px: i32, py: i32, line_h: i32) -> (r: Option<ContextAction>)
    requires
        line_h > 0,
        i32::MIN <= py - menu.top_left.y <= i32::MAX,
        i32::MIN <= py - menu.top_left.y - CONTEXT_TOP_PAD <= i32::MAX,
    ensures
        r == if menu.contains_spec(Point { x: px, y: py }) {
            context_action_at(context_row(py as int, menu.top_left.y as int, line_h as int))
        } else {
            None
        },
{
    if menu.contains(Point { x: px, y: py }) {
        let j = context_row_at(py, menu.top_left.y, line_h);
        context_action(j)
    } else {
        None
    }
}

} // verus!
