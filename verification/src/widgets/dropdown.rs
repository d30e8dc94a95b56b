//! Single-select dropdown (options are borrowed for the frame).

use vstd::prelude::*;
use crate::input::{Key, KeyEvent};

verus! {

#[derive(Debug, Clone, Copy, PartialEq, Eq, Structural)]
pub enum DropdownAction {
    /// Selection changed to this index.
    Selected(usize),
    /// List closed without change.
    Closed,
}

#[derive(Debug, Clone)]
pub struct Dropdown<'a> {
    pub options: &'a [&'a str],
    pub selected: usize,
    pub open: bool,
    focus: usize,
}

/// The abstract state of a dropdown.
pub struct DropdownModel<'a> {
    pub options: Seq<&'a str>,
    pub selected: usize,
    pub open: bool,
    /// The highlighted row while the list is open.
    pub focus: usize,
}

impl<'a> View for Dropdown<'a> {
    type V = DropdownModel<'a>;

    closed spec fn view(&self) -> DropdownModel<'a> {
        DropdownModel { options: self.options@, selected: self.selected, open: self.open, focus: self.focus }
    }
}

impl<'a> Dropdown<'a> {
    /// The selection is clamped into the options (or `0` when there are none).
    pub fn new(options: &'a [&'a str], selected: usize) -> (r: Self)
        ensures
            r@.options == options@,
            r@.selected == if options@.len() == 0 {
                0
            } else if selected < options@.len() {
                selected
            } else {
                (options@.len() - 1) as usize
            },
            !r@.open,
            r@.focus == r@.selected,
    {
        let n = options.len();
        let sel = if n == 0 { 0 } else if selected < n { selected } else { n - 1 };
        Dropdown { options, selected: sel, open: false, focus: sel }
    }

    /// Open or close the list; opening highlights the current selection.
    pub fn toggle_open(&mut self)
        ensures
            final(self)@.options == old(self)@.options,
            final(self)@.selected == old(self)@.selected,
            final(self)@.open == !old(self)@.open,
            final(self)@.focus == if final(self)@.open {
                old(self)@.selected
            } else {
                old(self)@.focus
            },
    {
        self.open = !self.open;
        if self.open {
            self.focus = self.selected;
        }
    }

    /// Whether the list is open.
    pub fn is_open(&self) -> (r: bool)
        ensures
            r == self@.open,
    {
        self.open
    }

    /// Number of options.
    pub fn option_count(&self) -> (r: usize)
        ensures
            r == self@.options.len(),
    {
        self.options.len()
    }

    /// Highlighted row index while the list is open.
    pub fn menu_focus_index(&self) -> (r: usize)
        ensures
            r == self@.focus,
    {
        self.focus
    }

    /// While open, set the highlighted row (e.g. pointer over list); out-of-range is ignored.
    pub fn set_menu_focus_index(&mut self, index: usize)
        ensures
            final(self)@.options == old(self)@.options,
            final(self)@.selected == old(self)@.selected,
            final(self)@.open == old(self)@.open,
            final(self)@.focus == if index < old(self)@.options.len() {
                index
            } else {
                old(self)@.focus
            },
    {
        if index < self.options.len() {
            self.focus = index;
        }
    }

    /// Make `index` the selection and close the list (the highlight is kept).
    pub fn select_and_close(&mut self, index: usize)
        ensures
            final(self)@ == (DropdownModel { selected: index, open: false, ..old(self)@ }),
    {
        self.selected = index;
        self.open = false;
    }

    pub fn apply_key(&mut self, key: Key) -> (r: Option<DropdownAction>)
        requires
            old(self)@.open && key == Key::Down ==> old(self)@.focus < usize::MAX,
        ensures
            final(self)@.options == old(self)@.options,
            dropdown_step(*old(self), key, *final(self), r),
    {
        self.apply_key_event(&KeyEvent::new(key))
    }

    pub fn apply_key_event(&mut self, ev: &KeyEvent) -> (r: Option<DropdownAction>)
        requires
            old(self)@.open && ev.key == Key::Down ==> old(self)@.focus < usize::MAX,
        ensures
            final(self)@.options == old(self)@.options,
            dropdown_step(*old(self), ev.key, *final(self), r),
    {
        if !self.open {
            match ev.key {
                Key::Enter | Key::Down => {
                    self.open = true;
                    self.focus = self.selected;
                    None
                },
                _ => None,
            }
        } else {
            match ev.key {
                Key::Up => {
                    if self.focus > 0 {
                        self.focus = self.focus - 1;
                    }
                    None
                },
                Key::Down => {
                    if self.focus + 1 < self.options.len() {
                        self.focus = self.focus + 1;
                    }
                    None
                },
                Key::Enter => {
                    self.selected = self.focus;
                    self.open = false;
                    Some(DropdownAction::Selected(self.selected))
                },
                Key::Escape => {
                    self.open = false;
                    Some(DropdownAction::Closed)
                },
                _ => None,
            }
        }
    }
}

/// One key on a dropdown. Closed: Enter/Down open it on the current selection.
/// Open: Up/Down move the highlight within the options, Enter commits it and closes,
/// Escape closes without change. Other keys do nothing.
pub open spec fn dropdown_step(pre: Dropdown, key: Key, post: Dropdown, r: Option<DropdownAction>) -> bool {
    let n = pre@.options.len();
    if !pre@.open {
        if key == Key::Enter || key == Key::Down {
            &&& post@.open && post@.selected == pre@.selected && post@.focus == pre@.selected
            &&& r is None
        } else {
            post@ == pre@ && r is None
        }
    } else {
        match key {
            Key::Up => {
                &&& post@.open && post@.selected == pre@.selected
                &&& post@.focus == if pre@.focus > 0 { (pre@.focus - 1) as usize } else { pre@.focus }
                &&& r is None
            },
            Key::Down => {
                &&& post@.open && post@.selected == pre@.selected
                &&& post@.focus == if pre@.focus + 1 < n { (pre@.focus + 1) as usize } else { pre@.focus }
                &&& r is None
            },
            Key::Enter => {
                &&& !post@.open && post@.selected == pre@.focus && post@.focus == pre@.focus
                &&& r == Some(DropdownAction::Selected(pre@.focus))
            },
            Key::Escape => {
                &&& !post@.open && post@.selected == pre@.selected && post@.focus == pre@.focus
                &&& r == Some(DropdownAction::Closed)
            },
            _ => post@ == pre@ && r is None,
        }
    }
}


/// Opening a closed drop-down and then pressing Enter or Escape leaves the selection
/// as it was and closes it again: Enter reports the same option, Escape reports the
/// drop-down closed. While it is open, Up and Down never change the selection.
pub proof fn lemma_open_then_close_keeps_selection(
    a: Dropdown,
    b: Dropdown,
    c: Dropdown,
    open_key: Key,
    close_key: Key,
    r1: Option<DropdownAction>,
    r2: Option<DropdownAction>,
)
    requires
        !a@.open,
        open_key == Key::Enter || open_key == Key::Down,
        close_key == Key::Enter || close_key == Key::Escape,
        dropdown_step(a, open_key, b, r1),
        dropdown_step(b, close_key, c, r2),
    ensures
        b@.open && b@.selected == a@.selected && r1 is None,
        !c@.open && c@.selected == a@.selected,
        close_key == Key::Enter ==> r2 == Some(DropdownAction::Selected(a@.selected)),
        close_key == Key::Escape ==> r2 == Some(DropdownAction::Closed),
{
}

} // verus!
