//! Top menubar plus optional per-item submenu (keyboard navigation).
//!
//! With a submenu open: Up/Down move the highlight vertically; Left/Right switch
//! the top-level menu and keep a dropdown open when the new top item has items;
//! Enter activates; Escape closes the dropdown.

use vstd::prelude::*;
use crate::input::{Key, KeyEvent, menu_focus_after};
use crate::menu::MenuBar;

verus! {

/// Top-level horizontal bar + parallel submenu label lists (`None` = no submenu).
#[derive(Debug, Clone)]
pub struct NavBar<'a> {
    pub top: MenuBar<'a>,
    /// Same length as `top` labels: `Some(&[...])` gives submenu entries.
    pub submenus: &'a [Option<&'a [&'a str]>],
    /// `(top_index, sub_index)` when a submenu is visible.
    pub open: Option<(usize, usize)>,
}

/// Number of entries of the submenu of top item `i` (`0` when it has none).
pub open spec fn sub_len(subs: Seq<Option<&[&str]>>, i: int) -> int {
    if 0 <= i < subs.len() {
        match subs[i] {
            Some(s) => s@.len() as int,
            None => 0,
        }
    } else {
        0
    }
}

/// The dropdown shown right after top item `i` gains focus while a dropdown was open.
pub open spec fn open_for_top(subs: Seq<Option<&[&str]>>, i: int) -> Option<(usize, usize)> {
    if sub_len(subs, i) > 0 { Some((i as usize, 0usize)) } else { None }
}

/// One key on a nav bar: the top focus and open dropdown after it, and the result.
pub open spec fn navbar_step(
    subs: Seq<Option<&[&str]>>,
    labels_len: nat,
    focused: nat,
    open: Option<(usize, usize)>,
    key: Key,
    post_focused: nat,
    post_open: Option<(usize, usize)>,
    r: Option<(usize, Option<usize>)>,
) -> bool {
    match key {
        Key::Down => {
            &&& post_focused == focused
            &&& r is None
            &&& post_open == match open {
                Some((ti, si)) => if si + 1 < sub_len(subs, ti as int) { Some((ti, (si + 1) as usize)) } else { open },
                None => open_for_top(subs, focused as int),
            }
        },
        Key::Up => {
            &&& post_focused == focused
            &&& r is None
            &&& post_open == match open {
                Some((ti, si)) => if si == 0 { None } else { Some((ti, (si - 1) as usize)) },
                None => None,
            }
        },
        Key::Left | Key::Right => {
            &&& post_focused == menu_focus_after(labels_len, focused, key)
            &&& r is None
            &&& post_open == if open is Some { open_for_top(subs, post_focused as int) } else { None }
        },
        Key::Enter => {
            &&& post_focused == focused
            &&& post_open == open
            &&& r == match open {
                Some((ti, si)) => Some((ti, Some(si))),
                None => Some((focused as usize, None::<usize>)),
            }
        },
        Key::Escape => post_focused == focused && post_open is None && r is None,
        _ => post_focused == focused && post_open == open && r is None,
    }
}

impl<'a> NavBar<'a> {
    pub fn new(top_labels: &'a [&'a str], submenus: &'a [Option<&'a [&'a str]>]) -> (r: Self)
        ensures
            r.top.labels_spec() == top_labels@,
            r.top.focused_spec() == 0,
            r.submenus@ == submenus@,
            r.open is None,
    {
        NavBar { top: MenuBar::new(top_labels), submenus, open: None }
    }

    pub fn close_submenu(&mut self)
        ensures
            final(self).top == old(self).top,
            final(self).submenus == old(self).submenus,
            final(self).open is None,
    {
        self.open = None;
    }

    fn sub_len_of(&self, i: usize) -> (r: usize)
        ensures
            r == sub_len(self.submenus@, i as int),
    {
        if i < self.submenus.len() {
            match self.submenus[i] {
                Some(s) => s.len(),
                None => 0,
            }
        } else {
            0
        }
    }

    /// Pointer picked top item `i`: if that item's submenu is already open, close it;
    /// otherwise focus `i` and open its submenu when it has entries.
    pub fn pointer_activate_top(&mut self, i: usize)
        ensures
            final(self).submenus == old(self).submenus,
            final(self).top.labels_spec() == old(self).top.labels_spec(),
            final(self).top.focused_spec() == if i < old(self).top.labels_spec().len() {
                i as nat
            } else {
                old(self).top.focused_spec()
            },
            final(self).open == if sub_len(old(self).submenus@, i as int) > 0 {
                if old(self).open matches Some((ti, _)) && ti == i {
                    None
                } else {
                    Some((i, 0usize))
                }
            } else {
                None
            },
    {
        self.top.set_focused_index(i);
        if self.sub_len_of(i) > 0 {
            if let Some((ti, _)) = self.open {
                if ti == i {
                    self.open = None;
                    return;
                }
            }
            self.open = Some((i, 0));
        } else {
            self.open = None;
        }
    }

    /// Re-open the dropdown for the current top focus (if that item has a list).
    fn sync_open_to_top(&mut self)
        ensures
            final(self).submenus == old(self).submenus,
            final(self).top == old(self).top,
            final(self).open == open_for_top(old(self).submenus@, old(self).top.focused_spec() as int),
    {
        let ti = self.top.focused_index();
        self.open = if self.sub_len_of(ti) > 0 { Some((ti, 0)) } else { None };
    }

    /// Down opens or moves down in the submenu; Up moves up or closes at the top row.
    pub fn apply_key(&mut self, key: Key) -> (r: Option<(usize, Option<usize>)>)
        ensures
            final(self).submenus == old(self).submenus,
            final(self).top.labels_spec() == old(self).top.labels_spec(),
            navbar_step(
                old(self).submenus@,
                old(self).top.labels_spec().len(),
                old(self).top.focused_spec(),
                old(self).open,
                key,
                final(self).top.focused_spec(),
                final(self).open,
                r,
            ),
    {
        self.apply_key_event(&KeyEvent::new(key))
    }

    /// Returns `Some((top_index, Some(sub_index)))` when Enter confirms a submenu row,
    /// or `Some((top_index, None))` for Enter on the bar with no open dropdown.
    pub fn apply_key_event(&mut self, ev: &KeyEvent) -> (r: Option<(usize, Option<usize>)>)
        ensures
            final(self).submenus == old(self).submenus,
            final(self).top.labels_spec() == old(self).top.labels_spec(),
            navbar_step(
                old(self).submenus@,
                old(self).top.labels_spec().len(),
                old(self).top.focused_spec(),
                old(self).open,
                ev.key,
                final(self).top.focused_spec(),
                final(self).open,
                r,
            ),
    {
        let key = ev.key;
        match key {
            Key::Down => {
                if let Some((ti, si)) = self.open {
                    let n = self.sub_len_of(ti);
                    if n > 0 && si < n - 1 {
                        self.open = Some((ti, si + 1));
                    }
                } else {
                    let ti = self.top.focused_index();
                    if self.sub_len_of(ti) > 0 {
                        self.open = Some((ti, 0));
                    }
                }
                None
            },
            Key::Up => {
                if let Some((ti, si)) = self.open {
                    if si == 0 {
                        self.open = None;
                    } else {
                        self.open = Some((ti, si - 1));
                    }
                }
                None
            },
            Key::Left | Key::Right => {
                if key == Key::Left {
                    self.top.nav_prev();
                } else {
                    self.top.nav_next();
                }
                if self.open.is_some() {
                    self.sync_open_to_top();
                }
                None
            },
            Key::Enter => {
                if let Some((ti, si)) = self.open {
                    return Some((ti, Some(si)));
                }
                Some((self.top.focused_index(), None))
            },
            Key::Escape => {
                self.open = None;
                None
            },
            _ => None,
        }
    }
}

} // verus!
