//! Hierarchical menu (menus + submenus) with keyboard navigation.

use vstd::prelude::*;
use crate::input::{Key, KeyEvent};

verus! {

/// One row in the tree (leaf or nested submenu).
#[derive(Debug, Clone)]
pub enum MenuEntry<'a> {
    Item { label: &'a str, id: u32 },
    Submenu { label: &'a str, children: &'a [MenuEntry<'a>] },
}

/// Static tree description (data only).
#[derive(Debug, Clone)]
pub struct MenuTree<'a> {
    pub roots: &'a [MenuEntry<'a>],
}

#[derive(Debug, Clone, Copy, PartialEq, Eq, Structural)]
pub enum MenuAction {
    Activated(u32),
    SubmenuOpened,
    SubmenuClosed,
    Moved,
}

/// Focus: either a root index, or inside `(root_i, child_i)` of a submenu.
#[derive(Debug, Clone)]
pub struct MenuNavigator {
    pub root_index: usize,
    /// When `Some`, keyboard moves among submenu entries.
    pub sub: Option<(usize, usize)>,
}

impl Default for MenuNavigator {
    fn default() -> (r: Self)
        ensures
            r.root_index == 0,
            r.sub is None,
    {
        MenuNavigator { root_index: 0, sub: None }
    }
}

/// `v` clamped into `[lo, hi]`.
pub open spec fn clamp_to(v: int, lo: int, hi: int) -> int {
    if v < lo { lo } else if v > hi { hi } else { v }
}

/// The children of root `ri` when it is a submenu.
pub open spec fn submenu_children<'a>(tree: MenuTree<'a>, ri: int) -> Option<Seq<MenuEntry<'a>>> {
    if 0 <= ri < tree.roots@.len() {
        match tree.roots@[ri] {
            MenuEntry::Submenu { children, .. } => Some(children@),
            MenuEntry::Item { .. } => None,
        }
    } else {
        None
    }
}

/// One key on a menu navigator over `tree`.
///
/// Up/Down move (clamped) among the open submenu's entries or among the roots;
/// Right/Enter activate an item or open a non-empty submenu; Left/Escape close an
/// open submenu. Nothing happens on an empty tree.
pub open spec fn menu_nav_step<'a>(
    tree: MenuTree<'a>,
    pre: MenuNavigator,
    key: Key,
    post: MenuNavigator,
    r: Option<MenuAction>,
) -> bool {
    let nr = tree.roots@.len() as int;
    if nr == 0 {
        post == pre && r is None
    } else {
        match key {
            Key::Up | Key::Down => {
                let delta: int = if key == Key::Down { 1 } else { -1 };
                match pre.sub {
                    Some((ri, si)) => match submenu_children(tree, ri as int) {
                        Some(ch) => if ch.len() == 0 {
                            post == pre && r is None
                        } else {
                            &&& post.root_index == pre.root_index
                            &&& post.sub == Some((ri, clamp_to(si + delta, 0, ch.len() - 1) as usize))
                            &&& r == Some(MenuAction::Moved)
                        },
                        None => post == pre && r is None,
                    },
                    None => {
                        &&& post.root_index == clamp_to(pre.root_index + delta, 0, nr - 1)
                        &&& post.sub is None
                        &&& r == Some(MenuAction::Moved)
                    },
                }
            },
            Key::Right | Key::Enter => {
                &&& post.root_index == pre.root_index
                &&& match pre.sub {
                    Some((ri, si)) => {
                        &&& post.sub == pre.sub
                        &&& r == match submenu_children(tree, ri as int) {
                            Some(ch) => if si < ch.len() {
                                match ch[si as int] {
                                    MenuEntry::Item { id, .. } => Some(MenuAction::Activated(id)),
                                    MenuEntry::Submenu { .. } => None,
                                }
                            } else {
                                None
                            },
                            None => None,
                        }
                    },
                    None => if pre.root_index < nr {
                        match tree.roots@[pre.root_index as int] {
                            MenuEntry::Item { id, .. } => post.sub is None && r == Some(MenuAction::Activated(id)),
                            MenuEntry::Submenu { children, .. } => if children@.len() > 0 {
                                post.sub == Some((pre.root_index, 0usize)) && r == Some(MenuAction::SubmenuOpened)
                            } else {
                                post.sub is None && r is None
                            },
                        }
                    } else {
                        post.sub is None && r is None
                    },
                }
            },
            Key::Left | Key::Escape => {
                &&& post.root_index == pre.root_index
                &&& post.sub is None
                &&& r == if pre.sub is Some { Some(MenuAction::SubmenuClosed) } else { None }
            },
            _ => post == pre && r is None,
        }
    }
}

impl MenuNavigator {
    pub fn apply_key(&mut self, tree: &MenuTree<'_>, key: Key) -> (r: Option<MenuAction>)
        requires
            old(self).root_index < isize::MAX,
            old(self).sub matches Some((ri, si)) ==> si < isize::MAX,
        ensures
            menu_nav_step(*tree, *old(self), key, *final(self), r),
    {
        self.apply_key_event(tree, &KeyEvent::new(key))
    }

    pub fn apply_key_event(&mut self, tree: &MenuTree<'_>, ev: &KeyEvent) -> (r: Option<MenuAction>)
        requires
            old(self).root_index < isize::MAX,
            old(self).sub matches Some((ri, si)) ==> si < isize::MAX,
        ensures
            menu_nav_step(*tree, *old(self), ev.key, *final(self), r),
    {
        let key = ev.key;
        let nr = tree.roots.len();
        if nr == 0 {
            return None;
        }
        match key {
            Key::Up | Key::Down => {
                let down = key == Key::Down;
                if let Some((ri, si)) = self.sub {
                    if ri >= tree.roots.len() {
                        return None;
                    }
                    let children = match &tree.roots[ri] {
                        MenuEntry::Submenu { children, .. } => children,
                        _ => return None,
                    };
                    let nc = children.len();
                    if nc == 0 {
                        return None;
                    }
                    let nsi = if down {
                        if si + 1 > nc - 1 { nc - 1 } else { si + 1 }
                    } else {
                        if si == 0 { 0 } else if si - 1 > nc - 1 { nc - 1 } else { si - 1 }
                    };
                    self.sub = Some((ri, nsi));
                    Some(MenuAction::Moved)
                } else {
                    let ri = self.root_index;
                    self.root_index = if down {
                        if ri + 1 > nr - 1 { nr - 1 } else { ri + 1 }
                    } else {
                        if ri == 0 { 0 } else if ri - 1 > nr - 1 { nr - 1 } else { ri - 1 }
                    };
                    Some(MenuAction::Moved)
                }
            },
            Key::Right | Key::Enter => {
                if let Some((ri, si)) = self.sub {
                    if ri >= tree.roots.len() {
                        return None;
                    }
                    let children = match &tree.roots[ri] {
                        MenuEntry::Submenu { children, .. } => children,
                        _ => return None,
                    };
                    if si < children.len() {
                        return match &children[si] {
                            MenuEntry::Item { id, .. } => Some(MenuAction::Activated(*id)),
                            MenuEntry::Submenu { .. } => None,
                        };
                    }
                    return None;
                }
                if self.root_index >= tree.roots.len() {
                    return None;
                }
                match &tree.roots[self.root_index] {
                    MenuEntry::Submenu { children, .. } => {
                        if children.len() > 0 {
                            self.sub = Some((self.root_index, 0));
                            Some(MenuAction::SubmenuOpened)
                        } else {
                            None
                        }
                    },
                    MenuEntry::Item { id, .. } => Some(MenuAction::Activated(*id)),
                }
            },
            Key::Left | Key::Escape => {
                if self.sub.is_some() {
                    self.sub = None;
                    Some(MenuAction::SubmenuClosed)
                } else {
                    None
                }
            },
            _ => None,
        }
    }
}

} // verus!
