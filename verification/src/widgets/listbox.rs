//! Scrollable single-select list (keyboard + optional pointer).

use vstd::prelude::*;
use crate::input::{Key, KeyEvent};
use super::scroll_area::sat_sub;

verus! {

#[derive(Debug, Clone)]
pub struct ListBox<'a> {
    pub items: &'a [&'a str],
    pub selected: usize,
    /// First visible row index (for scrolling long lists).
    pub scroll_top: usize,
}

/// `max(rows, 1)`.
pub open spec fn at_least_one(rows: int) -> int {
    if rows < 1 { 1 } else { rows }
}

/// Selection and scroll after one list-navigation key on `n` rows, `rows` of them visible.
/// Up/Down move by one and keep the selection on screen; Home/End jump to the ends.
pub open spec fn list_nav(n: int, sel: int, top: int, rows: int, key: Key) -> (int, int) {
    let vr = at_least_one(rows);
    if n == 0 {
        (sel, top)
    } else {
        match key {
            Key::Up => {
                let s = if sel > 0 { sel - 1 } else { sel };
                (s, if s < top { s } else { top })
            },
            Key::Down => {
                let s = if sel + 1 < n { sel + 1 } else { sel };
                let max_top = sat_sub(n, vr);
                if s >= top + vr {
                    let t = sat_sub(s + 1, vr);
                    (s, if t > max_top { max_top } else { t })
                } else {
                    (s, top)
                }
            },
            Key::Home => (0, 0),
            Key::End => (n - 1, sat_sub(n, vr)),
            _ => (sel, top),
        }
    }
}

/// List navigation on a non-empty list with the selection on a row: the selection
/// stays on a row; Home goes to the first item with the view at the top and End to
/// the last item with the last page in view, whatever the state before; Up and Down
/// move by exactly one row, stopping at the ends; any other key changes nothing; and
/// a selection that was in view stays in view.
pub proof fn lemma_list_nav_laws(n: int, sel: int, top: int, rows: int, key: Key)
    requires
        0 <= sel < n,
        0 <= top,
    ensures
        ({
            let (s2, t2) = list_nav(n, sel, top, rows, key);
            let vr = if rows < 1 { 1 } else { rows };
            &&& 0 <= s2 < n
            &&& 0 <= t2
            &&& key == Key::Home ==> s2 == 0 && t2 == 0
            &&& key == Key::End ==> s2 == n - 1 && t2 == (if n > vr { n - vr } else { 0 })
                && t2 <= s2 < t2 + vr
            &&& key == Key::Up ==> s2 == (if sel > 0 { sel - 1 } else { 0 })
            &&& key == Key::Down ==> s2 == (if sel + 1 < n { sel + 1 } else { n - 1 })
            &&& !(key == Key::Home || key == Key::End || key == Key::Up || key == Key::Down)
                ==> s2 == sel && t2 == top
            &&& (key == Key::Up || key == Key::Down || key == Key::Home) && top <= sel < top + vr
                ==> t2 <= s2 < t2 + vr
        }),
{
}

impl<'a> ListBox<'a> {
    pub fn new(items: &'a [&'a str]) -> (r: Self)
        ensures
            r.items@ == items@,
            r.selected == 0,
            r.scroll_top == 0,
    {
        ListBox { items, selected: 0, scroll_top: 0 }
    }

    /// Rows actually shown when `rows` fit on screen.
    pub fn visible_len(&self, rows: usize) -> (r: usize)
        ensures
            r == if rows < sat_sub(self.items@.len() as int, self.scroll_top as int) {
                rows as int
            } else {
                sat_sub(self.items@.len() as int, self.scroll_top as int)
            },
    {
        let rest = if self.items.len() > self.scroll_top { self.items.len() - self.scroll_top } else { 0 };
        if rows < rest { rows } else { rest }
    }

    pub fn apply_key(&mut self, key: Key, visible_rows: usize)
        requires
            key == Key::Down ==> old(self).selected < usize::MAX,
            key == Key::Down ==> old(self).scroll_top + at_least_one(visible_rows as int) <= usize::MAX,
        ensures
            final(self).items@ == old(self).items@,
            (final(self).selected as int, final(self).scroll_top as int) == list_nav(
                old(self).items@.len() as int,
                old(self).selected as int,
                old(self).scroll_top as int,
                visible_rows as int,
                key,
            ),
    {
        self.apply_key_event(&KeyEvent::new(key), visible_rows);
    }

    pub fn apply_key_event(&mut self, ev: &KeyEvent, visible_rows: usize)
        requires
            ev.key == Key::Down ==> old(self).selected < usize::MAX,
            ev.key == Key::Down ==> old(self).scroll_top + at_least_one(visible_rows as int) <= usize::MAX,
        ensures
            final(self).items@ == old(self).items@,
            (final(self).selected as int, final(self).scroll_top as int) == list_nav(
                old(self).items@.len() as int,
                old(self).selected as int,
                old(self).scroll_top as int,
                visible_rows as int,
                ev.key,
            ),
    {
        let n = self.items.len();
        if n == 0 {
            return;
        }
        let vr = if visible_rows < 1 { 1 } else { visible_rows };
        match ev.key {
            Key::Up => {
                if self.selected > 0 {
                    self.selected = self.selected - 1;
                }
                if self.selected < self.scroll_top {
                    self.scroll_top = self.selected;
                }
            },
            Key::Down => {
                if self.selected + 1 < n {
                    self.selected = self.selected + 1;
                }
                let max_top = if n > vr { n - vr } else { 0 };
                if self.selected >= self.scroll_top + vr {
                    self.scroll_top = if self.selected + 1 > vr { self.selected + 1 - vr } else { 0 };
                    if self.scroll_top > max_top {
                        self.scroll_top = max_top;
                    }
                }
            },
            Key::Home => {
                self.selected = 0;
                self.scroll_top = 0;
            },
            Key::End => {
                self.selected = n - 1;
                self.scroll_top = if n > vr { n - vr } else { 0 };
            },
            _ => {},
        }
    }
}

} // verus!
