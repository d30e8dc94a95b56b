//! Full-window Tab order: menu, editor, the editor's scrollbar when it takes part,
//! then each gallery control. Indices cycle with [`cycle_tab_index`]; this module
//! maps them to focus regions and back.

use vstd::prelude::*;
use vstd::arithmetic::div_mod::lemma_small_mod;
use crate::focus::{cycle_tab_index, cycle_spec, cycle_steps, lemma_full_cycle, lemma_cycle_inverse};
use crate::demo::demo_gallery::{GalleryFocus, GALLERY_FOCUS_LEN, gallery_at, gallery_index, lemma_gallery_order_bijective};
use crate::demo::layout::Focus;

verus! {

/// Number of Tab slots: menu, editor, the scrollbar when `sb`, and the gallery controls.
pub open spec fn slot_count(sb: bool) -> int {
    2 + (if sb { 1int } else { 0int }) + GALLERY_FOCUS_LEN
}

/// First slot of the gallery controls.
pub open spec fn gallery_base(sb: bool) -> int {
    2 + if sb { 1int } else { 0int }
}

/// Focus regions of Tab slot `index` (taken modulo the slot count).
pub open spec fn index_to_state(index: int, sb: bool) -> (Focus, GalleryFocus) {
    let i = index % slot_count(sb);
    if i == 0 {
        (Focus::Menu, GalleryFocus::CheckA)
    } else if i == 1 {
        (Focus::Editor, GalleryFocus::CheckA)
    } else if sb && i == 2 {
        (Focus::Scrollbar, GalleryFocus::CheckA)
    } else {
        (Focus::Gallery, gallery_at(i - gallery_base(sb)))
    }
}

/// Tab slot of a focus state.
pub open spec fn state_to_index(f: Focus, g: GalleryFocus, sb: bool) -> int {
    match f {
        Focus::Menu => 0,
        Focus::Editor => 1,
        Focus::Scrollbar => if sb { 2 } else { 1 },
        Focus::Gallery => gallery_base(sb) + gallery_index(g),
    }
}

/// One Tab (or Shift+Tab when `shift`) step.
pub open spec fn tab_step(s: (Focus, GalleryFocus), sb: bool, shift: bool) -> (Focus, GalleryFocus) {
    index_to_state(cycle_spec(state_to_index(s.0, s.1, sb), slot_count(sb), shift), sb)
}

/// `k` Tab steps.
pub open spec fn tab_steps(s: (Focus, GalleryFocus), sb: bool, shift: bool, k: nat) -> (Focus, GalleryFocus)
    decreases k,
{
    if k == 0 { s } else { tab_steps(tab_step(s, sb, shift), sb, shift, (k - 1) as nat) }
}

/// Total slots for Tab given whether the editor's scrollbar takes part.
pub fn tab_slot_count(scrollbar_in_order: bool) -> (r: usize)
    ensures
        r == slot_count(scrollbar_in_order),
{
    2 + (if scrollbar_in_order { 1 } else { 0 }) + GALLERY_FOCUS_LEN
}

/// Tab slot → focus regions.
pub fn tab_index_to_state(index: usize, scrollbar_in_order: bool) -> (r: (Focus, GalleryFocus))
    ensures
        r == index_to_state(index as int, scrollbar_in_order),
{
    let n = tab_slot_count(scrollbar_in_order);
    let i = index % n;
    if i == 0 {
        return (Focus::Menu, GalleryFocus::default());
    }
    if i == 1 {
        return (Focus::Editor, GalleryFocus::default());
    }
    let gbase: usize = 2 + if scrollbar_in_order { 1 } else { 0 };
    if scrollbar_in_order && i == 2 {
        return (Focus::Scrollbar, GalleryFocus::default());
    }
    let gi = i - gbase;
    (Focus::Gallery, GalleryFocus::at(gi))
}

/// Focus regions → Tab slot (the inverse of [`tab_index_to_state`] on its slots).
pub fn tab_state_to_index(focus: Focus, gallery_focus: GalleryFocus, scrollbar_in_order: bool) -> (r: usize)
    ensures
        r == state_to_index(focus, gallery_focus, scrollbar_in_order),
{
    match focus {
        Focus::Menu => 0,
        Focus::Editor => 1,
        Focus::Scrollbar => if scrollbar_in_order { 2 } else { 1 },
        Focus::Gallery => {
            let gbase: usize = 2 + if scrollbar_in_order { 1 } else { 0 };
            gbase + gallery_focus.position()
        },
    }
}

/// Apply one Tab (or Shift+Tab) step.
pub fn apply_tab(focus: &mut Focus, gallery_focus: &mut GalleryFocus, scrollbar_in_order: bool, shift: bool)
    ensures
        (*final(focus), *final(gallery_focus)) == tab_step((*old(focus), *old(gallery_focus)), scrollbar_in_order, shift),
{
    let len = tab_slot_count(scrollbar_in_order);
    let idx = tab_state_to_index(*focus, *gallery_focus, scrollbar_in_order);
    proof { lemma_gallery_order_bijective(*gallery_focus, 0); }
    let next = cycle_tab_index(idx, len, shift);
    let (nf, ngf) = tab_index_to_state(next, scrollbar_in_order);
    *focus = nf;
    *gallery_focus = ngf;
}

/// Every Tab slot maps to focus regions that map back to the same slot.
pub proof fn lemma_index_state_roundtrip(i: int, sb: bool)
    requires
        0 <= i < slot_count(sb),
    ensures
        state_to_index(index_to_state(i, sb).0, index_to_state(i, sb).1, sb) == i,
{
    lemma_small_mod(i as nat, slot_count(sb) as nat);
    lemma_gallery_order_bijective(GalleryFocus::CheckA, i - gallery_base(sb));
}

/// From the regions of slot `j`, `k` steps reach the regions of slot `j ± k` (modulo the count).
proof fn lemma_tab_steps_from_slot(j: int, sb: bool, shift: bool, k: nat)
    requires
        0 <= j < slot_count(sb),
    ensures
        tab_steps(index_to_state(j, sb), sb, shift, k) == index_to_state(cycle_steps(j, slot_count(sb), shift, k), sb),
    decreases k,
{
    if k > 0 {
        lemma_index_state_roundtrip(j, sb);
        let c = cycle_spec(j, slot_count(sb), shift);
        assert(tab_step(index_to_state(j, sb), sb, shift) == index_to_state(c, sb));
        lemma_tab_steps_from_slot(c, sb, shift, (k - 1) as nat);
    }
}

/// A full round of Tab steps (forward or backward) comes back to the starting slot.
pub proof fn lemma_tab_full_cycle(start: int, sb: bool, shift: bool)
    requires
        0 <= start < slot_count(sb),
    ensures
        ({
            let s = tab_steps(index_to_state(start, sb), sb, shift, slot_count(sb) as nat);
            state_to_index(s.0, s.1, sb) == start
        }),
{
    lemma_tab_steps_from_slot(start, sb, shift, slot_count(sb) as nat);
    lemma_full_cycle(start, slot_count(sb), shift);
    lemma_index_state_roundtrip(start, sb);
}

/// Shift+Tab undoes Tab and Tab undoes Shift+Tab, from the regions of any slot.
pub proof fn lemma_tab_step_inverse(i: int, sb: bool, shift: bool)
    requires
        0 <= i < slot_count(sb),
    ensures
        tab_step(tab_step(index_to_state(i, sb), sb, shift), sb, !shift) == index_to_state(i, sb),
{
    let n = slot_count(sb);
    lemma_index_state_roundtrip(i, sb);
    let c = cycle_spec(i, n, shift);
    lemma_index_state_roundtrip(c, sb);
    lemma_cycle_inverse(i, n, shift);
}

} // verus!
