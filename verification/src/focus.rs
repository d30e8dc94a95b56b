//! Tab / roving focus: cycle a linear index over `0..len`.

use vstd::prelude::*;
use vstd::arithmetic::div_mod::{
    lemma_add_mod_noop, lemma_add_mod_noop_right, lemma_mod_add_multiples_vanish,
    lemma_mod_sub_multiples_vanish, lemma_mod_twice, lemma_small_mod,
};

verus! {

/// The index after `current` in `0..len`, forward or backward, wrapping; `0` when `len == 0`.
pub open spec fn cycle_spec(current: int, len: int, reverse: bool) -> int {
    if len <= 0 {
        0
    } else if reverse {
        (current + len - 1) % len
    } else {
        (current + 1) % len
    }
}

/// Advance `current` in `0..len` (wrapping). If `len == 0`, returns `0`.
pub fn cycle_tab_index(current: usize, len: usize, reverse: bool) -> (r: usize)
    requires
        len > 0 && reverse ==> current + len <= usize::MAX,
        len > 0 && !reverse ==> current < usize::MAX,
    ensures
        r == cycle_spec(current as int, len as int, reverse),
        len > 0 ==> r < len,
        len == 0 ==> r == 0,
{
    if len == 0 {
        return 0;
    }
    if reverse {
        (current + len - 1) % len
    } else {
        (current + 1) % len
    }
}

/// `current` after `k` steps of [`cycle_spec`].
pub open spec fn cycle_steps(current: int, len: int, reverse: bool, k: nat) -> int
    decreases k,
{
    if k == 0 { current } else { cycle_steps(cycle_spec(current, len, reverse), len, reverse, (k - 1) as nat) }
}

/// After `k` steps from `start` the index is `start ± k` taken modulo `len`.
pub proof fn lemma_cycle_steps_mod(start: int, len: int, reverse: bool, k: nat)
    requires
        0 < len,
        0 <= start < len,
    ensures
        cycle_steps(start, len, reverse, k) == (if reverse { start - k } else { start + k }) % len,
    decreases k,
{
    if k == 0 {
        lemma_small_mod(start as nat, len as nat);
    } else {
        let c = cycle_spec(start, len, reverse);
        assert(0 <= c < len);
        lemma_cycle_steps_mod(c, len, reverse, (k - 1) as nat);
        if reverse {
            assert(c == (start + len - 1) % len);
            assert((c - (k - 1)) % len == (start + len - 1 - (k - 1)) % len) by {
                lemma_add_mod_noop_right(c, -(k - 1), len);
                lemma_add_mod_noop(start + len - 1, -(k - 1), len);
                lemma_mod_twice(start + len - 1, len);
                lemma_add_mod_noop((start + len - 1) % len, -(k - 1), len);
            }
            lemma_mod_add_multiples_vanish(start - k, len);
            assert(start + len - 1 - (k - 1) == len + (start - k));
        } else {
            assert(c == (start + 1) % len);
            assert((c + (k - 1)) % len == (start + 1 + (k - 1)) % len) by {
                lemma_add_mod_noop(start + 1, k - 1, len);
                lemma_mod_twice(start + 1, len);
                lemma_add_mod_noop((start + 1) % len, k - 1, len);
            }
        }
    }
}

/// Cycling `len` times, forward or backward, returns to the starting index.
pub proof fn lemma_full_cycle(start: int, len: int, reverse: bool)
    requires
        0 <= start < len,
    ensures
        cycle_steps(start, len, reverse, len as nat) == start,
{
    lemma_cycle_steps_mod(start, len, reverse, len as nat);
    if reverse {
        lemma_mod_add_multiples_vanish(start - len, len);
    } else {
        lemma_mod_sub_multiples_vanish(start + len, len);
    }
    lemma_small_mod(start as nat, len as nat);
}

/// A backward step undoes a forward step, and a forward step undoes a backward one.
pub proof fn lemma_cycle_inverse(current: int, len: int, reverse: bool)
    requires
        0 <= current < len,
    ensures
        cycle_spec(cycle_spec(current, len, reverse), len, !reverse) == current,
{
    let c = cycle_spec(current, len, reverse);
    if reverse {
        assert(cycle_spec(c, len, false) == (c + 1) % len);
        lemma_add_mod_noop(current + len - 1, 1, len);
        lemma_mod_twice(current + len - 1, len);
        lemma_add_mod_noop_right(c, 1, len);
        lemma_mod_add_multiples_vanish(current, len);
        lemma_small_mod(current as nat, len as nat);
    } else {
        lemma_add_mod_noop(current + 1, len - 1, len);
        lemma_mod_twice(current + 1, len);
        lemma_add_mod_noop((current + 1) % len, len - 1, len);
        lemma_mod_add_multiples_vanish(current, len);
        lemma_small_mod(current as nat, len as nat);
        lemma_small_mod((len - 1) as nat, len as nat);
    }
}

} // verus!
