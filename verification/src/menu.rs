//! Horizontal menu bar with wrapped focus (navbar-style).

use vstd::prelude::*;

verus! {

/// Labels are borrowed for the frame; the focused index always names a label
/// (or is `0` when there are none).
#[derive(Debug)]
pub struct MenuBar<'a> {
    labels: &'a [&'a str],
    focused: usize,
}

impl<'a> Clone for MenuBar<'a> {
    fn clone(&self) -> (r: Self)
        ensures
            r == *self,
    {
        proof { use_type_invariant(self); }
        MenuBar { labels: self.labels, focused: self.focused }
    }
}

impl<'a> MenuBar<'a> {
    /// Focus stays inside the labels.
    #[verifier::type_invariant]
    spec fn focus_in_range(self) -> bool {
        if self.labels@.len() == 0 {
            self.focused == 0
        } else {
            self.focused < self.labels@.len()
        }
    }

    /// The labels, in order.
    pub closed spec fn labels_spec(self) -> Seq<&'a str> {
        self.labels@
    }

    /// The focused index.
    pub closed spec fn focused_spec(self) -> nat {
        self.focused as nat
    }

    /// The focused index names a label, or is `0` when there are none.
    pub open spec fn focus_ok(self) -> bool {
        if self.labels_spec().len() == 0 {
            self.focused_spec() == 0
        } else {
            self.focused_spec() < self.labels_spec().len()
        }
    }

    pub fn new(labels: &'a [&'a str]) -> (r: Self)
        ensures
            r.labels_spec() == labels@,
            r.focused_spec() == 0,
    {
        Self { labels, focused: 0 }
    }

    pub fn len(&self) -> (r: usize)
        ensures
            r == self.labels_spec().len(),
    {
        self.labels.len()
    }

    pub fn is_empty(&self) -> (r: bool)
        ensures
            r == (self.labels_spec().len() == 0),
    {
        self.labels.len() == 0
    }

    pub fn focused_index(&self) -> (r: usize)
        ensures
            r == self.focused_spec(),
            self.focus_ok(),
    {
        proof { use_type_invariant(self); }
        self.focused
    }

    /// Focus a specific item (e.g. after a mouse hit-test); out-of-range indices are ignored.
    pub fn set_focused_index(&mut self, index: usize)
        ensures
            final(self).labels_spec() == old(self).labels_spec(),
            final(self).focused_spec() == if index < old(self).labels_spec().len() {
                index as nat
            } else {
                old(self).focused_spec()
            },
    {
        if self.labels.len() != 0 && index < self.labels.len() {
            self.focused = index;
        }
    }

    pub fn label(&self, index: usize) -> (r: Option<&'a str>)
        ensures
            r == if index < self.labels_spec().len() {
                Some(self.labels_spec()[index as int])
            } else {
                None
            },
    {
        if index < self.labels.len() {
            Some(self.labels[index])
        } else {
            None
        }
    }

    /// Move focus right, wrapping to the first label.
    pub fn nav_next(&mut self)
        ensures
            final(self).labels_spec() == old(self).labels_spec(),
            final(self).focused_spec() == next_index(old(self).focused_spec(), old(self).labels_spec().len()),
    {
        proof { use_type_invariant(&*self); }
        let n = self.labels.len();
        if n == 0 {
            return;
        }
        self.focused = (self.focused + 1) % n;
    }

    /// Move focus left, wrapping to the last label.
    pub fn nav_prev(&mut self)
        ensures
            final(self).labels_spec() == old(self).labels_spec(),
            final(self).focused_spec() == prev_index(old(self).focused_spec(), old(self).labels_spec().len()),
    {
        proof { use_type_invariant(&*self); }
        let n = self.labels.len();
        if n == 0 {
            return;
        }
        self.focused = if self.focused == 0 { n - 1 } else { self.focused - 1 };
    }

    /// "Enter" on the focused item: returns its index, or `None` when there are no labels.
    pub fn activate_focused(&self) -> (r: Option<usize>)
        ensures
            r == if self.labels_spec().len() == 0 {
                None
            } else {
                Some(self.focused_spec() as usize)
            },
    {
        if self.labels.len() == 0 {
            None
        } else {
            Some(self.focused)
        }
    }
}


/// Focus after moving right among `n` labels: the next one, wrapping to the first
/// (unchanged when there are none).
pub open spec fn next_index(f: nat, n: nat) -> nat {
    if n == 0 { f } else { (f + 1) % n }
}

/// Focus after moving left among `n` labels: the previous one, wrapping to the last
/// (unchanged when there are none).
pub open spec fn prev_index(f: nat, n: nat) -> nat {
    if n == 0 { f } else if f == 0 { (n - 1) as nat } else { (f - 1) as nat }
}

/// Moving left undoes moving right, and moving right undoes moving left.
pub proof fn lemma_menu_nav_inverse(f: nat, n: nat)
    requires
        f < n,
    ensures
        prev_index(next_index(f, n), n) == f,
        next_index(prev_index(f, n), n) == f,
{
    if f + 1 < n {
        assert((f + 1) % n == f + 1) by { vstd::arithmetic::div_mod::lemma_small_mod((f + 1) as nat, n); }
    } else {
        assert((f + 1) % n == 0) by { vstd::arithmetic::div_mod::lemma_mod_self_0(n as int); }
    }
    if f == 0 {
        assert(((n - 1) as nat + 1) % n == 0) by { vstd::arithmetic::div_mod::lemma_mod_self_0(n as int); }
    } else {
        assert(f % n == f) by { vstd::arithmetic::div_mod::lemma_small_mod(f, n); }
    }
}

} // verus!
