//! Radio group: one selected index among `count` options.

use vstd::prelude::*;

verus! {

#[derive(Debug, Clone)]
pub struct RadioGroup {
    pub count: usize,
    pub selected: usize,
}

impl RadioGroup {
    /// At least one option; the selection is clamped into range.
    pub fn new(count: usize, selected: usize) -> (r: Self)
        ensures
            r.count == if count == 0 { 1 } else { count },
            r.selected == if selected < r.count { selected } else { (r.count - 1) as usize },
    {
        let count = if count == 0 { 1 } else { count };
        let selected = if selected < count { selected } else { count - 1 };
        RadioGroup { count, selected }
    }

    /// Select `index` when it names an option; otherwise nothing changes.
    pub fn select(&mut self, index: usize)
        ensures
            final(self).count == old(self).count,
            final(self).selected == if index < old(self).count { index } else { old(self).selected },
    {
        if index < self.count {
            self.selected = index;
        }
    }

    /// Next option, wrapping.
    pub fn next(&mut self)
        requires
            old(self).count > 0,
            old(self).selected < usize::MAX,
        ensures
            final(self).count == old(self).count,
            final(self).selected == (old(self).selected + 1) % (old(self).count as int),
    {
        self.selected = (self.selected + 1) % self.count;
    }

    /// Previous option, wrapping from the first to the last.
    pub fn prev(&mut self)
        requires
            old(self).count > 0,
        ensures
            final(self).count == old(self).count,
            final(self).selected == if old(self).selected == 0 {
                (old(self).count - 1) as usize
            } else {
                (old(self).selected - 1) as usize
            },
    {
        self.selected = if self.selected == 0 { self.count - 1 } else { self.selected - 1 };
    }
}

} // verus!
