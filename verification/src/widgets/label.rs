//! Single-line label (borrowed text for the frame).

use vstd::prelude::*;

verus! {

/// Read-only caption; rendering uses the app's font pipeline and theme colors.
#[derive(Debug, Clone)]
pub struct Label<'a> {
    pub text: &'a str,
}

impl<'a> Label<'a> {
    pub fn new(text: &'a str) -> (r: Self)
        ensures
            r.text == text,
    {
        Label { text }
    }
}

} // verus!
