//! Pointer / mouse state and hit testing.

use vstd::prelude::*;
use crate::geometry::{Point, Rectangle};

verus! {

/// Normalized pointer state for one poll.
#[derive(Debug, Clone, Copy, PartialEq, Eq, Structural)]
pub struct PointerState {
    pub x: i32,
    pub y: i32,
    pub left: bool,
    pub right: bool,
}

impl PointerState {
    pub fn new(x: i32, y: i32, left: bool) -> (r: Self)
        ensures
            r == (PointerState { x, y, left, right: false }),
    {
        PointerState { x, y, left, right: false }
    }

    pub fn with_buttons(x: i32, y: i32, left: bool, right: bool) -> (r: Self)
        ensures
            r == (PointerState { x, y, left, right }),
    {
        PointerState { x, y, left, right }
    }
}

/// Hit-test which item is under the pointer: the first rectangle containing it, or `None`.
pub fn index_at(items: &[Rectangle], state: &PointerState) -> (r: Option<usize>)
    ensures
        match r {
            Some(i) => i < items@.len() && items@[i as int].contains_spec(Point { x: state.x, y: state.y })
                && forall|j: int| 0 <= j < i ==> !items@[j].contains_spec(Point { x: state.x, y: state.y }),
            None => forall|j: int| 0 <= j < items@.len() ==> !items@[j].contains_spec(Point { x: state.x, y: state.y }),
        },
{
    let p = Point::new(state.x, state.y);
    let mut i: usize = 0;
    while i < items.len()
        invariant
            i <= items@.len(),
            p == (Point { x: state.x, y: state.y }),
            forall|j: int| 0 <= j < i ==> !items@[j].contains_spec(p),
        decreases items@.len() - i,
    {
        if items[i].contains(p) {
            return Some(i);
        }
        i = i + 1;
    }
    None
}

} // verus!
