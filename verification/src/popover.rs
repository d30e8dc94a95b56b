//! Popover / modal dialog state and anchor positioning.

use vstd::prelude::*;
use crate::geometry::{Point, Rectangle, Size};

verus! {

/// Identifies an open popover.
pub type PopoverId = u64;

/// Whether a dialog blocks the rest of the UI.
#[derive(Debug, Clone, Copy, PartialEq, Eq, Structural)]
pub enum PopoverKind {
    /// Other widgets still receive input (the app decides).
    Popover,
    /// Dims the background; typically only the dialog is interactive until closed.
    Modal,
}

#[derive(Debug, Clone, Copy, PartialEq, Eq, Structural)]
pub struct PopoverSpec {
    pub id: PopoverId,
    pub kind: PopoverKind,
}

/// Stack of open popovers (last = top-most).
#[derive(Debug, Clone)]
pub struct PopoverStack {
    pub open: Vec<PopoverSpec>,
}

/// The stack without any popover of id `id`, order kept.
pub open spec fn without_id(s: Seq<PopoverSpec>, id: PopoverId) -> Seq<PopoverSpec> {
    s.filter(|p: PopoverSpec| p.id != id)
}

impl Default for PopoverStack {
    fn default() -> (r: Self)
        ensures
            r.open@.len() == 0,
    {
        PopoverStack { open: Vec::new() }
    }
}

impl PopoverStack {
    /// Remove every entry with id `id`, keeping the others in order.
    fn remove_id(&mut self, id: PopoverId)
        ensures
            final(self).open@ == without_id(old(self).open@, id),
    {
        let mut kept: Vec<PopoverSpec> = Vec::new();
        let ghost pred = |p: PopoverSpec| p.id != id;
        let mut i: usize = 0;
        while i < self.open.len()
            invariant
                i <= self.open@.len(),
                self.open@ == old(self).open@,
                pred == (|p: PopoverSpec| p.id != id),
                kept@ == self.open@.take(i as int).filter(pred),
            decreases self.open@.len() - i,
        {
            proof {
                reveal_with_fuel(Seq::<_>::filter, 1);
                assert(self.open@.take(i + 1).drop_last() =~= self.open@.take(i as int));
            }
            let s = self.open[i];
            if s.id != id {
                kept.push(s);
            }
            i = i + 1;
        }
        proof {
            assert(self.open@.take(self.open@.len() as int) =~= self.open@);
        }
        self.open = kept;
    }

    /// Open `spec` on top; an entry with the same id is removed first.
    pub fn push(&mut self, spec: PopoverSpec)
        ensures
            final(self).open@ == without_id(old(self).open@, spec.id).push(spec),
    {
        self.remove_id(spec.id);
        self.open.push(spec);
    }

    /// Close the top-most popover.
    pub fn pop(&mut self) -> (r: Option<PopoverSpec>)
        ensures
            old(self).open@.len() == 0 ==> r is None && final(self).open@ == old(self).open@,
            old(self).open@.len() > 0 ==> r == Some(old(self).open@.last())
                && final(self).open@ == old(self).open@.drop_last(),
    {
        self.open.pop()
    }

    /// Close every popover with id `id`.
    pub fn dismiss(&mut self, id: PopoverId)
        ensures
            final(self).open@ == without_id(old(self).open@, id),
    {
        self.remove_id(id);
    }

    pub fn clear(&mut self)
        ensures
            final(self).open@.len() == 0,
    {
        self.open.clear();
    }

    pub fn top(&self) -> (r: Option<&PopoverSpec>)
        ensures
            self.open@.len() == 0 ==> r is None,
            self.open@.len() > 0 ==> r == Some(&self.open@.last()),
    {
        if self.open.len() == 0 {
            None
        } else {
            Some(&self.open[self.open.len() - 1])
        }
    }

    /// Whether the top-most popover is modal.
    pub fn is_modal_blocking(&self) -> (r: bool)
        ensures
            r == (self.open@.len() > 0 && self.open@.last().kind == PopoverKind::Modal),
    {
        if self.open.len() == 0 {
            false
        } else {
            self.open[self.open.len() - 1].kind == PopoverKind::Modal
        }
    }
}

/// `v` clamped into `[lo, hi]`.
pub open spec fn clamp_coord(v: int, lo: int, hi: int) -> int {
    if v < lo { lo } else if v > hi { hi } else { v }
}

/// Place a popover of size `content` just below `anchor`, moved back inside `screen`
/// (sizes read as `i32`, as the pixel coordinates are).
pub fn place_below_anchor(anchor: Rectangle, content: Size, screen: Rectangle) -> (r: Rectangle)
    requires
        i32::MIN <= anchor.top_left.y + anchor.size.height as i32 <= i32::MAX,
        i32::MIN <= screen.top_left.x + screen.size.width as i32 <= i32::MAX,
        i32::MIN <= screen.top_left.x + screen.size.width as i32 - content.width as i32 <= i32::MAX,
        i32::MIN <= screen.top_left.y + screen.size.height as i32 <= i32::MAX,
        i32::MIN <= screen.top_left.y + screen.size.height as i32 - content.height as i32 <= i32::MAX,
        screen.top_left.x <= screen.top_left.x + screen.size.width as i32 - content.width as i32,
        screen.top_left.y <= screen.top_left.y + screen.size.height as i32 - content.height as i32,
    ensures
        r.size == content,
        r.top_left.x == clamp_coord(
            anchor.top_left.x as int,
            screen.top_left.x as int,
            screen.top_left.x + screen.size.width as i32 - content.width as i32,
        ),
        r.top_left.y == clamp_coord(
            anchor.top_left.y + anchor.size.height as i32,
            screen.top_left.y as int,
            screen.top_left.y + screen.size.height as i32 - content.height as i32,
        ),
{
    let x0 = anchor.top_left.x;
    let y0 = anchor.top_left.y + anchor.size.height as i32;
    let max_x = screen.top_left.x + screen.size.width as i32 - content.width as i32;
    let max_y = screen.top_left.y + screen.size.height as i32 - content.height as i32;
    let x = if x0 < screen.top_left.x { screen.top_left.x } else if x0 > max_x { max_x } else { x0 };
    let y = if y0 < screen.top_left.y { screen.top_left.y } else if y0 > max_y { max_y } else { y0 };
    Rectangle::new(Point::new(x, y), content)
}

/// Integer division rounding toward zero (as Rust's `/` on signed integers).
pub open spec fn div_trunc(a: int, b: int) -> int {
    if a >= 0 { a / b } else { -((-a) / b) }
}

/// Centering `content` in `screen` stays in `i32`.
pub open spec fn center_ok(content: Size, screen: Rectangle) -> bool {
    &&& i32::MIN <= screen.size.width as i32 - content.width as i32 <= i32::MAX
    &&& i32::MIN <= screen.size.height as i32 - content.height as i32 <= i32::MAX
    &&& i32::MIN <= screen.top_left.x + div_trunc(screen.size.width as i32 - content.width as i32, 2) <= i32::MAX
    &&& i32::MIN <= screen.top_left.y + div_trunc(screen.size.height as i32 - content.height as i32, 2) <= i32::MAX
}

/// A rectangle of size `content` centered in `screen`.
pub open spec fn centered(content: Size, screen: Rectangle) -> Rectangle {
    Rectangle {
        top_left: Point {
            x: (screen.top_left.x + div_trunc(screen.size.width as i32 - content.width as i32, 2)) as i32,
            y: (screen.top_left.y + div_trunc(screen.size.height as i32 - content.height as i32, 2)) as i32,
        },
        size: content,
    }
}

/// Euclidean division by a negative divisor of a nonnegative number is the negated
/// quotient by its magnitude.
pub proof fn lemma_div_neg_divisor(a: int, b: int)
    requires
        a >= 0,
        b < 0,
    ensures
        a / b == -(a / (-b)),
{
    assert(a / b == -(a / (-b))) by (nonlinear_arith)
        requires
            a >= 0,
            b < 0,
    ;
}

/// Center a rectangle of size `content` inside `screen` (sizes read as `i32`).
pub fn center_in_screen(content: Size, screen: Rectangle) -> (r: Rectangle)
    requires
        center_ok(content, screen),
    ensures
        r == centered(content, screen),
        r.size == content,
        r.top_left.x == screen.top_left.x + div_trunc(screen.size.width as i32 - content.width as i32, 2),
        r.top_left.y == screen.top_left.y + div_trunc(screen.size.height as i32 - content.height as i32, 2),
{
    let dw = screen.size.width as i32 - content.width as i32;
    let dh = screen.size.height as i32 - content.height as i32;
    let x = screen.top_left.x + dw / 2;
    let y = screen.top_left.y + dh / 2;
    Rectangle::new(Point::new(x, y), content)
}

} // verus!
