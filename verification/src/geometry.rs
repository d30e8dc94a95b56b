//! Integer pixel geometry: points, sizes and axis-aligned rectangles.

use vstd::prelude::*;

verus! {

/// A pixel position.
#[derive(Debug, Clone, Copy, PartialEq, Eq, Structural)]
pub struct Point {
    pub x: i32,
    pub y: i32,
}

/// A pixel extent.
#[derive(Debug, Clone, Copy, PartialEq, Eq, Structural)]
pub struct Size {
    pub width: u32,
    pub height: u32,
}

/// An axis-aligned rectangle: `top_left` plus `size` (exclusive of the far edges).
#[derive(Debug, Clone, Copy, PartialEq, Eq, Structural)]
pub struct Rectangle {
    pub top_left: Point,
    pub size: Size,
}

impl Point {
    pub fn new(x: i32, y: i32) -> (r: Self)
        ensures
            r.x == x,
            r.y == y,
    {
        Point { x, y }
    }

    pub fn zero() -> (r: Self)
        ensures
            r.x == 0,
            r.y == 0,
    {
        Point { x: 0, y: 0 }
    }
}

impl Size {
    pub fn new(width: u32, height: u32) -> (r: Self)
        ensures
            r.width == width,
            r.height == height,
    {
        Size { width, height }
    }
}

/// Whether `(x, y)` lies in the rectangle at `(rx, ry)` of size `w × h`.
pub open spec fn rect_contains(rx: int, ry: int, w: int, h: int, x: int, y: int) -> bool {
    rx <= x < rx + w && ry <= y < ry + h
}

impl Rectangle {
    pub open spec fn contains_spec(self, p: Point) -> bool {
        rect_contains(
            self.top_left.x as int,
            self.top_left.y as int,
            self.size.width as int,
            self.size.height as int,
            p.x as int,
            p.y as int,
        )
    }

    pub fn new(top_left: Point, size: Size) -> (r: Self)
        ensures
            r.top_left == top_left,
            r.size == size,
    {
        Rectangle { top_left, size }
    }

    /// Whether `p` lies inside (left/top edges included, right/bottom excluded).
    pub fn contains(&self, p: Point) -> (r: bool)
        ensures
            r == self.contains_spec(p),
    {
        let dx = p.x as i64 - self.top_left.x as i64;
        let dy = p.y as i64 - self.top_left.y as i64;
        dx >= 0 && dy >= 0 && dx < self.size.width as i64 && dy < self.size.height as i64
    }
}

} // verus!
