//! Points, sizes and rectangles in logical screen coordinates (320×240,
//! landscape, origin top-left), with the same meaning as the drawing
//! library's: a rectangle covers `width` columns from its left edge and
//! `height` rows from its top edge.

use vstd::prelude::*;

verus! {

#[derive(Clone, Copy, Debug, PartialEq, Eq, Structural, Hash)]
pub struct Point {
    pub x: i32,
    pub y: i32,
}

#[derive(Clone, Copy, Debug, PartialEq, Eq, Structural, Hash)]
pub struct Size {
    pub width: u32,
    pub height: u32,
}

#[derive(Clone, Copy, Debug, PartialEq, Eq, Structural, Hash)]
pub struct Rectangle {
    pub top_left: Point,
    pub size: Size,
}

impl Point {
    pub fn new(x: i32, y: i32) -> (p: Point)
        ensures
            p == (Point { x, y }),
    {
        Point { x, y }
    }

    /// The origin, top-left.
    pub fn zero() -> (p: Point)
        ensures
            p == (Point { x: 0, y: 0 }),
    {
        Point { x: 0, y: 0 }
    }
}

impl Size {
    pub fn new(width: u32, height: u32) -> (s: Size)
        ensures
            s == (Size { width, height }),
    {
        Size { width, height }
    }
}

impl Rectangle {
    pub fn new(top_left: Point, size: Size) -> (r: Rectangle)
        ensures
            r == (Rectangle { top_left, size }),
    {
        Rectangle { top_left, size }
    }

    /// True if `p` is one of the pixels this rectangle covers.
    pub open spec fn covers(self, p: Point) -> bool {
        &&& self.top_left.x <= p.x < self.top_left.x + self.size.width
        &&& self.top_left.y <= p.y < self.top_left.y + self.size.height
    }

    /// True if no pixel is covered by both rectangles.
    pub open spec fn apart(self, other: Rectangle) -> bool {
        forall|p: Point| !(#[trigger] self.covers(p) && other.covers(p))
    }

    /// The middle pixel, rounding up and left.
    pub open spec fn center_spec(self) -> Point {
        Point {
            x: (self.top_left.x + if self.size.width == 0 {
                0
            } else {
                (self.size.width - 1) / 2
            }) as i32,
            y: (self.top_left.y + if self.size.height == 0 {
                0
            } else {
                (self.size.height - 1) / 2
            }) as i32,
        }
    }

    /// True if `p` is inside this rectangle.
    pub fn contains(&self, p: Point) -> (b: bool)
        ensures
            b == self.covers(p),
    {
        let left = self.top_left.x as i64;
        let top = self.top_left.y as i64;
        let x = p.x as i64;
        let y = p.y as i64;
        left <= x && x < left + self.size.width as i64 && top <= y && y < top
            + self.size.height as i64
    }

    /// The middle pixel, rounding up and left.
    pub fn center(&self) -> (p: Point)
        requires
            self.top_left.x + self.size.width <= i32::MAX,
            self.top_left.y + self.size.height <= i32::MAX,
        ensures
            p == self.center_spec(),
            self.size.width > 0 && self.size.height > 0 ==> self.covers(p),
    {
        let dx = if self.size.width == 0 {
            0
        } else {
            (self.size.width - 1) / 2
        };
        let dy = if self.size.height == 0 {
            0
        } else {
            (self.size.height - 1) / 2
        };
        Point { x: self.top_left.x + dx as i32, y: self.top_left.y + dy as i32 }
    }
}

} // verus!
