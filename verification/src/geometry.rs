//! Integer geometry on the pixel grid.

use vstd::prelude::*;

verus! {

/// A grid position. Coordinates may be negative.
#[derive(Clone, Copy, Debug, PartialEq, Eq, PartialOrd, Ord, Hash, Structural)]
pub struct Point {
    pub x: i32,
    pub y: i32,
}

impl View for Point {
    type V = (int, int);

    open spec fn view(&self) -> (int, int) {
        (self.x as int, self.y as int)
    }
}

impl Point {
    /// Whether a mathematical grid position can be held in a `Point`.
    pub open spec fn representable(p: (int, int)) -> bool {
        &&& i32::MIN <= p.0 <= i32::MAX
        &&& i32::MIN <= p.1 <= i32::MAX
    }

    pub fn new(x: i32, y: i32) -> (p: Point)
        ensures
            p.x == x,
            p.y == y,
    {
        Point { x, y }
    }
}

impl Default for Point {
    fn default() -> (p: Point)
        ensures
            p@ == (0int, 0int),
    {
        Point { x: 0, y: 0 }
    }
}

/// An extent in pixels. Either side may be zero.
#[derive(Clone, Copy, Debug, PartialEq, Eq, PartialOrd, Ord, Hash, Structural)]
pub struct Size {
    pub width: u32,
    pub height: u32,
}

impl Size {
    pub fn new(width: u32, height: u32) -> (s: Size)
        ensures
            s.width == width,
            s.height == height,
    {
        Size { width, height }
    }
}

impl Default for Size {
    fn default() -> (s: Size)
        ensures
            s.width == 0,
            s.height == 0,
    {
        Size { width: 0, height: 0 }
    }
}

/// An axis-aligned rectangle: columns `[left, right)` and rows `[top, bottom)`.
#[derive(Clone, Copy, Debug, PartialEq, Eq, PartialOrd, Ord, Hash, Structural)]
pub struct Rectangle {
    pub top_left: Point,
    pub size: Size,
}

impl Rectangle {
    pub open spec fn left(&self) -> int {
        self.top_left.x as int
    }

    pub open spec fn top(&self) -> int {
        self.top_left.y as int
    }

    /// The first column to the right of the rectangle.
    pub open spec fn right(&self) -> int {
        self.top_left.x + self.size.width
    }

    /// The first row below the rectangle.
    pub open spec fn bottom(&self) -> int {
        self.top_left.y + self.size.height
    }

    /// Whether the grid position `p` lies inside the rectangle.
    pub open spec fn covers(&self, p: (int, int)) -> bool {
        &&& self.left() <= p.0 < self.right()
        &&& self.top() <= p.1 < self.bottom()
    }

    /// The grid positions inside the rectangle.
    pub open spec fn points(&self) -> Set<(int, int)> {
        Set::new(|p: (int, int)| self.covers(p))
    }

    pub open spec fn is_empty(&self) -> bool {
        self.size.width == 0 || self.size.height == 0
    }

    pub fn new(top_left: Point, size: Size) -> (r: Rectangle)
        ensures
            r.top_left == top_left,
            r.size == size,
    {
        Rectangle { top_left, size }
    }

    /// Whether `position` lies inside the rectangle.
    pub fn contains(&self, position: Point) -> (inside: bool)
        ensures
            inside == self.covers(position@),
    {
        let x: i64 = position.x as i64;
        let y: i64 = position.y as i64;
        let left: i64 = self.top_left.x as i64;
        let top: i64 = self.top_left.y as i64;
        left <= x && x < left + self.size.width as i64 && top <= y && y < top
            + self.size.height as i64
    }
}

impl Default for Rectangle {
    fn default() -> (r: Rectangle)
        ensures
            r.top_left@ == (0int, 0int),
            r.size.width == 0,
            r.size.height == 0,
    {
        Rectangle { top_left: Point { x: 0, y: 0 }, size: Size { width: 0, height: 0 } }
    }
}

} // verus!
