//! Plain geometry of images: sizes, points and rectangles in pixels.

use vstd::prelude::*;

verus! {

/// Width and height of an image or a kernel.
#[derive(Clone, Copy, PartialEq, Eq, Structural, Debug)]
pub struct Size {
    pub width: i32,
    pub height: i32,
}

impl Size {
    pub fn new(width: i32, height: i32) -> (size: Self)
        ensures
            size.width == width,
            size.height == height,
    {
        Size { width, height }
    }
}

/// A position in an image.
#[derive(Clone, Copy, PartialEq, Eq, Structural, Debug)]
pub struct Point {
    pub x: i32,
    pub y: i32,
}

impl Point {
    pub fn new(x: i32, y: i32) -> (point: Self)
        ensures
            point.x == x,
            point.y == y,
    {
        Point { x, y }
    }
}

/// An upright rectangle: its top-left corner and its extent.
#[derive(Clone, Copy, PartialEq, Eq, Structural, Debug)]
pub struct Rect {
    pub x: i32,
    pub y: i32,
    pub width: i32,
    pub height: i32,
}

impl Rect {
    pub fn new(x: i32, y: i32, width: i32, height: i32) -> (rect: Self)
        ensures
            rect.x == x,
            rect.y == y,
            rect.width == width,
            rect.height == height,
    {
        Rect { x, y, width, height }
    }

    /// The number of pixels the rectangle covers.
    pub open spec fn spec_area(self) -> int {
        self.width * self.height
    }

    /// The number of pixels the rectangle covers, in a type wide enough for
    /// every pair of extents.
    pub fn area(&self) -> (area: i64)
        ensures
            area == self.spec_area(),
    {
        let width: i64 = self.width as i64;
        let height: i64 = self.height as i64;
        assert(-0x4000_0000_0000_0000 <= width * height <= 0x4000_0000_0000_0000)
            by (nonlinear_arith)
            requires
                -0x8000_0000 <= width <= 0x7fff_ffff,
                -0x8000_0000 <= height <= 0x7fff_ffff,
        ;
        width * height
    }
}

} // verus!
