use vstd::prelude::*;
use crate::cv::geometry::{Point, Size};

verus! {

/// The rectangular shape of a structuring element.
pub const MORPH_RECT: i32 = 0;

/// The elliptic shape of a structuring element.
pub const MORPH_ELLIPSE: i32 = 2;

/// The border mode that does not look outside the region of interest.
pub const BORDER_ISOLATED: i32 = 16;

/// The kernel of a morphological operation: its shape, its size and the
/// position of its anchor. An anchor of `(-1, -1)` stands for the centre.
#[derive(Clone, Copy, PartialEq, Eq, Structural, Debug)]
pub struct StructuringElement {
    shape: i32,
    ksize: Size,
    anchor: Point,
}

impl Default for StructuringElement {
    fn default() -> (element: Self)
        ensures
            element.spec_shape() == MORPH_RECT,
            element.spec_ksize() == (Size { width: 3, height: 3 }),
            element.spec_anchor() == (Point { x: -1i32, y: -1i32 }),
    {
        Self { shape: MORPH_RECT, ksize: Size::new(3, 3), anchor: Point::new(-1, -1) }
    }
}

impl StructuringElement {
    pub closed spec fn spec_shape(self) -> i32 {
        self.shape
    }

    pub closed spec fn spec_ksize(self) -> Size {
        self.ksize
    }

    pub closed spec fn spec_anchor(self) -> Point {
        self.anchor
    }

    /// The same element in another shape.
    pub fn with_shape(&self, shape: i32) -> (element: Self)
        ensures
            element.spec_shape() == shape,
            element.spec_ksize() == self.spec_ksize(),
            element.spec_anchor() == self.spec_anchor(),
    {
        Self { shape, ksize: self.ksize, anchor: self.anchor }
    }

    /// The same element in another size.
    pub fn with_ksize(&self, ksize: Size) -> (element: Self)
        ensures
            element.spec_shape() == self.spec_shape(),
            element.spec_ksize() == ksize,
            element.spec_anchor() == self.spec_anchor(),
    {
        Self { shape: self.shape, ksize, anchor: self.anchor }
    }

    /// The same element as a square of side `radius`.
    pub fn with_radius(&self, radius: i32) -> (element: Self)
        ensures
            element.spec_shape() == self.spec_shape(),
            element.spec_ksize() == (Size { width: radius, height: radius }),
            element.spec_anchor() == self.spec_anchor(),
    {
        self.with_ksize(Size::new(radius, radius))
    }

    /// The same element anchored elsewhere.
    pub fn with_anchor(&self, anchor: Point) -> (element: Self)
        ensures
            element.spec_shape() == self.spec_shape(),
            element.spec_ksize() == self.spec_ksize(),
            element.spec_anchor() == anchor,
    {
        Self { shape: self.shape, ksize: self.ksize, anchor }
    }

    /// The same element anchored at its centre.
    pub fn with_anchor_center(&self) -> (element: Self)
        ensures
            element.spec_shape() == self.spec_shape(),
            element.spec_ksize() == self.spec_ksize(),
            element.spec_anchor() == (Point { x: -1i32, y: -1i32 }),
    {
        self.with_anchor(Point::new(-1, -1))
    }

    pub fn shape(&self) -> (shape: i32)
        ensures
            shape == self.spec_shape(),
    {
        self.shape
    }

    pub fn ksize(&self) -> (ksize: Size)
        ensures
            ksize == self.spec_ksize(),
    {
        self.ksize
    }

    pub fn anchor(&self) -> (anchor: Point)
        ensures
            anchor == self.spec_anchor(),
    {
        self.anchor
    }
}

} // verus!
