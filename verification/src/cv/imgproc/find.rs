use vstd::prelude::*;
use crate::cv::geometry::Point;

verus! {

/// Retrieval mode that rebuilds the full hierarchy of nested contours.
pub const RETR_TREE: i32 = 3;

/// Contour approximation after Teh and Chin, in its k-cosine flavour.
pub const CHAIN_APPROX_TC89_KCOS: i32 = 4;

/// Parameters of the search for contours in a binary mask.
#[derive(Clone, Copy, PartialEq, Eq, Structural, Debug)]
pub struct FindContours {
    pub mode: i32,
    pub color_approximation: i32,
    pub offset: Point,
}

impl Default for FindContours {
    fn default() -> (find: Self)
        ensures
            find.mode == RETR_TREE,
            find.color_approximation == CHAIN_APPROX_TC89_KCOS,
            find.offset == (Point { x: 0, y: 0 }),
    {
        Self {
            mode: RETR_TREE,
            color_approximation: CHAIN_APPROX_TC89_KCOS,
            offset: Point::new(0, 0),
        }
    }
}

impl FindContours {
    pub fn new(mode: i32, color_approximation: i32, offset: Point) -> (find: Self)
        ensures
            find.mode == mode,
            find.color_approximation == color_approximation,
            find.offset == offset,
    {
        Self { mode, color_approximation, offset }
    }
}

} // verus!
