use vstd::prelude::*;
use crate::cv::geometry::Rect;
use crate::cv::imgproc::find::FindContours;

verus! {

/// The comparator's last stage: it turns the contours that the image
/// pipeline found in the difference of two frames into the verdict.
pub struct MatDiff {
    pub contours: FindContours,
    /// The smallest bounding-box area, in pixels, that counts as motion.
    pub contour_area_threshold: i32,
}

impl Default for MatDiff {
    fn default() -> (diff: Self)
        ensures
            diff.contour_area_threshold == 2000,
    {
        Self { contours: FindContours::default(), contour_area_threshold: 2000 }
    }
}

/// Whether a contour counts as motion under `threshold`: its bounding box
/// covers no fewer pixels than the threshold.
pub open spec fn qualifies(contour: Rect, threshold: int) -> bool {
    contour.spec_area() >= threshold
}

/// Whether any contour of `contours` counts as motion under `threshold`.
pub open spec fn any_qualifies(contours: Seq<Rect>, threshold: int) -> bool {
    exists|i: int| 0 <= i < contours.len() && qualifies(#[trigger] contours[i], threshold)
}

impl MatDiff {
    pub fn new(contours: FindContours, contour_area_threshold: i32) -> (diff: Self)
        ensures
            diff.contours == contours,
            diff.contour_area_threshold == contour_area_threshold,
    {
        Self { contours, contour_area_threshold }
    }

    /// The verdict on two frames, given the bounding boxes of all the
    /// contours of their dilated, thresholded difference. The scene changed
    /// exactly when some contour's bounding box covers at least
    /// `contour_area_threshold` pixels. Where an image operation fails, the
    /// bounding box of a contour included, there is no list of boxes to
    /// decide on: the comparison fails with that error and this function is
    /// not called.
    pub fn diff(&self, contours: &Vec<Rect>) -> (changed: bool)
        ensures
            changed == any_qualifies(contours@, self.contour_area_threshold as int),
    {
        let threshold: i64 = self.contour_area_threshold as i64;
        let mut i: usize = 0;
        while i < contours.len()
            invariant
                i <= contours@.len(),
                threshold == self.contour_area_threshold,
                forall|j: int| 0 <= j < i ==> !qualifies(#[trigger] contours@[j], threshold as int),
            decreases contours@.len() - i,
        {
            if contours[i].area() >= threshold {
                assert(qualifies(contours@[i as int], threshold as int));
                return true;
            }
            i = i + 1;
        }
        false
    }
}

/// Without a contour there is no change: two frames whose difference is
/// blank compare as unchanged.
pub proof fn lemma_no_contour_no_change(threshold: int)
    ensures
        !any_qualifies(Seq::<Rect>::empty(), threshold),
{
}

/// Contours that all cover fewer pixels than the threshold leave the verdict
/// at unchanged.
pub proof fn lemma_small_regions_no_change(contours: Seq<Rect>, threshold: int)
    requires
        forall|i: int| 0 <= i < contours.len() ==> (#[trigger] contours[i]).spec_area() < threshold,
    ensures
        !any_qualifies(contours, threshold),
{
}

} // verus!
