use vstd::prelude::*;
use crate::cv::geometry::Size;

verus! {

/// Lanczos interpolation over a neighbourhood of eight by eight pixels.
pub const INTER_LANCZOS4: i32 = 4;

/// How the frame size of a written video is chosen and what happens to
/// frames of another size.
#[derive(Clone, Copy, PartialEq, Eq, Structural, Debug)]
pub enum FrameSizeConfig {
    /// A fixed frame size; frames are written as they are.
    Static(Size),
    /// A fixed frame size; every frame is resized to it with the given
    /// interpolation.
    Resize(Size, i32),
    /// The size of the first frame; frames are written as they are.
    Derive,
    /// The size of the first frame; every frame is resized to it with the
    /// given interpolation.
    DeriveResize(i32),
}

/// Why a video cannot be written.
#[derive(PartialEq, Eq, Structural, Debug)]
pub enum SaveError {
    /// There is no frame to write.
    NoContent,
}

/// What the encoder is opened with and what is done to each frame.
#[derive(Clone, Copy, PartialEq, Eq, Structural, Debug)]
pub struct Encoding {
    pub frame_size: Size,
    /// The interpolation with which every frame is resized to `frame_size`
    /// before it is written; `None` where frames are written as they are.
    pub resize_interpolation: Option<i32>,
}

impl FrameSizeConfig {
    /// Whether the frame size is taken from the first frame.
    pub open spec fn spec_derives(self) -> bool {
        self is Derive || self is DeriveResize
    }

    /// The frame size of the video, given the size of its first frame.
    pub open spec fn spec_frame_size(self, first_frame: Size) -> Size {
        match self {
            FrameSizeConfig::Static(size) => size,
            FrameSizeConfig::Resize(size, _) => size,
            FrameSizeConfig::Derive => first_frame,
            FrameSizeConfig::DeriveResize(_) => first_frame,
        }
    }

    /// The interpolation with which frames are resized, where they are.
    pub open spec fn spec_resize_interpolation(self) -> Option<i32> {
        match self {
            FrameSizeConfig::Static(_) => None,
            FrameSizeConfig::Derive => None,
            FrameSizeConfig::Resize(_, interpolation) => Some(interpolation),
            FrameSizeConfig::DeriveResize(interpolation) => Some(interpolation),
        }
    }

    /// Whether the frame size is taken from the first frame, so that the
    /// first frame has to be measured before the video is planned.
    pub fn derives(&self) -> (derives: bool)
        ensures
            derives == self.spec_derives(),
    {
        match self {
            FrameSizeConfig::Derive => true,
            FrameSizeConfig::DeriveResize(_) => true,
            _ => false,
        }
    }

    /// The frame size of the video, given the size of its first frame.
    pub fn frame_size(&self, first_frame: Size) -> (size: Size)
        ensures
            size == self.spec_frame_size(first_frame),
    {
        match self {
            FrameSizeConfig::Static(size) => *size,
            FrameSizeConfig::Resize(size, _) => *size,
            FrameSizeConfig::Derive => first_frame,
            FrameSizeConfig::DeriveResize(_) => first_frame,
        }
    }

    /// The interpolation with which frames are resized, where they are.
    pub fn resize_interpolation(&self) -> (interpolation: Option<i32>)
        ensures
            interpolation == self.spec_resize_interpolation(),
    {
        match self {
            FrameSizeConfig::Static(_) => None,
            FrameSizeConfig::Derive => None,
            FrameSizeConfig::Resize(_, interpolation) => Some(*interpolation),
            FrameSizeConfig::DeriveResize(interpolation) => Some(*interpolation),
        }
    }

    /// Plans the writing of `frame_count` frames the first of which has the
    /// size `first_frame`. A video without frames cannot be written; any other
    /// gets its frame size and its treatment of frames from this setting.
    /// `first_frame` is read only where the setting derives the frame size.
    pub fn plan(&self, frame_count: usize, first_frame: Size) -> (plan: Result<Encoding, SaveError>)
        ensures
            plan == if frame_count == 0 {
                Err::<Encoding, SaveError>(SaveError::NoContent)
            } else {
                Ok::<Encoding, SaveError>(
                    Encoding {
                        frame_size: self.spec_frame_size(first_frame),
                        resize_interpolation: self.spec_resize_interpolation(),
                    },
                )
            },
    {
        if frame_count == 0 {
            return Err(SaveError::NoContent);
        }
        Ok(
            Encoding {
                frame_size: self.frame_size(first_frame),
                resize_interpolation: self.resize_interpolation(),
            },
        )
    }
}

impl SaveError {
    /// The error in words.
    pub fn message(&self) -> (text: String)
        ensures
            text@ == "Cannot write video file: no content"@,
    {
        "Cannot write video file: no content".to_owned()
    }
}

} // verus!
