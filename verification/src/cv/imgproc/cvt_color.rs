use vstd::prelude::*;

verus! {

/// Conversion code for blue-green-red input to single-channel grayscale.
pub const COLOR_BGR2GRAY: i32 = 6;

/// Parameters of a colour-space conversion.
pub struct CvtColor {
    code: i32,
    dst_cn: i32,
}

impl CvtColor {
    pub closed spec fn spec_code(self) -> int {
        self.code as int
    }

    pub closed spec fn spec_dst_cn(self) -> int {
        self.dst_cn as int
    }

    /// A conversion by `code` that lets the channel count follow from the
    /// source and the code.
    pub fn with_code(code: i32) -> (conv: Self)
        ensures
            conv.spec_code() == code,
            conv.spec_dst_cn() == 0,
    {
        Self { code, dst_cn: 0 }
    }

    /// The conversion to grayscale that every comparison starts with.
    pub fn gray() -> (conv: Self)
        ensures
            conv.spec_code() == COLOR_BGR2GRAY,
            conv.spec_dst_cn() == 0,
    {
        Self { code: COLOR_BGR2GRAY, dst_cn: 0 }
    }

    pub fn code(&self) -> (code: i32)
        ensures
            code == self.spec_code(),
    {
        self.code
    }

    pub fn dst_cn(&self) -> (dst_cn: i32)
        ensures
            dst_cn == self.spec_dst_cn(),
    {
        self.dst_cn
    }
}

} // verus!
