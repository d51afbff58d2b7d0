use vstd::prelude::*;

verus! {

/// Output information about an encoded frame.
///
/// The values are copied out of the native layer's frame record as soon as
/// an encode call returns, so a `Picture` outlives any output view.
#[derive(Copy, Clone, Debug, PartialEq, Eq, Structural)]
pub struct Picture {
    /// Whether the frame is a keyframe.
    pub keyframe: bool,
    /// The presentation timestamp.
    pub pts: i64,
    /// The decoding timestamp.
    pub dts: i64,
}

impl Picture {
    /// Assembles the metadata read back from the native layer's frame
    /// record: keyframe flag, presentation and decoding timestamps.
    pub fn from_raw(keyframe: bool, pts: i64, dts: i64) -> (r: Self)
        ensures
            r == (Picture { keyframe, pts, dts }),
    {
        Picture { keyframe, pts, dts }
    }

    /// Whether the picture is a keyframe.
    pub fn keyframe(&self) -> (r: bool)
        ensures
            r == self.keyframe,
    {
        self.keyframe
    }

    /// The presentation timestamp.
    pub fn pts(&self) -> (r: i64)
        ensures
            r == self.pts,
    {
        self.pts
    }

    /// The decoding timestamp.
    pub fn dts(&self) -> (r: i64)
        ensures
            r == self.dts,
    {
        self.dts
    }
}

} // verus!
