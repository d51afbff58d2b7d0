use vstd::prelude::*;
use crate::colorspace::Encoding;
use crate::data::{Data, Unit, data_result};
use crate::error::Error;
use crate::image::Image;
use crate::picture::Picture;
use crate::setup::Setup;

verus! {

/// Encodes video.
///
/// An encoder value is the verified face of one live native handle: it
/// carries the effective parameters read back from the handle when it was
/// opened, and gates every frame against them. The embedding layer owns
/// the handle itself, performs the foreign calls, and closes the handle
/// exactly once when the encoder is dropped.
#[derive(Clone, Copy, Debug, PartialEq, Eq, Structural)]
pub struct Encoder {
    /// The width required of any input images.
    pub width: i32,
    /// The height required of any input images.
    pub height: i32,
    /// The encoding required of any input images.
    pub encoding: Encoding,
}

impl Encoder {
    /// Creates a new builder with default options.
    ///
    /// For more options see `Setup::preset`.
    pub fn builder() -> (r: Setup)
        ensures
            r == crate::setup::default_setup(),
    {
        Setup::default()
    }

    /// Snapshots the effective parameters read back from a freshly opened
    /// native handle. The native layer may have adjusted the requested
    /// values, so this must come from the handle, not from the request.
    pub fn from_raw(width: i32, height: i32, encoding: Encoding) -> (r: Self)
        ensures
            r == (Encoder { width, height, encoding }),
    {
        Encoder { width, height, encoding }
    }

    /// Whether an image agrees with the encoder on width, height and
    /// colorspace. Feeding a frame is only permitted on agreement; a
    /// mismatch is the caller's bug, not a runtime condition.
    pub open spec fn spec_accepts(self, image: Image<'_>) -> bool {
        &&& image.width == self.width
        &&& image.height == self.height
        &&& image.encoding == self.encoding
    }

    /// Checks an image against the encoder's effective parameters.
    pub fn accepts(&self, image: &Image<'_>) -> (r: bool)
        ensures
            r == self.spec_accepts(*image),
    {
        image.width == self.width && image.height == self.height && image.encoding.csp
            == self.encoding.csp && image.encoding.high_depth == self.encoding.high_depth
            && image.encoding.vflip == self.encoding.vflip
    }

    /// Interprets the native status of one encode call: a negative status
    /// is the uniform failure, any other status yields the call's output
    /// units as a data view plus the frame metadata already copied out.
    pub fn encode_result<'a>(status: i32, units: Vec<Unit<'a>>, picture: Picture) -> (r: Result<
        (Data<'a>, Picture),
        Error,
    >)
        ensures
            status < 0 <==> r is Err,
            status >= 0 ==> (r matches Ok(p) && p.0.spec_units() == units@ && p.1 == picture),
    {
        match data_result(status, units) {
            Ok(data) => Ok((data, picture)),
            Err(e) => Err(e),
        }
    }

    /// Interprets the native status of one headers call: a negative
    /// status is the uniform failure, any other status yields the
    /// out-of-band header bytes as a data view.
    pub fn headers_result<'a>(status: i32, units: Vec<Unit<'a>>) -> (r: Result<Data<'a>, Error>)
        ensures
            status < 0 <==> r is Err,
            status >= 0 ==> (r matches Ok(d) && d.spec_units() == units@),
    {
        data_result(status, units)
    }

    /// Begins flushing the encoder, to handle any delayed frames.
    ///
    /// Consuming the encoder by value makes the flush sequence the last
    /// direct use of it; only draining and destruction remain.
    pub fn flush(self) -> (r: Flush)
        ensures
            r.encoder == self,
    {
        Flush { encoder: self }
    }

    /// The width required of any input images.
    pub fn width(&self) -> (r: i32)
        ensures
            r == self.width,
    {
        self.width
    }

    /// The height required of any input images.
    pub fn height(&self) -> (r: i32)
        ensures
            r == self.height,
    {
        self.height
    }

    /// The encoding required of any input images.
    pub fn encoding(&self) -> (r: Encoding)
        ensures
            r == self.encoding,
    {
        self.encoding
    }
}

/// Iterate through any delayed frames.
///
/// Each step first asks the native layer how many frames it still holds;
/// the sequence is exhausted exactly when that count reaches zero, and
/// stopping earlier is allowed — the remaining frames are discarded when
/// the parked encoder is dropped, which still closes the handle.
pub struct Flush {
    /// The consumed encoder whose delayed frames are being drained.
    pub encoder: Encoder,
}

impl Flush {
    /// Whether the drain is over: the native layer reports no more
    /// delayed frames, so no further encode call is to be made.
    pub fn exhausted(&self, delayed_frames: i32) -> (r: bool)
        ensures
            r == (delayed_frames == 0),
    {
        delayed_frames == 0
    }

    /// Interprets one drain step, given the delayed-frame count the
    /// native layer reported and, unless the count was zero, the status
    /// and output of the encode call made with no input frame.
    pub fn step<'a>(
        &self,
        delayed_frames: i32,
        status: i32,
        units: Vec<Unit<'a>>,
        picture: Picture,
    ) -> (r: Option<Result<(Data<'a>, Picture), Error>>)
        ensures
            delayed_frames == 0 <==> r is None,
            delayed_frames != 0 ==> (r matches Some(step) && {
                &&& status < 0 <==> step is Err
                &&& status >= 0 ==> (step matches Ok(p) && p.0.spec_units() == units@ && p.1
                    == picture)
            }),
    {
        if delayed_frames == 0 {
            None
        } else {
            Some(Encoder::encode_result(status, units, picture))
        }
    }
}

} // verus!
