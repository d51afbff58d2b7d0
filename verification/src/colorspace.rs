use vstd::prelude::*;

verus! {

/// The colorspace of an image, which details how its colors are represented.
///
/// This is the closed set of pixel layouts the native engine understands;
/// each carries a fixed numeric layout code at the foreign boundary.
#[derive(Copy, Clone, Hash, Debug, PartialEq, Eq, Structural)]
pub enum Colorspace {
    /// A Y plane followed by 2x2 subsampled U and V planes.
    I420,
    /// A Y plane followed by 2x2 subsampled V and U planes.
    YV12,
    /// A Y plane followed by a packed 2x2 subsampled UV plane.
    NV12,
    /// A Y plane followed by a packed 2x2 subsampled VU plane.
    NV21,
    /// A Y plane followed by 2x1 subsampled U and V planes.
    I422,
    /// A Y plane followed by 2x1 subsampled V and U planes.
    YV16,
    /// A Y plane followed by a packed 2x1 subsampled UV plane.
    NV16,
    /// A single plane whose bytes follow the YUYV pattern, which means the
    /// U and V parts are 2x1 subsampled.
    YUYV,
    /// A single plane whose bytes follow the UYVY pattern, which means the
    /// U and V parts are 2x1 subsampled.
    UYVY,
    /// A packed 32-bit UYVY plane with 10-bit components, and 2 padding bits.
    V210,
    /// A Y plane followed by U and V planes.
    I444,
    /// A Y plane followed by V and U planes.
    YV24,
    /// A packed 24-bit BGR plane.
    BGR,
    /// A packed 32-bit BGR plane, where the latter byte is padding.
    BGRA,
    /// A packed 24-bit RGB plane.
    RGB,
}

impl Colorspace {
    /// The numeric layout code the native engine assigns to this layout.
    pub open spec fn code(self) -> int {
        match self {
            Colorspace::I420 => 0x01,
            Colorspace::YV12 => 0x02,
            Colorspace::NV12 => 0x03,
            Colorspace::NV21 => 0x04,
            Colorspace::I422 => 0x05,
            Colorspace::YV16 => 0x06,
            Colorspace::NV16 => 0x07,
            Colorspace::YUYV => 0x08,
            Colorspace::UYVY => 0x09,
            Colorspace::V210 => 0x0a,
            Colorspace::I444 => 0x0b,
            Colorspace::YV24 => 0x0c,
            Colorspace::BGR => 0x0d,
            Colorspace::BGRA => 0x0e,
            Colorspace::RGB => 0x0f,
        }
    }

    /// Produces the numeric layout code for the foreign boundary.
    pub fn to_code(self) -> (r: i32)
        ensures
            r == self.code(),
    {
        match self {
            Colorspace::I420 => 0x01,
            Colorspace::YV12 => 0x02,
            Colorspace::NV12 => 0x03,
            Colorspace::NV21 => 0x04,
            Colorspace::I422 => 0x05,
            Colorspace::YV16 => 0x06,
            Colorspace::NV16 => 0x07,
            Colorspace::YUYV => 0x08,
            Colorspace::UYVY => 0x09,
            Colorspace::V210 => 0x0a,
            Colorspace::I444 => 0x0b,
            Colorspace::YV24 => 0x0c,
            Colorspace::BGR => 0x0d,
            Colorspace::BGRA => 0x0e,
            Colorspace::RGB => 0x0f,
        }
    }
}

/// The layout that a numeric layout code names.
///
/// Codes outside `1..=15` do not name a layout; they are mapped to the
/// first one here and ruled out by the callers' preconditions.
pub open spec fn spec_of_code(code: int) -> Colorspace {
    if code == 0x01 {
        Colorspace::I420
    } else if code == 0x02 {
        Colorspace::YV12
    } else if code == 0x03 {
        Colorspace::NV12
    } else if code == 0x04 {
        Colorspace::NV21
    } else if code == 0x05 {
        Colorspace::I422
    } else if code == 0x06 {
        Colorspace::YV16
    } else if code == 0x07 {
        Colorspace::NV16
    } else if code == 0x08 {
        Colorspace::YUYV
    } else if code == 0x09 {
        Colorspace::UYVY
    } else if code == 0x0a {
        Colorspace::V210
    } else if code == 0x0b {
        Colorspace::I444
    } else if code == 0x0c {
        Colorspace::YV24
    } else if code == 0x0d {
        Colorspace::BGR
    } else if code == 0x0e {
        Colorspace::BGRA
    } else {
        Colorspace::RGB
    }
}

/// Maps a numeric layout code back to its layout.
pub fn colorspace_of_code(code: i32) -> (r: Colorspace)
    requires
        1 <= code <= 15,
    ensures
        r == spec_of_code(code as int),
        r.code() == code,
{
    if code == 0x01 {
        Colorspace::I420
    } else if code == 0x02 {
        Colorspace::YV12
    } else if code == 0x03 {
        Colorspace::NV12
    } else if code == 0x04 {
        Colorspace::NV21
    } else if code == 0x05 {
        Colorspace::I422
    } else if code == 0x06 {
        Colorspace::YV16
    } else if code == 0x07 {
        Colorspace::NV16
    } else if code == 0x08 {
        Colorspace::YUYV
    } else if code == 0x09 {
        Colorspace::UYVY
    } else if code == 0x0a {
        Colorspace::V210
    } else if code == 0x0b {
        Colorspace::I444
    } else if code == 0x0c {
        Colorspace::YV24
    } else if code == 0x0d {
        Colorspace::BGR
    } else if code == 0x0e {
        Colorspace::BGRA
    } else {
        Colorspace::RGB
    }
}

/// Some extra encoding options, orthogonal to the layout itself.
///
/// Each modifier occupies its own bit above the layout code in the combined
/// value exchanged with the native engine.
#[derive(Copy, Clone, Hash, Debug, PartialEq, Eq, Structural)]
pub enum Modifier {
    /// Doubles the pixel depth, from 8 to 16 bits per pixel.
    HighDepth,
    /// Vertically flips the image.
    VerticalFlip,
}

impl Modifier {
    /// The bit this modifier occupies in the combined value.
    pub open spec fn bit(self) -> int {
        match self {
            Modifier::HighDepth => 0x2000,
            Modifier::VerticalFlip => 0x1000,
        }
    }
}

/// The image's colorspace plus some extra encoding options.
///
/// The layout and the modifier flags are kept apart; only the boundary
/// adapters `into_raw` and `from_raw` pack and unpack the combined value.
#[derive(Copy, Clone, Hash, Debug, PartialEq, Eq, Structural)]
pub struct Encoding {
    /// The pixel layout.
    pub csp: Colorspace,
    /// Whether samples take two bytes instead of one.
    pub high_depth: bool,
    /// Whether the image is vertically flipped.
    pub vflip: bool,
}

impl Encoding {
    /// The combined value this encoding packs to at the foreign boundary.
    pub open spec fn raw(self) -> int {
        self.csp.code() + (if self.vflip {
            0x1000int
        } else {
            0int
        }) + (if self.high_depth {
            0x2000int
        } else {
            0int
        })
    }

    /// Whether a combined value decomposes into a layout code and
    /// modifier bits, i.e. packs some encoding.
    pub open spec fn is_valid_raw(raw: int) -> bool {
        &&& 0 <= raw < 0x4000
        &&& 1 <= raw % 0x1000 <= 15
    }

    /// Add an encoding option.
    pub fn add(self, modifier: Modifier) -> (r: Self)
        ensures
            r.csp == self.csp,
            r.high_depth == (self.high_depth || modifier == Modifier::HighDepth),
            r.vflip == (self.vflip || modifier == Modifier::VerticalFlip),
    {
        match modifier {
            Modifier::HighDepth => Encoding { high_depth: true, ..self },
            Modifier::VerticalFlip => Encoding { vflip: true, ..self },
        }
    }

    /// Remove an encoding option.
    pub fn remove(self, modifier: Modifier) -> (r: Self)
        ensures
            r.csp == self.csp,
            r.high_depth == (self.high_depth && modifier != Modifier::HighDepth),
            r.vflip == (self.vflip && modifier != Modifier::VerticalFlip),
    {
        match modifier {
            Modifier::HighDepth => Encoding { high_depth: false, ..self },
            Modifier::VerticalFlip => Encoding { vflip: false, ..self },
        }
    }

    /// Check if an encoding option has been set.
    pub fn has(self, modifier: Modifier) -> (r: bool)
        ensures
            r == (if modifier == Modifier::HighDepth {
                self.high_depth
            } else {
                self.vflip
            }),
    {
        match modifier {
            Modifier::HighDepth => self.high_depth,
            Modifier::VerticalFlip => self.vflip,
        }
    }

    /// Gets the colorspace of the encoding.
    pub fn colorspace(self) -> (r: Colorspace)
        ensures
            r == self.csp,
    {
        self.csp
    }

    /// Packs the encoding into the combined value the native engine takes.
    pub fn into_raw(self) -> (r: i32)
        ensures
            r == self.raw(),
            Self::is_valid_raw(r as int),
    {
        let code = self.csp.to_code();
        let vf: i32 = if self.vflip {
            0x1000
        } else {
            0
        };
        let hd: i32 = if self.high_depth {
            0x2000
        } else {
            0
        };
        code + vf + hd
    }

    /// Checks whether a combined value read back from the native engine
    /// packs some encoding, i.e. may be handed to `from_raw`.
    pub fn raw_is_valid(raw: i32) -> (r: bool)
        ensures
            r == Self::is_valid_raw(raw as int),
    {
        0 <= raw && raw < 0x4000 && 1 <= raw % 0x1000 && raw % 0x1000 <= 15
    }

    /// Unpacks a combined value the native engine produced.
    pub fn from_raw(raw: i32) -> (r: Self)
        requires
            Self::is_valid_raw(raw as int),
        ensures
            r.raw() == raw,
            r.csp == spec_of_code(raw as int % 0x1000),
    {
        let code: i32 = raw % 0x1000;
        let q: i32 = raw / 0x1000;
        Encoding {
            csp: colorspace_of_code(code),
            high_depth: q >= 2,
            vflip: q % 2 == 1,
        }
    }
}

impl From<Colorspace> for Encoding {
    /// An encoding with the given layout and no modifiers.
    fn from(csp: Colorspace) -> (r: Self) {
        Encoding { csp, high_depth: false, vflip: false }
    }
}

impl vstd::std_specs::convert::FromSpecImpl<Colorspace> for Encoding {
    open spec fn obeys_from_spec() -> bool {
        true
    }

    open spec fn from_spec(csp: Colorspace) -> Self {
        Encoding { csp, high_depth: false, vflip: false }
    }
}

/// The base layout recovered from a combined value: the modifier bits are
/// masked off and the residual code is mapped back to the layout set.
pub open spec fn base_of_raw(raw: int) -> Colorspace {
    spec_of_code(raw % 0x10)
}

/// Law: for every encoding, masking the modifier bits from its combined
/// value and mapping the residual code recovers the original base layout.
pub proof fn lemma_base_roundtrip(e: Encoding)
    ensures
        base_of_raw(e.raw()) == e.csp,
{
    assert(e.raw() % 0x10 == e.csp.code());
}

/// Law: packing an encoding always yields a combined value that unpacks,
/// and the value determines the encoding in full.
pub proof fn lemma_raw_faithful(e: Encoding, f: Encoding)
    ensures
        Encoding::is_valid_raw(e.raw()),
        e.raw() == f.raw() ==> e == f,
{
    assert(e.raw() % 0x1000 == e.csp.code());
    assert(f.raw() % 0x1000 == f.csp.code());
}

} // verus!
