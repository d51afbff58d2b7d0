use vstd::prelude::*;
use crate::colorspace::Colorspace;
use crate::preset::Preset;
use crate::tune::Tune;

verus! {

/// A framerate or timebase as a rational number.
#[derive(Clone, Copy, Hash, Debug, Eq, PartialEq, Structural)]
pub struct Rational {
    /// The numerator.
    pub num: u32,
    /// The denominator.
    pub den: u32,
}

/// A profile the encoder can be restricted to.
#[derive(Clone, Copy, Hash, Debug, Eq, PartialEq, Structural)]
pub enum Profile {
    /// The lowest profile, with guaranteed compatibility with all decoders.
    Baseline,
    /// A middleground between the baseline and high profiles.
    Main,
    /// The highest profile, which almost all encoders support.
    High,
}

/// The nul-terminated profile name the native engine recognizes.
pub open spec fn profile_cstr(p: Profile) -> Seq<char> {
    match p {
        Profile::Baseline => "baseline\0"@,
        Profile::Main => "main\0"@,
        Profile::High => "high\0"@,
    }
}

impl Profile {
    /// The profile's name as the body of a C string: the exact bytes the
    /// native engine matches, nul terminator included.
    pub fn to_cstr(self) -> (r: &'static str)
        ensures
            r@ == profile_cstr(self),
    {
        match self {
            Profile::Baseline => "baseline\0",
            Profile::Main => "main\0",
            Profile::High => "high\0",
        }
    }
}

/// Law: every profile name is a well-formed C string body: non-empty,
/// ending in the nul terminator, with no nul anywhere before it.
pub proof fn lemma_profile_cstr_nul(p: Profile)
    ensures
        profile_cstr(p).len() > 0,
        profile_cstr(p).last() == '\0',
        forall|i: int| 0 <= i < profile_cstr(p).len() - 1 ==> #[trigger] profile_cstr(p)[i] != '\0',
{
    reveal_strlit("baseline\0");
    reveal_strlit("main\0");
    reveal_strlit("high\0");
}

/// Builds a new encoder.
///
/// A setup collects the requested configuration; an option left unset
/// keeps the native layer's own default. The build step freezes the
/// configuration together with the stream geometry; nothing can be
/// reconfigured on a live encoder.
#[derive(Clone, Copy, Debug, PartialEq, Eq, Structural)]
pub struct Setup {
    /// The preset to initialize the native defaults from, if any.
    pub preset: Option<Preset>,
    /// The tune composed into the preset initialization.
    pub tune: Tune,
    /// Whether the tune is composed with the fast-decode flag.
    pub fast_decode: bool,
    /// Whether the tune is composed with the zero-latency flag.
    pub zero_latency: bool,
    /// Whether the first pass is made faster.
    pub fastfirstpass: bool,
    /// The requested framerate, in frames per second.
    pub fps: Option<Rational>,
    /// The requested timebase, in seconds per tick.
    pub timebase: Option<Rational>,
    /// The requested Annex B framing flag.
    pub annexb: Option<bool>,
    /// The approximate bitrate restriction, in metric kilobits per second.
    pub bitrate: Option<i32>,
    /// The profile the parameters are restricted to, if any.
    pub profile: Option<Profile>,
}

/// The configuration that leaves every option at the native default.
pub open spec fn default_setup() -> Setup {
    Setup {
        preset: None,
        tune: Tune::Untuned,
        fast_decode: false,
        zero_latency: false,
        fastfirstpass: false,
        fps: None,
        timebase: None,
        annexb: None,
        bitrate: None,
        profile: None,
    }
}

impl Default for Setup {
    /// A builder with every option left at the native default.
    fn default() -> (r: Self)
        ensures
            r == default_setup(),
    {
        Setup {
            preset: None,
            tune: Tune::Untuned,
            fast_decode: false,
            zero_latency: false,
            fastfirstpass: false,
            fps: None,
            timebase: None,
            annexb: None,
            bitrate: None,
            profile: None,
        }
    }
}

impl Setup {
    /// Creates a new builder with the specified preset and tune.
    pub fn preset(preset: Preset, tune: Tune, fast_decode: bool, zero_latency: bool) -> (r: Self)
        ensures
            r == (Setup {
                preset: Some(preset),
                tune,
                fast_decode,
                zero_latency,
                ..default_setup()
            }),
    {
        Setup {
            preset: Some(preset),
            tune,
            fast_decode,
            zero_latency,
            fastfirstpass: false,
            fps: None,
            timebase: None,
            annexb: None,
            bitrate: None,
            profile: None,
        }
    }

    /// Makes the first pass faster.
    pub fn fastfirstpass(self) -> (r: Self)
        ensures
            r == (Setup { fastfirstpass: true, ..self }),
    {
        Setup { fastfirstpass: true, ..self }
    }

    /// The video's framerate, represented as a rational number.
    ///
    /// The value is in frames per second.
    pub fn fps(self, num: u32, den: u32) -> (r: Self)
        ensures
            r == (Setup { fps: Some(Rational { num, den }), ..self }),
    {
        Setup { fps: Some(Rational { num, den }), ..self }
    }

    /// The encoder's timebase, used in rate control with timestamps.
    ///
    /// The value is in seconds per tick.
    pub fn timebase(self, num: u32, den: u32) -> (r: Self)
        ensures
            r == (Setup { timebase: Some(Rational { num, den }), ..self }),
    {
        Setup { timebase: Some(Rational { num, den }), ..self }
    }

    /// Whether the output stream uses Annex B framing.
    pub fn annexb(self, annexb: bool) -> (r: Self)
        ensures
            r == (Setup { annexb: Some(annexb), ..self }),
    {
        Setup { annexb: Some(annexb), ..self }
    }

    /// Approximately restricts the bitrate.
    ///
    /// The value is in metric kilobits per second.
    pub fn bitrate(self, bitrate: i32) -> (r: Self)
        ensures
            r == (Setup { bitrate: Some(bitrate), ..self }),
    {
        Setup { bitrate: Some(bitrate), ..self }
    }

    /// The lowest profile, with guaranteed compatibility with all decoders.
    pub fn baseline(self) -> (r: Self)
        ensures
            r == (Setup { profile: Some(Profile::Baseline), ..self }),
    {
        Setup { profile: Some(Profile::Baseline), ..self }
    }

    /// A middleground between the baseline and high profiles.
    pub fn main(self) -> (r: Self)
        ensures
            r == (Setup { profile: Some(Profile::Main), ..self }),
    {
        Setup { profile: Some(Profile::Main), ..self }
    }

    /// The highest profile, which almost all encoders support.
    pub fn high(self) -> (r: Self)
        ensures
            r == (Setup { profile: Some(Profile::High), ..self }),
    {
        Setup { profile: Some(Profile::High), ..self }
    }

    /// Freezes the configuration together with the stream geometry. The
    /// embedding layer opens the native encoder from the frozen record;
    /// the native layer may adjust the requested values, so the effective
    /// parameters must then be read back from the opened handle.
    pub fn build(self, csp: Colorspace, width: i32, height: i32) -> (r: Params)
        ensures
            r == (Params { setup: self, csp, width, height }),
    {
        Params { setup: self, csp, width, height }
    }
}

/// A frozen parameter record: the configuration a native encoder is to be
/// opened with. Consuming the `Setup` into this record is the last point
/// at which the configuration can change.
#[derive(Clone, Copy, Debug, PartialEq, Eq, Structural)]
pub struct Params {
    /// The frozen configuration.
    pub setup: Setup,
    /// The colorspace of the stream's input images.
    pub csp: Colorspace,
    /// The width of the stream's input images.
    pub width: i32,
    /// The height of the stream's input images.
    pub height: i32,
}

} // verus!
