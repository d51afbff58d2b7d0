use vstd::prelude::*;

verus! {

/// Tunes the encoder for a certain kind of video.
#[allow(missing_docs)]
#[derive(Clone, Copy, Hash, Debug, Eq, PartialEq, Structural)]
pub enum Tune {
    Untuned,
    Film,
    Animation,
    Grain,
    StillImage,
    Psnr,
    Ssim,
}

/// The nul-terminated tune name the native engine recognizes, composed
/// with the fast-decode and zero-latency flags by comma-joining; each of
/// the four flag combinations has its own fixed mapping.
pub open spec fn tune_cstr(t: Tune, fast_decode: bool, zero_latency: bool) -> Seq<char> {
    if !fast_decode && !zero_latency {
        match t {
            Tune::Untuned => "\0"@,
            Tune::Film => "film\0"@,
            Tune::Animation => "animation\0"@,
            Tune::Grain => "grain\0"@,
            Tune::StillImage => "stillimage\0"@,
            Tune::Psnr => "psnr\0"@,
            Tune::Ssim => "ssim\0"@,
        }
    } else if fast_decode && !zero_latency {
        match t {
            Tune::Untuned => "fastdecode\0"@,
            Tune::Film => "fastdecode,film\0"@,
            Tune::Animation => "fastdecode,animation\0"@,
            Tune::Grain => "fastdecode,grain\0"@,
            Tune::StillImage => "fastdecode,stillimage\0"@,
            Tune::Psnr => "fastdecode,psnr\0"@,
            Tune::Ssim => "fastdecode,ssim\0"@,
        }
    } else if !fast_decode && zero_latency {
        match t {
            Tune::Untuned => "zerolatency\0"@,
            Tune::Film => "zerolatency,film\0"@,
            Tune::Animation => "zerolatency,animation\0"@,
            Tune::Grain => "zerolatency,grain\0"@,
            Tune::StillImage => "zerolatency,stillimage\0"@,
            Tune::Psnr => "zerolatency,psnr\0"@,
            Tune::Ssim => "zerolatency,ssim\0"@,
        }
    } else {
        match t {
            Tune::Untuned => "fastdecode,zerolatency\0"@,
            Tune::Film => "fastdecode,zerolatency,film\0"@,
            Tune::Animation => "fastdecode,zerolatency,animation\0"@,
            Tune::Grain => "fastdecode,zerolatency,grain\0"@,
            Tune::StillImage => "fastdecode,zerolatency,stillimage\0"@,
            Tune::Psnr => "fastdecode,zerolatency,psnr\0"@,
            Tune::Ssim => "fastdecode,zerolatency,ssim\0"@,
        }
    }
}

impl Tune {
    /// The tune's name as the body of a C string, composed with the two
    /// flags: the exact bytes the native engine matches, nul included.
    pub fn to_cstr(self, fast_decode: bool, zero_latency: bool) -> (r: &'static str)
        ensures
            r@ == tune_cstr(self, fast_decode, zero_latency),
    {
        if !fast_decode && !zero_latency {
            match self {
                Tune::Untuned => "\0",
                Tune::Film => "film\0",
                Tune::Animation => "animation\0",
                Tune::Grain => "grain\0",
                Tune::StillImage => "stillimage\0",
                Tune::Psnr => "psnr\0",
                Tune::Ssim => "ssim\0",
            }
        } else if fast_decode && !zero_latency {
            match self {
                Tune::Untuned => "fastdecode\0",
                Tune::Film => "fastdecode,film\0",
                Tune::Animation => "fastdecode,animation\0",
                Tune::Grain => "fastdecode,grain\0",
                Tune::StillImage => "fastdecode,stillimage\0",
                Tune::Psnr => "fastdecode,psnr\0",
                Tune::Ssim => "fastdecode,ssim\0",
            }
        } else if !fast_decode && zero_latency {
            match self {
                Tune::Untuned => "zerolatency\0",
                Tune::Film => "zerolatency,film\0",
                Tune::Animation => "zerolatency,animation\0",
                Tune::Grain => "zerolatency,grain\0",
                Tune::StillImage => "zerolatency,stillimage\0",
                Tune::Psnr => "zerolatency,psnr\0",
                Tune::Ssim => "zerolatency,ssim\0",
            }
        } else {
            match self {
                Tune::Untuned => "fastdecode,zerolatency\0",
                Tune::Film => "fastdecode,zerolatency,film\0",
                Tune::Animation => "fastdecode,zerolatency,animation\0",
                Tune::Grain => "fastdecode,zerolatency,grain\0",
                Tune::StillImage => "fastdecode,zerolatency,stillimage\0",
                Tune::Psnr => "fastdecode,zerolatency,psnr\0",
                Tune::Ssim => "fastdecode,zerolatency,ssim\0",
            }
        }
    }
}

/// Law: every composed tune name is a well-formed C string body:
/// non-empty, ending in the nul terminator, with no nul anywhere before
/// it — so the empty tune is exactly the empty C string.
pub proof fn lemma_tune_cstr_nul(t: Tune, fast_decode: bool, zero_latency: bool)
    ensures
        tune_cstr(t, fast_decode, zero_latency).len() > 0,
        tune_cstr(t, fast_decode, zero_latency).last() == '\0',
        forall|i: int|
            0 <= i < tune_cstr(t, fast_decode, zero_latency).len() - 1 ==> #[trigger] tune_cstr(
                t,
                fast_decode,
                zero_latency,
            )[i] != '\0',
{
    reveal_strlit("\0");
    reveal_strlit("film\0");
    reveal_strlit("animation\0");
    reveal_strlit("grain\0");
    reveal_strlit("stillimage\0");
    reveal_strlit("psnr\0");
    reveal_strlit("ssim\0");
    reveal_strlit("fastdecode\0");
    reveal_strlit("fastdecode,film\0");
    reveal_strlit("fastdecode,animation\0");
    reveal_strlit("fastdecode,grain\0");
    reveal_strlit("fastdecode,stillimage\0");
    reveal_strlit("fastdecode,psnr\0");
    reveal_strlit("fastdecode,ssim\0");
    reveal_strlit("zerolatency\0");
    reveal_strlit("zerolatency,film\0");
    reveal_strlit("zerolatency,animation\0");
    reveal_strlit("zerolatency,grain\0");
    reveal_strlit("zerolatency,stillimage\0");
    reveal_strlit("zerolatency,psnr\0");
    reveal_strlit("zerolatency,ssim\0");
    reveal_strlit("fastdecode,zerolatency\0");
    reveal_strlit("fastdecode,zerolatency,film\0");
    reveal_strlit("fastdecode,zerolatency,animation\0");
    reveal_strlit("fastdecode,zerolatency,grain\0");
    reveal_strlit("fastdecode,zerolatency,stillimage\0");
    reveal_strlit("fastdecode,zerolatency,psnr\0");
    reveal_strlit("fastdecode,zerolatency,ssim\0");
}

} // verus!
