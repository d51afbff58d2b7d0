use vstd::prelude::*;

verus! {

/// An encoder preset, which should handle most of the configuration.
#[allow(missing_docs)]
#[derive(Clone, Copy, Hash, Debug, Eq, PartialEq, Structural)]
pub enum Preset {
    Ultrafast,
    Superfast,
    Veryfast,
    Faster,
    Fast,
    Medium,
    Slow,
    Slower,
    Veryslow,
    Placebo,
}

/// The nul-terminated preset name the native engine recognizes.
pub open spec fn preset_cstr(p: Preset) -> Seq<char> {
    match p {
        Preset::Ultrafast => "ultrafast\0"@,
        Preset::Superfast => "superfast\0"@,
        Preset::Veryfast => "veryfast\0"@,
        Preset::Faster => "faster\0"@,
        Preset::Fast => "fast\0"@,
        Preset::Medium => "medium\0"@,
        Preset::Slow => "slow\0"@,
        Preset::Slower => "slower\0"@,
        Preset::Veryslow => "veryslow\0"@,
        Preset::Placebo => "placebo\0"@,
    }
}

impl Preset {
    /// The preset's name as the body of a C string: the exact bytes the
    /// native engine matches, nul terminator included.
    pub fn to_cstr(self) -> (r: &'static str)
        ensures
            r@ == preset_cstr(self),
    {
        match self {
            Preset::Ultrafast => "ultrafast\0",
            Preset::Superfast => "superfast\0",
            Preset::Veryfast => "veryfast\0",
            Preset::Faster => "faster\0",
            Preset::Fast => "fast\0",
            Preset::Medium => "medium\0",
            Preset::Slow => "slow\0",
            Preset::Slower => "slower\0",
            Preset::Veryslow => "veryslow\0",
            Preset::Placebo => "placebo\0",
        }
    }
}

/// Law: every preset name is a well-formed C string body: non-empty,
/// ending in the nul terminator, with no nul anywhere before it.
pub proof fn lemma_preset_cstr_nul(p: Preset)
    ensures
        preset_cstr(p).len() > 0,
        preset_cstr(p).last() == '\0',
        forall|i: int| 0 <= i < preset_cstr(p).len() - 1 ==> #[trigger] preset_cstr(p)[i] != '\0',
{
    reveal_strlit("ultrafast\0");
    reveal_strlit("superfast\0");
    reveal_strlit("veryfast\0");
    reveal_strlit("faster\0");
    reveal_strlit("fast\0");
    reveal_strlit("medium\0");
    reveal_strlit("slow\0");
    reveal_strlit("slower\0");
    reveal_strlit("veryslow\0");
    reveal_strlit("placebo\0");
}

} // verus!
