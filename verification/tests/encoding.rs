use x264::{Colorspace, Encoding, Modifier, Preset, Profile, Tune};

const ALL_LAYOUTS: [Colorspace; 15] = [
    Colorspace::I420,
    Colorspace::YV12,
    Colorspace::NV12,
    Colorspace::NV21,
    Colorspace::I422,
    Colorspace::YV16,
    Colorspace::NV16,
    Colorspace::YUYV,
    Colorspace::UYVY,
    Colorspace::V210,
    Colorspace::I444,
    Colorspace::YV24,
    Colorspace::BGR,
    Colorspace::BGRA,
    Colorspace::RGB,
];

#[test]
fn raw_roundtrip_recovers_base_layout_for_all_layouts() {
    for csp in ALL_LAYOUTS {
        for (hd, vf) in [(false, false), (true, false), (false, true), (true, true)] {
            let mut e = Encoding::from(csp);
            if hd {
                e = e.add(Modifier::HighDepth);
            }
            if vf {
                e = e.add(Modifier::VerticalFlip);
            }
            let raw = e.into_raw();
            let back = Encoding::from_raw(raw);
            assert_eq!(back.colorspace(), csp);
            assert_eq!(back.has(Modifier::HighDepth), hd);
            assert_eq!(back.has(Modifier::VerticalFlip), vf);
        }
    }
}

#[test]
fn layout_codes_are_packed_below_the_modifier_bits() {
    assert_eq!(Encoding::from(Colorspace::I420).into_raw(), 0x01);
    assert_eq!(Encoding::from(Colorspace::RGB).into_raw(), 0x0f);
    assert_eq!(Encoding::from(Colorspace::I420).add(Modifier::VerticalFlip).into_raw(), 0x1001);
    assert_eq!(Encoding::from(Colorspace::I420).add(Modifier::HighDepth).into_raw(), 0x2001);
    assert_eq!(
        Encoding::from(Colorspace::NV12)
            .add(Modifier::HighDepth)
            .add(Modifier::VerticalFlip)
            .into_raw(),
        0x3003
    );
}

#[test]
fn add_remove_has_toggle_one_modifier_at_a_time() {
    let e = Encoding::from(Colorspace::I422);
    assert!(!e.has(Modifier::HighDepth));
    assert!(!e.has(Modifier::VerticalFlip));
    let e = e.add(Modifier::HighDepth);
    assert!(e.has(Modifier::HighDepth));
    assert!(!e.has(Modifier::VerticalFlip));
    assert_eq!(e.colorspace(), Colorspace::I422);
    let e = e.add(Modifier::VerticalFlip).remove(Modifier::HighDepth);
    assert!(!e.has(Modifier::HighDepth));
    assert!(e.has(Modifier::VerticalFlip));
    assert_eq!(e.colorspace(), Colorspace::I422);
}

#[test]
fn raw_validity_accepts_exactly_the_packable_values() {
    assert!(Encoding::raw_is_valid(0x01));
    assert!(Encoding::raw_is_valid(0x0f));
    assert!(Encoding::raw_is_valid(0x2003));
    assert!(Encoding::raw_is_valid(0x300f));
    assert!(!Encoding::raw_is_valid(0)); // no layout in the residual
    assert!(!Encoding::raw_is_valid(0x10)); // residual past the layout set
    assert!(!Encoding::raw_is_valid(0x1000)); // a modifier bit alone
    assert!(!Encoding::raw_is_valid(-1));
    assert!(!Encoding::raw_is_valid(0x4001)); // a bit above the modifiers
}

#[test]
fn preset_names_are_nul_terminated_c_strings() {
    assert_eq!(Preset::Ultrafast.to_cstr(), "ultrafast\0");
    assert_eq!(Preset::Superfast.to_cstr(), "superfast\0");
    assert_eq!(Preset::Veryfast.to_cstr(), "veryfast\0");
    assert_eq!(Preset::Faster.to_cstr(), "faster\0");
    assert_eq!(Preset::Fast.to_cstr(), "fast\0");
    assert_eq!(Preset::Medium.to_cstr(), "medium\0");
    assert_eq!(Preset::Slow.to_cstr(), "slow\0");
    assert_eq!(Preset::Slower.to_cstr(), "slower\0");
    assert_eq!(Preset::Veryslow.to_cstr(), "veryslow\0");
    assert_eq!(Preset::Placebo.to_cstr(), "placebo\0");
}

#[test]
fn tune_names_compose_with_both_flags_by_commas() {
    assert_eq!(Tune::Untuned.to_cstr(false, false), "\0");
    assert_eq!(Tune::Film.to_cstr(false, false), "film\0");
    assert_eq!(Tune::Untuned.to_cstr(true, false), "fastdecode\0");
    assert_eq!(Tune::Grain.to_cstr(true, false), "fastdecode,grain\0");
    assert_eq!(Tune::Untuned.to_cstr(false, true), "zerolatency\0");
    assert_eq!(Tune::Psnr.to_cstr(false, true), "zerolatency,psnr\0");
    assert_eq!(Tune::Untuned.to_cstr(true, true), "fastdecode,zerolatency\0");
    assert_eq!(Tune::StillImage.to_cstr(true, true), "fastdecode,zerolatency,stillimage\0");
    assert_eq!(Tune::Animation.to_cstr(false, false), "animation\0");
    assert_eq!(Tune::Ssim.to_cstr(true, false), "fastdecode,ssim\0");
}

#[test]
fn profile_names_are_nul_terminated_c_strings() {
    assert_eq!(Profile::Baseline.to_cstr(), "baseline\0");
    assert_eq!(Profile::Main.to_cstr(), "main\0");
    assert_eq!(Profile::High.to_cstr(), "high\0");
}
