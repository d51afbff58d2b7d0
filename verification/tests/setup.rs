use x264::{Colorspace, Preset, Profile, Rational, Setup, Tune};

#[test]
fn setters_record_each_requested_option() {
    let setup = Setup::default()
        .fps(60, 1)
        .timebase(1, 90000)
        .annexb(false)
        .bitrate(2500)
        .fastfirstpass()
        .high();
    assert_eq!(setup.fps, Some(Rational { num: 60, den: 1 }));
    assert_eq!(setup.timebase, Some(Rational { num: 1, den: 90000 }));
    assert_eq!(setup.annexb, Some(false));
    assert_eq!(setup.bitrate, Some(2500));
    assert!(setup.fastfirstpass);
    assert_eq!(setup.profile, Some(Profile::High));
    assert!(setup.preset.is_none());
}

#[test]
fn preset_constructor_records_the_tuning() {
    let setup = Setup::preset(Preset::Veryfast, Tune::Film, true, false);
    assert_eq!(setup.preset, Some(Preset::Veryfast));
    assert_eq!(setup.tune, Tune::Film);
    assert!(setup.fast_decode);
    assert!(!setup.zero_latency);
    assert!(setup.fps.is_none());
    assert!(setup.bitrate.is_none());
}

#[test]
fn later_profile_choices_override_earlier_ones() {
    let setup = Setup::default().baseline().main();
    assert_eq!(setup.profile, Some(Profile::Main));
    let setup = setup.high();
    assert_eq!(setup.profile, Some(Profile::High));
}

#[test]
fn build_freezes_the_configuration_and_geometry() {
    let setup = Setup::preset(Preset::Medium, Tune::Untuned, false, true).fps(30, 1).bitrate(800);
    let params = setup.build(Colorspace::I420, 640, 480);
    assert_eq!(params.setup, setup);
    assert_eq!(params.csp, Colorspace::I420);
    assert_eq!(params.width, 640);
    assert_eq!(params.height, 480);
}
