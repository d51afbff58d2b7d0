use x264::{Colorspace, Data, Encoder, Encoding, Flush, Image, Picture, Priority, Setup, Unit};

#[test]
fn unit_priority_classification_maps_codes_ascending() {
    let payload = [1u8, 2, 3];
    assert_eq!(Unit::from_raw(0, &payload).priority(), Priority::Disposable);
    assert_eq!(Unit::from_raw(1, &payload).priority(), Priority::Low);
    assert_eq!(Unit::from_raw(2, &payload).priority(), Priority::High);
    assert_eq!(Unit::from_raw(3, &payload).priority(), Priority::Highest);
    // An unrecognized code maps to the highest level as a conservative default.
    assert_eq!(Unit::from_raw(99, &payload).priority(), Priority::Highest);
    assert_eq!(Unit::from_raw(-7, &payload).priority(), Priority::Highest);
}

#[test]
fn entirety_of_zero_units_is_empty() {
    let data = Data::from_raw_parts(Vec::new());
    assert_eq!(data.len(), 0);
    assert!(data.entirety().is_empty());
}

#[test]
fn entirety_concatenates_payloads_and_sums_their_lengths() {
    let a = [1u8, 2, 3];
    let b = [4u8, 5];
    let c: [u8; 0] = [];
    let units = vec![Unit::from_raw(3, &a), Unit::from_raw(2, &b), Unit::from_raw(0, &c)];
    let data = Data::from_raw_parts(units);
    assert_eq!(data.len(), 3);
    let whole = data.entirety();
    assert_eq!(whole, vec![1, 2, 3, 4, 5]);
    let total: usize =
        (0..data.len()).map(|i| data.unit(i).payload().len()).sum();
    assert_eq!(whole.len(), total);
    assert_eq!(data.unit(1).payload(), &b);
    assert_eq!(data.unit(1).priority(), Priority::High);
}

#[test]
fn picture_copies_the_frame_metadata_out() {
    let p = Picture::from_raw(true, 42, 40);
    assert!(p.keyframe());
    assert_eq!(p.pts(), 42);
    assert_eq!(p.dts(), 40);
    let q = Picture::from_raw(false, -1, -9);
    assert!(!q.keyframe());
    assert_eq!(q.pts(), -1);
    assert_eq!(q.dts(), -9);
}

#[test]
fn encoder_accepts_only_matching_geometry() {
    let enc = Encoder::from_raw(6, 2, Encoding::from(Colorspace::RGB));
    let exact = vec![0u8; 3 * 6 * 2];
    let img = Image::rgb(6, 2, &exact).unwrap();
    assert!(enc.accepts(&img));
    assert_eq!(enc.width(), 6);
    assert_eq!(enc.height(), 2);
    assert_eq!(enc.encoding().colorspace(), Colorspace::RGB);

    let other = vec![0u8; 3 * 2 * 6];
    let wrong_dims = Image::rgb(2, 6, &other).unwrap();
    assert!(!enc.accepts(&wrong_dims));
    let bgr = vec![0u8; 3 * 6 * 2];
    let wrong_csp = Image::bgr(6, 2, &bgr).unwrap();
    assert!(!enc.accepts(&wrong_csp));
}

#[test]
fn negative_native_status_is_the_uniform_failure() {
    let payload = [9u8];
    let pic = Picture::from_raw(false, 0, 0);
    assert!(Encoder::encode_result(-1, vec![Unit::from_raw(3, &payload)], pic).is_err());
    let ok = Encoder::encode_result(0, vec![Unit::from_raw(3, &payload)], pic).unwrap();
    assert_eq!(ok.0.len(), 1);
    assert_eq!(ok.1.pts(), 0);

    assert!(Encoder::headers_result(-3, vec![]).is_err());
    assert_eq!(Encoder::headers_result(5, vec![Unit::from_raw(3, &payload)]).unwrap().len(), 1);
}

#[test]
fn flush_stops_exactly_on_a_zero_delayed_count() {
    let enc = Encoder::from_raw(4, 4, Encoding::from(Colorspace::I420));
    let flush: Flush = enc.flush();
    assert_eq!(flush.encoder, enc);
    assert!(flush.exhausted(0));
    assert!(!flush.exhausted(3));

    let pic = Picture::from_raw(false, 7, 7);
    assert!(flush.step(0, 0, vec![], pic).is_none());
    let step = flush.step(2, 0, vec![], pic).unwrap().unwrap();
    assert_eq!(step.0.len(), 0);
    assert_eq!(step.1.pts(), 7);
    assert!(flush.step(2, -1, vec![], pic).unwrap().is_err());
}

#[test]
fn builder_starts_from_the_native_defaults() {
    let setup = Encoder::builder();
    assert_eq!(setup, Setup::default());
    assert!(setup.preset.is_none());
    assert!(setup.fps.is_none());
    assert!(setup.annexb.is_none());
    assert!(setup.profile.is_none());
}
