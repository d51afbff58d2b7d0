use x264::{Colorspace, Encoding, Image, Modifier, Plane};

fn enc(csp: Colorspace) -> Encoding {
    Encoding::from(csp)
}

#[test]
fn minimal_planar_420_geometry_is_accepted() {
    // I420 at 4x4: luma 4 bytes/row x 4 rows, chroma 2 bytes/row x 2 rows.
    let y = [0u8; 16];
    let u = [0u8; 4];
    let v = [0u8; 4];
    let planes = [
        Plane { stride: 4, data: &y },
        Plane { stride: 2, data: &u },
        Plane { stride: 2, data: &v },
    ];
    let img = Image::new(enc(Colorspace::I420), 4, 4, &planes).unwrap();
    assert_eq!(img.width(), 4);
    assert_eq!(img.height(), 4);
    assert_eq!(img.encoding().colorspace(), Colorspace::I420);
}

#[test]
fn shrinking_one_stride_by_one_is_rejected() {
    let y = [0u8; 16];
    let u = [0u8; 4];
    let v = [0u8; 4];
    let planes = [
        Plane { stride: 3, data: &y },
        Plane { stride: 2, data: &u },
        Plane { stride: 2, data: &v },
    ];
    assert!(Image::new(enc(Colorspace::I420), 4, 4, &planes).is_err());
}

#[test]
fn shrinking_one_plane_by_one_row_is_rejected() {
    let y = [0u8; 16];
    let u = [0u8; 4];
    let v = [0u8; 2]; // one row of two bytes instead of two rows
    let planes = [
        Plane { stride: 4, data: &y },
        Plane { stride: 2, data: &u },
        Plane { stride: 2, data: &v },
    ];
    assert!(Image::new(enc(Colorspace::I420), 4, 4, &planes).is_err());
}

#[test]
fn wrong_plane_count_is_rejected() {
    let y = [0u8; 16];
    let u = [0u8; 4];
    let planes = [Plane { stride: 4, data: &y }, Plane { stride: 2, data: &u }];
    assert!(Image::new(enc(Colorspace::I420), 4, 4, &planes).is_err());
}

#[test]
fn minimal_nv12_and_i422_geometry_is_accepted() {
    // NV12 at 4x4: luma 4x4, one interleaved chroma plane 4 bytes/row x 2 rows.
    let y = [0u8; 16];
    let uv = [0u8; 8];
    let planes = [Plane { stride: 4, data: &y }, Plane { stride: 4, data: &uv }];
    assert!(Image::new(enc(Colorspace::NV12), 4, 4, &planes).is_ok());

    // I422 at 4x4: luma 4x4, chroma 2 bytes/row x 4 rows each.
    let y = [0u8; 16];
    let u = [0u8; 8];
    let v = [0u8; 8];
    let planes = [
        Plane { stride: 4, data: &y },
        Plane { stride: 2, data: &u },
        Plane { stride: 2, data: &v },
    ];
    assert!(Image::new(enc(Colorspace::I422), 4, 4, &planes).is_ok());
}

#[test]
fn high_depth_doubles_the_required_stride() {
    // I444 at 2x2 with the high-depth modifier: 2 samples of 2 bytes per row.
    let small = [0u8; 4]; // stride 2, would fit only 8-bit samples
    let wide = [0u8; 8]; // stride 4, fits 16-bit samples
    let narrow = [
        Plane { stride: 2, data: &small },
        Plane { stride: 2, data: &small },
        Plane { stride: 2, data: &small },
    ];
    let fits = [
        Plane { stride: 4, data: &wide },
        Plane { stride: 4, data: &wide },
        Plane { stride: 4, data: &wide },
    ];
    let deep = enc(Colorspace::I444).add(Modifier::HighDepth);
    assert!(Image::new(deep, 2, 2, &narrow).is_err());
    assert!(Image::new(deep, 2, 2, &fits).is_ok());
    assert!(Image::new(enc(Colorspace::I444), 2, 2, &narrow).is_ok());
}

#[test]
fn minimal_packed_yuv_geometry_is_accepted() {
    // YUYV at 4x2: one plane, two bytes per pixel, no subsampling divisor.
    let buf = [0u8; 16];
    let planes = [Plane { stride: 8, data: &buf }];
    assert!(Image::new(enc(Colorspace::YUYV), 4, 2, &planes).is_ok());
    let tight = [Plane { stride: 7, data: &buf }];
    assert!(Image::new(enc(Colorspace::YUYV), 4, 2, &tight).is_err());

    // V210 at 2x1: one plane, four bytes per pixel unit.
    let buf = [0u8; 8];
    let planes = [Plane { stride: 8, data: &buf }];
    assert!(Image::new(enc(Colorspace::V210), 2, 1, &planes).is_ok());

    // NV16 at 4x2: a luma plane and an interleaved chroma plane, both
    // full height.
    let y = [0u8; 8];
    let uv = [0u8; 8];
    let planes = [Plane { stride: 4, data: &y }, Plane { stride: 4, data: &uv }];
    assert!(Image::new(enc(Colorspace::NV16), 4, 2, &planes).is_ok());
}

#[test]
fn width_not_a_multiple_of_the_subsampling_divisor_is_rejected() {
    // A 4:2:0 layout with width 3 and height 4: width breaks the divisor.
    let y = [0u8; 16];
    let u = [0u8; 8];
    let v = [0u8; 8];
    let planes = [
        Plane { stride: 4, data: &y },
        Plane { stride: 4, data: &u },
        Plane { stride: 4, data: &v },
    ];
    assert!(Image::new(enc(Colorspace::I420), 3, 4, &planes).is_err());
}

#[test]
fn packed_rgb_exact_length_is_accepted_and_off_by_one_rejected() {
    let exact = vec![0u8; 3 * 4 * 3];
    let img = Image::rgb(4, 3, &exact).unwrap();
    assert_eq!(img.width(), 4);
    assert_eq!(img.height(), 3);
    assert_eq!(img.encoding().colorspace(), Colorspace::RGB);

    let short = vec![0u8; 3 * 4 * 3 - 1];
    assert!(Image::rgb(4, 3, &short).is_err());
    let long = vec![0u8; 3 * 4 * 3 + 1];
    assert!(Image::rgb(4, 3, &long).is_err());
}

#[test]
fn packed_bgr_and_bgra_check_their_own_byte_lengths() {
    let bgr_exact = vec![0u8; 3 * 2 * 2];
    let img = Image::bgr(2, 2, &bgr_exact).unwrap();
    assert_eq!(img.encoding().colorspace(), Colorspace::BGR);
    assert!(Image::bgr(2, 2, &vec![0u8; 3 * 2 * 2 - 1]).is_err());
    assert!(Image::bgr(2, 2, &vec![0u8; 3 * 2 * 2 + 1]).is_err());

    let bgra_exact = vec![0u8; 4 * 2 * 2];
    let img = Image::bgra(2, 2, &bgra_exact).unwrap();
    assert_eq!(img.encoding().colorspace(), Colorspace::BGRA);
    assert!(Image::bgra(2, 2, &vec![0u8; 4 * 2 * 2 - 1]).is_err());
    assert!(Image::bgra(2, 2, &vec![0u8; 4 * 2 * 2 + 1]).is_err());
}

#[test]
fn packed_constructors_reject_degenerate_widths() {
    let empty: [u8; 0] = [];
    assert!(Image::rgb(0, 0, &empty).is_err());
    assert!(Image::rgb(-1, 2, &empty).is_err());
    assert!(Image::rgb(2, -1, &empty).is_err());
}

#[test]
fn new_unchecked_builds_the_image_verbatim() {
    let data = vec![0u8; 3 * 2 * 2];
    let planes = [Plane { stride: 6, data: &data }];
    let img = Image::new_unchecked(enc(Colorspace::RGB), 2, 2, &planes);
    assert_eq!(img.width(), 2);
    assert_eq!(img.height(), 2);
    assert_eq!(img.encoding().colorspace(), Colorspace::RGB);
}
