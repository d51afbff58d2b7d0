use vstd::prelude::*;
use vstd::arithmetic::div_mod::lemma_div_multiples_vanish;
use vstd::slice::slice_to_vec;
use crate::colorspace::{Colorspace, Encoding, Modifier};
use crate::error::Error;

verus! {

/// A single plane of an image: one contiguous memory region holding one
/// color or luma component, with its own row stride.
#[derive(Clone, Copy)]
pub struct Plane<'a> {
    /// The plane's stride (the number of bytes for each row).
    pub stride: i32,
    /// The plane's pixel data.
    pub data: &'a [u8],
}

/// How many planes a layout stores its components in.
pub open spec fn plane_count(c: Colorspace) -> int {
    match c {
        Colorspace::I420 => 3,
        Colorspace::YV12 => 3,
        Colorspace::NV12 => 2,
        Colorspace::NV21 => 2,
        Colorspace::I422 => 3,
        Colorspace::YV16 => 3,
        Colorspace::NV16 => 2,
        Colorspace::YUYV => 1,
        Colorspace::UYVY => 1,
        Colorspace::V210 => 1,
        Colorspace::I444 => 3,
        Colorspace::YV24 => 3,
        Colorspace::BGR => 1,
        Colorspace::BGRA => 1,
        Colorspace::RGB => 1,
    }
}

/// The horizontal subsampling divisor: the image width must be a multiple
/// of this.
pub open spec fn width_div(c: Colorspace) -> int {
    match c {
        Colorspace::I420 => 2,
        Colorspace::YV12 => 2,
        Colorspace::NV12 => 2,
        Colorspace::NV21 => 2,
        Colorspace::I422 => 2,
        Colorspace::YV16 => 2,
        Colorspace::NV16 => 2,
        Colorspace::YUYV => 1,
        Colorspace::UYVY => 1,
        Colorspace::V210 => 1,
        Colorspace::I444 => 1,
        Colorspace::YV24 => 1,
        Colorspace::BGR => 1,
        Colorspace::BGRA => 1,
        Colorspace::RGB => 1,
    }
}

/// The vertical subsampling divisor: the image height must be a multiple
/// of this.
pub open spec fn height_div(c: Colorspace) -> int {
    match c {
        Colorspace::I420 => 2,
        Colorspace::YV12 => 2,
        Colorspace::NV12 => 2,
        Colorspace::NV21 => 2,
        Colorspace::I422 => 1,
        Colorspace::YV16 => 1,
        Colorspace::NV16 => 1,
        Colorspace::YUYV => 1,
        Colorspace::UYVY => 1,
        Colorspace::V210 => 1,
        Colorspace::I444 => 1,
        Colorspace::YV24 => 1,
        Colorspace::BGR => 1,
        Colorspace::BGRA => 1,
        Colorspace::RGB => 1,
    }
}

/// Per-plane width scale: how many bytes one sample row unit takes in
/// plane `i`, before the depth factor.
pub open spec fn width_scales(c: Colorspace) -> Seq<int> {
    match c {
        Colorspace::I420 => seq![2, 1, 1],
        Colorspace::YV12 => seq![2, 1, 1],
        Colorspace::NV12 => seq![2, 2],
        Colorspace::NV21 => seq![2, 2],
        Colorspace::I422 => seq![2, 1, 1],
        Colorspace::YV16 => seq![2, 1, 1],
        Colorspace::NV16 => seq![2, 2],
        Colorspace::YUYV => seq![2],
        Colorspace::UYVY => seq![2],
        Colorspace::V210 => seq![4],
        Colorspace::I444 => seq![1, 1, 1],
        Colorspace::YV24 => seq![1, 1, 1],
        Colorspace::BGR => seq![3],
        Colorspace::BGRA => seq![4],
        Colorspace::RGB => seq![3],
    }
}

/// Per-plane height scale: how many subsampled row units plane `i` holds.
pub open spec fn height_scales(c: Colorspace) -> Seq<int> {
    match c {
        Colorspace::I420 => seq![2, 1, 1],
        Colorspace::YV12 => seq![2, 1, 1],
        Colorspace::NV12 => seq![2, 1],
        Colorspace::NV21 => seq![2, 1],
        Colorspace::I422 => seq![1, 1, 1],
        Colorspace::YV16 => seq![1, 1, 1],
        Colorspace::NV16 => seq![1, 1],
        Colorspace::YUYV => seq![1],
        Colorspace::UYVY => seq![1],
        Colorspace::V210 => seq![1],
        Colorspace::I444 => seq![1, 1, 1],
        Colorspace::YV24 => seq![1, 1, 1],
        Colorspace::BGR => seq![1],
        Colorspace::BGRA => seq![1],
        Colorspace::RGB => seq![1],
    }
}

/// How many bytes one sample takes under this encoding.
pub open spec fn bytes_per_sample(e: Encoding) -> int {
    if e.high_depth {
        2
    } else {
        1
    }
}

/// The least stride plane `i` may have for a `w`-wide image.
pub open spec fn min_stride(e: Encoding, w: int, i: int) -> int {
    bytes_per_sample(e) * (w / width_div(e.csp)) * width_scales(e.csp)[i]
}

/// The least number of rows plane `i` must hold for an `h`-high image.
pub open spec fn min_rows(e: Encoding, h: int, i: int) -> int {
    (h / height_div(e.csp)) * height_scales(e.csp)[i]
}

/// Whether plane `i` of an image is laid out acceptably: a positive
/// stride of at least the minimum, and enough whole rows in its buffer.
pub open spec fn plane_ok<'a>(e: Encoding, w: int, h: int, i: int, p: Plane<'a>) -> bool {
    &&& 1 <= p.stride
    &&& min_stride(e, w, i) <= p.stride
    &&& min_rows(e, h, i) <= p.data@.len() as int / (p.stride as int)
}

/// Whether a plane set matches a layout's geometry: the right number of
/// planes, dimensions divisible by the subsampling divisors, and every
/// plane wide and tall enough.
pub open spec fn valid_geometry<'a>(e: Encoding, w: int, h: int, planes: Seq<Plane<'a>>) -> bool {
    &&& 0 <= w
    &&& 0 <= h
    &&& planes.len() == plane_count(e.csp)
    &&& w % width_div(e.csp) == 0
    &&& h % height_div(e.csp) == 0
    &&& forall|i: int| 0 <= i < planes.len() ==> plane_ok(e, w, h, i, #[trigger] planes[i])
}

/// Bounds on the layout tables, for any layout.
pub proof fn lemma_layout_bounds(c: Colorspace)
    ensures
        1 <= plane_count(c) <= 3,
        1 <= width_div(c) <= 2,
        1 <= height_div(c) <= 2,
        width_scales(c).len() == plane_count(c),
        height_scales(c).len() == plane_count(c),
        forall|i: int|
            0 <= i < plane_count(c) ==> 1 <= #[trigger] width_scales(c)[i] <= 4,
        forall|i: int|
            0 <= i < plane_count(c) ==> 1 <= #[trigger] height_scales(c)[i] <= 2,
{
}

fn plane_count_of(c: Colorspace) -> (r: usize)
    ensures
        r == plane_count(c),
{
    match c {
        Colorspace::I420 => 3,
        Colorspace::YV12 => 3,
        Colorspace::NV12 => 2,
        Colorspace::NV21 => 2,
        Colorspace::I422 => 3,
        Colorspace::YV16 => 3,
        Colorspace::NV16 => 2,
        Colorspace::YUYV => 1,
        Colorspace::UYVY => 1,
        Colorspace::V210 => 1,
        Colorspace::I444 => 3,
        Colorspace::YV24 => 3,
        Colorspace::BGR => 1,
        Colorspace::BGRA => 1,
        Colorspace::RGB => 1,
    }
}

fn width_div_of(c: Colorspace) -> (r: i32)
    ensures
        r == width_div(c),
        1 <= r <= 2,
{
    match c {
        Colorspace::I420 => 2,
        Colorspace::YV12 => 2,
        Colorspace::NV12 => 2,
        Colorspace::NV21 => 2,
        Colorspace::I422 => 2,
        Colorspace::YV16 => 2,
        Colorspace::NV16 => 2,
        _ => 1,
    }
}

fn height_div_of(c: Colorspace) -> (r: i32)
    ensures
        r == height_div(c),
        1 <= r <= 2,
{
    match c {
        Colorspace::I420 => 2,
        Colorspace::YV12 => 2,
        Colorspace::NV12 => 2,
        Colorspace::NV21 => 2,
        _ => 1,
    }
}

fn width_scale_of(c: Colorspace, i: usize) -> (r: u64)
    requires
        i < plane_count(c),
    ensures
        r == width_scales(c)[i as int],
        1 <= r <= 4,
{
    match c {
        Colorspace::I420 | Colorspace::YV12 | Colorspace::I422 | Colorspace::YV16 => {
            if i == 0 {
                2
            } else {
                1
            }
        },
        Colorspace::NV12 | Colorspace::NV21 | Colorspace::NV16 => 2,
        Colorspace::YUYV | Colorspace::UYVY => 2,
        Colorspace::V210 | Colorspace::BGRA => 4,
        Colorspace::I444 | Colorspace::YV24 => 1,
        Colorspace::BGR | Colorspace::RGB => 3,
    }
}

fn height_scale_of(c: Colorspace, i: usize) -> (r: u64)
    requires
        i < plane_count(c),
    ensures
        r == height_scales(c)[i as int],
        1 <= r <= 2,
{
    match c {
        Colorspace::I420 | Colorspace::YV12 => {
            if i == 0 {
                2
            } else {
                1
            }
        },
        Colorspace::NV12 | Colorspace::NV21 => {
            if i == 0 {
                2
            } else {
                1
            }
        },
        _ => 1,
    }
}

/// Input image data to be given to the encoder.
///
/// An image borrows its plane buffers; it never copies or owns pixel
/// memory, and must not outlive the buffers it was built from.
pub struct Image<'a> {
    /// The encoding the planes are laid out in.
    pub encoding: Encoding,
    /// The width of the image in pixels.
    pub width: i32,
    /// The height of the image in pixels.
    pub height: i32,
    /// The borrowed planes, one per component group of the layout.
    pub planes: Vec<Plane<'a>>,
}

impl<'a> Image<'a> {
    /// The image's structural invariant: its planes match its layout's
    /// geometry.
    pub open spec fn wf(self) -> bool {
        valid_geometry(self.encoding, self.width as int, self.height as int, self.planes@)
    }

    /// Makes a new image with the given information, validating the plane
    /// geometry first: it fails exactly when the planes do not match the
    /// layout's plane count, the dimensions break the subsampling
    /// divisors, or some plane's stride or row count is too small.
    pub fn new(format: Encoding, width: i32, height: i32, planes: &[Plane<'a>]) -> (r: Result<
        Image<'a>,
        Error,
    >)
        ensures
            match r {
                Ok(img) => {
                    &&& valid_geometry(format, width as int, height as int, planes@)
                    &&& img.encoding == format
                    &&& img.width == width
                    &&& img.height == height
                    &&& img.planes@ == planes@
                    &&& img.wf()
                },
                Err(_) => !valid_geometry(format, width as int, height as int, planes@),
            },
    {
        if geometry_ok(format, width, height, planes) {
            Ok(Image { encoding: format, width, height, planes: slice_to_vec(planes) })
        } else {
            Err(Error)
        }
    }

    /// Makes a new image with the given planes and colorspace; the caller
    /// supplies the geometry guarantee instead of having it checked.
    pub fn new_unchecked(format: Encoding, width: i32, height: i32, planes: &[Plane<'a>]) -> (r:
        Image<'a>)
        requires
            valid_geometry(format, width as int, height as int, planes@),
        ensures
            r.encoding == format,
            r.width == width,
            r.height == height,
            r.planes@ == planes@,
            r.wf(),
    {
        Image { encoding: format, width, height, planes: slice_to_vec(planes) }
    }

    /// Makes a new packed BGR image, assuming there is no row padding;
    /// the buffer must hold exactly three bytes per pixel.
    pub fn bgr(width: i32, height: i32, data: &'a [u8]) -> (r: Result<Image<'a>, Error>)
        ensures
            packed_result(Colorspace::BGR, 3, width, height, data@, r),
    {
        Self::packed(Colorspace::BGR, 3, width, height, data)
    }

    /// Makes a new packed RGB image, assuming there is no row padding;
    /// the buffer must hold exactly three bytes per pixel.
    pub fn rgb(width: i32, height: i32, data: &'a [u8]) -> (r: Result<Image<'a>, Error>)
        ensures
            packed_result(Colorspace::RGB, 3, width, height, data@, r),
    {
        Self::packed(Colorspace::RGB, 3, width, height, data)
    }

    /// Makes a new packed BGRA image, assuming there is no row padding;
    /// the buffer must hold exactly four bytes per pixel.
    pub fn bgra(width: i32, height: i32, data: &'a [u8]) -> (r: Result<Image<'a>, Error>)
        ensures
            packed_result(Colorspace::BGRA, 4, width, height, data@, r),
    {
        Self::packed(Colorspace::BGRA, 4, width, height, data)
    }

    /// Shared body of the packed convenience constructors: `bpp` bytes per
    /// pixel, a single plane, and an exact-length buffer.
    fn packed(csp: Colorspace, bpp: i32, width: i32, height: i32, data: &'a [u8]) -> (r: Result<
        Image<'a>,
        Error,
    >)
        requires
            csp == Colorspace::BGR || csp == Colorspace::RGB || csp == Colorspace::BGRA,
            bpp == width_scales(csp)[0],
        ensures
            packed_result(csp, bpp as int, width, height, data@, r),
    {
        if width < 1 || height < 0 {
            return Err(Error);
        }
        proof {
            lemma_layout_bounds(csp);
            assert(1 <= width_scales(csp)[0] <= 4);
        }
        let bpp64: u64 = bpp as u64;
        let w64: u64 = width as u64;
        let h64: u64 = height as u64;
        proof {
            assert(bpp64 * w64 <= 4 * 0x7fffffffu64) by (nonlinear_arith)
                requires
                    bpp64 <= 4 && w64 <= 0x7fffffffu64,
            ;
        }
        let stride64: u64 = bpp64 * w64;
        if stride64 > 0x7fffffff {
            return Err(Error);
        }
        proof {
            assert(stride64 * h64 <= 0x7fffffffu64 * 0x7fffffffu64) by (nonlinear_arith)
                requires
                    stride64 <= 0x7fffffffu64 && h64 <= 0x7fffffffu64,
            ;
        }
        let need: u64 = stride64 * h64;
        if (data.len() as u64) != need {
            return Err(Error);
        }
        let stride: i32 = stride64 as i32;
        let plane = Plane { stride, data };
        let planes = [plane];
        let format = Encoding { csp, high_depth: false, vflip: false };
        proof {
            let w = width as int;
            let h = height as int;
            let s = stride as int;
            assert(s == bpp * w);
            assert(data@.len() == s * h);
            assert(s >= 1 * 1) by (nonlinear_arith)
                requires
                    s == bpp * w && bpp >= 1 && w >= 1,
            ;
            lemma_div_multiples_vanish(h, s);
            assert(s * h == h * s) by (nonlinear_arith);
            assert(data@.len() as int / s == h);
            assert(planes@ =~= seq![plane]);
            assert(width_div(csp) == 1 && height_div(csp) == 1 && bytes_per_sample(format) == 1);
            assert(w / 1 == w && h / 1 == h);
            assert(min_stride(format, w, 0) == 1 * w * bpp);
            assert(1 * w * bpp == bpp * w) by (nonlinear_arith);
            assert(min_rows(format, h, 0) == h * 1);
            assert(plane_ok(format, w, h, 0, plane));
            assert(valid_geometry(format, w, h, planes@));
        }
        Ok(Self::new_unchecked(format, width, height, planes.as_slice()))
    }

    // Getters

    /// The width of the image.
    pub fn width(&self) -> (r: i32)
        ensures
            r == self.width,
    {
        self.width
    }

    /// The height of the image.
    pub fn height(&self) -> (r: i32)
        ensures
            r == self.height,
    {
        self.height
    }

    /// The encoding of the image.
    pub fn encoding(&self) -> (r: Encoding)
        ensures
            r == self.encoding,
    {
        self.encoding
    }
}

/// What a packed convenience constructor returns: an image exactly when
/// the buffer length is exactly `bpp` bytes per pixel with no padding.
pub open spec fn packed_result<'a>(
    csp: Colorspace,
    bpp: int,
    width: i32,
    height: i32,
    data: Seq<u8>,
    r: Result<Image<'a>, Error>,
) -> bool {
    match r {
        Ok(img) => {
            &&& packed_exact(bpp, width as int, height as int, data.len() as int)
            &&& img.encoding == (Encoding { csp, high_depth: false, vflip: false })
            &&& img.width == width
            &&& img.height == height
            &&& img.planes@.len() == 1
            &&& img.planes@[0].stride == bpp * width
            &&& img.planes@[0].data@ == data
            &&& img.wf()
        },
        Err(_) => !packed_exact(bpp, width as int, height as int, data.len() as int),
    }
}

/// Whether a packed buffer has exactly the documented byte length for the
/// given dimensions: `bpp` bytes per pixel, a positive width whose row
/// fits the native stride type, and no padding at all.
pub open spec fn packed_exact(bpp: int, w: int, h: int, len: int) -> bool {
    &&& 1 <= w
    &&& 0 <= h
    &&& bpp * w <= i32::MAX
    &&& len == bpp * w * h
}

/// Checks a plane set against a layout's geometry.
fn geometry_ok(format: Encoding, width: i32, height: i32, planes: &[Plane<'_>]) -> (r: bool)
    ensures
        r == valid_geometry(format, width as int, height as int, planes@),
{
    if width < 0 || height < 0 {
        return false;
    }
    let csp = format.colorspace();
    if planes.len() != plane_count_of(csp) {
        return false;
    }
    let wm = width_div_of(csp);
    let hm = height_div_of(csp);
    if width % wm != 0 || height % hm != 0 {
        return false;
    }
    let depth: u64 = if format.has(Modifier::HighDepth) {
        2
    } else {
        1
    };
    let wq: u64 = (width / wm) as u64;
    let hq: u64 = (height / hm) as u64;
    let mut i: usize = 0;
    while i < planes.len()
        invariant
            0 <= i <= planes@.len(),
            planes@.len() == plane_count(csp),
            csp == format.csp,
            depth == bytes_per_sample(format),
            0 <= width,
            0 <= height,
            wq == width as int / width_div(csp),
            hq == height as int / height_div(csp),
            wq <= 0x7fffffffu64,
            hq <= 0x7fffffffu64,
            forall|j: int|
                0 <= j < i ==> plane_ok(
                    format,
                    width as int,
                    height as int,
                    j,
                    #[trigger] planes@[j],
                ),
        decreases planes@.len() - i,
    {
        let p = planes[i];
        if p.stride < 1 {
            return false;
        }
        let ws: u64 = width_scale_of(csp, i);
        let hs: u64 = height_scale_of(csp, i);
        proof {
            assert(depth * wq <= 2 * 0x7fffffffu64) by (nonlinear_arith)
                requires
                    depth <= 2 && wq <= 0x7fffffffu64,
            ;
            assert(depth * wq * ws <= 0xfffffffeu64 * 4) by (nonlinear_arith)
                requires
                    depth * wq <= 0xfffffffeu64 && ws <= 4,
            ;
            assert(hq * hs <= 0x7fffffffu64 * 2) by (nonlinear_arith)
                requires
                    hq <= 0x7fffffffu64 && hs <= 2,
            ;
        }
        let needed_stride: u64 = depth * wq * ws;
        if (p.stride as u64) < needed_stride {
            return false;
        }
        let rows: u64 = (p.data.len() as u64) / (p.stride as u64);
        if rows < hq * hs {
            return false;
        }
        i += 1;
    }
    true
}

/// Law: for a layout-conforming width and height, planes of exactly the
/// minimum stride whose buffers hold exactly the minimum number of rows
/// are accepted.
pub proof fn lemma_minimal_geometry<'a>(e: Encoding, w: int, h: int, planes: Seq<Plane<'a>>)
    requires
        1 <= w,
        1 <= h,
        w % width_div(e.csp) == 0,
        h % height_div(e.csp) == 0,
        planes.len() == plane_count(e.csp),
        forall|i: int|
            0 <= i < planes.len() ==> (#[trigger] planes[i]).stride == min_stride(e, w, i),
        forall|i: int|
            0 <= i < planes.len() ==> (#[trigger] planes[i]).data@.len() == min_stride(e, w, i)
                * min_rows(e, h, i),
    ensures
        valid_geometry(e, w, h, planes),
{
    lemma_layout_bounds(e.csp);
    assert forall|i: int| 0 <= i < planes.len() implies plane_ok(e, w, h, i, #[trigger] planes[i])
        by {
        let s = min_stride(e, w, i);
        let rows = min_rows(e, h, i);
        let wq = w / width_div(e.csp);
        let hq = h / height_div(e.csp);
        assert(1 <= wq && wq <= w);
        assert(1 <= hq && hq <= h);
        assert(s >= 1) by (nonlinear_arith)
            requires
                s == bytes_per_sample(e) * wq * width_scales(e.csp)[i] && bytes_per_sample(e) >= 1
                    && wq >= 1 && width_scales(e.csp)[i] >= 1,
        ;
        assert(rows >= 1) by (nonlinear_arith)
            requires
                rows == hq * height_scales(e.csp)[i] && hq >= 1 && height_scales(e.csp)[i] >= 1,
        ;
        lemma_div_multiples_vanish(rows, s);
        assert(s * rows == rows * s) by (nonlinear_arith);
        assert(planes[i].data@.len() as int / (planes[i].stride as int) == rows);
    }
}

/// Law: shrinking one plane of a minimal plane set by one — either its
/// stride or one full row of its buffer — makes the set rejected.
pub proof fn lemma_shrunk_plane_rejected<'a>(
    e: Encoding,
    w: int,
    h: int,
    planes: Seq<Plane<'a>>,
    k: int,
)
    requires
        1 <= w,
        1 <= h,
        planes.len() == plane_count(e.csp),
        0 <= k < planes.len(),
        planes[k].stride == min_stride(e, w, k) - 1 || (planes[k].stride == min_stride(e, w, k)
            && planes[k].data@.len() == min_stride(e, w, k) * (min_rows(e, h, k) - 1)),
    ensures
        !valid_geometry(e, w, h, planes),
{
    lemma_layout_bounds(e.csp);
    let s = min_stride(e, w, k);
    let rows = min_rows(e, h, k);
    if w % width_div(e.csp) == 0 && h % height_div(e.csp) == 0 {
        let wq = w / width_div(e.csp);
        let hq = h / height_div(e.csp);
        assert(1 <= wq && 1 <= hq);
        assert(s >= 1) by (nonlinear_arith)
            requires
                s == bytes_per_sample(e) * wq * width_scales(e.csp)[k] && bytes_per_sample(e) >= 1
                    && wq >= 1 && width_scales(e.csp)[k] >= 1,
        ;
        assert(rows >= 1) by (nonlinear_arith)
            requires
                rows == hq * height_scales(e.csp)[k] && hq >= 1 && height_scales(e.csp)[k] >= 1,
        ;
        if planes[k].stride == s - 1 {
            assert(!plane_ok(e, w, h, k, planes[k]));
        } else {
            lemma_div_multiples_vanish(rows - 1, s);
            assert(s * (rows - 1) == (rows - 1) * s) by (nonlinear_arith);
            assert(planes[k].data@.len() as int / (planes[k].stride as int) == rows - 1);
            assert(!plane_ok(e, w, h, k, planes[k]));
        }
    }
}

/// Law: a packed buffer of exactly the documented length is accepted by
/// the packed constructors' acceptance condition, and one byte fewer or
/// more is rejected.
pub proof fn lemma_packed_exact_len(bpp: int, w: int, h: int)
    requires
        1 <= bpp,
        1 <= w,
        0 <= h,
        bpp * w <= i32::MAX,
    ensures
        packed_exact(bpp, w, h, bpp * w * h),
        !packed_exact(bpp, w, h, bpp * w * h + 1),
        !packed_exact(bpp, w, h, bpp * w * h - 1),
{
}

} // verus!
