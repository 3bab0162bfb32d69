//! Frame normalization: one pass over the raw captured buffer yields the
//! display-ready BGRA color buffer and the per-pixel luminance map.

use vstd::prelude::*;

use crate::screenshot::Screenshot;
use crate::screenshot::lemma_grid_index_in_range;
use crate::screenshot::lemma_grid_index_order;

verus! {

/// The four 32-bit channel orderings the capture protocol can announce.
#[derive(Debug, Clone, Copy, PartialEq, Eq, Structural)]
pub enum PixelFormat {
    /// Alpha, red, green, blue as one little-endian word: blue first in memory.
    Argb8888,
    /// As `Argb8888` with the alpha byte unused.
    Xrgb8888,
    /// Alpha, blue, green, red as one little-endian word: red first in memory.
    Abgr8888,
    /// As `Abgr8888` with the alpha byte unused.
    Xbgr8888,
}

impl PixelFormat {
    /// The orderings that store the red channel in the pixel's first byte.
    pub open spec fn red_first(self) -> bool {
        self is Abgr8888 || self is Xbgr8888
    }

    /// Canonical preference order over announced formats, lower first: the
    /// red-first orderings are preferred over the blue-first ones.
    pub open spec fn rank(self) -> int {
        if self.red_first() {
            0
        } else {
            1
        }
    }
}

/// Format metadata announced for a capture frame.  The stride is the distance
/// between rows in bytes and may exceed `4 * width`; row addressing always
/// goes through it.
#[derive(Debug, Clone, Copy, PartialEq, Eq, Structural)]
pub struct FrameFormat {
    /// Channel ordering of the raw buffer.
    pub format: PixelFormat,
    /// Width in pixels.
    pub width: u32,
    /// Height in pixels.
    pub height: u32,
    /// Bytes per row of the raw buffer.
    pub stride: u32,
}

/// Byte offset of the pixel `(x, y)` in a raw buffer.
pub open spec fn src_base(fmt: FrameFormat, x: int, y: int) -> int {
    y * fmt.stride + 4 * x
}

/// The raw buffer holds all four bytes of the pixel `(x, y)`.  The final rows
/// of a stride-padded buffer may fail this; such pixels are skipped.
pub open spec fn pixel_in_src(data: Seq<u8>, fmt: FrameFormat, x: int, y: int) -> bool {
    src_base(fmt, x, y) + 3 < data.len()
}

/// Red channel of the raw pixel `(x, y)` under the announced ordering.
pub open spec fn red_at(data: Seq<u8>, fmt: FrameFormat, x: int, y: int) -> u8 {
    if fmt.format.red_first() {
        data[src_base(fmt, x, y)]
    } else {
        data[src_base(fmt, x, y) + 2]
    }
}

/// Green channel of the raw pixel `(x, y)`; every supported ordering stores
/// it second.
pub open spec fn green_at(data: Seq<u8>, fmt: FrameFormat, x: int, y: int) -> u8 {
    data[src_base(fmt, x, y) + 1]
}

/// Blue channel of the raw pixel `(x, y)` under the announced ordering.
pub open spec fn blue_at(data: Seq<u8>, fmt: FrameFormat, x: int, y: int) -> u8 {
    if fmt.format.red_first() {
        data[src_base(fmt, x, y) + 2]
    } else {
        data[src_base(fmt, x, y)]
    }
}

/// Perceptual brightness of a color: the fixed linear combination
/// `0.299 R + 0.587 G + 0.114 B`, truncated to an integer.
pub open spec fn luma(r: u8, g: u8, b: u8) -> int {
    (299 * r + 587 * g + 114 * b) / 1000
}

/// The pixel `(x, y)` of the luminance map and the BGRA buffer carries what
/// normalization owes it: the decoded color re-ordered to B, G, R with full
/// opacity and its luminance, or zeroes when the raw buffer ends before the
/// pixel.
pub open spec fn filled_pixel(
    lum: Seq<u8>,
    bgra: Seq<u8>,
    data: Seq<u8>,
    fmt: FrameFormat,
    x: int,
    y: int,
) -> bool
    recommends
        0 <= x < fmt.width,
        0 <= y < fmt.height,
        lum.len() == fmt.width * fmt.height,
        bgra.len() == 4 * (fmt.width * fmt.height),
{
    let di = y * fmt.width + x;
    if pixel_in_src(data, fmt, x, y) {
        &&& lum[di] == luma(
            red_at(data, fmt, x, y),
            green_at(data, fmt, x, y),
            blue_at(data, fmt, x, y),
        )
        &&& bgra[4 * di] == blue_at(data, fmt, x, y)
        &&& bgra[4 * di + 1] == green_at(data, fmt, x, y)
        &&& bgra[4 * di + 2] == red_at(data, fmt, x, y)
        &&& bgra[4 * di + 3] == 255
    } else {
        &&& lum[di] == 0
        &&& bgra[4 * di] == 0
        &&& bgra[4 * di + 1] == 0
        &&& bgra[4 * di + 2] == 0
        &&& bgra[4 * di + 3] == 0
    }
}

/// The screenshot's pixel `(x, y)` is the normalization of the raw buffer's.
pub open spec fn normalized_pixel(
    s: &Screenshot,
    data: Seq<u8>,
    fmt: FrameFormat,
    x: int,
    y: int,
) -> bool {
    filled_pixel(s.lum_seq(), s.bgra_data@, data, fmt, x, y)
}

fn zero_vec(n: usize) -> (v: Vec<u8>)
    ensures
        v@.len() == n,
        forall|i: int| 0 <= i < n ==> v@[i] == 0,
{
    let mut v: Vec<u8> = Vec::new();
    while v.len() < n
        invariant
            v@.len() <= n,
            forall|i: int| 0 <= i < v@.len() ==> v@[i] == 0,
        decreases n - v@.len(),
    {
        v.push(0);
    }
    v
}

/// Decode the raw captured buffer once into a screenshot: every pixel's color
/// re-ordered to BGRA with full opacity and its luminance precomputed.
/// Pixels the raw buffer ends before (stride padding on a short final row)
/// stay zero-initialized; that is a defined degradation, not an error.
pub fn normalize(data: &Vec<u8>, format: &FrameFormat) -> (s: Screenshot)
    requires
        4 * (format.width * format.height) <= usize::MAX,
        format.height * format.stride + 4 * format.width <= usize::MAX,
    ensures
        s.wf(),
        s.width == format.width,
        s.height == format.height,
        forall|x: int, y: int|
            0 <= x < format.width && 0 <= y < format.height ==> #[trigger] normalized_pixel(
                &s,
                data@,
                *format,
                x,
                y,
            ),
{
    let width: u32 = format.width;
    let height: u32 = format.height;
    let stride: u32 = format.stride;
    let pixel_count: usize = (width as usize) * (height as usize);
    let mut luminance: Vec<u8> = zero_vec(pixel_count);
    let mut bgra_data: Vec<u8> = zero_vec(4 * pixel_count);

    let mut y: u32 = 0;
    while y < height
        invariant
            y <= height,
            luminance@.len() == width * height,
            bgra_data@.len() == 4 * (width * height),
            forall|px: int, py: int|
                0 <= px < width && 0 <= py < y ==> #[trigger] filled_pixel(
                    luminance@,
                    bgra_data@,
                    data@,
                    *format,
                    px,
                    py,
                ),
            forall|i: int| y * width <= i < width * height ==> luminance@[i] == 0,
            forall|i: int| 4 * (y * width) <= i < 4 * (width * height) ==> bgra_data@[i] == 0,
        decreases height - y,
    {
        let mut x: u32 = 0;
        while x < width
            invariant
                y < height,
                x <= width,
                luminance@.len() == width * height,
                bgra_data@.len() == 4 * (width * height),
                forall|px: int, py: int|
                    0 <= px < width && 0 <= py < height && (py < y || (py == y && px < x))
                        ==> #[trigger] filled_pixel(
                        luminance@,
                        bgra_data@,
                        data@,
                        *format,
                        px,
                        py,
                    ),
                forall|i: int| y * width + x <= i < width * height ==> luminance@[i] == 0,
                forall|i: int|
                    4 * (y * width + x) <= i < 4 * (width * height) ==> bgra_data@[i] == 0,
            decreases width - x,
        {
            proof {
                lemma_grid_index_in_range(x as int, y as int, width as int, height as int);
                assert(y * stride <= (height - 1) * stride) by (nonlinear_arith)
                    requires
                        0 <= y < height,
                        stride >= 0,
                ;
                assert((height - 1) * stride + stride == height * stride) by (nonlinear_arith);
            }
            let ghost lum0 = luminance@;
            let ghost bgra0 = bgra_data@;
            let src_idx: usize = (y as usize) * (stride as usize) + (x as usize) * 4;
            let dst_idx: usize = (y as usize) * (width as usize) + (x as usize);
            let ghost di = y as int * width as int + x as int;

            if src_idx + 3 < data.len() {
                let (r, g, b): (u8, u8, u8) = match format.format {
                    PixelFormat::Argb8888 | PixelFormat::Xrgb8888 => (
                        data[src_idx + 2],
                        data[src_idx + 1],
                        data[src_idx],
                    ),
                    PixelFormat::Abgr8888 | PixelFormat::Xbgr8888 => (
                        data[src_idx],
                        data[src_idx + 1],
                        data[src_idx + 2],
                    ),
                };
                let lum_val: u8 = ((299 * (r as u32) + 587 * (g as u32) + 114 * (b as u32)) / 1000)
                    as u8;
                let base: usize = 4 * dst_idx;
                luminance.set(dst_idx, lum_val);
                bgra_data.set(base, b);
                bgra_data.set(base + 1, g);
                bgra_data.set(base + 2, r);
                bgra_data.set(base + 3, 255);
                proof {
                    assert(r == red_at(data@, *format, x as int, y as int));
                    assert(g == green_at(data@, *format, x as int, y as int));
                    assert(b == blue_at(data@, *format, x as int, y as int));
                    assert(filled_pixel(
                        luminance@,
                        bgra_data@,
                        data@,
                        *format,
                        x as int,
                        y as int,
                    ));
                }
            } else {
                proof {
                    assert(!pixel_in_src(data@, *format, x as int, y as int));
                    assert(filled_pixel(
                        luminance@,
                        bgra_data@,
                        data@,
                        *format,
                        x as int,
                        y as int,
                    ));
                }
            }
            proof {
                assert forall|px: int, py: int|
                    0 <= px < width && 0 <= py < height && (py < y || (py == y && px < x))
                        implies #[trigger] filled_pixel(
                    luminance@,
                    bgra_data@,
                    data@,
                    *format,
                    px,
                    py,
                ) by {
                    lemma_grid_index_order(px, py, x as int, y as int, width as int);
                    lemma_grid_index_in_range(px, py, width as int, height as int);
                    assert(filled_pixel(lum0, bgra0, data@, *format, px, py));
                    let dj = py * width as int + px;
                    assert(luminance@[dj] == lum0[dj]);
                    assert(bgra_data@[4 * dj] == bgra0[4 * dj]);
                    assert(bgra_data@[4 * dj + 1] == bgra0[4 * dj + 1]);
                    assert(bgra_data@[4 * dj + 2] == bgra0[4 * dj + 2]);
                    assert(bgra_data@[4 * dj + 3] == bgra0[4 * dj + 3]);
                }
            }
            x = x + 1;
        }
        proof {
            assert((y + 1) * width == y * width + width) by (nonlinear_arith);
        }
        y = y + 1;
    }

    Screenshot { bgra_data, width, height, luminance }
}

/// Law: two raw buffers that encode the same colors pixel for pixel, each in
/// its own channel ordering and each covering the same pixels, normalize to
/// the same luminance map and the same BGRA contents.
pub proof fn lemma_normalize_round_trip(
    s1: &Screenshot,
    s2: &Screenshot,
    data1: Seq<u8>,
    data2: Seq<u8>,
    fmt1: FrameFormat,
    fmt2: FrameFormat,
)
    requires
        s1.wf(),
        s2.wf(),
        s1.width == fmt1.width && s1.height == fmt1.height,
        s2.width == fmt2.width && s2.height == fmt2.height,
        fmt1.width == fmt2.width && fmt1.height == fmt2.height,
        forall|x: int, y: int|
            0 <= x < fmt1.width && 0 <= y < fmt1.height ==> #[trigger] normalized_pixel(
                s1,
                data1,
                fmt1,
                x,
                y,
            ),
        forall|x: int, y: int|
            0 <= x < fmt2.width && 0 <= y < fmt2.height ==> #[trigger] normalized_pixel(
                s2,
                data2,
                fmt2,
                x,
                y,
            ),
        forall|x: int, y: int|
            0 <= x < fmt1.width && 0 <= y < fmt1.height ==> (#[trigger] pixel_in_src(
                data1,
                fmt1,
                x,
                y,
            )) == pixel_in_src(data2, fmt2, x, y),
        forall|x: int, y: int|
            0 <= x < fmt1.width && 0 <= y < fmt1.height && pixel_in_src(data1, fmt1, x, y) ==> {
                &&& #[trigger] red_at(data1, fmt1, x, y) == red_at(data2, fmt2, x, y)
                &&& green_at(data1, fmt1, x, y) == green_at(data2, fmt2, x, y)
                &&& blue_at(data1, fmt1, x, y) == blue_at(data2, fmt2, x, y)
            },
    ensures
        s1.lum_seq() == s2.lum_seq(),
        s1.bgra_data@ == s2.bgra_data@,
{
    assert forall|i: int| 0 <= i < s1.lum_seq().len() implies s1.lum_seq()[i] == s2.lum_seq()[i] by {
        let y = i / (fmt1.width as int);
        let x = i % (fmt1.width as int);
        lemma_flat_to_grid(i, fmt1.width as int, fmt1.height as int);
        assert(normalized_pixel(s1, data1, fmt1, x, y));
        assert(normalized_pixel(s2, data2, fmt2, x, y));
        assert(pixel_in_src(data1, fmt1, x, y) == pixel_in_src(data2, fmt2, x, y));
        if pixel_in_src(data1, fmt1, x, y) {
            assert(red_at(data1, fmt1, x, y) == red_at(data2, fmt2, x, y));
        }
    }
    assert(s1.lum_seq() =~= s2.lum_seq());
    assert forall|j: int|
        0 <= j < s1.bgra_data@.len() implies s1.bgra_data@[j] == s2.bgra_data@[j] by {
        let i = j / 4;
        let c = j % 4;
        let y = i / (fmt1.width as int);
        let x = i % (fmt1.width as int);
        assert(4 * i + c == j && 0 <= c < 4 && 0 <= i < fmt1.width * fmt1.height) by
            (nonlinear_arith)
            requires
                i == j / 4,
                c == j % 4,
                0 <= j < 4 * (fmt1.width * fmt1.height),
        ;
        lemma_flat_to_grid(i, fmt1.width as int, fmt1.height as int);
        assert(normalized_pixel(s1, data1, fmt1, x, y));
        assert(normalized_pixel(s2, data2, fmt2, x, y));
        assert(pixel_in_src(data1, fmt1, x, y) == pixel_in_src(data2, fmt2, x, y));
        if pixel_in_src(data1, fmt1, x, y) {
            assert(red_at(data1, fmt1, x, y) == red_at(data2, fmt2, x, y));
        }
    }
    assert(s1.bgra_data@ =~= s2.bgra_data@);
}

/// A flat row-major index splits into the grid coordinates it came from.
proof fn lemma_flat_to_grid(i: int, w: int, h: int)
    requires
        0 <= i < w * h,
        0 <= w,
        0 <= h,
    ensures
        0 <= i % w < w,
        0 <= i / w < h,
        (i / w) * w + (i % w) == i,
{
    assert(0 < w && 0 <= i % w < w && 0 <= i / w < h && (i / w) * w + (i % w) == i) by (nonlinear_arith)
        requires
            0 <= i < w * h,
            0 <= w,
            0 <= h,
    ;
}

} // verus!
