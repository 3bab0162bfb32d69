//! The frozen screen capture that every other component reads.

use vstd::prelude::*;

verus! {

/// Index arithmetic for a row-major grid: a pixel's flat index stays inside
/// the buffer.
pub(crate) proof fn lemma_grid_index_in_range(x: int, y: int, w: int, h: int)
    requires
        0 <= x < w,
        0 <= y < h,
    ensures
        0 <= y * w + x < w * h,
{
    assert(0 <= y * w + x < w * h) by (nonlinear_arith)
        requires
            0 <= x < w,
            0 <= y < h,
    ;
}

/// Index arithmetic for a row-major grid: distinct pixels have distinct flat
/// indices.
pub(crate) proof fn lemma_grid_index_injective(x1: int, y1: int, x2: int, y2: int, w: int)
    requires
        0 <= x1 < w,
        0 <= x2 < w,
        0 <= y1,
        0 <= y2,
        y1 * w + x1 == y2 * w + x2,
    ensures
        x1 == x2,
        y1 == y2,
{
    assert(x1 == x2 && y1 == y2) by (nonlinear_arith)
        requires
            0 <= x1 < w,
            0 <= x2 < w,
            0 <= y1,
            0 <= y2,
            y1 * w + x1 == y2 * w + x2,
    ;
}

/// Index arithmetic for a row-major grid: walking the grid row by row visits
/// flat indices in strictly increasing order.
pub(crate) proof fn lemma_grid_index_order(x1: int, y1: int, x2: int, y2: int, w: int)
    requires
        0 <= x1 < w,
        0 <= x2,
        0 <= y1,
        y1 < y2 || (y1 == y2 && x1 < x2),
    ensures
        y1 * w + x1 < y2 * w + x2,
{
    assert(y1 * w + x1 < y2 * w + x2) by (nonlinear_arith)
        requires
            0 <= x1 < w,
            0 <= x2,
            0 <= y1,
            y1 < y2 || (y1 == y2 && x1 < x2),
    ;
}

/// A still image of the whole screen: a display-ready BGRA color buffer and a
/// per-pixel luminance map, both `width x height`, fixed for the rest of the
/// run.  All edge detection and snapping reads the luminance map alone.
pub struct Screenshot {
    /// Color buffer, 4 bytes per pixel in B, G, R, A order, fully opaque.
    pub bgra_data: Vec<u8>,
    /// Width in physical pixels.
    pub width: u32,
    /// Height in physical pixels.
    pub height: u32,
    /// Per-pixel luminance map, one byte per pixel, derived once from the
    /// decoded color channels and never recomputed.
    pub luminance: Vec<u8>,
}

impl Screenshot {
    /// The luminance map as a flat row-major sequence.
    pub open spec fn lum_seq(&self) -> Seq<u8> {
        self.luminance@
    }

    /// Both buffers cover exactly `width x height` pixels, and the color
    /// buffer's byte count fits in a `usize`.
    pub open spec fn wf(&self) -> bool {
        &&& self.lum_seq().len() == self.width * self.height
        &&& self.bgra_data@.len() == 4 * (self.width * self.height)
        &&& 4 * (self.width * self.height) <= usize::MAX
    }

    /// Luminance of the pixel at `(x, y)`; positions outside the buffer read
    /// as 0.
    pub open spec fn lum(&self, x: int, y: int) -> u8 {
        if 0 <= x < self.width && 0 <= y < self.height {
            self.lum_seq()[y * self.width + x]
        } else {
            0u8
        }
    }

    /// Every pixel of the screenshot has the same luminance; edge scans over
    /// such an image find nothing.
    pub open spec fn uniform_luminance(&self) -> bool {
        forall|x: int, y: int|
            0 <= x < self.width && 0 <= y < self.height ==> #[trigger] self.lum(x, y) == self.lum(
                0,
                0,
            )
    }

    /// Read one pixel of the luminance map; out-of-range coordinates yield 0
    /// rather than failing.
    pub fn get_luminance(&self, x: u32, y: u32) -> (r: u8)
        requires
            self.wf(),
        ensures
            r == self.lum(x as int, y as int),
    {
        if x >= self.width || y >= self.height {
            return 0;
        }
        proof {
            lemma_grid_index_in_range(x as int, y as int, self.width as int, self.height as int);
        }
        let idx: usize = (y as usize) * (self.width as usize) + (x as usize);
        self.luminance[idx]
    }
}

} // verus!
