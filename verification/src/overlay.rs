//! Overlay compositing: blend the scratch overlay layer onto a copy of the
//! screenshot's color buffer, convert physical spans to logical pixel
//! distances for the dimension labels, and place the labels so they stay on
//! screen.

use vstd::prelude::*;

verus! {

/// Horizontal offset of the crosshair label from the pointer.
pub const LABEL_OFFSET_X: u32 = 95;

/// Vertical offset of the crosshair label from the pointer.
pub const LABEL_OFFSET_Y: u32 = 40;

/// How close the pointer may come to the right screen edge before the label
/// flips to its left.
pub const LABEL_EDGE_MARGIN_X: u32 = 200;

/// How close the pointer may come to the bottom screen edge before the label
/// flips above it.
pub const LABEL_EDGE_MARGIN_Y: u32 = 100;

/// Smallest rectangle width that still holds a centered label.
pub const RECT_LABEL_MIN_W: u32 = 150;

/// Smallest rectangle height that still holds a centered label.
pub const RECT_LABEL_MIN_H: u32 = 50;

/// Offset of a rectangle's label from its bottom edge when the rectangle is
/// too small to hold it.
pub const RECT_LABEL_OFFSET: u32 = 30;

/// One channel of the standard "over" blend:
/// `out = (src * alpha + dst * (255 - alpha)) / 255`.
pub open spec fn blend_channel(src: u8, alpha: u8, dst: u8) -> int {
    (src * alpha + dst * (255 - alpha)) / 255
}

/// Pixel `i` of the composited buffer: the overlay's RGBA pixel blended over
/// the canvas's BGRA pixel and forced opaque, or the canvas pixel untouched
/// where the overlay is fully transparent.
pub open spec fn composited_pixel(out: Seq<u8>, dst: Seq<u8>, overlay: Seq<u8>, i: int) -> bool
    recommends
        0 <= i,
        4 * i + 3 < out.len(),
        out.len() == dst.len() == overlay.len(),
{
    let alpha = overlay[4 * i + 3];
    if alpha > 0 {
        &&& out[4 * i] == blend_channel(overlay[4 * i + 2], alpha, dst[4 * i])
        &&& out[4 * i + 1] == blend_channel(overlay[4 * i + 1], alpha, dst[4 * i + 1])
        &&& out[4 * i + 2] == blend_channel(overlay[4 * i], alpha, dst[4 * i + 2])
        &&& out[4 * i + 3] == 255
    } else {
        &&& out[4 * i] == dst[4 * i]
        &&& out[4 * i + 1] == dst[4 * i + 1]
        &&& out[4 * i + 2] == dst[4 * i + 2]
        &&& out[4 * i + 3] == dst[4 * i + 3]
    }
}

fn blend_channel_exec(src: u8, alpha: u8, dst: u8) -> (r: u8)
    ensures
        r == blend_channel(src, alpha, dst),
{
    proof {
        assert(0 <= src * alpha + dst * (255 - alpha) <= 255 * 255) by (nonlinear_arith)
            requires
                0 <= src <= 255,
                0 <= dst <= 255,
                0 <= alpha <= 255,
        ;
    }
    (((src as u32) * (alpha as u32) + (dst as u32) * (255 - alpha as u32)) / 255) as u8
}

/// Alpha-composite the scratch overlay (RGBA) onto the canvas (BGRA) with
/// standard "over" blending per channel, forcing the result opaque and
/// skipping fully transparent overlay pixels.
pub fn composite_overlay(canvas: &mut Vec<u8>, overlay: &Vec<u8>)
    requires
        old(canvas)@.len() == overlay@.len(),
        old(canvas)@.len() % 4 == 0,
    ensures
        final(canvas)@.len() == old(canvas)@.len(),
        forall|i: int|
            0 <= i < old(canvas)@.len() / 4 ==> #[trigger] composited_pixel(
                final(canvas)@,
                old(canvas)@,
                overlay@,
                i,
            ),
{
    let n: usize = canvas.len() / 4;
    let mut i: usize = 0;
    while i < n
        invariant
            i <= n,
            canvas@.len() == old(canvas)@.len(),
            forall|j: int|
                0 <= j < i ==> #[trigger] composited_pixel(canvas@, old(canvas)@, overlay@, j),
            forall|k: int| 4 * i <= k < canvas@.len() ==> canvas@[k] == old(canvas)@[k],
        decreases n - i,
    {
        let ghost c0 = canvas@;
        let base: usize = 4 * i;
        let alpha: u8 = overlay[base + 3];
        if alpha > 0 {
            let src_r: u8 = overlay[base];
            let src_g: u8 = overlay[base + 1];
            let src_b: u8 = overlay[base + 2];
            let dst_b: u8 = canvas[base];
            let dst_g: u8 = canvas[base + 1];
            let dst_r: u8 = canvas[base + 2];
            canvas.set(base, blend_channel_exec(src_b, alpha, dst_b));
            canvas.set(base + 1, blend_channel_exec(src_g, alpha, dst_g));
            canvas.set(base + 2, blend_channel_exec(src_r, alpha, dst_r));
            canvas.set(base + 3, 255);
        }
        proof {
            assert forall|j: int|
                0 <= j < i + 1 implies #[trigger] composited_pixel(
                canvas@,
                old(canvas)@,
                overlay@,
                j,
            ) by {
                if j < i {
                    assert(composited_pixel(c0, old(canvas)@, overlay@, j));
                }
            }
        }
        i = i + 1;
    }
}

/// Logical length in user-visible pixels of the physical pixel span
/// `a ..= b`: the inclusive pixel count divided by the scale factor, rounded
/// to the nearest integer (halves up), so the displayed measurement matches
/// what the user sees whatever the display's scale.
pub fn logical_span(a: u32, b: u32, scale: u32) -> (r: u64)
    requires
        a <= b,
        scale >= 1,
    ensures
        r == (2 * (b - a + 1) + scale) / (2 * scale),
        scale == 1 ==> r == b - a + 1,
{
    let phys: u64 = (b - a) as u64 + 1;
    (2 * phys + scale as u64) / (2 * scale as u64)
}

/// Where the crosshair's dimension label goes: offset right of and below the
/// pointer, flipped to the other side near the right or bottom screen edge
/// so the label never clips off screen.
pub fn crosshair_label_position(cx: u32, cy: u32, screen_w: u32, screen_h: u32) -> (r: (i64, i64))
    ensures
        r.0 == if cx + LABEL_EDGE_MARGIN_X > screen_w {
            cx - LABEL_OFFSET_X
        } else {
            cx + LABEL_OFFSET_X
        },
        r.1 == if cy + LABEL_EDGE_MARGIN_Y > screen_h {
            cy - LABEL_OFFSET_Y
        } else {
            cy + LABEL_OFFSET_Y
        },
{
    let x: i64 = if cx as i64 + LABEL_EDGE_MARGIN_X as i64 > screen_w as i64 {
        cx as i64 - LABEL_OFFSET_X as i64
    } else {
        cx as i64 + LABEL_OFFSET_X as i64
    };
    let y: i64 = if cy as i64 + LABEL_EDGE_MARGIN_Y as i64 > screen_h as i64 {
        cy as i64 - LABEL_OFFSET_Y as i64
    } else {
        cy as i64 + LABEL_OFFSET_Y as i64
    };
    (x, y)
}

/// Where a measurement rectangle's label goes: centered on the rectangle
/// when it is large enough to hold the label, otherwise below its bottom
/// edge, flipped above the top edge when the bottom position would run off
/// the screen.
pub fn rect_label_position(x1: u32, y1: u32, x2: u32, y2: u32, screen_h: u32) -> (r: (i64, i64))
    requires
        x1 <= x2,
        y1 <= y2,
    ensures
        r.0 == (x1 + x2) / 2,
        x2 - x1 + 1 >= RECT_LABEL_MIN_W && y2 - y1 + 1 >= RECT_LABEL_MIN_H ==> r.1 == (y1 + y2)
            / 2,
        !(x2 - x1 + 1 >= RECT_LABEL_MIN_W && y2 - y1 + 1 >= RECT_LABEL_MIN_H) ==> r.1 == (if y2
            + RECT_LABEL_OFFSET + LABEL_EDGE_MARGIN_Y > screen_h {
            y1 - RECT_LABEL_OFFSET
        } else {
            y2 + RECT_LABEL_OFFSET
        }),
{
    let center_x: i64 = (x1 as i64 + x2 as i64) / 2;
    let phys_w: u64 = (x2 - x1) as u64 + 1;
    let phys_h: u64 = (y2 - y1) as u64 + 1;
    if phys_w >= RECT_LABEL_MIN_W as u64 && phys_h >= RECT_LABEL_MIN_H as u64 {
        (center_x, (y1 as i64 + y2 as i64) / 2)
    } else {
        let y: i64 = if y2 as i64 + RECT_LABEL_OFFSET as i64 + LABEL_EDGE_MARGIN_Y as i64
            > screen_h as i64 {
            y1 as i64 - RECT_LABEL_OFFSET as i64
        } else {
            y2 as i64 + RECT_LABEL_OFFSET as i64
        };
        (center_x, y)
    }
}

} // verus!
