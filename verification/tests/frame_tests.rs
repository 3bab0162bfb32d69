use pixelsnap::normalize;
use pixelsnap::FrameFormat;
use pixelsnap::PixelFormat;
use pixelsnap::Screenshot;

/// Encode a grid of (r, g, b, a) pixels as a raw buffer in the given channel
/// ordering and stride.
fn encode(pixels: &[(u8, u8, u8, u8)], fmt: PixelFormat, width: u32, height: u32, stride: u32) -> Vec<u8> {
    let mut data = vec![0u8; (stride * height) as usize];
    for y in 0..height {
        for x in 0..width {
            let (r, g, b, a) = pixels[(y * width + x) as usize];
            let base = (y * stride + x * 4) as usize;
            match fmt {
                PixelFormat::Argb8888 | PixelFormat::Xrgb8888 => {
                    data[base] = b;
                    data[base + 1] = g;
                    data[base + 2] = r;
                    data[base + 3] = a;
                }
                PixelFormat::Abgr8888 | PixelFormat::Xbgr8888 => {
                    data[base] = r;
                    data[base + 1] = g;
                    data[base + 2] = b;
                    data[base + 3] = a;
                }
            }
        }
    }
    data
}

fn sample_pixels() -> Vec<(u8, u8, u8, u8)> {
    vec![
        (255, 0, 0, 255),
        (0, 255, 0, 128),
        (0, 0, 255, 0),
        (128, 128, 128, 255),
        (10, 200, 30, 7),
        (255, 255, 255, 255),
    ]
}

fn normalize_as(fmt: PixelFormat) -> Screenshot {
    let (w, h) = (3u32, 2u32);
    let data = encode(&sample_pixels(), fmt, w, h, w * 4);
    normalize(&data, &FrameFormat { format: fmt, width: w, height: h, stride: w * 4 })
}

#[test]
fn round_trip_identical_across_channel_orders() {
    let reference = normalize_as(PixelFormat::Argb8888);
    for fmt in [PixelFormat::Xrgb8888, PixelFormat::Abgr8888, PixelFormat::Xbgr8888] {
        let other = normalize_as(fmt);
        assert_eq!(reference.bgra_data, other.bgra_data);
        assert_eq!(reference.luminance, other.luminance);
    }
}

#[test]
fn bgra_order_and_forced_opacity() {
    let s = normalize_as(PixelFormat::Xbgr8888);
    // First pixel is pure red: B, G, R, A = 0, 0, 255, 255.
    assert_eq!(&s.bgra_data[0..4], &[0, 0, 255, 255]);
    // Third pixel came in with source alpha 0; output is still opaque.
    assert_eq!(&s.bgra_data[8..12], &[255, 0, 0, 255]);
}

#[test]
fn luminance_formula_exact_values() {
    let s = normalize_as(PixelFormat::Argb8888);
    // floor(0.299 * 255), floor(0.587 * 255), floor(0.114 * 255)
    assert_eq!(s.get_luminance(0, 0), 76);
    assert_eq!(s.get_luminance(1, 0), 149);
    assert_eq!(s.get_luminance(2, 0), 29);
    assert_eq!(s.get_luminance(0, 1), 128);
    assert_eq!(s.get_luminance(2, 1), 255);
}

#[test]
fn stride_padding_is_respected() {
    let (w, h) = (3u32, 2u32);
    let stride = 20u32; // 4 * width would be 12
    let data = encode(&sample_pixels(), PixelFormat::Argb8888, w, h, stride);
    let s = normalize(&data, &FrameFormat { format: PixelFormat::Argb8888, width: w, height: h, stride });
    let tight = normalize_as(PixelFormat::Argb8888);
    assert_eq!(s.bgra_data, tight.bgra_data);
    assert_eq!(s.luminance, tight.luminance);
}

#[test]
fn short_buffer_leaves_trailing_pixels_zero() {
    let (w, h) = (3u32, 2u32);
    let mut data = encode(&sample_pixels(), PixelFormat::Argb8888, w, h, w * 4);
    // Drop the last pixel's bytes entirely.
    data.truncate(data.len() - 4);
    let s = normalize(&data, &FrameFormat { format: PixelFormat::Argb8888, width: w, height: h, stride: w * 4 });
    assert_eq!(s.get_luminance(2, 1), 0);
    assert_eq!(&s.bgra_data[20..24], &[0, 0, 0, 0]);
    // Every earlier pixel is untouched by the degradation.
    let full = normalize_as(PixelFormat::Argb8888);
    assert_eq!(&s.bgra_data[0..20], &full.bgra_data[0..20]);
}

#[test]
fn out_of_range_luminance_reads_zero() {
    let s = normalize_as(PixelFormat::Argb8888);
    assert_eq!(s.get_luminance(3, 0), 0);
    assert_eq!(s.get_luminance(0, 2), 0);
}
