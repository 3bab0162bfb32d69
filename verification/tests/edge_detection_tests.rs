use pixelsnap::normalize;
use pixelsnap::FrameFormat;
use pixelsnap::PixelFormat;
use pixelsnap::Screenshot;
use pixelsnap::find_edges;
use pixelsnap::scan_horizontal;
use pixelsnap::scan_vertical;

/// Raw buffer for a gray image: every pixel r = g = b = value, so its
/// luminance is exactly `value`.
fn solid_raw(width: u32, height: u32, value: u8) -> Vec<u8> {
    vec![value; (width * height * 4) as usize]
}

fn screenshot_from(raw: &Vec<u8>, width: u32, height: u32) -> Screenshot {
    let fmt = FrameFormat {
        format: PixelFormat::Xrgb8888,
        width,
        height,
        stride: width * 4,
    };
    normalize(raw, &fmt)
}

/// Set one pixel of the raw buffer to r = g = b = value.
fn put(raw: &mut Vec<u8>, width: u32, x: u32, y: u32, value: u8) {
    let base = ((y * width + x) * 4) as usize;
    raw[base] = value;
    raw[base + 1] = value;
    raw[base + 2] = value;
    raw[base + 3] = 255;
}

/// A mid-gray 1920x1080 frame with a white square spanning (500,500) to
/// (700,700) inclusive.
fn white_square_screenshot() -> Screenshot {
    let (w, h) = (1920u32, 1080u32);
    let mut raw = solid_raw(w, h, 128);
    for y in 500..=700u32 {
        for x in 500..=700u32 {
            put(&mut raw, w, x, y, 255);
        }
    }
    screenshot_from(&raw, w, h)
}

#[test]
fn uniform_luminance_full_frame() {
    let raw = solid_raw(100, 80, 77);
    let s = screenshot_from(&raw, 100, 80);
    let e = find_edges(&s, 40, 30);
    assert_eq!(e.left, 0);
    assert_eq!(e.right, 99);
    assert_eq!(e.up, 0);
    assert_eq!(e.down, 79);
}

#[test]
fn white_square_edges_from_center() {
    let s = white_square_screenshot();
    let e = find_edges(&s, 600, 600);
    assert_eq!(e.left, 500);
    assert_eq!(e.right, 700);
    assert_eq!(e.up, 500);
    assert_eq!(e.down, 700);
}

#[test]
fn edges_stay_within_frame() {
    let s = white_square_screenshot();
    for &(x, y) in &[
        (0u32, 0u32),
        (1919, 1079),
        (600, 600),
        (499, 500),
        (701, 700),
        (960, 540),
    ] {
        let e = find_edges(&s, x, y);
        assert!(e.left <= x && x <= e.right && e.right < 1920);
        assert!(e.up <= y && y <= e.down && e.down < 1080);
    }
}

#[test]
fn edge_threshold_is_exclusive() {
    // A luminance step of exactly the threshold is not an edge; one more is.
    let w = 20u32;
    let mut raw = solid_raw(w, 1, 100);
    for x in 10..20 {
        put(&mut raw, w, x, 0, 105);
    }
    let s = screenshot_from(&raw, w, 1);
    assert_eq!(scan_horizontal(&s, 2, 0, 1), None);

    let mut raw = solid_raw(w, 1, 100);
    for x in 10..20 {
        put(&mut raw, w, x, 0, 106);
    }
    let s = screenshot_from(&raw, w, 1);
    assert_eq!(scan_horizontal(&s, 2, 0, 1), Some(9));
}

#[test]
fn scan_compares_adjacent_pixels_not_origin() {
    // A smooth ramp of 2 per step never jumps even though it drifts far
    // from the origin's luminance.
    let w = 90u32;
    let mut raw = solid_raw(w, 1, 0);
    for x in 0..w {
        put(&mut raw, w, x, 0, (x as u8) * 2);
    }
    let s = screenshot_from(&raw, w, 1);
    assert_eq!(scan_horizontal(&s, 0, 0, 1), None);
}

#[test]
fn vertical_scan_finds_square_sides() {
    let s = white_square_screenshot();
    assert_eq!(scan_vertical(&s, 600, 600, -1), Some(500));
    assert_eq!(scan_vertical(&s, 600, 600, 1), Some(700));
    // Outside the square's column, the scans run to the frame border.
    assert_eq!(scan_vertical(&s, 100, 600, -1), None);
    assert_eq!(scan_vertical(&s, 100, 600, 1), None);
}
