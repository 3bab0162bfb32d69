use pixelsnap::normalize;
use pixelsnap::FrameFormat;
use pixelsnap::PixelFormat;
use pixelsnap::Screenshot;
use pixelsnap::scan_horizontal_limited;
use pixelsnap::scan_vertical_limited;
use pixelsnap::snap_to_nearest_edge_x;
use pixelsnap::snap_to_nearest_edge_y;

fn solid_raw(width: u32, height: u32, value: u8) -> Vec<u8> {
    vec![value; (width * height * 4) as usize]
}

fn screenshot_from(raw: &Vec<u8>, width: u32, height: u32) -> Screenshot {
    let fmt = FrameFormat {
        format: PixelFormat::Xrgb8888,
        width,
        height,
        stride: width * 4,
    };
    normalize(raw, &fmt)
}

fn put(raw: &mut Vec<u8>, width: u32, x: u32, y: u32, value: u8) {
    let base = ((y * width + x) * 4) as usize;
    raw[base] = value;
    raw[base + 1] = value;
    raw[base + 2] = value;
    raw[base + 3] = 255;
}

#[test]
fn uniform_snap_returns_coordinate_unchanged() {
    let raw = solid_raw(300, 200, 90);
    let s = screenshot_from(&raw, 300, 200);
    assert_eq!(snap_to_nearest_edge_x(&s, 123, 20, 180, 1), 123);
    assert_eq!(snap_to_nearest_edge_x(&s, 123, 20, 180, -1), 123);
    assert_eq!(snap_to_nearest_edge_y(&s, 20, 280, 77, 1), 77);
    assert_eq!(snap_to_nearest_edge_y(&s, 20, 280, 77, -1), 77);
}

#[test]
fn aggregation_takes_min_rightward_and_max_leftward() {
    // Scanning rightward (left-edge snap): line 0 hits at pixel 10, line 1
    // at pixel 40; the minimum wins.
    let w = 60u32;
    let mut raw = solid_raw(w, 2, 0);
    put(&mut raw, w, 11, 0, 255);
    put(&mut raw, w, 41, 1, 255);
    let s = screenshot_from(&raw, w, 2);
    assert_eq!(snap_to_nearest_edge_x(&s, 0, 0, 1, 1), 10);
    // Scanning leftward (right-edge snap) with the same hits: the maximum
    // wins.
    let mut raw = solid_raw(w, 2, 0);
    put(&mut raw, w, 9, 0, 255);
    put(&mut raw, w, 39, 1, 255);
    let s = screenshot_from(&raw, w, 2);
    assert_eq!(snap_to_nearest_edge_x(&s, 59, 0, 1, -1), 40);
}

#[test]
fn vertical_aggregation_takes_min_downward_and_max_upward() {
    let h = 60u32;
    let mut raw = solid_raw(2, h, 0);
    put(&mut raw, 2, 0, 11, 255);
    put(&mut raw, 2, 1, 41, 255);
    let s = screenshot_from(&raw, 2, h);
    assert_eq!(snap_to_nearest_edge_y(&s, 0, 1, 0, 1), 10);
    let mut raw = solid_raw(2, h, 0);
    put(&mut raw, 2, 0, 9, 255);
    put(&mut raw, 2, 1, 39, 255);
    let s = screenshot_from(&raw, 2, h);
    assert_eq!(snap_to_nearest_edge_y(&s, 0, 1, 59, -1), 40);
}

#[test]
fn snap_gives_up_beyond_bounded_distance() {
    // Content 300 pixels away is out of the bounded scan's reach.
    let w = 600u32;
    let mut raw = solid_raw(w, 3, 0);
    for y in 0..3 {
        put(&mut raw, w, 300, y, 255);
    }
    let s = screenshot_from(&raw, w, 3);
    assert_eq!(scan_horizontal_limited(&s, 0, 1, 1, 200), None);
    assert_eq!(snap_to_nearest_edge_x(&s, 0, 0, 2, 1), 0);
    // Within reach it snaps to the last pixel before the content.
    assert_eq!(scan_horizontal_limited(&s, 150, 1, 1, 200), Some(299));
    assert_eq!(snap_to_nearest_edge_x(&s, 150, 0, 2, 1), 299);
}

#[test]
fn snap_threshold_rides_through_gradients() {
    // A gentle ramp stays within the coarse threshold of the starting
    // pixel; a hard step beyond it is the hit.
    let w = 100u32;
    let mut raw = solid_raw(w, 1, 100);
    for x in 10..20 {
        put(&mut raw, w, x, 0, 100 + (x as u8 - 10) * 3);
    }
    for x in 20..100 {
        put(&mut raw, w, x, 0, 200);
    }
    let s = screenshot_from(&raw, w, 1);
    // From x = 0 the ramp's values differ from 100 by at most 27; the
    // plateau at 200 is the departure, and the scan reports the last ramp
    // pixel before it.
    assert_eq!(scan_horizontal_limited(&s, 0, 0, 1, 200), Some(19));
}

#[test]
fn miss_on_every_line_leaves_coordinate_unchanged() {
    // No transition in the scanned direction on any sample line: the
    // coordinate comes back unchanged, even though content lies the other
    // way.
    let w = 200u32;
    let mut raw = solid_raw(w, 5, 0);
    for y in 0..5 {
        put(&mut raw, w, 80, y, 255);
    }
    let s = screenshot_from(&raw, w, 5);
    assert_eq!(snap_to_nearest_edge_x(&s, 50, 0, 4, -1), 50);
}

#[test]
fn vertical_bounded_scan_matches_horizontal() {
    let h = 600u32;
    let mut raw = solid_raw(3, h, 0);
    for x in 0..3 {
        put(&mut raw, 3, x, 300, 255);
    }
    let s = screenshot_from(&raw, 3, h);
    assert_eq!(scan_vertical_limited(&s, 1, 0, 1, 200), None);
    assert_eq!(scan_vertical_limited(&s, 1, 150, 1, 200), Some(299));
}
