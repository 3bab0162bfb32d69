use pixelsnap::normalize;
use pixelsnap::FrameFormat;
use pixelsnap::InputEvent;
use pixelsnap::Interaction;
use pixelsnap::MeasureRect;
use pixelsnap::Mode;
use pixelsnap::PixelFormat;
use pixelsnap::Screenshot;

fn solid_raw(width: u32, height: u32, value: u8) -> Vec<u8> {
    vec![value; (width * height * 4) as usize]
}

fn screenshot_from(raw: &Vec<u8>, width: u32, height: u32) -> Screenshot {
    let fmt = FrameFormat {
        format: PixelFormat::Xrgb8888,
        width,
        height,
        stride: width * 4,
    };
    normalize(raw, &fmt)
}

fn put(raw: &mut Vec<u8>, width: u32, x: u32, y: u32, value: u8) {
    let base = ((y * width + x) * 4) as usize;
    raw[base] = value;
    raw[base + 1] = value;
    raw[base + 2] = value;
    raw[base + 3] = 255;
}

/// A mid-gray 1920x1080 frame with a white square spanning (500,500) to
/// (700,700) inclusive.
fn white_square_screenshot() -> Screenshot {
    let (w, h) = (1920u32, 1080u32);
    let mut raw = solid_raw(w, h, 128);
    for y in 500..=700u32 {
        for x in 500..=700u32 {
            put(&mut raw, w, x, y, 255);
        }
    }
    screenshot_from(&raw, w, h)
}

fn uniform_screenshot() -> Screenshot {
    let raw = solid_raw(320, 200, 90);
    screenshot_from(&raw, 320, 200)
}

fn measured_rect(st: &Interaction) -> MeasureRect {
    match st.mode {
        Mode::Measured { rect } => rect,
        _ => panic!("expected a finalized rectangle"),
    }
}

#[test]
fn redraw_gate_fires_once_per_dirty_mark() {
    let s = uniform_screenshot();
    let mut st = Interaction::new();
    // The initial frame is owed; a second pass with nothing changed is not.
    assert!(st.take_redraw());
    assert!(!st.take_redraw());
    st.handle_event(&s, InputEvent::Motion { x: 10, y: 10 });
    assert!(st.take_redraw());
    assert!(!st.take_redraw());
}

#[test]
fn motion_updates_pointer_and_marks_dirty() {
    let s = uniform_screenshot();
    let mut st = Interaction::new();
    st.take_redraw();
    st.handle_event(&s, InputEvent::Motion { x: 42, y: 17 });
    assert_eq!(st.pointer_x, 42);
    assert_eq!(st.pointer_y, 17);
    assert!(st.take_redraw());
}

#[test]
fn plain_click_with_no_rectangle_exits() {
    let s = uniform_screenshot();
    let mut st = Interaction::new();
    st.handle_event(&s, InputEvent::Motion { x: 50, y: 50 });
    st.handle_event(&s, InputEvent::Press);
    assert!(!st.should_exit());
    st.handle_event(&s, InputEvent::Release);
    assert!(st.should_exit());
}

#[test]
fn any_key_exits() {
    let s = uniform_screenshot();
    let mut st = Interaction::new();
    assert!(!st.should_exit());
    st.handle_event(&s, InputEvent::Key);
    assert!(st.should_exit());
}

#[test]
fn drag_on_uniform_image_keeps_drawn_rectangle() {
    let s = uniform_screenshot();
    let mut st = Interaction::new();
    st.handle_event(&s, InputEvent::Motion { x: 40, y: 30 });
    st.handle_event(&s, InputEvent::Press);
    st.handle_event(&s, InputEvent::Motion { x: 120, y: 90 });
    st.handle_event(&s, InputEvent::Release);
    // No content anywhere: all four edges snap back to where they were
    // drawn.
    assert_eq!(
        measured_rect(&st),
        MeasureRect { left: 40, top: 30, right: 120, bottom: 90 }
    );
    assert!(!st.should_exit());
}

#[test]
fn drag_snaps_to_square_boundary() {
    // Drawn slightly inside the white square, the rectangle converges onto
    // the square's true outer boundary.
    let s = white_square_screenshot();
    let mut st = Interaction::new();
    st.handle_event(&s, InputEvent::Motion { x: 510, y: 510 });
    st.handle_event(&s, InputEvent::Press);
    st.handle_event(&s, InputEvent::Motion { x: 690, y: 690 });
    st.handle_event(&s, InputEvent::Release);
    assert_eq!(
        measured_rect(&st),
        MeasureRect { left: 500, top: 500, right: 700, bottom: 700 }
    );
}

#[test]
fn reversed_drag_normalizes_and_snaps_the_same() {
    let s = white_square_screenshot();
    let mut st = Interaction::new();
    st.handle_event(&s, InputEvent::Motion { x: 690, y: 690 });
    st.handle_event(&s, InputEvent::Press);
    st.handle_event(&s, InputEvent::Motion { x: 510, y: 510 });
    st.handle_event(&s, InputEvent::Release);
    assert_eq!(
        measured_rect(&st),
        MeasureRect { left: 500, top: 500, right: 700, bottom: 700 }
    );
}

#[test]
fn zero_area_release_dismisses_rectangle_then_exits() {
    let s = uniform_screenshot();
    let mut st = Interaction::new();
    // Make a rectangle.
    st.handle_event(&s, InputEvent::Motion { x: 40, y: 30 });
    st.handle_event(&s, InputEvent::Press);
    st.handle_event(&s, InputEvent::Motion { x: 120, y: 90 });
    st.handle_event(&s, InputEvent::Release);
    assert!(matches!(st.mode, Mode::Measured { .. }));
    // First plain click dismisses it.
    st.handle_event(&s, InputEvent::Press);
    st.handle_event(&s, InputEvent::Release);
    assert!(matches!(st.mode, Mode::Idle));
    assert!(!st.should_exit());
    // Second plain click, with nothing on screen, exits.
    st.handle_event(&s, InputEvent::Press);
    st.handle_event(&s, InputEvent::Release);
    assert!(st.should_exit());
}

#[test]
fn drag_with_zero_delta_on_one_axis_is_a_click() {
    let s = uniform_screenshot();
    let mut st = Interaction::new();
    st.handle_event(&s, InputEvent::Motion { x: 40, y: 30 });
    st.handle_event(&s, InputEvent::Press);
    st.handle_event(&s, InputEvent::Motion { x: 120, y: 30 });
    st.handle_event(&s, InputEvent::Release);
    assert!(matches!(st.mode, Mode::Idle));
    assert!(st.should_exit());
}

#[test]
fn press_clears_previous_rectangle() {
    let s = uniform_screenshot();
    let mut st = Interaction::new();
    st.handle_event(&s, InputEvent::Motion { x: 40, y: 30 });
    st.handle_event(&s, InputEvent::Press);
    st.handle_event(&s, InputEvent::Motion { x: 120, y: 90 });
    st.handle_event(&s, InputEvent::Release);
    assert!(matches!(st.mode, Mode::Measured { .. }));
    st.handle_event(&s, InputEvent::Press);
    assert!(matches!(st.mode, Mode::Dragging { .. }));
}
