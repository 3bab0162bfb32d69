use pixelsnap::shm_size;
use pixelsnap::CaptureError;
use pixelsnap::CaptureEvent;
use pixelsnap::CaptureState;
use pixelsnap::FrameFormat;
use pixelsnap::PixelFormat;

fn fmt(format: PixelFormat) -> FrameFormat {
    FrameFormat { format, width: 1920, height: 1080, stride: 7680 }
}

#[test]
fn failed_before_ready_settles_on_error() {
    let mut st = CaptureState::new();
    st.on_event(CaptureEvent::Buffer(fmt(PixelFormat::Argb8888)));
    st.on_event(CaptureEvent::BufferDone);
    assert!(st.negotiation_done());
    assert!(st.chosen_format().is_ok());
    st.on_event(CaptureEvent::Failed);
    assert!(st.copy_settled());
    assert_eq!(st.copy_outcome(), Err(CaptureError::CopyFailed));
}

#[test]
fn failure_latches_over_later_ready() {
    let mut st = CaptureState::new();
    st.on_event(CaptureEvent::Failed);
    st.on_event(CaptureEvent::Ready);
    assert!(st.copy_settled());
    assert_eq!(st.copy_outcome(), Err(CaptureError::CopyFailed));
}

#[test]
fn ready_completes_the_copy() {
    let mut st = CaptureState::new();
    st.on_event(CaptureEvent::Buffer(fmt(PixelFormat::Xrgb8888)));
    st.on_event(CaptureEvent::BufferDone);
    st.on_event(CaptureEvent::Ready);
    assert!(st.copy_settled());
    assert_eq!(st.copy_outcome(), Ok(()));
}

#[test]
fn no_format_announced_is_an_error() {
    let mut st = CaptureState::new();
    st.on_event(CaptureEvent::BufferDone);
    assert!(st.negotiation_done());
    assert_eq!(st.chosen_format(), Err(CaptureError::NoFormat));
}

#[test]
fn red_first_format_is_preferred() {
    let mut st = CaptureState::new();
    st.on_event(CaptureEvent::Buffer(fmt(PixelFormat::Argb8888)));
    st.on_event(CaptureEvent::Buffer(fmt(PixelFormat::Xbgr8888)));
    st.on_event(CaptureEvent::BufferDone);
    assert_eq!(st.chosen_format().unwrap().format, PixelFormat::Xbgr8888);
}

#[test]
fn first_format_wins_among_equals() {
    let mut st = CaptureState::new();
    st.on_event(CaptureEvent::Buffer(fmt(PixelFormat::Xbgr8888)));
    st.on_event(CaptureEvent::Buffer(fmt(PixelFormat::Abgr8888)));
    st.on_event(CaptureEvent::Buffer(fmt(PixelFormat::Argb8888)));
    st.on_event(CaptureEvent::BufferDone);
    assert_eq!(st.chosen_format().unwrap().format, PixelFormat::Xbgr8888);
}

#[test]
fn event_batch_equals_one_by_one() {
    let events = vec![
        CaptureEvent::Other,
        CaptureEvent::Buffer(fmt(PixelFormat::Argb8888)),
        CaptureEvent::BufferDone,
        CaptureEvent::Ready,
    ];
    let mut batched = CaptureState::new();
    batched.on_events(&events);
    let mut stepped = CaptureState::new();
    for ev in events {
        stepped.on_event(ev);
    }
    assert_eq!(batched.done, stepped.done);
    assert_eq!(batched.ready, stepped.ready);
    assert_eq!(batched.failed, stepped.failed);
    assert_eq!(
        batched.chosen_format().unwrap().format,
        stepped.chosen_format().unwrap().format
    );
}

#[test]
fn shm_segment_covers_stride_times_height() {
    assert_eq!(shm_size(&fmt(PixelFormat::Argb8888)), 7680 * 1080);
    let padded = FrameFormat {
        format: PixelFormat::Argb8888,
        width: 3,
        height: 2,
        stride: 20,
    };
    assert_eq!(shm_size(&padded), 40);
}

#[test]
fn error_messages_are_distinct_and_actionable() {
    let errors = [
        CaptureError::ProtocolUnavailable,
        CaptureError::NoFormat,
        CaptureError::CopyFailed,
        CaptureError::ShmAllocation,
        CaptureError::ConnectionLost,
    ];
    for (i, a) in errors.iter().enumerate() {
        assert!(!a.message().is_empty());
        for b in errors.iter().skip(i + 1) {
            assert_ne!(a.message(), b.message());
        }
    }
}
