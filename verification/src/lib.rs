//! Verified core of a screen-measurement overlay.
//!
//! The library owns everything that can be stated and proved about the tool:
//! turning a captured raw frame into a screenshot with a luminance map,
//! finding content edges around the pointer, snapping a dragged rectangle
//! onto content boundaries, the capture protocol's negotiation state machine,
//! the overlay compositor's pixel blending and label placement, and the
//! pointer/keyboard interaction state machine.  The unverified front end
//! around it only moves bytes and events between the display server and
//! these functions.
#![verifier::loop_isolation(false)]

pub mod capture;
pub mod edge_detection;
pub mod frame;
pub mod interaction;
pub mod overlay;
pub mod screenshot;
pub mod snap;

pub use capture::shm_size;
pub use capture::CaptureError;
pub use capture::CaptureEvent;
pub use capture::CaptureState;
pub use edge_detection::find_edges;
pub use edge_detection::scan_horizontal;
pub use edge_detection::scan_vertical;
pub use edge_detection::Edges;
pub use frame::normalize;
pub use frame::FrameFormat;
pub use frame::PixelFormat;
pub use interaction::InputEvent;
pub use interaction::Interaction;
pub use interaction::MeasureRect;
pub use interaction::Mode;
pub use overlay::composite_overlay;
pub use overlay::crosshair_label_position;
pub use overlay::logical_span;
pub use overlay::rect_label_position;
pub use screenshot::Screenshot;
pub use snap::scan_horizontal_limited;
pub use snap::scan_vertical_limited;
pub use snap::snap_to_nearest_edge_x;
pub use snap::snap_to_nearest_edge_y;
