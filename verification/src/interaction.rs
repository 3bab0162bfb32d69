//! The interaction state machine: interpret pointer and keyboard input,
//! decide between live edge detection and content snapping, and gate
//! redraws behind a dirty flag.
//!
//! Policy for a zero-area release (a plain click): the press already cleared
//! any finalized rectangle, so the click dismisses it; a plain click made
//! while no rectangle was on screen asks to leave the program.  Any
//! keystroke asks to leave unconditionally.

use vstd::prelude::*;

use crate::screenshot::Screenshot;
use crate::snap::snap_to_nearest_edge_x;
use crate::snap::snap_to_nearest_edge_y;
use crate::snap::snap_x_spec;
use crate::snap::snap_y_spec;

verus! {

/// A finalized measurement rectangle in physical pixels, normalized so that
/// `left <= right` and `top <= bottom`.
#[derive(Debug, Clone, Copy, PartialEq, Eq, Structural)]
pub struct MeasureRect {
    /// Left edge.
    pub left: u32,
    /// Top edge.
    pub top: u32,
    /// Right edge.
    pub right: u32,
    /// Bottom edge.
    pub bottom: u32,
}

impl MeasureRect {
    /// Normalized and inside a `w x h` frame.
    pub open spec fn wf(self, w: int, h: int) -> bool {
        &&& self.left <= self.right < w
        &&& self.top <= self.bottom < h
    }
}

/// One input event, with pointer coordinates already converted to physical
/// pixels and clamped into the screenshot.
#[derive(Debug, Clone, Copy)]
pub enum InputEvent {
    /// The pointer moved to `(x, y)`.
    Motion {
        /// New pointer column.
        x: u32,
        /// New pointer row.
        y: u32,
    },
    /// The measure button went down.
    Press,
    /// The measure button came up.
    Release,
    /// Any key went down.
    Key,
}

/// What the user is doing right now.
#[derive(Debug, Clone, Copy)]
pub enum Mode {
    /// Live edge detection under the pointer.
    Idle,
    /// A drag is in progress since the button went down at
    /// `(start_x, start_y)`; `had_rect` remembers whether a finalized
    /// rectangle existed at the press (the press clears it).
    Dragging {
        /// Drag origin column.
        start_x: u32,
        /// Drag origin row.
        start_y: u32,
        /// A finalized rectangle was on screen when the drag began.
        had_rect: bool,
    },
    /// A snapped rectangle is on screen until the next drag.
    Measured {
        /// The finalized, snapped rectangle.
        rect: MeasureRect,
    },
}

/// The interaction state: the cached pointer position, the current mode, the
/// redraw dirty flag, and whether the user asked to leave.
#[derive(Debug, Clone, Copy)]
pub struct Interaction {
    /// Cached pointer column in physical pixels.
    pub pointer_x: u32,
    /// Cached pointer row in physical pixels.
    pub pointer_y: u32,
    /// What the user is doing.
    pub mode: Mode,
    /// A redraw is owed before the next idle point.
    pub needs_redraw: bool,
    /// The user asked to leave the program.
    pub exit_requested: bool,
}

/// The rectangle a finished drag from `(lx, ty)` to `(rx, by)` settles on:
/// each edge snapped inward onto the outermost content transition along its
/// span (landing on the last pixel still on the scan's starting side), then
/// normalized so left stays left of right and top above bottom.
pub open spec fn snapped_rect_spec(s: &Screenshot, lx: int, ty: int, rx: int, by: int) -> MeasureRect
    recommends
        lx <= rx,
        ty <= by,
{
    let l = snap_x_spec(s, lx, ty, by, 1);
    let r = snap_x_spec(s, rx, ty, by, -1);
    let t = snap_y_spec(s, ty, lx, rx, 1);
    let b = snap_y_spec(s, by, lx, rx, -1);
    MeasureRect {
        left: (if l <= r {
            l
        } else {
            r
        }) as u32,
        top: (if t <= b {
            t
        } else {
            b
        }) as u32,
        right: (if l <= r {
            r
        } else {
            l
        }) as u32,
        bottom: (if t <= b {
            b
        } else {
            t
        }) as u32,
    }
}

impl Interaction {
    /// The state the program starts in: pointer at the origin, idle, one
    /// initial redraw owed.
    pub open spec fn initial() -> Interaction {
        Interaction {
            pointer_x: 0,
            pointer_y: 0,
            mode: Mode::Idle,
            needs_redraw: true,
            exit_requested: false,
        }
    }

    /// Every coordinate the state holds lies inside the `w x h` screenshot.
    pub open spec fn wf(self, w: int, h: int) -> bool {
        &&& self.pointer_x < w
        &&& self.pointer_y < h
        &&& (self.mode matches Mode::Dragging { start_x, start_y, .. } ==> start_x < w && start_y
            < h)
        &&& (self.mode matches Mode::Measured { rect } ==> rect.wf(w, h))
    }

    /// The state one input event later.
    pub open spec fn after_event(self, s: &Screenshot, ev: InputEvent) -> Interaction {
        match ev {
            InputEvent::Motion { x, y } => Interaction {
                pointer_x: x,
                pointer_y: y,
                needs_redraw: true,
                ..self
            },
            InputEvent::Press => Interaction {
                mode: Mode::Dragging {
                    start_x: self.pointer_x,
                    start_y: self.pointer_y,
                    had_rect: self.mode is Measured,
                },
                needs_redraw: true,
                ..self
            },
            InputEvent::Release => match self.mode {
                Mode::Dragging { start_x, start_y, had_rect } => {
                    if start_x != self.pointer_x && start_y != self.pointer_y {
                        let lx = if start_x <= self.pointer_x {
                            start_x
                        } else {
                            self.pointer_x
                        };
                        let rx = if start_x <= self.pointer_x {
                            self.pointer_x
                        } else {
                            start_x
                        };
                        let ty = if start_y <= self.pointer_y {
                            start_y
                        } else {
                            self.pointer_y
                        };
                        let by = if start_y <= self.pointer_y {
                            self.pointer_y
                        } else {
                            start_y
                        };
                        Interaction {
                            mode: Mode::Measured {
                                rect: snapped_rect_spec(s, lx as int, ty as int, rx as int,
                                    by as int),
                            },
                            needs_redraw: true,
                            ..self
                        }
                    } else if had_rect {
                        Interaction { mode: Mode::Idle, needs_redraw: true, ..self }
                    } else {
                        Interaction {
                            mode: Mode::Idle,
                            needs_redraw: true,
                            exit_requested: true,
                            ..self
                        }
                    }
                },
                _ => self,
            },
            InputEvent::Key => Interaction { exit_requested: true, ..self },
        }
    }

    /// The state once a frame has been produced and submitted.
    pub open spec fn after_frame(self) -> Interaction {
        Interaction { needs_redraw: false, ..self }
    }

    /// A frame is owed.
    pub open spec fn wants_frame(self) -> bool {
        self.needs_redraw
    }

    /// Start the interactive phase.
    pub fn new() -> (st: Interaction)
        ensures
            st == Interaction::initial(),
    {
        Interaction {
            pointer_x: 0,
            pointer_y: 0,
            mode: Mode::Idle,
            needs_redraw: true,
            exit_requested: false,
        }
    }

    /// Interpret one input event against the frozen screenshot.  A release
    /// of a drag with both deltas non-zero promotes the provisional
    /// rectangle through the content snapper on all four edges; a zero-area
    /// release is a plain click, handled per the policy above.
    pub fn handle_event(&mut self, screenshot: &Screenshot, ev: InputEvent)
        requires
            screenshot.wf(),
            old(self).wf(screenshot.width as int, screenshot.height as int),
            ev matches InputEvent::Motion { x, y } ==> x < screenshot.width && y
                < screenshot.height,
        ensures
            *final(self) == old(self).after_event(screenshot, ev),
            final(self).wf(screenshot.width as int, screenshot.height as int),
    {
        match ev {
            InputEvent::Motion { x, y } => {
                self.pointer_x = x;
                self.pointer_y = y;
                self.needs_redraw = true;
            },
            InputEvent::Press => {
                let had_rect: bool = match self.mode {
                    Mode::Measured { .. } => true,
                    _ => false,
                };
                self.mode = Mode::Dragging {
                    start_x: self.pointer_x,
                    start_y: self.pointer_y,
                    had_rect,
                };
                self.needs_redraw = true;
            },
            InputEvent::Release => {
                match self.mode {
                    Mode::Dragging { start_x, start_y, had_rect } => {
                        if start_x != self.pointer_x && start_y != self.pointer_y {
                            let lx: u32 = if start_x <= self.pointer_x {
                                start_x
                            } else {
                                self.pointer_x
                            };
                            let rx: u32 = if start_x <= self.pointer_x {
                                self.pointer_x
                            } else {
                                start_x
                            };
                            let ty: u32 = if start_y <= self.pointer_y {
                                start_y
                            } else {
                                self.pointer_y
                            };
                            let by: u32 = if start_y <= self.pointer_y {
                                self.pointer_y
                            } else {
                                start_y
                            };
                            let l: u32 = snap_to_nearest_edge_x(screenshot, lx, ty, by, 1);
                            let r: u32 = snap_to_nearest_edge_x(screenshot, rx, ty, by, -1);
                            let t: u32 = snap_to_nearest_edge_y(screenshot, lx, rx, ty, 1);
                            let b: u32 = snap_to_nearest_edge_y(screenshot, lx, rx, by, -1);
                            let rect = MeasureRect {
                                left: if l <= r {
                                    l
                                } else {
                                    r
                                },
                                top: if t <= b {
                                    t
                                } else {
                                    b
                                },
                                right: if l <= r {
                                    r
                                } else {
                                    l
                                },
                                bottom: if t <= b {
                                    b
                                } else {
                                    t
                                },
                            };
                            self.mode = Mode::Measured { rect };
                            self.needs_redraw = true;
                        } else if had_rect {
                            self.mode = Mode::Idle;
                            self.needs_redraw = true;
                        } else {
                            self.mode = Mode::Idle;
                            self.needs_redraw = true;
                            self.exit_requested = true;
                        }
                    },
                    _ => {},
                }
            },
            InputEvent::Key => {
                self.exit_requested = true;
            },
        }
    }

    /// The redraw gate: report whether a frame is owed and mark it produced.
    /// The caller renders and submits a frame exactly when this returns
    /// true.
    pub fn take_redraw(&mut self) -> (r: bool)
        ensures
            r == old(self).wants_frame(),
            *final(self) == old(self).after_frame(),
    {
        let r: bool = self.needs_redraw;
        self.needs_redraw = false;
        r
    }

    /// The user asked to leave the program.
    pub fn should_exit(&self) -> (r: bool)
        ensures
            r == self.exit_requested,
    {
        self.exit_requested
    }
}

/// Law: rendering is idempotent behind the dirty flag.  Producing a frame
/// clears the flag, so with an unchanged state and pointer a second pass
/// wants no new frame: no new presentation is submitted until an input
/// event marks the state dirty again.
pub proof fn lemma_frame_idempotent(st: Interaction)
    ensures
        !st.after_frame().wants_frame(),
{
}

} // verus!
