//! The capture client's negotiation logic: how the protocol's signals fold
//! into the capture state, which announced format is kept, when the blocking
//! waits may stop, and what outcome the capture settles on.
//!
//! The unverified front end owns the wire: it binds the protocol objects,
//! turns their signals into [`CaptureEvent`] values, feeds them through
//! [`CaptureState::on_event`], and executes the decisions stated here.

use vstd::prelude::*;

use crate::frame::FrameFormat;
use crate::frame::PixelFormat;

verus! {

/// What ended a capture, per the failure taxonomy: a missing compositor
/// interface, a negotiation without a usable format, a failed copy, or an
/// exhausted resource.  All of them are fatal to the capture; none is
/// retried.
#[derive(Debug, Clone, Copy, PartialEq, Eq, Structural)]
pub enum CaptureError {
    /// A required compositor interface (capture manager, shared-memory
    /// manager, output) is absent from the registry.
    ProtocolUnavailable,
    /// The format announcements finished without an acceptable format.
    NoFormat,
    /// The compositor signalled that the copy failed.
    CopyFailed,
    /// The shared-memory segment could not be allocated or sized.
    ShmAllocation,
    /// The connection's event dispatch failed.
    ConnectionLost,
}

impl CaptureError {
    /// The actionable message each error carries to the fatal-exit path.
    pub open spec fn message_spec(self) -> Seq<char> {
        match self {
            CaptureError::ProtocolUnavailable => "screen capture protocol not available"@,
            CaptureError::NoFormat => "no suitable buffer format received"@,
            CaptureError::CopyFailed => "screen capture failed"@,
            CaptureError::ShmAllocation => "failed to allocate shared memory"@,
            CaptureError::ConnectionLost => "display server connection failed"@,
        }
    }

    /// Describe the error for the process's final message.
    pub fn message(&self) -> (m: &'static str)
        ensures
            m@ == self.message_spec(),
    {
        match self {
            CaptureError::ProtocolUnavailable => "screen capture protocol not available",
            CaptureError::NoFormat => "no suitable buffer format received",
            CaptureError::CopyFailed => "screen capture failed",
            CaptureError::ShmAllocation => "failed to allocate shared memory",
            CaptureError::ConnectionLost => "display server connection failed",
        }
    }
}

/// The signals a one-shot capture can observe, in the order the compositor
/// emits them: candidate formats, the end of the announcements, then exactly
/// one of ready or failed.
#[derive(Debug, Clone, Copy)]
pub enum CaptureEvent {
    /// A candidate buffer format was announced.
    Buffer(FrameFormat),
    /// All candidate formats have been announced.
    BufferDone,
    /// The copy into the shared buffer completed.
    Ready,
    /// The copy failed.
    Failed,
    /// Any other protocol signal; ignored.
    Other,
}

/// Progress of one capture negotiation: the best format announced so far and
/// which of the terminal signals have arrived.
#[derive(Debug, Clone, Copy)]
pub struct CaptureState {
    /// The accepted format announcement, once one arrived.
    pub format: Option<FrameFormat>,
    /// All format announcements are in.
    pub done: bool,
    /// The copy completed.
    pub ready: bool,
    /// The copy failed.
    pub failed: bool,
}

impl CaptureState {
    /// The state before any signal arrived.
    pub open spec fn initial() -> CaptureState {
        CaptureState { format: None, done: false, ready: false, failed: false }
    }

    /// The state one event later.  A format announcement is kept when it is
    /// the first or when it beats the held one in the canonical preference
    /// order; the three terminal signals each latch their flag.
    pub open spec fn after_event(self, ev: CaptureEvent) -> CaptureState {
        match ev {
            CaptureEvent::Buffer(f) => match self.format {
                None => CaptureState { format: Some(f), ..self },
                Some(held) => if f.format.rank() < held.format.rank() {
                    CaptureState { format: Some(f), ..self }
                } else {
                    self
                },
            },
            CaptureEvent::BufferDone => CaptureState { done: true, ..self },
            CaptureEvent::Ready => CaptureState { ready: true, ..self },
            CaptureEvent::Failed => CaptureState { failed: true, ..self },
            CaptureEvent::Other => self,
        }
    }

    /// The state after a whole sequence of events.
    pub open spec fn after_events(self, evs: Seq<CaptureEvent>) -> CaptureState
        decreases evs.len(),
    {
        if evs.len() == 0 {
            self
        } else {
            self.after_event(evs[0]).after_events(evs.drop_first())
        }
    }

    /// Start a capture negotiation.
    pub fn new() -> (s: CaptureState)
        ensures
            s == CaptureState::initial(),
    {
        CaptureState { format: None, done: false, ready: false, failed: false }
    }

    /// Fold one protocol signal into the state.
    pub fn on_event(&mut self, ev: CaptureEvent)
        ensures
            *final(self) == old(self).after_event(ev),
    {
        match ev {
            CaptureEvent::Buffer(f) => {
                let replace: bool = match self.format {
                    None => true,
                    Some(held) => format_rank(f.format) < format_rank(held.format),
                };
                if replace {
                    self.format = Some(f);
                }
            },
            CaptureEvent::BufferDone => {
                self.done = true;
            },
            CaptureEvent::Ready => {
                self.ready = true;
            },
            CaptureEvent::Failed => {
                self.failed = true;
            },
            CaptureEvent::Other => {},
        }
    }

    /// Fold a batch of protocol signals into the state.
    pub fn on_events(&mut self, evs: &Vec<CaptureEvent>)
        ensures
            *final(self) == old(self).after_events(evs@),
    {
        let mut i: usize = 0;
        proof {
            assert(evs@.subrange(0, evs@.len() as int) =~= evs@);
        }
        while i < evs.len()
            invariant
                i <= evs.len(),
                old(self).after_events(evs@) == self.after_events(evs@.subrange(
                    i as int,
                    evs@.len() as int,
                )),
            decreases evs.len() - i,
        {
            let ghost pre = evs@.subrange(i as int, evs@.len() as int);
            self.on_event(evs[i]);
            proof {
                assert(pre.drop_first() =~= evs@.subrange(i + 1 as int, evs@.len() as int));
            }
            i = i + 1;
        }
        proof {
            assert(evs@.subrange(evs@.len() as int, evs@.len() as int) =~= Seq::<
                CaptureEvent,
            >::empty());
        }
    }

    /// The format-announcement barrier: the first blocking wait may stop.
    pub fn negotiation_done(&self) -> (r: bool)
        ensures
            r == self.done,
    {
        self.done
    }

    /// The copy has settled one way or the other: the second blocking wait
    /// may stop.
    pub fn copy_settled(&self) -> (r: bool)
        ensures
            r == (self.ready || self.failed),
    {
        self.ready || self.failed
    }

    /// Once the announcements are done: the format the capture proceeds
    /// with, or the error owed when none was acceptable — exactly when no
    /// announcement arrived.
    pub fn chosen_format(&self) -> (r: Result<FrameFormat, CaptureError>)
        requires
            self.done,
        ensures
            self.format is Some ==> r == Ok::<FrameFormat, CaptureError>(self.format->0),
            self.format is None ==> r == Err::<FrameFormat, CaptureError>(CaptureError::NoFormat),
    {
        match self.format {
            Some(f) => Ok(f),
            None => Err(CaptureError::NoFormat),
        }
    }

    /// Once the copy has settled: success exactly when no failure was
    /// signalled before the wait ended.
    pub fn copy_outcome(&self) -> (r: Result<(), CaptureError>)
        requires
            self.ready || self.failed,
        ensures
            self.failed ==> r == Err::<(), CaptureError>(CaptureError::CopyFailed),
            !self.failed ==> self.ready && r == Ok::<(), CaptureError>(()),
    {
        if self.failed {
            Err(CaptureError::CopyFailed)
        } else {
            Ok(())
        }
    }
}

/// Canonical preference rank of a pixel format, lower first.
fn format_rank(f: PixelFormat) -> (r: u32)
    ensures
        r == f.rank(),
{
    match f {
        PixelFormat::Abgr8888 | PixelFormat::Xbgr8888 => 0,
        PixelFormat::Argb8888 | PixelFormat::Xrgb8888 => 1,
    }
}

/// Size in bytes of the shared-memory segment a capture frame needs:
/// `stride x height`, the stride covering any row padding.
pub fn shm_size(format: &FrameFormat) -> (size: u64)
    ensures
        size == format.stride * format.height,
{
    proof {
        assert(format.stride * format.height <= u64::MAX) by (nonlinear_arith)
            requires
                format.stride <= u32::MAX,
                format.height <= u32::MAX,
        ;
    }
    (format.stride as u64) * (format.height as u64)
}

/// Law: a failure signal is latched.  Whatever events follow a `Failed`
/// signal, the state keeps reporting failure, so a capture that fails before
/// any ready signal settles on the error path and never on success.
pub proof fn lemma_failure_latched(s: CaptureState, evs: Seq<CaptureEvent>)
    requires
        s.failed,
    ensures
        s.after_events(evs).failed,
    decreases evs.len(),
{
    if evs.len() > 0 {
        lemma_failure_latched(s.after_event(evs[0]), evs.drop_first());
    }
}

} // verus!
