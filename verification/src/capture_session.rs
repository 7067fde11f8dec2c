//! The state of one region capture: whether a capture is running, where it
//! was started from, and the captured frame waiting for the user's
//! selection.  The capture itself runs elsewhere and reports back here.

use vstd::prelude::*;
use crate::capture::{CapturedFrame, FrameView};

verus! {

/// Where a capture was started from.
#[derive(Clone, Copy, Debug, PartialEq, Eq, Structural)]
pub enum CaptureOrigin {
    MainWindow,
    Background,
}

/// The plain content of a capture session.
pub ghost struct SessionView {
    pub active: bool,
    pub origin: Option<CaptureOrigin>,
    pub pending: Option<(CaptureOrigin, FrameView)>,
}

/// No capture running, nothing remembered.
pub open spec fn idle() -> SessionView {
    SessionView { active: false, origin: None, pending: None }
}

/// The session after a capture from `origin` is asked for: unchanged while
/// another one runs.
pub open spec fn started(v: SessionView, origin: CaptureOrigin) -> SessionView {
    if v.active {
        v
    } else {
        SessionView { active: true, origin: Some(origin), pending: None }
    }
}

/// The session after the captured `frame` from `origin` awaits selection.
pub open spec fn stored(v: SessionView, origin: CaptureOrigin, frame: FrameView) -> SessionView {
    SessionView { active: v.active, origin: Some(origin), pending: Some((origin, frame)) }
}

/// The session after the waiting frame is handed out: the capture is over,
/// its origin is still remembered.
pub open spec fn taken(v: SessionView) -> SessionView {
    SessionView { active: false, origin: v.origin, pending: None }
}

struct PendingSelection {
    origin: CaptureOrigin,
    frame: CapturedFrame,
}

/// One region capture's state.
pub struct CaptureSession {
    active: bool,
    origin: Option<CaptureOrigin>,
    pending: Option<PendingSelection>,
}

impl View for CaptureSession {
    type V = SessionView;

    closed spec fn view(&self) -> SessionView {
        SessionView {
            active: self.active,
            origin: self.origin,
            pending: match self.pending {
                Some(p) => Some((p.origin, p.frame@)),
                None => None,
            },
        }
    }
}

impl CaptureSession {
    /// A session with no capture running.
    pub fn new() -> (s: Self)
        ensures
            s@ == idle(),
    {
        CaptureSession { active: false, origin: None, pending: None }
    }

    /// Whether a capture is running.
    pub fn is_active(&self) -> (r: bool)
        ensures
            r == self@.active,
    {
        self.active
    }

    /// Claims the session for a capture from `origin`; `false`, and nothing
    /// changes, while another capture runs.
    pub fn start(&mut self, origin: CaptureOrigin) -> (r: bool)
        ensures
            r == !old(self)@.active,
            final(self)@ == started(old(self)@, origin),
    {
        if self.active {
            return false;
        }
        self.active = true;
        self.origin = Some(origin);
        self.pending = None;
        true
    }

    /// The capture failed or could not report back: it is no longer running.
    pub fn capture_ended(&mut self)
        ensures
            final(self)@ == (SessionView { active: false, ..old(self)@ }),
    {
        self.active = false;
    }

    /// Keeps the captured `frame` from `origin` until the user selects a
    /// region of it.
    pub fn store_selection(&mut self, origin: CaptureOrigin, frame: CapturedFrame)
        ensures
            final(self)@ == stored(old(self)@, origin, frame@),
    {
        self.origin = Some(origin);
        self.pending = Some(PendingSelection { origin, frame });
    }

    /// Hands out the frame waiting for selection, if any, and ends the
    /// capture.
    pub fn take_selection(&mut self) -> (r: Option<(CaptureOrigin, CapturedFrame)>)
        ensures
            match (r, old(self)@.pending) {
                (None, None) => true,
                (Some((origin, frame)), Some((o, f))) => origin == o && frame@ == f,
                _ => false,
            },
            final(self)@ == taken(old(self)@),
    {
        let pending = self.pending.take();
        self.active = false;
        match pending {
            Some(p) => Some((p.origin, p.frame)),
            None => None,
        }
    }

    /// Drops any waiting frame, ends the capture and hands out where the
    /// session had been started from.
    pub fn cancel_selection(&mut self) -> (r: Option<CaptureOrigin>)
        ensures
            r == old(self)@.origin,
            final(self)@ == idle(),
    {
        self.pending = None;
        self.active = false;
        self.origin.take()
    }

    /// Forgets everything.
    pub fn reset(&mut self)
        ensures
            final(self)@ == idle(),
    {
        self.origin = None;
        self.pending = None;
        self.active = false;
    }
}

impl Default for CaptureSession {
    fn default() -> (s: Self)
        ensures
            s@ == idle(),
    {
        CaptureSession::new()
    }
}

/// A stored frame is handed out exactly once, and its origin is kept until
/// the session is cancelled.
pub proof fn selection_round_trip(v: SessionView, origin: CaptureOrigin, frame: FrameView)
    ensures
        stored(v, origin, frame).pending == Some((origin, frame)),
        taken(stored(v, origin, frame)) == (SessionView {
            active: false,
            origin: Some(origin),
            pending: None,
        }),
        taken(taken(stored(v, origin, frame))).pending is None,
{
}

/// While a capture runs, asking for another changes nothing.
pub proof fn running_capture_is_not_restarted(v: SessionView, origin: CaptureOrigin)
    requires
        v.active,
    ensures
        started(v, origin) == v,
{
}

} // verus!
