//! Events from the pointer backends, how the window applies them, and the
//! automatic backend selection.
use vstd::prelude::*;
use crate::cursor::CursorModel;

verus! {

/// What a pointer backend reports to the window.
#[derive(Debug, Clone)]
pub enum BackendEvent<P> {
    /// The backend delivers global samples from `streams` sources.
    Ready { backend: &'static str, streams: usize },
    /// A global pointer sample.
    Pointer(P),
    /// The backend stopped.
    Failed { backend: &'static str, message: String },
}

/// The variant of a `BackendEvent`, without its contents.
#[derive(Debug, Clone, Copy, PartialEq, Eq, Structural)]
pub enum EventKind {
    Ready,
    Pointer,
    Failed,
}

impl<P> BackendEvent<P> {
    /// The variant of this event.
    pub open spec fn spec_kind(&self) -> EventKind {
        match self {
            BackendEvent::Ready { .. } => EventKind::Ready,
            BackendEvent::Pointer(_) => EventKind::Pointer,
            BackendEvent::Failed { .. } => EventKind::Failed,
        }
    }

    /// The variant of this event.
    pub fn kind(&self) -> (r: EventKind)
        ensures
            r == self.spec_kind(),
    {
        match self {
            BackendEvent::Ready { .. } => EventKind::Ready,
            BackendEvent::Pointer(_) => EventKind::Pointer,
            BackendEvent::Failed { .. } => EventKind::Failed,
        }
    }
}

impl<P: Copy> CursorModel<P> {
    /// Apply an event from a global backend: a pointer sample is recorded as
    /// the latest global sample and the eyes must be redrawn; readiness and
    /// failure reports leave the model as it is (local tracking stays
    /// available).
    pub fn apply_backend_event(&mut self, event: &BackendEvent<P>) -> (redraw: bool)
        ensures
            match event {
                BackendEvent::Pointer(point) => redraw && final(self)@ == old(self)@.with_global(*point),
                _ => !redraw && final(self)@ == old(self)@,
            },
    {
        match event {
            BackendEvent::Pointer(point) => {
                self.set_global(*point);
                true
            },
            _ => false,
        }
    }
}

/// Where automatic backend selection stands.
///
/// It listens to the direct Wayland backend first. When that backend fails
/// before it became ready, or stops delivering, it listens to the ScreenCast
/// portal backend instead; when that one stops too, the window keeps its
/// surface-local tracking. Every event received is forwarded to the window;
/// when the window no longer takes them, selection ends.
#[derive(Debug, Clone, Copy, PartialEq, Eq, Structural)]
pub enum AutoSelection {
    /// Listening to the direct Wayland backend; `ready` once it reported so.
    Direct { ready: bool },
    /// Listening to the ScreenCast portal backend.
    Portal,
    /// Selection has ended.
    Finished,
}

impl AutoSelection {
    /// Selection starts with the direct Wayland backend, not yet ready.
    pub fn new() -> (r: AutoSelection)
        ensures
            r == (AutoSelection::Direct { ready: false }),
    {
        AutoSelection::Direct { ready: false }
    }

    /// The state after an event of the current backend was forwarded to the
    /// window, `delivered` telling whether the window took it.
    pub open spec fn spec_after_forward(self, kind: EventKind, delivered: bool) -> AutoSelection {
        match self {
            AutoSelection::Direct { ready } => match kind {
                EventKind::Failed => if ready {
                    AutoSelection::Finished
                } else {
                    AutoSelection::Portal
                },
                EventKind::Ready => if delivered {
                    AutoSelection::Direct { ready: true }
                } else {
                    AutoSelection::Finished
                },
                EventKind::Pointer => if delivered {
                    self
                } else {
                    AutoSelection::Finished
                },
            },
            AutoSelection::Portal => if delivered {
                AutoSelection::Portal
            } else {
                AutoSelection::Finished
            },
            AutoSelection::Finished => AutoSelection::Finished,
        }
    }

    /// The state after the current backend stopped sending events.
    pub open spec fn spec_after_source_closed(self) -> AutoSelection {
        match self {
            AutoSelection::Direct { .. } => AutoSelection::Portal,
            _ => AutoSelection::Finished,
        }
    }

    /// Step after forwarding an event of kind `kind` of the current backend;
    /// `delivered` tells whether the window took it.
    pub fn after_forward(self, kind: EventKind, delivered: bool) -> (r: AutoSelection)
        ensures
            r == self.spec_after_forward(kind, delivered),
            self is Portal && delivered ==> r == AutoSelection::Portal,
    {
        match self {
            AutoSelection::Direct { ready } => match kind {
                EventKind::Failed => if ready {
                    AutoSelection::Finished
                } else {
                    AutoSelection::Portal
                },
                EventKind::Ready => if delivered {
                    AutoSelection::Direct { ready: true }
                } else {
                    AutoSelection::Finished
                },
                EventKind::Pointer => if delivered {
                    self
                } else {
                    AutoSelection::Finished
                },
            },
            AutoSelection::Portal => if delivered {
                AutoSelection::Portal
            } else {
                AutoSelection::Finished
            },
            AutoSelection::Finished => AutoSelection::Finished,
        }
    }

    /// Step after the current backend stopped sending events.
    pub fn after_source_closed(self) -> (r: AutoSelection)
        ensures
            r == self.spec_after_source_closed(),
    {
        match self {
            AutoSelection::Direct { .. } => AutoSelection::Portal,
            _ => AutoSelection::Finished,
        }
    }
}

/// A direct backend failure before readiness switches to the portal; after
/// readiness it ends selection, and the portal is never started.
pub proof fn law_direct_failure(ready: bool, delivered: bool)
    ensures
        (AutoSelection::Direct { ready }).spec_after_forward(EventKind::Failed, delivered) == (
        if ready {
            AutoSelection::Finished
        } else {
            AutoSelection::Portal
        }),
{
}

/// Every delivered event keeps the current backend, except a failure of the
/// direct backend: once on the portal, every delivered event of any kind
/// keeps the portal; on the direct backend, a delivered pointer sample keeps
/// it as it is and a delivered readiness report marks it ready.
pub proof fn law_delivered_events_keep_backend(kind: EventKind, ready: bool)
    ensures
        AutoSelection::Portal.spec_after_forward(kind, true) == AutoSelection::Portal,
        (AutoSelection::Direct { ready }).spec_after_forward(EventKind::Pointer, true) == (
        AutoSelection::Direct { ready }),
        (AutoSelection::Direct { ready }).spec_after_forward(EventKind::Ready, true) == (
        AutoSelection::Direct { ready: true }),
{
}

/// Once the portal is chosen, selection never returns to the direct
/// backend, and once it has ended it stays ended.
pub proof fn law_no_return_to_direct(s: AutoSelection, kind: EventKind, delivered: bool)
    requires
        !(s is Direct),
    ensures
        !(s.spec_after_forward(kind, delivered) is Direct),
        !(s.spec_after_source_closed() is Direct),
        s is Finished ==> s.spec_after_forward(kind, delivered) is Finished
            && s.spec_after_source_closed() is Finished,
{
}

/// An event the window did not take ends selection, except for a failure of
/// the direct backend before it became ready, which still hands over to the
/// portal.
pub proof fn law_undelivered_ends(s: AutoSelection, kind: EventKind)
    requires
        !(s == (AutoSelection::Direct { ready: false }) && kind == EventKind::Failed),
    ensures
        s.spec_after_forward(kind, false) is Finished,
{
}

} // verus!
