//! The ScreenCast portal handshake of the portal backend.
//!
//! Opening the portal is a sequence of requests, each answered
//! asynchronously: query the cursor modes and source types, create a
//! session, select monitor sources with cursor metadata, start the session
//! and open the PipeWire remote. `PortalStep` tells the caller which request
//! comes next, and `PortalStep::after` folds in each reply, failing as soon as
//! the portal cannot deliver cursor metadata for monitors.
use vstd::prelude::*;

verus! {

/// Why the ScreenCast portal cannot deliver cursor positions.
#[derive(Debug, Clone, Copy, PartialEq, Eq, Structural)]
pub enum PortalError {
    /// The portal does not offer cursor metadata.
    NoMetadataCursor,
    /// The portal does not offer monitor capture.
    NoMonitorSource,
    /// The portal granted no stream.
    NoStreams,
}

impl PortalError {
    /// The message reported for this error.
    pub open spec fn spec_message(self) -> Seq<char> {
        match self {
            PortalError::NoMetadataCursor => "ScreenCast portal does not advertise Metadata cursor mode"@,
            PortalError::NoMonitorSource => "ScreenCast portal does not advertise monitor capture"@,
            PortalError::NoStreams => "ScreenCast portal returned no streams"@,
        }
    }

    /// The message reported for this error.
    pub fn message(self) -> (r: &'static str)
        ensures
            r@ == self.spec_message(),
    {
        match self {
            PortalError::NoMetadataCursor => "ScreenCast portal does not advertise Metadata cursor mode",
            PortalError::NoMonitorSource => "ScreenCast portal does not advertise monitor capture",
            PortalError::NoStreams => "ScreenCast portal returned no streams",
        }
    }
}

/// How the portal draws the cursor into a stream.
#[derive(Debug, Clone, Copy, PartialEq, Eq, Structural)]
pub enum CursorModeChoice {
    /// Not at all.
    Hidden,
    /// Into the video frames.
    Embedded,
    /// As metadata beside the frames.
    Metadata,
}

/// Whether the portal may remember the selection for later sessions.
#[derive(Debug, Clone, Copy, PartialEq, Eq, Structural)]
pub enum PersistChoice {
    /// Do not persist.
    DoNot,
    /// Persist while the application runs.
    Application,
    /// Persist until explicitly revoked.
    ExplicitlyRevoked,
}

/// The options of the select-sources request.
#[derive(Debug, Clone, Copy, PartialEq, Eq, Structural)]
pub struct SourceSelection {
    /// How the cursor is delivered.
    pub cursor_mode: CursorModeChoice,
    /// Whether monitors may be chosen.
    pub monitor: bool,
    /// Whether windows may be chosen.
    pub window: bool,
    /// Whether virtual sources may be chosen.
    pub virtual_source: bool,
    /// Whether several sources may be chosen.
    pub multiple: bool,
    /// Whether a restore token of an earlier session is passed.
    pub restore_token: bool,
    /// Whether the portal may remember the selection.
    pub persist: PersistChoice,
}

impl SourceSelection {
    /// The selection WayEyes asks for: cursor metadata of any number of
    /// monitors, without restoring or persisting a session.
    pub open spec fn spec_requested() -> SourceSelection {
        SourceSelection {
            cursor_mode: CursorModeChoice::Metadata,
            monitor: true,
            window: false,
            virtual_source: false,
            multiple: true,
            restore_token: false,
            persist: PersistChoice::DoNot,
        }
    }

    /// The selection WayEyes asks for: cursor metadata of any number of
    /// monitors, without restoring or persisting a session.
    pub fn requested() -> (r: SourceSelection)
        ensures
            r == Self::spec_requested(),
    {
        SourceSelection {
            cursor_mode: CursorModeChoice::Metadata,
            monitor: true,
            window: false,
            virtual_source: false,
            multiple: true,
            restore_token: false,
            persist: PersistChoice::DoNot,
        }
    }
}

/// The next portal request, or the outcome of the handshake.
#[derive(Debug, Clone, Copy, PartialEq, Eq, Structural)]
pub enum PortalStep {
    QueryCursorModes,
    QuerySourceTypes,
    CreateSession,
    /// Select sources with these options.
    SelectSources(SourceSelection),
    Start,
    OpenRemote,
    /// The streams and the PipeWire remote are there.
    Ready,
    Failed(PortalError),
}

/// The portal's answer to a request.
#[derive(Debug, Clone, Copy, PartialEq, Eq, Structural)]
pub enum PortalReply {
    /// The available cursor modes; `metadata` when they include metadata.
    CursorModes { metadata: bool },
    /// The available source types; `monitor` when they include monitors.
    SourceTypes { monitor: bool },
    SessionCreated,
    SourcesSelected,
    /// The session started with `streams` streams.
    Started { streams: usize },
    RemoteOpened,
}

impl PortalStep {
    /// The handshake begins with the cursor-mode query.
    pub fn new() -> (r: PortalStep)
        ensures
            r == PortalStep::QueryCursorModes,
    {
        PortalStep::QueryCursorModes
    }

    /// How far the handshake has come: each request in order, then its end.
    pub open spec fn stage(self) -> nat {
        match self {
            PortalStep::QueryCursorModes => 0,
            PortalStep::QuerySourceTypes => 1,
            PortalStep::CreateSession => 2,
            PortalStep::SelectSources(_) => 3,
            PortalStep::Start => 4,
            PortalStep::OpenRemote => 5,
            PortalStep::Ready => 6,
            PortalStep::Failed(_) => 6,
        }
    }

    /// Whether the handshake is over.
    pub open spec fn is_done(self) -> bool {
        self is Ready || self is Failed
    }

    /// The step after `reply`. A reply that does not answer the current
    /// request changes nothing.
    pub open spec fn spec_after(self, reply: PortalReply) -> PortalStep {
        match (self, reply) {
            (PortalStep::QueryCursorModes, PortalReply::CursorModes { metadata }) => if metadata {
                PortalStep::QuerySourceTypes
            } else {
                PortalStep::Failed(PortalError::NoMetadataCursor)
            },
            (PortalStep::QuerySourceTypes, PortalReply::SourceTypes { monitor }) => if monitor {
                PortalStep::CreateSession
            } else {
                PortalStep::Failed(PortalError::NoMonitorSource)
            },
            (PortalStep::CreateSession, PortalReply::SessionCreated) => PortalStep::SelectSources(
                SourceSelection::spec_requested(),
            ),
            (PortalStep::SelectSources(_), PortalReply::SourcesSelected) => PortalStep::Start,
            (PortalStep::Start, PortalReply::Started { streams }) => if streams > 0 {
                PortalStep::OpenRemote
            } else {
                PortalStep::Failed(PortalError::NoStreams)
            },
            (PortalStep::OpenRemote, PortalReply::RemoteOpened) => PortalStep::Ready,
            _ => self,
        }
    }

    /// The step after `reply`.
    pub fn after(self, reply: PortalReply) -> (r: PortalStep)
        ensures
            r == self.spec_after(reply),
    {
        match (self, reply) {
            (PortalStep::QueryCursorModes, PortalReply::CursorModes { metadata }) => if metadata {
                PortalStep::QuerySourceTypes
            } else {
                PortalStep::Failed(PortalError::NoMetadataCursor)
            },
            (PortalStep::QuerySourceTypes, PortalReply::SourceTypes { monitor }) => if monitor {
                PortalStep::CreateSession
            } else {
                PortalStep::Failed(PortalError::NoMonitorSource)
            },
            (PortalStep::CreateSession, PortalReply::SessionCreated) => PortalStep::SelectSources(
                SourceSelection::requested(),
            ),
            (PortalStep::SelectSources(_), PortalReply::SourcesSelected) => PortalStep::Start,
            (PortalStep::Start, PortalReply::Started { streams }) => if streams > 0 {
                PortalStep::OpenRemote
            } else {
                PortalStep::Failed(PortalError::NoStreams)
            },
            (PortalStep::OpenRemote, PortalReply::RemoteOpened) => PortalStep::Ready,
            _ => self,
        }
    }
}

/// The step reached from `step` after the replies `replies`, in order.
pub open spec fn after_replies(step: PortalStep, replies: Seq<PortalReply>) -> PortalStep
    decreases replies.len(),
{
    if replies.len() == 0 {
        step
    } else {
        after_replies(step, replies.drop_last()).spec_after(replies.last())
    }
}

/// The replies of a portal that answers every request in turn.
pub open spec fn handshake(metadata: bool, monitor: bool, streams: usize) -> Seq<PortalReply> {
    seq![
        PortalReply::CursorModes { metadata },
        PortalReply::SourceTypes { monitor },
        PortalReply::SessionCreated,
        PortalReply::SourcesSelected,
        PortalReply::Started { streams },
        PortalReply::RemoteOpened,
    ]
}

/// Every reply either leaves the step as it is or moves the handshake
/// forward, so each request (the session creation among them) is made at
/// most once. Sources are only ever selected with the requested options, and
/// the PipeWire remote is only opened after the session started with at
/// least one stream.
pub proof fn law_handshake_moves_forward(step: PortalStep, reply: PortalReply)
    ensures
        step.spec_after(reply) == step || step.spec_after(reply).stage() > step.stage(),
        step.spec_after(reply) matches PortalStep::SelectSources(options) ==> (step.spec_after(reply) == step
            || options == SourceSelection::spec_requested()),
        step.spec_after(reply) is OpenRemote && !(step is OpenRemote) ==> (step is Start
            && (reply matches PortalReply::Started { streams } && streams > 0)),
{
}

/// A finished handshake stays finished, whatever else arrives.
pub proof fn law_done_is_final(step: PortalStep, reply: PortalReply)
    requires
        step.is_done(),
    ensures
        step.spec_after(reply) == step,
{
}

/// A handshake that reached source selection selects cursor metadata of any
/// number of monitors, without restoring or persisting a session.
pub proof fn law_handshake_selects_requested_sources(metadata: bool, monitor: bool, streams: usize)
    requires
        metadata,
        monitor,
    ensures
        after_replies(PortalStep::QueryCursorModes, handshake(metadata, monitor, streams).take(3))
            == PortalStep::SelectSources(SourceSelection::spec_requested()),
{
    let r = handshake(metadata, monitor, streams);
    let s0 = PortalStep::QueryCursorModes;
    assert(r.take(0).len() == 0);
    assert forall|k: int| 0 < k <= 3 implies #[trigger] r.take(k).drop_last() =~= r.take(k - 1) by {}
    reveal_with_fuel(after_replies, 4);
    assert(after_replies(s0, r.take(1)) == s0.spec_after(r[0]));
    assert(after_replies(s0, r.take(2)) == after_replies(s0, r.take(1)).spec_after(r[1]));
    assert(after_replies(s0, r.take(3)) == after_replies(s0, r.take(2)).spec_after(r[2]));
}

/// A complete handshake ends ready exactly when the portal offers cursor
/// metadata and monitor capture and grants at least one stream; otherwise it
/// fails with the first of these that is missing.
pub proof fn law_handshake_outcome(metadata: bool, monitor: bool, streams: usize)
    ensures
        after_replies(PortalStep::QueryCursorModes, handshake(metadata, monitor, streams)) == (
        if !metadata {
            PortalStep::Failed(PortalError::NoMetadataCursor)
        } else if !monitor {
            PortalStep::Failed(PortalError::NoMonitorSource)
        } else if streams == 0 {
            PortalStep::Failed(PortalError::NoStreams)
        } else {
            PortalStep::Ready
        }),
{
    let r = handshake(metadata, monitor, streams);
    let s0 = PortalStep::QueryCursorModes;
    assert(r.take(0).len() == 0);
    assert forall|k: int| 0 < k <= 6 implies #[trigger] r.take(k).drop_last() =~= r.take(k - 1) by {}
    assert(r.take(6) =~= r);
    reveal_with_fuel(after_replies, 7);
    assert(after_replies(s0, r.take(1)) == s0.spec_after(r[0]));
    assert(after_replies(s0, r.take(2)) == after_replies(s0, r.take(1)).spec_after(r[1]));
    assert(after_replies(s0, r.take(3)) == after_replies(s0, r.take(2)).spec_after(r[2]));
    assert(after_replies(s0, r.take(4)) == after_replies(s0, r.take(3)).spec_after(r[3]));
    assert(after_replies(s0, r.take(5)) == after_replies(s0, r.take(4)).spec_after(r[4]));
    assert(after_replies(s0, r.take(6)) == after_replies(s0, r.take(5)).spec_after(r[5]));
}

} // verus!
