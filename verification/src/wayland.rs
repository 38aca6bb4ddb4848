//! Setup decisions of the direct Wayland cursor backend.
//!
//! The backend binds a seat, the outputs and the image-capture globals,
//! prepares per output a capture source, a constraint session (only to learn
//! the buffer size; no frame is ever captured) and an xdg-output, and then
//! opens one pointer cursor session per output. The functions here make those
//! decisions on plain values; the caller performs the protocol requests.
use vstd::prelude::*;
use vstd::string::StrSliceExecFns;

verus! {

/// Whether two strings hold the same characters.
fn same_text(a: &str, b: &str) -> (r: bool)
    ensures
        r == (a@ == b@),
{
    let n: usize = a.unicode_len();
    if n != b.unicode_len() {
        return false;
    }
    let mut i: usize = 0;
    while i < n
        invariant
            n == a@.len(),
            n == b@.len(),
            i <= n,
            forall|j: int| 0 <= j < i ==> a@[j] == b@[j],
        decreases n - i,
    {
        if a.get_char(i) != b.get_char(i) {
            return false;
        }
        i = i + 1;
    }
    assert(a@ =~= b@);
    true
}

/// The kinds of Wayland globals the backend binds.
#[derive(Debug, Clone, Copy, PartialEq, Eq, Structural)]
pub enum GlobalKind {
    Seat,
    Output,
    SourceManager,
    CaptureManager,
    XdgOutputManager,
}

/// Highest `wl_seat` version the backend speaks.
pub const SEAT_VERSION: u32 = 9;

/// Highest `wl_output` version the backend speaks.
pub const OUTPUT_VERSION: u32 = 4;

/// Version of the image-capture managers the backend speaks.
pub const CAPTURE_MANAGER_VERSION: u32 = 1;

/// Highest `zxdg_output_manager_v1` version the backend speaks.
pub const XDG_OUTPUT_MANAGER_VERSION: u32 = 3;

/// The global the backend binds for an advertised interface name, if any.
pub open spec fn spec_classify_global(interface: Seq<char>) -> Option<GlobalKind> {
    if interface == "wl_seat"@ {
        Some(GlobalKind::Seat)
    } else if interface == "wl_output"@ {
        Some(GlobalKind::Output)
    } else if interface == "ext_output_image_capture_source_manager_v1"@ {
        Some(GlobalKind::SourceManager)
    } else if interface == "ext_image_copy_capture_manager_v1"@ {
        Some(GlobalKind::CaptureManager)
    } else if interface == "zxdg_output_manager_v1"@ {
        Some(GlobalKind::XdgOutputManager)
    } else {
        None
    }
}

/// The global the backend binds for an advertised interface name, if any.
pub fn classify_global(interface: &str) -> (r: Option<GlobalKind>)
    ensures
        r == spec_classify_global(interface@),
        r matches Some(kind) ==> interface@ == kind.interface(),
{
    if same_text(interface, "wl_seat") {
        Some(GlobalKind::Seat)
    } else if same_text(interface, "wl_output") {
        Some(GlobalKind::Output)
    } else if same_text(interface, "ext_output_image_capture_source_manager_v1") {
        Some(GlobalKind::SourceManager)
    } else if same_text(interface, "ext_image_copy_capture_manager_v1") {
        Some(GlobalKind::CaptureManager)
    } else if same_text(interface, "zxdg_output_manager_v1") {
        Some(GlobalKind::XdgOutputManager)
    } else {
        None
    }
}

impl GlobalKind {
    /// The interface name a global of this kind is advertised under.
    pub open spec fn interface(self) -> Seq<char> {
        match self {
            GlobalKind::Seat => "wl_seat"@,
            GlobalKind::Output => "wl_output"@,
            GlobalKind::SourceManager => "ext_output_image_capture_source_manager_v1"@,
            GlobalKind::CaptureManager => "ext_image_copy_capture_manager_v1"@,
            GlobalKind::XdgOutputManager => "zxdg_output_manager_v1"@,
        }
    }

    /// The version to bind a global advertised at version `advertised`: the
    /// advertised one, capped at the highest the backend speaks; the capture
    /// managers always at their first version.
    pub open spec fn spec_bind_version(self, advertised: u32) -> u32 {
        match self {
            GlobalKind::Seat => if advertised < SEAT_VERSION { advertised } else { SEAT_VERSION },
            GlobalKind::Output => if advertised < OUTPUT_VERSION { advertised } else { OUTPUT_VERSION },
            GlobalKind::SourceManager => CAPTURE_MANAGER_VERSION,
            GlobalKind::CaptureManager => CAPTURE_MANAGER_VERSION,
            GlobalKind::XdgOutputManager => if advertised < XDG_OUTPUT_MANAGER_VERSION {
                advertised
            } else {
                XDG_OUTPUT_MANAGER_VERSION
            },
        }
    }

    /// The version to bind a global of this kind advertised at `advertised`.
    pub fn bind_version(self, advertised: u32) -> (r: u32)
        ensures
            r == self.spec_bind_version(advertised),
            r <= advertised || r == CAPTURE_MANAGER_VERSION,
    {
        let cap: u32 = match self {
            GlobalKind::Seat => SEAT_VERSION,
            GlobalKind::Output => OUTPUT_VERSION,
            GlobalKind::SourceManager => return CAPTURE_MANAGER_VERSION,
            GlobalKind::CaptureManager => return CAPTURE_MANAGER_VERSION,
            GlobalKind::XdgOutputManager => XDG_OUTPUT_MANAGER_VERSION,
        };
        if advertised < cap {
            advertised
        } else {
            cap
        }
    }
}

/// Whether a seat's capability report leads to binding its pointer: it has
/// the pointer capability and no pointer is bound yet.
pub fn should_bind_pointer(has_pointer_capability: bool, pointer_bound: bool) -> (r: bool)
    ensures
        r == (has_pointer_capability && !pointer_bound),
{
    has_pointer_capability && !pointer_bound
}

/// Why the direct Wayland backend cannot track the pointer.
#[derive(Debug, Clone, Copy, PartialEq, Eq, Structural)]
pub enum SetupError {
    NoCaptureManager,
    NoSourceManager,
    NoSeat,
    NoOutput,
    NoPointer,
    CaptureManagerGone,
    NoCursorSessions,
}

impl SetupError {
    /// The message reported for this error.
    pub open spec fn spec_message(self) -> Seq<char> {
        match self {
            SetupError::NoCaptureManager => "compositor does not advertise ext_image_copy_capture_manager_v1"@,
            SetupError::NoSourceManager => "compositor does not advertise ext_output_image_capture_source_manager_v1"@,
            SetupError::NoSeat => "compositor did not advertise a wl_seat"@,
            SetupError::NoOutput => "compositor did not advertise any wl_output"@,
            SetupError::NoPointer => "wl_seat does not expose a pointer capability"@,
            SetupError::CaptureManagerGone => "ext_image_copy_capture_manager_v1 disappeared"@,
            SetupError::NoCursorSessions => "no output cursor sessions could be created"@,
        }
    }

    /// The message reported for this error.
    pub fn message(self) -> (r: &'static str)
        ensures
            r@ == self.spec_message(),
    {
        match self {
            SetupError::NoCaptureManager => "compositor does not advertise ext_image_copy_capture_manager_v1",
            SetupError::NoSourceManager => "compositor does not advertise ext_output_image_capture_source_manager_v1",
            SetupError::NoSeat => "compositor did not advertise a wl_seat",
            SetupError::NoOutput => "compositor did not advertise any wl_output",
            SetupError::NoPointer => "wl_seat does not expose a pointer capability",
            SetupError::CaptureManagerGone => "ext_image_copy_capture_manager_v1 disappeared",
            SetupError::NoCursorSessions => "no output cursor sessions could be created",
        }
    }
}

/// Check the globals found in the first roundtrip: both image-capture
/// managers, a seat and an output are needed, and the first one missing
/// (in that order) is reported.
pub fn validate_globals(
    capture_manager: bool,
    source_manager: bool,
    seats: usize,
    outputs: usize,
) -> (r: Result<(), SetupError>)
    ensures
        r == (if !capture_manager {
            Err(SetupError::NoCaptureManager)
        } else if !source_manager {
            Err(SetupError::NoSourceManager)
        } else if seats == 0 {
            Err(SetupError::NoSeat)
        } else if outputs == 0 {
            Err(SetupError::NoOutput)
        } else {
            Ok(())
        }),
{
    if !capture_manager {
        return Err(SetupError::NoCaptureManager);
    }
    if !source_manager {
        return Err(SetupError::NoSourceManager);
    }
    if seats == 0 {
        return Err(SetupError::NoSeat);
    }
    if outputs == 0 {
        return Err(SetupError::NoOutput);
    }
    Ok(())
}

/// Which globals that create per-output objects are bound.
#[derive(Debug, Clone, Copy, PartialEq, Eq, Structural)]
pub struct Managers {
    pub source_manager: bool,
    pub capture_manager: bool,
    pub xdg_output_manager: bool,
}

/// Which per-output objects exist.
#[derive(Debug, Clone, Copy, PartialEq, Eq, Structural)]
pub struct OutputObjects {
    pub source: bool,
    pub capture_session: bool,
    pub xdg_output: bool,
}

/// Which per-output objects to create.
#[derive(Debug, Clone, Copy, PartialEq, Eq, Structural)]
pub struct OutputPlan {
    pub create_source: bool,
    pub create_capture_session: bool,
    pub create_xdg_output: bool,
}

/// Which per-output objects to create: each missing one whose manager is
/// bound; the constraint session also needs a source, existing or created
/// just before.
pub open spec fn spec_plan_output(managers: Managers, objects: OutputObjects) -> OutputPlan {
    let create_source = !objects.source && managers.source_manager;
    OutputPlan {
        create_source,
        create_capture_session: !objects.capture_session && managers.capture_manager && (
        objects.source || create_source),
        create_xdg_output: !objects.xdg_output && managers.xdg_output_manager,
    }
}

/// The objects an output has after carrying out `plan`.
pub open spec fn objects_after(objects: OutputObjects, plan: OutputPlan) -> OutputObjects {
    OutputObjects {
        source: objects.source || plan.create_source,
        capture_session: objects.capture_session || plan.create_capture_session,
        xdg_output: objects.xdg_output || plan.create_xdg_output,
    }
}

/// Which objects to create for one output when preparing outputs.
pub fn plan_output_preparation(managers: Managers, objects: OutputObjects) -> (r: OutputPlan)
    ensures
        r == spec_plan_output(managers, objects),
{
    let create_source = !objects.source && managers.source_manager;
    OutputPlan {
        create_source,
        create_capture_session: !objects.capture_session && managers.capture_manager && (
        objects.source || create_source),
        create_xdg_output: !objects.xdg_output && managers.xdg_output_manager,
    }
}

/// Which cursor-related objects an output has.
#[derive(Debug, Clone, Copy, PartialEq, Eq, Structural)]
pub struct OutputSessions {
    pub cursor_session: bool,
    pub source: bool,
}

/// What to do about one output's pointer cursor session.
#[derive(Debug, Clone, Copy, PartialEq, Eq, Structural)]
pub enum SessionAction {
    /// It already has one: keep it.
    Keep,
    /// Create one on the output's capture source.
    Create,
    /// It has no capture source: leave it out.
    Skip,
}

/// What to do about an output's pointer cursor session.
pub open spec fn session_action(output: OutputSessions) -> SessionAction {
    if output.cursor_session {
        SessionAction::Keep
    } else if output.source {
        SessionAction::Create
    } else {
        SessionAction::Skip
    }
}

/// How many of `outputs` deliver cursor positions once their sessions are
/// opened.
pub open spec fn active_count(outputs: Seq<OutputSessions>) -> nat
    decreases outputs.len(),
{
    if outputs.len() == 0 {
        0
    } else {
        active_count(outputs.drop_last()) + if session_action(outputs.last()) is Skip {
            0nat
        } else {
            1nat
        }
    }
}

/// The cursor sessions to open, one action per output in order, and how
/// many streams of cursor positions result.
#[derive(Debug, Clone)]
pub struct SessionPlan {
    pub actions: Vec<SessionAction>,
    pub streams: usize,
}

/// Plan the pointer cursor sessions: a bound pointer and the capture
/// manager are needed, and at least one output must end up with a session.
pub fn plan_cursor_sessions(
    pointer_bound: bool,
    capture_manager: bool,
    outputs: &Vec<OutputSessions>,
) -> (r: Result<SessionPlan, SetupError>)
    ensures
        !pointer_bound ==> r == Err::<SessionPlan, SetupError>(SetupError::NoPointer),
        pointer_bound && !capture_manager ==> r == Err::<SessionPlan, SetupError>(
            SetupError::CaptureManagerGone,
        ),
        pointer_bound && capture_manager && active_count(outputs@) == 0 ==> r == Err::<
            SessionPlan,
            SetupError,
        >(SetupError::NoCursorSessions),
        pointer_bound && capture_manager && active_count(outputs@) > 0 ==> (r matches Ok(plan) && {
            &&& plan.actions@ == outputs@.map_values(|o: OutputSessions| session_action(o))
            &&& plan.streams == active_count(outputs@)
        }),
{
    if !pointer_bound {
        return Err(SetupError::NoPointer);
    }
    if !capture_manager {
        return Err(SetupError::CaptureManagerGone);
    }
    let mut actions: Vec<SessionAction> = Vec::new();
    let mut count: usize = 0;
    let mut i: usize = 0;
    while i < outputs.len()
        invariant
            i <= outputs.len(),
            actions@ == outputs@.take(i as int).map_values(|o: OutputSessions| session_action(o)),
            count == active_count(outputs@.take(i as int)),
            count <= i,
        decreases outputs.len() - i,
    {
        let output = outputs[i];
        let action = if output.cursor_session {
            SessionAction::Keep
        } else if output.source {
            SessionAction::Create
        } else {
            SessionAction::Skip
        };
        assert(outputs@.take(i + 1).drop_last() =~= outputs@.take(i as int));
        if output.cursor_session || output.source {
            count = count + 1;
        }
        actions.push(action);
        i = i + 1;
        assert(actions@ =~= outputs@.take(i as int).map_values(|o: OutputSessions| session_action(o)));
    }
    assert(outputs@.take(outputs.len() as int) =~= outputs@);
    if count == 0 {
        return Err(SetupError::NoCursorSessions);
    }
    Ok(SessionPlan { actions, streams: count })
}

/// A global is bound exactly when it is advertised under the interface name
/// of its kind: each of the five names is recognised as its own kind, and any
/// other name is not recognised at all.
pub proof fn law_classify_exact(interface: Seq<char>, kind: GlobalKind)
    ensures
        spec_classify_global(interface) == Some(kind) <==> interface == kind.interface(),
        spec_classify_global(interface) is None <==> (forall|k: GlobalKind| interface != k.interface()),
{
    reveal_strlit("wl_seat");
    reveal_strlit("wl_output");
    reveal_strlit("ext_output_image_capture_source_manager_v1");
    reveal_strlit("ext_image_copy_capture_manager_v1");
    reveal_strlit("zxdg_output_manager_v1");
    if spec_classify_global(interface) is None {
        assert forall|k: GlobalKind| interface != k.interface() by {
            match k {
                GlobalKind::Seat => {},
                GlobalKind::Output => {},
                GlobalKind::SourceManager => {},
                GlobalKind::CaptureManager => {},
                GlobalKind::XdgOutputManager => {},
            }
        }
    } else {
        let k = spec_classify_global(interface)->0;
        assert(interface == k.interface());
    }
}

/// Preparing an output twice creates nothing the second time, and a
/// prepared output has a constraint session whenever both image-capture
/// managers are bound.
pub proof fn law_preparation_idempotent(managers: Managers, objects: OutputObjects)
    ensures
        ({
            let prepared = objects_after(objects, spec_plan_output(managers, objects));
            let again = spec_plan_output(managers, prepared);
            &&& !again.create_source
            &&& !again.create_capture_session
            &&& !again.create_xdg_output
            &&& managers.source_manager && managers.capture_manager ==> prepared.capture_session
        }),
{
}

/// Once the planned sessions are opened, planning again keeps every session
/// and opens none, with the same number of streams.
pub proof fn law_sessions_idempotent(outputs: Seq<OutputSessions>)
    ensures
        active_count(outputs.map_values(|o: OutputSessions| opened(o))) == active_count(outputs),
        forall|i: int|
            0 <= i < outputs.len() ==> !(session_action(#[trigger] opened(outputs[i])) is Create),
    decreases outputs.len(),
{
    if outputs.len() > 0 {
        law_sessions_idempotent(outputs.drop_last());
        assert(outputs.map_values(|o: OutputSessions| opened(o)).drop_last() =~= outputs.drop_last().map_values(
            |o: OutputSessions| opened(o),
        ));
    }
}

/// An output's sessions after its planned action was carried out.
pub open spec fn opened(output: OutputSessions) -> OutputSessions {
    OutputSessions {
        cursor_session: output.cursor_session || session_action(output) is Create,
        source: output.source,
    }
}

} // verus!
