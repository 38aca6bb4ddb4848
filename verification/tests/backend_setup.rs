use wayeyes::backend::{AutoSelection, BackendEvent, EventKind};
use wayeyes::cli::{BackendKind, Cli};
use wayeyes::portal::{
    CursorModeChoice, PersistChoice, PortalError, PortalReply, PortalStep, SourceSelection,
};
use wayeyes::wayland::{
    classify_global, plan_cursor_sessions, plan_output_preparation, should_bind_pointer,
    validate_globals, GlobalKind, Managers, OutputObjects, OutputSessions, SessionAction,
    SetupError,
};

#[test]
fn cli_defaults_match_command_line_defaults() {
    let cli = Cli::default();
    assert_eq!(cli.width, 260);
    assert_eq!(cli.height, 150);
    assert!(!cli.undecorated);
    assert_eq!(cli.backend, BackendKind::Auto);
}

#[test]
fn window_size_has_a_floor() {
    let cli = Cli { width: 50, height: 40, undecorated: true, backend: BackendKind::Local };
    assert_eq!((cli.window_width(), cli.window_height()), (120, 80));
    let cli = Cli { width: 260, height: 150, undecorated: false, backend: BackendKind::Local };
    assert_eq!((cli.window_width(), cli.window_height()), (260, 150));
}

#[test]
fn only_auto_and_portal_attach_the_portal() {
    assert!(BackendKind::Auto.attaches_portal());
    assert!(BackendKind::Portal.attaches_portal());
    assert!(!BackendKind::Local.attaches_portal());
}

#[test]
fn registry_interfaces_are_recognised() {
    assert_eq!(classify_global("wl_seat"), Some(GlobalKind::Seat));
    assert_eq!(classify_global("wl_output"), Some(GlobalKind::Output));
    assert_eq!(
        classify_global("ext_output_image_capture_source_manager_v1"),
        Some(GlobalKind::SourceManager)
    );
    assert_eq!(classify_global("ext_image_copy_capture_manager_v1"), Some(GlobalKind::CaptureManager));
    assert_eq!(classify_global("zxdg_output_manager_v1"), Some(GlobalKind::XdgOutputManager));
    assert_eq!(classify_global("wl_compositor"), None);
    assert_eq!(classify_global("wl_seat2"), None);
    assert_eq!(classify_global(""), None);
}

#[test]
fn bind_versions_are_capped() {
    assert_eq!(GlobalKind::Seat.bind_version(10), 9);
    assert_eq!(GlobalKind::Seat.bind_version(7), 7);
    assert_eq!(GlobalKind::Output.bind_version(4), 4);
    assert_eq!(GlobalKind::Output.bind_version(2), 2);
    assert_eq!(GlobalKind::XdgOutputManager.bind_version(5), 3);
    assert_eq!(GlobalKind::SourceManager.bind_version(3), 1);
    assert_eq!(GlobalKind::CaptureManager.bind_version(2), 1);
}

#[test]
fn pointer_bound_once() {
    assert!(should_bind_pointer(true, false));
    assert!(!should_bind_pointer(true, true));
    assert!(!should_bind_pointer(false, false));
}

#[test]
fn globals_are_validated_in_order() {
    assert_eq!(validate_globals(false, false, 0, 0), Err(SetupError::NoCaptureManager));
    assert_eq!(validate_globals(true, false, 0, 0), Err(SetupError::NoSourceManager));
    assert_eq!(validate_globals(true, true, 0, 1), Err(SetupError::NoSeat));
    assert_eq!(validate_globals(true, true, 1, 0), Err(SetupError::NoOutput));
    assert_eq!(validate_globals(true, true, 1, 2), Ok(()));
    assert_eq!(
        SetupError::NoSeat.message(),
        "compositor did not advertise a wl_seat"
    );
}

#[test]
fn output_preparation_creates_missing_objects() {
    let all = Managers { source_manager: true, capture_manager: true, xdg_output_manager: true };
    let none = OutputObjects { source: false, capture_session: false, xdg_output: false };
    let plan = plan_output_preparation(all, none);
    assert!(plan.create_source && plan.create_capture_session && plan.create_xdg_output);

    let done = OutputObjects { source: true, capture_session: true, xdg_output: true };
    let plan = plan_output_preparation(all, done);
    assert!(!plan.create_source && !plan.create_capture_session && !plan.create_xdg_output);

    let no_source_manager = Managers { source_manager: false, ..all };
    let plan = plan_output_preparation(no_source_manager, none);
    assert!(!plan.create_source && !plan.create_capture_session && plan.create_xdg_output);
}

#[test]
fn cursor_sessions_are_planned_per_output() {
    let outputs = vec![
        OutputSessions { cursor_session: true, source: true },
        OutputSessions { cursor_session: false, source: true },
        OutputSessions { cursor_session: false, source: false },
    ];
    let plan = plan_cursor_sessions(true, true, &outputs).unwrap();
    assert_eq!(plan.actions, vec![SessionAction::Keep, SessionAction::Create, SessionAction::Skip]);
    assert_eq!(plan.streams, 2);

    assert_eq!(plan_cursor_sessions(false, true, &outputs).unwrap_err(), SetupError::NoPointer);
    assert_eq!(
        plan_cursor_sessions(true, false, &outputs).unwrap_err(),
        SetupError::CaptureManagerGone
    );
    let bare = vec![OutputSessions { cursor_session: false, source: false }];
    assert_eq!(plan_cursor_sessions(true, true, &bare).unwrap_err(), SetupError::NoCursorSessions);
    assert_eq!(plan_cursor_sessions(true, true, &Vec::new()).unwrap_err(), SetupError::NoCursorSessions);
}

#[test]
fn portal_handshake_reaches_ready() {
    let mut step = PortalStep::new();
    for reply in [
        PortalReply::CursorModes { metadata: true },
        PortalReply::SourceTypes { monitor: true },
        PortalReply::SessionCreated,
        PortalReply::SourcesSelected,
        PortalReply::Started { streams: 2 },
        PortalReply::RemoteOpened,
    ] {
        step = step.after(reply);
    }
    assert_eq!(step, PortalStep::Ready);
}

#[test]
fn portal_without_metadata_cursor_fails() {
    let step = PortalStep::new().after(PortalReply::CursorModes { metadata: false });
    assert_eq!(step, PortalStep::Failed(PortalError::NoMetadataCursor));
    assert_eq!(step.after(PortalReply::RemoteOpened), step);
    assert_eq!(
        PortalError::NoMetadataCursor.message(),
        "ScreenCast portal does not advertise Metadata cursor mode"
    );
}

#[test]
fn portal_without_monitor_or_streams_fails() {
    let step = PortalStep::QuerySourceTypes.after(PortalReply::SourceTypes { monitor: false });
    assert_eq!(step, PortalStep::Failed(PortalError::NoMonitorSource));
    let step = PortalStep::Start.after(PortalReply::Started { streams: 0 });
    assert_eq!(step, PortalStep::Failed(PortalError::NoStreams));
    assert_eq!(PortalStep::Start.after(PortalReply::SessionCreated), PortalStep::Start);
}

#[test]
fn direct_failure_before_ready_falls_back_to_portal() {
    let s = AutoSelection::new();
    assert_eq!(s.after_forward(EventKind::Failed, true), AutoSelection::Portal);
    assert_eq!(s.after_forward(EventKind::Failed, false), AutoSelection::Portal);
    assert_eq!(s.after_source_closed(), AutoSelection::Portal);
}

#[test]
fn direct_failure_after_ready_ends_selection() {
    let s = AutoSelection::new().after_forward(EventKind::Ready, true);
    assert_eq!(s, AutoSelection::Direct { ready: true });
    assert_eq!(s.after_forward(EventKind::Pointer, true), s);
    assert_eq!(s.after_forward(EventKind::Failed, true), AutoSelection::Finished);
}

#[test]
fn undelivered_events_end_selection() {
    assert_eq!(AutoSelection::new().after_forward(EventKind::Pointer, false), AutoSelection::Finished);
    assert_eq!(AutoSelection::Portal.after_forward(EventKind::Failed, false), AutoSelection::Finished);
    assert_eq!(AutoSelection::Portal.after_forward(EventKind::Pointer, true), AutoSelection::Portal);
    assert_eq!(AutoSelection::Portal.after_source_closed(), AutoSelection::Finished);
}

#[test]
fn event_kinds() {
    let ready: BackendEvent<(f64, f64)> = BackendEvent::Ready { backend: "wayland", streams: 1 };
    assert_eq!(ready.kind(), EventKind::Ready);
    assert_eq!(BackendEvent::Pointer((1.0, 2.0)).kind(), EventKind::Pointer);
    let failed: BackendEvent<(f64, f64)> =
        BackendEvent::Failed { backend: "wayland", message: String::new() };
    assert_eq!(failed.kind(), EventKind::Failed);
}

#[test]
fn portal_selects_metadata_cursor_of_monitors_without_persistence() {
    let step = PortalStep::new()
        .after(PortalReply::CursorModes { metadata: true })
        .after(PortalReply::SourceTypes { monitor: true })
        .after(PortalReply::SessionCreated);
    let expected = SourceSelection {
        cursor_mode: CursorModeChoice::Metadata,
        monitor: true,
        window: false,
        virtual_source: false,
        multiple: true,
        restore_token: false,
        persist: PersistChoice::DoNot,
    };
    assert_eq!(step, PortalStep::SelectSources(expected));
    assert_eq!(SourceSelection::requested(), expected);
    assert_eq!(step.after(PortalReply::SessionCreated), step);
    assert_eq!(step.after(PortalReply::SourcesSelected), PortalStep::Start);
}
