use wayeyes::backend::BackendEvent;
use wayeyes::cursor::{Calibration, CursorModel, SurfaceTarget};

type Point = (f64, f64);

/// The surface-local point a target stands for, computed the way the window
/// does: `global - (calibration.global - calibration.local)`.
fn resolve(target: Option<SurfaceTarget<Point>>) -> Option<Point> {
    target.map(|target| match target {
        SurfaceTarget::Calibrated { global, calibration } => {
            let origin = (
                calibration.global.0 - calibration.local.0,
                calibration.global.1 - calibration.local.1,
            );
            (global.0 - origin.0, global.1 - origin.1)
        }
        SurfaceTarget::Local(point) => point,
    })
}

#[test]
fn local_coordinates_work_without_global_backend() {
    let mut model = CursorModel::default();
    model.set_local((12.0, 34.0));
    assert_eq!(resolve(model.target_in_surface()), Some((12.0, 34.0)));
}

#[test]
fn local_motion_calibrates_surface_origin_once_global_is_known() {
    let mut model = CursorModel::default();
    model.set_global((420.0, 230.0));
    model.set_local((20.0, 30.0));

    model.set_global((500.0, 260.0));

    assert_eq!(resolve(model.target_in_surface()), Some((100.0, 60.0)));
}

#[test]
fn ordinary_global_updates_do_not_reuse_stale_local_coordinates() {
    let mut model = CursorModel::default();
    model.set_global((420.0, 230.0));
    model.set_local((20.0, 30.0));

    model.set_global((500.0, 260.0));
    model.set_global((520.0, 270.0));

    assert_eq!(resolve(model.target_in_surface()), Some((120.0, 70.0)));
}

#[test]
fn pointer_enter_recalibrates_again_on_next_global_sample() {
    let mut model = CursorModel::default();
    model.set_global((420.0, 230.0));
    model.set_local((20.0, 30.0));

    // The window moved while the pointer was away: the enter event comes
    // first, then the matching fresh global point.
    model.set_local_on_enter((10.0, 15.0));
    model.set_global((710.0, 415.0));
    model.set_global((730.0, 425.0));

    assert_eq!(resolve(model.target_in_surface()), Some((30.0, 25.0)));
}

#[test]
fn empty_model_has_no_target() {
    let model: CursorModel<Point> = CursorModel::new();
    assert_eq!(model.target_in_surface(), None);
}

#[test]
fn global_samples_alone_do_not_move_the_eyes() {
    let mut model = CursorModel::new();
    model.set_global((420.0, 230.0));
    assert_eq!(model.target_in_surface(), None);
    model.set_local((20.0, 30.0));
    model.set_global((421.0, 231.0));
    assert_eq!(
        model.target_in_surface(),
        Some(SurfaceTarget::Calibrated {
            global: (421.0, 231.0),
            calibration: Calibration { global: (420.0, 230.0), local: (20.0, 30.0) },
        })
    );
}

#[test]
fn enter_before_any_global_sample_calibrates_from_the_first_one() {
    let mut model = CursorModel::new();
    model.set_local_on_enter((5.0, 6.0));
    assert_eq!(resolve(model.target_in_surface()), Some((5.0, 6.0)));
    model.set_global((105.0, 206.0));
    model.set_global((110.0, 210.0));
    assert_eq!(resolve(model.target_in_surface()), Some((10.0, 10.0)));
}

#[test]
fn only_pointer_events_update_the_model() {
    let mut model = CursorModel::new();
    model.set_global((420.0, 230.0));
    model.set_local((20.0, 30.0));

    let ready: BackendEvent<Point> = BackendEvent::Ready { backend: "portal", streams: 2 };
    assert!(!model.apply_backend_event(&ready));
    let failed: BackendEvent<Point> =
        BackendEvent::Failed { backend: "portal", message: String::from("gone") };
    assert!(!model.apply_backend_event(&failed));
    assert_eq!(resolve(model.target_in_surface()), Some((20.0, 30.0)));

    assert!(model.apply_backend_event(&BackendEvent::Pointer((500.0, 260.0))));
    assert_eq!(resolve(model.target_in_surface()), Some((100.0, 60.0)));
}
