//! The cursor model: where the eyes should look, in surface-local
//! coordinates.
//!
//! Wayland never tells an ordinary client where its surface lies on the
//! desktop. A global pointer sample and a surface-local sample of the same
//! pointer position together give that origin:
//! `surface_origin = global - local`. After such a calibration every later
//! global sample is turned back into surface-local coordinates with
//! `target = global - surface_origin`, also while the pointer is over
//! another client.
//!
//! The model is generic in the point type `P`: it decides which samples are
//! kept and which pair of samples calibrates the surface, and hands the
//! samples that make up the target to the caller, which does the arithmetic
//! in its own number type.
use vstd::prelude::*;

verus! {

/// A global and a surface-local sample of the same pointer position. Their
/// difference `global - local` is the origin of the surface on the desktop.
#[derive(Debug, Clone, Copy, PartialEq, Eq)]
pub struct Calibration<P> {
    /// The global sample.
    pub global: P,
    /// The surface-local sample.
    pub local: P,
}

/// Where the eyes should look.
#[derive(Debug, Clone, Copy, PartialEq, Eq)]
pub enum SurfaceTarget<P> {
    /// The latest global sample, to be mapped into the surface by the
    /// calibration: `global - (calibration.global - calibration.local)`.
    Calibrated { global: P, calibration: Calibration<P> },
    /// The latest surface-local sample, used as it is.
    Local(P),
}

/// The abstract state of a `CursorModel`.
pub struct CursorView<P> {
    /// The latest surface-local sample.
    pub local: Option<P>,
    /// The latest global sample.
    pub global: Option<P>,
    /// The samples the surface origin was last computed from.
    pub calibration: Option<Calibration<P>>,
    /// Whether the next global sample calibrates the surface again.
    pub recalibrate_pending: bool,
}

impl<P> CursorView<P> {
    /// The state before any sample arrived.
    pub open spec fn empty() -> CursorView<P> {
        CursorView { local: None, global: None, calibration: None, recalibrate_pending: false }
    }

    /// A calibration only ever pairs samples that were both seen, and a
    /// pending recalibration has a local sample to use.
    pub open spec fn wf(self) -> bool {
        &&& self.calibration is Some ==> self.local is Some && self.global is Some
        &&& self.recalibrate_pending ==> self.local is Some
    }

    /// The state with the surface calibrated from the latest global and
    /// local samples, when both are known; otherwise unchanged.
    pub open spec fn calibrated(self) -> CursorView<P> {
        match (self.global, self.local) {
            (Some(global), Some(local)) => CursorView {
                calibration: Some(Calibration { global, local }),
                ..self
            },
            _ => self,
        }
    }

    /// The state after a surface-local pointer motion to `point`.
    pub open spec fn with_local(self, point: P) -> CursorView<P> {
        CursorView { local: Some(point), ..self }.calibrated()
    }

    /// The state after the pointer entered the surface at `point`.
    pub open spec fn with_local_on_enter(self, point: P) -> CursorView<P> {
        CursorView { recalibrate_pending: true, ..self.with_local(point) }
    }

    /// The state after a global pointer sample `point`.
    pub open spec fn with_global(self, point: P) -> CursorView<P> {
        let next = CursorView { global: Some(point), ..self };
        if self.recalibrate_pending {
            CursorView { recalibrate_pending: false, ..next.calibrated() }
        } else {
            next
        }
    }

    /// Where the eyes should look in this state, if anywhere.
    pub open spec fn target(self) -> Option<SurfaceTarget<P>> {
        match (self.global, self.calibration) {
            (Some(global), Some(calibration)) => Some(
                SurfaceTarget::Calibrated { global, calibration },
            ),
            _ => match self.local {
                Some(local) => Some(SurfaceTarget::Local(local)),
                None => None,
            },
        }
    }
}

/// Surface-local and global pointer samples, and the calibration that links
/// them.
#[derive(Debug, Clone, Copy)]
pub struct CursorModel<P> {
    local: Option<P>,
    global: Option<P>,
    calibration: Option<Calibration<P>>,
    recalibrate_on_next_global: bool,
}

impl<P> View for CursorModel<P> {
    type V = CursorView<P>;

    closed spec fn view(&self) -> CursorView<P> {
        CursorView {
            local: self.local,
            global: self.global,
            calibration: self.calibration,
            recalibrate_pending: self.recalibrate_on_next_global,
        }
    }
}

impl<P: Copy> Default for CursorModel<P> {
    /// A model that has seen no sample yet.
    fn default() -> (r: CursorModel<P>)
        ensures
            r@ == CursorView::<P>::empty(),
    {
        CursorModel::new()
    }
}

impl<P: Copy> CursorModel<P> {
    /// A model that has seen no sample yet.
    pub fn new() -> (r: CursorModel<P>)
        ensures
            r@ == CursorView::<P>::empty(),
    {
        CursorModel { local: None, global: None, calibration: None, recalibrate_on_next_global: false }
    }

    /// Record a surface-local pointer motion. When a global sample is
    /// known, the surface is calibrated from it and this sample.
    pub fn set_local(&mut self, point: P)
        ensures
            final(self)@ == old(self)@.with_local(point),
            final(self)@.local == Some(point),
            final(self)@.global == old(self)@.global,
            final(self)@.recalibrate_pending == old(self)@.recalibrate_pending,
    {
        self.local = Some(point);
        self.try_calibrate();
    }

    /// Record a fresh local sample from a pointer-enter event.
    ///
    /// The global backend is delivered on another event loop, so the newest
    /// global point may arrive a few milliseconds after the enter signal.
    /// Calibrate immediately for responsiveness, then calibrate once more
    /// from the next global sample. Ordinary global updates never reuse stale
    /// local coordinates.
    pub fn set_local_on_enter(&mut self, point: P)
        ensures
            final(self)@ == old(self)@.with_local_on_enter(point),
    {
        self.local = Some(point);
        self.try_calibrate();
        self.recalibrate_on_next_global = true;
    }

    /// Record a global pointer sample. It calibrates the surface only when a
    /// pointer-enter asked for it.
    pub fn set_global(&mut self, point: P)
        ensures
            final(self)@ == old(self)@.with_global(point),
    {
        self.global = Some(point);
        if self.recalibrate_on_next_global {
            self.try_calibrate();
            self.recalibrate_on_next_global = false;
        }
    }

    /// Where the eyes should look: the latest global sample mapped through
    /// the calibration when both exist, else the latest local sample.
    pub fn target_in_surface(&self) -> (r: Option<SurfaceTarget<P>>)
        ensures
            r == self@.target(),
    {
        match (self.global, self.calibration) {
            (Some(global), Some(calibration)) => Some(
                SurfaceTarget::Calibrated { global, calibration },
            ),
            _ => match self.local {
                Some(local) => Some(SurfaceTarget::Local(local)),
                None => None,
            },
        }
    }

    fn try_calibrate(&mut self)
        ensures
            final(self)@ == old(self)@.calibrated(),
    {
        if let (Some(global), Some(local)) = (self.global, self.local) {
            self.calibration = Some(Calibration { global, local });
        }
    }
}

/// A model that has seen nothing is well formed, and every update keeps it
/// so: a calibration only pairs samples that were both seen.
pub proof fn law_updates_keep_wf<P>(v: CursorView<P>, point: P)
    requires
        v.wf(),
    ensures
        CursorView::<P>::empty().wf(),
        v.with_local(point).wf(),
        v.with_local_on_enter(point).wf(),
        v.with_global(point).wf(),
{
}

/// Without a global backend, the eyes follow the local samples as they are.
pub proof fn law_local_without_global<P>(points: Seq<P>)
    requires
        points.len() > 0,
    ensures
        local_trace(CursorView::<P>::empty(), points).target() == Some(
            SurfaceTarget::Local(points.last()),
        ),
        local_trace(CursorView::<P>::empty(), points).global is None,
        local_trace(CursorView::<P>::empty(), points).calibration is None,
    decreases points.len(),
{
    let prev = local_trace(CursorView::<P>::empty(), points.drop_last());
    if points.len() > 1 {
        law_local_without_global(points.drop_last());
    } else {
        assert(points.drop_last().len() == 0);
        assert(prev == CursorView::<P>::empty());
    }
    assert(local_trace(CursorView::<P>::empty(), points) == prev.with_local(points.last()));
}

/// The state after the local samples `points`, one after the other.
pub open spec fn local_trace<P>(v: CursorView<P>, points: Seq<P>) -> CursorView<P>
    decreases points.len(),
{
    if points.len() == 0 {
        v
    } else {
        local_trace(v, points.drop_last()).with_local(points.last())
    }
}

/// A local motion records its sample and keeps the global sample and a
/// pending recalibration as they are.
pub proof fn law_local_motion_keeps_pending<P>(v: CursorView<P>, point: P)
    ensures
        v.with_local(point).local == Some(point),
        v.with_local(point).global == v.global,
        v.with_local(point).recalibrate_pending == v.recalibrate_pending,
{
}

/// After local motions the state holds the latest local sample, and the
/// global sample and a pending recalibration are kept.
pub proof fn law_local_trace_keeps_pending<P>(v: CursorView<P>, points: Seq<P>)
    ensures
        local_trace(v, points).global == v.global,
        local_trace(v, points).recalibrate_pending == v.recalibrate_pending,
        points.len() > 0 ==> local_trace(v, points).local == Some(points.last()),
        points.len() == 0 ==> local_trace(v, points).local == v.local,
    decreases points.len(),
{
    if points.len() > 0 {
        law_local_trace_keeps_pending(v, points.drop_last());
    }
}

/// After a pointer-enter followed by any local motions, the next global
/// sample calibrates the surface from itself and the latest local sample, and
/// the calibrated target then follows later global samples.
pub proof fn law_enter_then_motion_recalibrates<P>(v: CursorView<P>, enter: P, motions: Seq<P>, first: P, second: P)
    ensures
        ({
            let moved = local_trace(v.with_local_on_enter(enter), motions);
            let latest = if motions.len() > 0 { motions.last() } else { enter };
            &&& moved.with_global(first).calibration == Some(Calibration { global: first, local: latest })
            &&& !moved.with_global(first).recalibrate_pending
            &&& moved.with_global(first).with_global(second).target() == Some(
                SurfaceTarget::Calibrated { global: second, calibration: Calibration { global: first, local: latest } },
            )
        }),
{
    law_local_trace_keeps_pending(v.with_local_on_enter(enter), motions);
}

/// Once a global sample is known, a local motion calibrates the surface, and
/// a later global sample is mapped through that calibration.
pub proof fn law_local_motion_calibrates<P>(v: CursorView<P>, global: P, local: P, next: P)
    requires
        v.global == Some(global),
        !v.recalibrate_pending,
    ensures
        v.with_local(local).calibration == Some(Calibration { global, local }),
        v.with_local(local).with_global(next).target() == Some(
            SurfaceTarget::Calibrated { global: next, calibration: Calibration { global, local } },
        ),
{
}

/// An ordinary global sample never recalibrates the surface: the calibration
/// stays and the new sample is mapped through it.
pub proof fn law_ordinary_global_keeps_calibration<P>(v: CursorView<P>, point: P)
    requires
        !v.recalibrate_pending,
    ensures
        v.with_global(point).calibration == v.calibration,
        v.with_global(point).local == v.local,
        v.calibration matches Some(c) ==> v.with_global(point).target() == Some(
            SurfaceTarget::Calibrated { global: point, calibration: c },
        ),
{
}

/// A pointer-enter calibrates the surface once more from the next global
/// sample, and only from that one.
pub proof fn law_enter_recalibrates_once<P>(v: CursorView<P>, local: P, first: P, second: P)
    ensures
        v.with_local_on_enter(local).with_global(first).calibration == Some(
            Calibration { global: first, local },
        ),
        !v.with_local_on_enter(local).with_global(first).recalibrate_pending,
        v.with_local_on_enter(local).with_global(first).with_global(second).target() == Some(
            SurfaceTarget::Calibrated { global: second, calibration: Calibration { global: first, local } },
        ),
{
}

/// The surface-local point a target stands for, with exact coordinates:
/// `global - (calibration.global - calibration.local)`, or the local sample.
pub open spec fn resolve_exact(target: SurfaceTarget<(int, int)>) -> (int, int) {
    match target {
        SurfaceTarget::Calibrated { global, calibration } => (
            global.0 - (calibration.global.0 - calibration.local.0),
            global.1 - (calibration.global.1 - calibration.local.1),
        ),
        SurfaceTarget::Local(point) => point,
    }
}

/// A calibrated target follows the global pointer one to one: at the
/// calibration's own global sample it is the calibration's local sample, and
/// moving the global sample by `(dx, dy)` moves the target by the same.
pub proof fn law_calibrated_target_follows_global(c: Calibration<(int, int)>, dx: int, dy: int)
    ensures
        resolve_exact(SurfaceTarget::Calibrated { global: c.global, calibration: c }) == c.local,
        resolve_exact(
            SurfaceTarget::Calibrated { global: (c.global.0 + dx, c.global.1 + dy), calibration: c },
        ) == (c.local.0 + dx, c.local.1 + dy),
{
}

} // verus!
