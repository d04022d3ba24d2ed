//! The overlay coordinator: a state machine over the overlay surface's
//! lifecycle, driven by capture requests and by the outcomes of the UI
//! actions it hands out.
//!
//! An activation runs: hide the main surface, let the compositor settle,
//! capture the target monitor, publish the frame (with target metadata) to
//! the shared slot, then create or reuse the overlay surface at exactly the
//! monitor's geometry and show it. The surface is created lazily, hidden on
//! deactivation rather than destroyed, and closed and rebuilt only when the
//! target geometry changes. Each activation draws a generation token; an
//! event of a superseded activation is disregarded, never applied. Any
//! failure after a frame may have been published clears the shared slot, so
//! captured pixels never linger for an overlay that did not appear.

use vstd::prelude::*;

use crate::encode::encode_frame;
use crate::encode::spec_transport_fits;
use crate::encode::transport_encoding;
use crate::error::CaptureError;
use crate::frame::RawFrame;
use crate::store::begin_post;
use crate::store::FrameStore;
use crate::surface::find_monitor_by_id;
use crate::surface::find_primary;
use crate::surface::spec_is_primary_choice;
use crate::surface::MonitorInfo;

verus! {

/// The geometry of one monitor, as the overlay surface must adopt it.
#[derive(Clone, Copy, Debug, PartialEq, Eq, Structural)]
pub struct MonitorBounds {
    pub x: i32,
    pub y: i32,
    pub width: u32,
    pub height: u32,
}

/// The geometry carried by a monitor descriptor.
pub open spec fn spec_bounds_of(m: MonitorInfo) -> MonitorBounds {
    MonitorBounds { x: m.x, y: m.y, width: m.width, height: m.height }
}

/// Read a monitor descriptor's geometry.
pub fn bounds_of(m: &MonitorInfo) -> (b: MonitorBounds)
    ensures
        b == spec_bounds_of(*m),
{
    MonitorBounds { x: m.x, y: m.y, width: m.width, height: m.height }
}

/// The geometry the overlay must adopt for the primary monitor: the first
/// descriptor flagged primary, or the first at all. Fails only when the
/// enumeration is empty.
pub fn primary_bounds(monitors: &Vec<MonitorInfo>) -> (r: Result<MonitorBounds, CaptureError>)
    ensures
        match r {
            Ok(b) => exists|i: int|
                #![auto]
                spec_is_primary_choice(monitors@, i) && b == spec_bounds_of(monitors@[i]),
            Err(e) => e is SurfaceNotFound && monitors@.len() == 0,
        },
{
    match find_primary(monitors) {
        Some(i) => Ok(bounds_of(&monitors[i])),
        None => Err(CaptureError::SurfaceNotFound),
    }
}

/// Where the overlay surface stands in its lifecycle.
#[derive(Clone, Copy, Debug, PartialEq, Eq, Structural)]
pub enum OverlayPhase {
    /// Not yet created (or closed for rebuilding).
    Absent,
    /// Created at some geometry but not visible.
    Hidden { bounds: MonitorBounds },
    /// Visible, filling one monitor.
    Shown { bounds: MonitorBounds },
}

/// The bounds the overlay surface currently occupies, if it exists.
pub open spec fn spec_phase_bounds(phase: OverlayPhase) -> Option<MonitorBounds> {
    match phase {
        OverlayPhase::Absent => None,
        OverlayPhase::Hidden { bounds } => Some(bounds),
        OverlayPhase::Shown { bounds } => Some(bounds),
    }
}

/// Where an activation sequence stands. Every stage but `Idle` carries the
/// sequence's generation token and its target monitor.
#[derive(Debug)]
pub enum Stage {
    /// No activation in flight.
    Idle,
    /// Waiting for the main surface to hide.
    HidingMain { gen: u64, target: MonitorInfo },
    /// Waiting for the compositor to settle.
    Settling { gen: u64, target: MonitorInfo },
    /// Waiting for the raw capture of the target monitor.
    Capturing { gen: u64, target: MonitorInfo },
    /// Waiting for an overlay at stale geometry to close.
    TearingDown { gen: u64, target: MonitorInfo },
    /// Waiting for the overlay surface to be created at the target bounds.
    Creating { gen: u64, target: MonitorInfo },
    /// Waiting for a reused overlay to be positioned at the target bounds.
    Positioning { gen: u64, target: MonitorInfo },
    /// Waiting for the overlay surface to become visible.
    Showing { gen: u64, target: MonitorInfo },
}

/// What the surrounding program must do next.
#[derive(Clone, Copy, Debug, PartialEq, Eq)]
pub enum UiAction {
    /// Hide the main UI surface.
    HideMainUi,
    /// Wait for the compositor's hide animation to finish.
    SettleCompositor,
    /// Capture the monitor with this id and report the raw frame.
    CaptureMonitor { id: u32 },
    /// Close the existing overlay surface and wait for its teardown.
    CloseOverlay,
    /// Create the overlay surface at these bounds: full-monitor, topmost,
    /// undecorated, off the taskbar, not yet visible.
    CreateOverlay { bounds: MonitorBounds },
    /// Move and size the reused overlay surface to exactly these bounds.
    PositionOverlay { bounds: MonitorBounds },
    /// Make the overlay surface visible.
    ShowOverlay,
    /// Tell the overlay surface a frame is ready to pull from the store.
    SignalFrameReady,
    /// Hide the overlay surface.
    HideOverlay,
    /// Nothing: the event belonged to a superseded sequence.
    Disregard,
}

/// One instruction to the surrounding program, tagged with the sequence it
/// belongs to so the outcome can be reported back under the same token.
#[derive(Clone, Copy, Debug, PartialEq, Eq)]
pub struct Directive {
    pub gen: u64,
    pub action: UiAction,
}

/// What the surrounding program reports back, under the sequence token of
/// the directive it carried out.
#[derive(Debug)]
pub enum UiEvent {
    /// The main UI surface is hidden.
    MainHidden { gen: u64 },
    /// The settle delay has elapsed.
    Settled { gen: u64 },
    /// The platform capture returned.
    CaptureFinished { gen: u64, result: Result<RawFrame, CaptureError> },
    /// The stale overlay surface has closed.
    OverlayClosed { gen: u64 },
    /// Creating the overlay surface succeeded or failed.
    OverlayCreated { gen: u64, result: Result<(), String> },
    /// Positioning the reused overlay succeeded or failed.
    OverlayPositioned { gen: u64, result: Result<(), String> },
    /// Showing the overlay succeeded or failed.
    OverlayShown { gen: u64, result: Result<(), String> },
}

/// The sequence token an event reports under.
pub open spec fn spec_event_gen(e: UiEvent) -> u64 {
    match e {
        UiEvent::MainHidden { gen } => gen,
        UiEvent::Settled { gen } => gen,
        UiEvent::CaptureFinished { gen, .. } => gen,
        UiEvent::OverlayClosed { gen } => gen,
        UiEvent::OverlayCreated { gen, .. } => gen,
        UiEvent::OverlayPositioned { gen, .. } => gen,
        UiEvent::OverlayShown { gen, .. } => gen,
    }
}

/// An event applies only when it is the kind the current stage waits for
/// and carries the current sequence's token.
pub open spec fn spec_accepts(stage: Stage, e: UiEvent) -> bool {
    match stage {
        Stage::Idle => false,
        Stage::HidingMain { gen, .. } => (e matches UiEvent::MainHidden { gen: eg } && eg == gen),
        Stage::Settling { gen, .. } => (e matches UiEvent::Settled { gen: eg } && eg == gen),
        Stage::Capturing { gen, .. } => (e matches UiEvent::CaptureFinished { gen: eg, .. }
            && eg == gen),
        Stage::TearingDown { gen, .. } => (e matches UiEvent::OverlayClosed { gen: eg }
            && eg == gen),
        Stage::Creating { gen, .. } => (e matches UiEvent::OverlayCreated { gen: eg, .. }
            && eg == gen),
        Stage::Positioning { gen, .. } => (e matches UiEvent::OverlayPositioned { gen: eg, .. }
            && eg == gen),
        Stage::Showing { gen, .. } => (e matches UiEvent::OverlayShown { gen: eg, .. }
            && eg == gen),
    }
}

/// The coordinator: the shared frame slot, the overlay surface's lifecycle
/// phase, and the stage of the activation in flight.
#[derive(Debug)]
pub struct Coordinator {
    store: FrameStore,
    phase: OverlayPhase,
    stage: Stage,
}

impl Coordinator {
    /// The shared frame slot.
    pub closed spec fn spec_store(self) -> FrameStore {
        self.store
    }

    /// The overlay surface's lifecycle phase.
    pub closed spec fn spec_phase(self) -> OverlayPhase {
        self.phase
    }

    /// The stage of the activation in flight.
    pub closed spec fn spec_stage(self) -> Stage {
        self.stage
    }

    /// A non-idle stage always carries the store's current generation: only
    /// the newest activation sequence is ever waited on.
    pub open spec fn wf(self) -> bool {
        match self.spec_stage() {
            Stage::Idle => true,
            Stage::HidingMain { gen, .. } => gen == self.spec_store().spec_generation(),
            Stage::Settling { gen, .. } => gen == self.spec_store().spec_generation(),
            Stage::Capturing { gen, .. } => gen == self.spec_store().spec_generation(),
            Stage::TearingDown { gen, .. } => gen == self.spec_store().spec_generation(),
            Stage::Creating { gen, .. } => gen == self.spec_store().spec_generation(),
            Stage::Positioning { gen, .. } => gen == self.spec_store().spec_generation(),
            Stage::Showing { gen, .. } => gen == self.spec_store().spec_generation(),
        }
    }

    /// A fresh coordinator: empty slot, no overlay surface, nothing in
    /// flight.
    pub fn new() -> (c: Coordinator)
        ensures
            c.wf(),
            c.spec_phase() is Absent,
            c.spec_stage() is Idle,
            c.spec_store().spec_frame() is None,
            c.spec_store().spec_target() is None,
            c.spec_store().spec_generation() == 0,
    {
        Coordinator { store: FrameStore::new(), phase: OverlayPhase::Absent, stage: Stage::Idle }
    }
}

/// An activation failed: the sequence is over and the shared slot is
/// emptied, so no published frame outlives a failed activation; the
/// generation and the overlay phase stay.
pub open spec fn spec_abort_keep_phase(pre: Coordinator, post: Coordinator) -> bool {
    &&& post.spec_stage() is Idle
    &&& post.spec_phase() == pre.spec_phase()
    &&& post.spec_store().spec_frame() is None
    &&& post.spec_store().spec_target() is None
    &&& post.spec_store().spec_generation() == pre.spec_store().spec_generation()
}

/// After a successful capture and publish, the next step on the overlay
/// surface: create it if absent, reuse it in place at the same geometry,
/// or close it first when it stands at different geometry.
pub open spec fn spec_overlay_plan(
    phase: OverlayPhase,
    gen: u64,
    target: MonitorInfo,
    post_stage: Stage,
    r: Result<Directive, CaptureError>,
) -> bool {
    let b = spec_bounds_of(target);
    match spec_phase_bounds(phase) {
        None => post_stage == (Stage::Creating { gen, target }) && r == Ok::<
            Directive,
            CaptureError,
        >(Directive { gen, action: UiAction::CreateOverlay { bounds: b } }),
        Some(bounds) => if bounds == b {
            post_stage == (Stage::Positioning { gen, target }) && r == Ok::<
                Directive,
                CaptureError,
            >(Directive { gen, action: UiAction::PositionOverlay { bounds: b } })
        } else {
            post_stage == (Stage::TearingDown { gen, target }) && r == Ok::<
                Directive,
                CaptureError,
            >(Directive { gen, action: UiAction::CloseOverlay })
        },
    }
}

/// The full transition relation of `Coordinator::step`.
pub open spec fn step_post(
    pre: Coordinator,
    event: UiEvent,
    post: Coordinator,
    r: Result<Directive, CaptureError>,
) -> bool {
    if !spec_accepts(pre.spec_stage(), event) {
        &&& post == pre
        &&& r == Ok::<Directive, CaptureError>(
            Directive { gen: spec_event_gen(event), action: UiAction::Disregard },
        )
    } else {
        match pre.spec_stage() {
            Stage::Idle => false,
            Stage::HidingMain { gen, target } => {
                &&& post.spec_stage() == (Stage::Settling { gen, target })
                &&& post.spec_phase() == pre.spec_phase()
                &&& post.spec_store() == pre.spec_store()
                &&& r == Ok::<Directive, CaptureError>(
                    Directive { gen, action: UiAction::SettleCompositor },
                )
            },
            Stage::Settling { gen, target } => {
                &&& post.spec_stage() == (Stage::Capturing { gen, target })
                &&& post.spec_phase() == pre.spec_phase()
                &&& post.spec_store() == pre.spec_store()
                &&& r == Ok::<Directive, CaptureError>(
                    Directive { gen, action: UiAction::CaptureMonitor { id: target.id } },
                )
            },
            Stage::Capturing { gen, target } => match event {
                UiEvent::CaptureFinished { result, .. } => match result {
                    Err(e) => spec_abort_keep_phase(pre, post) && r == Err::<
                        Directive,
                        CaptureError,
                    >(e),
                    Ok(raw) => if raw.spec_denied() {
                        spec_abort_keep_phase(pre, post) && (r matches Err(e)
                            && e is PermissionDenied)
                    } else if !spec_transport_fits(
                        raw.spec_width(),
                        raw.spec_height(),
                        raw.spec_pixels(),
                    ) {
                        spec_abort_keep_phase(pre, post) && (r matches Err(e) && e is EncodeError)
                    } else {
                        &&& post.spec_store().spec_generation()
                            == pre.spec_store().spec_generation()
                        &&& (post.spec_store().spec_frame() matches Some(s) && s@
                            == transport_encoding(
                            raw.spec_width(),
                            raw.spec_height(),
                            raw.spec_pixels(),
                        ))
                        &&& post.spec_store().spec_target() == Some(target)
                        &&& post.spec_phase() == pre.spec_phase()
                        &&& spec_overlay_plan(pre.spec_phase(), gen, target, post.spec_stage(), r)
                    },
                },
                _ => false,
            },
            Stage::TearingDown { gen, target } => {
                &&& post.spec_stage() == (Stage::Creating { gen, target })
                &&& post.spec_phase() is Absent
                &&& post.spec_store() == pre.spec_store()
                &&& r == Ok::<Directive, CaptureError>(
                    Directive {
                        gen,
                        action: UiAction::CreateOverlay { bounds: spec_bounds_of(target) },
                    },
                )
            },
            Stage::Creating { gen, target } => match event {
                UiEvent::OverlayCreated { result, .. } => match result {
                    Ok(_) => {
                        &&& post.spec_stage() == (Stage::Showing { gen, target })
                        &&& post.spec_phase() == (OverlayPhase::Hidden {
                            bounds: spec_bounds_of(target),
                        })
                        &&& post.spec_store() == pre.spec_store()
                        &&& r == Ok::<Directive, CaptureError>(
                            Directive { gen, action: UiAction::ShowOverlay },
                        )
                    },
                    Err(m) => {
                        &&& post.spec_stage() is Idle
                        &&& post.spec_phase() is Absent
                        &&& post.spec_store().spec_frame() is None
                        &&& post.spec_store().spec_target() is None
                        &&& post.spec_store().spec_generation()
                            == pre.spec_store().spec_generation()
                        &&& r == Err::<Directive, CaptureError>(
                            CaptureError::SurfaceLifecycleError(m),
                        )
                    },
                },
                _ => false,
            },
            Stage::Positioning { gen, target } => match event {
                UiEvent::OverlayPositioned { result, .. } => match result {
                    Ok(_) => {
                        &&& post.spec_stage() == (Stage::Showing { gen, target })
                        &&& post.spec_phase() == pre.spec_phase()
                        &&& post.spec_store() == pre.spec_store()
                        &&& r == Ok::<Directive, CaptureError>(
                            Directive { gen, action: UiAction::ShowOverlay },
                        )
                    },
                    Err(m) => spec_abort_keep_phase(pre, post) && r == Err::<
                        Directive,
                        CaptureError,
                    >(CaptureError::SurfaceLifecycleError(m)),
                },
                _ => false,
            },
            Stage::Showing { gen, target } => match event {
                UiEvent::OverlayShown { result, .. } => match result {
                    Ok(_) => {
                        &&& post.spec_stage() is Idle
                        &&& post.spec_phase() == (OverlayPhase::Shown {
                            bounds: spec_bounds_of(target),
                        })
                        &&& post.spec_store() == pre.spec_store()
                        &&& r == Ok::<Directive, CaptureError>(
                            Directive { gen, action: UiAction::SignalFrameReady },
                        )
                    },
                    Err(m) => spec_abort_keep_phase(pre, post) && r == Err::<
                        Directive,
                        CaptureError,
                    >(CaptureError::SurfaceLifecycleError(m)),
                },
                _ => false,
            },
        }
    }
}

/// How an accepted activation request changes the coordinator: a fresh
/// sequence token is drawn (superseding anything in flight), the sequence
/// starts by hiding the main surface, and the slot contents and overlay
/// phase stay as they were.
pub open spec fn activate_post(
    pre: Coordinator,
    post: Coordinator,
    target: MonitorInfo,
    d: Directive,
) -> bool {
    &&& begin_post(pre.spec_store(), post.spec_store(), d.gen)
    &&& post.spec_stage() == (Stage::HidingMain { gen: d.gen, target })
    &&& post.spec_phase() == pre.spec_phase()
    &&& d.action == UiAction::HideMainUi
}

impl Coordinator {
    /// Begin an activation sequence for `target`.
    fn begin_activation(&mut self, target: MonitorInfo) -> (d: Directive)
        requires
            old(self).wf(),
            old(self).spec_store().spec_generation() < u64::MAX,
        ensures
            final(self).wf(),
            activate_post(*old(self), *final(self), target, d),
    {
        let gen = self.store.begin_sequence();
        self.stage = Stage::HidingMain { gen, target };
        Directive { gen, action: UiAction::HideMainUi }
    }

    /// Start an interactive capture of the primary monitor: the first
    /// descriptor flagged primary, or the first at all. Fails only when the
    /// enumeration is empty.
    pub fn activate_fullscreen(&mut self, monitors: Vec<MonitorInfo>) -> (r: Result<
        Directive,
        CaptureError,
    >)
        requires
            old(self).wf(),
            old(self).spec_store().spec_generation() < u64::MAX,
        ensures
            final(self).wf(),
            match r {
                Ok(d) => exists|i: int|
                    #![auto]
                    spec_is_primary_choice(monitors@, i) && activate_post(
                        *old(self),
                        *final(self),
                        monitors@[i],
                        d,
                    ),
                Err(e) => e is SurfaceNotFound && *final(self) == *old(self) && monitors@.len()
                    == 0,
            },
    {
        let mut monitors = monitors;
        match find_primary(&monitors) {
            None => Err(CaptureError::SurfaceNotFound),
            Some(i) => {
                let target = monitors.remove(i);
                Ok(self.begin_activation(target))
            },
        }
    }

    /// Start an interactive capture of the monitor with the given id.
    /// Fails only when no enumerated monitor carries the id.
    pub fn activate_on_monitor(&mut self, monitors: Vec<MonitorInfo>, id: u32) -> (r: Result<
        Directive,
        CaptureError,
    >)
        requires
            old(self).wf(),
            old(self).spec_store().spec_generation() < u64::MAX,
        ensures
            final(self).wf(),
            match r {
                Ok(d) => exists|i: int|
                    #![auto]
                    0 <= i < monitors@.len() && monitors@[i].id == id && activate_post(
                        *old(self),
                        *final(self),
                        monitors@[i],
                        d,
                    ),
                Err(e) => e is SurfaceNotFound && *final(self) == *old(self) && (forall|j: int|
                    0 <= j < monitors@.len() ==> monitors@[j].id != id),
            },
    {
        let mut monitors = monitors;
        match find_monitor_by_id(&monitors, id) {
            None => Err(CaptureError::SurfaceNotFound),
            Some(i) => {
                let target = monitors.remove(i);
                Ok(self.begin_activation(target))
            },
        }
    }

    /// Apply one reported outcome and hand out the next action. An event
    /// from a superseded sequence changes nothing and is answered with
    /// `Disregard`.
    pub fn step(&mut self, event: UiEvent) -> (r: Result<Directive, CaptureError>)
        requires
            old(self).wf(),
        ensures
            final(self).wf(),
            step_post(*old(self), event, *final(self), r),
    {
        let egen = event_gen(&event);
        let mut stage = Stage::Idle;
        core::mem::swap(&mut stage, &mut self.stage);
        match stage {
            Stage::Idle => {
                self.stage = Stage::Idle;
                Ok(Directive { gen: egen, action: UiAction::Disregard })
            },
            Stage::HidingMain { gen, target } => match event {
                UiEvent::MainHidden { gen: eg } => {
                    if eg == gen {
                        self.stage = Stage::Settling { gen, target };
                        Ok(Directive { gen, action: UiAction::SettleCompositor })
                    } else {
                        self.stage = Stage::HidingMain { gen, target };
                        Ok(Directive { gen: egen, action: UiAction::Disregard })
                    }
                },
                _ => {
                    self.stage = Stage::HidingMain { gen, target };
                    Ok(Directive { gen: egen, action: UiAction::Disregard })
                },
            },
            Stage::Settling { gen, target } => match event {
                UiEvent::Settled { gen: eg } => {
                    if eg == gen {
                        let id = target.id;
                        self.stage = Stage::Capturing { gen, target };
                        Ok(Directive { gen, action: UiAction::CaptureMonitor { id } })
                    } else {
                        self.stage = Stage::Settling { gen, target };
                        Ok(Directive { gen: egen, action: UiAction::Disregard })
                    }
                },
                _ => {
                    self.stage = Stage::Settling { gen, target };
                    Ok(Directive { gen: egen, action: UiAction::Disregard })
                },
            },
            Stage::Capturing { gen, target } => match event {
                UiEvent::CaptureFinished { gen: eg, result } => {
                    if eg == gen {
                        self.finish_capture(gen, target, result)
                    } else {
                        self.stage = Stage::Capturing { gen, target };
                        Ok(Directive { gen: egen, action: UiAction::Disregard })
                    }
                },
                _ => {
                    self.stage = Stage::Capturing { gen, target };
                    Ok(Directive { gen: egen, action: UiAction::Disregard })
                },
            },
            Stage::TearingDown { gen, target } => match event {
                UiEvent::OverlayClosed { gen: eg } => {
                    if eg == gen {
                        let bounds = bounds_of(&target);
                        self.phase = OverlayPhase::Absent;
                        self.stage = Stage::Creating { gen, target };
                        Ok(Directive { gen, action: UiAction::CreateOverlay { bounds } })
                    } else {
                        self.stage = Stage::TearingDown { gen, target };
                        Ok(Directive { gen: egen, action: UiAction::Disregard })
                    }
                },
                _ => {
                    self.stage = Stage::TearingDown { gen, target };
                    Ok(Directive { gen: egen, action: UiAction::Disregard })
                },
            },
            Stage::Creating { gen, target } => match event {
                UiEvent::OverlayCreated { gen: eg, result } => {
                    if eg == gen {
                        match result {
                            Ok(_) => {
                                self.phase = OverlayPhase::Hidden { bounds: bounds_of(&target) };
                                self.stage = Stage::Showing { gen, target };
                                Ok(Directive { gen, action: UiAction::ShowOverlay })
                            },
                            Err(m) => {
                                self.store.clear();
                                self.phase = OverlayPhase::Absent;
                                self.stage = Stage::Idle;
                                Err(CaptureError::SurfaceLifecycleError(m))
                            },
                        }
                    } else {
                        self.stage = Stage::Creating { gen, target };
                        Ok(Directive { gen: egen, action: UiAction::Disregard })
                    }
                },
                _ => {
                    self.stage = Stage::Creating { gen, target };
                    Ok(Directive { gen: egen, action: UiAction::Disregard })
                },
            },
            Stage::Positioning { gen, target } => match event {
                UiEvent::OverlayPositioned { gen: eg, result } => {
                    if eg == gen {
                        match result {
                            Ok(_) => {
                                self.stage = Stage::Showing { gen, target };
                                Ok(Directive { gen, action: UiAction::ShowOverlay })
                            },
                            Err(m) => {
                                self.store.clear();
                                self.stage = Stage::Idle;
                                Err(CaptureError::SurfaceLifecycleError(m))
                            },
                        }
                    } else {
                        self.stage = Stage::Positioning { gen, target };
                        Ok(Directive { gen: egen, action: UiAction::Disregard })
                    }
                },
                _ => {
                    self.stage = Stage::Positioning { gen, target };
                    Ok(Directive { gen: egen, action: UiAction::Disregard })
                },
            },
            Stage::Showing { gen, target } => match event {
                UiEvent::OverlayShown { gen: eg, result } => {
                    if eg == gen {
                        match result {
                            Ok(_) => {
                                self.phase = OverlayPhase::Shown { bounds: bounds_of(&target) };
                                self.stage = Stage::Idle;
                                Ok(Directive { gen, action: UiAction::SignalFrameReady })
                            },
                            Err(m) => {
                                self.store.clear();
                                self.stage = Stage::Idle;
                                Err(CaptureError::SurfaceLifecycleError(m))
                            },
                        }
                    } else {
                        self.stage = Stage::Showing { gen, target };
                        Ok(Directive { gen: egen, action: UiAction::Disregard })
                    }
                },
                _ => {
                    self.stage = Stage::Showing { gen, target };
                    Ok(Directive { gen: egen, action: UiAction::Disregard })
                },
            },
        }
    }

    /// Encode the captured frame, publish it with the target metadata, and
    /// plan the overlay surface's next step.
    fn finish_capture(
        &mut self,
        gen: u64,
        target: MonitorInfo,
        result: Result<RawFrame, CaptureError>,
    ) -> (r: Result<Directive, CaptureError>)
        requires
            old(self).spec_stage() is Idle,
            gen == old(self).spec_store().spec_generation(),
        ensures
            final(self).wf(),
            step_post(
                Coordinator::with_stage(*old(self), Stage::Capturing { gen, target }),
                UiEvent::CaptureFinished { gen, result },
                *final(self),
                r,
            ),
    {
        match result {
            Err(e) => {
                self.store.clear();
                self.stage = Stage::Idle;
                Err(e)
            },
            Ok(raw) => {
                if raw.is_denied() {
                    self.store.clear();
                    self.stage = Stage::Idle;
                    Err(CaptureError::PermissionDenied)
                } else {
                    match encode_frame(&raw) {
                        Err(e) => {
                            self.store.clear();
                            self.stage = Stage::Idle;
                            Err(e)
                        },
                        Ok(s) => {
                            let bounds = bounds_of(&target);
                            let target_copy = target.duplicate();
                            let accepted = self.store.publish(gen, s, Some(target_copy));
                            proof {
                                assert(accepted);
                            }
                            match self.phase {
                                OverlayPhase::Absent => {
                                    self.stage = Stage::Creating { gen, target };
                                    Ok(
                                        Directive {
                                            gen,
                                            action: UiAction::CreateOverlay { bounds },
                                        },
                                    )
                                },
                                OverlayPhase::Hidden { bounds: at } => {
                                    if at == bounds {
                                        self.stage = Stage::Positioning { gen, target };
                                        Ok(
                                            Directive {
                                                gen,
                                                action: UiAction::PositionOverlay { bounds },
                                            },
                                        )
                                    } else {
                                        self.stage = Stage::TearingDown { gen, target };
                                        Ok(Directive { gen, action: UiAction::CloseOverlay })
                                    }
                                },
                                OverlayPhase::Shown { bounds: at } => {
                                    if at == bounds {
                                        self.stage = Stage::Positioning { gen, target };
                                        Ok(
                                            Directive {
                                                gen,
                                                action: UiAction::PositionOverlay { bounds },
                                            },
                                        )
                                    } else {
                                        self.stage = Stage::TearingDown { gen, target };
                                        Ok(Directive { gen, action: UiAction::CloseOverlay })
                                    }
                                },
                            }
                        },
                    }
                }
            },
        }
    }

    /// The coordinator with its stage replaced (ghost helper for relating
    /// a partially-moved state to the one the caller saw).
    spec fn with_stage(c: Coordinator, stage: Stage) -> Coordinator {
        Coordinator { store: c.store, phase: c.phase, stage }
    }

    /// Hide the overlay — never destroy it — and drop the target metadata.
    /// A published frame stays: the next activation overwrites it anyway.
    /// An absent overlay is tolerated, not an error.
    pub fn deactivate(&mut self) -> (action: UiAction)
        requires
            old(self).wf(),
        ensures
            final(self).wf(),
            final(self).spec_stage() is Idle,
            final(self).spec_store().spec_frame() == old(self).spec_store().spec_frame(),
            final(self).spec_store().spec_target() is None,
            final(self).spec_store().spec_generation() == old(
                self,
            ).spec_store().spec_generation(),
            match old(self).spec_phase() {
                OverlayPhase::Shown { bounds } => final(self).spec_phase() == (OverlayPhase::Hidden {
                    bounds,
                }) && action == UiAction::HideOverlay,
                OverlayPhase::Hidden { .. } => final(self).spec_phase() == old(self).spec_phase()
                    && action == UiAction::HideOverlay,
                OverlayPhase::Absent => final(self).spec_phase() == old(self).spec_phase()
                    && action == UiAction::Disregard,
            },
    {
        self.stage = Stage::Idle;
        self.store.clear_target();
        match self.phase {
            OverlayPhase::Shown { bounds } => {
                self.phase = OverlayPhase::Hidden { bounds };
                UiAction::HideOverlay
            },
            OverlayPhase::Hidden { .. } => UiAction::HideOverlay,
            OverlayPhase::Absent => UiAction::Disregard,
        }
    }

    /// The published frame, if any; never fails.
    pub fn read_published(&self) -> (r: Option<&String>)
        ensures
            match r {
                Some(s) => self.spec_store().spec_frame() == Some(*s),
                None => self.spec_store().spec_frame() is None,
            },
    {
        self.store.read()
    }

    /// The published target metadata, if any; never fails.
    pub fn read_target(&self) -> (r: Option<&MonitorInfo>)
        ensures
            match r {
                Some(m) => self.spec_store().spec_target() == Some(*m),
                None => self.spec_store().spec_target() is None,
            },
    {
        self.store.read_target()
    }

    /// Empty the shared slot; never fails.
    pub fn clear_published(&mut self)
        requires
            old(self).wf(),
        ensures
            final(self).wf(),
            final(self).spec_store().spec_frame() is None,
            final(self).spec_store().spec_target() is None,
            final(self).spec_store().spec_generation() == old(
                self,
            ).spec_store().spec_generation(),
            final(self).spec_phase() == old(self).spec_phase(),
            final(self).spec_stage() == old(self).spec_stage(),
    {
        self.store.clear();
    }

    /// The overlay surface's lifecycle phase.
    pub fn phase(&self) -> (p: OverlayPhase)
        ensures
            p == self.spec_phase(),
    {
        self.phase
    }

    /// The generation of the newest activation sequence.
    pub fn generation(&self) -> (g: u64)
        ensures
            g == self.spec_store().spec_generation(),
    {
        self.store.generation()
    }
}

/// The sequence token an event reports under.
fn event_gen(e: &UiEvent) -> (g: u64)
    ensures
        g == spec_event_gen(*e),
{
    match e {
        UiEvent::MainHidden { gen } => *gen,
        UiEvent::Settled { gen } => *gen,
        UiEvent::CaptureFinished { gen, .. } => *gen,
        UiEvent::OverlayClosed { gen } => *gen,
        UiEvent::OverlayCreated { gen, .. } => *gen,
        UiEvent::OverlayPositioned { gen, .. } => *gen,
        UiEvent::OverlayShown { gen, .. } => *gen,
    }
}

/// Completing an activation leaves the overlay surface shown at exactly the
/// target monitor's geometry — whatever geometry it had before.
pub proof fn lemma_retarget_matches_monitor(
    pre: Coordinator,
    event: UiEvent,
    post: Coordinator,
    r: Result<Directive, CaptureError>,
    gen: u64,
    target: MonitorInfo,
)
    requires
        step_post(pre, event, post, r),
        pre.spec_stage() == (Stage::Showing { gen, target }),
        event matches UiEvent::OverlayShown { gen: eg, result } && eg == gen && result is Ok,
    ensures
        post.spec_phase() == (OverlayPhase::Shown { bounds: spec_bounds_of(target) }),
        r == Ok::<Directive, CaptureError>(Directive { gen, action: UiAction::SignalFrameReady }),
{
}

/// Retargeting to a monitor whose geometry differs from the overlay's
/// current geometry always closes the old surface before rebuilding.
pub proof fn lemma_retarget_closes_stale_surface(
    pre: Coordinator,
    event: UiEvent,
    post: Coordinator,
    r: Result<Directive, CaptureError>,
    gen: u64,
    target: MonitorInfo,
)
    requires
        step_post(pre, event, post, r),
        pre.spec_stage() == (Stage::Capturing { gen, target }),
        event matches UiEvent::CaptureFinished { gen: eg, result } && eg == gen && (result matches
            Ok(raw) && !raw.spec_denied()),
        r is Ok,
        spec_phase_bounds(pre.spec_phase()) matches Some(b) && b != spec_bounds_of(target),
    ensures
        post.spec_stage() == (Stage::TearingDown { gen, target }),
        r == Ok::<Directive, CaptureError>(Directive { gen, action: UiAction::CloseOverlay }),
{
}

/// An event belonging to a superseded activation sequence changes nothing:
/// a stale capture can never reach the shared slot once a newer sequence
/// has begun, so the slot never mixes one sequence's frame with another's
/// metadata.
pub proof fn lemma_superseded_event_changes_nothing(
    pre: Coordinator,
    event: UiEvent,
    post: Coordinator,
    r: Result<Directive, CaptureError>,
)
    requires
        step_post(pre, event, post, r),
        !spec_accepts(pre.spec_stage(), event),
    ensures
        post == pre,
        r == Ok::<Directive, CaptureError>(
            Directive { gen: spec_event_gen(event), action: UiAction::Disregard },
        ),
{
}

/// Any surface-lifecycle failure empties the shared slot: captured pixels
/// never persist for an overlay that did not appear.
pub proof fn lemma_surface_failure_clears_slot(
    pre: Coordinator,
    event: UiEvent,
    post: Coordinator,
    r: Result<Directive, CaptureError>,
)
    requires
        step_post(pre, event, post, r),
        r matches Err(e) && e is SurfaceLifecycleError,
    ensures
        post.spec_store().spec_frame() is None,
        post.spec_store().spec_target() is None,
{
}

} // verus!
