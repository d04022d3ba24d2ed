//! The shared frame slot and the overlay coordinator: publish/read/clear,
//! superseded sequences, retargeting, and failure cleanup.

use fullshot::error::CaptureError;
use fullshot::frame::RawFrame;
use fullshot::overlay::primary_bounds;
use fullshot::overlay::Coordinator;
use fullshot::overlay::MonitorBounds;
use fullshot::overlay::OverlayPhase;
use fullshot::overlay::UiAction;
use fullshot::overlay::UiEvent;
use fullshot::store::FrameStore;
use fullshot::surface::MonitorInfo;

fn monitor(id: u32, x: i32, width: u32, height: u32, primary: bool) -> MonitorInfo {
    MonitorInfo {
        id,
        name: format!("monitor-{}", id),
        width,
        height,
        x,
        y: 0,
        is_primary: primary,
    }
}

fn bounds(x: i32, width: u32, height: u32) -> MonitorBounds {
    MonitorBounds {
        x,
        y: 0,
        width,
        height,
    }
}

fn small_frame(shade: u8) -> RawFrame {
    let pixels = vec![shade; 4 * 4 * 2];
    RawFrame::new(4, 2, pixels).unwrap()
}

/// Drive one activation from its first directive through to the ready
/// signal, returning the directives seen on the way.
fn run_activation(coordinator: &mut Coordinator, gen: u64, frame: RawFrame) -> Vec<UiAction> {
    let mut seen = Vec::new();
    let d = coordinator.step(UiEvent::MainHidden { gen }).unwrap();
    seen.push(d.action);
    let d = coordinator.step(UiEvent::Settled { gen }).unwrap();
    seen.push(d.action);
    let mut d = coordinator
        .step(UiEvent::CaptureFinished {
            gen,
            result: Ok(frame),
        })
        .unwrap();
    seen.push(d.action);
    if d.action == UiAction::CloseOverlay {
        d = coordinator.step(UiEvent::OverlayClosed { gen }).unwrap();
        seen.push(d.action);
    }
    if matches!(d.action, UiAction::CreateOverlay { .. }) {
        d = coordinator
            .step(UiEvent::OverlayCreated {
                gen,
                result: Ok(()),
            })
            .unwrap();
        seen.push(d.action);
    }
    if matches!(d.action, UiAction::PositionOverlay { .. }) {
        d = coordinator
            .step(UiEvent::OverlayPositioned {
                gen,
                result: Ok(()),
            })
            .unwrap();
        seen.push(d.action);
    }
    assert_eq!(d.action, UiAction::ShowOverlay);
    let d = coordinator
        .step(UiEvent::OverlayShown {
            gen,
            result: Ok(()),
        })
        .unwrap();
    seen.push(d.action);
    assert_eq!(d.action, UiAction::SignalFrameReady);
    seen
}

#[test]
fn primary_bounds_follow_the_flagged_monitor() {
    let monitors = vec![monitor(1, 0, 800, 600, false), monitor(2, 800, 1920, 1080, true)];
    assert_eq!(primary_bounds(&monitors).unwrap(), bounds(800, 1920, 1080));
    let unflagged = vec![monitor(3, 0, 640, 480, false)];
    assert_eq!(primary_bounds(&unflagged).unwrap(), bounds(0, 640, 480));
    let none: Vec<MonitorInfo> = Vec::new();
    assert!(matches!(
        primary_bounds(&none),
        Err(CaptureError::SurfaceNotFound)
    ));
}

#[test]
fn cleared_slot_reads_none_whatever_came_before() {
    let mut store = FrameStore::new();
    let token = store.begin_sequence();
    assert!(store.publish(token, "frame-bytes".to_string(), None));
    assert!(store.read().is_some());
    store.clear();
    assert!(store.read().is_none());
    assert!(store.read_target().is_none());
    store.clear();
    assert!(store.read().is_none());
}

#[test]
fn superseded_publish_is_discarded_in_either_order() {
    // A begins, then B begins before A publishes; A's publish lands first.
    let mut store = FrameStore::new();
    let token_a = store.begin_sequence();
    let token_b = store.begin_sequence();
    assert!(!store.publish(token_a, "frame-a".to_string(), Some(monitor(1, 0, 800, 600, true))));
    assert!(store.publish(token_b, "frame-b".to_string(), Some(monitor(2, 800, 640, 480, false))));
    assert_eq!(store.read().unwrap(), "frame-b");
    assert_eq!(store.read_target().unwrap().id, 2);

    // Same two sequences, but B's publish lands first.
    let mut store = FrameStore::new();
    let token_a = store.begin_sequence();
    let token_b = store.begin_sequence();
    assert!(store.publish(token_b, "frame-b".to_string(), Some(monitor(2, 800, 640, 480, false))));
    assert!(!store.publish(token_a, "frame-a".to_string(), Some(monitor(1, 0, 800, 600, true))));
    assert_eq!(store.read().unwrap(), "frame-b");
    assert_eq!(store.read_target().unwrap().id, 2);
}

#[test]
fn activation_creates_overlay_at_monitor_bounds() {
    let mut coordinator = Coordinator::new();
    let monitors = vec![monitor(1, 0, 1920, 1080, true), monitor(2, 1920, 1280, 1024, false)];
    let d = coordinator.activate_on_monitor(monitors, 2).unwrap();
    assert_eq!(d.action, UiAction::HideMainUi);
    let gen = d.gen;

    let d = coordinator.step(UiEvent::MainHidden { gen }).unwrap();
    assert_eq!(d.action, UiAction::SettleCompositor);
    let d = coordinator.step(UiEvent::Settled { gen }).unwrap();
    assert_eq!(d.action, UiAction::CaptureMonitor { id: 2 });
    let d = coordinator
        .step(UiEvent::CaptureFinished {
            gen,
            result: Ok(small_frame(10)),
        })
        .unwrap();
    assert_eq!(
        d.action,
        UiAction::CreateOverlay {
            bounds: bounds(1920, 1280, 1024)
        }
    );
    let d = coordinator
        .step(UiEvent::OverlayCreated {
            gen,
            result: Ok(()),
        })
        .unwrap();
    assert_eq!(d.action, UiAction::ShowOverlay);
    let d = coordinator
        .step(UiEvent::OverlayShown {
            gen,
            result: Ok(()),
        })
        .unwrap();
    assert_eq!(d.action, UiAction::SignalFrameReady);

    assert_eq!(
        coordinator.phase(),
        OverlayPhase::Shown {
            bounds: bounds(1920, 1280, 1024)
        }
    );
    assert!(coordinator.read_published().is_some());
    assert_eq!(coordinator.read_target().unwrap().id, 2);
}

#[test]
fn activation_on_unknown_monitor_is_surface_not_found() {
    let mut coordinator = Coordinator::new();
    let monitors = vec![monitor(1, 0, 1920, 1080, true)];
    let r = coordinator.activate_on_monitor(monitors, 9);
    assert!(matches!(r, Err(CaptureError::SurfaceNotFound)));
}

#[test]
fn fullscreen_activation_picks_the_primary_monitor() {
    let mut coordinator = Coordinator::new();
    let monitors = vec![monitor(5, 0, 800, 600, false), monitor(6, 800, 1920, 1080, true)];
    let d = coordinator.activate_fullscreen(monitors).unwrap();
    let gen = d.gen;
    coordinator.step(UiEvent::MainHidden { gen }).unwrap();
    let d = coordinator.step(UiEvent::Settled { gen }).unwrap();
    assert_eq!(d.action, UiAction::CaptureMonitor { id: 6 });
}

#[test]
fn fullscreen_activation_without_monitors_fails() {
    let mut coordinator = Coordinator::new();
    let r = coordinator.activate_fullscreen(Vec::new());
    assert!(matches!(r, Err(CaptureError::SurfaceNotFound)));
}

#[test]
fn retargeting_rebuilds_overlay_at_the_new_geometry() {
    let mut coordinator = Coordinator::new();
    let monitors =
        || vec![monitor(1, 0, 1920, 1080, true), monitor(2, 1920, 1280, 1024, false)];

    let d = coordinator.activate_on_monitor(monitors(), 1).unwrap();
    run_activation(&mut coordinator, d.gen, small_frame(1));
    assert_eq!(
        coordinator.phase(),
        OverlayPhase::Shown {
            bounds: bounds(0, 1920, 1080)
        }
    );

    // Retarget to the other monitor: the overlay must be closed and rebuilt.
    let d = coordinator.activate_on_monitor(monitors(), 2).unwrap();
    let actions = run_activation(&mut coordinator, d.gen, small_frame(2));
    assert!(actions.contains(&UiAction::CloseOverlay));
    assert!(actions.contains(&UiAction::CreateOverlay {
        bounds: bounds(1920, 1280, 1024)
    }));
    assert_eq!(
        coordinator.phase(),
        OverlayPhase::Shown {
            bounds: bounds(1920, 1280, 1024)
        }
    );

    // Retarget back at unchanged geometry for the same monitor: reused.
    let d = coordinator.activate_on_monitor(monitors(), 2).unwrap();
    let actions = run_activation(&mut coordinator, d.gen, small_frame(3));
    assert!(!actions.contains(&UiAction::CloseOverlay));
    assert!(actions.contains(&UiAction::PositionOverlay {
        bounds: bounds(1920, 1280, 1024)
    }));
}

#[test]
fn superseded_activation_events_are_disregarded() {
    let mut coordinator = Coordinator::new();
    let monitors =
        || vec![monitor(1, 0, 1920, 1080, true), monitor(2, 1920, 1280, 1024, false)];

    // Sequence A runs until it waits for its capture.
    let a = coordinator.activate_on_monitor(monitors(), 1).unwrap();
    coordinator.step(UiEvent::MainHidden { gen: a.gen }).unwrap();
    coordinator.step(UiEvent::Settled { gen: a.gen }).unwrap();

    // Sequence B supersedes A before A's capture lands.
    let b = coordinator.activate_on_monitor(monitors(), 2).unwrap();

    // A's capture arrives late: disregarded, nothing published.
    let d = coordinator
        .step(UiEvent::CaptureFinished {
            gen: a.gen,
            result: Ok(small_frame(1)),
        })
        .unwrap();
    assert_eq!(d.action, UiAction::Disregard);
    assert!(coordinator.read_published().is_none());

    // B's sequence completes; the slot holds B's frame and B's monitor.
    run_activation(&mut coordinator, b.gen, small_frame(2));
    assert!(coordinator.read_published().is_some());
    assert_eq!(coordinator.read_target().unwrap().id, 2);
    assert_eq!(
        coordinator.phase(),
        OverlayPhase::Shown {
            bounds: bounds(1920, 1280, 1024)
        }
    );
}

#[test]
fn deactivation_hides_but_keeps_the_overlay_and_the_frame() {
    let mut coordinator = Coordinator::new();
    let monitors = vec![monitor(1, 0, 1920, 1080, true)];
    let d = coordinator.activate_on_monitor(monitors, 1).unwrap();
    run_activation(&mut coordinator, d.gen, small_frame(9));

    let action = coordinator.deactivate();
    assert_eq!(action, UiAction::HideOverlay);
    assert_eq!(
        coordinator.phase(),
        OverlayPhase::Hidden {
            bounds: bounds(0, 1920, 1080)
        }
    );
    // Target metadata is dropped; the frame itself stays for the next
    // activation to overwrite.
    assert!(coordinator.read_target().is_none());
    assert!(coordinator.read_published().is_some());

    // Deactivating with no overlay shown is tolerated.
    let action = coordinator.deactivate();
    assert_eq!(action, UiAction::HideOverlay);
    let fresh = Coordinator::new().deactivate();
    assert_eq!(fresh, UiAction::Disregard);
}

#[test]
fn surface_failure_clears_the_published_frame() {
    let mut coordinator = Coordinator::new();
    let monitors = vec![monitor(1, 0, 1920, 1080, true)];
    let d = coordinator.activate_on_monitor(monitors, 1).unwrap();
    let gen = d.gen;
    coordinator.step(UiEvent::MainHidden { gen }).unwrap();
    coordinator.step(UiEvent::Settled { gen }).unwrap();
    coordinator
        .step(UiEvent::CaptureFinished {
            gen,
            result: Ok(small_frame(4)),
        })
        .unwrap();
    assert!(coordinator.read_published().is_some());

    let r = coordinator.step(UiEvent::OverlayCreated {
        gen,
        result: Err("window system refused".to_string()),
    });
    assert!(matches!(r, Err(CaptureError::SurfaceLifecycleError(_))));
    assert!(coordinator.read_published().is_none());
    assert!(coordinator.read_target().is_none());
    assert_eq!(coordinator.phase(), OverlayPhase::Absent);
}

#[test]
fn denied_capture_aborts_the_activation() {
    let mut coordinator = Coordinator::new();
    let monitors = vec![monitor(1, 0, 1920, 1080, true)];
    let d = coordinator.activate_on_monitor(monitors, 1).unwrap();
    let gen = d.gen;
    coordinator.step(UiEvent::MainHidden { gen }).unwrap();
    coordinator.step(UiEvent::Settled { gen }).unwrap();
    let denied = RawFrame::new(0, 0, Vec::new()).unwrap();
    let r = coordinator.step(UiEvent::CaptureFinished {
        gen,
        result: Ok(denied),
    });
    assert!(matches!(r, Err(CaptureError::PermissionDenied)));
    assert!(coordinator.read_published().is_none());
}

#[test]
fn clear_published_empties_the_slot() {
    let mut coordinator = Coordinator::new();
    let monitors = vec![monitor(1, 0, 1920, 1080, true)];
    let d = coordinator.activate_on_monitor(monitors, 1).unwrap();
    run_activation(&mut coordinator, d.gen, small_frame(5));
    assert!(coordinator.read_published().is_some());
    coordinator.clear_published();
    assert!(coordinator.read_published().is_none());
    coordinator.clear_published();
    assert!(coordinator.read_published().is_none());
}
