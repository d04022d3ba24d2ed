//! Surface selection rules: primary-monitor choice, id lookup, title
//! filtering, and the fallback decision for restricted sessions.

use fullshot::capture::fallback_outcome;
use fullshot::capture::frame_outcome;
use fullshot::capture::should_try_fallback;
use fullshot::capture::wayland_advice;
use fullshot::capture::FallbackOutcome;
use fullshot::error::CaptureError;
use fullshot::frame::RawFrame;
use fullshot::surface::filter_titled;
use fullshot::surface::find_monitor_by_id;
use fullshot::surface::find_primary;
use fullshot::surface::find_window_by_id;
use fullshot::surface::resolve_window;
use fullshot::surface::MonitorInfo;
use fullshot::surface::WindowInfo;

fn monitor(id: u32, name: &str, primary: bool) -> MonitorInfo {
    MonitorInfo {
        id,
        name: name.to_string(),
        width: 1920,
        height: 1080,
        x: 0,
        y: 0,
        is_primary: primary,
    }
}

fn window(id: u32, app_name: &str, title: &str) -> WindowInfo {
    WindowInfo {
        id,
        app_name: app_name.to_string(),
        title: title.to_string(),
        x: 0,
        y: 0,
        width: 800,
        height: 600,
    }
}

#[test]
fn primary_is_the_first_flagged_monitor() {
    let monitors = vec![
        monitor(3, "left", false),
        monitor(1, "middle", true),
        monitor(2, "right", true),
    ];
    assert_eq!(find_primary(&monitors), Some(1));
}

#[test]
fn primary_falls_back_to_the_first_monitor() {
    let monitors = vec![monitor(3, "left", false), monitor(1, "middle", false)];
    assert_eq!(find_primary(&monitors), Some(0));
}

#[test]
fn primary_of_empty_enumeration_is_none() {
    let monitors: Vec<MonitorInfo> = Vec::new();
    assert_eq!(find_primary(&monitors), None);
}

#[test]
fn window_lookup_finds_existing_and_rejects_stale_ids() {
    let windows = vec![window(7, "Editor", "Notes"), window(9, "Terminal", "shell")];
    assert_eq!(find_window_by_id(&windows, 7), Some(0));
    assert_eq!(find_window_by_id(&windows, 9), Some(1));
    assert_eq!(find_window_by_id(&windows, 99), None);
}

#[test]
fn captured_window_encodes_nonempty_and_stale_id_finds_nothing() {
    let monitors = vec![monitor(1, "primary", true)];
    assert_eq!(find_primary(&monitors), Some(0));
    let windows = vec![window(7, "Editor", "Notes")];

    let found = find_window_by_id(&windows, 7).unwrap();
    assert_eq!(windows[found].title, "Notes");
    let mut pixels = Vec::new();
    for _ in 0..(4 * 4 * 4) {
        pixels.push(128u8);
    }
    let raw = RawFrame::new(4, 4, pixels).unwrap();
    let encoded = frame_outcome(&raw).unwrap();
    assert!(!encoded.is_empty());

    assert_eq!(find_window_by_id(&windows, 99), None);
    assert!(matches!(
        resolve_window(&windows, 99),
        Err(CaptureError::SurfaceNotFound)
    ));
    assert_eq!(resolve_window(&windows, 7).unwrap(), found);
}

#[test]
fn monitor_lookup_by_id() {
    let monitors = vec![monitor(4, "a", false), monitor(6, "b", true)];
    assert_eq!(find_monitor_by_id(&monitors, 6), Some(1));
    assert_eq!(find_monitor_by_id(&monitors, 5), None);
}

#[test]
fn untitled_windows_are_filtered_out_in_order() {
    let windows = vec![
        window(1, "a", "first"),
        window(2, "b", ""),
        window(3, "c", "third"),
        window(4, "d", ""),
    ];
    let kept = filter_titled(windows);
    assert_eq!(kept.len(), 2);
    assert_eq!(kept[0].id, 1);
    assert_eq!(kept[1].id, 3);
}

#[test]
fn fallback_is_tried_only_on_failed_primary_in_restricted_session() {
    let failed: Result<String, CaptureError> = Err(CaptureError::PermissionDenied);
    let fine: Result<String, CaptureError> = Ok("data".to_string());
    assert!(should_try_fallback(&failed, true));
    assert!(!should_try_fallback(&failed, false));
    assert!(!should_try_fallback(&fine, true));
    assert!(!should_try_fallback(&fine, false));
}

#[test]
fn missing_fallback_tool_surfaces_its_own_diagnostic() {
    let primary_error = "primary backend timed out";
    let r = fallback_outcome(FallbackOutcome::ToolMissing);
    match r {
        Err(CaptureError::BackendUnavailable(m)) => {
            assert_eq!(m, "fallback capture tool grim is not installed");
            assert!(!m.contains(primary_error));
        }
        other => panic!("expected BackendUnavailable, got {:?}", other),
    }
}

#[test]
fn failed_fallback_tool_surfaces_the_tool_error() {
    let r = fallback_outcome(FallbackOutcome::ToolFailed(
        "grim: compositor refused".to_string(),
    ));
    match r {
        Err(CaptureError::BackendUnavailable(m)) => {
            assert_eq!(m, "grim: compositor refused");
        }
        other => panic!("expected BackendUnavailable, got {:?}", other),
    }
}

#[test]
fn wayland_advice_names_the_fallback_tool() {
    assert_eq!(wayland_advice(false, false), None);
    assert_eq!(wayland_advice(false, true), None);
    assert_eq!(
        wayland_advice(true, true).unwrap(),
        "Wayland detected. Using grim for screenshot capture."
    );
    let needs_install = wayland_advice(true, false).unwrap();
    assert!(needs_install.contains("Install 'grim'"));
}
