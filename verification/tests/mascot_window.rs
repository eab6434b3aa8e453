use waifudex::app_settings::CharacterWindowPosition;
use waifudex::contracts::DisplayMonitorOption;
use waifudex::mascot_window::{
    clamp_requested_window_position, clamp_window_position_to_work_area, display_monitor_label,
    monitor_id_for_position, place_window_in_work_area, resolve_monitor_id, resolve_restored_window_position,
    DisplayMonitorSnapshot, MascotWindowSize, MascotWindowState, MonitorWorkArea, NativeMascotWindow, MAX_WINDOW_SIZE,
    MIN_WINDOW_SIZE,
};

fn test_monitor(id: &str, is_primary: bool) -> DisplayMonitorSnapshot {
    DisplayMonitorSnapshot {
        option: DisplayMonitorOption {
            id: id.to_string(),
            label: id.to_string(),
            work_area_left: 0,
            work_area_top: 0,
            work_area_width: 1_920,
            work_area_height: 1_080,
        },
        work_area: MonitorWorkArea {
            left: 0,
            top: 0,
            right: 1920,
            bottom: 1080,
        },
        is_primary,
    }
}

fn second_monitor() -> DisplayMonitorSnapshot {
    DisplayMonitorSnapshot {
        option: DisplayMonitorOption {
            id: "\\\\.\\DISPLAY2".to_string(),
            label: "\\\\.\\DISPLAY2".to_string(),
            work_area_left: 1_920,
            work_area_top: 0,
            work_area_width: 1_920,
            work_area_height: 1_080,
        },
        work_area: MonitorWorkArea {
            left: 1_920,
            top: 0,
            right: 3_840,
            bottom: 1_080,
        },
        is_primary: false,
    }
}

#[test]
fn mascot_window_state_defaults_to_always_on_top() {
    let state = MascotWindowState::new();
    assert!(state.is_always_on_top());
}

#[test]
fn mascot_window_state_updates_always_on_top_flag() {
    let mut state = MascotWindowState::new();
    state.set_always_on_top(false);
    assert!(!state.is_always_on_top());
}

#[test]
fn resolve_requested_monitor_prefers_requested_id() {
    let monitors = vec![
        test_monitor("\\\\.\\DISPLAY1", true),
        test_monitor("\\\\.\\DISPLAY2", false),
    ];

    assert_eq!(
        resolve_monitor_id(Some("\\\\.\\DISPLAY2"), Some("\\\\.\\DISPLAY1"), &monitors).as_deref(),
        Some("\\\\.\\DISPLAY2")
    );
}

#[test]
fn resolve_requested_monitor_falls_back_to_primary() {
    let monitors = vec![
        test_monitor("\\\\.\\DISPLAY1", true),
        test_monitor("\\\\.\\DISPLAY2", false),
    ];

    assert_eq!(
        resolve_monitor_id(Some("\\\\.\\MISSING"), Some("\\\\.\\DISPLAY2"), &monitors).as_deref(),
        Some("\\\\.\\DISPLAY1")
    );
}

#[test]
fn display_monitor_label_prefers_friendly_name() {
    assert_eq!(
        display_monitor_label("\\\\.\\DISPLAY1", Some("DELL U2720Q"), None, false),
        "DELL U2720Q"
    );
}

#[test]
fn display_monitor_label_falls_back_to_device_name() {
    assert_eq!(
        display_monitor_label("\\\\.\\DISPLAY1", None, None, true),
        "\\\\.\\DISPLAY1 (Primary)"
    );
}

#[test]
fn display_monitor_label_prefers_readable_fallback_for_builtin_display() {
    assert_eq!(
        display_monitor_label("\\\\.\\DISPLAY22", None, Some("Built-in Display"), false),
        "Built-in Display"
    );
}

#[test]
fn clamp_window_position_keeps_window_inside_monitor_work_area() {
    let position = clamp_window_position_to_work_area(
        CharacterWindowPosition { x: 1_850, y: 900 },
        MascotWindowSize {
            width: 420,
            height: 720,
        },
        MonitorWorkArea {
            left: 0,
            top: 0,
            right: 1_920,
            bottom: 1_080,
        },
    );

    assert_eq!(position, CharacterWindowPosition { x: 1_500, y: 360 });
}

#[test]
fn resolve_restored_window_position_keeps_saved_position_on_same_monitor() {
    let monitors = vec![test_monitor("\\\\.\\DISPLAY1", true), second_monitor()];

    let position = resolve_restored_window_position(
        Some("\\\\.\\DISPLAY2"),
        Some(CharacterWindowPosition { x: 2_400, y: 200 }),
        MascotWindowSize {
            width: 420,
            height: 720,
        },
        &monitors,
    )
    .expect("expected a restored position");

    assert_eq!(position, CharacterWindowPosition { x: 2_400, y: 200 });
}

#[test]
fn resolve_restored_window_position_recenters_for_new_monitor() {
    let monitors = vec![test_monitor("\\\\.\\DISPLAY1", true), second_monitor()];

    let position = resolve_restored_window_position(
        Some("\\\\.\\DISPLAY1"),
        Some(CharacterWindowPosition { x: 2_400, y: 200 }),
        MascotWindowSize {
            width: 420,
            height: 720,
        },
        &monitors,
    )
    .expect("expected a restored position");

    assert_eq!(position, CharacterWindowPosition { x: 750, y: 180 });
}

#[test]
fn clamp_requested_window_position_keeps_requested_position_when_it_fits() {
    let position = clamp_requested_window_position(
        CharacterWindowPosition { x: 2400, y: 180 },
        MascotWindowSize {
            width: 420,
            height: 720,
        },
        MonitorWorkArea {
            left: 1920,
            top: 0,
            right: 3840,
            bottom: 1080,
        },
    );

    assert_eq!(position, CharacterWindowPosition { x: 2400, y: 180 });
}

#[test]
fn clamp_requested_window_position_clamps_to_monitor_edges() {
    let position = clamp_requested_window_position(
        CharacterWindowPosition { x: 3800, y: 900 },
        MascotWindowSize {
            width: 420,
            height: 720,
        },
        MonitorWorkArea {
            left: 1920,
            top: 0,
            right: 3840,
            bottom: 1080,
        },
    );

    assert_eq!(position, CharacterWindowPosition { x: 3420, y: 360 });
}

#[test]
fn a_window_larger_than_the_work_area_is_pinned_to_its_top_left_corner() {
    let position = clamp_window_position_to_work_area(
        CharacterWindowPosition { x: 500, y: 500 },
        MascotWindowSize {
            width: 2_000,
            height: 1_200,
        },
        MonitorWorkArea {
            left: 0,
            top: 0,
            right: 1_920,
            bottom: 1_080,
        },
    );
    assert_eq!(position, CharacterWindowPosition { x: 0, y: 0 });
}

#[test]
fn a_window_is_centred_in_a_work_area() {
    let placed = place_window_in_work_area(
        MascotWindowSize {
            width: 420,
            height: 720,
        },
        MonitorWorkArea {
            left: 1_920,
            top: 0,
            right: 3_840,
            bottom: 1_080,
        },
    );
    assert_eq!(placed, (2_670, 180));
}

#[test]
fn without_a_request_the_current_monitor_is_kept() {
    let monitors = vec![test_monitor("\\\\.\\DISPLAY1", true), second_monitor()];
    assert_eq!(
        resolve_monitor_id(None, Some("\\\\.\\DISPLAY2"), &monitors).as_deref(),
        Some("\\\\.\\DISPLAY2")
    );
    assert_eq!(resolve_monitor_id(None, None, &[]), None);
}

#[test]
fn the_monitor_under_a_position_is_found() {
    let monitors = vec![test_monitor("\\\\.\\DISPLAY1", true), second_monitor()];
    assert_eq!(
        monitor_id_for_position(CharacterWindowPosition { x: 2_000, y: 10 }, &monitors).as_deref(),
        Some("\\\\.\\DISPLAY2")
    );
    assert_eq!(
        monitor_id_for_position(CharacterWindowPosition { x: -5, y: 10 }, &monitors),
        None
    );
}

#[test]
fn resizing_the_window_keeps_it_within_its_limits() {
    let mut state = MascotWindowState::new();
    let small = state.resize(10, 5_000);
    assert_eq!(small, MascotWindowSize { width: MIN_WINDOW_SIZE, height: MAX_WINDOW_SIZE });
    assert_eq!(state.size(), small);
    let fitting = state.resize(420, 720);
    assert_eq!(fitting, MascotWindowSize { width: 420, height: 720 });
}

#[test]
fn shown_and_hidden_are_remembered() {
    let mut state = MascotWindowState::new();
    state.mark_hidden();
    assert!(!state.is_visible());
    state.mark_shown();
    assert!(state.is_visible());
}

#[test]
fn attaching_a_window_initialises_the_state() {
    use_native_window();
}

fn use_native_window() {
    let mut state = MascotWindowState::new();
    assert!(!state.is_initialized());
    assert_eq!(state.window(), None);
    state.attach(NativeMascotWindow { hwnd: 42 });
    assert!(state.is_initialized());
    assert_eq!(state.window(), Some(NativeMascotWindow { hwnd: 42 }));
    assert!(!state.is_monitor_move_suppressed());
    state.set_monitor_move_suppressed(true);
    assert!(state.is_monitor_move_suppressed());
    assert_eq!(state.resize_limits(), (MIN_WINDOW_SIZE, MAX_WINDOW_SIZE));
    state.drag();
    assert!(state.is_always_on_top());
}
