use waifudex::app_settings::{
    merge_character_window_placement, resolve_window_move_update, CharacterPlacement, CharacterWindowPosition,
    APP_SETTINGS_CHANGED_EVENT,
};
use waifudex::mascot_window::MascotWindowPlacement;
use waifudex::settings_flow::{SettingsAction, SettingsChange, SettingsUpdate, StepOutcome, UndoStep};

#[test]
fn app_settings_changed_event_name_is_stable() {
    assert_eq!(APP_SETTINGS_CHANGED_EVENT, "waifudex://app-settings-changed");
}

#[test]
fn merge_character_window_placement_updates_position_without_touching_monitor() {
    let current = CharacterPlacement {
        display_monitor_id: Some("\\\\.\\DISPLAY1".to_string()),
        character_window_position: Some(CharacterWindowPosition { x: 100, y: 200 }),
    };

    let next = merge_character_window_placement(
        &current,
        Some("\\\\.\\DISPLAY1".to_string()),
        Some(CharacterWindowPosition { x: 160, y: 240 }),
    )
    .expect("expected a settings update");

    assert_eq!(next.display_monitor_id.as_deref(), Some("\\\\.\\DISPLAY1"));
    assert_eq!(
        next.character_window_position,
        Some(CharacterWindowPosition { x: 160, y: 240 })
    );
}

#[test]
fn merge_character_window_placement_skips_redundant_updates() {
    let current = CharacterPlacement {
        display_monitor_id: Some("\\\\.\\DISPLAY1".to_string()),
        character_window_position: Some(CharacterWindowPosition { x: 160, y: 240 }),
    };

    assert_eq!(
        merge_character_window_placement(
            &current,
            Some("\\\\.\\DISPLAY1".to_string()),
            Some(CharacterWindowPosition { x: 160, y: 240 }),
        ),
        None
    );
}

#[test]
fn resolve_window_move_update_applies_backend_placement_result() {
    let previous = CharacterPlacement {
        display_monitor_id: Some("\\\\.\\DISPLAY1".to_string()),
        character_window_position: Some(CharacterWindowPosition { x: 160, y: 240 }),
    };

    let resolved = resolve_window_move_update(
        &previous,
        MascotWindowPlacement {
            monitor_id: Some("\\\\.\\DISPLAY2".to_string()),
            position: Some(CharacterWindowPosition { x: 2_100, y: 300 }),
        },
    );

    assert_eq!(resolved.display_monitor_id.as_deref(), Some("\\\\.\\DISPLAY2"));
    assert_eq!(
        resolved.character_window_position,
        Some(CharacterWindowPosition { x: 2_100, y: 300 })
    );
}

#[test]
fn a_move_reporting_the_previous_placement_keeps_it() {
    let previous = CharacterPlacement {
        display_monitor_id: Some("\\\\.\\DISPLAY1".to_string()),
        character_window_position: Some(CharacterWindowPosition { x: 160, y: 240 }),
    };
    let resolved = resolve_window_move_update(
        &previous,
        MascotWindowPlacement {
            monitor_id: Some("\\\\.\\DISPLAY1".to_string()),
            position: Some(CharacterWindowPosition { x: 160, y: 240 }),
        },
    );
    assert_eq!(resolved, previous);
}

fn change() -> SettingsChange {
    SettingsChange {
        previous_always_on_top: true,
        next_always_on_top: true,
        previous_monitor: Some("\\\\.\\DISPLAY1".to_string()),
        next_monitor: Some("\\\\.\\DISPLAY1".to_string()),
        previous_position: Some(CharacterWindowPosition { x: 160, y: 240 }),
        next_position: Some(CharacterWindowPosition { x: 160, y: 240 }),
        scale_equal: true,
        scale_changed: false,
        previous_width: 420,
        previous_height: 720,
        next_width: 420,
        next_height: 720,
    }
}

#[test]
fn an_update_that_changes_nothing_touches_no_window() {
    let mut update = SettingsUpdate::new(change());
    assert_eq!(update.advance(StepOutcome::Done), SettingsAction::KeepPrevious);
}

#[test]
fn an_update_of_every_setting_runs_each_step_in_order() {
    let mut c = change();
    c.next_always_on_top = false;
    c.next_monitor = Some("\\\\.\\DISPLAY2".to_string());
    c.scale_equal = false;
    c.scale_changed = true;
    c.next_width = 504;
    c.next_height = 864;
    let mut update = SettingsUpdate::new(c);

    assert_eq!(update.advance(StepOutcome::Done), SettingsAction::SetAlwaysOnTop(false));
    assert_eq!(
        update.advance(StepOutcome::Done),
        SettingsAction::MoveToMonitor(Some("\\\\.\\DISPLAY2".to_string()))
    );
    let placed = MascotWindowPlacement {
        monitor_id: Some("\\\\.\\DISPLAY2".to_string()),
        position: Some(CharacterWindowPosition { x: 2_670, y: 180 }),
    };
    assert_eq!(update.advance(StepOutcome::Placed(placed)), SettingsAction::ResizeWindow(504, 864));
    assert_eq!(update.advance(StepOutcome::Done), SettingsAction::ResizeMascot(504, 864));
    assert_eq!(
        update.advance(StepOutcome::Done),
        SettingsAction::MoveToPosition(
            CharacterWindowPosition { x: 2_670, y: 180 },
            Some("\\\\.\\DISPLAY2".to_string())
        )
    );
    let moved = MascotWindowPlacement {
        monitor_id: Some("\\\\.\\DISPLAY2".to_string()),
        position: Some(CharacterWindowPosition { x: 2_600, y: 180 }),
    };
    let expected = CharacterPlacement {
        display_monitor_id: Some("\\\\.\\DISPLAY2".to_string()),
        character_window_position: Some(CharacterWindowPosition { x: 2_600, y: 180 }),
    };
    assert_eq!(update.advance(StepOutcome::Placed(moved)), SettingsAction::Persist(expected.clone()));
    assert_eq!(update.advance(StepOutcome::Done), SettingsAction::Commit(expected));
}

#[test]
fn a_failed_resize_of_the_mascot_undoes_the_window_resize_and_the_top_choice() {
    let mut c = change();
    c.next_always_on_top = false;
    c.scale_equal = false;
    c.scale_changed = true;
    c.next_width = 210;
    c.next_height = 360;
    let mut update = SettingsUpdate::new(c);
    assert_eq!(update.advance(StepOutcome::Done), SettingsAction::SetAlwaysOnTop(false));
    assert_eq!(update.advance(StepOutcome::Done), SettingsAction::ResizeWindow(210, 360));
    assert_eq!(update.advance(StepOutcome::Done), SettingsAction::ResizeMascot(210, 360));
    assert_eq!(
        update.advance(StepOutcome::Failed),
        SettingsAction::Abort(vec![UndoStep::ResizeWindow(420, 720), UndoStep::SetAlwaysOnTop(true)])
    );
}

#[test]
fn a_failed_write_undoes_every_change() {
    let mut c = change();
    c.next_monitor = Some("\\\\.\\DISPLAY2".to_string());
    c.scale_equal = false;
    c.scale_changed = true;
    c.next_width = 504;
    c.next_height = 864;
    let mut update = SettingsUpdate::new(c);
    assert_eq!(update.advance(StepOutcome::Done), SettingsAction::SetAlwaysOnTop(true));
    let placed = MascotWindowPlacement {
        monitor_id: Some("\\\\.\\DISPLAY2".to_string()),
        position: Some(CharacterWindowPosition { x: 2_000, y: 100 }),
    };
    assert!(matches!(update.advance(StepOutcome::Done), SettingsAction::MoveToMonitor(_)));
    assert_eq!(update.advance(StepOutcome::Placed(placed)), SettingsAction::ResizeWindow(504, 864));
    assert_eq!(update.advance(StepOutcome::Done), SettingsAction::ResizeMascot(504, 864));
    assert!(matches!(update.advance(StepOutcome::Done), SettingsAction::MoveToPosition(_, _)));
    let moved = MascotWindowPlacement {
        monitor_id: Some("\\\\.\\DISPLAY2".to_string()),
        position: Some(CharacterWindowPosition { x: 2_000, y: 100 }),
    };
    assert!(matches!(update.advance(StepOutcome::Placed(moved)), SettingsAction::Persist(_)));
    assert_eq!(
        update.advance(StepOutcome::Failed),
        SettingsAction::Abort(vec![
            UndoStep::MoveToMonitor(Some("\\\\.\\DISPLAY1".to_string())),
            UndoStep::MoveToPosition(
                CharacterWindowPosition { x: 160, y: 240 },
                Some("\\\\.\\DISPLAY1".to_string())
            ),
            UndoStep::ResizeMascot(420, 720),
            UndoStep::ResizeWindow(420, 720),
            UndoStep::SetAlwaysOnTop(true),
        ])
    );
}

#[test]
fn a_failure_to_set_the_top_choice_is_reported_without_undo() {
    let mut c = change();
    c.next_always_on_top = false;
    let mut update = SettingsUpdate::new(c);
    assert_eq!(update.advance(StepOutcome::Done), SettingsAction::SetAlwaysOnTop(false));
    assert_eq!(update.advance(StepOutcome::Failed), SettingsAction::Abort(vec![]));
}

#[test]
fn a_scale_change_within_rounding_only_rewrites_the_settings() {
    let mut c = change();
    c.previous_position = None;
    c.next_position = None;
    c.scale_equal = false;
    let mut update = SettingsUpdate::new(c);
    assert_eq!(update.advance(StepOutcome::Done), SettingsAction::SetAlwaysOnTop(true));
    assert_eq!(
        update.advance(StepOutcome::Done),
        SettingsAction::Persist(CharacterPlacement {
            display_monitor_id: Some("\\\\.\\DISPLAY1".to_string()),
            character_window_position: None,
        })
    );
}

#[test]
fn a_move_that_loses_the_position_asks_for_the_previous_one() {
    let mut c = change();
    c.next_monitor = Some("\\\\.\\DISPLAY2".to_string());
    let mut update = SettingsUpdate::new(c);
    assert_eq!(update.advance(StepOutcome::Done), SettingsAction::SetAlwaysOnTop(true));
    assert!(matches!(update.advance(StepOutcome::Done), SettingsAction::MoveToMonitor(_)));
    let placed = MascotWindowPlacement {
        monitor_id: Some("\\\\.\\DISPLAY2".to_string()),
        position: None,
    };
    assert_eq!(
        update.advance(StepOutcome::Placed(placed)),
        SettingsAction::MoveToPosition(
            CharacterWindowPosition { x: 160, y: 240 },
            Some("\\\\.\\DISPLAY2".to_string())
        )
    );
}

#[test]
fn a_committed_update_commits_once() {
    let mut c = change();
    c.next_always_on_top = false;
    let mut update = SettingsUpdate::new(c);
    assert_eq!(update.advance(StepOutcome::Done), SettingsAction::SetAlwaysOnTop(false));
    assert!(matches!(update.advance(StepOutcome::Done), SettingsAction::Persist(_)));
    assert!(matches!(update.advance(StepOutcome::Done), SettingsAction::Commit(_)));
    assert_eq!(update.advance(StepOutcome::Done), SettingsAction::Abort(Vec::new()));
}
