use waifudex::contracts::RuntimeStatus;
use waifudex::window::{
    resolve_explicit_visibility_change, settings_window_action, SettingsWindowAction, WindowCommand,
    WindowVisibilityPolicy, CHARACTER_VISIBILITY_CHANGED_EVENT, SETTINGS_WINDOW_ENTRY,
};

#[test]
fn window_visibility_policy_starts_visible() {
    assert!(WindowVisibilityPolicy::new(2).is_visible());
}

#[test]
fn status_changes_do_not_auto_show_hidden_window() {
    let mut policy = WindowVisibilityPolicy::new(2);
    policy.sync_visible(false);

    assert_eq!(policy.on_status(RuntimeStatus::Thinking), WindowCommand::Noop);
    assert!(!policy.is_visible());
}

#[test]
fn status_changes_do_not_auto_hide_visible_window() {
    let mut policy = WindowVisibilityPolicy::new(2);

    assert_eq!(policy.on_status(RuntimeStatus::Idle), WindowCommand::Noop);
    assert_eq!(policy.on_status(RuntimeStatus::Idle), WindowCommand::Noop);
    assert!(policy.is_visible());
}

#[test]
fn reuses_existing_settings_window_before_creating_one() {
    assert_eq!(settings_window_action(true), SettingsWindowAction::ShowExisting);
    assert_eq!(settings_window_action(false), SettingsWindowAction::CreateNew);
}

#[test]
fn manual_hide_requires_manual_reopen() {
    let mut policy = WindowVisibilityPolicy::new(2);

    assert_eq!(policy.mark_manual_close(), WindowCommand::Hide);
    assert!(!policy.is_visible());
    assert_eq!(policy.on_status(RuntimeStatus::Thinking), WindowCommand::Noop);
    assert!(!policy.is_visible());
    assert_eq!(policy.mark_manual_open(), WindowCommand::Show);
    assert!(policy.is_visible());
}

#[test]
fn settings_window_uses_app_assets() {
    assert_eq!(SETTINGS_WINDOW_ENTRY, "index.html");
}

#[test]
fn character_visibility_changed_event_name_is_stable() {
    assert_eq!(
        CHARACTER_VISIBILITY_CHANGED_EVENT,
        "waifudex://character-visibility-changed"
    );
}

#[test]
fn resolve_explicit_visibility_change_returns_show_for_hidden_window() {
    assert_eq!(resolve_explicit_visibility_change(false, true), WindowCommand::Show);
}

#[test]
fn resolve_explicit_visibility_change_returns_hide_for_visible_window() {
    assert_eq!(resolve_explicit_visibility_change(true, false), WindowCommand::Hide);
}

#[test]
fn resolve_explicit_visibility_change_returns_noop_when_state_matches() {
    assert_eq!(resolve_explicit_visibility_change(true, true), WindowCommand::Noop);
    assert_eq!(resolve_explicit_visibility_change(false, false), WindowCommand::Noop);
}

#[test]
fn every_status_leaves_a_hidden_window_hidden() {
    let mut policy = WindowVisibilityPolicy::new(2);
    policy.mark_manual_close();
    for status in [
        RuntimeStatus::Idle,
        RuntimeStatus::CodexNotInstalled,
        RuntimeStatus::Thinking,
        RuntimeStatus::Coding,
        RuntimeStatus::Question,
        RuntimeStatus::Complete,
    ] {
        assert_eq!(policy.on_status(status), WindowCommand::Noop);
        assert!(!policy.is_visible());
    }
}

#[test]
fn opening_an_open_window_or_closing_a_closed_one_does_nothing() {
    let mut policy = WindowVisibilityPolicy::new(2);
    assert_eq!(policy.mark_manual_open(), WindowCommand::Noop);
    policy.sync_visible(false);
    assert_eq!(policy.mark_manual_close(), WindowCommand::Noop);
    assert!(!policy.is_visible());
}

#[test]
fn toggling_hides_a_visible_window_and_shows_a_hidden_one() {
    let mut policy = WindowVisibilityPolicy::new(2);
    assert_eq!(policy.toggle(true), WindowCommand::Hide);
    assert!(!policy.is_visible());
    assert_eq!(policy.toggle(false), WindowCommand::Show);
    assert!(policy.is_visible());
}
