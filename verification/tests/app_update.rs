use waifudex::app_update::{AppUpdateCoordinator, AppUpdateStatus, CheckTrigger, UpdateCheckEvent, UpdateFollowUp};

#[test]
fn duplicate_checks_are_ignored_while_a_check_is_in_progress() {
    let mut updater = AppUpdateCoordinator::new("0.1.0".to_string());

    assert!(updater.begin_check(CheckTrigger::Startup));
    assert!(!updater.begin_check(CheckTrigger::Manual));
    assert_eq!(updater.snapshot().status, AppUpdateStatus::Checking);
}

#[test]
fn ready_to_restart_survives_later_choice() {
    let mut updater = AppUpdateCoordinator::new("0.1.0".to_string());

    updater.mark_ready_to_restart(Some("0.2.0".to_string()));
    updater.mark_restart_prompt_deferred();

    let snapshot = updater.snapshot();
    assert_eq!(snapshot.status, AppUpdateStatus::ReadyToRestart);
    assert_eq!(snapshot.available_version.as_deref(), Some("0.2.0"));
    assert!(!snapshot.should_prompt_restart);
}

#[test]
fn ready_to_restart_blocks_future_checks_and_stays_sticky() {
    let mut updater = AppUpdateCoordinator::new("0.1.0".to_string());

    updater.mark_ready_to_restart(Some("0.2.0".to_string()));
    updater.mark_restart_prompt_deferred();

    assert!(!updater.begin_check(CheckTrigger::Manual));

    let snapshot = updater.snapshot();
    assert_eq!(snapshot.status, AppUpdateStatus::ReadyToRestart);
    assert_eq!(snapshot.available_version.as_deref(), Some("0.2.0"));
    assert!(!snapshot.should_prompt_restart);
}

#[test]
fn restart_prompt_is_triggered_once_when_update_becomes_ready() {
    let mut updater = AppUpdateCoordinator::new("0.1.0".to_string());

    assert!(!updater.take_restart_prompt_request());

    updater.mark_ready_to_restart(Some("0.2.0".to_string()));

    assert!(updater.take_restart_prompt_request());
    assert!(!updater.take_restart_prompt_request());
}

#[test]
fn snapshot_exposes_expected_status_transitions() {
    let mut updater = AppUpdateCoordinator::new("0.1.0".to_string());

    assert_eq!(updater.snapshot().status, AppUpdateStatus::Idle);

    assert!(updater.begin_check(CheckTrigger::Startup));
    assert_eq!(updater.snapshot().status, AppUpdateStatus::Checking);

    updater.mark_downloading(Some("0.2.0".to_string()));
    assert_eq!(updater.snapshot().status, AppUpdateStatus::Downloading);

    updater.mark_installing(Some("0.2.0".to_string()));
    assert_eq!(updater.snapshot().status, AppUpdateStatus::Installing);

    updater.mark_ready_to_restart(Some("0.2.0".to_string()));
    assert_eq!(updater.snapshot().status, AppUpdateStatus::ReadyToRestart);

    updater.complete_with_no_update();
    assert_eq!(updater.snapshot().status, AppUpdateStatus::UpToDate);

    updater.mark_error("network failure".to_string());
    let snapshot = updater.snapshot();
    assert_eq!(snapshot.status, AppUpdateStatus::Error);
    assert_eq!(snapshot.last_error.as_deref(), Some("network failure"));
}

#[test]
fn a_new_coordinator_reports_its_version_and_nothing_else() {
    let updater = AppUpdateCoordinator::new("1.4.2".to_string());
    let snapshot = updater.snapshot();
    assert_eq!(snapshot.current_version, "1.4.2");
    assert_eq!(snapshot.available_version, None);
    assert_eq!(snapshot.last_error, None);
    assert_eq!(snapshot.last_checked_at, None);
    assert!(!snapshot.should_prompt_restart);
}

#[test]
fn stamped_check_records_when_it_began_and_clears_the_last_error() {
    let mut updater = AppUpdateCoordinator::new("0.1.0".to_string());
    updater.mark_error_at("offline".to_string(), "2026-01-01T00:00:00Z".to_string());
    assert!(updater.begin_check_at(CheckTrigger::Manual, "2026-01-02T00:00:00Z".to_string()));
    let snapshot = updater.snapshot();
    assert_eq!(snapshot.status, AppUpdateStatus::Checking);
    assert_eq!(snapshot.last_error, None);
    assert_eq!(snapshot.last_checked_at.as_deref(), Some("2026-01-02T00:00:00Z"));
}

#[test]
fn an_error_ends_the_check_so_another_can_begin() {
    let mut updater = AppUpdateCoordinator::new("0.1.0".to_string());
    assert!(updater.begin_check(CheckTrigger::Startup));
    updater.mark_error("timeout".to_string());
    assert!(updater.begin_check(CheckTrigger::Manual));
}

#[test]
fn deferring_without_a_ready_update_changes_nothing() {
    let mut updater = AppUpdateCoordinator::new("0.1.0".to_string());
    let before = updater.snapshot();
    updater.mark_restart_prompt_deferred();
    assert_eq!(updater.snapshot(), before);
}

#[test]
fn a_check_follows_the_updater_to_a_restart_prompt() {
    let mut updater = AppUpdateCoordinator::new("0.1.0".to_string());
    assert!(updater.begin_check(CheckTrigger::Manual));
    assert_eq!(updater.on_check_event(UpdateCheckEvent::Found("0.2.0".to_string())), UpdateFollowUp::Download);
    assert_eq!(updater.snapshot().status, AppUpdateStatus::Downloading);
    assert_eq!(updater.on_check_event(UpdateCheckEvent::Installing("0.2.0".to_string())), UpdateFollowUp::Wait);
    assert_eq!(updater.snapshot().status, AppUpdateStatus::Installing);
    assert!(updater.check_restart().is_err());
    assert_eq!(
        updater.on_check_event_at(UpdateCheckEvent::Installed("0.2.0".to_string()), "2026-03-18T00:00:00Z".to_string()),
        UpdateFollowUp::PromptRestart
    );
    let snapshot = updater.snapshot();
    assert_eq!(snapshot.status, AppUpdateStatus::ReadyToRestart);
    assert!(!snapshot.should_prompt_restart);
    assert_eq!(snapshot.last_checked_at.as_deref(), Some("2026-03-18T00:00:00Z"));
    assert!(updater.check_restart().is_ok());
}

#[test]
fn a_check_without_news_or_with_a_failure_stops() {
    let mut updater = AppUpdateCoordinator::new("0.1.0".to_string());
    assert!(updater.begin_check(CheckTrigger::Startup));
    assert_eq!(updater.on_check_event(UpdateCheckEvent::NoUpdate), UpdateFollowUp::Stop);
    assert_eq!(updater.snapshot().status, AppUpdateStatus::UpToDate);
    assert!(updater.begin_check(CheckTrigger::Manual));
    assert_eq!(updater.on_check_event(UpdateCheckEvent::Failed("offline".to_string())), UpdateFollowUp::Stop);
    assert_eq!(updater.snapshot().last_error.as_deref(), Some("offline"));
    assert_eq!(
        updater.check_restart().unwrap_err(),
        "no installed update is waiting to restart"
    );
}
