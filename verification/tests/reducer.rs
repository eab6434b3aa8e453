use waifudex::codex::liveness::LivenessSnapshot;
use waifudex::codex::parser::{parse_session_line, QuestionKind, SessionEvent};
use waifudex::codex::reducer::{StatusReducer, COMPLETE_GRACE_PERIOD, EVENT_LIVENESS_GRACE};
use waifudex::codex::{describe_status, snapshot_at};
use waifudex::contracts::RuntimeStatus;

fn reduce(reducer: &mut StatusReducer, line: &str, now: u128, live: bool) -> RuntimeStatus {
    let event = parse_session_line(line);
    let liveness = if live { LivenessSnapshot::online() } else { LivenessSnapshot::offline() };
    reducer.reduce_at(Some(&event), Some("s".to_string()), "/root", liveness, now).status
}

fn tick(reducer: &mut StatusReducer, now: u128, live: bool) -> RuntimeStatus {
    let liveness = if live { LivenessSnapshot::online() } else { LivenessSnapshot::offline() };
    reducer.reduce_at(None, None, "/root", liveness, now).status
}

#[test]
fn a_new_reducer_is_idle() {
    let mut reducer = StatusReducer::new("monitor".to_string());
    assert_eq!(tick(&mut reducer, 0, true), RuntimeStatus::Idle);
}

#[test]
fn an_aborted_turn_shows_idle_until_a_task_starts() {
    let mut reducer = StatusReducer::new("monitor".to_string());
    assert_eq!(reduce(&mut reducer, r#"{"type":"task_started"}"#, 1, true), RuntimeStatus::Thinking);
    assert_eq!(reduce(&mut reducer, r#"{"type":"turn_aborted"}"#, 2, true), RuntimeStatus::Idle);
    assert_eq!(reduce(&mut reducer, r#"{"type":"exec_approval_request"}"#, 3, true), RuntimeStatus::Idle);
    assert_eq!(reduce(&mut reducer, r#"{"type":"patch_apply_begin"}"#, 4, true), RuntimeStatus::Idle);
    assert_eq!(reduce(&mut reducer, r#"{"type":"task_complete"}"#, 5, true), RuntimeStatus::Idle);
    assert_eq!(reduce(&mut reducer, r#"{"type":"task_started"}"#, 6, true), RuntimeStatus::Thinking);
}

#[test]
fn a_completed_task_shows_complete_for_the_grace_period() {
    let mut reducer = StatusReducer::new("monitor".to_string());
    reduce(&mut reducer, r#"{"type":"task_started"}"#, 0, true);
    assert_eq!(reduce(&mut reducer, r#"{"type":"task_complete"}"#, 100, false), RuntimeStatus::Complete);
    assert_eq!(tick(&mut reducer, 100 + COMPLETE_GRACE_PERIOD - 1, false), RuntimeStatus::Complete);
    assert_eq!(tick(&mut reducer, 100 + COMPLETE_GRACE_PERIOD, true), RuntimeStatus::Idle);
}

#[test]
fn a_question_takes_precedence_until_progress() {
    let mut reducer = StatusReducer::new("monitor".to_string());
    reduce(&mut reducer, r#"{"payload":{"type":"patch_apply_begin","call_id":"p"}}"#, 0, true);
    assert_eq!(reduce(&mut reducer, r#"{"payload":{"type":"request_permissions","call_id":"q"}}"#, 1, true), RuntimeStatus::Question);
    assert_eq!(tick(&mut reducer, 2, false), RuntimeStatus::Question);
    assert_eq!(reduce(&mut reducer, r#"{"payload":{"type":"exec_command_begin","call_id":"e","command":"ls"}}"#, 3, true), RuntimeStatus::Coding);
}

#[test]
fn calls_are_counted_by_id() {
    let mut reducer = StatusReducer::new("monitor".to_string());
    reduce(&mut reducer, r#"{"type":"task_started"}"#, 0, true);
    reduce(&mut reducer, r#"{"payload":{"type":"patch_apply_begin","call_id":"a"}}"#, 1, true);
    assert_eq!(reduce(&mut reducer, r#"{"payload":{"type":"patch_apply_begin","call_id":"a"}}"#, 2, true), RuntimeStatus::Coding);
    assert_eq!(reduce(&mut reducer, r#"{"payload":{"type":"patch_apply_end","call_id":"a"}}"#, 3, true), RuntimeStatus::Thinking);
}

#[test]
fn without_a_live_process_a_quiet_session_falls_back_to_idle() {
    let mut reducer = StatusReducer::new("monitor".to_string());
    reduce(&mut reducer, r#"{"type":"task_started"}"#, 0, false);
    assert_eq!(tick(&mut reducer, EVENT_LIVENESS_GRACE - 1, false), RuntimeStatus::Thinking);
    assert_eq!(tick(&mut reducer, EVENT_LIVENESS_GRACE, false), RuntimeStatus::Idle);
    assert_eq!(tick(&mut reducer, EVENT_LIVENESS_GRACE, true), RuntimeStatus::Thinking);
}

#[test]
fn snapshots_describe_their_status() {
    let snapshot = snapshot_at(
        RuntimeStatus::Coding,
        "monitor".to_string(),
        Some("s".to_string()),
        "/root".to_string(),
        "2026-03-18T00:00:00Z".to_string(),
    );
    assert_eq!(snapshot.summary, "Writing or patching code");
    assert_eq!(snapshot.detail, "Codex is editing code or applying a patch to the workspace.");
    assert_eq!(snapshot.updated_at, "2026-03-18T00:00:00Z");
    assert_eq!(snapshot.revision, 0);
    assert_eq!(describe_status(RuntimeStatus::Idle).0, "Waiting for the next Codex task");
}

#[test]
fn question_events_parse_with_their_kind() {
    assert!(matches!(
        parse_session_line(r#"{"type":"elicitation_request"}"#),
        SessionEvent::QuestionAsked { kind: QuestionKind::Elicitation, .. }
    ));
}
