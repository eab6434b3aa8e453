use waifudex::contracts::{RuntimeSnapshot, RuntimeStatus};
use waifudex::runtime_state::RuntimeState;

fn snapshot(status: RuntimeStatus) -> RuntimeSnapshot {
    RuntimeSnapshot {
        session_id: None,
        status,
        summary: "s".to_string(),
        detail: "d".to_string(),
        sessions_root: "/r".to_string(),
        updated_at: "t".to_string(),
        source: "monitor".to_string(),
        revision: 99,
    }
}

#[test]
fn snapshots_get_increasing_revisions() {
    let mut state = RuntimeState::new();
    assert_eq!(state.bootstrap().snapshot, None);
    assert_eq!(state.record_snapshot(snapshot(RuntimeStatus::Idle)).revision, 0);
    assert_eq!(state.record_snapshot(snapshot(RuntimeStatus::Thinking)).revision, 1);
    let latest = state.bootstrap().snapshot.expect("a snapshot was recorded");
    assert_eq!(latest.status, RuntimeStatus::Thinking);
    assert_eq!(latest.revision, 1);
}

#[test]
fn timeline_sequences_restart_for_each_session() {
    let mut state = RuntimeState::new();
    let a0 = state.next_timeline_event(Some("a"));
    let a1 = state.next_timeline_event(Some("a"));
    let b0 = state.next_timeline_event(Some("b"));
    let none = state.next_timeline_event(None);
    assert_eq!((a0.sequence, a1.sequence, b0.sequence, none.sequence), (0, 1, 0, 0));
    assert_eq!(a0.event_id, "a:0:0");
    assert_eq!(a1.event_id, "a:1:1");
    assert_eq!(b0.event_id, "b:0:2");
    assert_eq!(none.event_id, "none:0:3");
}
