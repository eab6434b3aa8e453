use vstd::prelude::*;

verus! {

/// What the mascot shows of the Codex agent.
#[derive(Debug, Clone, Copy, PartialEq, Eq, Structural)]
pub enum RuntimeStatus {
    Idle,
    CodexNotInstalled,
    Thinking,
    Coding,
    Question,
    Complete,
}

/// One observation of the runtime status, as the frontend receives it.
#[derive(Debug, Clone, PartialEq, Eq)]
pub struct RuntimeSnapshot {
    pub session_id: Option<String>,
    pub status: RuntimeStatus,
    pub summary: String,
    pub detail: String,
    pub sessions_root: String,
    pub updated_at: String,
    pub source: String,
    pub revision: u64,
}

/// One raw line of a session log and what the parser made of it.
#[derive(Debug, Clone, PartialEq, Eq)]
pub struct RuntimeEventPayload {
    pub raw_line: String,
    pub parsed_type: Option<String>,
    pub parse_ok: bool,
}

/// A timeline entry sent to the frontend.
#[derive(Debug, Clone, PartialEq, Eq)]
pub struct RuntimeEvent {
    pub event_id: String,
    pub session_id: Option<String>,
    pub sequence: u64,
    pub received_at: String,
    pub source: String,
    pub kind: String,
    pub payload: RuntimeEventPayload,
}

/// What the frontend reads when it starts: the latest snapshot, if any.
#[derive(Debug, Clone, PartialEq, Eq)]
pub struct RuntimeBootstrap {
    pub snapshot: Option<RuntimeSnapshot>,
}

impl RuntimeBootstrap {
    pub fn from_snapshot(snapshot: Option<RuntimeSnapshot>) -> (r: Self)
        ensures
            r.snapshot == snapshot,
    {
        RuntimeBootstrap { snapshot }
    }
}

/// A display monitor that the character window can be placed on.
#[derive(Debug, Clone, PartialEq, Eq)]
pub struct DisplayMonitorOption {
    pub id: String,
    pub label: String,
    pub work_area_left: i32,
    pub work_area_top: i32,
    pub work_area_width: u32,
    pub work_area_height: u32,
}

} // verus!
