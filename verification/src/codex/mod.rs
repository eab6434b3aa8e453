pub mod backend;
pub mod discovery;
pub mod event_laws;
pub mod liveness;
pub mod monitor;
pub mod parser;
pub mod session_reader;
pub mod reducer;

use vstd::prelude::*;

use crate::clock::timestamp_now;
use crate::contracts::{RuntimeSnapshot, RuntimeStatus};

verus! {

/// The one-line summary shown for a status.
pub open spec fn summary_text(status: RuntimeStatus) -> Seq<char> {
    match status {
        RuntimeStatus::Idle => "Waiting for the next Codex task"@,
        RuntimeStatus::CodexNotInstalled => "Codex sessions root not found"@,
        RuntimeStatus::Thinking => "Thinking or using tools"@,
        RuntimeStatus::Coding => "Writing or patching code"@,
        RuntimeStatus::Question => "Waiting for your input or approval"@,
        RuntimeStatus::Complete => "Current task completed"@,
    }
}

/// The longer explanation shown for a status.
pub open spec fn detail_text(status: RuntimeStatus) -> Seq<char> {
    match status {
        RuntimeStatus::Idle => "The backend is connected and the mascot remains in a calm default posture."@,
        RuntimeStatus::CodexNotInstalled => "Waifudex could not find the configured Codex sessions directory, so it cannot observe Codex runtime state."@,
        RuntimeStatus::Thinking => "Codex is reasoning through the task or using non-coding tools."@,
        RuntimeStatus::Coding => "Codex is editing code or applying a patch to the workspace."@,
        RuntimeStatus::Question => "Codex needs an answer, approval, or permission update before it can continue."@,
        RuntimeStatus::Complete => "Codex finished the current task and will fall back to idle if no new work arrives."@,
    }
}

/// The summary and detail texts of a status.
pub fn describe_status(status: RuntimeStatus) -> (r: (&'static str, &'static str))
    ensures
        r.0@ == summary_text(status),
        r.1@ == detail_text(status),
{
    match status {
        RuntimeStatus::Idle => (
            "Waiting for the next Codex task",
            "The backend is connected and the mascot remains in a calm default posture.",
        ),
        RuntimeStatus::CodexNotInstalled => (
            "Codex sessions root not found",
            "Waifudex could not find the configured Codex sessions directory, so it cannot observe Codex runtime state.",
        ),
        RuntimeStatus::Thinking => (
            "Thinking or using tools",
            "Codex is reasoning through the task or using non-coding tools.",
        ),
        RuntimeStatus::Coding => (
            "Writing or patching code",
            "Codex is editing code or applying a patch to the workspace.",
        ),
        RuntimeStatus::Question => (
            "Waiting for your input or approval",
            "Codex needs an answer, approval, or permission update before it can continue.",
        ),
        RuntimeStatus::Complete => (
            "Current task completed",
            "Codex finished the current task and will fall back to idle if no new work arrives.",
        ),
    }
}

/// The snapshot fields that do not depend on the clock.
pub open spec fn describes(snapshot: RuntimeSnapshot, status: RuntimeStatus, source: Seq<char>,
    session_id: Option<Seq<char>>, sessions_root: Seq<char>) -> bool
{
    &&& snapshot.status == status
    &&& crate::codex::parser::opt_view(snapshot.session_id) == session_id
    &&& snapshot.summary@ == summary_text(status)
    &&& snapshot.detail@ == detail_text(status)
    &&& snapshot.sessions_root@ == sessions_root
    &&& snapshot.source@ == source
    &&& snapshot.revision == 0
}

/// A snapshot of `status` stamped with `updated_at`.
pub fn snapshot_at(
    status: RuntimeStatus,
    source: String,
    session_id: Option<String>,
    sessions_root: String,
    updated_at: String,
) -> (r: RuntimeSnapshot)
    ensures
        describes(r, status, source@, crate::codex::parser::opt_view(session_id), sessions_root@),
        r.session_id == session_id,
        r.updated_at == updated_at,
{
    let (summary, detail) = describe_status(status);
    RuntimeSnapshot {
        session_id,
        status,
        summary: summary.to_owned(),
        detail: detail.to_owned(),
        sessions_root,
        updated_at,
        source,
        revision: 0,
    }
}

/// A snapshot of `status` stamped with the current time.
pub fn snapshot_for_status(
    status: RuntimeStatus,
    source: String,
    session_id: Option<String>,
    sessions_root: String,
) -> (r: RuntimeSnapshot)
    ensures
        describes(r, status, source@, crate::codex::parser::opt_view(session_id), sessions_root@),
        r.session_id == session_id,
{
    snapshot_at(status, source, session_id, sessions_root, timestamp_now())
}

} // verus!
