use vstd::prelude::*;

use crate::app_settings::{unchanged_placement, CharacterPlacement, CharacterWindowPosition};
use crate::app_update::{
    began_check, deferred, marked_ready, may_begin_check, prompt_owed, prompt_taken, AppUpdateStatus, UpdateView,
};
use crate::codex::monitor::{consistent, fold_lines, material_of, outcome, tick_result, MonitorView, ObservationView, TickOutput};
use crate::codex::parser::{call_id_of, classify_value, event_name_of, event_of_line, opt_view, EventView};
use crate::codex::session_reader::{prepared, ReaderView};
use crate::json::{json_document, JsonValue};
use crate::param_bridge::{inp_payload, param_entry, ParamView, PayloadView};
use crate::render::premultiplied_pixel;
use crate::window::{explicit_change, WindowCommand};
use crate::codex::reducer::{reduced, status_of, ReducerView, COMPLETE_GRACE_PERIOD, EVENT_LIVENESS_GRACE};
use crate::codex::discovery::{newer, DiscoveredView};
use crate::codex::backend::wsl_command::{fresher, root_view_before, CandidateView, RootView};
use crate::contracts::{RuntimeSnapshot, RuntimeStatus};
use crate::mascot_window::{
    clamped, index_of_id, primary_index, resolved_monitor, DisplayMonitorSnapshot, MascotWindowSize, MonitorWorkArea,
};
use crate::runtime_state::{bumped, sequence_for, RuntimeView};
use crate::settings_flow::{flow_step, nothing_changes, ActionView, FlowStage, FlowView, StepOutcome, UndoView};

verus! {

// ---------------------------------------------------------------------------
// The status reducer.

/// The reducer state after the events, each with its time, in turn.
pub open spec fn fold_events(s: ReducerView, events: Seq<(Option<EventView>, u128)>) -> ReducerView
    decreases events.len(),
{
    if events.len() == 0 {
        s
    } else {
        reduced(fold_events(s, events.drop_last()), events.last().0, events.last().1)
    }
}

/// An event that leaves a pending question standing: anything but a task start or end, an
/// abort, or a new coding or tool call.
pub open spec fn keeps_question(event: Option<EventView>) -> bool {
    match event {
        None => true,
        Some(e) => e is QuestionAsked || e is CodingCompleted || e is ToolCallCompleted || e is MessageDelta
            || e is TokenCount || e is Error || e is Unknown,
    }
}

/// A question asked outside an aborted turn is pending; while only events that keep it
/// follow, the status is `Question` whatever the liveness and the time: it outranks
/// completion, coding, thinking and the liveness gate.
pub proof fn law_pending_question_outranks(s: ReducerView, event: Option<EventView>, now: u128, later: u128,
    live: bool, gate: bool)
    requires
        s.question is Some || (!s.aborted && event matches Some(EventView::QuestionAsked { .. })),
        keeps_question(event),
    ensures
        reduced(s, event, now).question is Some,
        status_of(reduced(s, event, now), live, later, gate) == RuntimeStatus::Question,
{
}

/// What an abort leaves: no turn, no question, no operation and no completion.
pub open spec fn settled_abort(s: ReducerView) -> bool {
    &&& s.aborted
    &&& !s.turn_active
    &&& s.question is None
    &&& s.thinking == 0
    &&& s.coding == 0
    &&& s.complete_until is None
}

/// After an abort, every event but a task start is ignored: the state stays settled and
/// the status is `Idle` whatever the liveness and the time.
pub proof fn law_abort_ignores_until_task_start(s: ReducerView, event: Option<EventView>, now: u128, later: u128,
    live: bool, gate: bool)
    requires
        settled_abort(s) || event matches Some(EventView::TurnAborted { .. }),
        !(event matches Some(EventView::TaskStarted { .. })),
    ensures
        settled_abort(reduced(s, event, now)),
        status_of(reduced(s, event, now), live, later, gate) == RuntimeStatus::Idle,
{
}

/// The state a turn abort leaves: aborted, with no turn, question, call or completion.
pub open spec fn quiet_after_abort(s: ReducerView) -> bool {
    &&& s.aborted
    &&& !s.turn_active
    &&& s.question is None
    &&& s.calls == Map::<Seq<char>, crate::codex::reducer::ActivityKind>::empty()
    &&& s.thinking == 0
    &&& s.coding == 0
    &&& s.complete_until is None
}

proof fn lemma_quiet_stays_quiet(s: ReducerView, events: Seq<(Option<EventView>, u128)>)
    requires
        quiet_after_abort(s),
        forall|i: int| 0 <= i < events.len() ==> !(#[trigger] events[i].0 matches Some(EventView::TaskStarted { .. })),
    ensures
        quiet_after_abort(fold_events(s, events)),
    decreases events.len(),
{
    if events.len() > 0 {
        let rest = events.drop_last();
        assert forall|i: int| 0 <= i < rest.len() implies !(#[trigger] rest[i].0 matches Some(EventView::TaskStarted { .. })) by {
            assert(rest[i] == events[i]);
        }
        lemma_quiet_stays_quiet(s, rest);
        assert(!(events[events.len() - 1].0 matches Some(EventView::TaskStarted { .. })));
    }
}

/// Once a turn is aborted the mascot shows `Idle`, whatever events other than the start
/// of a new task follow, live process or not, at any time.
pub proof fn law_abort_shows_idle_until_a_task_starts(
    s: ReducerView,
    abort_name: Seq<char>,
    aborted_at: u128,
    events: Seq<(Option<EventView>, u128)>,
    live: bool,
    now: u128,
    gate: bool,
)
    requires
        forall|i: int| 0 <= i < events.len() ==> !(#[trigger] events[i].0 matches Some(EventView::TaskStarted { .. })),
    ensures
        status_of(
            fold_events(reduced(s, Some(EventView::TurnAborted { event_name: abort_name }), aborted_at), events),
            live,
            now,
            gate,
        ) == RuntimeStatus::Idle,
{
    let a = reduced(s, Some(EventView::TurnAborted { event_name: abort_name }), aborted_at);
    assert(quiet_after_abort(a));
    lemma_quiet_stays_quiet(a, events);
}

/// A task that starts clears an abort: the turn is active again.
pub proof fn law_task_start_clears_abort(s: ReducerView, name: Seq<char>, t: u128)
    ensures
        !reduced(s, Some(EventView::TaskStarted { event_name: name }), t).aborted,
        reduced(s, Some(EventView::TaskStarted { event_name: name }), t).turn_active,
        reduced(s, Some(EventView::TaskStarted { event_name: name }), t).question is None,
{
}

/// A completed task shows `Complete` for the grace period after it, whatever the
/// liveness of the process, unless the turn had been aborted.
pub proof fn law_completion_shows_complete_within_grace(
    s: ReducerView,
    name: Seq<char>,
    t: u128,
    later: u128,
    live: bool,
    gate: bool,
)
    requires
        !s.aborted,
        t <= u128::MAX - COMPLETE_GRACE_PERIOD,
        t <= later < t + COMPLETE_GRACE_PERIOD,
    ensures
        status_of(reduced(s, Some(EventView::TaskCompleted { event_name: name }), t), live, later, gate)
            == RuntimeStatus::Complete,
{
}

/// Once the grace period of a completion is over, it no longer shows `Complete`.
pub proof fn law_completion_ends_after_grace(
    s: ReducerView,
    name: Seq<char>,
    t: u128,
    later: u128,
    live: bool,
    gate: bool,
)
    requires
        !s.aborted,
        t <= u128::MAX - COMPLETE_GRACE_PERIOD,
        t + COMPLETE_GRACE_PERIOD <= later,
    ensures
        status_of(reduced(s, Some(EventView::TaskCompleted { event_name: name }), t), live, later, gate)
            != RuntimeStatus::Complete,
{
}

/// A question asked shows `Question`, whatever calls run, until progress clears it.
pub proof fn law_question_takes_precedence(
    s: ReducerView,
    name: Seq<char>,
    call_id: Option<Seq<char>>,
    kind: crate::codex::parser::QuestionKind,
    t: u128,
    live: bool,
    now: u128,
    gate: bool,
)
    requires
        !s.aborted,
    ensures
        status_of(
            reduced(s, Some(EventView::QuestionAsked { event_name: name, call_id, kind }), t),
            live,
            now,
            gate,
        ) == RuntimeStatus::Question,
{
}

// ---------------------------------------------------------------------------
// The monitor.

/// Lines read in two batches leave the reducer where one batch of all of them does, and a
/// poll that reads no line changes nothing but the clock.
pub proof fn law_batches_fold_like_one(s: ReducerView, first: Seq<Seq<char>>, second: Seq<Seq<char>>, now: u128)
    ensures
        fold_lines(s, first + second, now) == fold_lines(fold_lines(s, first, now), second, now),
        reduced(s, None, now) == s,
    decreases second.len(),
{
    if second.len() > 0 {
        law_batches_fold_like_one(s, first, second.drop_last(), now);
        assert((first + second).drop_last() =~= first + second.drop_last());
        assert((first + second).last() == second.last());
    } else {
        assert(first + second =~= first);
    }
}

/// A poll sends a snapshot only when what it shows changed: after a poll, a second poll
/// that shows the same status for the same session sends nothing.
pub proof fn law_unchanged_status_is_sent_once(
    before: MonitorView,
    middle: MonitorView,
    after: MonitorView,
    first: TickOutput,
    second: TickOutput,
    obs1: ObservationView,
    obs2: ObservationView,
    root1: Seq<char>,
    root2: Seq<char>,
    live1: bool,
    live2: bool,
    t1: u128,
    t2: u128,
)
    requires
        tick_result(before, middle, first, obs1, root1, live1, t1),
        tick_result(middle, after, second, obs2, root2, live2, t2),
        outcome(before.reducer, obs1, live1, t1).1 == outcome(middle.reducer, obs2, live2, t2).1,
        outcome(before.reducer, obs1, live1, t1).2 == outcome(middle.reducer, obs2, live2, t2).2,
    ensures
        second.snapshot is None,
        after.last_status == middle.last_status,
{
}

/// The status a snapshot sends is the status shown afterwards.
pub proof fn law_sent_status_is_current(
    before: MonitorView,
    after: MonitorView,
    out: TickOutput,
    obs: ObservationView,
    root: Seq<char>,
    live: bool,
    t: u128,
)
    requires
        tick_result(before, after, out, obs, root, live, t),
        out.snapshot is Some,
    ensures
        after.last_status == Some(out.snapshot->0.status),
        after.last_material == Some(material_of(out.snapshot->0.status, opt_view(out.snapshot->0.session_id), before.source)),
{
}

/// A monitor's status follows the snapshots it sends: a poll that sends one shows its
/// status, a poll that sends none keeps the status, and a poll of an unreadable root shows
/// that Codex is not installed and follows no session.
pub proof fn law_status_follows_snapshots(
    before: MonitorView,
    after: MonitorView,
    out: TickOutput,
    obs: ObservationView,
    root: Seq<char>,
    live: bool,
    t: u128,
)
    requires
        consistent(before),
        tick_result(before, after, out, obs, root, live, t),
    ensures
        consistent(after),
        ({
            let (_, status, session) = outcome(before.reducer, obs, live, t);
            out.snapshot is None <==> (before.last_status == Some(status)
                && before.last_material is Some && (before.last_material->0).1 == session)
        }),
        out.snapshot matches Some(s) ==> after.last_status == Some(s.status),
        out.snapshot is None ==> after.last_status == before.last_status,
        obs is RootUnavailable ==> after.last_status == Some(RuntimeStatus::CodexNotInstalled)
            && after.active_session_path is None,
{
}

// ---------------------------------------------------------------------------
// The runtime state.

/// Timeline events of one session are numbered 0, 1, 2, …; an event of another session
/// starts again at 0.
pub proof fn law_sequences_count_per_session(v: RuntimeView, session: Option<Seq<char>>, other: Option<Seq<char>>)
    requires
        other != session,
    ensures
        sequence_for(sequence_for(v, session).1, session).0 == bumped(sequence_for(v, session).0),
        sequence_for(sequence_for(v, session).1, other).0 == 0,
        v.sequence_session_id != session ==> sequence_for(v, session).0 == 0,
{
}

/// Recording one snapshot: it gets the next revision and becomes the latest.
pub open spec fn record_step(v: RuntimeView, s: RuntimeSnapshot) -> (RuntimeSnapshot, RuntimeView) {
    let r = RuntimeSnapshot { revision: v.next_revision, ..s };
    (r, RuntimeView { latest_snapshot: Some(r), next_revision: bumped(v.next_revision), ..v })
}

/// The snapshots given back by recording `snapshots` in turn, and the state afterwards.
pub open spec fn recorded(v: RuntimeView, snapshots: Seq<RuntimeSnapshot>) -> (Seq<RuntimeSnapshot>, RuntimeView)
    decreases snapshots.len(),
{
    if snapshots.len() == 0 {
        (Seq::empty(), v)
    } else {
        let (rs, v1) = recorded(v, snapshots.drop_last());
        let (r, v2) = record_step(v1, snapshots.last());
        (rs.push(r), v2)
    }
}

/// Recorded snapshots are numbered in turn from the next revision: each comes back as it
/// was given, with its revision, and the last one is the latest.
pub proof fn law_revisions_count_up(v: RuntimeView, snapshots: Seq<RuntimeSnapshot>)
    requires
        v.next_revision + snapshots.len() < u64::MAX,
    ensures
        recorded(v, snapshots).0.len() == snapshots.len(),
        forall|i: int| 0 <= i < snapshots.len() ==> #[trigger] recorded(v, snapshots).0[i]
            == (RuntimeSnapshot { revision: (v.next_revision + i) as u64, ..snapshots[i] }),
        recorded(v, snapshots).1.next_revision == v.next_revision + snapshots.len(),
        snapshots.len() > 0 ==> recorded(v, snapshots).1.latest_snapshot == Some(recorded(v, snapshots).0.last()),
        snapshots.len() == 0 ==> recorded(v, snapshots).1 == v,
    decreases snapshots.len(),
{
    if snapshots.len() > 0 {
        let front = snapshots.drop_last();
        law_revisions_count_up(v, front);
        let (rs, v1) = recorded(v, front);
        assert forall|i: int| 0 <= i < snapshots.len() implies #[trigger] recorded(v, snapshots).0[i]
            == (RuntimeSnapshot { revision: (v.next_revision + i) as u64, ..snapshots[i] }) by {
            if i < front.len() {
                assert(recorded(v, snapshots).0[i] == rs[i]);
                assert(front[i] == snapshots[i]);
            }
        }
    }
}

// ---------------------------------------------------------------------------
// Application updates.

/// Only one check runs at a time: a check that started refuses another.
pub proof fn law_one_check_at_a_time(v: UpdateView, stamp: Seq<char>)
    ensures
        !may_begin_check(began_check(v, stamp)),
{
}

/// An update ready to restart refuses new checks and stays ready when the user chooses
/// to restart later, keeping its version.
pub proof fn law_ready_update_is_sticky(v: UpdateView)
    requires
        v.status == AppUpdateStatus::ReadyToRestart,
    ensures
        !may_begin_check(v),
        deferred(v).status == AppUpdateStatus::ReadyToRestart,
        deferred(v).available_version == v.available_version,
        !deferred(v).should_prompt_restart,
        prompt_taken(v).status == AppUpdateStatus::ReadyToRestart,
{
}

/// The restart prompt is asked for once each time an update becomes ready.
pub proof fn law_restart_prompt_once(v: UpdateView, version: Option<Seq<char>>, stamp: Seq<char>)
    ensures
        prompt_owed(marked_ready(v, version, stamp)),
        !prompt_owed(prompt_taken(marked_ready(v, version, stamp))),
        !prompt_owed(prompt_taken(v)),
        !prompt_owed(deferred(v)) || !(v.status == AppUpdateStatus::ReadyToRestart),
{
}

// ---------------------------------------------------------------------------
// Settings and window placement.

/// Merging a placement into settings that hold it changes nothing.
pub proof fn law_merged_placement_is_stable(display_monitor_id: Option<String>, position: Option<CharacterWindowPosition>)
    ensures
        unchanged_placement(
            CharacterPlacement { display_monitor_id, character_window_position: position },
            opt_view(display_monitor_id),
            position,
        ),
{
}

/// A window no larger than the work area is clamped to lie inside it, and a position
/// inside stays where it is.
pub proof fn law_clamped_window_lies_inside(position: CharacterWindowPosition, size: MascotWindowSize, area: MonitorWorkArea)
    requires
        0 <= size.width as i32 <= area.right - area.left,
        0 <= size.height as i32 <= area.bottom - area.top,
    ensures
        area.left <= clamped(position, size, area).0,
        clamped(position, size, area).0 + size.width as i32 <= area.right,
        area.top <= clamped(position, size, area).1,
        clamped(position, size, area).1 + size.height as i32 <= area.bottom,
        (area.left <= position.x && position.x + size.width as i32 <= area.right
            && area.top <= position.y && position.y + size.height as i32 <= area.bottom)
            ==> clamped(position, size, area) == (position.x as int, position.y as int),
{
}

// ---------------------------------------------------------------------------
// Updates of the settings.

/// The order of the stages of an update.
pub open spec fn stage_rank(s: FlowStage) -> int {
    match s {
        FlowStage::Start => 0,
        FlowStage::OnTop => 1,
        FlowStage::Monitor => 2,
        FlowStage::ResizeWindow => 3,
        FlowStage::ResizeMascot => 4,
        FlowStage::Position => 5,
        FlowStage::Persist => 6,
        FlowStage::Finished => 7,
    }
}

/// An update that changes nothing touches no window and keeps the previous settings.
pub proof fn law_unchanged_settings_touch_nothing(v: FlowView, outcome: StepOutcome)
    requires
        v.stage == FlowStage::Start,
        nothing_changes(v.change),
    ensures
        flow_step(v, outcome).1 == ActionView::KeepPrevious,
        flow_step(v, outcome).0.stage == FlowStage::Finished,
{
}

/// Every step of an update moves it forward, so an update ends after at most seven
/// actions; an update ends exactly when it keeps, commits or aborts.
pub proof fn law_update_moves_forward(v: FlowView, outcome: StepOutcome)
    requires
        v.stage != FlowStage::Finished,
    ensures
        stage_rank(flow_step(v, outcome).0.stage) > stage_rank(v.stage),
        (flow_step(v, outcome).0.stage == FlowStage::Finished) <==> (
            flow_step(v, outcome).1 is KeepPrevious
            || flow_step(v, outcome).1 is Commit
            || flow_step(v, outcome).1 is Abort),
{
}

/// When a window action or the write of the settings fails, the update is undone and
/// the previous always-on-top choice is restored last.
pub proof fn law_failed_update_restores_always_on_top(v: FlowView)
    requires
        stage_rank(v.stage) >= 2,
        v.stage != FlowStage::Finished,
    ensures
        flow_step(v, StepOutcome::Failed).1 matches ActionView::Abort(steps)
            && steps.len() > 0
            && steps.last() == UndoView::SetAlwaysOnTop(v.change.previous_always_on_top),
{
}

/// The place of the action an undo step takes back, in the order an update applies them.
pub open spec fn undo_rank(u: UndoView) -> int {
    match u {
        UndoView::SetAlwaysOnTop(_) => 1,
        UndoView::MoveToMonitor(_) => 2,
        UndoView::ResizeWindow(_, _) => 3,
        UndoView::ResizeMascot(_, _) => 4,
        UndoView::MoveToPosition(_, _) => 5,
    }
}

/// A failed update takes back only actions it had already taken, and (the move back to
/// the previous monitor aside, which comes first) the latest first.
pub proof fn law_rollback_in_reverse_order(v: FlowView, outcome: StepOutcome)
    ensures
        flow_step(v, outcome).1 matches ActionView::Abort(steps) ==> {
            &&& forall|i: int| 0 <= i < steps.len() ==> undo_rank(#[trigger] steps[i]) < stage_rank(v.stage)
            &&& forall|i: int, j: int| 0 <= i < j < steps.len() && !(steps[i] is MoveToMonitor)
                ==> undo_rank(#[trigger] steps[i]) > undo_rank(#[trigger] steps[j])
        },
{
    let c = v.change;
    if v.stage == FlowStage::Position || v.stage == FlowStage::Persist {
        let with_position = v.stage == FlowStage::Persist;
        let monitor = if v.next_monitor != opt_view(c.previous_monitor) {
            seq![UndoView::MoveToMonitor(opt_view(c.previous_monitor))]
        } else {
            Seq::empty()
        };
        let position = if with_position && v.next_position != c.previous_position && c.previous_position is Some {
            seq![UndoView::MoveToPosition(c.previous_position->0, opt_view(c.previous_monitor))]
        } else {
            Seq::empty()
        };
        let scale = if c.scale_changed {
            seq![
                UndoView::ResizeMascot(c.previous_width, c.previous_height),
                UndoView::ResizeWindow(c.previous_width, c.previous_height),
            ]
        } else {
            Seq::empty()
        };
        let steps = crate::settings_flow::undo_moves(v, with_position);
        let tail = position + scale + seq![UndoView::SetAlwaysOnTop(c.previous_always_on_top)];
        assert(steps == monitor + tail);
        assert forall|i: int, j: int| 0 <= i < j < tail.len() implies
            undo_rank(#[trigger] tail[i]) > undo_rank(#[trigger] tail[j]) by {
        }
        assert forall|i: int| 0 <= i < steps.len() implies undo_rank(#[trigger] steps[i]) < stage_rank(v.stage) by {
            if i >= monitor.len() {
                assert(steps[i] == tail[i - monitor.len()]);
            }
        }
        assert forall|i: int, j: int| 0 <= i < j < steps.len() && !(steps[i] is MoveToMonitor)
            implies undo_rank(#[trigger] steps[i]) > undo_rank(#[trigger] steps[j]) by {
            assert(i >= monitor.len());
            assert(steps[i] == tail[i - monitor.len()]);
            assert(steps[j] == tail[j - monitor.len()]);
        }
    }
}

/// An action that ends an update.
pub open spec fn ends_update(a: ActionView) -> bool {
    a is KeepPrevious || a is Commit || a is Abort
}

/// The actions an update asks for when its actions go as `outcomes` say, and where it
/// stands afterwards.
pub open spec fn run_update(v: FlowView, outcomes: Seq<StepOutcome>) -> (FlowView, Seq<ActionView>)
    decreases outcomes.len(),
{
    if outcomes.len() == 0 {
        (v, Seq::empty())
    } else {
        let (v1, a) = flow_step(v, outcomes[0]);
        let (v2, rest) = run_update(v1, outcomes.drop_first());
        (v2, seq![a] + rest)
    }
}

proof fn lemma_finished_run(v: FlowView, outcomes: Seq<StepOutcome>)
    requires
        v.stage == FlowStage::Finished,
    ensures
        run_update(v, outcomes).0.stage == FlowStage::Finished,
        forall|i: int| 0 <= i < outcomes.len() ==> #[trigger] run_update(v, outcomes).1[i] == ActionView::Abort(Seq::empty()),
        run_update(v, outcomes).1.len() == outcomes.len(),
    decreases outcomes.len(),
{
    if outcomes.len() > 0 {
        lemma_finished_run(flow_step(v, outcomes[0]).0, outcomes.drop_first());
        let rest = run_update(flow_step(v, outcomes[0]).0, outcomes.drop_first()).1;
        assert forall|i: int| 0 <= i < outcomes.len() implies #[trigger] run_update(v, outcomes).1[i]
            == ActionView::Abort(Seq::empty()) by {
            if i > 0 {
                assert(run_update(v, outcomes).1[i] == rest[i - 1]);
            }
        }
    }
}

/// An update is kept, committed or aborted once: after the action that ends it, all it
/// answers is an empty abort.
pub proof fn law_update_ends_once(v: FlowView, outcomes: Seq<StepOutcome>)
    ensures
        run_update(v, outcomes).1.len() == outcomes.len(),
        forall|i: int, j: int| 0 <= i < j < outcomes.len() && ends_update(#[trigger] run_update(v, outcomes).1[i])
            ==> #[trigger] run_update(v, outcomes).1[j] == ActionView::Abort(Seq::empty()),
    decreases outcomes.len(),
{
    if outcomes.len() > 0 {
        let (v1, a) = flow_step(v, outcomes[0]);
        let rest = outcomes.drop_first();
        law_update_ends_once(v1, rest);
        let acts = run_update(v, outcomes).1;
        let rest_acts = run_update(v1, rest).1;
        assert(acts == seq![a] + rest_acts);
        if v.stage == FlowStage::Finished {
            lemma_finished_run(v, outcomes);
        } else if ends_update(a) {
            law_update_moves_forward(v, outcomes[0]);
            lemma_finished_run(v1, rest);
        }
        assert forall|i: int, j: int| 0 <= i < j < outcomes.len() && ends_update(#[trigger] acts[i])
            implies #[trigger] acts[j] == ActionView::Abort(Seq::empty()) by {
            assert(acts[j] == rest_acts[j - 1]);
            if i > 0 {
                assert(acts[i] == rest_acts[i - 1]);
            } else if v.stage != FlowStage::Finished {
                law_update_moves_forward(v, outcomes[0]);
            }
        }
    }
}

/// An update commits only when none of the actions it took failed (the outcome handed in
/// with the first step of a fresh update answers no action and does not count).
pub proof fn law_commit_needs_every_action_done(v: FlowView, outcomes: Seq<StepOutcome>, k: int)
    requires
        0 <= k < outcomes.len(),
        run_update(v, outcomes).1[k] is Commit,
    ensures
        forall|i: int| 0 <= i <= k && (i > 0 || v.stage != FlowStage::Start) ==> !(#[trigger] outcomes[i] is Failed),
    decreases outcomes.len(),
{
    let (v1, a) = flow_step(v, outcomes[0]);
    let rest = outcomes.drop_first();
    let acts = run_update(v, outcomes).1;
    let rest_acts = run_update(v1, rest).1;
    assert(acts == seq![a] + rest_acts);
    law_update_ends_once(v1, rest);
    if v.stage == FlowStage::Finished {
        lemma_finished_run(v, outcomes);
        assert(acts[k] == ActionView::Abort(Seq::empty()));
    } else if k > 0 {
        assert(acts[k] == rest_acts[k - 1]);
        law_update_moves_forward(v, outcomes[0]);
        if ends_update(a) {
            lemma_finished_run(v1, rest);
            assert(rest_acts[k - 1] == ActionView::Abort(Seq::empty()));
        }
        assert(v.stage == FlowStage::Start || !(outcomes[0] is Failed));
        law_commit_needs_every_action_done(v1, rest, k - 1);
        assert forall|i: int| 0 <= i <= k && (i > 0 || v.stage != FlowStage::Start) implies !(#[trigger] outcomes[i] is Failed) by {
            if i > 0 {
                assert(outcomes[i] == rest[i - 1]);
            }
        }
    }
}

// ---------------------------------------------------------------------------
// Calls of the reducer.

/// The event starts the call `id` (a coding or a tool call).
pub open spec fn starts_call(e: EventView, id: Seq<char>) -> bool {
    match e {
        EventView::CodingStarted { call_id, .. } => call_id == Some(id),
        EventView::ToolCallStarted { call_id, .. } => call_id == Some(id),
        _ => false,
    }
}

/// The event ends the call `id` (as a coding or a tool call completion).
pub open spec fn ends_call(e: EventView, id: Seq<char>) -> bool {
    match e {
        EventView::CodingCompleted { call_id, .. } => call_id == Some(id),
        EventView::ToolCallCompleted { call_id, .. } => call_id == Some(id),
        _ => false,
    }
}

/// A call counts once, as the kind it was started with: starting a new call adds one
/// operation of its kind, and ending it, whatever the ending event says, takes exactly
/// that operation back and leaves the other count alone.
pub proof fn law_a_call_ends_as_it_started(s: ReducerView, start: EventView, end: EventView, id: Seq<char>,
    t1: u128, t2: u128)
    requires
        !s.aborted,
        !s.calls.contains_key(id),
        s.coding < usize::MAX,
        s.thinking < usize::MAX,
        starts_call(start, id),
        ends_call(end, id),
    ensures
        reduced(s, Some(start), t1).coding == s.coding + (if start is CodingStarted { 1int } else { 0 }),
        reduced(s, Some(start), t1).thinking == s.thinking + (if start is ToolCallStarted { 1int } else { 0 }),
        reduced(reduced(s, Some(start), t1), Some(end), t2).coding == s.coding,
        reduced(reduced(s, Some(start), t1), Some(end), t2).thinking == s.thinking,
        !reduced(reduced(s, Some(start), t1), Some(end), t2).calls.contains_key(id),
{
}

// ---------------------------------------------------------------------------
// Session lines.

/// A web search is a tool call, not coding: a line whose event is `web_search_begin`
/// starts a `web_search` tool call with the line's call id.
pub proof fn law_web_search_is_a_tool_call(line: Seq<char>)
    requires
        json_document(line) is Some,
        event_name_of(json_document(line)->0) == "web_search_begin"@,
    ensures
        event_of_line(line) == (EventView::ToolCallStarted {
            event_name: "web_search_begin"@,
            call_id: call_id_of(json_document(line)->0),
            tool_name: "web_search"@,
        }),
{
    reveal_strlit("web_search_begin");
    reveal_strlit("task_started");
    reveal_strlit("turn_started");
    reveal_strlit("task_complete");
    reveal_strlit("turn_complete");
    reveal_strlit("turn_aborted");
    reveal_strlit("exec_approval_request");
    reveal_strlit("request_permissions");
    reveal_strlit("request_user_input");
    reveal_strlit("elicitation_request");
    reveal_strlit("apply_patch_approval_request");
    reveal_strlit("patch_apply_begin");
    reveal_strlit("patch_apply_end");
    reveal_strlit("exec_command_begin");
    reveal_strlit("exec_command_end");
    let name = "web_search_begin"@;
    assert(name[0] != "task_started"@[0]);
    assert(name[0] != "turn_started"@[0]);
    assert(name != "task_complete"@);
    assert(name != "turn_complete"@);
    assert(name != "turn_aborted"@);
    assert(name != "exec_approval_request"@);
    assert(name != "request_permissions"@);
    assert(name != "request_user_input"@);
    assert(name != "elicitation_request"@);
    assert(name != "apply_patch_approval_request"@);
    assert(name != "patch_apply_begin"@);
    assert(name != "patch_apply_end"@);
    assert(name != "exec_command_begin"@);
    assert(name != "exec_command_end"@);
}

// ---------------------------------------------------------------------------
// Reading a session log.

/// Following another log starts it over: nothing of the log followed before, neither its
/// offset nor its unfinished line, carries over, so the new log reads as it would in a
/// fresh reader.
pub proof fn law_another_log_starts_over(v: ReaderView, path: Seq<char>, file_len: u64)
    requires
        v.active_path != Some(path),
    ensures
        prepared(v, path, file_len).active_path == Some(path),
        prepared(v, path, file_len).offset == 0,
        prepared(v, path, file_len).pending.len() == 0,
        prepared(v, path, file_len) == prepared(ReaderView { active_path: None, offset: 0, pending: Seq::empty() }, path, file_len),
{
}

// ---------------------------------------------------------------------------
// The monitor of the character window.

proof fn lemma_absent_id(ms: Seq<DisplayMonitorSnapshot>, id: Seq<char>)
    requires
        forall|j: int| 0 <= j < ms.len() ==> (#[trigger] ms[j]).option.id@ != id,
    ensures
        index_of_id(ms, id) is None,
    decreases ms.len(),
{
    if ms.len() > 0 {
        lemma_absent_id(ms.drop_last(), id);
        assert(ms.last() == ms[ms.len() - 1]);
    }
}

proof fn lemma_present_id(ms: Seq<DisplayMonitorSnapshot>, id: Seq<char>, k: int)
    requires
        0 <= k < ms.len(),
        ms[k].option.id@ == id,
    ensures
        index_of_id(ms, id) is Some,
    decreases ms.len(),
{
    if k < ms.len() - 1 {
        lemma_present_id(ms.drop_last(), id, k);
    }
}

proof fn lemma_first_primary(ms: Seq<DisplayMonitorSnapshot>, k: int)
    requires
        0 <= k < ms.len(),
        ms[k].is_primary,
        forall|j: int| 0 <= j < k ==> !(#[trigger] ms[j]).is_primary,
    ensures
        primary_index(ms) == Some(k),
    decreases ms.len(),
{
    if k < ms.len() - 1 {
        lemma_first_primary(ms.drop_last(), k);
    } else {
        lemma_no_primary(ms.drop_last());
    }
}

proof fn lemma_no_primary(ms: Seq<DisplayMonitorSnapshot>)
    requires
        forall|j: int| 0 <= j < ms.len() ==> !(#[trigger] ms[j]).is_primary,
    ensures
        primary_index(ms) is None,
    decreases ms.len(),
{
    if ms.len() > 0 {
        lemma_no_primary(ms.drop_last());
        assert(!ms[ms.len() - 1].is_primary);
    }
}

/// A monitor that is asked for and exists is the one used.
pub proof fn law_requested_monitor_is_used(requested: Seq<char>, current: Option<Seq<char>>,
    ms: Seq<DisplayMonitorSnapshot>, k: int)
    requires
        0 <= k < ms.len(),
        ms[k].option.id@ == requested,
    ensures
        resolved_monitor(Some(requested), current, ms) == Some(requested),
{
    lemma_present_id(ms, requested, k);
}

/// When neither the monitor asked for nor the current one is among the monitors, the
/// first primary monitor is used; with no primary monitor, the first monitor.
pub proof fn law_fallback_is_the_primary_monitor(requested: Option<Seq<char>>, current: Option<Seq<char>>,
    ms: Seq<DisplayMonitorSnapshot>)
    requires
        requested is None || forall|j: int| 0 <= j < ms.len() ==> (#[trigger] ms[j]).option.id@ != requested->0,
        requested is Some || current is None
            || forall|j: int| 0 <= j < ms.len() ==> (#[trigger] ms[j]).option.id@ != current->0,
    ensures
        forall|k: int| 0 <= k < ms.len() && ms[k].is_primary
            && (forall|j: int| 0 <= j < k ==> !(#[trigger] ms[j]).is_primary)
            ==> resolved_monitor(requested, current, ms) == Some(#[trigger] ms[k].option.id@),
        (forall|j: int| 0 <= j < ms.len() ==> !(#[trigger] ms[j]).is_primary) && ms.len() > 0
            ==> resolved_monitor(requested, current, ms) == Some(ms[0].option.id@),
        ms.len() == 0 ==> resolved_monitor(requested, current, ms) is None,
{
    if requested is Some {
        lemma_absent_id(ms, requested->0);
    } else if current is Some {
        lemma_absent_id(ms, current->0);
    }
    assert forall|k: int| 0 <= k < ms.len() && ms[k].is_primary
        && (forall|j: int| 0 <= j < k ==> !(#[trigger] ms[j]).is_primary)
        implies resolved_monitor(requested, current, ms) == Some(#[trigger] ms[k].option.id@) by {
        lemma_first_primary(ms, k);
    }
    if forall|j: int| 0 <= j < ms.len() ==> !(#[trigger] ms[j]).is_primary {
        lemma_no_primary(ms);
    }
}

// ---------------------------------------------------------------------------
// Puppet parameters.

/// The two numbers of a field, in order, when it is an array of two numbers.
pub open spec fn numbers_in_order(field: Option<JsonValue>, pair: (Seq<char>, Seq<char>)) -> bool {
    field matches Some(JsonValue::Array(items)) && items@.len() == 2
        && (items@[0] matches JsonValue::Number(x) && x@ == pair.0)
        && (items@[1] matches JsonValue::Number(y) && y@ == pair.1)
}

/// A parameter read from an entry keeps the entry's values where they stand: its name,
/// its kind, and each pair (range and defaults) as the first and second number of the
/// entry's array, in that order.
pub proof fn law_param_keeps_entry_values(entry: JsonValue)
    requires
        param_entry(entry) is Ok,
    ensures
        ({
            let p = param_entry(entry)->Ok_0;
            &&& (entry.field("name"@) matches Some(JsonValue::Text(n)) && n@ == p.name)
            &&& entry.field("is_vec2"@) == Some(JsonValue::Bool(p.is_vec2))
            &&& numbers_in_order(entry.field("min"@), p.min)
            &&& numbers_in_order(entry.field("max"@), p.max)
            &&& numbers_in_order(entry.field("defaults"@), p.defaults)
        }),
{
}

// ---------------------------------------------------------------------------
// What each kind of event shows.

/// A task start opens a turn: no question, no completion and no abort stand, and with a
/// live process the agent shows as coding when a coding call is open, else as thinking.
pub proof fn law_task_start_opens_a_turn(s: ReducerView, event: EventView, t: u128, later: u128, gate: bool)
    requires
        event is TaskStarted,
    ensures
        reduced(s, Some(event), t).turn_active,
        !reduced(s, Some(event), t).aborted,
        reduced(s, Some(event), t).question is None,
        reduced(s, Some(event), t).coding == s.coding,
        status_of(reduced(s, Some(event), t), true, later, gate)
            == (if s.coding > 0 { RuntimeStatus::Coding } else { RuntimeStatus::Thinking }),
{
}

/// A completed task shows `Complete` for the grace period, whatever the liveness; once
/// the grace period is over, with a live process, it shows `Idle`: nothing is left open.
pub proof fn law_completion_lasts_the_grace_period(s: ReducerView, event: EventView, t: u128, later: u128,
    live: bool, gate: bool)
    requires
        !s.aborted,
        event is TaskCompleted,
        t <= u128::MAX - COMPLETE_GRACE_PERIOD,
    ensures
        t <= later < t + COMPLETE_GRACE_PERIOD ==> status_of(reduced(s, Some(event), t), live, later, gate)
            == RuntimeStatus::Complete,
        later >= t + COMPLETE_GRACE_PERIOD ==> status_of(reduced(s, Some(event), t), true, later, gate)
            == RuntimeStatus::Idle,
        reduced(s, Some(event), t).coding == 0,
        reduced(s, Some(event), t).thinking == 0,
        reduced(s, Some(event), t).question is None,
{
}

/// Starting a new coding call shows `Coding` while a process is live; starting a new
/// tool call with no coding open shows `Thinking`.
pub proof fn law_calls_show_their_kind(s: ReducerView, event: EventView, t: u128, later: u128, gate: bool)
    requires
        !s.aborted,
        s.coding < usize::MAX,
        s.thinking < usize::MAX,
    ensures
        event is CodingStarted && (event->CodingStarted_call_id is None
            || !s.calls.contains_key(event->CodingStarted_call_id->0))
            ==> status_of(reduced(s, Some(event), t), true, later, gate) == RuntimeStatus::Coding,
        event is ToolCallStarted && s.coding == 0 && (event->ToolCallStarted_call_id is None
            || !s.calls.contains_key(event->ToolCallStarted_call_id->0))
            ==> status_of(reduced(s, Some(event), t), true, later, gate) == RuntimeStatus::Thinking,
{
}

/// Without a live process, and with no question, no completion within its grace period
/// and no event within the liveness grace, the gated status is `Idle` whatever is open.
pub proof fn law_no_process_no_news_is_idle(s: ReducerView, now: u128)
    requires
        s.question is None,
        s.complete_until is None || now >= s.complete_until->0,
        s.last_event_at is None || now >= s.last_event_at->0 + EVENT_LIVENESS_GRACE,
    ensures
        status_of(s, false, now, true) == RuntimeStatus::Idle,
{
}

/// A recent event keeps the agent active without a live process: within the liveness
/// grace, an open coding call still shows `Coding`.
pub proof fn law_recent_events_keep_the_agent_active(s: ReducerView, now: u128)
    requires
        s.question is None,
        s.complete_until is None || now >= s.complete_until->0,
        s.last_event_at is Some,
        s.last_event_at->0 <= now < s.last_event_at->0 + EVENT_LIVENESS_GRACE,
        s.coding > 0,
    ensures
        status_of(s, false, now, true) == RuntimeStatus::Coding,
{
}

// ---------------------------------------------------------------------------
// Orders of choice.

/// The session followed is the one that grew, then the latest modified: a log that grew
/// beats one that did not, and between equals in growth the later one wins; the order is
/// strict.
pub proof fn law_growth_then_time_decides(a: DiscoveredView, b: DiscoveredView)
    ensures
        a.had_recent_append && !b.had_recent_append ==> newer(a, b) && !newer(b, a),
        a.had_recent_append == b.had_recent_append ==> (newer(a, b) <==> a.modified_at > b.modified_at),
        !newer(a, a),
{
}

/// The same order among WSL rollouts.
pub proof fn law_wsl_growth_then_time_decides(a: CandidateView, b: CandidateView)
    ensures
        a.had_recent_append && !b.had_recent_append ==> fresher(a, b) && !fresher(b, a),
        a.had_recent_append == b.had_recent_append ==> (fresher(a, b) <==> a.modified_at > b.modified_at),
        !fresher(a, a),
{
}

/// Among WSL sessions roots the preferred user's comes first; between roots equally
/// preferred, the distribution that sorts first.
pub proof fn law_preferred_user_first(a: RootView, b: RootView, preferred: Seq<char>)
    ensures
        a.user_name == preferred && b.user_name != preferred ==> root_view_before(a, b, Some(preferred))
            && !root_view_before(b, a, Some(preferred)),
{
}

// ---------------------------------------------------------------------------
// Files, pixels and windows.

/// An INP file is read as its format says: after the eight bytes `TRNSRTS\0` comes the
/// payload length as four big-endian bytes, then the payload; whatever follows it is
/// ignored.
pub proof fn law_inp_payload_follows_its_header(b0: u8, b1: u8, b2: u8, b3: u8, payload: Seq<u8>, rest: Seq<u8>)
    requires
        payload.len() == b0 * 16777216 + b1 * 65536 + b2 * 256 + b3,
    ensures
        inp_payload(seq![84u8, 82u8, 78u8, 83u8, 82u8, 84u8, 83u8, 0u8] + seq![b0, b1, b2, b3] + payload + rest)
            == PayloadView::Payload(payload),
{
    let magic = seq![84u8, 82u8, 78u8, 83u8, 82u8, 84u8, 83u8, 0u8];
    let bytes = magic + seq![b0, b1, b2, b3] + payload + rest;
    assert(bytes.subrange(0, 8) =~= magic);
    assert(bytes.subrange(8, 12) =~= seq![b0, b1, b2, b3]);
    assert(bytes.subrange(12, 12 + payload.len() as int) =~= payload);
}

/// A file shorter than its header, or than the payload its header announces, is truncated.
pub proof fn law_short_inp_is_truncated(b0: u8, b1: u8, b2: u8, b3: u8, payload: Seq<u8>)
    requires
        payload.len() < b0 * 16777216 + b1 * 65536 + b2 * 256 + b3,
    ensures
        inp_payload(seq![84u8, 82u8, 78u8, 83u8, 82u8, 84u8, 83u8, 0u8] + seq![b0, b1, b2, b3] + payload)
            is Truncated,
{
    let magic = seq![84u8, 82u8, 78u8, 83u8, 82u8, 84u8, 83u8, 0u8];
    let bytes = magic + seq![b0, b1, b2, b3] + payload;
    assert(bytes.subrange(0, 8) =~= magic);
    assert(bytes.subrange(8, 12) =~= seq![b0, b1, b2, b3]);
}

/// Premultiplying keeps alpha, turns RGBA into BGRA, leaves an opaque pixel's colour as
/// it was, blanks a transparent one, and never brightens a channel.
pub proof fn law_premultiplying_scales_by_alpha(r: u8, g: u8, b: u8, a: u8)
    ensures
        premultiplied_pixel((r, g, b, a)).3 == a,
        a == 255 ==> premultiplied_pixel((r, g, b, a)) == (b, g, r, 255u8),
        a == 0 ==> premultiplied_pixel((r, g, b, a)) == (0u8, 0u8, 0u8, 0u8),
        premultiplied_pixel((r, g, b, a)).0 <= b,
        premultiplied_pixel((r, g, b, a)).1 <= g,
        premultiplied_pixel((r, g, b, a)).2 <= r,
{
    assert(b * a / 255 <= b) by (nonlinear_arith)
        requires
            a <= 255,
    ;
    assert(g * a / 255 <= g) by (nonlinear_arith)
        requires
            a <= 255,
    ;
    assert(r * a / 255 <= r) by (nonlinear_arith)
        requires
            a <= 255,
    ;
    assert(a == 255 ==> b * a / 255 == b) by (nonlinear_arith);
    assert(a == 255 ==> g * a / 255 == g) by (nonlinear_arith);
    assert(a == 255 ==> r * a / 255 == r) by (nonlinear_arith);
}

/// The command for an explicit change brings the window where it was asked to be, and
/// does nothing when it is there already.
pub proof fn law_explicit_change_reaches_the_request(current: bool, requested: bool)
    ensures
        (explicit_change(current, requested) == WindowCommand::Noop) <==> (current == requested),
        explicit_change(current, requested) == WindowCommand::Show ==> requested,
        explicit_change(current, requested) == WindowCommand::Hide ==> !requested,
{
}

} // verus!
