use vstd::prelude::*;

use crate::clock::MonotonicClock;
use crate::codex::liveness::LivenessSnapshot;
use crate::codex::parser::{opt_view, EventView, QuestionKind, SessionEvent};
use crate::codex::{describes, snapshot_for_status};
use crate::contracts::{RuntimeSnapshot, RuntimeStatus};
use crate::json::str_eq;
use crate::table::KeyedTable;

verus! {

/// How long a completed task keeps the `Complete` status, in nanoseconds.
pub const COMPLETE_GRACE_PERIOD: u128 = 10_000_000_000;

/// How long after the last event the agent counts as active without a live process, in nanoseconds.
pub const EVENT_LIVENESS_GRACE: u128 = 30_000_000_000;

#[derive(Debug, Clone, Copy, PartialEq, Eq, Structural)]
pub enum ActivityKind {
    Thinking,
    Coding,
}

pub type CallTable = KeyedTable<ActivityKind>;

/// The question that is waiting for an answer: its call id and kind.
#[derive(Debug, Clone, PartialEq, Eq)]
pub struct PendingQuestion {
    pub call_id: Option<String>,
    pub kind: QuestionKind,
}

/// The state of the status reducer.
pub struct ReducerView {
    pub source: Seq<char>,
    pub turn_active: bool,
    pub question: Option<(Option<Seq<char>>, QuestionKind)>,
    pub calls: Map<Seq<char>, ActivityKind>,
    pub thinking: usize,
    pub coding: usize,
    pub complete_until: Option<u128>,
    pub last_event_at: Option<u128>,
    pub aborted: bool,
}

/// Folds session events into the runtime status the mascot shows.
#[derive(Debug, Clone)]
pub struct StatusReducer {
    source: String,
    turn_active: bool,
    question_pending: Option<PendingQuestion>,
    active_calls: CallTable,
    active_thinking_ops: usize,
    active_coding_ops: usize,
    complete_until: Option<u128>,
    last_event_at: Option<u128>,
    aborted: bool,
    clock: MonotonicClock,
}

pub open spec fn question_view(q: Option<PendingQuestion>) -> Option<(Option<Seq<char>>, QuestionKind)> {
    match q {
        Some(p) => Some((opt_view(p.call_id), p.kind)),
        None => None,
    }
}

impl View for StatusReducer {
    type V = ReducerView;

    closed spec fn view(&self) -> ReducerView {
        ReducerView {
            source: self.source@,
            turn_active: self.turn_active,
            question: question_view(self.question_pending),
            calls: self.active_calls@,
            thinking: self.active_thinking_ops,
            coding: self.active_coding_ops,
            complete_until: self.complete_until,
            last_event_at: self.last_event_at,
            aborted: self.aborted,
        }
    }
}

/// One more operation of `kind` (saturating).
pub open spec fn incremented(s: ReducerView, kind: ActivityKind) -> ReducerView {
    match kind {
        ActivityKind::Thinking => ReducerView {
            thinking: if s.thinking < usize::MAX { (s.thinking + 1) as usize } else { s.thinking },
            ..s
        },
        ActivityKind::Coding => ReducerView {
            coding: if s.coding < usize::MAX { (s.coding + 1) as usize } else { s.coding },
            ..s
        },
    }
}

/// One operation of `kind` fewer (saturating at zero).
pub open spec fn decremented(s: ReducerView, kind: ActivityKind) -> ReducerView {
    match kind {
        ActivityKind::Thinking => ReducerView {
            thinking: if s.thinking > 0 { (s.thinking - 1) as usize } else { 0 },
            ..s
        },
        ActivityKind::Coding => ReducerView {
            coding: if s.coding > 0 { (s.coding - 1) as usize } else { 0 },
            ..s
        },
    }
}

/// A call of `kind` starts: a known call that changes kind moves its count over;
/// a known call of the same kind changes nothing.
pub open spec fn started(s: ReducerView, call_id: Option<Seq<char>>, kind: ActivityKind) -> ReducerView {
    match call_id {
        Some(id) => if s.calls.contains_key(id) {
            if s.calls[id] == kind {
                s
            } else {
                incremented(ReducerView { calls: s.calls.insert(id, kind), ..decremented(s, s.calls[id]) }, kind)
            }
        } else {
            incremented(ReducerView { calls: s.calls.insert(id, kind), ..s }, kind)
        },
        None => incremented(s, kind),
    }
}

/// A call finishes: a known call gives back its own kind; otherwise the fallback kind,
/// or else a thinking operation, or else a coding operation, is ended.
pub open spec fn finished(s: ReducerView, call_id: Option<Seq<char>>, fallback: Option<ActivityKind>) -> ReducerView {
    if call_id is Some && s.calls.contains_key(call_id->0) {
        decremented(ReducerView { calls: s.calls.remove(call_id->0), ..s }, s.calls[call_id->0])
    } else {
        match fallback {
            Some(kind) => decremented(s, kind),
            None => if s.thinking > 0 {
                ReducerView { thinking: (s.thinking - 1) as usize, ..s }
            } else if s.coding > 0 {
                ReducerView { coding: (s.coding - 1) as usize, ..s }
            } else {
                s
            },
        }
    }
}

pub open spec fn cleared_question(s: ReducerView) -> ReducerView {
    ReducerView { question: None, ..s }
}

/// The state after an event, before the time of the event is recorded.
pub open spec fn applied(s: ReducerView, event: Option<EventView>, now: u128) -> ReducerView {
    match event {
        Some(EventView::TaskStarted { .. }) => ReducerView {
            aborted: false,
            turn_active: true,
            question: None,
            complete_until: None,
            ..s
        },
        Some(EventView::TurnAborted { .. }) => ReducerView {
            turn_active: false,
            question: None,
            calls: Map::empty(),
            thinking: 0,
            coding: 0,
            complete_until: None,
            aborted: true,
            ..s
        },
        _ => if s.aborted {
            s
        } else {
            match event {
                Some(EventView::TaskCompleted { .. }) => ReducerView {
                    turn_active: false,
                    question: None,
                    calls: Map::empty(),
                    thinking: 0,
                    coding: 0,
                    complete_until: Some((now + COMPLETE_GRACE_PERIOD) as u128),
                    ..s
                },
                Some(EventView::QuestionAsked { call_id, kind, .. }) => ReducerView {
                    complete_until: None,
                    question: Some((call_id, kind)),
                    ..s
                },
                Some(EventView::CodingStarted { call_id, .. }) => started(
                    ReducerView { turn_active: true, complete_until: None, question: None, ..s },
                    call_id,
                    ActivityKind::Coding,
                ),
                Some(EventView::CodingCompleted { call_id, .. }) => finished(s, call_id, Some(ActivityKind::Coding)),
                Some(EventView::ToolCallStarted { call_id, .. }) => started(
                    ReducerView { turn_active: true, complete_until: None, question: None, ..s },
                    call_id,
                    ActivityKind::Thinking,
                ),
                Some(EventView::ToolCallCompleted { call_id, .. }) => finished(s, call_id, None),
                Some(EventView::MessageDelta { .. }) | Some(EventView::TokenCount { .. }) => ReducerView {
                    turn_active: true,
                    complete_until: None,
                    ..s
                },
                _ => s,
            }
        }
    }
}

/// The event is a recognised one (not unknown, not absent).
pub open spec fn recognised(event: Option<EventView>) -> bool {
    event is Some && !(event->0 is Unknown)
}

/// The state after an event at time `now`.
pub open spec fn reduced(s: ReducerView, event: Option<EventView>, now: u128) -> ReducerView {
    let t = applied(s, event, now);
    if recognised(event) {
        ReducerView { last_event_at: Some(now), ..t }
    } else {
        t
    }
}

/// The status shown for a state: a pending question first, then a completion still within
/// its grace period; when the liveness gate applies and no process is live, idle unless an
/// event came within the liveness grace; then coding, then thinking, else idle.
pub open spec fn status_of(s: ReducerView, live: bool, now: u128, gate: bool) -> RuntimeStatus {
    if s.question is Some {
        RuntimeStatus::Question
    } else if s.complete_until is Some && now < s.complete_until->0 {
        RuntimeStatus::Complete
    } else if gate && !live && !(s.last_event_at is Some && (if now >= s.last_event_at->0 {
        now - s.last_event_at->0
    } else {
        0
    }) < EVENT_LIVENESS_GRACE) {
        RuntimeStatus::Idle
    } else if s.coding > 0 {
        RuntimeStatus::Coding
    } else if s.turn_active || s.thinking > 0 {
        RuntimeStatus::Thinking
    } else {
        RuntimeStatus::Idle
    }
}

pub open spec fn event_view(event: Option<&SessionEvent>) -> Option<EventView> {
    match event {
        Some(e) => Some(e@),
        None => None,
    }
}

impl StatusReducer {
    pub fn new(source: String) -> (r: Self)
        ensures
            r@ == (ReducerView {
                source: source@,
                turn_active: false,
                question: None,
                calls: Map::empty(),
                thinking: 0,
                coding: 0,
                complete_until: None,
                last_event_at: None,
                aborted: false,
            }),
    {
        StatusReducer {
            source,
            turn_active: false,
            question_pending: None,
            active_calls: CallTable::new(),
            active_thinking_ops: 0,
            active_coding_ops: 0,
            complete_until: None,
            last_event_at: None,
            aborted: false,
            clock: MonotonicClock::start(),
        }
    }

    /// The source that the snapshots name.
    pub fn source(&self) -> (r: &str)
        ensures
            r@ == self@.source,
    {
        self.source.as_str()
    }

    /// The reducer's own clock, in nanoseconds.
    pub fn now(&self) -> u128 {
        self.clock.now()
    }

    /// Reduces an event at the current time of the reducer's clock.
    pub fn reduce(
        &mut self,
        event: Option<&SessionEvent>,
        session_id: Option<String>,
        sessions_root: &str,
        liveness: LivenessSnapshot,
    ) -> (r: RuntimeSnapshot)
        ensures
            exists|now: u128| #![trigger reduced(old(self)@, event_view(event), now)]
                now <= u128::MAX - COMPLETE_GRACE_PERIOD
                && final(self)@ == reduced(old(self)@, event_view(event), now)
                && describes(r, status_of(final(self)@, liveness.has_live_process, now, !recognised(event_view(event))),
                    old(self)@.source, opt_view(session_id), sessions_root@),
    {
        let now = self.clock.now();
        let now = if now > u128::MAX - COMPLETE_GRACE_PERIOD { u128::MAX - COMPLETE_GRACE_PERIOD } else { now };
        self.reduce_at(event, session_id, sessions_root, liveness, now)
    }

    /// Reduces an event that arrived at time `now` and describes the resulting status.
    pub fn reduce_at(
        &mut self,
        event: Option<&SessionEvent>,
        session_id: Option<String>,
        sessions_root: &str,
        liveness: LivenessSnapshot,
        now: u128,
    ) -> (r: RuntimeSnapshot)
        requires
            now <= u128::MAX - COMPLETE_GRACE_PERIOD,
        ensures
            final(self)@ == reduced(old(self)@, event_view(event), now),
            describes(r, status_of(final(self)@, liveness.has_live_process, now, !recognised(event_view(event))),
                old(self)@.source, opt_view(session_id), sessions_root@),
            r.session_id == session_id,
    {
        let is_started = match event { Some(SessionEvent::TaskStarted { .. }) => true, _ => false };
        let is_aborted = match event { Some(SessionEvent::TurnAborted { .. }) => true, _ => false };
        if is_started {
            self.aborted = false;
            self.turn_active = true;
            self.question_pending = None;
            self.complete_until = None;
        } else if is_aborted {
            self.turn_active = false;
            self.question_pending = None;
            self.active_calls.clear();
            self.active_thinking_ops = 0;
            self.active_coding_ops = 0;
            self.complete_until = None;
            self.aborted = true;
        } else if self.aborted {
        } else {
            match event {
                Some(SessionEvent::TaskCompleted { .. }) => {
                    self.turn_active = false;
                    self.question_pending = None;
                    self.active_calls.clear();
                    self.active_thinking_ops = 0;
                    self.active_coding_ops = 0;
                    self.complete_until = Some(now + COMPLETE_GRACE_PERIOD);
                },
                Some(SessionEvent::QuestionAsked { call_id, kind, .. }) => {
                    self.complete_until = None;
                    self.question_pending = Some(PendingQuestion { call_id: call_id.clone(), kind: *kind });
                },
                Some(SessionEvent::CodingStarted { call_id, .. }) => {
                    self.turn_active = true;
                    self.complete_until = None;
                    self.clear_question_on_progress();
                    self.start_activity(as_deref_str(call_id), ActivityKind::Coding);
                },
                Some(SessionEvent::CodingCompleted { call_id, .. }) => {
                    self.finish_activity(as_deref_str(call_id), Some(ActivityKind::Coding));
                },
                Some(SessionEvent::ToolCallStarted { call_id, .. }) => {
                    self.turn_active = true;
                    self.complete_until = None;
                    self.clear_question_on_progress();
                    self.start_activity(as_deref_str(call_id), ActivityKind::Thinking);
                },
                Some(SessionEvent::ToolCallCompleted { call_id, .. }) => {
                    self.finish_activity(as_deref_str(call_id), None);
                },
                Some(SessionEvent::MessageDelta { .. }) | Some(SessionEvent::TokenCount { .. }) => {
                    self.turn_active = true;
                    self.complete_until = None;
                },
                _ => {},
            }
        }
        let is_recognised = match event {
            Some(SessionEvent::Unknown { .. }) | None => false,
            Some(_) => true,
        };
        if is_recognised {
            self.last_event_at = Some(now);
        }
        let status = self.current_status(liveness, now, !is_recognised);
        snapshot_for_status(status, self.source.clone(), session_id, sessions_root.to_owned())
    }

    fn start_activity(&mut self, call_id: Option<&str>, kind: ActivityKind)
        ensures
            final(self)@ == started(old(self)@, str_opt(call_id), kind),
    {
        if let Some(call_id) = call_id {
            match self.active_calls.get(call_id) {
                Some(existing) => {
                    if existing == kind {
                        return;
                    }
                    self.decrement_activity(existing);
                    self.active_calls.insert(call_id, kind);
                    self.increment_activity(kind);
                    return;
                },
                None => {
                    self.active_calls.insert(call_id, kind);
                    self.increment_activity(kind);
                    return;
                },
            }
        }
        self.increment_activity(kind);
    }

    fn finish_activity(&mut self, call_id: Option<&str>, fallback_kind: Option<ActivityKind>)
        ensures
            final(self)@ == finished(old(self)@, str_opt(call_id), fallback_kind),
    {
        let ghost before = self.active_calls@;
        if let Some(call_id) = call_id {
            if let Some(kind) = self.active_calls.remove(call_id) {
                self.decrement_activity(kind);
                return;
            }
            assert(self.active_calls@ =~= before);
        }
        if let Some(kind) = fallback_kind {
            self.decrement_activity(kind);
        } else if self.active_thinking_ops > 0 {
            self.active_thinking_ops -= 1;
        } else if self.active_coding_ops > 0 {
            self.active_coding_ops -= 1;
        }
    }

    fn clear_question_on_progress(&mut self)
        ensures
            final(self)@ == cleared_question(old(self)@),
    {
        if self.question_pending.is_some() {
            self.question_pending = None;
        }
    }

    fn increment_activity(&mut self, kind: ActivityKind)
        ensures
            final(self)@ == incremented(old(self)@, kind),
    {
        match kind {
            ActivityKind::Thinking => {
                self.active_thinking_ops = self.active_thinking_ops.saturating_add(1);
            },
            ActivityKind::Coding => {
                self.active_coding_ops = self.active_coding_ops.saturating_add(1);
            },
        }
    }

    fn decrement_activity(&mut self, kind: ActivityKind)
        ensures
            final(self)@ == decremented(old(self)@, kind),
    {
        match kind {
            ActivityKind::Thinking => {
                self.active_thinking_ops = self.active_thinking_ops.saturating_sub(1);
            },
            ActivityKind::Coding => {
                self.active_coding_ops = self.active_coding_ops.saturating_sub(1);
            },
        }
    }

    /// The status the mascot shows now; `apply_liveness_gate` asks for idle when no
    /// process is live and no event came recently.
    pub fn current_status(&self, liveness: LivenessSnapshot, now: u128, apply_liveness_gate: bool) -> (r: RuntimeStatus)
        ensures
            r == status_of(self@, liveness.has_live_process, now, apply_liveness_gate),
    {
        if self.question_pending.is_some() {
            return RuntimeStatus::Question;
        }
        if let Some(deadline) = self.complete_until {
            if now < deadline {
                return RuntimeStatus::Complete;
            }
        }
        if apply_liveness_gate && !liveness.has_live_process {
            let recently_active = match self.last_event_at {
                Some(t) => {
                    let elapsed = if now >= t { now - t } else { 0 };
                    elapsed < EVENT_LIVENESS_GRACE
                },
                None => false,
            };
            if !recently_active {
                return RuntimeStatus::Idle;
            }
        }
        if self.active_coding_ops > 0 {
            return RuntimeStatus::Coding;
        }
        if self.turn_active || self.active_thinking_ops > 0 {
            return RuntimeStatus::Thinking;
        }
        RuntimeStatus::Idle
    }
}

pub open spec fn str_opt(o: Option<&str>) -> Option<Seq<char>> {
    match o {
        Some(s) => Some(s@),
        None => None,
    }
}

pub fn as_deref_str(o: &Option<String>) -> (r: Option<&str>)
    ensures
        str_opt(r) == opt_view(*o),
{
    match o {
        Some(s) => Some(s.as_str()),
        None => None,
    }
}

} // verus!
