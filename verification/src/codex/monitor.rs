use vstd::prelude::*;

use crate::clock::timestamp_now;
use crate::codex::backend::local_fs::{LocalFsBackend, SessionFiles};
use crate::codex::backend::SessionBackend;
use crate::codex::liveness::LivenessSnapshot;
use crate::codex::parser::{event_of_line, opt_view, parse_session_line, EventView};
use crate::codex::reducer::{
    as_deref_str, recognised, reduced, status_of, ReducerView, StatusReducer, COMPLETE_GRACE_PERIOD,
};
use crate::codex::{describes, detail_text, snapshot_for_status, summary_text};
use crate::contracts::{RuntimeEvent, RuntimeEventPayload, RuntimeSnapshot, RuntimeStatus};
use crate::json::str_eq;
use crate::runtime_state::{bumped, event_id_text, sequence_for, RuntimeState, RuntimeView};
use crate::text::{clone_opt, views};

verus! {

/// How often the monitor polls the session logs, in milliseconds.
pub const MONITOR_POLL_INTERVAL_MS: u64 = 250;

// ---------------------------------------------------------------------------
// What one poll of the backend saw, and what it gives.

/// One line of a session log on its way to the timeline.
#[derive(Debug, Clone, PartialEq, Eq)]
pub struct TimelineRecord {
    pub session_id: Option<String>,
    pub payload: RuntimeEventPayload,
}

/// A timeline record as plain values: session, raw line, parsed type, whether it parsed.
pub type RecordView = (Option<Seq<char>>, Seq<char>, Option<Seq<char>>, bool);

pub open spec fn record_view(r: TimelineRecord) -> RecordView {
    (opt_view(r.session_id), r.payload.raw_line@, opt_view(r.payload.parsed_type), r.payload.parse_ok)
}

pub open spec fn record_views(rs: Seq<TimelineRecord>) -> Seq<RecordView> {
    rs.map_values(|r: TimelineRecord| record_view(r))
}

/// The timeline records of the lines of a session: each line with what the parser made of it.
pub open spec fn line_records(session_id: Seq<char>, lines: Seq<Seq<char>>) -> Seq<RecordView> {
    Seq::new(
        lines.len(),
        |i: int| (Some(session_id), lines[i], event_of_line(lines[i]).name(), !(event_of_line(lines[i]) is Unknown)),
    )
}

/// Snapshot material as plain values: status, session, summary, detail, source.
pub type MaterialView = (RuntimeStatus, Option<Seq<char>>, Seq<char>, Seq<char>, Seq<char>);

/// The material of a snapshot that shows `status` for `session` from `source`.
pub open spec fn material_of(status: RuntimeStatus, session: Option<Seq<char>>, source: Seq<char>) -> MaterialView {
    (status, session, summary_text(status), detail_text(status), source)
}

/// Whether two optional texts are equal.
pub fn same_opt_text(a: &Option<String>, b: &Option<String>) -> (r: bool)
    ensures
        r == (opt_view(*a) == opt_view(*b)),
{
    match (a, b) {
        (Some(x), Some(y)) => str_eq(x.as_str(), y.as_str()),
        (None, None) => true,
        _ => false,
    }
}

/// What one poll of the backend saw.
#[derive(Debug)]
pub enum Observation {
    /// The sessions root cannot be read.
    RootUnavailable,
    /// The root can be read but holds no session log.
    NoSession,
    /// The session log to follow and the lines appended to it since the last poll.
    Session { path: String, session_id: String, lines: Vec<String> },
}

pub enum ObservationView {
    RootUnavailable,
    NoSession,
    Session { path: Seq<char>, session_id: Seq<char>, lines: Seq<Seq<char>> },
}

impl View for Observation {
    type V = ObservationView;

    open spec fn view(&self) -> ObservationView {
        match self {
            Observation::RootUnavailable => ObservationView::RootUnavailable,
            Observation::NoSession => ObservationView::NoSession,
            Observation::Session { path, session_id, lines } => ObservationView::Session {
                path: path@,
                session_id: session_id@,
                lines: views(lines@),
            },
        }
    }
}

/// The reducer state after the lines, each parsed and reduced in turn at time `now`.
pub open spec fn fold_lines(s: ReducerView, lines: Seq<Seq<char>>, now: u128) -> ReducerView
    decreases lines.len(),
{
    if lines.len() == 0 {
        s
    } else {
        reduced(fold_lines(s, lines.drop_last(), now), Some(event_of_line(lines.last())), now)
    }
}

/// What a poll makes of the reducer state: the state after, the status to show and the
/// session it belongs to. An unreadable root shows that Codex is not installed; a poll
/// with no new line reduces the mere passing of time.
pub open spec fn outcome(s: ReducerView, obs: ObservationView, live: bool, now: u128)
    -> (ReducerView, RuntimeStatus, Option<Seq<char>>)
{
    match obs {
        ObservationView::RootUnavailable => (s, RuntimeStatus::CodexNotInstalled, None),
        ObservationView::NoSession => {
            let r = reduced(s, None, now);
            (r, status_of(r, live, now, true), None)
        },
        ObservationView::Session { session_id, lines, .. } => {
            if lines.len() == 0 {
                let r = reduced(s, None, now);
                (r, status_of(r, live, now, true), Some(session_id))
            } else {
                let r = fold_lines(s, lines, now);
                (r, status_of(r, live, now, !recognised(Some(event_of_line(lines.last())))), Some(session_id))
            }
        },
    }
}

/// The timeline records of a poll.
pub open spec fn records_of(obs: ObservationView) -> Seq<RecordView> {
    match obs {
        ObservationView::Session { session_id, lines, .. } => line_records(session_id, lines),
        _ => Seq::empty(),
    }
}

/// The session log a poll follows.
pub open spec fn session_path_of(obs: ObservationView) -> Option<Seq<char>> {
    match obs {
        ObservationView::Session { path, .. } => Some(path),
        _ => None,
    }
}

/// What one poll gives: a snapshot when it differs from the last one sent, and the lines
/// for the timeline.
#[derive(Debug)]
pub struct TickOutput {
    pub snapshot: Option<RuntimeSnapshot>,
    pub timeline_records: Vec<TimelineRecord>,
}

/// The monitor state as plain values.
pub struct MonitorView {
    pub source: Seq<char>,
    pub reducer: ReducerView,
    pub last_status: Option<RuntimeStatus>,
    pub last_material: Option<MaterialView>,
    pub active_session_path: Option<Seq<char>>,
}

/// The material last sent is that of the status last sent, for its session and the
/// monitor's source: both are absent before the first snapshot.
pub open spec fn consistent(v: MonitorView) -> bool {
    match (v.last_status, v.last_material) {
        (None, None) => true,
        (Some(status), Some(m)) => m == material_of(status, m.1, v.source),
        _ => false,
    }
}

/// A poll that saw `obs` under the root shown as `root` took the monitor from `before`
/// to `after` and gave `out`: the snapshot is sent only when its material changed.
pub open spec fn tick_result(
    before: MonitorView,
    after: MonitorView,
    out: TickOutput,
    obs: ObservationView,
    root: Seq<char>,
    live: bool,
    now: u128,
) -> bool {
    let (red, status, session) = outcome(before.reducer, obs, live, now);
    let m = material_of(status, session, before.source);
    &&& after.source == before.source
    &&& after.reducer == red
    &&& after.active_session_path == session_path_of(obs)
    &&& record_views(out.timeline_records@) == records_of(obs)
    &&& if before.last_material == Some(m) {
        &&& out.snapshot is None
        &&& after.last_material == before.last_material
        &&& after.last_status == before.last_status
    } else {
        &&& (out.snapshot matches Some(s) && describes(s, status, before.source, session, root))
        &&& after.last_material == Some(m)
        &&& after.last_status == Some(status)
    }
}

// ---------------------------------------------------------------------------
// The supervisor.

/// Polls a session backend, folds what it reads into the runtime status and decides what
/// the frontend is sent.
pub struct MonitorSupervisor<B: SessionBackend> {
    backend: B,
    reducer: StatusReducer,
    /// The status and session of the last snapshot sent.
    last_sent: Option<(RuntimeStatus, Option<String>)>,
    active_session_path: Option<String>,
}

impl<B: SessionBackend> View for MonitorSupervisor<B> {
    type V = MonitorView;

    closed spec fn view(&self) -> MonitorView {
        MonitorView {
            source: self.reducer@.source,
            reducer: self.reducer@,
            last_status: match self.last_sent {
                Some((status, _)) => Some(status),
                None => None,
            },
            last_material: match self.last_sent {
                Some((status, session)) => Some(material_of(status, opt_view(session), self.reducer@.source)),
                None => None,
            },
            active_session_path: opt_view(self.active_session_path),
        }
    }
}

/// Whether the backend should be looked for again: its root cannot be read, or it is the
/// local one and follows no session.
pub open spec fn refresh_wanted(available: bool, backend_kind: Seq<char>, has_active_session: bool) -> bool {
    !available || (backend_kind == "local_fs"@ && !has_active_session)
}

pub fn should_refresh_backend(available: bool, backend_kind: &str, has_active_session: bool) -> (r: bool)
    ensures
        r == refresh_wanted(available, backend_kind@, has_active_session),
{
    !available || (str_eq(backend_kind, "local_fs") && !has_active_session)
}

/// Whether a newly found backend differs from the current one, by kind or by root.
pub fn backend_changed(kind: &str, display: &str, next_kind: &str, next_display: &str) -> (r: bool)
    ensures
        r == (kind@ != next_kind@ || display@ != next_display@),
{
    !str_eq(kind, next_kind) || !str_eq(display, next_display)
}

impl<B: SessionBackend> MonitorSupervisor<B> {
    /// A supervisor's status and material last sent agree.
    pub proof fn lemma_consistent(&self)
        ensures
            consistent(self@),
    {
    }

    pub closed spec fn backend(&self) -> B {
        self.backend
    }

    pub fn from_backend(backend: B, source: String) -> (r: Self)
        ensures
            r.backend() == backend,
            r@ == (MonitorView {
                source: source@,
                reducer: ReducerView {
                    source: source@,
                    turn_active: false,
                    question: None,
                    calls: Map::empty(),
                    thinking: 0,
                    coding: 0,
                    complete_until: None,
                    last_event_at: None,
                    aborted: false,
                },
                last_status: None,
                last_material: None,
                active_session_path: None,
            }),
    {
        MonitorSupervisor {
            backend,
            reducer: StatusReducer::new(source),
            last_sent: None,
            active_session_path: None,
        }
    }

    pub fn from_boxed_backend(backend: Box<B>, source: String) -> (r: Self)
        ensures
            r.backend() == *backend,
            r@.source == source@,
            r@.last_status is None,
            r@.last_material is None,
            r@.active_session_path is None,
    {
        Self::from_backend(*backend, source)
    }

    /// The status of the last snapshot sent.
    pub fn current_status(&self) -> (r: Option<RuntimeStatus>)
        ensures
            r == self@.last_status,
    {
        match &self.last_sent {
            Some((status, _)) => Some(*status),
            None => None,
        }
    }

    /// The session log the last poll followed.
    pub fn current_session_path(&self) -> (r: Option<&str>)
        ensures
            crate::codex::reducer::str_opt(r) == self@.active_session_path,
    {
        as_deref_str(&self.active_session_path)
    }

    pub fn source(&self) -> (r: &str)
        ensures
            r@ == self@.source,
    {
        self.reducer.source()
    }

    pub fn backend_ref(&self) -> (r: &B)
        ensures
            *r == self.backend(),
    {
        &self.backend
    }

    /// Folds what one poll saw into the status and decides what is sent.
    pub fn apply_observation(
        &mut self,
        observation: Observation,
        sessions_root: &str,
        liveness: LivenessSnapshot,
        now: u128,
    ) -> (r: TickOutput)
        requires
            now <= u128::MAX - COMPLETE_GRACE_PERIOD,
        ensures
            final(self).backend() == old(self).backend(),
            tick_result(old(self)@, final(self)@, r, observation@, sessions_root@, liveness.has_live_process, now),
    {
        let ghost obs = observation@;
        let mut timeline_records: Vec<TimelineRecord> = Vec::new();
        let candidate = match observation {
            Observation::RootUnavailable => {
                self.active_session_path = None;
                snapshot_for_status(RuntimeStatus::CodexNotInstalled, self.reducer.source().to_owned(), None, sessions_root.to_owned())
            },
            Observation::NoSession => {
                self.active_session_path = None;
                self.reducer.reduce_at(None, None, sessions_root, liveness, now)
            },
            Observation::Session { path, session_id, lines } => {
                self.active_session_path = Some(path);
                if lines.len() == 0 {
                    self.reducer.reduce_at(None, Some(session_id), sessions_root, liveness, now)
                } else {
                    let ghost start = self.reducer@;
                    let ghost all = views(lines@);
                    let mut latest = self.reduce_line(&mut timeline_records, &lines[0], &session_id, sessions_root, liveness, now);
                    proof {
                        assert(all.take(1).drop_last() =~= all.take(0));
                        assert(all.take(0) =~= Seq::<Seq<char>>::empty());
                        reveal_with_fuel(fold_lines, 2);
                        assert(all.take(1).last() == lines@[0]@);
                        assert(fold_lines(start, all.take(1), now) == self.reducer@);
                        assert(line_records(session_id@, all.take(1)) =~= seq![
                            (Some(session_id@), lines@[0]@, event_of_line(lines@[0]@).name(), !(event_of_line(lines@[0]@) is Unknown))
                        ]);
                        assert(record_views(timeline_records@) =~= line_records(session_id@, all.take(1)));
                    }
                    let mut i: usize = 1;
                    while i < lines.len()
                        invariant
                            1 <= i <= lines.len(),
                            all == views(lines@),
                            self.reducer@.source == old(self)@.reducer.source,
                            self.backend == old(self).backend,
                            self.last_sent == old(self).last_sent,
                            opt_view(self.active_session_path) == session_path_of(obs),
                            obs == (ObservationView::Session { path: session_path_of(obs)->0, session_id: session_id@, lines: all }),
                            now <= u128::MAX - COMPLETE_GRACE_PERIOD,
                            self.reducer@ == fold_lines(start, all.take(i as int), now),
                            record_views(timeline_records@) == line_records(session_id@, all.take(i as int)),
                            describes(latest, status_of(self.reducer@, liveness.has_live_process, now,
                                !recognised(Some(event_of_line(all[i - 1])))), old(self)@.reducer.source,
                                Some(session_id@), sessions_root@),
                        decreases lines.len() - i,
                    {
                        let ghost before_records = timeline_records@;
                        let ghost before_reducer = self.reducer@;
                        latest = self.reduce_line(&mut timeline_records, &lines[i], &session_id, sessions_root, liveness, now);
                        proof {
                            let t = all.take(i + 1);
                            assert(t.drop_last() =~= all.take(i as int));
                            assert(t.last() == all[i as int]);
                            assert(line_records(session_id@, t) =~= line_records(session_id@, all.take(i as int)).push(
                                (Some(session_id@), all[i as int], event_of_line(all[i as int]).name(), !(event_of_line(all[i as int]) is Unknown))));
                            assert(record_views(timeline_records@) =~= record_views(before_records).push(record_view(timeline_records@.last())));
                        }
                        i += 1;
                    }
                    proof {
                        assert(all.take(lines.len() as int) =~= all);
                    }
                    latest
                }
            },
        };
        let ghost (red, status, session) = outcome(old(self)@.reducer, obs, liveness.has_live_process, now);
        assert(describes(candidate, status, old(self)@.source, session, sessions_root@));
        assert(self@.reducer == red);
        assert(self@.active_session_path == session_path_of(obs));
        assert(record_views(timeline_records@) == records_of(obs));
        let same = match &self.last_sent {
            Some((last_status, last_session)) => {
                *last_status == candidate.status && same_opt_text(last_session, &candidate.session_id)
            },
            None => false,
        };
        if same {
            TickOutput { snapshot: None, timeline_records }
        } else {
            self.last_sent = Some((candidate.status, clone_opt(&candidate.session_id)));
            TickOutput { snapshot: Some(candidate), timeline_records }
        }
    }

    /// Parses one line, adds it to the timeline records and reduces it.
    fn reduce_line(
        &mut self,
        records: &mut Vec<TimelineRecord>,
        line: &String,
        session_id: &String,
        sessions_root: &str,
        liveness: LivenessSnapshot,
        now: u128,
    ) -> (r: RuntimeSnapshot)
        requires
            now <= u128::MAX - COMPLETE_GRACE_PERIOD,
        ensures
            final(self).backend == old(self).backend,
            final(self).last_sent == old(self).last_sent,
            final(self).active_session_path == old(self).active_session_path,
            final(self).reducer@ == reduced(old(self).reducer@, Some(event_of_line(line@)), now),
            final(records)@.len() == old(records)@.len() + 1,
            final(records)@.drop_last() == old(records)@,
            record_view(final(records)@.last()) == (Some(session_id@), line@, event_of_line(line@).name(),
                !(event_of_line(line@) is Unknown)),
            describes(r, status_of(final(self).reducer@, liveness.has_live_process, now,
                !recognised(Some(event_of_line(line@)))), old(self).reducer@.source, Some(session_id@), sessions_root@),
    {
        let event = parse_session_line(line.as_str());
        let parsed_type = match event.parsed_type() {
            Some(name) => Some(name.to_owned()),
            None => None,
        };
        let parse_ok = event.parse_ok();
        records.push(TimelineRecord {
            session_id: Some(session_id.clone()),
            payload: RuntimeEventPayload { raw_line: line.clone(), parsed_type, parse_ok },
        });
        proof {
            assert(crate::codex::reducer::event_view(Some(&event)) == Some(event_of_line(line@)));
        }
        self.reducer.reduce_at(Some(&event), Some(session_id.clone()), sessions_root, liveness, now)
    }

    /// Polls the backend at time `now` (nanoseconds of the reducer's clock). An error of
    /// the backend leaves the status as it was.
    pub fn tick_at(&mut self, liveness: LivenessSnapshot, now: u128) -> (r: std::io::Result<TickOutput>)
        requires
            now <= u128::MAX - COMPLETE_GRACE_PERIOD,
        ensures
            r matches Ok(out) ==> exists|obs: ObservationView|
                #[trigger] tick_result(old(self)@, final(self)@, out, obs, final(self).backend().display_spec(),
                    liveness.has_live_process, now),
            r is Err ==> final(self)@ == (MonitorView { active_session_path: final(self)@.active_session_path, ..old(self)@ }),
    {
        let observation = if !self.backend.sessions_root_available() {
            Observation::RootUnavailable
        } else {
            match self.backend.select_active_session() {
                Err(error) => return Err(error),
                Ok(None) => Observation::NoSession,
                Ok(Some(candidate)) => {
                    self.active_session_path = Some(candidate.path.clone());
                    let lines = match self.backend.read_new_lines(&candidate) {
                        Ok(lines) => lines,
                        Err(error) => return Err(error),
                    };
                    Observation::Session { path: candidate.path, session_id: candidate.session_id, lines }
                },
            }
        };
        let ghost obs = observation@;
        let ghost mid = self@;
        let root = self.backend.sessions_root_display().to_owned();
        let out = self.apply_observation(observation, root.as_str(), liveness, now);
        assert(tick_result(old(self)@, self@, out, obs, self.backend().display_spec(), liveness.has_live_process, now));
        Ok(out)
    }

    /// Polls the backend at the current time of the reducer's clock.
    pub fn tick(&mut self, liveness: LivenessSnapshot) -> (r: std::io::Result<TickOutput>)
        ensures
            r matches Ok(out) ==> exists|obs: ObservationView, now: u128|
                #[trigger] tick_result(old(self)@, final(self)@, out, obs, final(self).backend().display_spec(),
                    liveness.has_live_process, now),
            r is Err ==> final(self)@ == (MonitorView { active_session_path: final(self)@.active_session_path, ..old(self)@ }),
    {
        let now = self.reducer.now();
        let now = if now > u128::MAX - COMPLETE_GRACE_PERIOD { u128::MAX - COMPLETE_GRACE_PERIOD } else { now };
        let r = self.tick_at(liveness, now);
        proof {
            if r is Ok {
                let out = r->Ok_0;
                let obs = choose|obs: ObservationView|
                    #[trigger] tick_result(old(self)@, self@, out, obs, self.backend().display_spec(), liveness.has_live_process, now);
                assert(tick_result(old(self)@, self@, out, obs, self.backend().display_spec(), liveness.has_live_process, now));
            }
        }
        r
    }

    /// Whether the backend should be looked for again: always when its sessions root is
    /// unavailable, and for a local backend while no session is followed.
    pub fn needs_backend_refresh(&self) -> (r: bool)
        ensures
            self.backend().kind_spec() == "local_fs"@ && self@.active_session_path is None ==> r,
    {
        should_refresh_backend(
            self.backend.sessions_root_available(),
            self.backend.backend_kind(),
            self.active_session_path.is_some(),
        )
    }

    /// Takes a newly found backend when it differs from the current one, by kind or by
    /// root, and then follows no session until the next poll.
    pub fn adopt_backend(&mut self, next: B) -> (r: bool)
        ensures
            r == (old(self).backend().kind_spec() != next.kind_spec()
                || old(self).backend().display_spec() != next.display_spec()),
            r ==> final(self).backend() == next
                && final(self)@ == (MonitorView { active_session_path: None, ..old(self)@ }),
            !r ==> final(self).backend() == old(self).backend() && final(self)@ == old(self)@,
    {
        let changed = backend_changed(
            self.backend.backend_kind(),
            self.backend.sessions_root_display(),
            next.backend_kind(),
            next.sessions_root_display(),
        );
        if changed {
            self.backend = next;
            self.active_session_path = None;
        }
        changed
    }
}

impl<F: SessionFiles> MonitorSupervisor<LocalFsBackend<F>> {
    /// A supervisor of the session logs under a local sessions root.
    pub fn new(sessions_root: String, files: F, source: String) -> (r: Self)
        ensures
            r@.source == source@,
            r@.last_status is None,
            r@.last_material is None,
            r@.active_session_path is None,
            r.backend()@.sessions_root == sessions_root@,
            r.backend().files() == files,
    {
        Self::from_backend(LocalFsBackend::new(sessions_root, files), source)
    }
}

// ---------------------------------------------------------------------------
// What is sent to the frontend.

/// What one poll sends to the frontend.
#[derive(Debug)]
pub struct TickEmissions {
    pub snapshot: Option<RuntimeSnapshot>,
    pub timeline: Vec<RuntimeEvent>,
}

/// The sequence numbers and ids that timeline events of the given sessions get in turn,
/// and the runtime state after.
pub open spec fn stamped(v: RuntimeView, sessions: Seq<Option<Seq<char>>>) -> (Seq<(u64, Seq<char>)>, RuntimeView)
    decreases sessions.len(),
{
    if sessions.len() == 0 {
        (Seq::empty(), v)
    } else {
        let (stamps, v1) = stamped(v, sessions.drop_last());
        let (sequence, after) = sequence_for(v1, sessions.last());
        (
            stamps.push((sequence, event_id_text(sessions.last(), sequence, after.next_event_ordinal))),
            RuntimeView { next_event_ordinal: bumped(after.next_event_ordinal), ..after },
        )
    }
}

proof fn lemma_stamped_len(v: RuntimeView, sessions: Seq<Option<Seq<char>>>)
    ensures
        stamped(v, sessions).0.len() == sessions.len(),
    decreases sessions.len(),
{
    if sessions.len() > 0 {
        lemma_stamped_len(v, sessions.drop_last());
    }
}

pub open spec fn record_sessions(rs: Seq<TimelineRecord>) -> Seq<Option<Seq<char>>> {
    rs.map_values(|r: TimelineRecord| opt_view(r.session_id))
}

/// The runtime state after a poll's snapshot, if it sent one, was recorded.
pub open spec fn after_snapshot(v: RuntimeView, snapshot: Option<RuntimeSnapshot>) -> RuntimeView {
    match snapshot {
        Some(s) => RuntimeView {
            latest_snapshot: Some(RuntimeSnapshot { revision: v.next_revision, ..s }),
            next_revision: bumped(v.next_revision),
            ..v
        },
        None => v,
    }
}

/// What recording a poll's `output` in the runtime state `before` sends with `source`:
/// the emissions `r` and the runtime state `after`.
pub open spec fn emitted(before: RuntimeView, output: TickOutput, source: Seq<char>, r: TickEmissions,
    after: RuntimeView) -> bool
{
    let v1 = after_snapshot(before, output.snapshot);
    let (stamps, v2) = stamped(v1, record_sessions(output.timeline_records@));
    &&& (match output.snapshot {
        Some(s) => r.snapshot == Some(RuntimeSnapshot { revision: before.next_revision, ..s }),
        None => r.snapshot is None,
    })
    &&& after == v2
    &&& r.timeline@.len() == output.timeline_records@.len()
    &&& forall|i: int| 0 <= i < r.timeline@.len() ==> {
        let e = #[trigger] r.timeline@[i];
        let rec = output.timeline_records@[i];
        &&& e.sequence == stamps[i].0
        &&& e.event_id@ == stamps[i].1
        &&& e.session_id == rec.session_id
        &&& e.payload == rec.payload
        &&& e.source@ == source
        &&& e.kind@ == "session_line"@
    }
}

/// Records a poll's output in the runtime state: the snapshot gets the next revision,
/// each timeline line the next sequence of its session and an id.
pub fn emissions_from_output(output: TickOutput, state: &mut RuntimeState, source: &str) -> (r: TickEmissions)
    ensures
        ({
            let v1 = after_snapshot(old(state).state(), output.snapshot);
            let (stamps, v2) = stamped(v1, record_sessions(output.timeline_records@));
            &&& (match output.snapshot {
                Some(s) => r.snapshot == Some(RuntimeSnapshot { revision: old(state).state().next_revision, ..s }),
                None => r.snapshot is None,
            })
            &&& final(state).state() == v2
            &&& r.timeline@.len() == output.timeline_records@.len()
            &&& forall|i: int| 0 <= i < r.timeline@.len() ==> {
                let e = #[trigger] r.timeline@[i];
                let rec = output.timeline_records@[i];
                &&& e.sequence == stamps[i].0
                &&& e.event_id@ == stamps[i].1
                &&& e.session_id == rec.session_id
                &&& e.payload == rec.payload
                &&& e.source@ == source@
                &&& e.kind@ == "session_line"@
            }
        }),
{
    let TickOutput { snapshot, timeline_records } = output;
    let snapshot = match snapshot {
        Some(s) => Some(state.record_snapshot(s)),
        None => None,
    };
    let ghost v1 = state.state();
    let ghost sessions = record_sessions(timeline_records@);
    let mut timeline: Vec<RuntimeEvent> = Vec::new();
    let mut i: usize = 0;
    while i < timeline_records.len()
        invariant
            i <= timeline_records.len(),
            sessions == record_sessions(timeline_records@),
            timeline@.len() == i,
            ({
                let (stamps, v) = stamped(v1, sessions.take(i as int));
                &&& state.state() == v
                &&& forall|j: int| 0 <= j < i ==> {
                    let e = #[trigger] timeline@[j];
                    let rec = timeline_records@[j];
                    &&& e.sequence == stamps[j].0
                    &&& e.event_id@ == stamps[j].1
                    &&& e.session_id == rec.session_id
                    &&& e.payload == rec.payload
                    &&& e.source@ == source@
                    &&& e.kind@ == "session_line"@
                }
            }),
        decreases timeline_records.len() - i,
    {
        let record = &timeline_records[i];
        let ghost before = state.state();
        let ghost prev_timeline = timeline@;
        let cursor = state.next_timeline_event(as_deref_str(&record.session_id));
        let event = RuntimeEvent {
            event_id: cursor.event_id,
            session_id: clone_opt(&record.session_id),
            sequence: cursor.sequence,
            received_at: timestamp_now(),
            source: source.to_owned(),
            kind: "session_line".to_owned(),
            payload: RuntimeEventPayload {
                raw_line: record.payload.raw_line.clone(),
                parsed_type: clone_opt(&record.payload.parsed_type),
                parse_ok: record.payload.parse_ok,
            },
        };
        timeline.push(event);
        proof {
            reveal_strlit("session_line");
            let t = sessions.take(i + 1);
            assert(t.drop_last() =~= sessions.take(i as int));
            assert(t.last() == opt_view(timeline_records@[i as int].session_id));
            let (stamps, v) = stamped(v1, sessions.take(i as int));
            let (stamps1, v2) = stamped(v1, t);
            lemma_stamped_len(v1, sessions.take(i as int));
            assert(stamps1 == stamps.push((cursor.sequence, cursor.event_id@)));
            assert forall|j: int| 0 <= j < i + 1 implies {
                let e = #[trigger] timeline@[j];
                let rec = timeline_records@[j];
                &&& e.sequence == stamps1[j].0
                &&& e.event_id@ == stamps1[j].1
                &&& e.session_id == rec.session_id
                &&& e.payload == rec.payload
                &&& e.source@ == source@
                &&& e.kind@ == "session_line"@
            } by {
                assert(timeline@.drop_last() == prev_timeline);
                if j < i {
                    assert(timeline@[j] == prev_timeline[j]);
                    assert(stamps1[j] == stamps[j]);
                } else {
                    assert(timeline@[j] == event);
                }
            }
        }
        i += 1;
    }
    proof {
        assert(sessions.take(timeline_records@.len() as int) =~= sessions);
    }
    TickEmissions { snapshot, timeline }
}

/// Polls the supervisor and records what it gives in the runtime state.
pub fn collect_tick_emissions<B: SessionBackend>(
    supervisor: &mut MonitorSupervisor<B>,
    state: &mut RuntimeState,
    liveness: LivenessSnapshot,
) -> (r: std::io::Result<TickEmissions>)
    ensures
        final(supervisor)@.source == old(supervisor)@.source,
        r is Err ==> final(state).state() == old(state).state(),
        r is Err ==> final(supervisor)@ == (MonitorView {
            active_session_path: final(supervisor)@.active_session_path,
            ..old(supervisor)@
        }),
        r matches Ok(em) ==> exists|out: TickOutput, obs: ObservationView, now: u128|
            #[trigger] tick_result(old(supervisor)@, final(supervisor)@, out, obs, final(supervisor).backend().display_spec(),
                liveness.has_live_process, now)
                && emitted(old(state).state(), out, old(supervisor)@.source, em, final(state).state()),
{
    let output = supervisor.tick(liveness)?;
    let ghost out = output;
    let ghost root = supervisor.backend().display_spec();
    let ghost (obs, now) = choose|obs: ObservationView, now: u128|
        #[trigger] tick_result(old(supervisor)@, supervisor@, output, obs, root, liveness.has_live_process, now);
    let ghost before = state.state();
    let em = emissions_from_output(output, state, supervisor.source());
    proof {
        assert(tick_result(old(supervisor)@, supervisor@, out, obs, root, liveness.has_live_process, now));
        assert(emitted(before, out, old(supervisor)@.source, em, state.state()));
    }
    Ok(em)
}

// ---------------------------------------------------------------------------
// Log lines of the monitor.

/// The name of a status in log lines.
pub open spec fn label_text(status: RuntimeStatus) -> Seq<char> {
    match status {
        RuntimeStatus::Idle => "idle"@,
        RuntimeStatus::CodexNotInstalled => "codex_not_installed"@,
        RuntimeStatus::Thinking => "thinking"@,
        RuntimeStatus::Coding => "coding"@,
        RuntimeStatus::Question => "question"@,
        RuntimeStatus::Complete => "complete"@,
    }
}

pub fn status_label(status: RuntimeStatus) -> (r: &'static str)
    ensures
        r@ == label_text(status),
{
    match status {
        RuntimeStatus::Idle => "idle",
        RuntimeStatus::CodexNotInstalled => "codex_not_installed",
        RuntimeStatus::Thinking => "thinking",
        RuntimeStatus::Coding => "coding",
        RuntimeStatus::Question => "question",
        RuntimeStatus::Complete => "complete",
    }
}

/// The label of an optional status, `unknown` when there is none.
pub open spec fn label_or_unknown(status: Option<RuntimeStatus>) -> Seq<char> {
    match status {
        Some(s) => label_text(s),
        None => "unknown"@,
    }
}

fn label_of(status: Option<RuntimeStatus>) -> (r: &'static str)
    ensures
        r@ == label_or_unknown(status),
{
    match status {
        Some(s) => status_label(s),
        None => "unknown",
    }
}

/// The log line for a change of the session followed, if it changed.
pub open spec fn session_transition_text(previous: Option<Seq<char>>, current: Option<Seq<char>>,
    status: Option<RuntimeStatus>) -> Option<Seq<char>>
{
    if previous == current {
        None
    } else {
        match (previous, current) {
            (_, Some(path)) => Some("waifudex monitor: active session detected path="@ + path + " status="@
                + label_or_unknown(status)),
            (Some(path), None) => Some("waifudex monitor: session cleared path="@ + path + " status="@
                + label_or_unknown(status)),
            (None, None) => None,
        }
    }
}

pub fn format_session_transition_log(
    previous: Option<&str>,
    current: Option<&str>,
    status: Option<RuntimeStatus>,
) -> (r: Option<String>)
    ensures
        opt_view(r) == session_transition_text(
            crate::codex::reducer::str_opt(previous),
            crate::codex::reducer::str_opt(current),
            status,
        ),
{
    let same = match (previous, current) {
        (Some(a), Some(b)) => str_eq(a, b),
        (None, None) => true,
        _ => false,
    };
    if same {
        return None;
    }
    let (prefix, path) = match (previous, current) {
        (_, Some(path)) => ("waifudex monitor: active session detected path=", path),
        (Some(path), None) => ("waifudex monitor: session cleared path=", path),
        (None, None) => return None,
    };
    let mut line = prefix.to_owned();
    line.append(path);
    line.append(" status=");
    line.append(label_of(status));
    Some(line)
}

/// The log line for a change of status, if it changed.
pub open spec fn status_transition_text(previous: Option<RuntimeStatus>, current: RuntimeStatus,
    session_path: Option<Seq<char>>) -> Option<Seq<char>>
{
    if previous == Some(current) {
        None
    } else {
        let path = match session_path {
            Some(p) => p,
            None => "<none>"@,
        };
        Some("waifudex monitor: status changed "@ + label_or_unknown(previous) + " -> "@ + label_text(current)
            + " path="@ + path)
    }
}

pub fn format_status_transition_log(
    previous: Option<RuntimeStatus>,
    current: RuntimeStatus,
    session_path: Option<&str>,
) -> (r: Option<String>)
    ensures
        opt_view(r) == status_transition_text(previous, current, crate::codex::reducer::str_opt(session_path)),
{
    if previous == Some(current) {
        return None;
    }
    let mut line = "waifudex monitor: status changed ".to_owned();
    line.append(label_of(previous));
    line.append(" -> ");
    line.append(status_label(current));
    line.append(" path=");
    match session_path {
        Some(path) => line.append(path),
        None => line.append("<none>"),
    }
    Some(line)
}

} // verus!
