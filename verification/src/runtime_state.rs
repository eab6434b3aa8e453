use vstd::prelude::*;

use crate::codex::parser::opt_view;
use crate::contracts::{RuntimeBootstrap, RuntimeSnapshot};
use crate::text::{clone_opt, decimal, u64_to_decimal};

verus! {

/// The sequence number of a timeline event and its id.
#[derive(Debug, Clone, PartialEq, Eq)]
pub struct TimelineEventCursor {
    pub sequence: u64,
    pub event_id: String,
}

/// Counters and the latest snapshot of the runtime state.
#[derive(Debug)]
pub struct RuntimeStateInner {
    latest_snapshot: Option<RuntimeSnapshot>,
    next_revision: u64,
    sequence_session_id: Option<String>,
    next_sequence: u64,
    next_event_ordinal: u64,
}

pub struct RuntimeView {
    pub latest_snapshot: Option<RuntimeSnapshot>,
    pub next_revision: u64,
    pub sequence_session_id: Option<Seq<char>>,
    pub next_sequence: u64,
    pub next_event_ordinal: u64,
}

impl View for RuntimeStateInner {
    type V = RuntimeView;

    closed spec fn view(&self) -> RuntimeView {
        RuntimeView {
            latest_snapshot: self.latest_snapshot,
            next_revision: self.next_revision,
            sequence_session_id: opt_view(self.sequence_session_id),
            next_sequence: self.next_sequence,
            next_event_ordinal: self.next_event_ordinal,
        }
    }
}

pub open spec fn bumped(v: u64) -> u64 {
    if v < u64::MAX { (v + 1) as u64 } else { v }
}

/// A copy of a snapshot.
pub fn clone_snapshot(s: &RuntimeSnapshot) -> (r: RuntimeSnapshot)
    ensures
        r == *s,
{
    RuntimeSnapshot {
        session_id: clone_opt(&s.session_id),
        status: s.status,
        summary: s.summary.clone(),
        detail: s.detail.clone(),
        sessions_root: s.sessions_root.clone(),
        updated_at: s.updated_at.clone(),
        source: s.source.clone(),
        revision: s.revision,
    }
}

/// The sequence a session's next timeline event gets: a new session starts at zero.
pub open spec fn sequence_for(v: RuntimeView, session_id: Option<Seq<char>>) -> (u64, RuntimeView) {
    if v.sequence_session_id != session_id {
        (0, RuntimeView { sequence_session_id: session_id, next_sequence: 1, ..v })
    } else {
        (v.next_sequence, RuntimeView { next_sequence: bumped(v.next_sequence), ..v })
    }
}

impl RuntimeStateInner {
    pub fn new() -> (r: Self)
        ensures
            r@ == (RuntimeView {
                latest_snapshot: None,
                next_revision: 0,
                sequence_session_id: None,
                next_sequence: 0,
                next_event_ordinal: 0,
            }),
    {
        RuntimeStateInner {
            latest_snapshot: None,
            next_revision: 0,
            sequence_session_id: None,
            next_sequence: 0,
            next_event_ordinal: 0,
        }
    }

    pub closed spec fn latest(&self) -> Option<RuntimeSnapshot> {
        self.latest_snapshot
    }

    pub fn latest_snapshot(&self) -> (r: Option<RuntimeSnapshot>)
        ensures
            r == self@.latest_snapshot,
    {
        match &self.latest_snapshot {
            Some(s) => Some(clone_snapshot(s)),
            None => None,
        }
    }

    /// Stamps the snapshot with the next revision and keeps it as the latest.
    pub fn record_snapshot(&mut self, snapshot: RuntimeSnapshot) -> (r: RuntimeSnapshot)
        ensures
            r == (RuntimeSnapshot { revision: old(self)@.next_revision, ..snapshot }),
            final(self)@ == (RuntimeView {
                latest_snapshot: Some(r),
                next_revision: bumped(old(self)@.next_revision),
                ..old(self)@
            }),
    {
        let mut snapshot = snapshot;
        snapshot.revision = self.next_revision;
        self.next_revision = self.next_revision.saturating_add(1);
        self.latest_snapshot = Some(clone_snapshot(&snapshot));
        snapshot
    }

    pub fn next_sequence_for(&mut self, session_id: Option<&str>) -> (r: u64)
        ensures
            (r, final(self)@) == sequence_for(old(self)@, str_opt(session_id)),
    {
        let same = match (&self.sequence_session_id, session_id) {
            (Some(current), Some(next)) => crate::json::str_eq(current.as_str(), next),
            (None, None) => true,
            _ => false,
        };
        if !same {
            self.sequence_session_id = match session_id {
                Some(id) => Some(id.to_owned()),
                None => None,
            };
            self.next_sequence = 1;
            return 0;
        }
        let sequence = self.next_sequence;
        self.next_sequence = self.next_sequence.saturating_add(1);
        sequence
    }

    pub fn next_event_ordinal(&mut self) -> (r: u64)
        ensures
            r == old(self)@.next_event_ordinal,
            final(self)@ == (RuntimeView { next_event_ordinal: bumped(old(self)@.next_event_ordinal), ..old(self)@ }),
    {
        let ordinal = self.next_event_ordinal;
        self.next_event_ordinal = self.next_event_ordinal.saturating_add(1);
        ordinal
    }
}

pub open spec fn str_opt(o: Option<&str>) -> Option<Seq<char>> {
    match o {
        Some(s) => Some(s@),
        None => None,
    }
}

/// `{session}:{sequence}:{ordinal}`, with `none` for a missing session.
pub open spec fn event_id_text(session_id: Option<Seq<char>>, sequence: u64, ordinal: u64) -> Seq<char> {
    let label = match session_id {
        Some(s) => s,
        None => "none"@,
    };
    label + ":"@ + decimal(sequence as nat) + ":"@ + decimal(ordinal as nat)
}

/// The runtime state shared by the monitor and the frontend commands.
#[derive(Debug)]
pub struct RuntimeState {
    inner: RuntimeStateInner,
}

impl RuntimeState {
    pub closed spec fn state(&self) -> RuntimeView {
        self.inner@
    }

    pub fn new() -> (r: Self)
        ensures
            r.state() == (RuntimeView {
                latest_snapshot: None,
                next_revision: 0,
                sequence_session_id: None,
                next_sequence: 0,
                next_event_ordinal: 0,
            }),
    {
        RuntimeState { inner: RuntimeStateInner::new() }
    }

    pub fn bootstrap(&self) -> (r: RuntimeBootstrap)
        ensures
            r.snapshot == self.state().latest_snapshot,
    {
        RuntimeBootstrap::from_snapshot(self.inner.latest_snapshot())
    }

    pub fn record_snapshot(&mut self, snapshot: RuntimeSnapshot) -> (r: RuntimeSnapshot)
        ensures
            r == (RuntimeSnapshot { revision: old(self).state().next_revision, ..snapshot }),
            final(self).state() == (RuntimeView {
                latest_snapshot: Some(r),
                next_revision: bumped(old(self).state().next_revision),
                ..old(self).state()
            }),
    {
        self.inner.record_snapshot(snapshot)
    }

    /// The sequence and id of the next timeline event of a session.
    pub fn next_timeline_event(&mut self, session_id: Option<&str>) -> (r: TimelineEventCursor)
        ensures
            ({
                let (sequence, after) = sequence_for(old(self).state(), str_opt(session_id));
                &&& r.sequence == sequence
                &&& r.event_id@ == event_id_text(str_opt(session_id), sequence, after.next_event_ordinal)
                &&& final(self).state() == (RuntimeView {
                    next_event_ordinal: bumped(after.next_event_ordinal),
                    ..after
                })
            }),
    {
        let sequence = self.inner.next_sequence_for(session_id);
        let ordinal = self.inner.next_event_ordinal();
        let mut event_id = match session_id {
            Some(s) => s.to_owned(),
            None => "none".to_owned(),
        };
        event_id.append(":");
        event_id.append(u64_to_decimal(sequence).as_str());
        event_id.append(":");
        event_id.append(u64_to_decimal(ordinal).as_str());
        TimelineEventCursor { sequence, event_id }
    }
}

} // verus!
