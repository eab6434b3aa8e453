use vstd::prelude::*;

use crate::codex::backend::wsl_command::{path_order, PathOrder};
use crate::table::KeyedTable;
use crate::text::{ends_with, starts_with, str_ends_with, str_starts_with, views};

verus! {

/// A session log found under the sessions root. `modified_at` counts nanoseconds since
/// the Unix epoch.
#[derive(Debug, Clone, PartialEq, Eq)]
pub struct SessionCandidate {
    pub path: String,
    pub modified_at: u128,
    pub size_bytes: u64,
    pub had_recent_append: bool,
}

/// A rollout file as a walk of the sessions root met it.
#[derive(Debug, Clone, PartialEq, Eq)]
pub struct ScannedRollout {
    pub path: String,
    pub modified_at: u128,
    pub size_bytes: u64,
}

/// What a walk of the sessions root gave: the rollout files it visited, in order, and
/// the error that cut it short, if one did.
#[derive(Debug)]
pub struct RolloutScan {
    pub files: Vec<ScannedRollout>,
    pub failure: Option<std::io::Error>,
}

pub struct ScannedView {
    pub path: Seq<char>,
    pub modified_at: u128,
    pub size_bytes: u64,
}

pub struct DiscoveredView {
    pub path: Seq<char>,
    pub modified_at: u128,
    pub size_bytes: u64,
    pub had_recent_append: bool,
}

pub open spec fn scanned_views(files: Seq<ScannedRollout>) -> Seq<ScannedView> {
    files.map_values(|f: ScannedRollout| ScannedView { path: f.path@, modified_at: f.modified_at, size_bytes: f.size_bytes })
}

pub open spec fn discovered_view(c: SessionCandidate) -> DiscoveredView {
    DiscoveredView {
        path: c.path@,
        modified_at: c.modified_at,
        size_bytes: c.size_bytes,
        had_recent_append: c.had_recent_append,
    }
}

pub open spec fn discovered_views(cs: Seq<SessionCandidate>) -> Seq<DiscoveredView> {
    cs.map_values(|c: SessionCandidate| discovered_view(c))
}

/// Session logs are the files named `rollout-*.jsonl`.
pub open spec fn is_rollout_name(name: Seq<char>) -> bool {
    starts_with(name, "rollout-"@) && ends_with(name, ".jsonl"@)
}

/// Whether a file name is that of a session log.
pub fn is_rollout_file_name(name: &str) -> (r: bool)
    ensures
        r == is_rollout_name(name@),
{
    str_starts_with(name, "rollout-") && str_ends_with(name, ".jsonl")
}

/// A file that the scan meets, judged against the size it had at the previous scan:
/// it had a recent append when it grew. The map then holds its new size.
pub open spec fn noted(previous: Map<Seq<char>, u64>, f: ScannedView) -> (DiscoveredView, Map<Seq<char>, u64>) {
    let before = if previous.contains_key(f.path) { previous[f.path] } else { f.size_bytes };
    (
        DiscoveredView {
            path: f.path,
            modified_at: f.modified_at,
            size_bytes: f.size_bytes,
            had_recent_append: f.size_bytes > before,
        },
        previous.insert(f.path, f.size_bytes),
    )
}

/// The files of a scan, each noted in turn.
pub open spec fn noted_all(previous: Map<Seq<char>, u64>, files: Seq<ScannedView>)
    -> (Seq<DiscoveredView>, Map<Seq<char>, u64>)
    decreases files.len(),
{
    if files.len() == 0 {
        (Seq::empty(), previous)
    } else {
        let (cs, p) = noted_all(previous, files.drop_last());
        let (c, p1) = noted(p, files.last());
        (cs.push(c), p1)
    }
}

/// `a` comes before `b` when choosing the active session: a recent append first, then
/// the later modification.
pub open spec fn newer(a: DiscoveredView, b: DiscoveredView) -> bool {
    (a.had_recent_append && !b.had_recent_append)
        || (a.had_recent_append == b.had_recent_append && a.modified_at > b.modified_at)
}

/// A copy of a candidate.
pub fn copy_candidate(c: &SessionCandidate) -> (r: SessionCandidate)
    ensures
        r == *c,
{
    SessionCandidate {
        path: c.path.clone(),
        modified_at: c.modified_at,
        size_bytes: c.size_bytes,
        had_recent_append: c.had_recent_append,
    }
}

/// The session log to follow among the candidates: one that no other candidate is newer
/// than; among equals, the greater path, then the first.
pub fn pick_active(candidates: Vec<SessionCandidate>) -> (r: Option<SessionCandidate>)
    ensures
        r is None <==> candidates@.len() == 0,
        r matches Some(c) ==> candidates@.contains(c)
            && forall|j: int| 0 <= j < candidates@.len()
                ==> !newer(discovered_view(#[trigger] candidates@[j]), discovered_view(c)),
{
    if candidates.len() == 0 {
        return None;
    }
    let mut best: usize = 0;
    let mut i: usize = 1;
    while i < candidates.len()
        invariant
            0 < i <= candidates.len(),
            best < i,
            forall|j: int| 0 <= j < i
                ==> !newer(discovered_view(#[trigger] candidates@[j]), discovered_view(candidates@[best as int])),
        decreases candidates.len() - i,
    {
        let c = &candidates[i];
        let b = &candidates[best];
        let replace = if c.had_recent_append != b.had_recent_append {
            c.had_recent_append
        } else if c.modified_at != b.modified_at {
            c.modified_at > b.modified_at
        } else {
            path_order(c.path.as_str(), b.path.as_str()) == PathOrder::Greater
        };
        if replace {
            best = i;
        }
        i += 1;
    }
    let chosen = copy_candidate(&candidates[best]);
    proof {
        assert(candidates@[best as int] == chosen);
    }
    Some(chosen)
}

/// Finds the session log to follow under a sessions root, remembering the size each log
/// had so that a growing one can be told apart.
#[derive(Debug)]
pub struct SessionDiscovery {
    root: String,
    previous_sizes: KeyedTable<u64>,
}

pub struct DiscoveryView {
    pub root: Seq<char>,
    pub previous_sizes: Map<Seq<char>, u64>,
}

impl View for SessionDiscovery {
    type V = DiscoveryView;

    closed spec fn view(&self) -> DiscoveryView {
        DiscoveryView { root: self.root@, previous_sizes: self.previous_sizes@ }
    }
}

impl SessionDiscovery {
    pub fn new(root: String) -> (r: Self)
        ensures
            r@ == (DiscoveryView { root: root@, previous_sizes: Map::empty() }),
    {
        SessionDiscovery { root, previous_sizes: KeyedTable::new() }
    }

    pub fn root(&self) -> (r: &str)
        ensures
            r@ == self@.root,
    {
        self.root.as_str()
    }

    /// Notes one file of a scan: whether it grew since the previous scan, and its size now.
    pub fn note_rollout(&mut self, file: &ScannedRollout) -> (r: SessionCandidate)
        ensures
            ({
                let (c, p) = noted(old(self)@.previous_sizes, ScannedView {
                    path: file.path@,
                    modified_at: file.modified_at,
                    size_bytes: file.size_bytes,
                });
                &&& discovered_view(r) == c
                &&& final(self)@ == (DiscoveryView { previous_sizes: p, ..old(self)@ })
            }),
    {
        let previous = match self.previous_sizes.get(file.path.as_str()) {
            Some(size) => size,
            None => file.size_bytes,
        };
        self.previous_sizes.insert(file.path.as_str(), file.size_bytes);
        SessionCandidate {
            path: file.path.clone(),
            modified_at: file.modified_at,
            size_bytes: file.size_bytes,
            had_recent_append: file.size_bytes > previous,
        }
    }

    /// Takes in a walk of the sessions root and picks the session log to follow. Every
    /// file met is noted; when the walk was cut short its error is handed back, else the
    /// sizes of files that are gone are forgotten and the newest log is chosen.
    pub fn select_active_session(&mut self, scan: RolloutScan) -> (r: Result<Option<SessionCandidate>, std::io::Error>)
        ensures
            ({
                let (cs, p) = noted_all(old(self)@.previous_sizes, scanned_views(scan.files@));
                &&& final(self)@.root == old(self)@.root
                &&& (scan.failure is Some <==> r is Err)
                &&& scan.failure is Some ==> final(self)@.previous_sizes == p
                &&& scan.failure is None ==> {
                    &&& forall|k: Seq<char>| #[trigger] final(self)@.previous_sizes.contains_key(k)
                        == (p.contains_key(k) && views(scan.files@.map_values(|f: ScannedRollout| f.path)).contains(k))
                    &&& forall|k: Seq<char>| #[trigger] final(self)@.previous_sizes.contains_key(k)
                        ==> final(self)@.previous_sizes[k] == p[k]
                    &&& (r matches Ok(chosen) && (chosen is None <==> cs.len() == 0))
                    &&& r matches Ok(Some(c)) ==> cs.contains(discovered_view(c))
                        && forall|j: int| 0 <= j < cs.len() ==> !newer(#[trigger] cs[j], discovered_view(c))
                }
            }),
    {
        let RolloutScan { files, failure } = scan;
        let mut candidates: Vec<SessionCandidate> = Vec::new();
        let mut seen: Vec<String> = Vec::new();
        let ghost start = self@.previous_sizes;
        let mut i: usize = 0;
        while i < files.len()
            invariant
                i <= files.len(),
                self@.root == old(self)@.root,
                seen@.len() == i,
                forall|j: int| 0 <= j < i ==> #[trigger] seen@[j] == files@[j].path,
                (discovered_views(candidates@), self@.previous_sizes)
                    == noted_all(start, scanned_views(files@).take(i as int)),
            decreases files.len() - i,
        {
            let ghost before = candidates@;
            let candidate = self.note_rollout(&files[i]);
            candidates.push(candidate);
            seen.push(files[i].path.clone());
            proof {
                let t = scanned_views(files@).take(i + 1);
                assert(t.drop_last() == scanned_views(files@).take(i as int));
                assert(t.last() == scanned_views(files@)[i as int]);
                assert(discovered_views(candidates@) == discovered_views(before).push(discovered_view(candidate)));
            }
            i += 1;
        }
        proof {
            assert(scanned_views(files@).take(files@.len() as int) == scanned_views(files@));
        }
        if let Some(error) = failure {
            return Err(error);
        }
        let ghost noted_sizes = self@.previous_sizes;
        self.previous_sizes.retain_keys(&seen);
        proof {
            assert(views(seen@) =~= views(files@.map_values(|f: ScannedRollout| f.path)));
        }
        let ghost cs = candidates@;
        let chosen = pick_active(candidates);
        proof {
            if chosen is Some {
                let c = chosen->0;
                let k = choose|k: int| 0 <= k < cs.len() && cs[k] == c;
                assert(discovered_views(cs)[k] == discovered_view(c));
                assert forall|j: int| 0 <= j < discovered_views(cs).len()
                    implies !newer(#[trigger] discovered_views(cs)[j], discovered_view(c)) by {
                    assert(discovered_views(cs)[j] == discovered_view(cs[j]));
                }
            }
        }
        Ok(chosen)
    }
}

} // verus!
