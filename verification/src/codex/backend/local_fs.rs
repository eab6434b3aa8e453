use vstd::prelude::*;

use crate::codex::backend::{SessionBackend, SessionCandidate};
use crate::codex::discovery::{
    discovered_view, newer, noted_all, scanned_views, DiscoveryView, RolloutScan, ScannedRollout,
    SessionCandidate as FoundSession, SessionDiscovery,
};
use crate::codex::session_reader::{buffered_lines, prepared, ReaderView, SessionReader};
use crate::text::views;

verus! {

/// The file system as the local backend uses it. The application implements it over the
/// real file system; tests implement it over files held in memory.
pub trait SessionFiles {
    /// Whether `path` is a directory whose entries can be listed.
    fn is_listable_dir(&self, path: &str) -> bool;

    /// Walks the directory tree under `root` for files named `rollout-*.jsonl`, skipping
    /// what it is not permitted to see.
    fn scan_rollouts(&self, root: &str) -> RolloutScan;

    /// The length of a file in bytes.
    fn file_len(&self, path: &str) -> std::io::Result<u64>;

    /// The text of a file from byte `offset` to its end.
    fn read_from(&self, path: &str, offset: u64) -> std::io::Result<String>;
}

/// The session a backend reports for a log found on the local file system: the path is
/// its id and its key.
pub open spec fn local_session(c: FoundSession) -> SessionCandidate {
    SessionCandidate {
        session_id: c.path,
        backend_key: c.path,
        path: c.path,
        modified_at: c.modified_at,
        size_bytes: c.size_bytes,
        had_recent_append: c.had_recent_append,
    }
}

/// What reading a file of `file_len` bytes whose text from the offset is `chunk` gives:
/// the complete new lines and the reader state after.
pub open spec fn read_step(before: ReaderView, path: Seq<char>, file_len: u64, chunk: Seq<char>)
    -> (Seq<Seq<char>>, ReaderView)
{
    let v = prepared(before, path, file_len);
    if chunk.len() == 0 {
        (Seq::empty(), ReaderView { offset: file_len, ..v })
    } else {
        let (ls, rest) = buffered_lines(v.pending, chunk);
        (ls, ReaderView { offset: file_len, pending: rest, ..v })
    }
}

/// What taking in the walk `scan` does to the local backend's view `before`: `after` and
/// the result `r`.
pub open spec fn selected_from_scan(before: LocalView, after: LocalView, scan: RolloutScan,
    r: std::io::Result<Option<SessionCandidate>>) -> bool
{
    let (cs, p) = noted_all(before.discovery.previous_sizes, scanned_views(scan.files@));
    &&& after.sessions_root == before.sessions_root
    &&& after.reader == before.reader
    &&& after.discovery.root == before.discovery.root
    &&& (scan.failure is Some <==> r is Err)
    &&& scan.failure is Some ==> after.discovery.previous_sizes == p
    &&& scan.failure is None ==> {
        &&& forall|k: Seq<char>| #[trigger] after.discovery.previous_sizes.contains_key(k)
            == (p.contains_key(k) && views(scan.files@.map_values(|f: ScannedRollout| f.path)).contains(k))
        &&& forall|k: Seq<char>| #[trigger] after.discovery.previous_sizes.contains_key(k)
            ==> after.discovery.previous_sizes[k] == p[k]
        &&& (r matches Ok(chosen) && (chosen is None <==> cs.len() == 0))
        &&& r matches Ok(Some(c)) ==> exists|found: FoundSession| #[trigger] local_session(found) == c
            && cs.contains(discovered_view(found))
            && forall|j: int| 0 <= j < cs.len() ==> !newer(#[trigger] cs[j], discovered_view(found))
    }
}

/// Reads Codex session logs from the local file system.
pub struct LocalFsBackend<F: SessionFiles> {
    sessions_root: String,
    sessions_root_display: String,
    discovery: SessionDiscovery,
    reader: SessionReader,
    files: F,
}

pub struct LocalView {
    pub sessions_root: Seq<char>,
    pub discovery: DiscoveryView,
    pub reader: ReaderView,
}

impl<F: SessionFiles> View for LocalFsBackend<F> {
    type V = LocalView;

    closed spec fn view(&self) -> LocalView {
        LocalView { sessions_root: self.sessions_root@, discovery: self.discovery@, reader: self.reader@ }
    }
}

impl<F: SessionFiles> LocalFsBackend<F> {
    pub closed spec fn display(&self) -> Seq<char> {
        self.sessions_root_display@
    }

    pub closed spec fn files(&self) -> F {
        self.files
    }

    pub fn new(sessions_root: String, files: F) -> (r: Self)
        ensures
            r@ == (LocalView {
                sessions_root: sessions_root@,
                discovery: DiscoveryView { root: sessions_root@, previous_sizes: Map::empty() },
                reader: ReaderView { active_path: None, offset: 0, pending: Seq::empty() },
            }),
            r.display() == sessions_root@,
            r.files() == files,
    {
        let sessions_root_display = sessions_root.clone();
        let discovery_root = sessions_root.clone();
        LocalFsBackend {
            sessions_root,
            sessions_root_display,
            discovery: SessionDiscovery::new(discovery_root),
            reader: SessionReader::new(),
            files,
        }
    }

    /// Takes in a walk of the sessions root and gives the session to follow, if any.
    pub fn select_from_scan(&mut self, scan: RolloutScan) -> (r: std::io::Result<Option<SessionCandidate>>)
        ensures
            selected_from_scan(old(self)@, final(self)@, scan, r),
            final(self).display() == old(self).display(),
            final(self).files() == old(self).files(),
    {
        match self.discovery.select_active_session(scan) {
            Ok(Some(found)) => {
                let ghost f = found;
                let c = SessionCandidate {
                    session_id: found.path.clone(),
                    backend_key: found.path.clone(),
                    path: found.path,
                    modified_at: found.modified_at,
                    size_bytes: found.size_bytes,
                    had_recent_append: found.had_recent_append,
                };
                assert(local_session(f) == c);
                Ok(Some(c))
            },
            Ok(None) => Ok(None),
            Err(e) => Err(e),
        }
    }

    /// Reads what was appended to the session log since the last read and gives back its
    /// complete new lines.
    pub fn read_session_lines(&mut self, session: &SessionCandidate) -> (r: std::io::Result<Vec<String>>)
        ensures
            final(self)@.sessions_root == old(self)@.sessions_root,
            final(self)@.discovery == old(self)@.discovery,
            final(self).display() == old(self).display(),
            final(self).files() == old(self).files(),
            final(self)@.reader.active_path == Some(session.backend_key@),
            r matches Ok(ls) ==> exists|len: u64, chunk: Seq<char>|
                #[trigger] read_step(old(self)@.reader, session.backend_key@, len, chunk)
                    == (views(ls@), final(self)@.reader),
    {
        let path = session.backend_key.as_str();
        self.reader.follow(path);
        let file_len = self.files.file_len(path)?;
        let offset = self.reader.rewind_if_shrunk(file_len);
        let chunk = self.files.read_from(path, offset)?;
        let ghost before = self.reader@;
        let lines = self.reader.finish_read(file_len, chunk.as_str());
        proof {
            let (ls, v) = read_step(old(self)@.reader, session.backend_key@, file_len, chunk@);
            assert(prepared(old(self)@.reader, session.backend_key@, file_len) == before);
            if chunk@.len() == 0 {
                assert(views(lines@) =~= Seq::<Seq<char>>::empty());
            }
            assert(read_step(old(self)@.reader, session.backend_key@, file_len, chunk@) == (views(lines@), self.reader@));
        }
        Ok(lines)
    }
}

impl<F: SessionFiles> SessionBackend for LocalFsBackend<F> {
    open spec fn kind_spec(&self) -> Seq<char> {
        "local_fs"@
    }

    open spec fn display_spec(&self) -> Seq<char> {
        self.display()
    }

    fn backend_kind(&self) -> (r: &'static str)
        ensures
            r@ == "local_fs"@,
    {
        "local_fs"
    }

    fn sessions_root_display(&self) -> (r: &str)
        ensures
            r@ == self.display(),
    {
        self.sessions_root_display.as_str()
    }

    fn sessions_root_available(&self) -> bool {
        self.files.is_listable_dir(self.sessions_root.as_str())
    }

    /// Walks the sessions root and picks the session to follow.
    fn select_active_session(&mut self) -> (r: std::io::Result<Option<SessionCandidate>>)
        ensures
            final(self)@.sessions_root == old(self)@.sessions_root,
            final(self)@.reader == old(self)@.reader,
            final(self)@.discovery.root == old(self)@.discovery.root,
            final(self).display() == old(self).display(),
            r matches Ok(Some(c)) ==> exists|found: FoundSession| #[trigger] local_session(found) == c,
            exists|scan: RolloutScan| #[trigger] selected_from_scan(old(self)@, final(self)@, scan, r),
    {
        let scan = self.files.scan_rollouts(self.discovery.root());
        let ghost walked = scan;
        let r = self.select_from_scan(scan);
        assert(selected_from_scan(old(self)@, self@, walked, r));
        r
    }

    fn read_new_lines(&mut self, session: &SessionCandidate) -> (r: std::io::Result<Vec<String>>)
        ensures
            final(self)@.sessions_root == old(self)@.sessions_root,
            final(self)@.discovery == old(self)@.discovery,
            final(self).display() == old(self).display(),
            final(self)@.reader.active_path == Some(session.backend_key@),
            r matches Ok(ls) ==> exists|len: u64, chunk: Seq<char>|
                #[trigger] read_step(old(self)@.reader, session.backend_key@, len, chunk)
                    == (views(ls@), final(self)@.reader),
    {
        self.read_session_lines(session)
    }
}

} // verus!
