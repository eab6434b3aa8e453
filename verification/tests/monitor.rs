use std::cell::RefCell;
use std::collections::BTreeMap;
use std::io;
use std::rc::Rc;

use waifudex::codex::backend::command_runner::{CommandOutput, CommandRunner};
use waifudex::codex::backend::local_fs::{LocalFsBackend, SessionFiles};
use waifudex::codex::backend::wsl_command::WslCommandBackend;
use waifudex::codex::backend::{AnyBackend, SessionBackend};
use waifudex::codex::discovery::{is_rollout_file_name, RolloutScan, ScannedRollout};
use waifudex::codex::liveness::LivenessSnapshot;
use waifudex::codex::monitor::{
    backend_changed, collect_tick_emissions, format_session_transition_log, format_status_transition_log,
    should_refresh_backend, status_label, MonitorSupervisor, Observation, MONITOR_POLL_INTERVAL_MS,
};
use waifudex::contracts::RuntimeStatus;
use waifudex::runtime_state::RuntimeState;

#[derive(Clone, Default)]
struct MemoryFiles {
    files: Rc<RefCell<BTreeMap<String, (u128, String)>>>,
    root_listable: Rc<RefCell<bool>>,
}

impl MemoryFiles {
    fn write(&self, path: &str, modified_at: u128, text: &str) {
        self.files.borrow_mut().insert(path.to_string(), (modified_at, text.to_string()));
    }

    fn append(&self, path: &str, modified_at: u128, text: &str) {
        let mut files = self.files.borrow_mut();
        let entry = files.get_mut(path).expect("file exists");
        entry.0 = modified_at;
        entry.1.push_str(text);
    }
}

impl SessionFiles for MemoryFiles {
    fn is_listable_dir(&self, _path: &str) -> bool {
        *self.root_listable.borrow()
    }

    fn scan_rollouts(&self, root: &str) -> RolloutScan {
        let files = self
            .files
            .borrow()
            .iter()
            .filter(|(path, _)| path.starts_with(root))
            .filter(|(path, _)| is_rollout_file_name(path.rsplit('/').next().unwrap_or("")))
            .map(|(path, (modified_at, text))| ScannedRollout {
                path: path.clone(),
                modified_at: *modified_at,
                size_bytes: text.len() as u64,
            })
            .collect();
        RolloutScan { files, failure: None }
    }

    fn file_len(&self, path: &str) -> io::Result<u64> {
        self.files
            .borrow()
            .get(path)
            .map(|(_, text)| text.len() as u64)
            .ok_or_else(|| io::Error::new(io::ErrorKind::NotFound, "no such file"))
    }

    fn read_from(&self, path: &str, offset: u64) -> io::Result<String> {
        let files = self.files.borrow();
        let (_, text) = files.get(path).ok_or_else(|| io::Error::new(io::ErrorKind::NotFound, "no such file"))?;
        Ok(text[offset as usize..].to_string())
    }
}

const ROOT: &str = "/home/tester/.codex/sessions";

fn offline() -> LivenessSnapshot {
    LivenessSnapshot::offline()
}

#[test]
fn an_unreadable_root_reports_codex_not_installed_once() {
    let files = MemoryFiles::default();
    let mut supervisor = MonitorSupervisor::new(ROOT.to_string(), files, "monitor".to_string());

    let first = supervisor.tick_at(offline(), 0).expect("tick succeeds");
    let snapshot = first.snapshot.expect("the first status is sent");
    assert_eq!(snapshot.status, RuntimeStatus::CodexNotInstalled);
    assert_eq!(snapshot.session_id, None);
    assert_eq!(snapshot.sessions_root, ROOT);
    assert_eq!(snapshot.source, "monitor");
    assert_eq!(snapshot.summary, "Codex sessions root not found");
    assert!(first.timeline_records.is_empty());
    assert_eq!(supervisor.current_status(), Some(RuntimeStatus::CodexNotInstalled));

    let second = supervisor.tick_at(offline(), 1_000).expect("tick succeeds");
    assert!(second.snapshot.is_none());
}

#[test]
fn session_lines_become_timeline_records_and_a_status() {
    let files = MemoryFiles::default();
    *files.root_listable.borrow_mut() = true;
    let path = format!("{ROOT}/2026/03/18/rollout-a.jsonl");
    files.write(&path, 1, "{\"type\":\"task_started\"}\n{\"payload\":{\"type\":\"exec_command_begin\",\"call_id\":\"c\",\"command\":\"ls\"}}\nnot json\n");
    let mut supervisor = MonitorSupervisor::new(ROOT.to_string(), files.clone(), "monitor".to_string());

    let out = supervisor.tick_at(offline(), 5).expect("tick succeeds");
    assert_eq!(supervisor.current_session_path(), Some(path.as_str()));
    assert_eq!(out.timeline_records.len(), 3);
    assert_eq!(out.timeline_records[0].payload.parsed_type.as_deref(), Some("task_started"));
    assert!(out.timeline_records[1].payload.parse_ok);
    assert!(!out.timeline_records[2].payload.parse_ok);
    assert_eq!(out.timeline_records[2].payload.raw_line, "not json");
    assert_eq!(out.timeline_records[0].session_id.as_deref(), Some(path.as_str()));
    let snapshot = out.snapshot.expect("a status is sent");
    assert_eq!(snapshot.status, RuntimeStatus::Thinking);
    assert_eq!(snapshot.session_id.as_deref(), Some(path.as_str()));

    let quiet = supervisor.tick_at(offline(), 10).expect("tick succeeds");
    assert!(quiet.snapshot.is_none());
    assert!(quiet.timeline_records.is_empty());

    files.append(&path, 2, "{\"payload\":{\"type\":\"exec_command_end\",\"call_id\":\"c\"}}\n{\"type\":\"task_complete\"}\n");
    let done = supervisor.tick_at(offline(), 20).expect("tick succeeds");
    assert_eq!(done.timeline_records.len(), 2);
    assert_eq!(done.snapshot.expect("completion is sent").status, RuntimeStatus::Complete);

    let later = supervisor.tick_at(offline(), 20 + 10_000_000_000).expect("tick succeeds");
    assert_eq!(later.snapshot.expect("the end of the grace is sent").status, RuntimeStatus::Idle);
}

#[test]
fn an_observation_is_folded_like_a_poll() {
    let mut supervisor = MonitorSupervisor::new(ROOT.to_string(), MemoryFiles::default(), "monitor".to_string());
    let out = supervisor.apply_observation(
        Observation::Session {
            path: "/s/rollout-x.jsonl".to_string(),
            session_id: "/s/rollout-x.jsonl".to_string(),
            lines: vec!["{\"type\":\"request_user_input\"}".to_string()],
        },
        ROOT,
        offline(),
        0,
    );
    assert_eq!(out.snapshot.expect("sent").status, RuntimeStatus::Question);
    let none = supervisor.apply_observation(Observation::NoSession, ROOT, offline(), 1);
    assert_eq!(none.snapshot.expect("the session is gone").session_id, None);
    assert_eq!(supervisor.current_session_path(), None);
}

#[test]
fn emissions_number_the_timeline_and_stamp_revisions() {
    let files = MemoryFiles::default();
    *files.root_listable.borrow_mut() = true;
    let path = format!("{ROOT}/rollout-b.jsonl");
    files.write(&path, 1, "{\"type\":\"task_started\"}\n{\"type\":\"agent_message\"}\n");
    let mut supervisor = MonitorSupervisor::new(ROOT.to_string(), files.clone(), "monitor".to_string());
    let mut state = RuntimeState::new();

    let emissions = collect_tick_emissions(&mut supervisor, &mut state, offline()).expect("tick succeeds");
    let snapshot = emissions.snapshot.expect("a snapshot");
    assert_eq!(snapshot.revision, 0);
    assert_eq!(emissions.timeline.len(), 2);
    assert_eq!(emissions.timeline[0].sequence, 0);
    assert_eq!(emissions.timeline[1].sequence, 1);
    assert_eq!(emissions.timeline[0].event_id, format!("{path}:0:0"));
    assert_eq!(emissions.timeline[1].event_id, format!("{path}:1:1"));
    assert_eq!(emissions.timeline[1].kind, "session_line");
    assert_eq!(emissions.timeline[1].source, "monitor");
    assert_eq!(state.bootstrap().snapshot.map(|s| s.revision), Some(0));

    files.append(&path, 2, "{\"type\":\"task_complete\"}\n");
    let next = collect_tick_emissions(&mut supervisor, &mut state, offline()).expect("tick succeeds");
    assert_eq!(next.snapshot.expect("completion").revision, 1);
    assert_eq!(next.timeline[0].sequence, 2);
}

#[test]
fn a_failed_read_keeps_the_status() {
    let files = MemoryFiles::default();
    *files.root_listable.borrow_mut() = true;
    let mut backend = LocalFsBackend::new(ROOT.to_string(), files);
    assert_eq!(backend.backend_kind(), "local_fs");
    assert_eq!(backend.sessions_root_display(), ROOT);
    assert!(backend.select_active_session().expect("scan").is_none());
    let missing = waifudex::codex::backend::SessionCandidate {
        session_id: "x".to_string(),
        backend_key: "x".to_string(),
        path: "x".to_string(),
        modified_at: 0,
        size_bytes: 0,
        had_recent_append: false,
    };
    assert_eq!(backend.read_new_lines(&missing).unwrap_err().kind(), io::ErrorKind::NotFound);
}

#[test]
fn backend_refresh_decisions() {
    assert!(should_refresh_backend(false, "wsl_command", true));
    assert!(should_refresh_backend(true, "local_fs", false));
    assert!(!should_refresh_backend(true, "local_fs", true));
    assert!(!should_refresh_backend(true, "wsl_command", false));
    assert!(backend_changed("local_fs", "/a", "wsl_command", "/a"));
    assert!(backend_changed("local_fs", "/a", "local_fs", "/b"));
    assert!(!backend_changed("local_fs", "/a", "local_fs", "/a"));
    assert_eq!(MONITOR_POLL_INTERVAL_MS, 250);
}

#[test]
fn monitor_log_lines() {
    assert_eq!(status_label(RuntimeStatus::CodexNotInstalled), "codex_not_installed");
    assert_eq!(format_session_transition_log(Some("/a"), Some("/a"), None), None);
    assert_eq!(
        format_session_transition_log(None, Some("/b"), Some(RuntimeStatus::Coding)).as_deref(),
        Some("waifudex monitor: active session detected path=/b status=coding")
    );
    assert_eq!(
        format_session_transition_log(Some("/a"), None, None).as_deref(),
        Some("waifudex monitor: session cleared path=/a status=unknown")
    );
    assert_eq!(format_status_transition_log(Some(RuntimeStatus::Idle), RuntimeStatus::Idle, None), None);
    assert_eq!(
        format_status_transition_log(None, RuntimeStatus::Question, None).as_deref(),
        Some("waifudex monitor: status changed unknown -> question path=<none>")
    );
    assert_eq!(
        format_status_transition_log(Some(RuntimeStatus::Thinking), RuntimeStatus::Complete, Some("/x")).as_deref(),
        Some("waifudex monitor: status changed thinking -> complete path=/x")
    );
}

#[test]
fn a_boxed_backend_is_taken_as_it_is() {
    let backend = LocalFsBackend::new(ROOT.to_string(), MemoryFiles::default());
    let supervisor = MonitorSupervisor::from_boxed_backend(Box::new(backend), "boxed".to_string());
    assert_eq!(supervisor.source(), "boxed");
    assert_eq!(supervisor.current_status(), None);
    assert_eq!(supervisor.backend_ref().sessions_root_display(), ROOT);
}

#[test]
fn adopting_the_same_backend_changes_nothing_and_another_one_is_taken() {
    let mut supervisor = MonitorSupervisor::new(ROOT.to_string(), MemoryFiles::default(), "monitor".to_string());
    assert!(!supervisor.adopt_backend(LocalFsBackend::new(ROOT.to_string(), MemoryFiles::default())));
    assert!(supervisor.adopt_backend(LocalFsBackend::new("/elsewhere".to_string(), MemoryFiles::default())));
    assert_eq!(supervisor.backend_ref().sessions_root_display(), "/elsewhere");
    assert!(supervisor.needs_backend_refresh());
}

struct NoWsl;

impl CommandRunner for NoWsl {
    fn run(&mut self, _args: &[&str]) -> io::Result<CommandOutput> {
        Err(io::Error::other("wsl is not installed"))
    }
}

#[test]
fn either_backend_answers_as_the_one_it_holds() {
    let local: AnyBackend<MemoryFiles, NoWsl> =
        AnyBackend::Local(LocalFsBackend::new(ROOT.to_string(), MemoryFiles::default()));
    assert_eq!(local.backend_kind(), "local_fs");
    assert_eq!(local.sessions_root_display(), ROOT);
    let wsl: AnyBackend<MemoryFiles, NoWsl> = AnyBackend::Wsl(WslCommandBackend::unavailable(NoWsl));
    assert_eq!(wsl.backend_kind(), "wsl_command");
    assert_eq!(wsl.sessions_root_display(), "<none>");
    assert!(!wsl.sessions_root_available());
    let mut supervisor = MonitorSupervisor::from_backend(local, "monitor".to_string());
    assert!(supervisor.needs_backend_refresh());
    assert!(supervisor.adopt_backend(wsl));
    assert_eq!(supervisor.backend_ref().backend_kind(), "wsl_command");
    assert!(supervisor.needs_backend_refresh());
}
