use std::collections::VecDeque;
use std::io;

use waifudex::codex::backend::command_runner::{
    decode_wsl_output, wsl_command_creation_flags_for, CommandOutput, CommandRunner, CREATE_NO_WINDOW,
};
use waifudex::codex::backend::wsl_command::{choose_root, parse_rollout_candidates, parse_session_key, WslCommandBackend};
use waifudex::codex::backend::SessionBackend;
use waifudex::codex::liveness::{
    combine_liveness, liveness_from_process_names, liveness_from_wsl_output, wsl_distro_from_sessions_root_display, LivenessProbe,
};
use waifudex::table::KeyedTable;

#[derive(Default)]
struct FakeRunner {
    outputs: VecDeque<io::Result<CommandOutput>>,
    calls: Vec<Vec<String>>,
}

impl FakeRunner {
    fn push_ok(&mut self, stdout: &str) {
        self.outputs.push_back(Ok(CommandOutput {
            success: true,
            stdout: stdout.to_string(),
            stderr: String::new(),
        }));
    }

    fn push_failure(&mut self, stderr: &str) {
        self.outputs.push_back(Ok(CommandOutput {
            success: false,
            stdout: String::new(),
            stderr: stderr.to_string(),
        }));
    }
}

impl CommandRunner for FakeRunner {
    fn run(&mut self, args: &[&str]) -> io::Result<CommandOutput> {
        self.calls.push(args.iter().map(|a| a.to_string()).collect());
        self.outputs
            .pop_front()
            .unwrap_or_else(|| Err(io::Error::other("missing fake output")))
    }
}

#[test]
fn uses_create_no_window_on_windows_only() {
    assert_eq!(wsl_command_creation_flags_for(true), 0x0800_0000);
    assert_eq!(wsl_command_creation_flags_for(false), 0);
    assert_eq!(CREATE_NO_WINDOW, 0x0800_0000);
}

#[test]
fn decodes_utf16le_output_from_wsl() {
    let bytes = b"U\0b\0u\0n\0t\0u\0\r\0\n\0";

    assert_eq!(decode_wsl_output(bytes), "Ubuntu\r\n");
}

#[test]
fn keeps_utf8_output_unchanged() {
    let bytes = b"Ubuntu\n";

    assert_eq!(decode_wsl_output(bytes), "Ubuntu\n");
}

#[test]
fn replaces_invalid_utf8_bytes() {
    assert_eq!(decode_wsl_output(b"ok\xff"), "ok\u{fffd}");
}

#[test]
fn prefers_a_sessions_root_matching_the_windows_username() {
    let mut runner = FakeRunner::default();
    runner.push_ok("Ubuntu\nDebian\n");
    runner.push_ok("/home/tester");
    runner.push_ok("ok");
    runner.push_ok("/home/bob");
    runner.push_ok("ok");

    let backend = WslCommandBackend::discover_with_runner(runner, Some("tester".to_string()));

    assert!(backend.sessions_root_available());
    assert_eq!(
        backend.sessions_root_display(),
        "Ubuntu:/home/tester/.codex/sessions"
    );
}

#[test]
fn reads_rollout_candidates_and_incremental_lines() {
    let mut runner = FakeRunner::default();
    runner.push_ok("Ubuntu\n");
    runner.push_ok("/home/tester");
    runner.push_ok("ok");
    runner.push_ok("1710000000|10|/home/tester/.codex/sessions/2026/03/18/rollout-a.jsonl\n");
    runner.push_ok("{\"type\":\"event_msg\"}\n");

    let mut backend = WslCommandBackend::discover_with_runner(runner, Some("tester".to_string()));
    let session = backend
        .select_active_session()
        .expect("scan succeeds")
        .expect("session exists");

    assert_eq!(
        session.session_id,
        "Ubuntu:/home/tester/.codex/sessions/2026/03/18/rollout-a.jsonl"
    );
    assert_eq!(
        backend.read_new_lines(&session).expect("read succeeds"),
        vec!["{\"type\":\"event_msg\"}".to_string()]
    );
}

#[test]
fn no_distribution_leaves_the_backend_unavailable() {
    let mut runner = FakeRunner::default();
    runner.push_failure("wsl is not installed");
    let mut backend = WslCommandBackend::discover_with_runner(runner, None);
    assert!(!backend.sessions_root_available());
    assert_eq!(backend.sessions_root_display(), "<none>");
    assert_eq!(backend.backend_kind(), "wsl_command");
    assert!(backend.select_active_session().expect("nothing to scan").is_none());
}

#[test]
fn a_failed_scan_reports_the_error_output() {
    let mut runner = FakeRunner::default();
    runner.push_ok("Ubuntu\n");
    runner.push_ok("/home/tester");
    runner.push_ok("ok");
    runner.push_failure("  permission denied \n");
    let mut backend = WslCommandBackend::discover_with_runner(runner, None);
    let error = backend.select_active_session().expect_err("scan fails");
    assert_eq!(error.to_string(), "wsl rollout scan failed: permission denied");
}

#[test]
fn lines_arrive_once_and_a_partial_line_waits() {
    let mut runner = FakeRunner::default();
    runner.push_ok("Ubuntu\n");
    runner.push_ok("/home/tester");
    runner.push_ok("ok");
    runner.push_ok("1710000000|10|/home/tester/.codex/sessions/rollout-b.jsonl\n");
    runner.push_ok("first\nsec");
    runner.push_ok("1710000001|20|/home/tester/.codex/sessions/rollout-b.jsonl\n");
    runner.push_ok("ond\n");
    let mut backend = WslCommandBackend::discover_with_runner(runner, None);
    let session = backend.select_active_session().unwrap().unwrap();
    assert_eq!(backend.read_new_lines(&session).unwrap(), vec!["first".to_string()]);
    let session = backend.select_active_session().unwrap().unwrap();
    assert!(session.had_recent_append);
    assert_eq!(backend.read_new_lines(&session).unwrap(), vec!["second".to_string()]);
}

#[test]
fn the_newest_rollout_is_followed() {
    let mut sizes = KeyedTable::new();
    let candidates = parse_rollout_candidates(
        "1710000000.5|10|/s/rollout-old.jsonl\n1710000100|10|/s/rollout-new.jsonl\nnot a line\n",
        "Ubuntu",
        &mut sizes,
    );
    assert_eq!(candidates.len(), 2);
    assert_eq!(candidates[0].session_id, "Ubuntu:/s/rollout-old.jsonl");
    assert_eq!(candidates[1].modified_at, 1_710_000_100_000_000_000);
    assert_eq!(candidates[0].modified_at, 1_710_000_000_500_000_000);
    assert_eq!(sizes.get("Ubuntu:/s/rollout-new.jsonl"), Some(10));
}

#[test]
fn session_keys_split_at_the_first_colon() {
    assert_eq!(
        parse_session_key("Ubuntu:/home/a:b.jsonl").unwrap(),
        ("Ubuntu".to_string(), "/home/a:b.jsonl".to_string())
    );
    assert_eq!(parse_session_key("no-colon").unwrap_err().kind(), io::ErrorKind::InvalidInput);
}

#[test]
fn treats_wsl_backend_as_online_when_the_distro_has_a_live_codex_process() {
    let mut runner = FakeRunner::default();
    runner.push_ok("live\n");

    let mut probe = LivenessProbe::with_runner("codex".to_string(), runner);
    let snapshot = probe.snapshot("wsl_command", "Ubuntu:/home/tester/.codex/sessions");

    assert!(snapshot.has_live_process);
}

#[test]
fn an_idle_distribution_is_offline() {
    let mut runner = FakeRunner::default();
    runner.push_ok("idle\n");
    let mut probe = LivenessProbe::with_runner("codex".to_string(), runner);
    let snapshot = probe.snapshot_wsl("Ubuntu").expect("the probe ran");
    assert!(!snapshot.has_live_process);
}

#[test]
fn liveness_from_outputs_and_names() {
    let live = CommandOutput { success: true, stdout: " live \n".to_string(), stderr: String::new() };
    assert_eq!(liveness_from_wsl_output(&live).map(|s| s.has_live_process), Some(true));
    let failed = CommandOutput { success: false, stdout: "live".to_string(), stderr: String::new() };
    assert_eq!(liveness_from_wsl_output(&failed), None);
    let names = vec!["bash".to_string(), "Codex.exe".to_string()];
    assert!(liveness_from_process_names(&names, "codex").has_live_process);
    assert!(!liveness_from_process_names(&names, "vim").has_live_process);
}

#[test]
fn the_distribution_is_read_from_the_sessions_root_display() {
    assert_eq!(
        wsl_distro_from_sessions_root_display("Ubuntu:/home/a/.codex/sessions").as_deref(),
        Some("Ubuntu")
    );
    assert_eq!(wsl_distro_from_sessions_root_display(":/home"), None);
    assert_eq!(wsl_distro_from_sessions_root_display("Ubuntu:"), None);
    assert_eq!(wsl_distro_from_sessions_root_display("/home/a/.codex/sessions"), None);
}

fn output(success: bool, stdout: &str) -> CommandOutput {
    CommandOutput { success, stdout: stdout.to_string(), stderr: String::new() }
}

#[test]
fn the_preferred_users_root_is_chosen_from_the_probes() {
    let list = Some(output(true, "Ubuntu\nDebian\n"));
    let probes = vec![
        ("Ubuntu".to_string(), Some(output(true, "/home/tester")), Some(output(true, "ok"))),
        ("Debian".to_string(), Some(output(true, "/home/bob")), Some(output(true, "ok"))),
    ];
    let chosen = choose_root(&list, &probes, &Some("tester".to_string())).expect("a root");
    assert_eq!(chosen.distro, "Ubuntu");
    assert_eq!(chosen.user_name, "tester");
    assert_eq!(chosen.sessions_root, "/home/tester/.codex/sessions");
    let by_name = choose_root(&list, &probes, &None).expect("a root");
    assert_eq!(by_name.distro, "Debian");
    let missing = vec![
        ("Ubuntu".to_string(), Some(output(true, "/home/tester")), Some(output(true, "missing"))),
        ("Debian".to_string(), None, None),
    ];
    assert!(choose_root(&list, &missing, &None).is_none());
    assert!(choose_root(&Some(output(false, "")), &probes, &None).is_none());
    assert!(choose_root(&None, &probes, &None).is_none());
}

#[test]
fn a_failed_listing_leaves_no_root() {
    let mut runner = FakeRunner::default();
    runner.push_failure("no distributions");
    let backend = WslCommandBackend::discover_with_runner(runner, Some("tester".to_string()));
    assert!(!backend.sessions_root_available());
    assert_eq!(backend.sessions_root_display(), "<none>");
}

#[test]
fn liveness_prefers_the_wsl_answer_and_falls_back_to_local_names() {
    let names = vec!["bash".to_string(), "Codex.exe".to_string()];
    let display = "Ubuntu:/home/tester/.codex/sessions";
    assert!(!combine_liveness("wsl_command", display, Some(output(true, "idle\n")), &names, "codex").has_live_process);
    assert!(combine_liveness("wsl_command", display, Some(output(false, "")), &names, "codex").has_live_process);
    assert!(combine_liveness("wsl_command", display, None, &names, "codex").has_live_process);
    assert!(combine_liveness("local_fs", display, Some(output(true, "idle")), &names, "codex").has_live_process);
    assert!(!combine_liveness("wsl_command", "nowhere", Some(output(true, "live")), &Vec::new(), "codex").has_live_process);
}
