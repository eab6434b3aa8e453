use waifudex::codex::discovery::{is_rollout_file_name, pick_active, RolloutScan, ScannedRollout, SessionCandidate, SessionDiscovery};
use waifudex::external_link::{check_external_url, is_supported_external_url, parse_open_external_url_payload, OPEN_EXTERNAL_URL_EVENT};
use waifudex::models::{collect_model_entries, ModelEntry, DEFAULT_MODEL_PATH};
use waifudex::tray::{character_toggle_label, tray_command_for, TrayCommand};

fn scanned(path: &str, modified_at: u128, size_bytes: u64) -> ScannedRollout {
    ScannedRollout { path: path.to_string(), modified_at, size_bytes }
}

#[test]
fn only_rollout_logs_are_sessions() {
    assert!(is_rollout_file_name("rollout-2026-03-18.jsonl"));
    assert!(!is_rollout_file_name("rollout-2026-03-18.json"));
    assert!(!is_rollout_file_name("notes.jsonl"));
}

#[test]
fn the_growing_log_is_followed_before_the_newest() {
    let mut discovery = SessionDiscovery::new("/s".to_string());
    let first = discovery
        .select_active_session(RolloutScan {
            files: vec![scanned("/s/rollout-a.jsonl", 10, 100), scanned("/s/rollout-b.jsonl", 20, 100)],
            failure: None,
        })
        .unwrap()
        .unwrap();
    assert_eq!(first.path, "/s/rollout-b.jsonl");
    assert!(!first.had_recent_append);

    let second = discovery
        .select_active_session(RolloutScan {
            files: vec![scanned("/s/rollout-a.jsonl", 10, 150), scanned("/s/rollout-b.jsonl", 20, 100)],
            failure: None,
        })
        .unwrap()
        .unwrap();
    assert_eq!(second.path, "/s/rollout-a.jsonl");
    assert!(second.had_recent_append);
}

#[test]
fn a_scan_cut_short_reports_its_error() {
    let mut discovery = SessionDiscovery::new("/s".to_string());
    let result = discovery.select_active_session(RolloutScan {
        files: vec![scanned("/s/rollout-a.jsonl", 10, 100)],
        failure: Some(std::io::Error::other("disk gone")),
    });
    assert_eq!(result.unwrap_err().to_string(), "disk gone");
    assert!(discovery.select_active_session(RolloutScan { files: vec![], failure: None }).unwrap().is_none());
}

#[test]
fn ties_are_broken_by_the_greater_path() {
    let candidates = vec![
        SessionCandidate { path: "/s/a".to_string(), modified_at: 5, size_bytes: 1, had_recent_append: false },
        SessionCandidate { path: "/s/b".to_string(), modified_at: 5, size_bytes: 1, had_recent_append: false },
    ];
    assert_eq!(pick_active(candidates).unwrap().path, "/s/b");
    assert_eq!(pick_active(vec![]), None);
}

#[test]
fn models_are_listed_once_per_file_name() {
    let entry = |file_name: &str, path: &str, is_bundled: bool| ModelEntry {
        file_name: file_name.to_string(),
        display_name: file_name.trim_end_matches(".inx").to_string(),
        path: path.to_string(),
        is_bundled,
        is_active: false,
    };
    let found = vec![
        entry("Aka.inx", "/res/models/Aka.inx", true),
        entry("Aka.inx", "/public/models/Aka.inx", true),
        entry("Mine.inx", "/data/models/Mine.inx", false),
        entry("Aka.inx", "/data/models/Aka.inx", false),
    ];
    let listed = collect_model_entries(&found);
    assert_eq!(listed, vec![found[0].clone(), found[2].clone()]);
    assert_eq!(DEFAULT_MODEL_PATH, "/models/Aka.inx");
}

#[test]
fn tray_items_map_to_commands() {
    assert_eq!(tray_command_for("character-visibility"), TrayCommand::ToggleCharacter);
    assert_eq!(tray_command_for("always-on-top"), TrayCommand::ToggleAlwaysOnTop);
    assert_eq!(tray_command_for("settings"), TrayCommand::OpenSettings);
    assert_eq!(tray_command_for("quit"), TrayCommand::Quit);
    assert_eq!(tray_command_for("other"), TrayCommand::Ignore);
    assert_eq!(character_toggle_label(true), "Hide character");
    assert_eq!(character_toggle_label(false), "Show character");
}

#[test]
fn only_web_links_are_opened() {
    assert!(is_supported_external_url("https://example.com"));
    assert!(is_supported_external_url("http://example.com"));
    assert!(!is_supported_external_url("file:///etc/passwd"));
    assert_eq!(check_external_url("ftp://x").unwrap_err(), "only http and https URLs are supported");
    assert_eq!(
        parse_open_external_url_payload(r#"{"url":"https://example.com/a"}"#).as_deref(),
        Some("https://example.com/a")
    );
    assert_eq!(parse_open_external_url_payload(r#"{"url":"javascript:alert(1)"}"#), None);
    assert_eq!(parse_open_external_url_payload("not json"), None);
    assert_eq!(OPEN_EXTERNAL_URL_EVENT, "waifudex://open-external-url");
}

#[test]
fn an_open_link_payload_may_be_a_one_element_array() {
    assert_eq!(
        parse_open_external_url_payload(r#"["https://example.com/b"]"#).as_deref(),
        Some("https://example.com/b")
    );
    assert_eq!(parse_open_external_url_payload(r#"["https://a.example", "https://b.example"]"#), None);
    assert_eq!(parse_open_external_url_payload(r#"[]"#), None);
    assert_eq!(parse_open_external_url_payload(r#"{"href":"https://example.com"}"#), None);
    assert_eq!(parse_open_external_url_payload(r#"{"url":5}"#), None);
}
