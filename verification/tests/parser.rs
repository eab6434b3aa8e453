use waifudex::codex::parser::{classify_question_kind, command_looks_mutating, parse_session_line, QuestionKind, SessionEvent};

fn name_of(line: &str) -> Option<String> {
    parse_session_line(line).parsed_type().map(|s| s.to_string())
}

#[test]
fn a_line_that_is_not_json_is_unknown_without_a_name() {
    let event = parse_session_line("{not json");
    assert_eq!(event, SessionEvent::Unknown { event_name: None });
    assert!(!event.parse_ok());
    assert_eq!(event.parsed_type(), None);
}

#[test]
fn task_start_and_completion_are_recognised_from_the_payload_type() {
    assert_eq!(
        parse_session_line(r#"{"type":"event_msg","payload":{"type":"Task_Started"}}"#),
        SessionEvent::TaskStarted { event_name: "task_started".to_string() }
    );
    assert_eq!(
        parse_session_line(r#"{"type":"turn_complete"}"#),
        SessionEvent::TaskCompleted { event_name: "turn_complete".to_string() }
    );
    assert_eq!(
        parse_session_line(r#"{"event":"turn_aborted"}"#),
        SessionEvent::TurnAborted { event_name: "turn_aborted".to_string() }
    );
}

#[test]
fn questions_carry_their_kind_and_call() {
    assert_eq!(
        parse_session_line(r#"{"payload":{"type":"exec_approval_request","call_id":"c1"}}"#),
        SessionEvent::QuestionAsked {
            event_name: "exec_approval_request".to_string(),
            call_id: Some("c1".to_string()),
            kind: QuestionKind::ExecApproval,
        }
    );
    assert_eq!(classify_question_kind("apply_patch_approval_request"), QuestionKind::PatchApproval);
    assert_eq!(classify_question_kind("request_user_input"), QuestionKind::RequestUserInput);
}

#[test]
fn a_mutating_shell_command_counts_as_coding() {
    assert_eq!(
        parse_session_line(r#"{"payload":{"type":"exec_command_begin","call_id":"x","command":["rm","-rf","build"]}}"#),
        SessionEvent::CodingStarted {
            event_name: "exec_command_begin".to_string(),
            call_id: Some("x".to_string()),
            tool_name: "exec_command".to_string(),
        }
    );
    assert_eq!(
        parse_session_line(r#"{"payload":{"type":"exec_command_begin","call_id":"y","command":"ls -la"}}"#),
        SessionEvent::ToolCallStarted {
            event_name: "exec_command_begin".to_string(),
            call_id: Some("y".to_string()),
            tool_name: "exec_command".to_string(),
        }
    );
}

#[test]
fn function_call_arguments_are_read_for_the_command() {
    let line = r#"{"payload":{"type":"function_call","name":"shell","call_id":"f1","arguments":"{\"command\":[\"bash\",\"-lc\",\"echo hi > out.txt\"]}"}}"#;
    assert_eq!(
        parse_session_line(line),
        SessionEvent::CodingStarted {
            event_name: "function_call".to_string(),
            call_id: Some("f1".to_string()),
            tool_name: "shell".to_string(),
        }
    );
}

#[test]
fn custom_apply_patch_is_coding_and_other_tools_are_thinking() {
    assert_eq!(
        parse_session_line(r#"{"payload":{"type":"custom_tool_call","name":"apply_patch","id":"p"}}"#),
        SessionEvent::CodingStarted {
            event_name: "custom_tool_call".to_string(),
            call_id: Some("p".to_string()),
            tool_name: "apply_patch".to_string(),
        }
    );
    assert_eq!(
        parse_session_line(r#"{"type":"custom_tool_call"}"#),
        SessionEvent::ToolCallStarted {
            event_name: "custom_tool_call".to_string(),
            call_id: None,
            tool_name: "unknown_tool".to_string(),
        }
    );
}

#[test]
fn local_shell_calls_complete_by_status() {
    assert_eq!(
        parse_session_line(r#"{"payload":{"type":"local_shell_call","status":"Completed","action":{"command":["touch","a"]}}}"#),
        SessionEvent::CodingCompleted { event_name: "local_shell_call".to_string(), call_id: None }
    );
    assert_eq!(
        parse_session_line(r#"{"payload":{"type":"local_shell_call","status":"in_progress","action":{"command":["cat","a"]}}}"#),
        SessionEvent::ToolCallStarted {
            event_name: "local_shell_call".to_string(),
            call_id: None,
            tool_name: "local_shell_call".to_string(),
        }
    );
}

#[test]
fn messages_tokens_and_errors() {
    assert_eq!(name_of(r#"{"type":"agent_message"}"#).as_deref(), Some("agent_message"));
    assert!(matches!(parse_session_line(r#"{"type":"agent_message"}"#), SessionEvent::MessageDelta { .. }));
    assert!(matches!(parse_session_line(r#"{"type":"token_count"}"#), SessionEvent::TokenCount { .. }));
    assert_eq!(
        parse_session_line(r#"{"type":"stream_error","message":"boom"}"#),
        SessionEvent::Error { event_name: "stream_error".to_string(), message: "boom".to_string() }
    );
    assert_eq!(
        parse_session_line(r#"{"type":"oops","error":{"message":"bad"}}"#),
        SessionEvent::Error { event_name: "oops".to_string(), message: "bad".to_string() }
    );
    assert_eq!(
        parse_session_line(r#"{"type":"fatal_error"}"#),
        SessionEvent::Error { event_name: "fatal_error".to_string(), message: "unknown error".to_string() }
    );
}

#[test]
fn an_unknown_event_keeps_its_name() {
    let event = parse_session_line(r#"{"kind":"Session_Meta"}"#);
    assert_eq!(event, SessionEvent::Unknown { event_name: Some("session_meta".to_string()) });
    assert!(!event.parse_ok());
    assert_eq!(event.parsed_type(), Some("session_meta"));
    let nameless = parse_session_line("[1,2,3]");
    assert_eq!(nameless, SessionEvent::Unknown { event_name: Some(String::new()) });
}

#[test]
fn mutating_commands_are_recognised() {
    assert!(command_looks_mutating("mkdir -p out"));
    assert!(command_looks_mutating("  TEE log.txt"));
    assert!(command_looks_mutating("sed -i s/a/b/ f"));
    assert!(command_looks_mutating("echo hi >> f"));
    assert!(command_looks_mutating(">f"));
    assert!(command_looks_mutating("python -c 'open(p).write(x)'"));
    assert!(!command_looks_mutating("cat file"));
    assert!(!command_looks_mutating(""));
    assert!(!command_looks_mutating("git status"));
}
