use vstd::prelude::*;

use crate::codex::parser::{
    call_id_of, classify_value, event_name_of, is_coding_command, status_of, tool_name_of, EventView, QuestionKind,
};
use crate::json::JsonValue;

verus! {

// What each event name of a session line stands for.

/// A task start begins a turn.
pub proof fn law_event_task_started(v: JsonValue)
    requires
        event_name_of(v) == "task_started"@,
    ensures
        classify_value(v) == (EventView::TaskStarted { event_name: "task_started"@ }),
{
    reveal_strlit("task_started");
}

/// A turn start begins a turn.
pub proof fn law_event_turn_started(v: JsonValue)
    requires
        event_name_of(v) == "turn_started"@,
    ensures
        classify_value(v) == (EventView::TaskStarted { event_name: "turn_started"@ }),
{
    reveal_strlit("turn_started");
    reveal_strlit("task_started");
    assert("turn_started"@[1] != "task_started"@[1]);
}

/// A completed task ends the turn.
pub proof fn law_event_task_complete(v: JsonValue)
    requires
        event_name_of(v) == "task_complete"@,
    ensures
        classify_value(v) == (EventView::TaskCompleted { event_name: "task_complete"@ }),
{
    reveal_strlit("task_complete");
    reveal_strlit("task_started");
    reveal_strlit("turn_started");
    assert("task_complete"@[5] != "task_started"@[5]);
    assert("task_complete"@[1] != "turn_started"@[1]);
}

/// A completed turn ends the turn.
pub proof fn law_event_turn_complete(v: JsonValue)
    requires
        event_name_of(v) == "turn_complete"@,
    ensures
        classify_value(v) == (EventView::TaskCompleted { event_name: "turn_complete"@ }),
{
    reveal_strlit("turn_complete");
    reveal_strlit("task_started");
    reveal_strlit("turn_started");
    reveal_strlit("task_complete");
    assert("turn_complete"@[1] != "task_started"@[1]);
    assert("turn_complete"@[5] != "turn_started"@[5]);
    assert("turn_complete"@[1] != "task_complete"@[1]);
}

/// An aborted turn is an abort.
pub proof fn law_event_turn_aborted(v: JsonValue)
    requires
        event_name_of(v) == "turn_aborted"@,
    ensures
        classify_value(v) == (EventView::TurnAborted { event_name: "turn_aborted"@ }),
{
    reveal_strlit("turn_aborted");
    reveal_strlit("task_started");
    reveal_strlit("turn_started");
    reveal_strlit("task_complete");
    reveal_strlit("turn_complete");
    assert("turn_aborted"@[1] != "task_started"@[1]);
    assert("turn_aborted"@[5] != "turn_started"@[5]);
    assert("turn_aborted"@[1] != "task_complete"@[1]);
    assert("turn_aborted"@[5] != "turn_complete"@[5]);
}

/// `exec_approval_request` asks a question of its own kind.
pub proof fn law_event_exec_approval_request(v: JsonValue)
    requires
        event_name_of(v) == "exec_approval_request"@,
    ensures
        classify_value(v) == (EventView::QuestionAsked { event_name: "exec_approval_request"@, call_id: call_id_of(v), kind: QuestionKind::ExecApproval }),
{
    reveal_strlit("exec_approval_request");
    reveal_strlit("task_started");
    reveal_strlit("turn_started");
    reveal_strlit("task_complete");
    reveal_strlit("turn_complete");
    reveal_strlit("turn_aborted");
    assert("exec_approval_request"@[0] != "task_started"@[0]);
    assert("exec_approval_request"@[0] != "turn_started"@[0]);
    assert("exec_approval_request"@[0] != "task_complete"@[0]);
    assert("exec_approval_request"@[0] != "turn_complete"@[0]);
    assert("exec_approval_request"@[0] != "turn_aborted"@[0]);
}

/// `request_permissions` asks a question of its own kind.
pub proof fn law_event_request_permissions(v: JsonValue)
    requires
        event_name_of(v) == "request_permissions"@,
    ensures
        classify_value(v) == (EventView::QuestionAsked { event_name: "request_permissions"@, call_id: call_id_of(v), kind: QuestionKind::RequestPermissions }),
{
    reveal_strlit("request_permissions");
    reveal_strlit("task_started");
    reveal_strlit("turn_started");
    reveal_strlit("task_complete");
    reveal_strlit("turn_complete");
    reveal_strlit("turn_aborted");
    reveal_strlit("exec_approval_request");
    assert("request_permissions"@[0] != "task_started"@[0]);
    assert("request_permissions"@[0] != "turn_started"@[0]);
    assert("request_permissions"@[0] != "task_complete"@[0]);
    assert("request_permissions"@[0] != "turn_complete"@[0]);
    assert("request_permissions"@[0] != "turn_aborted"@[0]);
    assert("request_permissions"@[0] != "exec_approval_request"@[0]);
}

/// `request_user_input` asks a question of its own kind.
pub proof fn law_event_request_user_input(v: JsonValue)
    requires
        event_name_of(v) == "request_user_input"@,
    ensures
        classify_value(v) == (EventView::QuestionAsked { event_name: "request_user_input"@, call_id: call_id_of(v), kind: QuestionKind::RequestUserInput }),
{
    reveal_strlit("request_user_input");
    reveal_strlit("task_started");
    reveal_strlit("turn_started");
    reveal_strlit("task_complete");
    reveal_strlit("turn_complete");
    reveal_strlit("turn_aborted");
    reveal_strlit("exec_approval_request");
    reveal_strlit("request_permissions");
    assert("request_user_input"@[0] != "task_started"@[0]);
    assert("request_user_input"@[0] != "turn_started"@[0]);
    assert("request_user_input"@[0] != "task_complete"@[0]);
    assert("request_user_input"@[0] != "turn_complete"@[0]);
    assert("request_user_input"@[0] != "turn_aborted"@[0]);
    assert("request_user_input"@[0] != "exec_approval_request"@[0]);
    assert("request_user_input"@[8] != "request_permissions"@[8]);
}

/// `elicitation_request` asks a question of its own kind.
pub proof fn law_event_elicitation_request(v: JsonValue)
    requires
        event_name_of(v) == "elicitation_request"@,
    ensures
        classify_value(v) == (EventView::QuestionAsked { event_name: "elicitation_request"@, call_id: call_id_of(v), kind: QuestionKind::Elicitation }),
{
    reveal_strlit("elicitation_request");
    reveal_strlit("task_started");
    reveal_strlit("turn_started");
    reveal_strlit("task_complete");
    reveal_strlit("turn_complete");
    reveal_strlit("turn_aborted");
    reveal_strlit("exec_approval_request");
    reveal_strlit("request_permissions");
    reveal_strlit("request_user_input");
    assert("elicitation_request"@[0] != "task_started"@[0]);
    assert("elicitation_request"@[0] != "turn_started"@[0]);
    assert("elicitation_request"@[0] != "task_complete"@[0]);
    assert("elicitation_request"@[0] != "turn_complete"@[0]);
    assert("elicitation_request"@[0] != "turn_aborted"@[0]);
    assert("elicitation_request"@[1] != "exec_approval_request"@[1]);
    assert("elicitation_request"@[0] != "request_permissions"@[0]);
    assert("elicitation_request"@[0] != "request_user_input"@[0]);
}

/// `apply_patch_approval_request` asks a question of its own kind.
pub proof fn law_event_apply_patch_approval_request(v: JsonValue)
    requires
        event_name_of(v) == "apply_patch_approval_request"@,
    ensures
        classify_value(v) == (EventView::QuestionAsked { event_name: "apply_patch_approval_request"@, call_id: call_id_of(v), kind: QuestionKind::PatchApproval }),
{
    reveal_strlit("apply_patch_approval_request");
    reveal_strlit("task_started");
    reveal_strlit("turn_started");
    reveal_strlit("task_complete");
    reveal_strlit("turn_complete");
    reveal_strlit("turn_aborted");
    reveal_strlit("exec_approval_request");
    reveal_strlit("request_permissions");
    reveal_strlit("request_user_input");
    reveal_strlit("elicitation_request");
    assert("apply_patch_approval_request"@[0] != "task_started"@[0]);
    assert("apply_patch_approval_request"@[0] != "turn_started"@[0]);
    assert("apply_patch_approval_request"@[0] != "task_complete"@[0]);
    assert("apply_patch_approval_request"@[0] != "turn_complete"@[0]);
    assert("apply_patch_approval_request"@[0] != "turn_aborted"@[0]);
    assert("apply_patch_approval_request"@[0] != "exec_approval_request"@[0]);
    assert("apply_patch_approval_request"@[0] != "request_permissions"@[0]);
    assert("apply_patch_approval_request"@[0] != "request_user_input"@[0]);
    assert("apply_patch_approval_request"@[0] != "elicitation_request"@[0]);
}

/// Applying a patch is coding.
pub proof fn law_event_patch_apply_begin(v: JsonValue)
    requires
        event_name_of(v) == "patch_apply_begin"@,
    ensures
        classify_value(v) == (EventView::CodingStarted { event_name: "patch_apply_begin"@, call_id: call_id_of(v), tool_name: "apply_patch"@ }),
{
    reveal_strlit("patch_apply_begin");
    reveal_strlit("task_started");
    reveal_strlit("turn_started");
    reveal_strlit("task_complete");
    reveal_strlit("turn_complete");
    reveal_strlit("turn_aborted");
    reveal_strlit("exec_approval_request");
    reveal_strlit("request_permissions");
    reveal_strlit("request_user_input");
    reveal_strlit("elicitation_request");
    reveal_strlit("apply_patch_approval_request");
    assert("patch_apply_begin"@[0] != "task_started"@[0]);
    assert("patch_apply_begin"@[0] != "turn_started"@[0]);
    assert("patch_apply_begin"@[0] != "task_complete"@[0]);
    assert("patch_apply_begin"@[0] != "turn_complete"@[0]);
    assert("patch_apply_begin"@[0] != "turn_aborted"@[0]);
    assert("patch_apply_begin"@[0] != "exec_approval_request"@[0]);
    assert("patch_apply_begin"@[0] != "request_permissions"@[0]);
    assert("patch_apply_begin"@[0] != "request_user_input"@[0]);
    assert("patch_apply_begin"@[0] != "elicitation_request"@[0]);
    assert("patch_apply_begin"@[0] != "apply_patch_approval_request"@[0]);
}

/// The end of a patch ends coding.
pub proof fn law_event_patch_apply_end(v: JsonValue)
    requires
        event_name_of(v) == "patch_apply_end"@,
    ensures
        classify_value(v) == (EventView::CodingCompleted { event_name: "patch_apply_end"@, call_id: call_id_of(v) }),
{
    reveal_strlit("patch_apply_end");
    reveal_strlit("task_started");
    reveal_strlit("turn_started");
    reveal_strlit("task_complete");
    reveal_strlit("turn_complete");
    reveal_strlit("turn_aborted");
    reveal_strlit("exec_approval_request");
    reveal_strlit("request_permissions");
    reveal_strlit("request_user_input");
    reveal_strlit("elicitation_request");
    reveal_strlit("apply_patch_approval_request");
    reveal_strlit("patch_apply_begin");
    assert("patch_apply_end"@[0] != "task_started"@[0]);
    assert("patch_apply_end"@[0] != "turn_started"@[0]);
    assert("patch_apply_end"@[0] != "task_complete"@[0]);
    assert("patch_apply_end"@[0] != "turn_complete"@[0]);
    assert("patch_apply_end"@[0] != "turn_aborted"@[0]);
    assert("patch_apply_end"@[0] != "exec_approval_request"@[0]);
    assert("patch_apply_end"@[0] != "request_permissions"@[0]);
    assert("patch_apply_end"@[0] != "request_user_input"@[0]);
    assert("patch_apply_end"@[0] != "elicitation_request"@[0]);
    assert("patch_apply_end"@[0] != "apply_patch_approval_request"@[0]);
    assert("patch_apply_end"@[12] != "patch_apply_begin"@[12]);
}

/// A command is coding when it changes files, else a tool call.
pub proof fn law_event_exec_command_begin(v: JsonValue)
    requires
        event_name_of(v) == "exec_command_begin"@,
    ensures
        is_coding_command(v) ==> classify_value(v) == (EventView::CodingStarted { event_name: "exec_command_begin"@, call_id: call_id_of(v), tool_name: "exec_command"@ }),
        !is_coding_command(v) ==> classify_value(v) == (EventView::ToolCallStarted { event_name: "exec_command_begin"@, call_id: call_id_of(v), tool_name: "exec_command"@ }),
{
    reveal_strlit("exec_command_begin");
    reveal_strlit("task_started");
    reveal_strlit("turn_started");
    reveal_strlit("task_complete");
    reveal_strlit("turn_complete");
    reveal_strlit("turn_aborted");
    reveal_strlit("exec_approval_request");
    reveal_strlit("request_permissions");
    reveal_strlit("request_user_input");
    reveal_strlit("elicitation_request");
    reveal_strlit("apply_patch_approval_request");
    reveal_strlit("patch_apply_begin");
    reveal_strlit("patch_apply_end");
    assert("exec_command_begin"@[0] != "task_started"@[0]);
    assert("exec_command_begin"@[0] != "turn_started"@[0]);
    assert("exec_command_begin"@[0] != "task_complete"@[0]);
    assert("exec_command_begin"@[0] != "turn_complete"@[0]);
    assert("exec_command_begin"@[0] != "turn_aborted"@[0]);
    assert("exec_command_begin"@[5] != "exec_approval_request"@[5]);
    assert("exec_command_begin"@[0] != "request_permissions"@[0]);
    assert("exec_command_begin"@[0] != "request_user_input"@[0]);
    assert("exec_command_begin"@[1] != "elicitation_request"@[1]);
    assert("exec_command_begin"@[0] != "apply_patch_approval_request"@[0]);
    assert("exec_command_begin"@[0] != "patch_apply_begin"@[0]);
    assert("exec_command_begin"@[0] != "patch_apply_end"@[0]);
}

/// The end of a command ends a tool call.
pub proof fn law_event_exec_command_end(v: JsonValue)
    requires
        event_name_of(v) == "exec_command_end"@,
    ensures
        classify_value(v) == (EventView::ToolCallCompleted { event_name: "exec_command_end"@, call_id: call_id_of(v) }),
{
    reveal_strlit("exec_command_end");
    reveal_strlit("task_started");
    reveal_strlit("turn_started");
    reveal_strlit("task_complete");
    reveal_strlit("turn_complete");
    reveal_strlit("turn_aborted");
    reveal_strlit("exec_approval_request");
    reveal_strlit("request_permissions");
    reveal_strlit("request_user_input");
    reveal_strlit("elicitation_request");
    reveal_strlit("apply_patch_approval_request");
    reveal_strlit("patch_apply_begin");
    reveal_strlit("patch_apply_end");
    reveal_strlit("exec_command_begin");
    assert("exec_command_end"@[0] != "task_started"@[0]);
    assert("exec_command_end"@[0] != "turn_started"@[0]);
    assert("exec_command_end"@[0] != "task_complete"@[0]);
    assert("exec_command_end"@[0] != "turn_complete"@[0]);
    assert("exec_command_end"@[0] != "turn_aborted"@[0]);
    assert("exec_command_end"@[5] != "exec_approval_request"@[5]);
    assert("exec_command_end"@[0] != "request_permissions"@[0]);
    assert("exec_command_end"@[0] != "request_user_input"@[0]);
    assert("exec_command_end"@[1] != "elicitation_request"@[1]);
    assert("exec_command_end"@[0] != "apply_patch_approval_request"@[0]);
    assert("exec_command_end"@[0] != "patch_apply_begin"@[0]);
    assert("exec_command_end"@[0] != "patch_apply_end"@[0]);
    assert("exec_command_end"@[13] != "exec_command_begin"@[13]);
}

/// The end of a web search ends a tool call.
pub proof fn law_event_web_search_end(v: JsonValue)
    requires
        event_name_of(v) == "web_search_end"@,
    ensures
        classify_value(v) == (EventView::ToolCallCompleted { event_name: "web_search_end"@, call_id: call_id_of(v) }),
{
    reveal_strlit("web_search_end");
    reveal_strlit("task_started");
    reveal_strlit("turn_started");
    reveal_strlit("task_complete");
    reveal_strlit("turn_complete");
    reveal_strlit("turn_aborted");
    reveal_strlit("exec_approval_request");
    reveal_strlit("request_permissions");
    reveal_strlit("request_user_input");
    reveal_strlit("elicitation_request");
    reveal_strlit("apply_patch_approval_request");
    reveal_strlit("patch_apply_begin");
    reveal_strlit("patch_apply_end");
    reveal_strlit("exec_command_begin");
    reveal_strlit("exec_command_end");
    reveal_strlit("web_search_begin");
    assert("web_search_end"@[0] != "task_started"@[0]);
    assert("web_search_end"@[0] != "turn_started"@[0]);
    assert("web_search_end"@[0] != "task_complete"@[0]);
    assert("web_search_end"@[0] != "turn_complete"@[0]);
    assert("web_search_end"@[0] != "turn_aborted"@[0]);
    assert("web_search_end"@[0] != "exec_approval_request"@[0]);
    assert("web_search_end"@[0] != "request_permissions"@[0]);
    assert("web_search_end"@[0] != "request_user_input"@[0]);
    assert("web_search_end"@[0] != "elicitation_request"@[0]);
    assert("web_search_end"@[0] != "apply_patch_approval_request"@[0]);
    assert("web_search_end"@[0] != "patch_apply_begin"@[0]);
    assert("web_search_end"@[0] != "patch_apply_end"@[0]);
    assert("web_search_end"@[0] != "exec_command_begin"@[0]);
    assert("web_search_end"@[0] != "exec_command_end"@[0]);
    assert("web_search_end"@[11] != "web_search_begin"@[11]);
}

/// A function call is coding when its command changes files, else a tool call, named after its tool.
pub proof fn law_event_function_call(v: JsonValue)
    requires
        event_name_of(v) == "function_call"@,
    ensures
        is_coding_command(v) ==> classify_value(v) == (EventView::CodingStarted { event_name: "function_call"@, call_id: call_id_of(v), tool_name: tool_name_of(v) }),
        !is_coding_command(v) ==> classify_value(v) == (EventView::ToolCallStarted { event_name: "function_call"@, call_id: call_id_of(v), tool_name: tool_name_of(v) }),
{
    reveal_strlit("function_call");
    reveal_strlit("task_started");
    reveal_strlit("turn_started");
    reveal_strlit("task_complete");
    reveal_strlit("turn_complete");
    reveal_strlit("turn_aborted");
    reveal_strlit("exec_approval_request");
    reveal_strlit("request_permissions");
    reveal_strlit("request_user_input");
    reveal_strlit("elicitation_request");
    reveal_strlit("apply_patch_approval_request");
    reveal_strlit("patch_apply_begin");
    reveal_strlit("patch_apply_end");
    reveal_strlit("exec_command_begin");
    reveal_strlit("exec_command_end");
    reveal_strlit("web_search_begin");
    reveal_strlit("web_search_end");
    assert("function_call"@[0] != "task_started"@[0]);
    assert("function_call"@[0] != "turn_started"@[0]);
    assert("function_call"@[0] != "task_complete"@[0]);
    assert("function_call"@[0] != "turn_complete"@[0]);
    assert("function_call"@[0] != "turn_aborted"@[0]);
    assert("function_call"@[0] != "exec_approval_request"@[0]);
    assert("function_call"@[0] != "request_permissions"@[0]);
    assert("function_call"@[0] != "request_user_input"@[0]);
    assert("function_call"@[0] != "elicitation_request"@[0]);
    assert("function_call"@[0] != "apply_patch_approval_request"@[0]);
    assert("function_call"@[0] != "patch_apply_begin"@[0]);
    assert("function_call"@[0] != "patch_apply_end"@[0]);
    assert("function_call"@[0] != "exec_command_begin"@[0]);
    assert("function_call"@[0] != "exec_command_end"@[0]);
    assert("function_call"@[0] != "web_search_begin"@[0]);
    assert("function_call"@[0] != "web_search_end"@[0]);
}

/// A custom tool call is coding when the tool is `apply_patch`, else a tool call.
pub proof fn law_event_custom_tool_call(v: JsonValue)
    requires
        event_name_of(v) == "custom_tool_call"@,
    ensures
        tool_name_of(v) == "apply_patch"@ ==> classify_value(v) == (EventView::CodingStarted { event_name: "custom_tool_call"@, call_id: call_id_of(v), tool_name: tool_name_of(v) }),
        tool_name_of(v) != "apply_patch"@ ==> classify_value(v) == (EventView::ToolCallStarted { event_name: "custom_tool_call"@, call_id: call_id_of(v), tool_name: tool_name_of(v) }),
{
    reveal_strlit("custom_tool_call");
    reveal_strlit("task_started");
    reveal_strlit("turn_started");
    reveal_strlit("task_complete");
    reveal_strlit("turn_complete");
    reveal_strlit("turn_aborted");
    reveal_strlit("exec_approval_request");
    reveal_strlit("request_permissions");
    reveal_strlit("request_user_input");
    reveal_strlit("elicitation_request");
    reveal_strlit("apply_patch_approval_request");
    reveal_strlit("patch_apply_begin");
    reveal_strlit("patch_apply_end");
    reveal_strlit("exec_command_begin");
    reveal_strlit("exec_command_end");
    reveal_strlit("web_search_begin");
    reveal_strlit("web_search_end");
    reveal_strlit("function_call");
    reveal_strlit("apply_patch");
    assert("custom_tool_call"@[0] != "task_started"@[0]);
    assert("custom_tool_call"@[0] != "turn_started"@[0]);
    assert("custom_tool_call"@[0] != "task_complete"@[0]);
    assert("custom_tool_call"@[0] != "turn_complete"@[0]);
    assert("custom_tool_call"@[0] != "turn_aborted"@[0]);
    assert("custom_tool_call"@[0] != "exec_approval_request"@[0]);
    assert("custom_tool_call"@[0] != "request_permissions"@[0]);
    assert("custom_tool_call"@[0] != "request_user_input"@[0]);
    assert("custom_tool_call"@[0] != "elicitation_request"@[0]);
    assert("custom_tool_call"@[0] != "apply_patch_approval_request"@[0]);
    assert("custom_tool_call"@[0] != "patch_apply_begin"@[0]);
    assert("custom_tool_call"@[0] != "patch_apply_end"@[0]);
    assert("custom_tool_call"@[0] != "exec_command_begin"@[0]);
    assert("custom_tool_call"@[0] != "exec_command_end"@[0]);
    assert("custom_tool_call"@[0] != "web_search_begin"@[0]);
    assert("custom_tool_call"@[0] != "web_search_end"@[0]);
    assert("custom_tool_call"@[0] != "function_call"@[0]);
}

/// A local shell call starts or (when completed or incomplete) ends; it is coding when its command changes files.
pub proof fn law_event_local_shell_call(v: JsonValue)
    requires
        event_name_of(v) == "local_shell_call"@,
    ensures
        (status_of(v) == Some("completed"@) || status_of(v) == Some("incomplete"@)) && is_coding_command(v) ==> classify_value(v) == (EventView::CodingCompleted { event_name: "local_shell_call"@, call_id: call_id_of(v) }),
        (status_of(v) == Some("completed"@) || status_of(v) == Some("incomplete"@)) && !is_coding_command(v) ==> classify_value(v) == (EventView::ToolCallCompleted { event_name: "local_shell_call"@, call_id: call_id_of(v) }),
        !(status_of(v) == Some("completed"@) || status_of(v) == Some("incomplete"@)) && is_coding_command(v) ==> classify_value(v) == (EventView::CodingStarted { event_name: "local_shell_call"@, call_id: call_id_of(v), tool_name: "local_shell_call"@ }),
        !(status_of(v) == Some("completed"@) || status_of(v) == Some("incomplete"@)) && !is_coding_command(v) ==> classify_value(v) == (EventView::ToolCallStarted { event_name: "local_shell_call"@, call_id: call_id_of(v), tool_name: "local_shell_call"@ }),
{
    reveal_strlit("local_shell_call");
    reveal_strlit("task_started");
    reveal_strlit("turn_started");
    reveal_strlit("task_complete");
    reveal_strlit("turn_complete");
    reveal_strlit("turn_aborted");
    reveal_strlit("exec_approval_request");
    reveal_strlit("request_permissions");
    reveal_strlit("request_user_input");
    reveal_strlit("elicitation_request");
    reveal_strlit("apply_patch_approval_request");
    reveal_strlit("patch_apply_begin");
    reveal_strlit("patch_apply_end");
    reveal_strlit("exec_command_begin");
    reveal_strlit("exec_command_end");
    reveal_strlit("web_search_begin");
    reveal_strlit("web_search_end");
    reveal_strlit("function_call");
    reveal_strlit("custom_tool_call");
    reveal_strlit("completed");
    reveal_strlit("incomplete");
    assert("local_shell_call"@[0] != "task_started"@[0]);
    assert("local_shell_call"@[0] != "turn_started"@[0]);
    assert("local_shell_call"@[0] != "task_complete"@[0]);
    assert("local_shell_call"@[0] != "turn_complete"@[0]);
    assert("local_shell_call"@[0] != "turn_aborted"@[0]);
    assert("local_shell_call"@[0] != "exec_approval_request"@[0]);
    assert("local_shell_call"@[0] != "request_permissions"@[0]);
    assert("local_shell_call"@[0] != "request_user_input"@[0]);
    assert("local_shell_call"@[0] != "elicitation_request"@[0]);
    assert("local_shell_call"@[0] != "apply_patch_approval_request"@[0]);
    assert("local_shell_call"@[0] != "patch_apply_begin"@[0]);
    assert("local_shell_call"@[0] != "patch_apply_end"@[0]);
    assert("local_shell_call"@[0] != "exec_command_begin"@[0]);
    assert("local_shell_call"@[0] != "exec_command_end"@[0]);
    assert("local_shell_call"@[0] != "web_search_begin"@[0]);
    assert("local_shell_call"@[0] != "web_search_end"@[0]);
    assert("local_shell_call"@[0] != "function_call"@[0]);
    assert("local_shell_call"@[0] != "custom_tool_call"@[0]);
}

/// A function call's output ends a tool call.
pub proof fn law_event_function_call_output(v: JsonValue)
    requires
        event_name_of(v) == "function_call_output"@,
    ensures
        classify_value(v) == (EventView::ToolCallCompleted { event_name: "function_call_output"@, call_id: call_id_of(v) }),
{
    reveal_strlit("function_call_output");
    reveal_strlit("task_started");
    reveal_strlit("turn_started");
    reveal_strlit("task_complete");
    reveal_strlit("turn_complete");
    reveal_strlit("turn_aborted");
    reveal_strlit("exec_approval_request");
    reveal_strlit("request_permissions");
    reveal_strlit("request_user_input");
    reveal_strlit("elicitation_request");
    reveal_strlit("apply_patch_approval_request");
    reveal_strlit("patch_apply_begin");
    reveal_strlit("patch_apply_end");
    reveal_strlit("exec_command_begin");
    reveal_strlit("exec_command_end");
    reveal_strlit("web_search_begin");
    reveal_strlit("web_search_end");
    reveal_strlit("function_call");
    reveal_strlit("custom_tool_call");
    reveal_strlit("local_shell_call");
    assert("function_call_output"@[0] != "task_started"@[0]);
    assert("function_call_output"@[0] != "turn_started"@[0]);
    assert("function_call_output"@[0] != "task_complete"@[0]);
    assert("function_call_output"@[0] != "turn_complete"@[0]);
    assert("function_call_output"@[0] != "turn_aborted"@[0]);
    assert("function_call_output"@[0] != "exec_approval_request"@[0]);
    assert("function_call_output"@[0] != "request_permissions"@[0]);
    assert("function_call_output"@[0] != "request_user_input"@[0]);
    assert("function_call_output"@[0] != "elicitation_request"@[0]);
    assert("function_call_output"@[0] != "apply_patch_approval_request"@[0]);
    assert("function_call_output"@[0] != "patch_apply_begin"@[0]);
    assert("function_call_output"@[0] != "patch_apply_end"@[0]);
    assert("function_call_output"@[0] != "exec_command_begin"@[0]);
    assert("function_call_output"@[0] != "exec_command_end"@[0]);
    assert("function_call_output"@[0] != "web_search_begin"@[0]);
    assert("function_call_output"@[0] != "web_search_end"@[0]);
    assert("function_call_output"@.len() != "function_call"@.len());
    assert("function_call_output"@[0] != "custom_tool_call"@[0]);
    assert("function_call_output"@[0] != "local_shell_call"@[0]);
}

/// A custom tool call's output ends a tool call.
pub proof fn law_event_custom_tool_call_output(v: JsonValue)
    requires
        event_name_of(v) == "custom_tool_call_output"@,
    ensures
        classify_value(v) == (EventView::ToolCallCompleted { event_name: "custom_tool_call_output"@, call_id: call_id_of(v) }),
{
    reveal_strlit("custom_tool_call_output");
    reveal_strlit("task_started");
    reveal_strlit("turn_started");
    reveal_strlit("task_complete");
    reveal_strlit("turn_complete");
    reveal_strlit("turn_aborted");
    reveal_strlit("exec_approval_request");
    reveal_strlit("request_permissions");
    reveal_strlit("request_user_input");
    reveal_strlit("elicitation_request");
    reveal_strlit("apply_patch_approval_request");
    reveal_strlit("patch_apply_begin");
    reveal_strlit("patch_apply_end");
    reveal_strlit("exec_command_begin");
    reveal_strlit("exec_command_end");
    reveal_strlit("web_search_begin");
    reveal_strlit("web_search_end");
    reveal_strlit("function_call");
    reveal_strlit("custom_tool_call");
    reveal_strlit("local_shell_call");
    reveal_strlit("function_call_output");
    assert("custom_tool_call_output"@[0] != "task_started"@[0]);
    assert("custom_tool_call_output"@[0] != "turn_started"@[0]);
    assert("custom_tool_call_output"@[0] != "task_complete"@[0]);
    assert("custom_tool_call_output"@[0] != "turn_complete"@[0]);
    assert("custom_tool_call_output"@[0] != "turn_aborted"@[0]);
    assert("custom_tool_call_output"@[0] != "exec_approval_request"@[0]);
    assert("custom_tool_call_output"@[0] != "request_permissions"@[0]);
    assert("custom_tool_call_output"@[0] != "request_user_input"@[0]);
    assert("custom_tool_call_output"@[0] != "elicitation_request"@[0]);
    assert("custom_tool_call_output"@[0] != "apply_patch_approval_request"@[0]);
    assert("custom_tool_call_output"@[0] != "patch_apply_begin"@[0]);
    assert("custom_tool_call_output"@[0] != "patch_apply_end"@[0]);
    assert("custom_tool_call_output"@[0] != "exec_command_begin"@[0]);
    assert("custom_tool_call_output"@[0] != "exec_command_end"@[0]);
    assert("custom_tool_call_output"@[0] != "web_search_begin"@[0]);
    assert("custom_tool_call_output"@[0] != "web_search_end"@[0]);
    assert("custom_tool_call_output"@[0] != "function_call"@[0]);
    assert("custom_tool_call_output"@.len() != "custom_tool_call"@.len());
    assert("custom_tool_call_output"@[0] != "local_shell_call"@[0]);
    assert("custom_tool_call_output"@[0] != "function_call_output"@[0]);
}

/// `agent_message` is a piece of the agent's message.
pub proof fn law_event_agent_message(v: JsonValue)
    requires
        event_name_of(v) == "agent_message"@,
    ensures
        classify_value(v) == (EventView::MessageDelta { event_name: "agent_message"@ }),
{
    reveal_strlit("agent_message");
    reveal_strlit("task_started");
    reveal_strlit("turn_started");
    reveal_strlit("task_complete");
    reveal_strlit("turn_complete");
    reveal_strlit("turn_aborted");
    reveal_strlit("exec_approval_request");
    reveal_strlit("request_permissions");
    reveal_strlit("request_user_input");
    reveal_strlit("elicitation_request");
    reveal_strlit("apply_patch_approval_request");
    reveal_strlit("patch_apply_begin");
    reveal_strlit("patch_apply_end");
    reveal_strlit("exec_command_begin");
    reveal_strlit("exec_command_end");
    reveal_strlit("web_search_begin");
    reveal_strlit("web_search_end");
    reveal_strlit("function_call");
    reveal_strlit("custom_tool_call");
    reveal_strlit("local_shell_call");
    reveal_strlit("function_call_output");
    reveal_strlit("custom_tool_call_output");
    assert("agent_message"@[0] != "task_started"@[0]);
    assert("agent_message"@[0] != "turn_started"@[0]);
    assert("agent_message"@[0] != "task_complete"@[0]);
    assert("agent_message"@[0] != "turn_complete"@[0]);
    assert("agent_message"@[0] != "turn_aborted"@[0]);
    assert("agent_message"@[0] != "exec_approval_request"@[0]);
    assert("agent_message"@[0] != "request_permissions"@[0]);
    assert("agent_message"@[0] != "request_user_input"@[0]);
    assert("agent_message"@[0] != "elicitation_request"@[0]);
    assert("agent_message"@[1] != "apply_patch_approval_request"@[1]);
    assert("agent_message"@[0] != "patch_apply_begin"@[0]);
    assert("agent_message"@[0] != "patch_apply_end"@[0]);
    assert("agent_message"@[0] != "exec_command_begin"@[0]);
    assert("agent_message"@[0] != "exec_command_end"@[0]);
    assert("agent_message"@[0] != "web_search_begin"@[0]);
    assert("agent_message"@[0] != "web_search_end"@[0]);
    assert("agent_message"@[0] != "function_call"@[0]);
    assert("agent_message"@[0] != "custom_tool_call"@[0]);
    assert("agent_message"@[0] != "local_shell_call"@[0]);
    assert("agent_message"@[0] != "function_call_output"@[0]);
    assert("agent_message"@[0] != "custom_tool_call_output"@[0]);
}

/// `reasoning` is a piece of the agent's message.
pub proof fn law_event_reasoning(v: JsonValue)
    requires
        event_name_of(v) == "reasoning"@,
    ensures
        classify_value(v) == (EventView::MessageDelta { event_name: "reasoning"@ }),
{
    reveal_strlit("reasoning");
    reveal_strlit("task_started");
    reveal_strlit("turn_started");
    reveal_strlit("task_complete");
    reveal_strlit("turn_complete");
    reveal_strlit("turn_aborted");
    reveal_strlit("exec_approval_request");
    reveal_strlit("request_permissions");
    reveal_strlit("request_user_input");
    reveal_strlit("elicitation_request");
    reveal_strlit("apply_patch_approval_request");
    reveal_strlit("patch_apply_begin");
    reveal_strlit("patch_apply_end");
    reveal_strlit("exec_command_begin");
    reveal_strlit("exec_command_end");
    reveal_strlit("web_search_begin");
    reveal_strlit("web_search_end");
    reveal_strlit("function_call");
    reveal_strlit("custom_tool_call");
    reveal_strlit("local_shell_call");
    reveal_strlit("function_call_output");
    reveal_strlit("custom_tool_call_output");
    reveal_strlit("agent_message");
    assert("reasoning"@[0] != "task_started"@[0]);
    assert("reasoning"@[0] != "turn_started"@[0]);
    assert("reasoning"@[0] != "task_complete"@[0]);
    assert("reasoning"@[0] != "turn_complete"@[0]);
    assert("reasoning"@[0] != "turn_aborted"@[0]);
    assert("reasoning"@[0] != "exec_approval_request"@[0]);
    assert("reasoning"@[2] != "request_permissions"@[2]);
    assert("reasoning"@[2] != "request_user_input"@[2]);
    assert("reasoning"@[0] != "elicitation_request"@[0]);
    assert("reasoning"@[0] != "apply_patch_approval_request"@[0]);
    assert("reasoning"@[0] != "patch_apply_begin"@[0]);
    assert("reasoning"@[0] != "patch_apply_end"@[0]);
    assert("reasoning"@[0] != "exec_command_begin"@[0]);
    assert("reasoning"@[0] != "exec_command_end"@[0]);
    assert("reasoning"@[0] != "web_search_begin"@[0]);
    assert("reasoning"@[0] != "web_search_end"@[0]);
    assert("reasoning"@[0] != "function_call"@[0]);
    assert("reasoning"@[0] != "custom_tool_call"@[0]);
    assert("reasoning"@[0] != "local_shell_call"@[0]);
    assert("reasoning"@[0] != "function_call_output"@[0]);
    assert("reasoning"@[0] != "custom_tool_call_output"@[0]);
    assert("reasoning"@[0] != "agent_message"@[0]);
}

/// `message` is a piece of the agent's message.
pub proof fn law_event_message(v: JsonValue)
    requires
        event_name_of(v) == "message"@,
    ensures
        classify_value(v) == (EventView::MessageDelta { event_name: "message"@ }),
{
    reveal_strlit("message");
    reveal_strlit("task_started");
    reveal_strlit("turn_started");
    reveal_strlit("task_complete");
    reveal_strlit("turn_complete");
    reveal_strlit("turn_aborted");
    reveal_strlit("exec_approval_request");
    reveal_strlit("request_permissions");
    reveal_strlit("request_user_input");
    reveal_strlit("elicitation_request");
    reveal_strlit("apply_patch_approval_request");
    reveal_strlit("patch_apply_begin");
    reveal_strlit("patch_apply_end");
    reveal_strlit("exec_command_begin");
    reveal_strlit("exec_command_end");
    reveal_strlit("web_search_begin");
    reveal_strlit("web_search_end");
    reveal_strlit("function_call");
    reveal_strlit("custom_tool_call");
    reveal_strlit("local_shell_call");
    reveal_strlit("function_call_output");
    reveal_strlit("custom_tool_call_output");
    reveal_strlit("agent_message");
    reveal_strlit("reasoning");
    assert("message"@[0] != "task_started"@[0]);
    assert("message"@[0] != "turn_started"@[0]);
    assert("message"@[0] != "task_complete"@[0]);
    assert("message"@[0] != "turn_complete"@[0]);
    assert("message"@[0] != "turn_aborted"@[0]);
    assert("message"@[0] != "exec_approval_request"@[0]);
    assert("message"@[0] != "request_permissions"@[0]);
    assert("message"@[0] != "request_user_input"@[0]);
    assert("message"@[0] != "elicitation_request"@[0]);
    assert("message"@[0] != "apply_patch_approval_request"@[0]);
    assert("message"@[0] != "patch_apply_begin"@[0]);
    assert("message"@[0] != "patch_apply_end"@[0]);
    assert("message"@[0] != "exec_command_begin"@[0]);
    assert("message"@[0] != "exec_command_end"@[0]);
    assert("message"@[0] != "web_search_begin"@[0]);
    assert("message"@[0] != "web_search_end"@[0]);
    assert("message"@[0] != "function_call"@[0]);
    assert("message"@[0] != "custom_tool_call"@[0]);
    assert("message"@[0] != "local_shell_call"@[0]);
    assert("message"@[0] != "function_call_output"@[0]);
    assert("message"@[0] != "custom_tool_call_output"@[0]);
    assert("message"@[0] != "agent_message"@[0]);
    assert("message"@[0] != "reasoning"@[0]);
}

/// `output_text` is a piece of the agent's message.
pub proof fn law_event_output_text(v: JsonValue)
    requires
        event_name_of(v) == "output_text"@,
    ensures
        classify_value(v) == (EventView::MessageDelta { event_name: "output_text"@ }),
{
    reveal_strlit("output_text");
    reveal_strlit("task_started");
    reveal_strlit("turn_started");
    reveal_strlit("task_complete");
    reveal_strlit("turn_complete");
    reveal_strlit("turn_aborted");
    reveal_strlit("exec_approval_request");
    reveal_strlit("request_permissions");
    reveal_strlit("request_user_input");
    reveal_strlit("elicitation_request");
    reveal_strlit("apply_patch_approval_request");
    reveal_strlit("patch_apply_begin");
    reveal_strlit("patch_apply_end");
    reveal_strlit("exec_command_begin");
    reveal_strlit("exec_command_end");
    reveal_strlit("web_search_begin");
    reveal_strlit("web_search_end");
    reveal_strlit("function_call");
    reveal_strlit("custom_tool_call");
    reveal_strlit("local_shell_call");
    reveal_strlit("function_call_output");
    reveal_strlit("custom_tool_call_output");
    reveal_strlit("agent_message");
    reveal_strlit("reasoning");
    reveal_strlit("message");
    assert("output_text"@[0] != "task_started"@[0]);
    assert("output_text"@[0] != "turn_started"@[0]);
    assert("output_text"@[0] != "task_complete"@[0]);
    assert("output_text"@[0] != "turn_complete"@[0]);
    assert("output_text"@[0] != "turn_aborted"@[0]);
    assert("output_text"@[0] != "exec_approval_request"@[0]);
    assert("output_text"@[0] != "request_permissions"@[0]);
    assert("output_text"@[0] != "request_user_input"@[0]);
    assert("output_text"@[0] != "elicitation_request"@[0]);
    assert("output_text"@[0] != "apply_patch_approval_request"@[0]);
    assert("output_text"@[0] != "patch_apply_begin"@[0]);
    assert("output_text"@[0] != "patch_apply_end"@[0]);
    assert("output_text"@[0] != "exec_command_begin"@[0]);
    assert("output_text"@[0] != "exec_command_end"@[0]);
    assert("output_text"@[0] != "web_search_begin"@[0]);
    assert("output_text"@[0] != "web_search_end"@[0]);
    assert("output_text"@[0] != "function_call"@[0]);
    assert("output_text"@[0] != "custom_tool_call"@[0]);
    assert("output_text"@[0] != "local_shell_call"@[0]);
    assert("output_text"@[0] != "function_call_output"@[0]);
    assert("output_text"@[0] != "custom_tool_call_output"@[0]);
    assert("output_text"@[0] != "agent_message"@[0]);
    assert("output_text"@[0] != "reasoning"@[0]);
    assert("output_text"@[0] != "message"@[0]);
}

/// `user_message` is a piece of the agent's message.
pub proof fn law_event_user_message(v: JsonValue)
    requires
        event_name_of(v) == "user_message"@,
    ensures
        classify_value(v) == (EventView::MessageDelta { event_name: "user_message"@ }),
{
    reveal_strlit("user_message");
    reveal_strlit("task_started");
    reveal_strlit("turn_started");
    reveal_strlit("task_complete");
    reveal_strlit("turn_complete");
    reveal_strlit("turn_aborted");
    reveal_strlit("exec_approval_request");
    reveal_strlit("request_permissions");
    reveal_strlit("request_user_input");
    reveal_strlit("elicitation_request");
    reveal_strlit("apply_patch_approval_request");
    reveal_strlit("patch_apply_begin");
    reveal_strlit("patch_apply_end");
    reveal_strlit("exec_command_begin");
    reveal_strlit("exec_command_end");
    reveal_strlit("web_search_begin");
    reveal_strlit("web_search_end");
    reveal_strlit("function_call");
    reveal_strlit("custom_tool_call");
    reveal_strlit("local_shell_call");
    reveal_strlit("function_call_output");
    reveal_strlit("custom_tool_call_output");
    reveal_strlit("agent_message");
    reveal_strlit("reasoning");
    reveal_strlit("message");
    reveal_strlit("output_text");
    assert("user_message"@[0] != "task_started"@[0]);
    assert("user_message"@[0] != "turn_started"@[0]);
    assert("user_message"@[0] != "task_complete"@[0]);
    assert("user_message"@[0] != "turn_complete"@[0]);
    assert("user_message"@[0] != "turn_aborted"@[0]);
    assert("user_message"@[0] != "exec_approval_request"@[0]);
    assert("user_message"@[0] != "request_permissions"@[0]);
    assert("user_message"@[0] != "request_user_input"@[0]);
    assert("user_message"@[0] != "elicitation_request"@[0]);
    assert("user_message"@[0] != "apply_patch_approval_request"@[0]);
    assert("user_message"@[0] != "patch_apply_begin"@[0]);
    assert("user_message"@[0] != "patch_apply_end"@[0]);
    assert("user_message"@[0] != "exec_command_begin"@[0]);
    assert("user_message"@[0] != "exec_command_end"@[0]);
    assert("user_message"@[0] != "web_search_begin"@[0]);
    assert("user_message"@[0] != "web_search_end"@[0]);
    assert("user_message"@[0] != "function_call"@[0]);
    assert("user_message"@[0] != "custom_tool_call"@[0]);
    assert("user_message"@[0] != "local_shell_call"@[0]);
    assert("user_message"@[0] != "function_call_output"@[0]);
    assert("user_message"@[0] != "custom_tool_call_output"@[0]);
    assert("user_message"@[0] != "agent_message"@[0]);
    assert("user_message"@[0] != "reasoning"@[0]);
    assert("user_message"@[0] != "message"@[0]);
    assert("user_message"@[0] != "output_text"@[0]);
}

/// A token count is a token count.
pub proof fn law_event_token_count(v: JsonValue)
    requires
        event_name_of(v) == "token_count"@,
    ensures
        classify_value(v) == (EventView::TokenCount { event_name: "token_count"@ }),
{
    reveal_strlit("token_count");
    reveal_strlit("task_started");
    reveal_strlit("turn_started");
    reveal_strlit("task_complete");
    reveal_strlit("turn_complete");
    reveal_strlit("turn_aborted");
    reveal_strlit("exec_approval_request");
    reveal_strlit("request_permissions");
    reveal_strlit("request_user_input");
    reveal_strlit("elicitation_request");
    reveal_strlit("apply_patch_approval_request");
    reveal_strlit("patch_apply_begin");
    reveal_strlit("patch_apply_end");
    reveal_strlit("exec_command_begin");
    reveal_strlit("exec_command_end");
    reveal_strlit("web_search_begin");
    reveal_strlit("web_search_end");
    reveal_strlit("function_call");
    reveal_strlit("custom_tool_call");
    reveal_strlit("local_shell_call");
    reveal_strlit("function_call_output");
    reveal_strlit("custom_tool_call_output");
    reveal_strlit("agent_message");
    reveal_strlit("reasoning");
    reveal_strlit("message");
    reveal_strlit("output_text");
    reveal_strlit("user_message");
    assert("token_count"@[1] != "task_started"@[1]);
    assert("token_count"@[1] != "turn_started"@[1]);
    assert("token_count"@[1] != "task_complete"@[1]);
    assert("token_count"@[1] != "turn_complete"@[1]);
    assert("token_count"@[1] != "turn_aborted"@[1]);
    assert("token_count"@[0] != "exec_approval_request"@[0]);
    assert("token_count"@[0] != "request_permissions"@[0]);
    assert("token_count"@[0] != "request_user_input"@[0]);
    assert("token_count"@[0] != "elicitation_request"@[0]);
    assert("token_count"@[0] != "apply_patch_approval_request"@[0]);
    assert("token_count"@[0] != "patch_apply_begin"@[0]);
    assert("token_count"@[0] != "patch_apply_end"@[0]);
    assert("token_count"@[0] != "exec_command_begin"@[0]);
    assert("token_count"@[0] != "exec_command_end"@[0]);
    assert("token_count"@[0] != "web_search_begin"@[0]);
    assert("token_count"@[0] != "web_search_end"@[0]);
    assert("token_count"@[0] != "function_call"@[0]);
    assert("token_count"@[0] != "custom_tool_call"@[0]);
    assert("token_count"@[0] != "local_shell_call"@[0]);
    assert("token_count"@[0] != "function_call_output"@[0]);
    assert("token_count"@[0] != "custom_tool_call_output"@[0]);
    assert("token_count"@[0] != "agent_message"@[0]);
    assert("token_count"@[0] != "reasoning"@[0]);
    assert("token_count"@[0] != "message"@[0]);
    assert("token_count"@[0] != "output_text"@[0]);
    assert("token_count"@[0] != "user_message"@[0]);
}

} // verus!
