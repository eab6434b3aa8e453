use vstd::prelude::*;

use crate::json::{entry_lookup, parse_json, json_document, JsonValue};
use crate::text::{
    ascii_lowercase, chars_of, contains, first_word, first_word_of, join_space, join_with_space,
    lower, starts_with, str_contains, str_starts_with, string_of, views,
};
use crate::json::str_eq;

verus! {

#[derive(Debug, Clone, Copy, PartialEq, Eq, Structural)]
pub enum QuestionKind {
    ExecApproval,
    RequestPermissions,
    RequestUserInput,
    Elicitation,
    PatchApproval,
}

#[derive(Debug, Clone, PartialEq, Eq)]
pub enum SessionEvent {
    TaskStarted { event_name: String },
    TaskCompleted { event_name: String },
    ToolCallStarted { event_name: String, call_id: Option<String>, tool_name: String },
    ToolCallCompleted { event_name: String, call_id: Option<String> },
    CodingStarted { event_name: String, call_id: Option<String>, tool_name: String },
    CodingCompleted { event_name: String, call_id: Option<String> },
    QuestionAsked { event_name: String, call_id: Option<String>, kind: QuestionKind },
    TurnAborted { event_name: String },
    MessageDelta { event_name: String },
    Error { event_name: String, message: String },
    TokenCount { event_name: String },
    Unknown { event_name: Option<String> },
}

/// A session event with its texts as character sequences.
pub enum EventView {
    TaskStarted { event_name: Seq<char> },
    TaskCompleted { event_name: Seq<char> },
    ToolCallStarted { event_name: Seq<char>, call_id: Option<Seq<char>>, tool_name: Seq<char> },
    ToolCallCompleted { event_name: Seq<char>, call_id: Option<Seq<char>> },
    CodingStarted { event_name: Seq<char>, call_id: Option<Seq<char>>, tool_name: Seq<char> },
    CodingCompleted { event_name: Seq<char>, call_id: Option<Seq<char>> },
    QuestionAsked { event_name: Seq<char>, call_id: Option<Seq<char>>, kind: QuestionKind },
    TurnAborted { event_name: Seq<char> },
    MessageDelta { event_name: Seq<char> },
    Error { event_name: Seq<char>, message: Seq<char> },
    TokenCount { event_name: Seq<char> },
    Unknown { event_name: Option<Seq<char>> },
}

pub open spec fn opt_view(o: Option<String>) -> Option<Seq<char>> {
    match o {
        Some(s) => Some(s@),
        None => None,
    }
}

impl View for SessionEvent {
    type V = EventView;

    open spec fn view(&self) -> EventView {
        match *self {
            SessionEvent::TaskStarted { event_name } => EventView::TaskStarted { event_name: event_name@ },
            SessionEvent::TaskCompleted { event_name } => EventView::TaskCompleted { event_name: event_name@ },
            SessionEvent::ToolCallStarted { event_name, call_id, tool_name } => EventView::ToolCallStarted {
                event_name: event_name@,
                call_id: opt_view(call_id),
                tool_name: tool_name@,
            },
            SessionEvent::ToolCallCompleted { event_name, call_id } => EventView::ToolCallCompleted {
                event_name: event_name@,
                call_id: opt_view(call_id),
            },
            SessionEvent::CodingStarted { event_name, call_id, tool_name } => EventView::CodingStarted {
                event_name: event_name@,
                call_id: opt_view(call_id),
                tool_name: tool_name@,
            },
            SessionEvent::CodingCompleted { event_name, call_id } => EventView::CodingCompleted {
                event_name: event_name@,
                call_id: opt_view(call_id),
            },
            SessionEvent::QuestionAsked { event_name, call_id, kind } => EventView::QuestionAsked {
                event_name: event_name@,
                call_id: opt_view(call_id),
                kind,
            },
            SessionEvent::TurnAborted { event_name } => EventView::TurnAborted { event_name: event_name@ },
            SessionEvent::MessageDelta { event_name } => EventView::MessageDelta { event_name: event_name@ },
            SessionEvent::Error { event_name, message } => EventView::Error {
                event_name: event_name@,
                message: message@,
            },
            SessionEvent::TokenCount { event_name } => EventView::TokenCount { event_name: event_name@ },
            SessionEvent::Unknown { event_name } => EventView::Unknown { event_name: opt_view(event_name) },
        }
    }
}

impl EventView {
    /// The event name a session event carries (absent only for an unparsed line).
    pub open spec fn name(self) -> Option<Seq<char>> {
        match self {
            EventView::TaskStarted { event_name } => Some(event_name),
            EventView::TaskCompleted { event_name } => Some(event_name),
            EventView::ToolCallStarted { event_name, .. } => Some(event_name),
            EventView::ToolCallCompleted { event_name, .. } => Some(event_name),
            EventView::CodingStarted { event_name, .. } => Some(event_name),
            EventView::CodingCompleted { event_name, .. } => Some(event_name),
            EventView::QuestionAsked { event_name, .. } => Some(event_name),
            EventView::TurnAborted { event_name } => Some(event_name),
            EventView::MessageDelta { event_name } => Some(event_name),
            EventView::Error { event_name, .. } => Some(event_name),
            EventView::TokenCount { event_name } => Some(event_name),
            EventView::Unknown { event_name } => event_name,
        }
    }
}

impl SessionEvent {
    pub fn parsed_type(&self) -> (r: Option<&str>)
        ensures
            r matches Some(s) ==> self@.name() == Some(s@),
            r is None ==> self@.name() is None,
    {
        match self {
            SessionEvent::TaskStarted { event_name }
            | SessionEvent::TaskCompleted { event_name }
            | SessionEvent::ToolCallStarted { event_name, .. }
            | SessionEvent::ToolCallCompleted { event_name, .. }
            | SessionEvent::CodingStarted { event_name, .. }
            | SessionEvent::CodingCompleted { event_name, .. }
            | SessionEvent::QuestionAsked { event_name, .. }
            | SessionEvent::TurnAborted { event_name }
            | SessionEvent::MessageDelta { event_name }
            | SessionEvent::Error { event_name, .. }
            | SessionEvent::TokenCount { event_name } => Some(event_name.as_str()),
            SessionEvent::Unknown { event_name } => match event_name {
                Some(name) => Some(name.as_str()),
                None => None,
            },
        }
    }

    pub fn parse_ok(&self) -> (r: bool)
        ensures
            r == !(self@ is Unknown),
    {
        match self {
            SessionEvent::Unknown { .. } => false,
            _ => true,
        }
    }
}

// ---------------------------------------------------------------------------
// Reading fields of a session line.

/// `v.and_then(|v| v.get(key))`.
pub open spec fn member(v: Option<JsonValue>, key: Seq<char>) -> Option<JsonValue> {
    match v {
        Some(x) => x.field(key),
        None => None,
    }
}

/// `v.and_then(Value::as_str)`.
pub open spec fn text_of(v: Option<JsonValue>) -> Option<Seq<char>> {
    match v {
        Some(x) => x.text(),
        None => None,
    }
}

pub open spec fn or_text(a: Option<Seq<char>>, b: Option<Seq<char>>) -> Option<Seq<char>> {
    if a is Some { a } else { b }
}

pub open spec fn payload(v: JsonValue) -> Option<JsonValue> {
    member(Some(v), "payload"@)
}

pub open spec fn lowered(o: Option<Seq<char>>) -> Option<Seq<char>> {
    match o {
        Some(s) => Some(lower(s)),
        None => None,
    }
}

/// The event name of a line: `payload.type`, else `event`, `type` or `kind`, lower-cased.
pub open spec fn event_name_of(v: JsonValue) -> Seq<char> {
    let found = or_text(
        text_of(member(payload(v), "type"@)),
        or_text(
            text_of(member(Some(v), "event"@)),
            or_text(text_of(member(Some(v), "type"@)), text_of(member(Some(v), "kind"@))),
        ),
    );
    match found {
        Some(name) => lower(name),
        None => Seq::empty(),
    }
}

/// The call id of a line: `payload.call_id`, `call_id`, `payload.id` or `id`.
pub open spec fn call_id_of(v: JsonValue) -> Option<Seq<char>> {
    or_text(
        text_of(member(payload(v), "call_id"@)),
        or_text(
            text_of(member(Some(v), "call_id"@)),
            or_text(text_of(member(payload(v), "id"@)), text_of(member(Some(v), "id"@))),
        ),
    )
}

/// The status of a line: `payload.status` or `status`, lower-cased.
pub open spec fn status_of(v: JsonValue) -> Option<Seq<char>> {
    lowered(or_text(text_of(member(payload(v), "status"@)), text_of(member(Some(v), "status"@))))
}

/// The tool name of a line: `payload.name`, `tool_name` or `tool.name`, else `unknown_tool`.
pub open spec fn tool_name_of(v: JsonValue) -> Seq<char> {
    let found = or_text(
        text_of(member(payload(v), "name"@)),
        or_text(text_of(member(Some(v), "tool_name"@)), text_of(member(member(Some(v), "tool"@), "name"@))),
    );
    match found {
        Some(name) => name,
        None => "unknown_tool"@,
    }
}

/// The texts among array items (`filter_map(Value::as_str)`).
pub open spec fn texts_in(items: Seq<JsonValue>) -> Seq<Seq<char>>
    decreases items.len(),
{
    if items.len() == 0 {
        Seq::empty()
    } else {
        let front = texts_in(items.drop_last());
        match items.last().text() {
            Some(t) => front.push(t),
            None => front,
        }
    }
}

/// A command given as a string, or as an array whose string items are joined with spaces.
pub open spec fn command_value(v: Option<JsonValue>) -> Option<Seq<char>> {
    match v {
        Some(JsonValue::Text(s)) => Some(s@),
        Some(JsonValue::Array(items)) => {
            let tokens = texts_in(items@);
            if tokens.len() == 0 { None } else { Some(join_space(tokens)) }
        },
        _ => None,
    }
}

/// The command a line carries: `payload.command` (or `command`), else
/// `payload.action.command`, else the `command` of the JSON text in `payload.arguments`.
pub open spec fn command_text_of(v: JsonValue) -> Option<Seq<char>> {
    let direct = if member(payload(v), "command"@) is Some {
        member(payload(v), "command"@)
    } else {
        member(Some(v), "command"@)
    };
    let from_arguments = match text_of(member(payload(v), "arguments"@)) {
        Some(arguments) => match json_document(arguments) {
            Some(parsed) => command_value(parsed.field("command"@)),
            None => None,
        },
        None => None,
    };
    or_text(
        command_value(direct),
        or_text(command_value(member(member(payload(v), "action"@), "command"@)), from_arguments),
    )
}

/// Whether a command looks like it changes files.
pub open spec fn looks_mutating(command: Seq<char>) -> bool {
    let n = lower(command);
    let first = first_word(n);
    ||| first == "touch"@
    ||| first == "mkdir"@
    ||| first == "rm"@
    ||| first == "mv"@
    ||| first == "cp"@
    ||| first == "install"@
    ||| first == "truncate"@
    ||| first == "tee"@
    ||| contains(n, "sed -i"@)
    ||| contains(n, "perl -pi"@)
    ||| contains(n, ">>"@)
    ||| contains(n, " >"@)
    ||| starts_with(n, ">"@)
    ||| contains(n, ".write("@)
    ||| contains(n, "writefile"@)
    ||| contains(n, "write_file"@)
    ||| contains(n, "write_text"@)
    ||| contains(n, "fs.write"@)
}

/// The command of a line is present and looks like it changes files.
pub open spec fn is_coding_command(v: JsonValue) -> bool {
    match command_text_of(v) {
        Some(c) => looks_mutating(c),
        None => false,
    }
}

/// The error message of a line: `payload.message`, `message` or `error.message`,
/// else `unknown error`.
pub open spec fn error_message_of(v: JsonValue) -> Seq<char> {
    let found = or_text(
        text_of(member(payload(v), "message"@)),
        or_text(text_of(member(Some(v), "message"@)), text_of(member(member(Some(v), "error"@), "message"@))),
    );
    match found {
        Some(m) => m,
        None => "unknown error"@,
    }
}

/// The line has an `error` member, at the top or in its payload.
pub open spec fn has_error_member(v: JsonValue) -> bool {
    member(Some(v), "error"@) is Some || member(payload(v), "error"@) is Some
}

pub open spec fn question_kind_of(name: Seq<char>) -> QuestionKind {
    if name == "exec_approval_request"@ {
        QuestionKind::ExecApproval
    } else if name == "request_permissions"@ {
        QuestionKind::RequestPermissions
    } else if name == "request_user_input"@ {
        QuestionKind::RequestUserInput
    } else if name == "elicitation_request"@ {
        QuestionKind::Elicitation
    } else {
        QuestionKind::PatchApproval
    }
}

pub open spec fn is_question_name(name: Seq<char>) -> bool {
    ||| name == "exec_approval_request"@
    ||| name == "request_permissions"@
    ||| name == "request_user_input"@
    ||| name == "elicitation_request"@
    ||| name == "apply_patch_approval_request"@
}

/// The session event that a parsed line stands for.
pub open spec fn classify_value(v: JsonValue) -> EventView {
    let name = event_name_of(v);
    let call_id = call_id_of(v);
    if name == "task_started"@ || name == "turn_started"@ {
        EventView::TaskStarted { event_name: name }
    } else if name == "task_complete"@ || name == "turn_complete"@ {
        EventView::TaskCompleted { event_name: name }
    } else if name == "turn_aborted"@ {
        EventView::TurnAborted { event_name: name }
    } else if is_question_name(name) {
        EventView::QuestionAsked { event_name: name, call_id, kind: question_kind_of(name) }
    } else if name == "patch_apply_begin"@ {
        EventView::CodingStarted { event_name: name, call_id, tool_name: "apply_patch"@ }
    } else if name == "patch_apply_end"@ {
        EventView::CodingCompleted { event_name: name, call_id }
    } else if name == "exec_command_begin"@ {
        if is_coding_command(v) {
            EventView::CodingStarted { event_name: name, call_id, tool_name: "exec_command"@ }
        } else {
            EventView::ToolCallStarted { event_name: name, call_id, tool_name: "exec_command"@ }
        }
    } else if name == "exec_command_end"@ {
        EventView::ToolCallCompleted { event_name: name, call_id }
    } else if name == "web_search_begin"@ {
        EventView::ToolCallStarted { event_name: name, call_id, tool_name: "web_search"@ }
    } else if name == "web_search_end"@ {
        EventView::ToolCallCompleted { event_name: name, call_id }
    } else if name == "function_call"@ {
        if is_coding_command(v) {
            EventView::CodingStarted { event_name: name, call_id, tool_name: tool_name_of(v) }
        } else {
            EventView::ToolCallStarted { event_name: name, call_id, tool_name: tool_name_of(v) }
        }
    } else if name == "custom_tool_call"@ {
        if tool_name_of(v) == "apply_patch"@ {
            EventView::CodingStarted { event_name: name, call_id, tool_name: tool_name_of(v) }
        } else {
            EventView::ToolCallStarted { event_name: name, call_id, tool_name: tool_name_of(v) }
        }
    } else if name == "local_shell_call"@ {
        let complete = match status_of(v) {
            Some(s) => s == "completed"@ || s == "incomplete"@,
            None => false,
        };
        if complete {
            if is_coding_command(v) {
                EventView::CodingCompleted { event_name: name, call_id }
            } else {
                EventView::ToolCallCompleted { event_name: name, call_id }
            }
        } else if is_coding_command(v) {
            EventView::CodingStarted { event_name: name, call_id, tool_name: "local_shell_call"@ }
        } else {
            EventView::ToolCallStarted { event_name: name, call_id, tool_name: "local_shell_call"@ }
        }
    } else if name == "function_call_output"@ || name == "custom_tool_call_output"@ {
        EventView::ToolCallCompleted { event_name: name, call_id }
    } else if name == "agent_message"@ || name == "reasoning"@ || name == "message"@ || name
        == "output_text"@ || name == "user_message"@ {
        EventView::MessageDelta { event_name: name }
    } else if name == "token_count"@ {
        EventView::TokenCount { event_name: name }
    } else if contains(name, "error"@) || has_error_member(v) {
        EventView::Error { event_name: name, message: error_message_of(v) }
    } else {
        EventView::Unknown { event_name: Some(name) }
    }
}

/// The session event a line of a session log stands for.
pub open spec fn event_of_line(line: Seq<char>) -> EventView {
    match json_document(line) {
        Some(v) => classify_value(v),
        None => EventView::Unknown { event_name: None },
    }
}


pub open spec fn deref_opt(o: Option<&JsonValue>) -> Option<JsonValue> {
    match o {
        Some(x) => Some(*x),
        None => None,
    }
}

pub open spec fn ref_text(o: Option<&String>) -> Option<Seq<char>> {
    match o {
        Some(s) => Some(s@),
        None => None,
    }
}

fn member_of<'a>(v: Option<&'a JsonValue>, key: &str) -> (r: Option<&'a JsonValue>)
    ensures
        deref_opt(r) == member(deref_opt(v), key@),
{
    match v {
        Some(x) => x.get(key),
        None => None,
    }
}

fn text_in<'a>(v: Option<&'a JsonValue>) -> (r: Option<&'a String>)
    ensures
        ref_text(r) == text_of(deref_opt(v)),
{
    match v {
        Some(x) => x.as_text(),
        None => None,
    }
}

fn owned(s: Option<&String>) -> (r: Option<String>)
    ensures
        opt_view(r) == ref_text(s),
{
    match s {
        Some(t) => Some(t.clone()),
        None => None,
    }
}

fn read_event_name(value: &JsonValue) -> (r: String)
    ensures
        r@ == event_name_of(*value),
{
    let payload = member_of(Some(value), "payload");
    if let Some(name) = text_in(member_of(payload, "type")) {
        return ascii_lowercase(name.as_str());
    }
    if let Some(name) = text_in(member_of(Some(value), "event")) {
        return ascii_lowercase(name.as_str());
    }
    if let Some(name) = text_in(member_of(Some(value), "type")) {
        return ascii_lowercase(name.as_str());
    }
    if let Some(name) = text_in(member_of(Some(value), "kind")) {
        return ascii_lowercase(name.as_str());
    }
    String::new()
}

fn read_call_id(value: &JsonValue) -> (r: Option<String>)
    ensures
        opt_view(r) == call_id_of(*value),
{
    let payload = member_of(Some(value), "payload");
    let found = text_in(member_of(payload, "call_id"));
    if found.is_some() {
        return owned(found);
    }
    let found = text_in(member_of(Some(value), "call_id"));
    if found.is_some() {
        return owned(found);
    }
    let found = text_in(member_of(payload, "id"));
    if found.is_some() {
        return owned(found);
    }
    owned(text_in(member_of(Some(value), "id")))
}

fn read_status(value: &JsonValue) -> (r: Option<String>)
    ensures
        opt_view(r) == status_of(*value),
{
    let payload = member_of(Some(value), "payload");
    if let Some(status) = text_in(member_of(payload, "status")) {
        return Some(ascii_lowercase(status.as_str()));
    }
    if let Some(status) = text_in(member_of(Some(value), "status")) {
        return Some(ascii_lowercase(status.as_str()));
    }
    None
}

fn read_tool_name(value: &JsonValue) -> (r: String)
    ensures
        r@ == tool_name_of(*value),
{
    let payload = member_of(Some(value), "payload");
    if let Some(name) = text_in(member_of(payload, "name")) {
        return name.clone();
    }
    if let Some(name) = text_in(member_of(Some(value), "tool_name")) {
        return name.clone();
    }
    if let Some(name) = text_in(member_of(member_of(Some(value), "tool"), "name")) {
        return name.clone();
    }
    "unknown_tool".to_owned()
}

fn read_command_value(value: Option<&JsonValue>) -> (r: Option<String>)
    ensures
        opt_view(r) == command_value(deref_opt(value)),
{
    match value {
        Some(JsonValue::Text(command)) => Some(command.clone()),
        Some(JsonValue::Array(parts)) => {
            let mut tokens: Vec<String> = Vec::new();
            let mut i: usize = 0;
            while i < parts.len()
                invariant
                    i <= parts.len(),
                    views(tokens@) == texts_in(parts@.take(i as int)),
                decreases parts.len() - i,
            {
                proof {
                    assert(parts@.take(i + 1).drop_last() == parts@.take(i as int));
                    assert(parts@.take(i + 1).last() == parts@[i as int]);
                }
                if let Some(token) = parts[i].as_text() {
                    tokens.push(token.clone());
                    proof {
                        assert(views(tokens@) == views(tokens@.drop_last()).push(token@));
                    }
                }
                i += 1;
            }
            proof {
                assert(parts@.take(parts@.len() as int) == parts@);
            }
            if tokens.len() == 0 {
                None
            } else {
                Some(join_with_space(&tokens))
            }
        },
        _ => None,
    }
}

fn read_command_text(value: &JsonValue) -> (r: Option<String>)
    ensures
        opt_view(r) == command_text_of(*value),
{
    let payload = member_of(Some(value), "payload");
    let nested = member_of(payload, "command");
    let direct = if nested.is_some() {
        nested
    } else {
        member_of(Some(value), "command")
    };
    let first = read_command_value(direct);
    if first.is_some() {
        return first;
    }
    let second = read_command_value(member_of(member_of(payload, "action"), "command"));
    if second.is_some() {
        return second;
    }
    let arguments = match text_in(member_of(payload, "arguments")) {
        Some(arguments) => arguments,
        None => return None,
    };
    let parsed = match parse_json(arguments.as_str()) {
        Some(parsed) => parsed,
        None => return None,
    };
    read_command_value(parsed.get("command"))
}

/// Whether a shell command looks like it writes to the workspace.
pub fn command_looks_mutating(command: &str) -> (r: bool)
    ensures
        r == looks_mutating(command@),
{
    let normalized = ascii_lowercase(command);
    let letters = chars_of(normalized.as_str());
    let first_chars = first_word_of(letters.as_slice());
    let first = string_of(first_chars.as_slice());
    let f = first.as_str();
    if str_eq(f, "touch") || str_eq(f, "mkdir") || str_eq(f, "rm") || str_eq(f, "mv") || str_eq(f, "cp")
        || str_eq(f, "install") || str_eq(f, "truncate") || str_eq(f, "tee") {
        return true;
    }
    let n = normalized.as_str();
    if str_contains(n, "sed -i") || str_contains(n, "perl -pi") || str_contains(n, ">>")
        || str_contains(n, " >") || str_starts_with(n, ">") || str_contains(n, ".write(")
        || str_contains(n, "writefile") || str_contains(n, "write_file")
        || str_contains(n, "write_text") || str_contains(n, "fs.write") {
        return true;
    }
    false
}

fn read_is_coding_command(value: &JsonValue) -> (r: bool)
    ensures
        r == is_coding_command(*value),
{
    match read_command_text(value) {
        Some(command) => command_looks_mutating(command.as_str()),
        None => false,
    }
}

/// The kind of question that an approval or input request stands for.
pub fn classify_question_kind(event_name: &str) -> (r: QuestionKind)
    requires
        is_question_name(event_name@),
    ensures
        r == question_kind_of(event_name@),
{
    if str_eq(event_name, "exec_approval_request") {
        QuestionKind::ExecApproval
    } else if str_eq(event_name, "request_permissions") {
        QuestionKind::RequestPermissions
    } else if str_eq(event_name, "request_user_input") {
        QuestionKind::RequestUserInput
    } else if str_eq(event_name, "elicitation_request") {
        QuestionKind::Elicitation
    } else {
        QuestionKind::PatchApproval
    }
}

fn read_error_message(value: &JsonValue) -> (r: String)
    ensures
        r@ == error_message_of(*value),
{
    let payload = member_of(Some(value), "payload");
    if let Some(message) = text_in(member_of(payload, "message")) {
        return message.clone();
    }
    if let Some(message) = text_in(member_of(Some(value), "message")) {
        return message.clone();
    }
    if let Some(message) = text_in(member_of(member_of(Some(value), "error"), "message")) {
        return message.clone();
    }
    "unknown error".to_owned()
}

fn has_error(value: &JsonValue) -> (r: bool)
    ensures
        r == has_error_member(*value),
{
    member_of(Some(value), "error").is_some() || member_of(member_of(Some(value), "payload"), "error").is_some()
}

fn is_question_event(name: &str) -> (r: bool)
    ensures
        r == is_question_name(name@),
{
    str_eq(name, "exec_approval_request") || str_eq(name, "request_permissions")
        || str_eq(name, "request_user_input") || str_eq(name, "elicitation_request")
        || str_eq(name, "apply_patch_approval_request")
}

/// The session event that a parsed line stands for.
pub fn classify_session_value(value: &JsonValue) -> (r: SessionEvent)
    ensures
        r@ == classify_value(*value),
{
    let event_name = read_event_name(value);
    let call_id = read_call_id(value);
    let name = event_name.as_str();
    if str_eq(name, "task_started") || str_eq(name, "turn_started") {
        return SessionEvent::TaskStarted { event_name };
    }
    if str_eq(name, "task_complete") || str_eq(name, "turn_complete") {
        return SessionEvent::TaskCompleted { event_name };
    }
    if str_eq(name, "turn_aborted") {
        return SessionEvent::TurnAborted { event_name };
    }
    if is_question_event(name) {
        let kind = classify_question_kind(name);
        return SessionEvent::QuestionAsked { kind, event_name, call_id };
    }
    if str_eq(name, "patch_apply_begin") {
        return SessionEvent::CodingStarted { event_name, call_id, tool_name: "apply_patch".to_owned() };
    }
    if str_eq(name, "patch_apply_end") {
        return SessionEvent::CodingCompleted { event_name, call_id };
    }
    if str_eq(name, "exec_command_begin") {
        if read_is_coding_command(value) {
            return SessionEvent::CodingStarted { event_name, call_id, tool_name: "exec_command".to_owned() };
        }
        return SessionEvent::ToolCallStarted { event_name, call_id, tool_name: "exec_command".to_owned() };
    }
    if str_eq(name, "exec_command_end") {
        return SessionEvent::ToolCallCompleted { event_name, call_id };
    }
    if str_eq(name, "web_search_begin") {
        return SessionEvent::ToolCallStarted { event_name, call_id, tool_name: "web_search".to_owned() };
    }
    if str_eq(name, "web_search_end") {
        return SessionEvent::ToolCallCompleted { event_name, call_id };
    }
    if str_eq(name, "function_call") {
        let tool_name = read_tool_name(value);
        if read_is_coding_command(value) {
            return SessionEvent::CodingStarted { event_name, call_id, tool_name };
        }
        return SessionEvent::ToolCallStarted { event_name, call_id, tool_name };
    }
    if str_eq(name, "custom_tool_call") {
        let tool_name = read_tool_name(value);
        if str_eq(tool_name.as_str(), "apply_patch") {
            return SessionEvent::CodingStarted { event_name, call_id, tool_name };
        }
        return SessionEvent::ToolCallStarted { event_name, call_id, tool_name };
    }
    if str_eq(name, "local_shell_call") {
        let is_coding = read_is_coding_command(value);
        let is_complete = match read_status(value) {
            Some(status) => str_eq(status.as_str(), "completed") || str_eq(status.as_str(), "incomplete"),
            None => false,
        };
        if is_complete {
            if is_coding {
                return SessionEvent::CodingCompleted { event_name, call_id };
            }
            return SessionEvent::ToolCallCompleted { event_name, call_id };
        }
        if is_coding {
            return SessionEvent::CodingStarted { event_name, call_id, tool_name: "local_shell_call".to_owned() };
        }
        return SessionEvent::ToolCallStarted { event_name, call_id, tool_name: "local_shell_call".to_owned() };
    }
    if str_eq(name, "function_call_output") || str_eq(name, "custom_tool_call_output") {
        return SessionEvent::ToolCallCompleted { event_name, call_id };
    }
    if str_eq(name, "agent_message") || str_eq(name, "reasoning") || str_eq(name, "message")
        || str_eq(name, "output_text") || str_eq(name, "user_message") {
        return SessionEvent::MessageDelta { event_name };
    }
    if str_eq(name, "token_count") {
        return SessionEvent::TokenCount { event_name };
    }
    if str_contains(name, "error") || has_error(value) {
        let message = read_error_message(value);
        return SessionEvent::Error { event_name, message };
    }
    SessionEvent::Unknown { event_name: Some(event_name) }
}

/// Parses one line of a Codex session log into a session event; a line that is
/// not JSON is an unknown event without a name.
pub fn parse_session_line(line: &str) -> (r: SessionEvent)
    ensures
        r@ == event_of_line(line@),
{
    match parse_json(line) {
        Some(value) => classify_session_value(&value),
        None => SessionEvent::Unknown { event_name: None },
    }
}

} // verus!
