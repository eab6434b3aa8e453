# waifudex

Waifudex is a desktop mascot that shows what the Codex agent is doing. This crate is
its core, written in Verus: the functions in `src/` carry contracts that Verus proves,
except the small wrappers listed below, whose contracts Verus believes.

## Trusted wrappers

Each is marked `#[verifier::external_body]` and makes one call into std or an outside
crate; its doc comment says what its contract claims.

- `src/clock.rs`: `instant_now`, `duration_since`, `duration_nanos` (std time),
  `utc_now`, `format_rfc3339` (the `time` crate).
- `src/codex/backend/command_runner.rs`: `decode_utf16`, `decode_utf8_lossy` (std string
  decoding).
- `src/codex/backend/mod.rs`: `io_error_other`, `io_error_invalid_input` (std errors).
- `src/codex/backend/wsl_command.rs`: `path_order` (std path order).
- `src/codex/liveness.rs`: `system_new`, `refresh_all_processes`, `process_names`
  (the process table of `sysinfo`).
- `src/json.rs`: `json_from_serde`, `parse_json`; `src/param_bridge.rs`:
  `unexpected_eof`, `parse_json_slice` (`serde_json` and std errors).
- `src/text.rs`: `push_char` (std `String::push`).

The outside types these pass around (`Instant`, `OffsetDateTime`, `io::Error`,
`sysinfo::System`, `serde_json::Value`, `serde_json::Error`) are declared opaque.

## Layout

- `src/codex/` — reading Codex session logs and turning them into a status:
  - `parser.rs` classifies one log line (a JSON object) as a session event;
  - `reducer.rs` folds events into the status shown (thinking, coding, question, …);
  - `session_reader.rs` keeps the unterminated tail of a log between reads;
  - `discovery.rs` picks the log to follow under a sessions root;
  - `backend/` reads logs from the local file system or from a WSL distribution
    through `wsl.exe`;
  - `liveness.rs` tells whether a Codex process runs;
  - `monitor.rs` polls a backend, decides which snapshots and timeline lines are
    sent, and numbers them.
- `src/app_update.rs`, `src/window.rs`, `src/settings_flow.rs` — the state machines of
  update checks, of the character window's visibility and of a settings update with
  its undo steps.
- `src/mascot_window.rs`, `src/app_settings.rs` — monitor choice and window placement.
- `src/render.rs`, `src/param_bridge.rs` — the frame buffer of the software renderer
  and the reading of INP puppet files.
- `src/laws.rs` — properties that span several operations, stated and proved.
- `src/text.rs`, `src/lines.rs`, `src/numbers.rs`, `src/order.rs`, `src/table.rs`,
  `src/json.rs` — the text, number and table helpers the rest is built on.
- `app/` — the runtime around the library: processes, files, the environment, threads,
  serialisation and the floating-point animation of the mascot.
- `tests/` — tests of the library on concrete values.
