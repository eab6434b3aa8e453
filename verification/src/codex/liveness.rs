use vstd::prelude::*;

use crate::codex::backend::command_runner::{CommandOutput, CommandRunner};
use crate::codex::backend::wsl_command::{one_more_run, wsl_sh, RecordingRunner, RunRecord};
use crate::json::str_eq;
use crate::lines::{shell_quote, shell_quoted, split_once, split_once_char};
use crate::text::{ascii_lowercase, contains, lower, str_contains, trim, trim_str, views};

verus! {

#[derive(Debug, Clone, Copy, PartialEq, Eq, Structural)]
pub struct LivenessSnapshot {
    pub has_live_process: bool,
}

impl LivenessSnapshot {
    pub fn online() -> (r: Self)
        ensures
            r.has_live_process,
    {
        LivenessSnapshot { has_live_process: true }
    }

    pub fn offline() -> (r: Self)
        ensures
            !r.has_live_process,
    {
        LivenessSnapshot { has_live_process: false }
    }
}

#[verifier::external_type_specification]
#[verifier::external_body]
pub struct ExSystem(sysinfo::System);

/// `sysinfo::System::new()`: an empty process table.
#[verifier::external_body]
fn system_new() -> sysinfo::System {
    sysinfo::System::new()
}

/// `System::refresh_processes(ProcessesToUpdate::All, false)`; nothing is claimed of what it finds.
#[verifier::external_body]
fn refresh_all_processes(system: &mut sysinfo::System) {
    system.refresh_processes(sysinfo::ProcessesToUpdate::All, false);
}

/// The names of the processes in the table (`Process::name`, lossily as UTF-8); nothing is
/// claimed of them.
#[verifier::external_body]
fn process_names(system: &sysinfo::System) -> Vec<String> {
    system.processes().values().map(|process| process.name().to_string_lossy().into_owned()).collect()
}

/// Some process name contains the hint, both compared in ASCII lower case.
pub open spec fn names_match(names: Seq<Seq<char>>, hint: Seq<char>) -> bool {
    exists|i: int| 0 <= i < names.len() && contains(lower(#[trigger] names[i]), lower(hint))
}

/// Whether any of the process names contains the hint, ignoring ASCII case.
pub fn liveness_from_process_names(names: &Vec<String>, process_hint: &str) -> (r: LivenessSnapshot)
    ensures
        r.has_live_process == names_match(views(names@), process_hint@),
{
    let hint = ascii_lowercase(process_hint);
    let mut i: usize = 0;
    while i < names.len()
        invariant
            i <= names.len(),
            hint@ == lower(process_hint@),
            forall|j: int| 0 <= j < i ==> !contains(lower(#[trigger] views(names@)[j]), lower(process_hint@)),
        decreases names.len() - i,
    {
        let name = ascii_lowercase(names[i].as_str());
        if str_contains(name.as_str(), hint.as_str()) {
            proof {
                assert(views(names@)[i as int] == names@[i as int]@);
            }
            return LivenessSnapshot { has_live_process: true };
        }
        i += 1;
    }
    LivenessSnapshot { has_live_process: false }
}

/// What the `ps | awk` probe printed: `live` means a matching process runs in the distribution.
pub open spec fn wsl_liveness(success: bool, stdout: Seq<char>) -> Option<bool> {
    if success { Some(trim(stdout) == "live"@) } else { None }
}

pub fn liveness_from_wsl_output(output: &CommandOutput) -> (r: Option<LivenessSnapshot>)
    ensures
        r matches Some(s) ==> wsl_liveness(output.success, output.stdout@) == Some(s.has_live_process),
        r is None ==> wsl_liveness(output.success, output.stdout@) is None,
{
    if !output.success {
        return None;
    }
    Some(LivenessSnapshot { has_live_process: str_eq(trim_str(output.stdout.as_str()).as_str(), "live") })
}

/// The distribution of a `distro:path` display, when both parts are non-empty.
pub open spec fn distro_of_display(display: Seq<char>) -> Option<Seq<char>> {
    match split_once(display, ':') {
        Some((distro, path)) => if distro.len() == 0 || path.len() == 0 { None } else { Some(distro) },
        None => None,
    }
}

pub fn wsl_distro_from_sessions_root_display(sessions_root_display: &str) -> (r: Option<String>)
    ensures
        crate::codex::parser::opt_view(r) == distro_of_display(sessions_root_display@),
{
    let (distro, path) = match split_once_char(sessions_root_display, ':') {
        Some(parts) => parts,
        None => return None,
    };
    if distro.as_str().is_empty() || path.as_str().is_empty() {
        return None;
    }
    Some(distro)
}

/// The probe that runs in a WSL distribution: prints `live` when a process whose command
/// line contains the hint runs, `idle` otherwise.
pub open spec fn probe_command(hint: Seq<char>) -> Seq<char> {
    "ps -eo comm=,args= | awk 'BEGIN { target = tolower(target) } index(tolower($0), target) { found = 1 } END { if (found) print \"live\"; else print \"idle\"; }' target="@
        + shell_quoted(hint)
}

fn probe_command_text(hint: &str) -> (r: String)
    ensures
        r@ == probe_command(hint@),
{
    let mut command = "ps -eo comm=,args= | awk 'BEGIN { target = tolower(target) } index(tolower($0), target) { found = 1 } END { if (found) print \"live\"; else print \"idle\"; }' target=".to_owned();
    command.append(shell_quote(hint).as_str());
    command
}

/// Finds out whether a Codex process runs, locally or inside the WSL distribution that holds
/// the sessions.
pub struct LivenessProbe<R: CommandRunner> {
    process_hint: String,
    wsl_runner: RecordingRunner<R>,
}

/// The probe goes to WSL: the backend is a WSL one whose display names a distribution.
pub open spec fn probes_wsl(backend_kind: Seq<char>, display: Seq<char>) -> bool {
    backend_kind == "wsl_command"@ && distro_of_display(display) is Some
}

/// What the probe printed: an answer when it ran and succeeded.
pub open spec fn probe_answer(output: Option<CommandOutput>) -> Option<bool> {
    match output {
        Some(o) => wsl_liveness(o.success, o.stdout@),
        None => None,
    }
}

/// What the probe printed, when it was sent: the last call made.
pub open spec fn probed_output(backend_kind: Seq<char>, display: Seq<char>, runs: Seq<RunRecord>) -> Option<CommandOutput> {
    if probes_wsl(backend_kind, display) { runs.last().output } else { None }
}

impl<R: CommandRunner> LivenessProbe<R> {
    pub closed spec fn hint(&self) -> Seq<char> {
        self.process_hint@
    }

    /// The calls of `wsl.exe` this probe made, in order, with what each gave back.
    pub closed spec fn runs(&self) -> Seq<RunRecord> {
        self.wsl_runner.runs()
    }

    pub fn with_runner(process_hint: String, wsl_runner: R) -> (r: Self)
        ensures
            r.hint() == process_hint@,
            r.runs() == Seq::<RunRecord>::empty(),
    {
        LivenessProbe { process_hint, wsl_runner: RecordingRunner::new(wsl_runner) }
    }

    /// Whether a process of the hint runs: asked inside the distribution for the WSL
    /// backend when that answers, else of the local process table.
    pub fn snapshot(&mut self, backend_kind: &str, sessions_root_display: &str) -> (r: LivenessSnapshot)
        ensures
            final(self).hint() == old(self).hint(),
            !probes_wsl(backend_kind@, sessions_root_display@) ==> final(self).runs() == old(self).runs(),
            probes_wsl(backend_kind@, sessions_root_display@) ==> one_more_run(old(self).runs(), final(self).runs(),
                wsl_sh(distro_of_display(sessions_root_display@)->0, probe_command(old(self).hint()))),
            probes_wsl(backend_kind@, sessions_root_display@) && probe_answer(final(self).runs().last().output) is Some
                ==> r.has_live_process == probe_answer(final(self).runs().last().output)->0,
            exists|names: Seq<Seq<char>>| #[trigger] combined_liveness(backend_kind@, sessions_root_display@,
                probed_output(backend_kind@, sessions_root_display@, final(self).runs()), names, old(self).hint())
                == r.has_live_process,
    {
        let ghost before = self.runs();
        let wsl = if str_eq(backend_kind, "wsl_command") {
            match wsl_distro_from_sessions_root_display(sessions_root_display) {
                Some(distro) => {
                    let output = self.probe_wsl(distro.as_str());
                    assert(self.runs().drop_last() =~= before);
                    output
                },
                None => None,
            }
        } else {
            None
        };
        let answered = match &wsl {
            Some(output) => output.success,
            None => false,
        };
        let names = if answered { Vec::new() } else { local_process_names() };
        let r = combine_liveness(backend_kind, sessions_root_display, wsl, &names, self.process_hint.as_str());
        assert(combined_liveness(backend_kind@, sessions_root_display@, wsl, views(names@), old(self).hint())
            == r.has_live_process);
        r
    }

    /// Looks for the hint among the names of the local processes.
    pub fn snapshot_local(&self) -> (r: LivenessSnapshot)
        ensures
            exists|names: Seq<Seq<char>>| #[trigger] names_match(names, self.hint()) == r.has_live_process,
    {
        let names = local_process_names();
        let r = liveness_from_process_names(&names, self.process_hint.as_str());
        assert(names_match(views(names@), self.hint()) == r.has_live_process);
        r
    }

    /// Runs the probe inside the distribution: `wsl.exe -d {distro} -- sh -lc {probe}`;
    /// `None` when `wsl.exe` could not be run.
    fn probe_wsl(&mut self, distro: &str) -> (r: Option<CommandOutput>)
        ensures
            final(self).hint() == old(self).hint(),
            final(self).runs() == old(self).runs().push(RunRecord {
                args: wsl_sh(distro@, probe_command(old(self).hint())),
                output: r,
            }),
    {
        let command = probe_command_text(self.process_hint.as_str());
        match self.wsl_runner.run_sh(distro, command.as_str()) {
            Ok(output) => Some(output),
            Err(_) => None,
        }
    }

    /// Runs the probe inside the distribution; `None` when `wsl.exe` fails or the probe
    /// did not succeed.
    pub fn snapshot_wsl(&mut self, distro: &str) -> (r: Option<LivenessSnapshot>)
        ensures
            final(self).hint() == old(self).hint(),
            one_more_run(old(self).runs(), final(self).runs(), wsl_sh(distro@, probe_command(old(self).hint()))),
            match probe_answer(final(self).runs().last().output) {
                Some(live) => r == Some(LivenessSnapshot { has_live_process: live }),
                None => r is None,
            },
    {
        let ghost before = self.runs();
        let output = self.probe_wsl(distro);
        assert(self.runs().drop_last() =~= before);
        let output = match output {
            Some(output) => output,
            None => return None,
        };
        liveness_from_wsl_output(&output)
    }
}

/// The names of the processes in the local process table.
fn local_process_names() -> Vec<String> {
    let mut system = system_new();
    refresh_all_processes(&mut system);
    process_names(&system)
}

/// The liveness answer: the probe's, when the backend is a WSL one whose display names a
/// distribution and the probe ran and succeeded; else whether a local process name
/// contains the hint.
pub open spec fn combined_liveness(backend_kind: Seq<char>, display: Seq<char>, wsl: Option<CommandOutput>,
    names: Seq<Seq<char>>, hint: Seq<char>) -> bool
{
    if backend_kind == "wsl_command"@ && distro_of_display(display) is Some && wsl is Some && wsl->0.success {
        trim(wsl->0.stdout@) == "live"@
    } else {
        names_match(names, hint)
    }
}

/// Decides liveness from the probe's output (if it ran) and the local process names.
pub fn combine_liveness(backend_kind: &str, sessions_root_display: &str, wsl: Option<CommandOutput>,
    names: &Vec<String>, process_hint: &str) -> (r: LivenessSnapshot)
    ensures
        r.has_live_process == combined_liveness(backend_kind@, sessions_root_display@, wsl, views(names@), process_hint@),
{
    if str_eq(backend_kind, "wsl_command") && wsl_distro_from_sessions_root_display(sessions_root_display).is_some() {
        if let Some(output) = &wsl {
            if let Some(snapshot) = liveness_from_wsl_output(output) {
                return snapshot;
            }
        }
    }
    liveness_from_process_names(names, process_hint)
}

} // verus!
