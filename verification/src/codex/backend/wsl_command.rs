use vstd::prelude::*;

use crate::codex::backend::command_runner::{CommandOutput, CommandRunner};
use crate::codex::backend::{io_error_invalid_input, io_error_other, SessionBackend, SessionCandidate};
use crate::codex::parser::opt_view;
use crate::codex::session_reader::{buffered_lines, take_complete_lines};
use crate::json::str_eq;
use crate::lines::{
    after_last, after_last_char, lines, parse_lines, shell_quote, shell_quoted, split_lines, split_once,
    split_once_char, split_three_fields, three_fields, nonblank_trimmed,
};
use crate::numbers::{parse_seconds_nanos, parse_u64, seconds_text_nanos, u64_text};
use crate::order::{lemma_text_less_irreflexive, lemma_text_less_total, lemma_text_less_transitive, str_less, text_less};
use crate::table::KeyedTable;
use crate::text::{clone_opt, decimal, trim, trim_str, u64_to_decimal, views};

verus! {

/// A WSL distribution whose home directory holds a Codex sessions root.
#[derive(Debug, Clone, PartialEq, Eq)]
pub struct RootCandidate {
    pub distro: String,
    pub user_name: String,
    pub sessions_root: String,
}

/// Reads Codex session logs inside a WSL distribution through `wsl.exe`.
pub struct WslCommandBackend<R: CommandRunner> {
    runner: RecordingRunner<R>,
    sessions_root_display: String,
    sessions_root_available: bool,
    distro: Option<String>,
    sessions_root: Option<String>,
    previous_sizes: KeyedTable<u64>,
    active_key: Option<String>,
    offset: u64,
    pending: String,
}

/// `runner.run(args)`.
pub fn run_wsl<R: CommandRunner>(runner: &mut R, args: &[&str]) -> std::io::Result<CommandOutput> {
    runner.run(args)
}

/// One call of `wsl.exe`: its arguments and what came back (`None` when it could not be run).
pub struct RunRecord {
    pub args: Seq<Seq<char>>,
    pub output: Option<CommandOutput>,
}

pub open spec fn ok_output(r: std::io::Result<CommandOutput>) -> Option<CommandOutput> {
    match r {
        Ok(output) => Some(output),
        Err(_) => None,
    }
}

pub open spec fn arg_views(args: Seq<&str>) -> Seq<Seq<char>> {
    args.map_values(|a: &str| a@)
}

/// `wsl.exe -d {distro} -- sh -lc {command}`: a shell command run in a distribution.
pub open spec fn wsl_sh(distro: Seq<char>, command: Seq<char>) -> Seq<Seq<char>> {
    seq!["-d"@, distro, "--"@, "sh"@, "-lc"@, command]
}

/// A command runner together with the calls made through it, in order.
pub struct RecordingRunner<R: CommandRunner> {
    runner: R,
    runs: Ghost<Seq<RunRecord>>,
}

impl<R: CommandRunner> RecordingRunner<R> {
    /// The calls made so far and what each gave back.
    pub closed spec fn runs(&self) -> Seq<RunRecord> {
        self.runs@
    }

    pub fn new(runner: R) -> (r: Self)
        ensures
            r.runs() == Seq::<RunRecord>::empty(),
    {
        RecordingRunner { runner, runs: Ghost(Seq::empty()) }
    }

    /// Runs `wsl.exe` with `args`.
    pub fn run(&mut self, args: &[&str]) -> (r: std::io::Result<CommandOutput>)
        ensures
            final(self).runs() == old(self).runs().push(RunRecord { args: arg_views(args@), output: ok_output(r) }),
    {
        let r = run_wsl(&mut self.runner, args);
        self.runs = Ghost(self.runs@.push(RunRecord { args: arg_views(args@), output: ok_output(r) }));
        r
    }

    /// Runs `command` with `sh -lc` in `distro`.
    pub fn run_sh(&mut self, distro: &str, command: &str) -> (r: std::io::Result<CommandOutput>)
        ensures
            final(self).runs() == old(self).runs().push(RunRecord { args: wsl_sh(distro@, command@), output: ok_output(r) }),
    {
        let args: [&str; 6] = ["-d", distro, "--", "sh", "-lc", command];
        let r = self.run(&args);
        assert(arg_views(args@) =~= wsl_sh(distro@, command@));
        r
    }
}

/// The user is the preferred one.
pub open spec fn is_preferred(preferred: Option<Seq<char>>, user: Seq<char>) -> bool {
    preferred == Some(user)
}

/// `a` sorts before `b`: a preferred user first, then by distribution, then by user name.
pub open spec fn root_before(a: RootCandidate, b: RootCandidate, preferred: Option<Seq<char>>) -> bool {
    let pa = is_preferred(preferred, a.user_name@);
    let pb = is_preferred(preferred, b.user_name@);
    ||| pa && !pb
    ||| pa == pb && text_less(a.distro@, b.distro@)
    ||| pa == pb && a.distro@ == b.distro@ && text_less(a.user_name@, b.user_name@)
}

proof fn lemma_root_before_transitive(a: RootCandidate, b: RootCandidate, c: RootCandidate, p: Option<Seq<char>>)
    requires
        root_before(a, b, p),
        root_before(b, c, p),
    ensures
        root_before(a, c, p),
{
    if text_less(a.distro@, b.distro@) && text_less(b.distro@, c.distro@) {
        lemma_text_less_transitive(a.distro@, b.distro@, c.distro@);
    }
    if text_less(a.user_name@, b.user_name@) && text_less(b.user_name@, c.user_name@) {
        lemma_text_less_transitive(a.user_name@, b.user_name@, c.user_name@);
    }
}

/// The root that sorts first.
pub fn select_sessions_root(roots: &Vec<RootCandidate>, preferred_user: &Option<String>) -> (r: Option<usize>)
    ensures
        r is None <==> roots@.len() == 0,
        r matches Some(k) ==> k < roots@.len()
            && forall|j: int| 0 <= j < roots@.len() ==> !root_before(#[trigger] roots@[j], roots@[k as int], opt_view(*preferred_user)),
{
    if roots.len() == 0 {
        return None;
    }
    let ghost p = opt_view(*preferred_user);
    let mut best: usize = 0;
    let mut i: usize = 1;
    proof {
        lemma_text_less_irreflexive(roots@[0].distro@);
        lemma_text_less_irreflexive(roots@[0].user_name@);
    }
    while i < roots.len()
        invariant
            1 <= i <= roots.len(),
            best < i,
            p == opt_view(*preferred_user),
            forall|j: int| 0 <= j < i ==> !root_before(#[trigger] roots@[j], roots@[best as int], p),
        decreases roots.len() - i,
    {
        if before(&roots[i], &roots[best], preferred_user) {
            proof {
                assert forall|j: int| 0 <= j < i + 1 implies !root_before(#[trigger] roots@[j], roots@[i as int], p) by {
                    if j == i {
                        lemma_text_less_irreflexive(roots@[i as int].distro@);
                        lemma_text_less_irreflexive(roots@[i as int].user_name@);
                    } else if root_before(roots@[j], roots@[i as int], p) {
                        lemma_root_before_transitive(roots@[j], roots@[i as int], roots@[best as int], p);
                    }
                }
            }
            best = i;
        }
        i += 1;
    }
    Some(best)
}

fn is_preferred_user(preferred_user: &Option<String>, user: &str) -> (r: bool)
    ensures
        r == is_preferred(opt_view(*preferred_user), user@),
{
    match preferred_user {
        Some(p) => str_eq(p.as_str(), user),
        None => false,
    }
}

fn before(a: &RootCandidate, b: &RootCandidate, preferred_user: &Option<String>) -> (r: bool)
    ensures
        r == root_before(*a, *b, opt_view(*preferred_user)),
{
    let pa = is_preferred_user(preferred_user, a.user_name.as_str());
    let pb = is_preferred_user(preferred_user, b.user_name.as_str());
    if pa && !pb {
        return true;
    }
    if pa != pb {
        return false;
    }
    if str_less(a.distro.as_str(), b.distro.as_str()) {
        return true;
    }
    str_eq(a.distro.as_str(), b.distro.as_str()) && str_less(a.user_name.as_str(), b.user_name.as_str())
}

/// `{home}/.codex/sessions`.
pub open spec fn sessions_root_of(home: Seq<char>) -> Seq<char> {
    home + "/.codex/sessions"@
}

/// The shell command that prints `ok` when the directory exists.
pub open spec fn exists_command(root: Seq<char>) -> Seq<char> {
    "[ -d "@ + shell_quoted(root) + " ] && printf ok || printf missing"@
}

/// The root a distribution offers, from what `printf %s "$HOME"` and the directory test printed.
pub open spec fn root_from_outputs(distro: Seq<char>, home_stdout: Seq<char>, exists_success: bool,
    exists_stdout: Seq<char>) -> Option<(Seq<char>, Seq<char>, Seq<char>)>
{
    let home = trim(home_stdout);
    if exists_success && trim(exists_stdout) == "ok"@ {
        Some((distro, after_last(home, '/'), sessions_root_of(home)))
    } else {
        None
    }
}

/// The root candidate of a distribution whose directory test succeeded.
pub fn root_candidate_from(distro: String, home: &str, exists_output: &CommandOutput) -> (r: Option<RootCandidate>)
    ensures
        r matches Some(c) ==> root_from_outputs(distro@, home@, exists_output.success, exists_output.stdout@)
            == Some((c.distro@, c.user_name@, c.sessions_root@)),
        r is None ==> root_from_outputs(distro@, home@, exists_output.success, exists_output.stdout@) is None,
{
    let home_trimmed = trim_str(home);
    let ok = exists_output.success && str_eq(trim_str(exists_output.stdout.as_str()).as_str(), "ok");
    if !ok {
        return None;
    }
    let mut sessions_root = home_trimmed.clone();
    sessions_root.append("/.codex/sessions");
    let user_name = after_last_char(home_trimmed.as_str(), '/');
    Some(RootCandidate { distro, user_name, sessions_root })
}

/// What a root candidate says, as plain values.
pub struct RootView {
    pub distro: Seq<char>,
    pub user_name: Seq<char>,
    pub sessions_root: Seq<char>,
}

pub open spec fn root_view(c: RootCandidate) -> RootView {
    RootView { distro: c.distro@, user_name: c.user_name@, sessions_root: c.sessions_root@ }
}

pub open spec fn root_view_opt(c: Option<RootCandidate>) -> Option<RootView> {
    match c {
        Some(c) => Some(root_view(c)),
        None => None,
    }
}

/// `root_before` on views.
pub open spec fn root_view_before(a: RootView, b: RootView, preferred: Option<Seq<char>>) -> bool {
    let pa = is_preferred(preferred, a.user_name);
    let pb = is_preferred(preferred, b.user_name);
    ||| pa && !pb
    ||| pa == pb && text_less(a.distro, b.distro)
    ||| pa == pb && a.distro == b.distro && text_less(a.user_name, b.user_name)
}

/// What a probe of one distribution gave: its name, the output of `printf %s "$HOME"` and
/// that of the directory test (`None` where the command could not be run, or, for the
/// test, was not run).
pub type Probe = (String, Option<CommandOutput>, Option<CommandOutput>);

/// The home probe printed a home directory.
pub open spec fn home_found(home: Option<CommandOutput>) -> bool {
    home is Some && home->0.success && trim(home->0.stdout@).len() > 0
}

/// The command that prints the home directory.
pub open spec fn home_command() -> Seq<char> {
    "printf %s \"$HOME\""@
}

/// The arguments that list the distributions.
pub open spec fn list_args() -> Seq<Seq<char>> {
    seq!["-l"@, "-q"@]
}

/// The root a probed distribution offers: `~/.codex/sessions` under the home directory it
/// printed, when the directory test printed `ok`.
pub open spec fn probe_root(probe: Probe) -> Option<RootView> {
    let (distro, home, exists) = probe;
    if home_found(home) && exists is Some {
        match root_from_outputs(distro@, home->0.stdout@, exists->0.success, exists->0.stdout@) {
            Some((d, u, r)) => Some(RootView { distro: d, user_name: u, sessions_root: r }),
            None => None,
        }
    } else {
        None
    }
}

/// The roots the probes offer, in order.
pub open spec fn probed_roots(probes: Seq<Probe>) -> Seq<RootView>
    decreases probes.len(),
{
    if probes.len() == 0 {
        Seq::empty()
    } else {
        let front = probed_roots(probes.drop_last());
        match probe_root(probes.last()) {
            Some(r) => front.push(r),
            None => front,
        }
    }
}

/// Every offered root is `~/.codex/sessions` under some home directory.
proof fn lemma_probed_roots_under_home(probes: Seq<Probe>, k: int)
    requires
        0 <= k < probed_roots(probes).len(),
    ensures
        exists|home: Seq<char>| #[trigger] sessions_root_of(home) == probed_roots(probes)[k].sessions_root,
    decreases probes.len(),
{
    let front = probed_roots(probes.drop_last());
    if k < front.len() {
        lemma_probed_roots_under_home(probes.drop_last(), k);
        assert(probed_roots(probes)[k] == front[k]);
    } else {
        let home = trim(probes.last().1->0.stdout@);
        assert(sessions_root_of(home) == probed_roots(probes)[k].sessions_root);
    }
}

/// The listing succeeded.
pub open spec fn listed(list: Option<CommandOutput>) -> bool {
    list is Some && list->0.success
}

/// `chosen` is the root picked from the listing `list` and the probes of the listed
/// distributions: none when the listing failed or no root is offered, else an offered root
/// that no other offered root sorts before.
pub open spec fn root_chosen(list: Option<CommandOutput>, probes: Seq<Probe>,
    preferred: Option<Seq<char>>, chosen: Option<RootView>) -> bool
{
    let roots = probed_roots(probes);
    if !listed(list) {
        chosen is None
    } else {
        &&& chosen is None <==> roots.len() == 0
        &&& chosen matches Some(c) ==> roots.contains(c)
            && forall|j: int| 0 <= j < roots.len() ==> !root_view_before(#[trigger] roots[j], c, preferred)
    }
}

/// The distributions a listing names, one per non-blank line, trimmed.
pub open spec fn listed_distros(list: Option<CommandOutput>) -> Seq<Seq<char>> {
    if listed(list) { nonblank_trimmed(lines(list->0.stdout@)) } else { Seq::empty() }
}

/// One probe per listed distribution, in order.
pub open spec fn probes_follow(list: Option<CommandOutput>, probes: Seq<Probe>) -> bool {
    &&& probes.len() == listed_distros(list).len()
    &&& forall|i: int| 0 <= i < probes.len() ==> (#[trigger] probes[i]).0@ == listed_distros(list)[i]
}

/// The calls a probe makes: the home probe, then, when it printed a home, the test of
/// `~/.codex/sessions` there.
pub open spec fn probe_records(probe: Probe) -> Seq<RunRecord> {
    let (distro, home, exists) = probe;
    let first = seq![RunRecord { args: wsl_sh(distro@, home_command()), output: home }];
    if home_found(home) {
        first.push(RunRecord {
            args: wsl_sh(distro@, exists_command(sessions_root_of(trim(home->0.stdout@)))),
            output: exists,
        })
    } else {
        first
    }
}

pub open spec fn probes_records(probes: Seq<Probe>) -> Seq<RunRecord>
    decreases probes.len(),
{
    if probes.len() == 0 {
        Seq::empty()
    } else {
        probes_records(probes.drop_last()) + probe_records(probes.last())
    }
}

/// The calls discovery makes: the listing, then the probes of the listed distributions.
pub open spec fn discovery_records(list: Option<CommandOutput>, probes: Seq<Probe>) -> Seq<RunRecord> {
    seq![RunRecord { args: list_args(), output: list }] + probes_records(probes)
}

/// The root chosen from a `wsl.exe -l -q` listing and the probes of its distributions.
pub fn choose_root(list: &Option<CommandOutput>, probes: &Vec<Probe>,
    preferred_user: &Option<String>) -> (r: Option<RootCandidate>)
    ensures
        root_chosen(*list, probes@, opt_view(*preferred_user), root_view_opt(r)),
{
    let ok = match list {
        Some(output) => output.success,
        None => false,
    };
    if !ok {
        return None;
    }
    let mut roots: Vec<RootCandidate> = Vec::new();
    let mut i: usize = 0;
    while i < probes.len()
        invariant
            i <= probes.len(),
            roots@.map_values(|c: RootCandidate| root_view(c)) == probed_roots(probes@.take(i as int)),
        decreases probes.len() - i,
    {
        let (distro, home_output, exists_output) = &probes[i];
        proof {
            assert(probes@.take(i + 1).drop_last() =~= probes@.take(i as int));
            assert(probes@.take(i + 1).last() == probes@[i as int]);
        }
        if let Some(home_output) = home_output {
            if let Some(exists_output) = exists_output {
                let home = trim_str(home_output.stdout.as_str());
                if home_output.success && !home.as_str().is_empty() {
                    if let Some(root) = root_candidate_from(distro.clone(), home_output.stdout.as_str(), exists_output) {
                        roots.push(root);
                    }
                }
            }
        }
        proof {
            assert(roots@.map_values(|c: RootCandidate| root_view(c)) =~= probed_roots(probes@.take(i + 1)));
        }
        i += 1;
    }
    proof {
        assert(probes@.take(probes@.len() as int) =~= probes@);
    }
    let ghost views = roots@.map_values(|c: RootCandidate| root_view(c));
    let ghost before_pick = roots@;
    match select_sessions_root(&roots, preferred_user) {
        Some(k) => {
            let ghost picked = roots@[k as int];
            let chosen = roots.swap_remove(k);
            proof {
                assert(views[k as int] == root_view(picked));
                assert forall|j: int| 0 <= j < views.len() implies
                    !root_view_before(#[trigger] views[j], root_view(picked), opt_view(*preferred_user)) by {
                    assert(views[j] == root_view(before_pick[j]));
                    assert(!root_before(before_pick[j], picked, opt_view(*preferred_user)));
                }
            }
            Some(chosen)
        },
        None => None,
    }
}

/// The directory test of a sessions root.
pub fn exists_command_text(root: &str) -> (r: String)
    ensures
        r@ == exists_command(root@),
{
    let mut command = "[ -d ".to_owned();
    command.append(shell_quote(root).as_str());
    command.append(" ] && printf ok || printf missing");
    command
}

/// `{distro}:{root}`, or `<none>`.
pub open spec fn root_display(root: Option<RootView>) -> Seq<char> {
    match root {
        Some(r) => r.distro + ":"@ + r.sessions_root,
        None => "<none>"@,
    }
}

/// What a WSL backend knows of where its sessions are.
pub struct WslView {
    pub sessions_root_display: Seq<char>,
    pub sessions_root_available: bool,
    pub distro: Option<Seq<char>>,
    pub sessions_root: Option<Seq<char>>,
    pub previous_sizes: Map<Seq<char>, u64>,
    pub active_key: Option<Seq<char>>,
    pub offset: u64,
    pub pending: Seq<char>,
}

impl<R: CommandRunner> View for WslCommandBackend<R> {
    type V = WslView;

    closed spec fn view(&self) -> WslView {
        WslView {
            sessions_root_display: self.sessions_root_display@,
            sessions_root_available: self.sessions_root_available,
            distro: opt_view(self.distro),
            sessions_root: opt_view(self.sessions_root),
            previous_sizes: self.previous_sizes@,
            active_key: opt_view(self.active_key),
            offset: self.offset,
            pending: self.pending@,
        }
    }
}

/// A backend with the chosen root and nothing read yet.
pub open spec fn fresh_with(root: Option<RootView>) -> WslView {
    WslView {
        sessions_root_display: root_display(root),
        sessions_root_available: root is Some,
        distro: match root { Some(r) => Some(r.distro), None => None },
        sessions_root: match root { Some(r) => Some(r.sessions_root), None => None },
        previous_sizes: Map::empty(),
        active_key: None,
        offset: 0,
        pending: Seq::empty(),
    }
}

impl<R: CommandRunner> WslCommandBackend<R> {
    /// The calls of `wsl.exe` this backend made, in order, with what each gave back.
    pub closed spec fn runs(&self) -> Seq<RunRecord> {
        self.runner.runs()
    }

    /// Builds a backend on the chosen root (or none).
    pub fn with_root(runner: R, selected: Option<RootCandidate>) -> (r: Self)
        ensures
            r@ == fresh_with(root_view_opt(selected)),
            r.runs() == Seq::<RunRecord>::empty(),
    {
        Self::on_root(RecordingRunner::new(runner), selected)
    }

    fn on_root(runner: RecordingRunner<R>, selected: Option<RootCandidate>) -> (r: Self)
        ensures
            r@ == fresh_with(root_view_opt(selected)),
            r.runs() == runner.runs(),
    {
        let sessions_root_display = match &selected {
            Some(root) => {
                let mut display = root.distro.clone();
                display.append(":");
                display.append(root.sessions_root.as_str());
                display
            },
            None => "<none>".to_owned(),
        };
        let sessions_root_available = selected.is_some();
        let (distro, sessions_root) = match selected {
            Some(root) => (Some(root.distro), Some(root.sessions_root)),
            None => (None, None),
        };
        WslCommandBackend {
            runner,
            sessions_root_display,
            sessions_root_available,
            distro,
            sessions_root,
            previous_sizes: KeyedTable::new(),
            active_key: None,
            offset: 0,
            pending: String::new(),
        }
    }

    /// A backend without a sessions root.
    pub fn unavailable(runner: R) -> (r: Self)
        ensures
            r@ == fresh_with(None),
            r.runs() == Seq::<RunRecord>::empty(),
    {
        Self::with_root(runner, None)
    }

    /// Lists the WSL distributions (`wsl.exe -l -q`), asks each for its home directory and
    /// whether `~/.codex/sessions` exists there, and keeps the root that sorts first (the
    /// preferred user's, then by distribution and user). A failed listing ends the calls
    /// and leaves the backend without a root.
    pub fn discover_with_runner(runner: R, preferred_user: Option<String>) -> (r: Self)
        ensures
            exists|list: Option<CommandOutput>, probes: Seq<Probe>, chosen: Option<RootView>|
                #[trigger] discovery_records(list, probes) == r.runs()
                    && probes_follow(list, probes)
                    && #[trigger] root_chosen(list, probes, opt_view(preferred_user), chosen)
                    && r@ == fresh_with(chosen),
            r@.sessions_root matches Some(p) ==> exists|home: Seq<char>| #[trigger] sessions_root_of(home) == p,
    {
        let mut runner = RecordingRunner::new(runner);
        let listing: [&str; 2] = ["-l", "-q"];
        let list = match runner.run(&listing) {
            Ok(output) => Some(output),
            Err(_) => None,
        };
        proof {
            assert(arg_views(listing@) =~= list_args());
            assert(runner.runs() =~= discovery_records(list, Seq::empty()));
        }
        let mut probes: Vec<Probe> = Vec::new();
        let ok = match &list {
            Some(output) => output.success,
            None => false,
        };
        if ok {
            let distros = match &list {
                Some(output) => parse_lines(output.stdout.as_str()),
                None => Vec::new(),
            };
            let mut i: usize = 0;
            while i < distros.len()
                invariant
                    i <= distros.len(),
                    listed(list),
                    views(distros@) == listed_distros(list),
                    probes@.len() == i,
                    forall|j: int| 0 <= j < i ==> (#[trigger] probes@[j]).0@ == listed_distros(list)[j],
                    runner.runs() == discovery_records(list, probes@),
                decreases distros.len() - i,
            {
                let distro = distros[i].clone();
                proof {
                    assert(views(distros@)[i as int] == distros@[i as int]@);
                }
                let ghost before = runner.runs();
                let home_output = match runner.run_sh(distro.as_str(), "printf %s \"$HOME\"") {
                    Ok(output) => Some(output),
                    Err(_) => None,
                };
                let home = match &home_output {
                    Some(output) => if output.success { trim_str(output.stdout.as_str()) } else { String::new() },
                    None => String::new(),
                };
                let exists_output = if home.as_str().is_empty() {
                    None
                } else {
                    let mut sessions_root = home.clone();
                    sessions_root.append("/.codex/sessions");
                    let command = exists_command_text(sessions_root.as_str());
                    match runner.run_sh(distro.as_str(), command.as_str()) {
                        Ok(output) => Some(output),
                        Err(_) => None,
                    }
                };
                let probe: Probe = (distro, home_output, exists_output);
                proof {
                    assert(home@.len() == 0 <==> !home_found(probe.1));
                    assert(runner.runs() =~= before + probe_records(probe));
                    assert(probes@.push(probe).drop_last() =~= probes@);
                    assert(discovery_records(list, probes@.push(probe)) =~= discovery_records(list, probes@) + probe_records(probe));
                }
                probes.push(probe);
                i += 1;
            }
        }
        let selected = choose_root(&list, &probes, &preferred_user);
        let r = Self::on_root(runner, selected);
        assert(discovery_records(list, probes@) == r.runs());
        assert(root_chosen(list, probes@, opt_view(preferred_user), root_view_opt(selected)));
        proof {
            if selected is Some {
                let c = root_view(selected->0);
                let roots = probed_roots(probes@);
                let k = choose|k: int| 0 <= k < roots.len() && roots[k] == c;
                lemma_probed_roots_under_home(probes@, k);
            }
        }
        r
    }
}

/// What a session candidate says, as plain values.
pub struct CandidateView {
    pub session_id: Seq<char>,
    pub backend_key: Seq<char>,
    pub path: Seq<char>,
    pub modified_at: u128,
    pub size_bytes: u64,
    pub had_recent_append: bool,
}

pub open spec fn candidate_view(c: SessionCandidate) -> CandidateView {
    CandidateView {
        session_id: c.session_id@,
        backend_key: c.backend_key@,
        path: c.path@,
        modified_at: c.modified_at,
        size_bytes: c.size_bytes,
        had_recent_append: c.had_recent_append,
    }
}

pub open spec fn candidate_views(cs: Seq<SessionCandidate>) -> Seq<CandidateView> {
    cs.map_values(|c: SessionCandidate| candidate_view(c))
}

/// A line `modified|size|path` of the `find` listing: the modification time in
/// nanoseconds, the size and the path.
pub open spec fn rollout_fields(line: Seq<char>) -> Option<(u128, u64, Seq<char>)> {
    let (a, b, c) = three_fields(line);
    if a is Some && b is Some && c is Some && seconds_text_nanos(a->0) is Some && u64_text(b->0) is Some {
        Some((seconds_text_nanos(a->0)->0, u64_text(b->0)->0, c->0))
    } else {
        None
    }
}

/// The candidates of the listing lines, in order, and the sizes remembered afterwards: a
/// file grew when its size exceeds the one remembered for it.
pub open spec fn rollouts(ls: Seq<Seq<char>>, distro: Seq<char>, previous: Map<Seq<char>, u64>)
    -> (Seq<CandidateView>, Map<Seq<char>, u64>)
    decreases ls.len(),
{
    if ls.len() == 0 {
        (Seq::empty(), previous)
    } else {
        let (cs, sizes) = rollouts(ls.drop_last(), distro, previous);
        let line = ls.last();
        if trim(line).len() == 0 || rollout_fields(line) is None {
            (cs, sizes)
        } else {
            let (modified_at, size, path) = rollout_fields(line)->0;
            let id = distro + ":"@ + path;
            let before = if sizes.contains_key(id) { sizes[id] } else { size };
            (
                cs.push(CandidateView {
                    session_id: id,
                    backend_key: id,
                    path: id,
                    modified_at,
                    size_bytes: size,
                    had_recent_append: size > before,
                }),
                sizes.insert(id, size),
            )
        }
    }
}

/// The candidates of a `find -printf '%T@|%s|%p\\n'` listing.
pub fn parse_rollout_candidates(stdout: &str, distro: &str, previous_sizes: &mut KeyedTable<u64>) -> (r: Vec<SessionCandidate>)
    ensures
        (candidate_views(r@), final(previous_sizes)@) == rollouts(lines(stdout@), distro@, old(previous_sizes)@),
{
    let all = split_lines(stdout);
    let mut candidates: Vec<SessionCandidate> = Vec::new();
    let mut i: usize = 0;
    while i < all.len()
        invariant
            i <= all.len(),
            views(all@) == lines(stdout@),
            (candidate_views(candidates@), previous_sizes@)
                == rollouts(views(all@).take(i as int), distro@, old(previous_sizes)@),
        decreases all.len() - i,
    {
        let ghost w = views(all@).take(i + 1);
        proof {
            assert(w.drop_last() == views(all@).take(i as int));
            assert(w.last() == all@[i as int]@);
        }
        let line = all[i].as_str();
        i += 1;
        if trim_str(line).as_str().is_empty() {
            continue;
        }
        let (a, b, c) = split_three_fields(line);
        let (a, b, path) = match (a, b, c) {
            (Some(a), Some(b), Some(c)) => (a, b, c),
            _ => continue,
        };
        let modified_at = match parse_seconds_nanos(a.as_str()) {
            Some(m) => m,
            None => continue,
        };
        let size_bytes = match parse_u64(b.as_str()) {
            Some(s) => s,
            None => continue,
        };
        let mut session_id = distro.to_owned();
        session_id.append(":");
        session_id.append(path.as_str());
        let previous_size = match previous_sizes.get(session_id.as_str()) {
            Some(p) => p,
            None => size_bytes,
        };
        let had_recent_append = size_bytes > previous_size;
        previous_sizes.insert(session_id.as_str(), size_bytes);
        let ghost before = candidates@;
        candidates.push(SessionCandidate {
            session_id: session_id.clone(),
            backend_key: session_id.clone(),
            path: session_id,
            modified_at,
            size_bytes,
            had_recent_append,
        });
        proof {
            assert(candidate_views(candidates@) == candidate_views(before).push(candidate_view(candidates@.last())));
        }
    }
    proof {
        assert(views(all@).take(all@.len() as int) == views(all@));
    }
    candidates
}

/// `a` sorts after `b` by recent growth, then by modification time.
pub open spec fn fresher(a: CandidateView, b: CandidateView) -> bool {
    (a.had_recent_append && !b.had_recent_append)
        || (a.had_recent_append == b.had_recent_append && a.modified_at > b.modified_at)
}

/// How `std::path::Path` orders two paths.
#[derive(Debug, Clone, Copy, PartialEq, Eq, Structural)]
pub enum PathOrder {
    Less,
    Equal,
    Greater,
}

/// `Path::new(a).cmp(Path::new(b))`; the order depends on the platform's path syntax and
/// nothing is claimed of it.
#[verifier::external_body]
pub(crate) fn path_order(a: &str, b: &str) -> PathOrder {
    match std::path::Path::new(a).cmp(std::path::Path::new(b)) {
        std::cmp::Ordering::Less => PathOrder::Less,
        std::cmp::Ordering::Equal => PathOrder::Equal,
        std::cmp::Ordering::Greater => PathOrder::Greater,
    }
}

/// The candidate the monitor follows: one that grew most recently, then the most recently
/// modified; among equals the path order of `std::path::Path` decides (largest first).
pub fn select_freshest(candidates: Vec<SessionCandidate>) -> (r: Option<SessionCandidate>)
    ensures
        r is None <==> candidates@.len() == 0,
        r matches Some(c) ==> candidates@.contains(c)
            && forall|j: int| 0 <= j < candidates@.len()
                ==> !fresher(candidate_view(#[trigger] candidates@[j]), candidate_view(c)),
{
    if candidates.len() == 0 {
        return None;
    }
    let mut best: usize = 0;
    let mut i: usize = 1;
    while i < candidates.len()
        invariant
            1 <= i <= candidates.len(),
            best < i,
            forall|j: int| 0 <= j < i ==> !fresher(candidate_view(#[trigger] candidates@[j]), candidate_view(candidates@[best as int])),
        decreases candidates.len() - i,
    {
        let c = &candidates[i];
        let b = &candidates[best];
        let replace = if c.had_recent_append != b.had_recent_append {
            c.had_recent_append
        } else if c.modified_at != b.modified_at {
            c.modified_at > b.modified_at
        } else {
            path_order(c.path.as_str(), b.path.as_str()) == PathOrder::Greater
        };
        if replace {
            best = i;
        }
        i += 1;
    }
    let mut candidates = candidates;
    let chosen = candidates.swap_remove(best);
    Some(chosen)
}

pub open spec fn candidate_opt(o: Option<SessionCandidate>) -> Option<CandidateView> {
    match o {
        Some(c) => Some(candidate_view(c)),
        None => None,
    }
}

/// `found` is what `select_freshest` may pick among `cs`: nothing when there are none, else
/// one that no other is fresher than.
pub open spec fn freshest_of(cs: Seq<CandidateView>, found: Option<CandidateView>) -> bool {
    &&& found is None <==> cs.len() == 0
    &&& found matches Some(c) ==> cs.contains(c) && forall|j: int| 0 <= j < cs.len() ==> !fresher(#[trigger] cs[j], c)
}

/// What a scan of the sessions root gives when `find` printed `stdout`: the listed rollouts
/// update the remembered sizes, and the freshest of them is found.
pub open spec fn wsl_scanned(before: WslView, stdout: Seq<char>, after: WslView, found: Option<SessionCandidate>) -> bool {
    let (cs, sizes) = rollouts(lines(stdout), before.distro->0, before.previous_sizes);
    &&& after.previous_sizes == sizes
    &&& freshest_of(cs, candidate_opt(found))
}

/// A session key `distro:path` split at its first colon.
pub fn parse_session_key(session_key: &str) -> (r: std::io::Result<(String, String)>)
    ensures
        r matches Ok(p) ==> split_once(session_key@, ':') == Some((p.0@, p.1@)),
        r is Err ==> split_once(session_key@, ':') is None,
{
    match split_once_char(session_key, ':') {
        Some(parts) => Ok(parts),
        None => Err(io_error_invalid_input("invalid WSL session key")),
    }
}

/// The shell command that lists the rollout files of a sessions root.
pub open spec fn find_command(root: Seq<char>) -> Seq<char> {
    "if [ -d "@ + shell_quoted(root) + " ]; then find "@ + shell_quoted(root)
        + " -type f -name 'rollout-*.jsonl' -printf '%T@|%s|%p\\n'; fi"@
}

/// The shell command that prints a file from byte `start` (counted from one).
pub open spec fn tail_command(path: Seq<char>, start: u64) -> Seq<char> {
    "if [ -f "@ + shell_quoted(path) + " ]; then tail -c +"@ + decimal(start as nat) + " "@
        + shell_quoted(path) + "; fi"@
}


fn find_command_text(root: &str) -> (r: String)
    ensures
        r@ == find_command(root@),
{
    let quoted = shell_quote(root);
    let mut command = "if [ -d ".to_owned();
    command.append(quoted.as_str());
    command.append(" ]; then find ");
    command.append(quoted.as_str());
    command.append(" -type f -name 'rollout-*.jsonl' -printf '%T@|%s|%p\\n'; fi");
    command
}

fn tail_command_text(path: &str, start: u64) -> (r: String)
    ensures
        r@ == tail_command(path@, start),
{
    let quoted = shell_quote(path);
    let mut command = "if [ -f ".to_owned();
    command.append(quoted.as_str());
    command.append(" ]; then tail -c +");
    command.append(u64_to_decimal(start).as_str());
    command.append(" ");
    command.append(quoted.as_str());
    command.append("; fi");
    command
}

/// `{prefix}{stderr.trim()}` as the message of an error.
fn failure(prefix: &str, stderr: &str) -> std::io::Error {
    let mut message = prefix.to_owned();
    message.append(trim_str(stderr).as_str());
    io_error_other(message)
}

/// The reading position before a read of `session`: a new session, or a file that shrank,
/// starts over from the beginning.
pub open spec fn read_prepared(v: WslView, key: Seq<char>, size: u64) -> WslView {
    let v1 = if v.active_key != Some(key) {
        WslView { active_key: Some(key), offset: 0, pending: Seq::empty(), ..v }
    } else {
        v
    };
    if size < v1.offset { WslView { offset: 0, pending: Seq::empty(), ..v1 } } else { v1 }
}

impl<R: CommandRunner> WslCommandBackend<R> {
    /// Gets ready to read `session` and gives the byte to start from (counted from one).
    fn prepare_read(&mut self, session: &SessionCandidate) -> (r: u64)
        ensures
            final(self)@ == read_prepared(old(self)@, session.backend_key@, session.size_bytes),
            final(self).runs() == old(self).runs(),
            r == (if final(self)@.offset < u64::MAX { (final(self)@.offset + 1) as u64 } else { u64::MAX }),
    {
        let same = match &self.active_key {
            Some(key) => str_eq(key.as_str(), session.backend_key.as_str()),
            None => false,
        };
        if !same {
            self.active_key = Some(session.backend_key.clone());
            self.offset = 0;
            self.pending = String::new();
        }
        if session.size_bytes < self.offset {
            self.offset = 0;
            self.pending = String::new();
        }
        self.offset.saturating_add(1)
    }

    /// Takes what was printed from the start byte and gives back the complete lines.
    fn finish_read(&mut self, session: &SessionCandidate, stdout: &str) -> (r: Vec<String>)
        ensures
            final(self).runs() == old(self).runs(),
            final(self)@ == (WslView {
                offset: session.size_bytes,
                pending: if stdout@.len() == 0 { old(self)@.pending } else { buffered_lines(old(self)@.pending, stdout@).1 },
                ..old(self)@
            }),
            stdout@.len() == 0 ==> r@.len() == 0,
            stdout@.len() > 0 ==> views(r@) == buffered_lines(old(self)@.pending, stdout@).0,
    {
        self.offset = session.size_bytes;
        if stdout.is_empty() {
            return Vec::new();
        }
        let mut pending = String::new();
        std::mem::swap(&mut pending, &mut self.pending);
        let (lines, rest) = take_complete_lines(pending, stdout);
        self.pending = rest;
        lines
    }
}

/// What reading a session whose key is `key` and whose file is `size` bytes long gives
/// when `tail` printed `stdout`: the complete new lines and the backend state after.
pub open spec fn wsl_read_step(v: WslView, key: Seq<char>, size: u64, stdout: Seq<char>) -> (Seq<Seq<char>>, WslView) {
    let p = read_prepared(v, key, size);
    if stdout.len() == 0 {
        (Seq::empty(), WslView { offset: size, ..p })
    } else {
        let (ls, rest) = buffered_lines(p.pending, stdout);
        (ls, WslView { offset: size, pending: rest, ..p })
    }
}

/// `after` is `before` with one more call of `wsl.exe`, made with `args`.
pub open spec fn one_more_run(before: Seq<RunRecord>, after: Seq<RunRecord>, args: Seq<Seq<char>>) -> bool {
    &&& after.len() == before.len() + 1
    &&& after.drop_last() == before
    &&& after.last().args == args
}

/// The call could be run and succeeded.
pub open spec fn succeeded(run: RunRecord) -> bool {
    run.output is Some && run.output->0.success
}

/// The sessions root a backend reads stays what discovery chose.
pub open spec fn same_root(a: WslView, b: WslView) -> bool {
    &&& a.sessions_root_display == b.sessions_root_display
    &&& a.sessions_root_available == b.sessions_root_available
    &&& a.distro == b.distro
    &&& a.sessions_root == b.sessions_root
}

impl<R: CommandRunner> SessionBackend for WslCommandBackend<R> {
    open spec fn kind_spec(&self) -> Seq<char> {
        "wsl_command"@
    }

    open spec fn display_spec(&self) -> Seq<char> {
        self@.sessions_root_display
    }

    fn backend_kind(&self) -> (r: &'static str)
        ensures
            r@ == "wsl_command"@,
    {
        "wsl_command"
    }

    fn sessions_root_display(&self) -> (r: &str)
        ensures
            r@ == self@.sessions_root_display,
    {
        self.sessions_root_display.as_str()
    }

    fn sessions_root_available(&self) -> (r: bool)
        ensures
            r == self@.sessions_root_available,
    {
        self.sessions_root_available
    }

    /// Lists the rollout files of the sessions root and picks the freshest one.
    fn select_active_session(&mut self) -> (r: std::io::Result<Option<SessionCandidate>>)
        ensures
            same_root(old(self)@, final(self)@),
            final(self)@.active_key == old(self)@.active_key,
            final(self)@.offset == old(self)@.offset,
            final(self)@.pending == old(self)@.pending,
            (old(self)@.distro is None || old(self)@.sessions_root is None)
                ==> (r matches Ok(None) && final(self)@ == old(self)@ && final(self).runs() == old(self).runs()),
            r is Err ==> final(self)@ == old(self)@,
            old(self)@.distro is Some && old(self)@.sessions_root is Some ==> ({
                let run = final(self).runs().last();
                &&& one_more_run(old(self).runs(), final(self).runs(),
                    wsl_sh(old(self)@.distro->0, find_command(old(self)@.sessions_root->0)))
                &&& (r is Ok <==> succeeded(run))
                &&& r matches Ok(found) ==> wsl_scanned(old(self)@, run.output->0.stdout@, final(self)@, found)
            }),
    {
        let distro = match &self.distro {
            Some(d) => d.clone(),
            None => return Ok(None),
        };
        let sessions_root = match &self.sessions_root {
            Some(r) => r.clone(),
            None => return Ok(None),
        };
        let command = find_command_text(sessions_root.as_str());
        let ghost before = self.runs();
        let result = self.runner.run_sh(distro.as_str(), command.as_str());
        assert(self.runs().drop_last() =~= before);
        let output = result?;
        if !output.success {
            return Err(failure("wsl rollout scan failed: ", output.stderr.as_str()));
        }
        let candidates = parse_rollout_candidates(output.stdout.as_str(), distro.as_str(), &mut self.previous_sizes);
        let ghost listed = candidates@;
        let found = select_freshest(candidates);
        proof {
            let cs = candidate_views(listed);
            assert forall|j: int| 0 <= j < cs.len() implies cs[j] == candidate_view(#[trigger] listed[j]) by {}
            if found is Some {
                let c = found->0;
                let k = choose|k: int| 0 <= k < listed.len() && listed[k] == c;
                assert(cs[k] == candidate_view(c));
                assert forall|j: int| 0 <= j < cs.len() implies !fresher(#[trigger] cs[j], candidate_view(c)) by {
                    assert(cs[j] == candidate_view(listed[j]));
                }
            }
            assert(wsl_scanned(old(self)@, output.stdout@, self@, found));
        }
        Ok(found)
    }

    /// Prints the session file from where the last read stopped and gives back its new lines.
    fn read_new_lines(&mut self, session: &SessionCandidate) -> (r: std::io::Result<Vec<String>>)
        ensures
            same_root(old(self)@, final(self)@),
            final(self)@.previous_sizes == old(self)@.previous_sizes,
            split_once(session.backend_key@, ':') is None
                ==> r is Err && final(self)@ == old(self)@ && final(self).runs() == old(self).runs(),
            split_once(session.backend_key@, ':') is Some ==> final(self)@.active_key == Some(session.backend_key@),
            split_once(session.backend_key@, ':') matches Some((distro, path)) ==> ({
                let prepared = read_prepared(old(self)@, session.backend_key@, session.size_bytes);
                let start = if prepared.offset < u64::MAX { (prepared.offset + 1) as u64 } else { u64::MAX };
                let run = final(self).runs().last();
                &&& one_more_run(old(self).runs(), final(self).runs(), wsl_sh(distro, tail_command(path, start)))
                &&& (r is Ok <==> succeeded(run))
                &&& r is Err ==> final(self)@ == prepared
                &&& r matches Ok(ls) ==> wsl_read_step(old(self)@, session.backend_key@, session.size_bytes,
                    run.output->0.stdout@) == (views(ls@), final(self)@)
            }),
    {
        let (distro, linux_path) = parse_session_key(session.backend_key.as_str())?;
        let start = self.prepare_read(session);
        let command = tail_command_text(linux_path.as_str(), start);
        let ghost before = self.runs();
        let result = self.runner.run_sh(distro.as_str(), command.as_str());
        assert(self.runs().drop_last() =~= before);
        let output = result?;
        if !output.success {
            return Err(failure("wsl rollout read failed: ", output.stderr.as_str()));
        }
        let ghost prepared_view = self@;
        let lines = self.finish_read(session, output.stdout.as_str());
        proof {
            if output.stdout@.len() == 0 {
                assert(views(lines@) =~= Seq::<Seq<char>>::empty());
            }
            assert(wsl_read_step(old(self)@, session.backend_key@, session.size_bytes, output.stdout@)
                == (views(lines@), self@));
        }
        Ok(lines)
    }
}

} // verus!
