//! The process supervisor: the state machine behind `start`, `stop`,
//! `forceKill`, `getStatus` and `getOutput`, and the transitions the
//! background tasks of a run apply.
//!
//! The supervisor itself never blocks on a process: `start` ends at a spawn
//! request that the embedding carries out, and the monitor's blocking wait is
//! reported back through [`monitor_finish`]. Everything the supervisor
//! decides — idempotent starts, signal choices, terminal outcomes, the
//! captured output — is specified here over the registry's and the buffer's
//! abstract maps.

use crate::config::Config;
use crate::numfmt::{bool_to_string, code_to_string, spec_code_text};
use crate::output::{OutputLine, OutputOrigin, OutputStore};
use crate::portscan::{port_of_line, spec_port_of};
use crate::registry::{
    spec_after_mark, spec_mark_is_first, ProcessEntry, ProcessHandle, ProcessStore,
};
use crate::signals::{deliver_signal, SignalKind};
use crate::status::{CommandInfo, CommandStatus};
use vstd::prelude::*;
use vstd::string::StringExecFns;

verus! {

/// The hard failures: preconditions a caller violated. Every OS-level failure
/// is reported through the status instead.
#[derive(Clone, Copy, Debug, PartialEq, Eq, Structural)]
pub enum SupervisorError {
    /// The id has no configuration.
    ConfigNotFound,
    /// The operation addressed an id with no registry entry.
    NotFound,
}

/// What the embedding must launch after a successful `start_command`: the
/// composed command line, handed to the platform's command interpreter, and
/// the configured environment to apply additively over the inherited one.
#[derive(Debug)]
pub struct SpawnRequest {
    pub command_line: String,
    pub env: Vec<(String, String)>,
}

/// What `start_command` decided.
#[derive(Debug)]
pub enum StartStep {
    /// A run is already underway; no second process is spawned and the
    /// existing snapshot is returned unchanged.
    AlreadyActive(CommandInfo),
    /// The registry now shows `Starting`; the embedding must spawn.
    Spawn(SpawnRequest),
}

/// The configured arguments joined by single spaces.
pub open spec fn spec_join_spaces(args: Seq<Seq<char>>) -> Seq<char>
    decreases args.len(),
{
    if args.len() == 0 {
        Seq::empty()
    } else if args.len() == 1 {
        args[0]
    } else {
        spec_join_spaces(args.drop_last()) + seq![' '] + args.last()
    }
}

/// The single source string handed to the command interpreter: the command,
/// one space, then the arguments joined by spaces. No shell-escaping is
/// performed; arguments needing quoting must be pre-quoted.
pub open spec fn spec_command_line(command: Seq<char>, args: Seq<Seq<char>>) -> Seq<char> {
    command + seq![' '] + spec_join_spaces(args)
}

/// A sequence of environment pairs carries exactly the entries of the
/// configured environment mapping, each key once.
pub open spec fn spec_env_pairs(s: Seq<(String, String)>, m: Map<Seq<char>, String>) -> bool {
    &&& forall|i: int|
        0 <= i < s.len() ==> m.contains_key(#[trigger] s[i].0@) && m[s[i].0@] == s[i].1
    &&& forall|i: int, j: int| 0 <= i < j < s.len() ==> s[i].0@ != s[j].0@
    &&& forall|k: Seq<char>| m.contains_key(k) ==> exists|i: int| 0 <= i < s.len() && s[i].0@ == k
}

/// The arguments joined by single spaces.
fn join_spaces(args: &Vec<String>) -> (r: String)
    ensures
        r@ == spec_join_spaces(args.deep_view()),
{
    let n = args.len();
    let mut joined = String::new();
    let mut i: usize = 0;
    proof {
        reveal_strlit(" ");
        assert(args.deep_view().len() == n) by {
            assert(args.deep_view() == args@.map_values(|s: String| s@));
        }
    }
    while i < n
        invariant
            i <= n,
            n == args@.len(),
            args.deep_view().len() == n,
            forall|j: int| 0 <= j < n ==> args.deep_view()[j] == #[trigger] args@[j]@,
            joined@ == spec_join_spaces(args.deep_view().subrange(0, i as int)),
            " "@ == seq![' '],
        decreases n - i,
    {
        if i > 0 {
            joined.append(" ");
        }
        joined.append(args[i].as_str());
        proof {
            let pre = args.deep_view().subrange(0, i as int);
            let post = args.deep_view().subrange(0, i as int + 1);
            assert(post.drop_last() =~= pre);
            assert(post.last() == args.deep_view()[i as int]);
            assert(joined@ =~= spec_join_spaces(post));
        }
        i = i + 1;
    }
    proof {
        assert(args.deep_view().subrange(0, n as int) =~= args.deep_view());
    }
    joined
}

/// The composed command line for one configured server.
pub fn compose_command_line(command: &String, args: &Vec<String>) -> (r: String)
    ensures
        r@ == spec_command_line(command@, args.deep_view()),
{
    let mut line = command.clone();
    proof {
        reveal_strlit(" ");
    }
    line.append(" ");
    let joined = join_spaces(args);
    line.append(joined.as_str());
    proof {
        assert(line@ =~= spec_command_line(command@, args.deep_view()));
    }
    line
}

/// A copy of the stored environment pairs.
fn clone_pairs(pairs: &Vec<(String, String)>) -> (r: Vec<(String, String)>)
    ensures
        r@ == pairs@,
{
    let n = pairs.len();
    let mut r: Vec<(String, String)> = Vec::new();
    let mut i: usize = 0;
    while i < n
        invariant
            i <= n,
            n == pairs@.len(),
            r@ == pairs@.subrange(0, i as int),
        decreases n - i,
    {
        let k = pairs[i].0.clone();
        let v = pairs[i].1.clone();
        r.push((k, v));
        proof {
            assert(r@ =~= pairs@.subrange(0, i as int + 1));
        }
        i = i + 1;
    }
    proof {
        assert(r@ =~= pairs@);
    }
    r
}

/// Start the managed process `id`.
///
/// If a run is already underway (the status is non-terminal and non-idle) the
/// call is an idempotent no-op: nothing is spawned and the current snapshot
/// comes back unchanged. Otherwise the configuration is consulted — an id
/// without one is the hard failure `ConfigNotFound` — the output buffer for
/// `id` is reset, the registry entry becomes `Starting` with no handle, and
/// the returned spawn request carries the composed command line and the
/// configured environment.
pub fn start_command(
    id: &String,
    processes: &mut ProcessStore,
    config: &Config,
    outputs: &mut OutputStore,
) -> (r: Result<StartStep, SupervisorError>)
    requires
        old(processes).wf(),
        old(outputs).wf(),
        config.wf(),
    ensures
        final(processes).wf(),
        final(outputs).wf(),
        ({
            let active = old(processes)@.contains_key(id@)
                && old(processes)@[id@].info.status.spec_is_active();
            &&& active ==> {
                &&& r matches Ok(StartStep::AlreadyActive(info)) && info == old(processes)@[id@].info
                &&& final(processes)@ == old(processes)@
                &&& final(outputs)@ == old(outputs)@
            }
            &&& !active && !config@.contains_key(id@) ==> {
                &&& r == Err::<StartStep, SupervisorError>(SupervisorError::ConfigNotFound)
                &&& final(processes)@ == old(processes)@
                &&& final(outputs)@ == old(outputs)@
            }
            &&& !active && config@.contains_key(id@) ==> {
                &&& r matches Ok(StartStep::Spawn(req)) && req.command_line@ == spec_command_line(
                    config@[id@].command@,
                    config@[id@].args.deep_view(),
                ) && spec_env_pairs(req.env@, config@[id@].env@)
                &&& final(outputs)@ == old(outputs)@.insert(id@, Seq::<OutputLine>::empty())
                &&& final(processes)@ == old(processes)@.insert(
                    id@,
                    ProcessEntry {
                        info: CommandInfo {
                            id: *id,
                            status: CommandStatus::Starting,
                            is_running: true,
                            has_error: false,
                            process_id: None,
                            port: config@[id@].port,
                        },
                        handle: None,
                    },
                )
            }
        }),
{
    match processes.get(id) {
        Some(info) => {
            if info.status.is_active() {
                return Ok(StartStep::AlreadyActive(info));
            }
        },
        None => {},
    }
    let cfg = match config.get_server(id) {
        Some(c) => c,
        None => {
            return Err(SupervisorError::ConfigNotFound);
        },
    };
    outputs.reset(id);
    let starting = CommandInfo {
        id: id.clone(),
        status: CommandStatus::Starting,
        is_running: true,
        has_error: false,
        process_id: None,
        port: cfg.port,
    };
    processes.upsert(starting, None);
    let command_line = compose_command_line(&cfg.command, &cfg.args);
    let env = clone_pairs(cfg.env.entries());
    Ok(StartStep::Spawn(SpawnRequest { command_line, env }))
}

/// Record a successful spawn: the entry for `id` becomes `Running`, carrying
/// the native process id and the handle the monitor will take. The declared
/// port already recorded for the entry is kept.
pub fn start_finish_ok(id: &String, pid: u32, processes: &mut ProcessStore) -> (r: CommandInfo)
    requires
        old(processes).wf(),
        pid <= 0x7fff_ffff,
    ensures
        final(processes).wf(),
        r == (CommandInfo {
            id: *id,
            status: CommandStatus::Running,
            is_running: true,
            has_error: false,
            process_id: Some(pid),
            port: if old(processes)@.contains_key(id@) {
                old(processes)@[id@].info.port
            } else {
                None
            },
        }),
        final(processes)@ == old(processes)@.insert(
            id@,
            ProcessEntry { info: r, handle: Some(ProcessHandle::spec_new(pid)) },
        ),
{
    let port = match processes.get(id) {
        Some(info) => info.port,
        None => None,
    };
    let info = CommandInfo {
        id: id.clone(),
        status: CommandStatus::Running,
        is_running: true,
        has_error: false,
        process_id: Some(pid),
        port,
    };
    let snapshot = info.clone();
    processes.upsert(info, Some(ProcessHandle::new(pid)));
    snapshot
}

/// Record a spawn failure: the entry for `id` becomes the terminal
/// `Error{message}`, with no handle, and that snapshot is returned. The
/// failure is a reported outcome, not a hard failure of the call.
pub fn start_finish_err(id: &String, message: String, processes: &mut ProcessStore) -> (r:
    CommandInfo)
    requires
        old(processes).wf(),
    ensures
        final(processes).wf(),
        r == (CommandInfo {
            id: *id,
            status: CommandStatus::Error { message: message },
            is_running: false,
            has_error: true,
            process_id: None,
            port: if old(processes)@.contains_key(id@) {
                old(processes)@[id@].info.port
            } else {
                None
            },
        }),
        final(processes)@ == old(processes)@.insert(id@, ProcessEntry { info: r, handle: None }),
{
    let port = match processes.get(id) {
        Some(info) => info.port,
        None => None,
    };
    let info = CommandInfo {
        id: id.clone(),
        status: CommandStatus::Error { message },
        is_running: false,
        has_error: true,
        process_id: None,
        port,
    };
    let snapshot = info.clone();
    processes.upsert(info, None);
    snapshot
}

/// The registry after a failed signal send on `k`: the entry's status moved
/// to `Error{message}` and everything else kept.
pub open spec fn spec_signal_failed_state(
    m: Map<Seq<char>, ProcessEntry>,
    k: Seq<char>,
    message: String,
) -> Map<Seq<char>, ProcessEntry> {
    m.insert(
        k,
        ProcessEntry {
            info: CommandInfo {
                status: CommandStatus::Error { message: message },
                is_running: false,
                ..m[k].info
            },
            handle: m[k].handle,
        },
    )
}

fn stop_failure_message(e: String) -> (r: String)
    ensures
        r@ == "Failed to stop: "@ + e@,
{
    let mut m = "Failed to stop: ".to_owned();
    m.append(e.as_str());
    m
}

fn kill_failure_message(e: String) -> (r: String)
    ensures
        r@ == "Failed to force kill: "@ + e@,
{
    let mut m = "Failed to force kill: ".to_owned();
    m.append(e.as_str());
    m
}

/// Stop the managed process `id` gracefully.
///
/// An id with no entry is the hard failure `NotFound`. A terminal or idle
/// entry comes back unchanged (idempotent stop). Otherwise the status becomes
/// `Stopping` and that snapshot is returned; when a live handle is present a
/// SIGTERM-equivalent is requested without blocking for exit — the monitor
/// stays the authority on the terminal state — and a failed signal send moves
/// the stored status to `Error`. With no handle left (the process already
/// reaped) the entry is finalized directly as a successful manual stop,
/// `Finished{code: 0, success: true}`.
pub fn stop_command(id: &String, processes: &mut ProcessStore) -> (r: Result<
    CommandInfo,
    SupervisorError,
>)
    requires
        old(processes).wf(),
    ensures
        final(processes).wf(),
        !old(processes)@.contains_key(id@) ==> r == Err::<CommandInfo, SupervisorError>(
            SupervisorError::NotFound,
        ) && final(processes)@ == old(processes)@,
        old(processes)@.contains_key(id@) && !old(processes)@[id@].info.status.spec_is_active()
            ==> r == Ok::<CommandInfo, SupervisorError>(old(processes)@[id@].info) && final(processes)@ == old(processes)@,
        old(processes)@.contains_key(id@) && old(processes)@[id@].info.status.spec_is_active()
            ==> {
            let stopping = CommandInfo {
                status: CommandStatus::Stopping,
                is_running: true,
                ..old(processes)@[id@].info
            };
            &&& r == Ok::<CommandInfo, SupervisorError>(stopping)
            &&& old(processes)@[id@].handle is Some ==> (final(processes)@ == old(processes)@.insert(
                id@,
                ProcessEntry { info: stopping, handle: old(processes)@[id@].handle },
            ) || exists|m: String|
                final(processes)@ == #[trigger] spec_signal_failed_state(
                    old(processes)@,
                    id@,
                    m,
                ))
            &&& old(processes)@[id@].handle is None ==> final(processes)@ == old(processes)@.insert(
                id@,
                ProcessEntry {
                    info: CommandInfo {
                        status: CommandStatus::Finished { code: Some(0i32), success: true },
                        is_running: false,
                        ..old(processes)@[id@].info
                    },
                    handle: None,
                },
            )
        },
{
    let info = match processes.get(id) {
        Some(info) => info,
        None => {
            return Err(SupervisorError::NotFound);
        },
    };
    if !info.status.is_active() {
        return Ok(info);
    }
    processes.set_status(id, CommandStatus::Stopping);
    let mut snapshot = info;
    snapshot.status = CommandStatus::Stopping;
    snapshot.is_running = true;
    match processes.handle_pid(id) {
        Some(pid) => {
            match deliver_signal(pid, SignalKind::Term) {
                Ok(_) => {},
                Err(e) => {
                    let msg = stop_failure_message(e);
                    let ghost msg_val = msg;
                    processes.set_status(id, CommandStatus::Error { message: msg });
                    proof {
                        assert(processes@ =~= spec_signal_failed_state(
                            old(processes)@,
                            id@,
                            msg_val,
                        ));
                    }
                },
            }
        },
        None => {
            processes.set_status(
                id,
                CommandStatus::Finished { code: Some(0), success: true },
            );
            proof {
                assert(processes@ =~= old(processes)@.insert(
                    id@,
                    ProcessEntry {
                        info: CommandInfo {
                            status: CommandStatus::Finished { code: Some(0i32), success: true },
                            is_running: false,
                            ..old(processes)@[id@].info
                        },
                        handle: None,
                    },
                ));
            }
        },
    }
    Ok(snapshot)
}

/// Terminate the managed process `id` immediately.
///
/// The preconditions mirror `stop_command`: `NotFound` without an entry, an
/// idempotent return on a terminal or idle one. Otherwise the status becomes
/// `Killing` and that snapshot is returned; a live handle receives an
/// unconditional SIGKILL-equivalent — never blocking for exit — and a failed
/// signal send moves the stored status to `Error`. With no handle left the
/// entry is finalized directly as `Finished{code: 1, success: false}`:
/// force-killing an already-gone process is reported as unsuccessful,
/// distinguishing it from a graceful self-stop.
pub fn force_kill_command(id: &String, processes: &mut ProcessStore) -> (r: Result<
    CommandInfo,
    SupervisorError,
>)
    requires
        old(processes).wf(),
    ensures
        final(processes).wf(),
        !old(processes)@.contains_key(id@) ==> r == Err::<CommandInfo, SupervisorError>(
            SupervisorError::NotFound,
        ) && final(processes)@ == old(processes)@,
        old(processes)@.contains_key(id@) && !old(processes)@[id@].info.status.spec_is_active()
            ==> r == Ok::<CommandInfo, SupervisorError>(old(processes)@[id@].info) && final(processes)@ == old(processes)@,
        old(processes)@.contains_key(id@) && old(processes)@[id@].info.status.spec_is_active()
            ==> {
            let killing = CommandInfo {
                status: CommandStatus::Killing,
                is_running: true,
                ..old(processes)@[id@].info
            };
            &&& r == Ok::<CommandInfo, SupervisorError>(killing)
            &&& old(processes)@[id@].handle is Some ==> (final(processes)@ == old(processes)@.insert(
                id@,
                ProcessEntry { info: killing, handle: old(processes)@[id@].handle },
            ) || exists|m: String|
                final(processes)@ == #[trigger] spec_signal_failed_state(
                    old(processes)@,
                    id@,
                    m,
                ))
            &&& old(processes)@[id@].handle is None ==> final(processes)@ == old(processes)@.insert(
                id@,
                ProcessEntry {
                    info: CommandInfo {
                        status: CommandStatus::Finished { code: Some(1i32), success: false },
                        is_running: false,
                        ..old(processes)@[id@].info
                    },
                    handle: None,
                },
            )
        },
{
    let info = match processes.get(id) {
        Some(info) => info,
        None => {
            return Err(SupervisorError::NotFound);
        },
    };
    if !info.status.is_active() {
        return Ok(info);
    }
    processes.set_status(id, CommandStatus::Killing);
    let mut snapshot = info;
    snapshot.status = CommandStatus::Killing;
    snapshot.is_running = true;
    match processes.handle_pid(id) {
        Some(pid) => {
            match deliver_signal(pid, SignalKind::Kill) {
                Ok(_) => {},
                Err(e) => {
                    let msg = kill_failure_message(e);
                    let ghost msg_val = msg;
                    processes.set_status(id, CommandStatus::Error { message: msg });
                    proof {
                        assert(processes@ =~= spec_signal_failed_state(
                            old(processes)@,
                            id@,
                            msg_val,
                        ));
                    }
                },
            }
        },
        None => {
            processes.set_status(
                id,
                CommandStatus::Finished { code: Some(1), success: false },
            );
            proof {
                assert(processes@ =~= old(processes)@.insert(
                    id@,
                    ProcessEntry {
                        info: CommandInfo {
                            status: CommandStatus::Finished { code: Some(1i32), success: false },
                            is_running: false,
                            ..old(processes)@[id@].info
                        },
                        handle: None,
                    },
                ));
            }
        },
    }
    Ok(snapshot)
}

/// The current snapshot for `id`: a pure read. An id that was never started
/// reports `Idle`, never an error, so pollers treat "never started" and
/// "reset" uniformly.
pub fn get_command_info(id: &String, processes: &ProcessStore) -> (r: CommandInfo)
    requires
        processes.wf(),
    ensures
        processes@.contains_key(id@) ==> r == processes@[id@].info,
        !processes@.contains_key(id@) ==> r == (CommandInfo {
            id: *id,
            status: CommandStatus::Idle,
            is_running: false,
            has_error: false,
            process_id: None,
            port: None,
        }),
{
    match processes.get(id) {
        Some(info) => info,
        None => CommandInfo::idle(id.clone()),
    }
}

/// How one captured line reads to a poller: stderr lines carry a marking
/// prefix, stdout lines are verbatim.
pub open spec fn spec_render_line(l: OutputLine) -> Seq<char> {
    match l.origin {
        OutputOrigin::Stdout => l.text@,
        OutputOrigin::Stderr => "ERROR: "@ + l.text@,
    }
}

/// The full ordered output captured for `id` so far — a snapshot, safe to
/// call while the process runs — or empty if none was captured.
pub fn get_command_output(id: &String, outputs: &OutputStore) -> (r: Vec<String>)
    requires
        outputs.wf(),
    ensures
        outputs@.contains_key(id@) ==> r@.len() == outputs@[id@].len() && forall|i: int|
            0 <= i < r@.len() ==> r@[i]@ == spec_render_line(#[trigger] outputs@[id@][i]),
        !outputs@.contains_key(id@) ==> r@.len() == 0,
{
    let lines = match outputs.get_lines(id) {
        Some(lines) => lines,
        None => {
            return Vec::new();
        },
    };
    let n = lines.len();
    let mut r: Vec<String> = Vec::new();
    let mut i: usize = 0;
    while i < n
        invariant
            i <= n,
            n == lines@.len(),
            lines@ == outputs@[id@],
            outputs@.contains_key(id@),
            r@.len() == i,
            forall|j: int| 0 <= j < i ==> r@[j]@ == spec_render_line(#[trigger] lines@[j]),
        decreases n - i,
    {
        let rendered = match lines[i].origin {
            OutputOrigin::Stdout => lines[i].text.clone(),
            OutputOrigin::Stderr => {
                let mut s = "ERROR: ".to_owned();
                s.append(lines[i].text.as_str());
                s
            },
        };
        r.push(rendered);
        i = i + 1;
    }
    r
}

/// Record one line the process wrote to standard output. The capture tasks
/// never change the status.
pub fn record_stdout_line(id: &String, line: String, outputs: &mut OutputStore)
    requires
        old(outputs).wf(),
    ensures
        final(outputs).wf(),
        old(outputs)@.contains_key(id@) ==> final(outputs)@ == old(outputs)@.insert(
            id@,
            old(outputs)@[id@].push(OutputLine { origin: OutputOrigin::Stdout, text: line }),
        ),
        !old(outputs)@.contains_key(id@) ==> final(outputs)@ == old(outputs)@,
{
    outputs.append(id, OutputLine { origin: OutputOrigin::Stdout, text: line });
}

/// Record one line the process wrote to standard error: the line is buffered
/// with its marking, and the sticky error flag flips on the first such line
/// of a run only. Reports whether this line was the one that flipped it.
pub fn record_stderr_line(
    id: &String,
    line: String,
    processes: &mut ProcessStore,
    outputs: &mut OutputStore,
) -> (first: bool)
    requires
        old(processes).wf(),
        old(outputs).wf(),
    ensures
        final(processes).wf(),
        final(outputs).wf(),
        final(processes)@ == spec_after_mark(old(processes)@, id@),
        first == spec_mark_is_first(old(processes)@, id@),
        old(outputs)@.contains_key(id@) ==> final(outputs)@ == old(outputs)@.insert(
            id@,
            old(outputs)@[id@].push(OutputLine { origin: OutputOrigin::Stderr, text: line }),
        ),
        !old(outputs)@.contains_key(id@) ==> final(outputs)@ == old(outputs)@,
{
    let first = processes.mark_error(id);
    outputs.append(id, OutputLine { origin: OutputOrigin::Stderr, text: line });
    first
}

/// Scan one captured line for a listening port and record it on the entry,
/// first writer wins. Returns what the scan read, whether or not it was
/// recorded. Advisory only: the status never changes, and failure to find a
/// port is no error.
pub fn log_probe_line(id: &String, line: &str, processes: &mut ProcessStore) -> (r: Option<u16>)
    requires
        old(processes).wf(),
    ensures
        final(processes).wf(),
        match r {
            Some(p) => spec_port_of(line@) == Some(p as int) && if old(processes)@.contains_key(
                id@,
            ) && old(processes)@[id@].info.port is None {
                final(processes)@ == old(processes)@.insert(
                    id@,
                    ProcessEntry {
                        info: CommandInfo { port: Some(p), ..old(processes)@[id@].info },
                        handle: old(processes)@[id@].handle,
                    },
                )
            } else {
                final(processes)@ == old(processes)@
            },
            None => spec_port_of(line@) is None && final(processes)@ == old(processes)@,
        },
{
    match port_of_line(line) {
        Some(p) => {
            let _recorded = processes.set_port_if_unset(id, p);
            Some(p)
        },
        None => None,
    }
}

/// What the monitor observed when the OS process left: either an exit status
/// — `success` for a zero status, `code` if the platform reported one — or an
/// OS-level failure of the wait call itself.
pub enum WaitOutcome {
    Exited { code: Option<i32>, success: bool },
    WaitError { message: String },
}

/// The exit code the registry records: a successful wait without a code is
/// normalized to 0, and a failed wait has none.
pub open spec fn spec_final_code(o: WaitOutcome) -> Option<i32> {
    match o {
        WaitOutcome::Exited { code, success } => if success && code is None {
            Some(0i32)
        } else {
            code
        },
        WaitOutcome::WaitError { .. } => None,
    }
}

/// The success flag the registry records: a failed wait counts as failure.
pub open spec fn spec_final_success(o: WaitOutcome) -> bool {
    match o {
        WaitOutcome::Exited { success, .. } => success,
        WaitOutcome::WaitError { .. } => false,
    }
}

/// The terminal summary line the monitor appends to the output buffer.
pub open spec fn spec_summary_text(o: WaitOutcome) -> Seq<char> {
    match o {
        WaitOutcome::Exited { .. } => "Process exited with status: "@ + spec_code_text(
            spec_final_code(o),
        ) + " (Success: "@ + (if spec_final_success(o) {
            "true"@
        } else {
            "false"@
        }) + ")"@,
        WaitOutcome::WaitError { message } => "Error waiting for process exit: "@ + message@,
    }
}

fn summary_text(o: &WaitOutcome) -> (r: String)
    ensures
        r@ == spec_summary_text(*o),
{
    match o {
        WaitOutcome::Exited { code, success } => {
            let normalized = if *success && code.is_none() {
                Some(0)
            } else {
                *code
            };
            let mut s = "Process exited with status: ".to_owned();
            let cs = code_to_string(&normalized);
            s.append(cs.as_str());
            s.append(" (Success: ");
            s.append(bool_to_string(*success));
            s.append(")");
            proof {
                assert(s@ =~= spec_summary_text(*o));
            }
            s
        },
        WaitOutcome::WaitError { message } => {
            let mut s = "Error waiting for process exit: ".to_owned();
            s.append(message.as_str());
            s
        },
    }
}

/// Finalize a run: the single authority that writes a terminal status after
/// the OS process exited.
///
/// The registry entry for `id` — whatever its status was, `Stopping` and
/// `Killing` included — becomes `Finished` with the normalized code and
/// success flag, and a terminal summary line is appended to the output
/// buffer. A failed wait finalizes as an unsuccessful `Finished` with its
/// diagnostic logged, never as a failure of the call.
pub fn monitor_finish(
    id: &String,
    outcome: WaitOutcome,
    processes: &mut ProcessStore,
    outputs: &mut OutputStore,
)
    requires
        old(processes).wf(),
        old(outputs).wf(),
    ensures
        final(processes).wf(),
        final(outputs).wf(),
        old(processes)@.contains_key(id@) ==> final(processes)@ == old(processes)@.insert(
            id@,
            ProcessEntry {
                info: CommandInfo {
                    status: CommandStatus::Finished {
                        code: spec_final_code(outcome),
                        success: spec_final_success(outcome),
                    },
                    is_running: false,
                    has_error: !spec_final_success(outcome),
                    ..old(processes)@[id@].info
                },
                handle: old(processes)@[id@].handle,
            },
        ),
        !old(processes)@.contains_key(id@) ==> final(processes)@ == old(processes)@,
        old(outputs)@.contains_key(id@) ==> exists|l: OutputLine|
            l.origin == OutputOrigin::Stdout && l.text@ == spec_summary_text(outcome) && final(outputs)@ == old(outputs)@.insert(id@, old(outputs)@[id@].push(l)),
        !old(outputs)@.contains_key(id@) ==> final(outputs)@ == old(outputs)@,
{
    let (code, success) = match &outcome {
        WaitOutcome::Exited { code, success } => {
            let normalized = if *success && code.is_none() {
                Some(0)
            } else {
                *code
            };
            (normalized, *success)
        },
        WaitOutcome::WaitError { .. } => (None, false),
    };
    processes.set_finished(id, code, success);
    let text = summary_text(&outcome);
    let line = OutputLine { origin: OutputOrigin::Stdout, text };
    let ghost summary_line = line;
    outputs.append(id, line);
    proof {
        if old(outputs)@.contains_key(id@) {
            assert(summary_line.origin == OutputOrigin::Stdout && summary_line.text@
                == spec_summary_text(outcome) && outputs@ == old(outputs)@.insert(
                id@,
                old(outputs)@[id@].push(summary_line),
            ));
        }
    }
}

} // verus!
