//! Supervision of the backend engine process: its command line, the health
//! gate it must pass before the gateway serves, and the two-phase teardown
//! of its whole process group. The process calls, sleeps and probes are
//! made by the caller; this module decides what comes next.

use vstd::prelude::*;
use vstd::string::*;

use crate::text::{decimal, u64_to_decimal};

verus! {

/// Pause between two health probes, in milliseconds.
pub const HEALTH_POLL_INTERVAL_MS: u64 = 1000;

/// Number of health probes before startup is given up.
pub const HEALTH_POLL_ATTEMPTS: u32 = 120;

/// Time the process group gets between the graceful and the forced signal,
/// in milliseconds.
pub const TERMINATION_GRACE_MS: u64 = 2000;

/// Token budget of one batch of the backend.
pub const MAX_BATCHED_TOKENS: u64 = 16384;

/// File the backend's output goes to.
pub const BACKEND_LOG_FILE: &'static str = "vllm.log";

/// Program that runs the backend.
pub const BACKEND_PROGRAM: &'static str = "uv";

/// The tuning of the backend process.
#[derive(Debug, Clone)]
pub struct BackendSettings {
    pub model: String,
    pub port: u16,
    pub max_num_seqs: usize,
    /// Share of GPU memory the backend may take, as the decimal text it is
    /// given on the command line (for example `0.9`).
    pub gpu_memory_utilization: String,
}

/// The arguments the backend program is started with.
pub open spec fn backend_args(s: BackendSettings) -> Seq<Seq<char>> {
    seq![
        "run"@, "--directory"@, "python"@, "python"@, "-m"@,
        "vllm.entrypoints.openai.api_server"@,
        "--model"@, s.model@,
        "--port"@, decimal(s.port as nat),
        "--max-num-seqs"@, decimal(s.max_num_seqs as nat),
        "--max-num-batched-tokens"@, decimal(MAX_BATCHED_TOKENS as nat),
        "--enable-chunked-prefill"@,
        "--enable-prefix-caching"@,
        "--gpu-memory-utilization"@, s.gpu_memory_utilization@
    ]
}

fn push_str(v: &mut Vec<String>, s: &str)
    ensures
        final(v)@.len() == old(v)@.len() + 1,
        forall|i: int| 0 <= i < old(v)@.len() ==> final(v)@[i] == old(v)@[i],
        final(v)@[old(v)@.len() as int]@ == s@,
{
    v.push(String::from_str(s));
}

/// The backend's command-line arguments, built from the settings alone.
pub fn backend_command_args(settings: &BackendSettings) -> (r: Vec<String>)
    ensures
        r@.map_values(|a: String| a@) == backend_args(*settings),
{
    let mut v: Vec<String> = Vec::new();
    push_str(&mut v, "run");
    push_str(&mut v, "--directory");
    push_str(&mut v, "python");
    push_str(&mut v, "python");
    push_str(&mut v, "-m");
    push_str(&mut v, "vllm.entrypoints.openai.api_server");
    push_str(&mut v, "--model");
    push_str(&mut v, settings.model.as_str());
    push_str(&mut v, "--port");
    let port = u64_to_decimal(settings.port as u64);
    push_str(&mut v, port.as_str());
    push_str(&mut v, "--max-num-seqs");
    let seqs = u64_to_decimal(settings.max_num_seqs as u64);
    push_str(&mut v, seqs.as_str());
    push_str(&mut v, "--max-num-batched-tokens");
    let batched = u64_to_decimal(MAX_BATCHED_TOKENS);
    push_str(&mut v, batched.as_str());
    push_str(&mut v, "--enable-chunked-prefill");
    push_str(&mut v, "--enable-prefix-caching");
    push_str(&mut v, "--gpu-memory-utilization");
    push_str(&mut v, settings.gpu_memory_utilization.as_str());
    assert(v@.map_values(|a: String| a@) =~= backend_args(*settings));
    v
}

/// A signal sent to the backend's process group.
#[derive(Debug, Clone, Copy, PartialEq, Eq, Structural)]
pub enum GroupSignal {
    /// Asks the processes to stop (SIGTERM).
    Terminate,
    /// Stops them at once (SIGKILL).
    Kill,
}

/// What the caller does next.
#[derive(Debug, Clone, Copy, PartialEq, Eq, Structural)]
pub enum SupervisorAction {
    /// Wait the poll interval, then probe the backend's health.
    Probe,
    /// The backend is healthy: start serving.
    Serve,
    /// Send a signal to every process of the group; `group` is the negated
    /// process-group id, as `kill` takes it.
    Signal { group: i32, signal: GroupSignal },
    /// Wait this many milliseconds.
    Wait(u64),
    /// Collect the exit status of the spawned process.
    Reap,
    /// Startup has failed: report it and do not serve.
    Fail,
    /// Shutdown is complete.
    Finish,
    /// Nothing to do for this event.
    Ignore,
}

/// Where the supervised backend stands.
#[derive(Debug, Clone, Copy, PartialEq, Eq, Structural)]
pub enum SupervisorPhase {
    /// Nothing spawned yet.
    Idle,
    /// Spawned; `attempts` health probes have failed so far.
    Probing { pid: u32, attempts: u32 },
    /// Healthy; the gateway serves.
    Serving { pid: u32 },
    /// Tearing the group down; `step` counts the teardown actions taken.
    Stopping { pid: u32, step: u8, after_failed_start: bool },
    /// Torn down after a normal shutdown.
    Stopped,
    /// Startup failed; nothing of the group is left running.
    Failed,
}

/// What the caller reports.
#[derive(Debug, Clone, Copy, PartialEq, Eq, Structural)]
pub enum SupervisorEvent {
    /// The backend was spawned in a new process group led by `pid`.
    Spawned(u32),
    /// The backend could not be spawned.
    SpawnFailed,
    /// A health probe answered; `true` when healthy.
    Probed(bool),
    /// The gateway is shutting down.
    Shutdown,
    /// The last requested action is done.
    StepDone,
}

/// The negated process-group id of a group led by `pid`.
pub open spec fn group_of(pid: u32) -> i32 {
    (-(pid as int)) as i32
}

/// A process id that names a process group signals can reach.
pub open spec fn valid_pid(pid: u32) -> bool {
    0 < pid && pid <= i32::MAX as u32
}

/// The supervisor's state and its probe budget.
pub struct Supervisor {
    pub phase: SupervisorPhase,
    pub max_attempts: u32,
}

/// The teardown action taken at `step`: graceful signal, grace window,
/// forced signal, reaping, then the end.
pub open spec fn teardown_action(pid: u32, step: u8, after_failed_start: bool) -> SupervisorAction {
    if step == 0 {
        SupervisorAction::Wait(TERMINATION_GRACE_MS)
    } else if step == 1 {
        SupervisorAction::Signal { group: group_of(pid), signal: GroupSignal::Kill }
    } else if step == 2 {
        SupervisorAction::Reap
    } else if after_failed_start {
        SupervisorAction::Fail
    } else {
        SupervisorAction::Finish
    }
}

/// One transition: the next phase and the action the caller takes.
pub open spec fn transition(phase: SupervisorPhase, max_attempts: u32, ev: SupervisorEvent) -> (SupervisorPhase, SupervisorAction) {
    match (phase, ev) {
        (SupervisorPhase::Idle, SupervisorEvent::Spawned(pid)) => if valid_pid(pid) {
            (SupervisorPhase::Probing { pid, attempts: 0 }, SupervisorAction::Probe)
        } else {
            (SupervisorPhase::Failed, SupervisorAction::Fail)
        },
        (SupervisorPhase::Idle, SupervisorEvent::SpawnFailed) => (SupervisorPhase::Failed, SupervisorAction::Fail),
        (SupervisorPhase::Probing { pid, attempts }, SupervisorEvent::Probed(healthy)) => if healthy {
            (SupervisorPhase::Serving { pid }, SupervisorAction::Serve)
        } else if attempts + 1 < max_attempts {
            (SupervisorPhase::Probing { pid, attempts: (attempts + 1) as u32 }, SupervisorAction::Probe)
        } else {
            (
                SupervisorPhase::Stopping { pid, step: 0, after_failed_start: true },
                SupervisorAction::Signal { group: group_of(pid), signal: GroupSignal::Terminate },
            )
        },
        (SupervisorPhase::Probing { pid, attempts }, SupervisorEvent::Shutdown) => (
            SupervisorPhase::Stopping { pid, step: 0, after_failed_start: true },
            SupervisorAction::Signal { group: group_of(pid), signal: GroupSignal::Terminate },
        ),
        (SupervisorPhase::Serving { pid }, SupervisorEvent::Shutdown) => (
            SupervisorPhase::Stopping { pid, step: 0, after_failed_start: false },
            SupervisorAction::Signal { group: group_of(pid), signal: GroupSignal::Terminate },
        ),
        (SupervisorPhase::Stopping { pid, step, after_failed_start }, SupervisorEvent::StepDone) => {
            let next = if step >= 3 {
                if after_failed_start { SupervisorPhase::Failed } else { SupervisorPhase::Stopped }
            } else {
                SupervisorPhase::Stopping { pid, step: (step + 1) as u8, after_failed_start }
            };
            (next, teardown_action(pid, step, after_failed_start))
        },
        _ => (phase, SupervisorAction::Ignore),
    }
}

/// The phase reached and the actions taken when `events` come in order.
pub open spec fn run(phase: SupervisorPhase, max_attempts: u32, events: Seq<SupervisorEvent>) -> (SupervisorPhase, Seq<SupervisorAction>)
    decreases events.len(),
{
    if events.len() == 0 {
        (phase, Seq::empty())
    } else {
        let (p, a) = transition(phase, max_attempts, events[0]);
        let (q, rest) = run(p, max_attempts, events.drop_first());
        (q, seq![a] + rest)
    }
}

/// The supervisor keeps its phase consistent: a process id it holds can be
/// signalled, and the probe count stays under the budget.
pub open spec fn phase_ok(phase: SupervisorPhase, max_attempts: u32) -> bool {
    match phase {
        SupervisorPhase::Probing { pid, attempts } => valid_pid(pid) && attempts < max_attempts,
        SupervisorPhase::Serving { pid } => valid_pid(pid),
        SupervisorPhase::Stopping { pid, step, .. } => valid_pid(pid) && step <= 3,
        _ => true,
    }
}

impl Supervisor {
    /// The supervisor's invariant.
    pub open spec fn wf(&self) -> bool {
        self.max_attempts >= 1 && phase_ok(self.phase, self.max_attempts)
    }

    /// A supervisor that gives the backend `max_attempts` probes.
    pub fn new(max_attempts: u32) -> (r: Supervisor)
        requires
            max_attempts >= 1,
        ensures
            r.wf(),
            r.phase == SupervisorPhase::Idle,
            r.max_attempts == max_attempts,
    {
        Supervisor { phase: SupervisorPhase::Idle, max_attempts }
    }

    /// Takes an event and says what to do next.
    pub fn on_event(&mut self, ev: SupervisorEvent) -> (r: SupervisorAction)
        requires
            old(self).wf(),
        ensures
            final(self).wf(),
            final(self).max_attempts == old(self).max_attempts,
            (final(self).phase, r) == transition(old(self).phase, old(self).max_attempts, ev),
    {
        let (next, action) = match (self.phase, ev) {
            (SupervisorPhase::Idle, SupervisorEvent::Spawned(pid)) => if 0 < pid && pid <= 2147483647u32 {
                (SupervisorPhase::Probing { pid, attempts: 0 }, SupervisorAction::Probe)
            } else {
                (SupervisorPhase::Failed, SupervisorAction::Fail)
            },
            (SupervisorPhase::Idle, SupervisorEvent::SpawnFailed) => (SupervisorPhase::Failed, SupervisorAction::Fail),
            (SupervisorPhase::Probing { pid, attempts }, SupervisorEvent::Probed(healthy)) => if healthy {
                (SupervisorPhase::Serving { pid }, SupervisorAction::Serve)
            } else if attempts + 1 < self.max_attempts {
                (SupervisorPhase::Probing { pid, attempts: attempts + 1 }, SupervisorAction::Probe)
            } else {
                (
                    SupervisorPhase::Stopping { pid, step: 0, after_failed_start: true },
                    SupervisorAction::Signal { group: -(pid as i32), signal: GroupSignal::Terminate },
                )
            },
            (SupervisorPhase::Probing { pid, attempts: _ }, SupervisorEvent::Shutdown) => (
                SupervisorPhase::Stopping { pid, step: 0, after_failed_start: true },
                SupervisorAction::Signal { group: -(pid as i32), signal: GroupSignal::Terminate },
            ),
            (SupervisorPhase::Serving { pid }, SupervisorEvent::Shutdown) => (
                SupervisorPhase::Stopping { pid, step: 0, after_failed_start: false },
                SupervisorAction::Signal { group: -(pid as i32), signal: GroupSignal::Terminate },
            ),
            (SupervisorPhase::Stopping { pid, step, after_failed_start }, SupervisorEvent::StepDone) => {
                let action = if step == 0 {
                    SupervisorAction::Wait(TERMINATION_GRACE_MS)
                } else if step == 1 {
                    SupervisorAction::Signal { group: -(pid as i32), signal: GroupSignal::Kill }
                } else if step == 2 {
                    SupervisorAction::Reap
                } else if after_failed_start {
                    SupervisorAction::Fail
                } else {
                    SupervisorAction::Finish
                };
                let next = if step >= 3 {
                    if after_failed_start { SupervisorPhase::Failed } else { SupervisorPhase::Stopped }
                } else {
                    SupervisorPhase::Stopping { pid, step: step + 1, after_failed_start }
                };
                (next, action)
            },
            _ => (self.phase, SupervisorAction::Ignore),
        };
        self.phase = next;
        action
    }
}

/// `n` failed health probes.
pub open spec fn failed_probes(n: nat) -> Seq<SupervisorEvent> {
    Seq::new(n, |i: int| SupervisorEvent::Probed(false))
}

/// `n` probe requests.
pub open spec fn probes(n: nat) -> Seq<SupervisorAction> {
    Seq::new(n, |i: int| SupervisorAction::Probe)
}

/// Four completed teardown steps.
pub open spec fn teardown_events() -> Seq<SupervisorEvent> {
    seq![SupervisorEvent::StepDone, SupervisorEvent::StepDone, SupervisorEvent::StepDone, SupervisorEvent::StepDone]
}

/// The teardown of the group led by `pid`: graceful signal to the whole
/// group, grace window, forced signal to the same group, reaping, then
/// `last`.
pub open spec fn teardown(pid: u32, last: SupervisorAction) -> Seq<SupervisorAction> {
    seq![
        SupervisorAction::Signal { group: group_of(pid), signal: GroupSignal::Terminate },
        SupervisorAction::Wait(TERMINATION_GRACE_MS),
        SupervisorAction::Signal { group: group_of(pid), signal: GroupSignal::Kill },
        SupervisorAction::Reap,
        last
    ]
}

proof fn lemma_run_cons(phase: SupervisorPhase, max_attempts: u32, ev: SupervisorEvent, rest: Seq<SupervisorEvent>)
    ensures
        run(phase, max_attempts, seq![ev] + rest) == (
            run(transition(phase, max_attempts, ev).0, max_attempts, rest).0,
            seq![transition(phase, max_attempts, ev).1]
                + run(transition(phase, max_attempts, ev).0, max_attempts, rest).1,
        ),
{
    let s = seq![ev] + rest;
    assert(s[0] == ev);
    assert(s.drop_first() =~= rest);
}

proof fn lemma_run_empty(phase: SupervisorPhase, max_attempts: u32)
    ensures
        run(phase, max_attempts, Seq::<SupervisorEvent>::empty()) == (phase, Seq::<SupervisorAction>::empty()),
{
}

proof fn lemma_teardown_run(pid: u32, max_attempts: u32, after_failed_start: bool)
    ensures
        run(SupervisorPhase::Stopping { pid, step: 0, after_failed_start }, max_attempts, teardown_events())
            == (
                if after_failed_start { SupervisorPhase::Failed } else { SupervisorPhase::Stopped },
                teardown(pid, if after_failed_start { SupervisorAction::Fail } else { SupervisorAction::Finish }).drop_first(),
            ),
{
    let d = SupervisorEvent::StepDone;
    let e = Seq::<SupervisorEvent>::empty();
    let p0 = SupervisorPhase::Stopping { pid, step: 0, after_failed_start };
    let p1 = SupervisorPhase::Stopping { pid, step: 1, after_failed_start };
    let p2 = SupervisorPhase::Stopping { pid, step: 2, after_failed_start };
    let p3 = SupervisorPhase::Stopping { pid, step: 3, after_failed_start };
    let end = if after_failed_start { SupervisorPhase::Failed } else { SupervisorPhase::Stopped };
    let last = if after_failed_start { SupervisorAction::Fail } else { SupervisorAction::Finish };
    assert(teardown_events() =~= seq![d] + (seq![d] + (seq![d] + (seq![d] + e))));
    lemma_run_empty(end, max_attempts);
    lemma_run_cons(p3, max_attempts, d, e);
    lemma_run_cons(p2, max_attempts, d, seq![d] + e);
    lemma_run_cons(p1, max_attempts, d, seq![d] + (seq![d] + e));
    lemma_run_cons(p0, max_attempts, d, seq![d] + (seq![d] + (seq![d] + e)));
    assert(run(p0, max_attempts, teardown_events()).1 =~= teardown(pid, last).drop_first());
}

proof fn lemma_failed_probes_run(pid: u32, max_attempts: u32, attempts: u32)
    requires
        attempts < max_attempts,
    ensures
        run(SupervisorPhase::Probing { pid, attempts }, max_attempts, failed_probes((max_attempts - attempts) as nat))
            == (
                SupervisorPhase::Stopping { pid, step: 0, after_failed_start: true },
                probes((max_attempts - attempts - 1) as nat).push(
                    SupervisorAction::Signal { group: group_of(pid), signal: GroupSignal::Terminate },
                ),
            ),
    decreases max_attempts - attempts,
{
    let n = (max_attempts - attempts) as nat;
    let evs = failed_probes(n);
    let term = SupervisorAction::Signal { group: group_of(pid), signal: GroupSignal::Terminate };
    let here = SupervisorPhase::Probing { pid, attempts };
    assert(evs =~= seq![SupervisorEvent::Probed(false)] + failed_probes((n - 1) as nat));
    lemma_run_cons(here, max_attempts, SupervisorEvent::Probed(false), failed_probes((n - 1) as nat));
    if attempts + 1 < max_attempts {
        lemma_failed_probes_run(pid, max_attempts, (attempts + 1) as u32);
        assert(seq![SupervisorAction::Probe] + probes((max_attempts - attempts - 2) as nat).push(term)
            =~= probes((max_attempts - attempts - 1) as nat).push(term));
    } else {
        let stop = SupervisorPhase::Stopping { pid, step: 0, after_failed_start: true };
        assert(failed_probes((n - 1) as nat) =~= Seq::<SupervisorEvent>::empty());
        lemma_run_empty(stop, max_attempts);
        assert(seq![term] + Seq::<SupervisorAction>::empty() =~= probes(0).push(term));
    }
}

proof fn lemma_run_append(phase: SupervisorPhase, max_attempts: u32, a: Seq<SupervisorEvent>, b: Seq<SupervisorEvent>)
    ensures
        run(phase, max_attempts, a + b) == (
            run(run(phase, max_attempts, a).0, max_attempts, b).0,
            run(phase, max_attempts, a).1 + run(run(phase, max_attempts, a).0, max_attempts, b).1,
        ),
    decreases a.len(),
{
    if a.len() == 0 {
        assert(a + b =~= b);
        assert(Seq::<SupervisorAction>::empty() + run(phase, max_attempts, b).1 =~= run(phase, max_attempts, b).1);
    } else {
        let (p, x) = transition(phase, max_attempts, a[0]);
        assert((a + b).drop_first() =~= a.drop_first() + b);
        lemma_run_append(p, max_attempts, a.drop_first(), b);
        assert(seq![x] + (run(p, max_attempts, a.drop_first()).1 + run(run(p, max_attempts, a.drop_first()).0, max_attempts, b).1)
            =~= (seq![x] + run(p, max_attempts, a.drop_first()).1) + run(run(p, max_attempts, a.drop_first()).0, max_attempts, b).1);
    }
}

/// A failed health gate: when every one of the `max_attempts` probes finds
/// the backend unhealthy, startup ends failed, never serves, and the whole
/// process group is first signalled, given the grace window, and killed.
pub proof fn lemma_failed_health_gate(pid: u32, max_attempts: u32)
    requires
        max_attempts >= 1,
        valid_pid(pid),
    ensures
        run(SupervisorPhase::Idle, max_attempts,
            seq![SupervisorEvent::Spawned(pid)] + failed_probes(max_attempts as nat) + teardown_events())
            == (
                SupervisorPhase::Failed,
                seq![SupervisorAction::Probe] + probes((max_attempts - 1) as nat)
                    + teardown(pid, SupervisorAction::Fail),
            ),
{
    let probing = SupervisorPhase::Probing { pid, attempts: 0 };
    let stopping = SupervisorPhase::Stopping { pid, step: 0, after_failed_start: true };
    let spawn = seq![SupervisorEvent::Spawned(pid)];
    assert(spawn =~= seq![SupervisorEvent::Spawned(pid)] + Seq::<SupervisorEvent>::empty());
    lemma_run_cons(SupervisorPhase::Idle, max_attempts, SupervisorEvent::Spawned(pid), Seq::<SupervisorEvent>::empty());
    lemma_run_empty(probing, max_attempts);
    assert(run(SupervisorPhase::Idle, max_attempts, spawn) == (probing, seq![SupervisorAction::Probe]));
    lemma_failed_probes_run(pid, max_attempts, 0);
    lemma_teardown_run(pid, max_attempts, true);
    lemma_run_append(SupervisorPhase::Idle, max_attempts, spawn, failed_probes(max_attempts as nat));
    lemma_run_append(SupervisorPhase::Idle, max_attempts, spawn + failed_probes(max_attempts as nat), teardown_events());
    let term = SupervisorAction::Signal { group: group_of(pid), signal: GroupSignal::Terminate };
    assert(teardown(pid, SupervisorAction::Fail) =~= seq![term] + teardown(pid, SupervisorAction::Fail).drop_first());
    assert(seq![SupervisorAction::Probe] + probes((max_attempts - 1) as nat).push(term)
        + teardown(pid, SupervisorAction::Fail).drop_first()
        =~= seq![SupervisorAction::Probe] + probes((max_attempts - 1) as nat) + teardown(pid, SupervisorAction::Fail));
}

/// Shutdown of a serving gateway tears the whole process group down:
/// graceful signal to the group, grace window, forced signal to the same
/// group, reaping, and only then the end.
pub proof fn lemma_shutdown_teardown(pid: u32, max_attempts: u32)
    ensures
        run(SupervisorPhase::Serving { pid }, max_attempts, seq![SupervisorEvent::Shutdown] + teardown_events())
            == (SupervisorPhase::Stopped, teardown(pid, SupervisorAction::Finish)),
{
    let stopping = SupervisorPhase::Stopping { pid, step: 0, after_failed_start: false };
    let shut = seq![SupervisorEvent::Shutdown];
    assert(shut =~= seq![SupervisorEvent::Shutdown] + Seq::<SupervisorEvent>::empty());
    lemma_run_cons(SupervisorPhase::Serving { pid }, max_attempts, SupervisorEvent::Shutdown, Seq::<SupervisorEvent>::empty());
    lemma_run_empty(stopping, max_attempts);
    lemma_teardown_run(pid, max_attempts, false);
    lemma_run_append(SupervisorPhase::Serving { pid }, max_attempts, shut, teardown_events());
    let term = SupervisorAction::Signal { group: group_of(pid), signal: GroupSignal::Terminate };
    assert(seq![term] + teardown(pid, SupervisorAction::Finish).drop_first() =~= teardown(pid, SupervisorAction::Finish));
}

} // verus!
