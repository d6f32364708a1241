//! Launch of the backend service process, as a state machine: the host
//! performs each action (probe the runtime, look for the server directory,
//! spawn, detach a reaper) and reports the outcome back as an event. No
//! outcome is an error to the caller; a failed step ends the launch with a
//! warning and the shell runs without its backend.
use vstd::prelude::*;

verus! {

/// Program that runs the backend.
pub const RUNTIME_PROGRAM: &'static str = "go";

/// Argument that makes the runtime report its version, used as a probe.
pub const RUNTIME_PROBE_ARG: &'static str = "version";

/// Working directory of the backend, relative to the shell's own.
pub const SERVER_DIR: &'static str = "../server";

/// Port the backend listens on.
pub const BACKEND_PORT: u16 = 7072;

/// Why a launch stopped without a running backend.
#[derive(Clone, Copy, Debug, PartialEq, Eq, Structural)]
pub enum LaunchFailure {
    RuntimeMissing,
    ServerDirMissing,
    SpawnFailed,
}

/// Where a launch stands.
#[derive(Clone, Copy, Debug, PartialEq, Eq, Structural)]
pub enum LaunchPhase {
    Idle,
    ProbingRuntime,
    CheckingServerDir,
    Spawning,
    Running,
    Stopped(LaunchFailure),
}

/// Outcome reported by the host for the last action.
#[derive(Clone, Copy, Debug, PartialEq, Eq, Structural)]
pub enum LaunchEvent {
    /// The shell asks for the backend to be launched.
    Start,
    /// Whether the runtime probe could be invoked successfully.
    RuntimeProbed(bool),
    /// Whether the server directory exists.
    ServerDirChecked(bool),
    /// Whether the backend process was spawned.
    Spawned(bool),
}

/// What the host must do next.
#[derive(Clone, Copy, Debug, PartialEq, Eq, Structural)]
pub enum LaunchAction {
    /// Invoke the runtime probe command, discarding its output.
    ProbeRuntime,
    /// Check that the server directory exists.
    CheckServerDir,
    /// Spawn the backend command with captured output.
    SpawnBackend,
    /// Hand the child to a detached task that waits for its exit.
    DetachReaper,
    /// Log a warning; the launch is over.
    Warn(LaunchFailure),
    /// Nothing to do.
    Nothing,
}

/// Phase after `e` arrives in phase `p`. Events that do not answer the
/// pending action leave the phase as it is.
pub open spec fn next_phase(p: LaunchPhase, e: LaunchEvent) -> LaunchPhase {
    match (p, e) {
        (LaunchPhase::Idle, LaunchEvent::Start) => LaunchPhase::ProbingRuntime,
        (LaunchPhase::ProbingRuntime, LaunchEvent::RuntimeProbed(ok)) => if ok {
            LaunchPhase::CheckingServerDir
        } else {
            LaunchPhase::Stopped(LaunchFailure::RuntimeMissing)
        },
        (LaunchPhase::CheckingServerDir, LaunchEvent::ServerDirChecked(ok)) => if ok {
            LaunchPhase::Spawning
        } else {
            LaunchPhase::Stopped(LaunchFailure::ServerDirMissing)
        },
        (LaunchPhase::Spawning, LaunchEvent::Spawned(ok)) => if ok {
            LaunchPhase::Running
        } else {
            LaunchPhase::Stopped(LaunchFailure::SpawnFailed)
        },
        _ => p,
    }
}

/// Action the host performs once `next_phase(p, e)` is entered.
pub open spec fn action_for(p: LaunchPhase, e: LaunchEvent) -> LaunchAction {
    if next_phase(p, e) == p {
        LaunchAction::Nothing
    } else {
        match next_phase(p, e) {
            LaunchPhase::ProbingRuntime => LaunchAction::ProbeRuntime,
            LaunchPhase::CheckingServerDir => LaunchAction::CheckServerDir,
            LaunchPhase::Spawning => LaunchAction::SpawnBackend,
            LaunchPhase::Running => LaunchAction::DetachReaper,
            LaunchPhase::Stopped(f) => LaunchAction::Warn(f),
            LaunchPhase::Idle => LaunchAction::Nothing,
        }
    }
}

/// A command line the host runs.
#[derive(Debug)]
pub struct CommandLine {
    pub program: String,
    pub args: Vec<String>,
    /// Directory to run in; `None` keeps the shell's own.
    pub working_dir: Option<String>,
}

/// Whether `args` holds exactly the strings `expected`, in order.
pub open spec fn args_are(args: Seq<String>, expected: Seq<Seq<char>>) -> bool {
    &&& args.len() == expected.len()
    &&& forall|i: int| 0 <= i < args.len() ==> #[trigger] args[i]@ == expected[i]
}

/// Command that probes whether the runtime is installed.
pub fn runtime_probe_command() -> (r: CommandLine)
    ensures
        r.program@ == RUNTIME_PROGRAM@,
        args_are(r.args@, seq![RUNTIME_PROBE_ARG@]),
        r.working_dir is None,
{
    let mut args: Vec<String> = Vec::new();
    args.push(String::from_str(RUNTIME_PROBE_ARG));
    CommandLine { program: String::from_str(RUNTIME_PROGRAM), args, working_dir: None }
}

/// Command that runs the backend in test mode on its fixed address.
pub fn backend_command() -> (r: CommandLine)
    ensures
        r.program@ == RUNTIME_PROGRAM@,
        args_are(
            r.args@,
            seq!["run"@, "cmd/server/main.go"@, "-mode=test"@, "-addr=:7072"@],
        ),
        r.working_dir matches Some(d) && d@ == SERVER_DIR@,
{
    let mut args: Vec<String> = Vec::new();
    args.push(String::from_str("run"));
    args.push(String::from_str("cmd/server/main.go"));
    args.push(String::from_str("-mode=test"));
    args.push(String::from_str("-addr=:7072"));
    CommandLine {
        program: String::from_str(RUNTIME_PROGRAM),
        args,
        working_dir: Some(String::from_str(SERVER_DIR)),
    }
}

/// Supervisor of one backend launch.
pub struct ProcessSupervisor {
    phase: LaunchPhase,
}

impl ProcessSupervisor {
    /// Current phase.
    pub closed spec fn spec_phase(&self) -> LaunchPhase {
        self.phase
    }

    /// A supervisor that has launched nothing yet.
    pub fn new() -> (r: ProcessSupervisor)
        ensures
            r.spec_phase() == LaunchPhase::Idle,
    {
        ProcessSupervisor { phase: LaunchPhase::Idle }
    }

    /// Current phase.
    pub fn phase(&self) -> (r: LaunchPhase)
        ensures
            r == self.spec_phase(),
    {
        self.phase
    }

    /// Whether a backend process was spawned and is being reaped.
    pub fn has_process(&self) -> (r: bool)
        ensures
            r == (self.spec_phase() == LaunchPhase::Running),
    {
        match self.phase {
            LaunchPhase::Running => true,
            _ => false,
        }
    }

    /// Takes the host's report `e` and says what to do next. Accepts every
    /// event in every phase and never fails.
    pub fn step(&mut self, e: LaunchEvent) -> (r: LaunchAction)
        ensures
            final(self).spec_phase() == next_phase(old(self).spec_phase(), e),
            r == action_for(old(self).spec_phase(), e),
    {
        let next = match (self.phase, e) {
            (LaunchPhase::Idle, LaunchEvent::Start) => LaunchPhase::ProbingRuntime,
            (LaunchPhase::ProbingRuntime, LaunchEvent::RuntimeProbed(ok)) => if ok {
                LaunchPhase::CheckingServerDir
            } else {
                LaunchPhase::Stopped(LaunchFailure::RuntimeMissing)
            },
            (LaunchPhase::CheckingServerDir, LaunchEvent::ServerDirChecked(ok)) => if ok {
                LaunchPhase::Spawning
            } else {
                LaunchPhase::Stopped(LaunchFailure::ServerDirMissing)
            },
            (LaunchPhase::Spawning, LaunchEvent::Spawned(ok)) => if ok {
                LaunchPhase::Running
            } else {
                LaunchPhase::Stopped(LaunchFailure::SpawnFailed)
            },
            (p, _) => p,
        };
        let changed = !same_phase(next, self.phase);
        self.phase = next;
        if !changed {
            LaunchAction::Nothing
        } else {
            match next {
                LaunchPhase::ProbingRuntime => LaunchAction::ProbeRuntime,
                LaunchPhase::CheckingServerDir => LaunchAction::CheckServerDir,
                LaunchPhase::Spawning => LaunchAction::SpawnBackend,
                LaunchPhase::Running => LaunchAction::DetachReaper,
                LaunchPhase::Stopped(f) => LaunchAction::Warn(f),
                LaunchPhase::Idle => LaunchAction::Nothing,
            }
        }
    }
}

/// Whether two phases are the same.
fn same_phase(a: LaunchPhase, b: LaunchPhase) -> (r: bool)
    ensures
        r == (a == b),
{
    a == b
}

/// Once a launch has stopped, it stays stopped: every later event leaves the
/// phase as it is and asks for nothing.
pub proof fn lemma_stopped_is_final(f: LaunchFailure, e: LaunchEvent)
    ensures
        next_phase(LaunchPhase::Stopped(f), e) == LaunchPhase::Stopped(f),
        action_for(LaunchPhase::Stopped(f), e) == LaunchAction::Nothing,
{
}

/// A launch whose runtime probe fails ends right there, with a warning and
/// without any process; it never reaches a spawn.
pub proof fn lemma_launch_without_runtime()
    ensures
        action_for(LaunchPhase::Idle, LaunchEvent::Start) == LaunchAction::ProbeRuntime,
        next_phase(LaunchPhase::Idle, LaunchEvent::Start) == LaunchPhase::ProbingRuntime,
        next_phase(LaunchPhase::ProbingRuntime, LaunchEvent::RuntimeProbed(false))
            == LaunchPhase::Stopped(LaunchFailure::RuntimeMissing),
        action_for(LaunchPhase::ProbingRuntime, LaunchEvent::RuntimeProbed(false))
            == LaunchAction::Warn(LaunchFailure::RuntimeMissing),
{
}

/// A process exists only after the host reported a successful spawn, which
/// it can do only once the runtime and the server directory were found.
pub proof fn lemma_running_only_after_spawn(p: LaunchPhase, e: LaunchEvent)
    requires
        p != LaunchPhase::Running,
        next_phase(p, e) == LaunchPhase::Running,
    ensures
        p == LaunchPhase::Spawning,
        e == LaunchEvent::Spawned(true),
{
}

} // verus!
