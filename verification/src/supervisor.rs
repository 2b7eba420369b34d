//! The process supervisor: at most one tracked child at a time.
//!
//! `start` and `stop` decide; the surrounding shell acts. `start` hands back
//! either nothing to do (a child is already tracked), a complete launch plan,
//! or a request to run a bootstrap script first. The shell reports a
//! successful spawn through `note_spawned`, and `stop` tells it which child
//! to terminate and reap.

use crate::launch::LaunchPlan;
use crate::launch::StartConfig;
use crate::launch::build_launch_plan;
use crate::launch::join_seq;
use crate::launch::plan_matches;
use crate::paths::FsModel;
use crate::paths::ScriptCall;
use crate::paths::bootstrap_script;
use crate::paths::bootstrap_script_spec;
use crate::paths::bundled_python_path;
use crate::paths::bundled_python_spec;
use crate::launch::join_path;
use vstd::prelude::*;

verus! {

/// The interpreter named by the override variable, when set and non-empty.
pub open spec fn explicit_interpreter(cfg: StartConfig) -> Option<Seq<char>> {
    match cfg.python_override {
        Some(p) => if p@.len() > 0 {
            Some(p@)
        } else {
            None
        },
        None => None,
    }
}

/// The interpreter resolvable without bootstrapping: the override if set and
/// non-empty, else the bundled interpreter's path in string form.
pub open spec fn interpreter_before_bootstrap(cfg: StartConfig, fs: FsModel) -> Option<Seq<char>> {
    match explicit_interpreter(cfg) {
        Some(p) => Some(p),
        None => match bundled_python_spec(fs, cfg.cwd.deep_view(), cfg.exe_dir.deep_view()) {
            Some(path) => Some(join_seq(path, cfg.path_sep@)),
            None => None,
        },
    }
}

/// The interpreter settled on once bootstrapping has been attempted: the
/// override if set and non-empty, else the bundled interpreter if the
/// bootstrap provisioned it, else the bare command name found on the ambient
/// system search path.
pub open spec fn interpreter_after_bootstrap(cfg: StartConfig, fs: FsModel) -> Seq<char> {
    match interpreter_before_bootstrap(cfg, fs) {
        Some(p) => p,
        None => "python"@,
    }
}

/// Resolves the interpreter without bootstrapping, if one can be found.
fn resolve_interpreter(cfg: &StartConfig, fs: &FsModel) -> (r: Option<String>)
    ensures
        match r {
            Some(p) => interpreter_before_bootstrap(*cfg, *fs) == Some(p@),
            None => interpreter_before_bootstrap(*cfg, *fs) is None,
        },
{
    match &cfg.python_override {
        Some(p) => {
            if !p.as_str().is_empty() {
                return Some(p.clone());
            }
        },
        None => {},
    }
    match bundled_python_path(fs, &cfg.cwd, &cfg.exe_dir) {
        Some(path) => Some(join_path(&path, cfg.path_sep.as_str())),
        None => None,
    }
}

/// What the shell must do next after asking for a start.
pub enum StartStep {
    /// A child is already tracked; spawn nothing.
    AlreadyRunning,
    /// Spawn the child this plan describes.
    Ready(LaunchPlan),
    /// Run the bootstrap script, if one was found, take a fresh filesystem
    /// snapshot, and ask again through `start_after_bootstrap`.
    NeedBootstrap(Option<ScriptCall>),
}

/// What the shell must do next after asking for a stop.
#[derive(PartialEq, Eq, Structural, Debug)]
pub enum StopAction {
    /// No child is tracked; do nothing.
    Nothing,
    /// Forcefully terminate this child and block until it is reaped.
    KillAndWait(u64),
}

/// `step` is what `start` owes the shell for state `s`, configuration `cfg`
/// and snapshot `fs`: nothing when a child is tracked; a full launch plan
/// when an interpreter is resolvable; else a bootstrap request carrying the
/// script choice.
pub open spec fn start_step_ok(
    s: ServerState,
    cfg: StartConfig,
    fs: FsModel,
    step: StartStep,
) -> bool {
    if s.tracked_child() is Some {
        step is AlreadyRunning
    } else {
        match interpreter_before_bootstrap(cfg, fs) {
            Some(program) => match step {
                StartStep::Ready(plan) => plan_matches(cfg, fs, program, plan),
                _ => false,
            },
            None => match step {
                StartStep::NeedBootstrap(call) => match call {
                    Some(c) => bootstrap_script_spec(fs, cfg.cwd.deep_view(), cfg.exe_dir.deep_view())
                        == Some((c.shell, c.script.deep_view())),
                    None => bootstrap_script_spec(fs, cfg.cwd.deep_view(), cfg.exe_dir.deep_view())
                        is None,
                },
                _ => false,
            },
        }
    }
}

/// Tracks at most one live child process, identified by a token the shell
/// hands back after a successful spawn.
pub struct ServerState {
    child: Option<u64>,
}

impl ServerState {
    /// The token of the tracked child, if one is tracked.
    pub closed spec fn tracked_child(self) -> Option<u64> {
        self.child
    }

    /// How many children the supervisor tracks: zero or one by construction.
    pub open spec fn tracked_count(self) -> nat {
        if self.tracked_child() is Some {
            1
        } else {
            0
        }
    }

    /// A fresh supervisor tracks nothing.
    pub fn new() -> (s: Self)
        ensures
            s.tracked_child() is None,
    {
        ServerState { child: None }
    }

    /// Decides how to start the child. Idempotent: with a child already
    /// tracked it asks for nothing, so a second start spawns nothing.
    pub fn start(&self, cfg: &StartConfig, fs: &FsModel) -> (step: StartStep)
        ensures
            start_step_ok(*self, *cfg, *fs, step),
    {
        if self.child.is_some() {
            return StartStep::AlreadyRunning;
        }
        match resolve_interpreter(cfg, fs) {
            Some(program) => StartStep::Ready(build_launch_plan(cfg, fs, program)),
            None => StartStep::NeedBootstrap(bootstrap_script(fs, &cfg.cwd, &cfg.exe_dir)),
        }
    }

    /// Decides how to start the child once bootstrapping has been attempted,
    /// judging the fresh snapshot `fs`: the launch plan falls back to the
    /// bare command name when the bundled interpreter is still missing.
    pub fn start_after_bootstrap(&self, cfg: &StartConfig, fs: &FsModel) -> (step: StartStep)
        ensures
            self.tracked_child() is Some ==> step is AlreadyRunning,
            self.tracked_child() is None ==> match step {
                StartStep::Ready(plan) => plan_matches(
                    *cfg,
                    *fs,
                    interpreter_after_bootstrap(*cfg, *fs),
                    plan,
                ),
                _ => false,
            },
    {
        if self.child.is_some() {
            return StartStep::AlreadyRunning;
        }
        let program: String = match resolve_interpreter(cfg, fs) {
            Some(p) => p,
            None => "python".to_owned(),
        };
        StartStep::Ready(build_launch_plan(cfg, fs, program))
    }

    /// Is a child currently tracked?
    pub fn is_running(&self) -> (r: bool)
        ensures
            r == (self.tracked_child() is Some),
    {
        self.child.is_some()
    }

    /// Records the child the shell spawned for the plan `start` handed out.
    pub fn note_spawned(&mut self, child: u64)
        requires
            old(self).tracked_child() is None,
        ensures
            final(self).tracked_child() == Some(child),
    {
        self.child = Some(child);
    }

    /// Clears the tracked child and tells the shell which child to terminate
    /// and reap; with no tracked child it asks for no operating-system call
    /// at all, and it never fails.
    pub fn stop(&mut self) -> (a: StopAction)
        ensures
            final(self).tracked_child() is None,
            match old(self).tracked_child() {
                Some(c) => a == StopAction::KillAndWait(c),
                None => a == StopAction::Nothing,
            },
    {
        match self.child {
            Some(c) => {
                self.child = None;
                StopAction::KillAndWait(c)
            },
            None => StopAction::Nothing,
        }
    }
}

/// The tracked-process count never leaves {0, 1}: every state the supervisor
/// can be in — hence the state after any sequence of `start`/`stop` calls —
/// holds at most one child handle.
pub proof fn lemma_tracked_count_bounded(s: ServerState)
    ensures
        s.tracked_count() <= 1,
{
}

/// Two `start` calls with no intervening `stop` spawn exactly one child: once
/// the child from the first call's plan is tracked, any later `start` asks
/// for nothing, so no second spawn occurs.
pub proof fn lemma_second_start_spawns_nothing(
    s: ServerState,
    cfg: StartConfig,
    fs: FsModel,
    step: StartStep,
)
    requires
        s.tracked_child() is Some,
        start_step_ok(s, cfg, fs, step),
    ensures
        step is AlreadyRunning,
{
}

/// A `stop` with no tracked child asks the operating system for nothing: the
/// action `stop`'s contract owes an idle supervisor is `Nothing`, and `stop`
/// returns without error on every input.
pub proof fn lemma_stop_idle_is_noop(s: ServerState, a: StopAction)
    requires
        s.tracked_child() is None,
        match s.tracked_child() {
            Some(c) => a == StopAction::KillAndWait(c),
            None => a == StopAction::Nothing,
        },
    ensures
        a == StopAction::Nothing,
{
}

/// The grace delay, in milliseconds, the shell waits after a successful start
/// before loading the backend's page, so the server is more likely to be
/// accepting connections; a best-effort heuristic, not a readiness handshake.
pub const STARTUP_GRACE_MILLIS: u64 = 300;

} // verus!
