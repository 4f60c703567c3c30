//! Run orchestration: one supervisor run from warm-up to a terminal state.
//!
//! A run moves `Idle -> ProbingLiveness -> AlreadyRunning (terminal)` or
//! `-> LocatingCandidates -> Launching -> Started | ExhaustedAllCandidates
//! (terminal)`, exactly once per application lifetime: there is no retry of
//! the whole machine and no re-entry after a terminal state. The driver
//! performs the outside work of each phase — taking the process-table
//! snapshot, resolving the environment's paths, checking and spawning — and
//! feeds every result back through the `on_*` methods.

use vstd::prelude::*;

use crate::config::Config;
use crate::launch::ArtifactShape;
use crate::launch::LaunchOutcome;
use crate::launch::Launcher;
use crate::launch::LauncherState;
use crate::launch::initial_state;
use crate::launch::launch_result;
use crate::launch::step_on_check;
use crate::launch::step_on_spawn;
use crate::locate::EnvPaths;
use crate::locate::candidate_paths;
use crate::locate::candidate_views;
use crate::locate::path_views;
use crate::probe::is_backend_running;
use crate::probe::snapshot_has_name;

verus! {

/// The final state of a whole supervisor run.
#[derive(Clone, Copy, Debug, PartialEq, Eq, Structural)]
pub enum RunOutcome {
    /// A backend process with the expected name was already running; no
    /// candidate was checked and nothing was spawned.
    AlreadyRunning,
    /// One spawn call succeeded.
    Started,
    /// No candidate yielded a running backend. Non-fatal: the application
    /// shell goes on running, and the driver reports the condition to its
    /// diagnostic sink.
    ExhaustedAllCandidates,
}

/// A finished launch search, as the outcome of the whole run.
pub open spec fn run_outcome_of(o: LaunchOutcome) -> RunOutcome {
    match o {
        LaunchOutcome::Started => RunOutcome::Started,
        LaunchOutcome::ExhaustedAllCandidates => RunOutcome::ExhaustedAllCandidates,
    }
}

/// Maps a finished launch search to the run's outcome.
pub fn run_outcome_from(o: LaunchOutcome) -> (r: RunOutcome)
    ensures
        r == run_outcome_of(o),
{
    match o {
        LaunchOutcome::Started => RunOutcome::Started,
        LaunchOutcome::ExhaustedAllCandidates => RunOutcome::ExhaustedAllCandidates,
    }
}

/// Where a run stands.
pub enum SupervisorPhase {
    /// Before the warm-up delay has elapsed; nothing has been done yet.
    Idle,
    /// The driver is to take a fresh process-table snapshot next.
    ProbingLiveness,
    /// The backend is not running; the driver is to resolve the
    /// environment's paths next.
    LocatingCandidates,
    /// The launch search is under way; the embedded launcher names the next
    /// check or spawn.
    Launching { launcher: Launcher },
    /// The run is over. Terminal: no phase follows this one.
    Terminal { outcome: RunOutcome },
}

/// One supervisor run. Entered once per application startup; never re-run.
pub struct Supervisor {
    pub config: Config,
    pub phase: SupervisorPhase,
}

impl Supervisor {
    /// A launching phase carries a well-formed launcher over this run's
    /// configuration, and a launcher that is never already finished: a
    /// finished search collapses to `Terminal` in the same step.
    pub open spec fn wf(&self) -> bool {
        match self.phase {
            SupervisorPhase::Launching { launcher } => {
                &&& launcher.wf()
                &&& launcher.config == self.config
                &&& !(launcher.state is Finished)
            },
            _ => true,
        }
    }

    /// A new run, idle until the warm-up delay has elapsed.
    pub fn new(config: Config) -> (s: Supervisor)
        ensures
            s.config == config,
            s.phase is Idle,
            s.wf(),
    {
        Supervisor { config, phase: SupervisorPhase::Idle }
    }

    /// The warm-up delay is over: probe liveness next.
    pub fn begin(self) -> (s: Supervisor)
        requires
            self.phase is Idle,
        ensures
            s.config == self.config,
            s.phase is ProbingLiveness,
            s.wf(),
    {
        Supervisor { config: self.config, phase: SupervisorPhase::ProbingLiveness }
    }

    /// Feeds in the process-table snapshot. A name matching the expected
    /// backend process name exactly ends the run at once in
    /// `AlreadyRunning`; otherwise the run moves on to locating candidates.
    /// A degraded snapshot simply holds fewer names and so reads as "not
    /// running".
    pub fn on_snapshot(self, snapshot: &Vec<String>) -> (s: Supervisor)
        requires
            self.phase is ProbingLiveness,
        ensures
            s.config == self.config,
            s.wf(),
            snapshot_has_name(snapshot@, self.config.process_name@) ==> s.phase
                == (SupervisorPhase::Terminal { outcome: RunOutcome::AlreadyRunning }),
            !snapshot_has_name(snapshot@, self.config.process_name@) ==> s.phase
                is LocatingCandidates,
    {
        let running = is_backend_running(snapshot, &self.config.process_name);
        let phase = if running {
            SupervisorPhase::Terminal { outcome: RunOutcome::AlreadyRunning }
        } else {
            SupervisorPhase::LocatingCandidates
        };
        Supervisor { config: self.config, phase }
    }

    /// Feeds in the environment's resolved paths: the run builds the
    /// ordered candidate list and enters the launch search — or ends
    /// exhausted at once when not a single candidate could be resolved.
    pub fn on_environment(self, env: &EnvPaths) -> (s: Supervisor)
        requires
            self.phase is LocatingCandidates,
        ensures
            s.config == self.config,
            s.wf(),
            candidate_views(*env, self.config).len() == 0 ==> s.phase == (SupervisorPhase::Terminal {
                outcome: RunOutcome::ExhaustedAllCandidates,
            }),
            candidate_views(*env, self.config).len() > 0 ==> (s.phase
                matches SupervisorPhase::Launching { launcher } && {
                &&& launcher.config == self.config
                &&& path_views(launcher.candidates@) == candidate_views(*env, self.config)
                &&& launcher.state == initial_state(candidate_views(*env, self.config).len())
            }),
    {
        let candidates = candidate_paths(env, &self.config);
        let launcher = Launcher::new(candidates, self.config.clone());
        match launcher.outcome() {
            Some(o) => Supervisor {
                config: self.config,
                phase: SupervisorPhase::Terminal { outcome: run_outcome_from(o) },
            },
            None => Supervisor {
                config: self.config,
                phase: SupervisorPhase::Launching { launcher },
            },
        }
    }

    /// Feeds back the result of the pending existence check.
    pub fn on_artifact_check(self, present: bool) -> (s: Supervisor)
        requires
            self.wf(),
            self.phase matches SupervisorPhase::Launching { launcher } && launcher.state
                is Checking,
        ensures
            s.config == self.config,
            s.wf(),
            self.phase matches SupervisorPhase::Launching { launcher } ==> s.phase
                == phase_after_step(
                launcher,
                step_on_check(launcher.state, launcher.candidates@.len(), present),
            ),
    {
        let Supervisor { config, phase } = self;
        match phase {
            SupervisorPhase::Launching { launcher } => {
                let launcher = launcher.on_artifact_check(present);
                collapse_if_finished(config, launcher)
            },
            _ => Supervisor { config, phase },
        }
    }

    /// Feeds back the result of the pending spawn attempt.
    pub fn on_spawn_result(self, ok: bool) -> (s: Supervisor)
        requires
            self.wf(),
            self.phase matches SupervisorPhase::Launching { launcher } && launcher.state
                is Spawning,
        ensures
            s.config == self.config,
            s.wf(),
            self.phase matches SupervisorPhase::Launching { launcher } ==> s.phase
                == phase_after_step(
                launcher,
                step_on_spawn(launcher.state, launcher.candidates@.len(), ok),
            ),
    {
        let Supervisor { config, phase } = self;
        match phase {
            SupervisorPhase::Launching { launcher } => {
                let launcher = launcher.on_spawn_result(ok);
                collapse_if_finished(config, launcher)
            },
            _ => Supervisor { config, phase },
        }
    }

    /// The run's outcome, once it is terminal.
    pub fn outcome(&self) -> (o: Option<RunOutcome>)
        ensures
            match self.phase {
                SupervisorPhase::Terminal { outcome } => o == Some(outcome),
                _ => o is None,
            },
    {
        match &self.phase {
            SupervisorPhase::Terminal { outcome } => Some(*outcome),
            _ => None,
        }
    }
}

/// The phase a run is in after its launcher took the given step: still
/// launching, or terminal with the search's outcome.
pub open spec fn phase_after_step(launcher: Launcher, stepped: LauncherState) -> SupervisorPhase {
    match stepped {
        LauncherState::Finished { outcome } => SupervisorPhase::Terminal {
            outcome: run_outcome_of(outcome),
        },
        _ => SupervisorPhase::Launching {
            launcher: Launcher {
                candidates: launcher.candidates,
                config: launcher.config,
                state: stepped,
            },
        },
    }
}

/// Wraps a stepped launcher back into a phase, collapsing a finished
/// search to the terminal phase.
fn collapse_if_finished(config: Config, launcher: Launcher) -> (s: Supervisor)
    requires
        launcher.wf(),
        launcher.config == config,
    ensures
        s.config == config,
        s.wf(),
        s.phase == phase_after_step(launcher, launcher.state),
{
    match launcher.outcome() {
        Some(o) => Supervisor {
            config,
            phase: SupervisorPhase::Terminal { outcome: run_outcome_from(o) },
        },
        None => Supervisor { config, phase: SupervisorPhase::Launching { launcher } },
    }
}

/// Replays a whole run against a model of the world: the snapshot the
/// probe would see, the environment's paths, the filesystem and the spawn
/// outcomes. Returns the existence checks performed, the spawn attempts
/// made and the run's final state.
pub open spec fn supervise_run(
    snapshot: Seq<String>,
    env: EnvPaths,
    cfg: Config,
    fs: Set<Seq<Seq<char>>>,
    spawns_ok: spec_fn(int, ArtifactShape) -> bool,
) -> (Seq<(int, ArtifactShape)>, Seq<(int, ArtifactShape)>, RunOutcome) {
    if snapshot_has_name(snapshot, cfg.process_name@) {
        (Seq::empty(), Seq::empty(), RunOutcome::AlreadyRunning)
    } else {
        let searched = launch_result(candidate_views(env, cfg), cfg, fs, spawns_ok);
        (searched.0, searched.1, run_outcome_of(searched.2))
    }
}

/// Law: when a process with the expected name exists in the snapshot, the
/// run ends in `AlreadyRunning` having performed zero candidate checks and
/// zero spawn calls — the launch search is never entered.
pub proof fn lemma_already_running_short_circuits(
    snapshot: Seq<String>,
    env: EnvPaths,
    cfg: Config,
    fs: Set<Seq<Seq<char>>>,
    spawns_ok: spec_fn(int, ArtifactShape) -> bool,
)
    requires
        snapshot_has_name(snapshot, cfg.process_name@),
    ensures
        supervise_run(snapshot, env, cfg, fs, spawns_ok) == (
            Seq::<(int, ArtifactShape)>::empty(),
            Seq::<(int, ArtifactShape)>::empty(),
            RunOutcome::AlreadyRunning,
        ),
{
}

} // verus!
