//! The launcher: an ordered fallback search with early exit.
//!
//! For each candidate root, in priority order, the launcher looks for the
//! known artifact shapes — a compiled executable in the nested build-output
//! directory, a compiled executable at the root, an interpretable script at
//! the root — and asks its driver to spawn the first one found. A failed
//! spawn is logged by the driver and the search continues with the next
//! shape or candidate; the first successful spawn wins and stops the search
//! permanently. When every candidate is exhausted the run ends in
//! [`LaunchOutcome::ExhaustedAllCandidates`], a non-fatal condition.
//!
//! Existence checks and spawns are outside work, so the launcher is a state
//! machine: [`Launcher::next_action`] names the one check or spawn to
//! perform next, and the driver feeds the result back through
//! [`Launcher::on_artifact_check`] and [`Launcher::on_spawn_result`]. The
//! ghost function [`launch_run`] replays a whole search against a model of
//! the filesystem and of the spawn outcomes; the lemmas at the end of this
//! module state the search's ordering laws over it.

use vstd::prelude::*;

use crate::config::Config;
use crate::path::FsPath;

verus! {

/// The kind of backend entry point found (or looked for) at a candidate
/// root, in the order the launcher tries them.
#[derive(Clone, Copy, Debug, PartialEq, Eq, Structural)]
pub enum ArtifactShape {
    /// A compiled executable inside the nested build-output directory.
    CompiledInNestedOutput,
    /// A compiled executable directly at the candidate root.
    CompiledAtRoot,
    /// The entry-point script at the candidate root, run via an interpreter.
    InterpretableScriptAtRoot,
    /// No artifact at this candidate.
    NotFound,
}

/// The terminal result of a launch search.
#[derive(Clone, Copy, Debug, PartialEq, Eq, Structural)]
pub enum LaunchOutcome {
    /// A spawn call succeeded; exactly one backend was started.
    Started,
    /// Every candidate was exhausted without a successful spawn.
    ExhaustedAllCandidates,
}

/// Where the launcher stands in its search.
#[derive(Clone, Copy, Debug, PartialEq, Eq, Structural)]
pub enum LauncherState {
    /// The artifact of shape `shape` at candidate `cand` is to be checked
    /// for existence next.
    Checking { cand: usize, shape: ArtifactShape },
    /// That artifact exists; it is to be spawned next.
    Spawning { cand: usize, shape: ArtifactShape },
    /// The search is over.
    Finished { outcome: LaunchOutcome },
}

/// The order the shapes are probed in at one candidate.
pub open spec fn shape_rank(shape: ArtifactShape) -> int {
    match shape {
        ArtifactShape::CompiledInNestedOutput => 0,
        ArtifactShape::CompiledAtRoot => 1,
        ArtifactShape::InterpretableScriptAtRoot => 2,
        ArtifactShape::NotFound => 3,
    }
}

/// Where the artifact of the given shape lives, relative to a candidate
/// root.
pub open spec fn artifact_location(cand: Seq<Seq<char>>, shape: ArtifactShape, cfg: Config) -> Seq<
    Seq<char>,
> {
    match shape {
        ArtifactShape::CompiledInNestedOutput => cand.push(cfg.dist_dir_name@).push(
            cfg.exe_file_name@,
        ),
        ArtifactShape::CompiledAtRoot => cand.push(cfg.exe_file_name@),
        ArtifactShape::InterpretableScriptAtRoot => cand.push(cfg.script_file_name@),
        ArtifactShape::NotFound => cand,
    }
}

/// A launcher state is well formed for a search over `n` candidates when
/// its candidate index is in range and its shape is one of the three that
/// are actually probed.
pub open spec fn state_wf(s: LauncherState, n: nat) -> bool {
    &&& n <= usize::MAX
    &&& match s {
        LauncherState::Checking { cand, shape } => cand < n && shape != ArtifactShape::NotFound,
        LauncherState::Spawning { cand, shape } => cand < n && shape != ArtifactShape::NotFound,
        LauncherState::Finished { .. } => true,
    }
}

/// The state a search over `n` candidates starts in: checking the first
/// shape of the first candidate, or already exhausted when there is no
/// candidate at all.
pub open spec fn initial_state(n: nat) -> LauncherState {
    if n == 0 {
        LauncherState::Finished { outcome: LaunchOutcome::ExhaustedAllCandidates }
    } else {
        LauncherState::Checking { cand: 0, shape: ArtifactShape::CompiledInNestedOutput }
    }
}

/// The state after giving up on the artifact of shape `shape` at candidate
/// `cand`: the next shape of the same candidate, else the first shape of
/// the next candidate, else exhaustion.
pub open spec fn advanced_state(cand: usize, shape: ArtifactShape, n: nat) -> LauncherState {
    if shape == ArtifactShape::CompiledInNestedOutput {
        LauncherState::Checking { cand, shape: ArtifactShape::CompiledAtRoot }
    } else if shape == ArtifactShape::CompiledAtRoot {
        LauncherState::Checking { cand, shape: ArtifactShape::InterpretableScriptAtRoot }
    } else if cand + 1 < n {
        LauncherState::Checking {
            cand: (cand + 1) as usize,
            shape: ArtifactShape::CompiledInNestedOutput,
        }
    } else {
        LauncherState::Finished { outcome: LaunchOutcome::ExhaustedAllCandidates }
    }
}

/// The transition taken when the driver reports whether the checked
/// artifact exists: found means spawn it next, missing means move on.
pub open spec fn step_on_check(s: LauncherState, n: nat, present: bool) -> LauncherState
    recommends
        s is Checking,
{
    match s {
        LauncherState::Checking { cand, shape } => if present {
            LauncherState::Spawning { cand, shape }
        } else {
            advanced_state(cand, shape, n)
        },
        _ => s,
    }
}

/// The transition taken when the driver reports the spawn's result: success
/// ends the whole search, failure moves on to the next shape or candidate.
pub open spec fn step_on_spawn(s: LauncherState, n: nat, ok: bool) -> LauncherState
    recommends
        s is Spawning,
{
    match s {
        LauncherState::Spawning { cand, shape } => if ok {
            LauncherState::Finished { outcome: LaunchOutcome::Started }
        } else {
            advanced_state(cand, shape, n)
        },
        _ => s,
    }
}

/// What the launcher asks its driver to do next.
#[derive(Debug, PartialEq, Eq)]
pub enum LaunchAction {
    /// Test whether a file exists at `path`.
    CheckArtifact { path: FsPath },
    /// Spawn a detached backend process as `request` describes.
    SpawnProcess { request: SpawnRequest },
}

/// One detached spawn: which program to start, and the candidate root to
/// use as its working directory. Standard output and error are discarded by
/// the driver; the supervisor never reads them.
#[derive(Debug, PartialEq, Eq)]
pub struct SpawnRequest {
    pub program: SpawnProgram,
    pub working_dir: FsPath,
}

/// The program of one spawn: the compiled artifact itself, or an
/// interpreter handed the script's path as its argument.
#[derive(Debug, PartialEq, Eq)]
pub enum SpawnProgram {
    Executable { path: FsPath },
    Interpreter { interpreter: String, script: FsPath },
}

/// Whether `req` is the spawn the protocol prescribes for the artifact of
/// shape `shape` at candidate root `cand`: working directory at the root,
/// and the program matching the shape.
pub open spec fn request_matches(
    req: SpawnRequest,
    cand: Seq<Seq<char>>,
    shape: ArtifactShape,
    cfg: Config,
) -> bool {
    &&& req.working_dir@ == cand
    &&& match shape {
        ArtifactShape::CompiledInNestedOutput | ArtifactShape::CompiledAtRoot => req.program
            matches SpawnProgram::Executable { path } && path@ == artifact_location(
            cand,
            shape,
            cfg,
        ),
        ArtifactShape::InterpretableScriptAtRoot => req.program matches SpawnProgram::Interpreter {
            interpreter,
            script,
        } && interpreter@ == cfg.interpreter@ && script@ == artifact_location(cand, shape, cfg),
        ArtifactShape::NotFound => false,
    }
}

/// Builds the location of the artifact of the given shape under a candidate
/// root.
pub fn artifact_path(cand: &FsPath, shape: ArtifactShape, cfg: &Config) -> (p: FsPath)
    requires
        shape != ArtifactShape::NotFound,
    ensures
        p@ == artifact_location(cand@, shape, *cfg),
{
    match shape {
        ArtifactShape::CompiledInNestedOutput => cand.joined(&cfg.dist_dir_name).joined(
            &cfg.exe_file_name,
        ),
        ArtifactShape::CompiledAtRoot => cand.joined(&cfg.exe_file_name),
        ArtifactShape::InterpretableScriptAtRoot | ArtifactShape::NotFound => cand.joined(
            &cfg.script_file_name,
        ),
    }
}

/// Builds the spawn request for the artifact of the given shape at a
/// candidate root.
pub fn build_spawn_request(cand: &FsPath, shape: ArtifactShape, cfg: &Config) -> (req: SpawnRequest)
    requires
        shape != ArtifactShape::NotFound,
    ensures
        request_matches(req, cand@, shape, *cfg),
{
    let working_dir = cand.clone();
    match shape {
        ArtifactShape::CompiledInNestedOutput | ArtifactShape::CompiledAtRoot => SpawnRequest {
            program: SpawnProgram::Executable { path: artifact_path(cand, shape, cfg) },
            working_dir,
        },
        ArtifactShape::InterpretableScriptAtRoot | ArtifactShape::NotFound => SpawnRequest {
            program: SpawnProgram::Interpreter {
                interpreter: cfg.interpreter.clone(),
                script: artifact_path(cand, shape, cfg),
            },
            working_dir,
        },
    }
}

/// One launch search: the candidate roots in priority order, the
/// configuration, and where the search stands.
pub struct Launcher {
    pub candidates: Vec<FsPath>,
    pub config: Config,
    pub state: LauncherState,
}

impl Launcher {
    /// The launcher's state is well formed for its own candidate list.
    pub open spec fn wf(&self) -> bool {
        state_wf(self.state, self.candidates@.len())
    }

    /// Starts a search over the given candidates.
    pub fn new(candidates: Vec<FsPath>, config: Config) -> (l: Launcher)
        ensures
            l.candidates == candidates,
            l.config == config,
            l.state == initial_state(candidates@.len()),
            l.wf(),
    {
        let state = if candidates.len() == 0 {
            LauncherState::Finished { outcome: LaunchOutcome::ExhaustedAllCandidates }
        } else {
            LauncherState::Checking { cand: 0, shape: ArtifactShape::CompiledInNestedOutput }
        };
        Launcher { candidates, config, state }
    }

    /// The one piece of outside work to perform next: an existence check
    /// while checking, a spawn while spawning, nothing once finished.
    pub fn next_action(&self) -> (a: Option<LaunchAction>)
        requires
            self.wf(),
        ensures
            match self.state {
                LauncherState::Checking { cand, shape } => a matches Some(
                    LaunchAction::CheckArtifact { path },
                ) && path@ == artifact_location(
                    self.candidates@[cand as int]@,
                    shape,
                    self.config,
                ),
                LauncherState::Spawning { cand, shape } => a matches Some(
                    LaunchAction::SpawnProcess { request },
                ) && request_matches(request, self.candidates@[cand as int]@, shape, self.config),
                LauncherState::Finished { .. } => a is None,
            },
    {
        match &self.state {
            LauncherState::Checking { cand, shape } => Some(
                LaunchAction::CheckArtifact {
                    path: artifact_path(&self.candidates[*cand], *shape, &self.config),
                },
            ),
            LauncherState::Spawning { cand, shape } => Some(
                LaunchAction::SpawnProcess {
                    request: build_spawn_request(&self.candidates[*cand], *shape, &self.config),
                },
            ),
            LauncherState::Finished { .. } => None,
        }
    }

    /// Feeds back the result of the pending existence check.
    pub fn on_artifact_check(self, present: bool) -> (l: Launcher)
        requires
            self.state is Checking,
            self.wf(),
        ensures
            l.candidates == self.candidates,
            l.config == self.config,
            l.state == step_on_check(self.state, self.candidates@.len(), present),
            l.wf(),
    {
        let Launcher { candidates, config, state } = self;
        let state = match state {
            LauncherState::Checking { cand, shape } => {
                if present {
                    LauncherState::Spawning { cand, shape }
                } else {
                    advance(cand, shape, candidates.len())
                }
            },
            _ => state,
        };
        Launcher { candidates, config, state }
    }

    /// Feeds back the result of the pending spawn attempt.
    pub fn on_spawn_result(self, ok: bool) -> (l: Launcher)
        requires
            self.state is Spawning,
            self.wf(),
        ensures
            l.candidates == self.candidates,
            l.config == self.config,
            l.state == step_on_spawn(self.state, self.candidates@.len(), ok),
            l.wf(),
    {
        let Launcher { candidates, config, state } = self;
        let state = match state {
            LauncherState::Spawning { cand, shape } => {
                if ok {
                    LauncherState::Finished { outcome: LaunchOutcome::Started }
                } else {
                    advance(cand, shape, candidates.len())
                }
            },
            _ => state,
        };
        Launcher { candidates, config, state }
    }

    /// The search's outcome, once it is finished.
    pub fn outcome(&self) -> (o: Option<LaunchOutcome>)
        ensures
            match self.state {
                LauncherState::Finished { outcome } => o == Some(outcome),
                _ => o is None,
            },
    {
        match &self.state {
            LauncherState::Finished { outcome } => Some(*outcome),
            _ => None,
        }
    }
}

/// Moves past the artifact of shape `shape` at candidate `cand`.
fn advance(cand: usize, shape: ArtifactShape, n: usize) -> (s: LauncherState)
    requires
        cand < n,
        shape != ArtifactShape::NotFound,
    ensures
        s == advanced_state(cand, shape, n as nat),
{
    match shape {
        ArtifactShape::CompiledInNestedOutput => LauncherState::Checking {
            cand,
            shape: ArtifactShape::CompiledAtRoot,
        },
        ArtifactShape::CompiledAtRoot => LauncherState::Checking {
            cand,
            shape: ArtifactShape::InterpretableScriptAtRoot,
        },
        ArtifactShape::InterpretableScriptAtRoot | ArtifactShape::NotFound => {
            if cand + 1 < n {
                LauncherState::Checking {
                    cand: cand + 1,
                    shape: ArtifactShape::CompiledInNestedOutput,
                }
            } else {
                LauncherState::Finished { outcome: LaunchOutcome::ExhaustedAllCandidates }
            }
        },
    }
}

/// How many candidates the search, in state `s`, has not yet moved past.
pub open spec fn candidates_left(s: LauncherState, n: nat) -> int {
    match s {
        LauncherState::Checking { cand, .. } => n - cand,
        LauncherState::Spawning { cand, .. } => n - cand,
        LauncherState::Finished { .. } => 0,
    }
}

/// How many shapes of the current candidate the search has not yet moved
/// past.
pub open spec fn shapes_left(s: LauncherState) -> int {
    match s {
        LauncherState::Checking { shape, .. } => 3 - shape_rank(shape),
        LauncherState::Spawning { shape, .. } => 3 - shape_rank(shape),
        LauncherState::Finished { .. } => 0,
    }
}

/// Within one shape, a check comes before a spawn.
pub open spec fn phase_rank(s: LauncherState) -> int {
    match s {
        LauncherState::Checking { .. } => 1,
        _ => 0,
    }
}

/// Replays a whole search from state `s`, against a model of the world:
/// `fs` is the set of paths at which a file exists, and `spawns_ok` says
/// whether the spawn of a given candidate's artifact of a given shape would
/// succeed. Returns the existence checks the search performs, the spawn
/// attempts it makes — each in order, as a candidate index and shape — and
/// the outcome it ends in.
///
/// This is the launcher's whole behaviour in one ghost function: the
/// driver's loop — perform the pending action, feed the result back —
/// follows these very transitions, so a sequence of
/// [`Launcher::on_artifact_check`] and [`Launcher::on_spawn_result`] calls
/// whose results agree with `fs` and `spawns_ok` ends in the outcome
/// `launch_run(s, ...).2`.
pub open spec fn launch_run(
    s: LauncherState,
    cands: Seq<Seq<Seq<char>>>,
    cfg: Config,
    fs: Set<Seq<Seq<char>>>,
    spawns_ok: spec_fn(int, ArtifactShape) -> bool,
) -> (Seq<(int, ArtifactShape)>, Seq<(int, ArtifactShape)>, LaunchOutcome)
    decreases candidates_left(s, cands.len()), shapes_left(s), phase_rank(s),
{
    if !state_wf(s, cands.len()) {
        (Seq::empty(), Seq::empty(), LaunchOutcome::ExhaustedAllCandidates)
    } else {
        match s {
            LauncherState::Finished { outcome } => (Seq::empty(), Seq::empty(), outcome),
            LauncherState::Checking { cand, shape } => {
                let present = fs.contains(artifact_location(cands[cand as int], shape, cfg));
                let rest = launch_run(step_on_check(s, cands.len(), present), cands, cfg, fs, spawns_ok);
                (seq![(cand as int, shape)] + rest.0, rest.1, rest.2)
            },
            LauncherState::Spawning { cand, shape } => {
                let ok = spawns_ok(cand as int, shape);
                let rest = launch_run(step_on_spawn(s, cands.len(), ok), cands, cfg, fs, spawns_ok);
                (rest.0, seq![(cand as int, shape)] + rest.1, rest.2)
            },
        }
    }
}

/// A whole search from the start: the checks, the spawn attempts and the
/// outcome that `launch` over the given candidates comes to, in the world
/// that `fs` and `spawns_ok` describe.
pub open spec fn launch_result(
    cands: Seq<Seq<Seq<char>>>,
    cfg: Config,
    fs: Set<Seq<Seq<char>>>,
    spawns_ok: spec_fn(int, ArtifactShape) -> bool,
) -> (Seq<(int, ArtifactShape)>, Seq<(int, ArtifactShape)>, LaunchOutcome) {
    launch_run(initial_state(cands.len()), cands, cfg, fs, spawns_ok)
}

/// When no candidate root holds any artifact, the search ends in
/// exhaustion and makes not a single spawn attempt — from any checking
/// state, not only from the start.
proof fn lemma_no_artifact_from(
    s: LauncherState,
    cands: Seq<Seq<Seq<char>>>,
    cfg: Config,
    fs: Set<Seq<Seq<char>>>,
    spawns_ok: spec_fn(int, ArtifactShape) -> bool,
)
    requires
        state_wf(s, cands.len()),
        !(s is Spawning),
        s matches LauncherState::Finished { outcome } ==> outcome
            == LaunchOutcome::ExhaustedAllCandidates,
        forall|c: int, shape: ArtifactShape|
            0 <= c < cands.len() && shape != ArtifactShape::NotFound ==> !fs.contains(
                artifact_location(cands[c], shape, cfg),
            ),
    ensures
        launch_run(s, cands, cfg, fs, spawns_ok).1 == Seq::<(int, ArtifactShape)>::empty(),
        launch_run(s, cands, cfg, fs, spawns_ok).2 == LaunchOutcome::ExhaustedAllCandidates,
    decreases candidates_left(s, cands.len()), shapes_left(s), phase_rank(s),
{
    match s {
        LauncherState::Finished { .. } => {},
        LauncherState::Checking { cand, shape } => {
            assert(!fs.contains(artifact_location(cands[cand as int], shape, cfg)));
            lemma_no_artifact_from(
                step_on_check(s, cands.len(), false),
                cands,
                cfg,
                fs,
                spawns_ok,
            );
        },
        LauncherState::Spawning { .. } => {},
    }
}

/// Law: given candidate roots none of which contains any artifact, the
/// search returns `ExhaustedAllCandidates` and performs zero spawn calls.
pub proof fn lemma_no_artifact_exhausts(
    cands: Seq<Seq<Seq<char>>>,
    cfg: Config,
    fs: Set<Seq<Seq<char>>>,
    spawns_ok: spec_fn(int, ArtifactShape) -> bool,
)
    requires
        cands.len() <= usize::MAX,
        forall|c: int, shape: ArtifactShape|
            0 <= c < cands.len() && shape != ArtifactShape::NotFound ==> !fs.contains(
                artifact_location(cands[c], shape, cfg),
            ),
    ensures
        launch_result(cands, cfg, fs, spawns_ok).2 == LaunchOutcome::ExhaustedAllCandidates,
        launch_result(cands, cfg, fs, spawns_ok).1 == Seq::<(int, ArtifactShape)>::empty(),
{
    lemma_no_artifact_from(initial_state(cands.len()), cands, cfg, fs, spawns_ok);
}

/// Law: priority order is honoured even when a later candidate holds a
/// "stronger" shape. With two candidate roots, the first holding only a
/// valid entry-point script and the second a compiled executable, the
/// search spawns once, from the first root's script, and returns `Started`
/// — the second root is never touched.
pub proof fn lemma_priority_order_honoured(
    cands: Seq<Seq<Seq<char>>>,
    cfg: Config,
    fs: Set<Seq<Seq<char>>>,
    spawns_ok: spec_fn(int, ArtifactShape) -> bool,
)
    requires
        cands.len() == 2,
        !fs.contains(artifact_location(cands[0], ArtifactShape::CompiledInNestedOutput, cfg)),
        !fs.contains(artifact_location(cands[0], ArtifactShape::CompiledAtRoot, cfg)),
        fs.contains(artifact_location(cands[0], ArtifactShape::InterpretableScriptAtRoot, cfg)),
        fs.contains(artifact_location(cands[1], ArtifactShape::CompiledAtRoot, cfg)),
        spawns_ok(0, ArtifactShape::InterpretableScriptAtRoot),
    ensures
        launch_result(cands, cfg, fs, spawns_ok).2 == LaunchOutcome::Started,
        launch_result(cands, cfg, fs, spawns_ok).1 == seq![
            (0int, ArtifactShape::InterpretableScriptAtRoot),
        ],
{
    let n = cands.len();
    let s0 = initial_state(n);
    let s1 = LauncherState::Checking { cand: 0, shape: ArtifactShape::CompiledAtRoot };
    let s2 = LauncherState::Checking { cand: 0, shape: ArtifactShape::InterpretableScriptAtRoot };
    let s3 = LauncherState::Spawning { cand: 0, shape: ArtifactShape::InterpretableScriptAtRoot };
    let s4 = LauncherState::Finished { outcome: LaunchOutcome::Started };
    assert(launch_run(s0, cands, cfg, fs, spawns_ok).1 == launch_run(s1, cands, cfg, fs, spawns_ok).1
        && launch_run(s0, cands, cfg, fs, spawns_ok).2 == launch_run(
        s1,
        cands,
        cfg,
        fs,
        spawns_ok,
    ).2);
    assert(launch_run(s1, cands, cfg, fs, spawns_ok).1 == launch_run(s2, cands, cfg, fs, spawns_ok).1
        && launch_run(s1, cands, cfg, fs, spawns_ok).2 == launch_run(
        s2,
        cands,
        cfg,
        fs,
        spawns_ok,
    ).2);
    assert(launch_run(s2, cands, cfg, fs, spawns_ok).1 == launch_run(s3, cands, cfg, fs, spawns_ok).1
        && launch_run(s2, cands, cfg, fs, spawns_ok).2 == launch_run(
        s3,
        cands,
        cfg,
        fs,
        spawns_ok,
    ).2);
    assert(launch_run(s4, cands, cfg, fs, spawns_ok).1 == Seq::<(int, ArtifactShape)>::empty());
    assert(launch_run(s3, cands, cfg, fs, spawns_ok).1 =~= seq![
        (0int, ArtifactShape::InterpretableScriptAtRoot),
    ]);
}

/// Law: within one candidate root holding both the nested-output executable
/// and the root-level executable, the nested-output one is attempted first,
/// and if its spawn fails the root-level one is attempted next, still
/// within the same candidate.
pub proof fn lemma_same_candidate_fallback(
    cands: Seq<Seq<Seq<char>>>,
    cfg: Config,
    fs: Set<Seq<Seq<char>>>,
    spawns_ok: spec_fn(int, ArtifactShape) -> bool,
)
    requires
        1 <= cands.len() <= usize::MAX,
        fs.contains(artifact_location(cands[0], ArtifactShape::CompiledInNestedOutput, cfg)),
        fs.contains(artifact_location(cands[0], ArtifactShape::CompiledAtRoot, cfg)),
        !spawns_ok(0, ArtifactShape::CompiledInNestedOutput),
    ensures
        launch_result(cands, cfg, fs, spawns_ok).1.len() >= 2,
        launch_result(cands, cfg, fs, spawns_ok).1[0] == (
            0int,
            ArtifactShape::CompiledInNestedOutput,
        ),
        launch_result(cands, cfg, fs, spawns_ok).1[1] == (0int, ArtifactShape::CompiledAtRoot),
{
    let n = cands.len();
    let s0 = initial_state(n);
    let s1 = LauncherState::Spawning { cand: 0, shape: ArtifactShape::CompiledInNestedOutput };
    let s2 = LauncherState::Checking { cand: 0, shape: ArtifactShape::CompiledAtRoot };
    let s3 = LauncherState::Spawning { cand: 0, shape: ArtifactShape::CompiledAtRoot };
    assert(launch_run(s0, cands, cfg, fs, spawns_ok).1 == launch_run(
        s1,
        cands,
        cfg,
        fs,
        spawns_ok,
    ).1);
    assert(launch_run(s2, cands, cfg, fs, spawns_ok).1 == launch_run(
        s3,
        cands,
        cfg,
        fs,
        spawns_ok,
    ).1);
    let tail = launch_run(s3, cands, cfg, fs, spawns_ok);
    assert(launch_run(s1, cands, cfg, fs, spawns_ok).1 == seq![
        (0int, ArtifactShape::CompiledInNestedOutput),
    ] + tail.1);
    assert(tail.1[0] == (0int, ArtifactShape::CompiledAtRoot));
}

} // verus!
