use sidecar_supervisor::config::Config;
use sidecar_supervisor::launch::ArtifactShape;
use sidecar_supervisor::launch::LaunchAction;
use sidecar_supervisor::launch::LaunchOutcome;
use sidecar_supervisor::launch::Launcher;
use sidecar_supervisor::launch::LauncherState;
use sidecar_supervisor::launch::SpawnProgram;
use sidecar_supervisor::launch::SpawnRequest;
use sidecar_supervisor::locate::EnvPaths;
use sidecar_supervisor::locate::candidate_paths;
use sidecar_supervisor::path::FsPath;
use sidecar_supervisor::probe::is_backend_running;
use sidecar_supervisor::supervise::RunOutcome;
use sidecar_supervisor::supervise::Supervisor;
use sidecar_supervisor::supervise::SupervisorPhase;

fn strings(segs: &[&str]) -> Vec<String> {
    segs.iter().map(|s| s.to_string()).collect()
}

fn fspath(segs: &[&str]) -> FsPath {
    FsPath { segments: strings(segs) }
}

/// Drives a supervisor that has reached the launch search (or a terminal
/// phase) to its end, against a pretend filesystem (`existing` lists the
/// paths at which a file exists) and a list of spawn results handed out in
/// order. Returns the finished supervisor, every path whose existence was
/// checked, and every spawn request made.
fn drive_to_end(
    mut sup: Supervisor,
    existing: &[Vec<String>],
    spawn_results: &[bool],
) -> (Supervisor, Vec<FsPath>, Vec<SpawnRequest>) {
    let mut checked: Vec<FsPath> = Vec::new();
    let mut spawns: Vec<SpawnRequest> = Vec::new();
    let mut next_spawn: usize = 0;
    loop {
        let action = match &sup.phase {
            SupervisorPhase::Launching { launcher } => launcher.next_action(),
            _ => None,
        };
        match action {
            Some(LaunchAction::CheckArtifact { path }) => {
                let present = existing.iter().any(|e| *e == path.segments);
                checked.push(path);
                sup = sup.on_artifact_check(present);
            }
            Some(LaunchAction::SpawnProcess { request }) => {
                let ok = spawn_results[next_spawn];
                next_spawn += 1;
                spawns.push(request);
                sup = sup.on_spawn_result(ok);
            }
            None => break,
        }
    }
    (sup, checked, spawns)
}

/// Runs a whole supervision: probe, locate, launch.
fn run_supervisor(
    windows: bool,
    snapshot: &[&str],
    env: &EnvPaths,
    existing: &[Vec<String>],
    spawn_results: &[bool],
) -> (Option<RunOutcome>, Vec<FsPath>, Vec<SpawnRequest>) {
    let cfg = Config::new(windows);
    let mut sup = Supervisor::new(cfg).begin();
    let snap: Vec<String> = snapshot.iter().map(|s| s.to_string()).collect();
    sup = sup.on_snapshot(&snap);
    if matches!(sup.phase, SupervisorPhase::LocatingCandidates) {
        sup = sup.on_environment(env);
    }
    let (sup, checked, spawns) = drive_to_end(sup, existing, spawn_results);
    (sup.outcome(), checked, spawns)
}

fn dev_env() -> EnvPaths {
    EnvPaths {
        current_dir: Some(fspath(&["home", "dev", "app_src"])),
        exe_path: Some(fspath(&["home", "dev", "app_src", "target", "app"])),
        resource_dir: None,
    }
}

fn packaged_env() -> EnvPaths {
    EnvPaths {
        current_dir: Some(fspath(&["opt", "app"])),
        exe_path: Some(fspath(&["opt", "app", "bin", "app"])),
        resource_dir: Some(fspath(&["opt", "app", "resources"])),
    }
}

// --- configuration ---

#[test]
fn config_picks_platform_process_name() {
    let win = Config::new(true);
    assert_eq!(win.process_name, "notebooklm_backend.exe");
    let other = Config::new(false);
    assert_eq!(other.process_name, "notebooklm_backend");
    assert_eq!(other.backend_dir_name, "python_api");
    assert_eq!(other.up_dir_name, "_up_");
    assert_eq!(other.dist_dir_name, "dist");
    assert_eq!(other.exe_file_name, "notebooklm_backend.exe");
    assert_eq!(other.script_file_name, "app.py");
    assert_eq!(other.interpreter, "python");
}

// --- paths ---

#[test]
fn path_join_appends_a_segment() {
    let p = fspath(&["a", "b"]).joined(&"c".to_string());
    assert_eq!(p.segments, strings(&["a", "b", "c"]));
}

#[test]
fn path_parent_drops_the_last_segment() {
    let p = fspath(&["a", "b", "c"]);
    assert_eq!(p.parent().unwrap().segments, strings(&["a", "b"]));
}

#[test]
fn empty_path_has_no_parent() {
    assert!(fspath(&[]).parent().is_none());
}

// --- liveness probe (exact match, not substring) ---

#[test]
fn probe_finds_exact_name() {
    let snap = strings(&["init", "notebooklm_backend", "sh"]);
    assert!(is_backend_running(&snap, &"notebooklm_backend".to_string()));
}

#[test]
fn probe_rejects_substring_and_superstring_matches() {
    let snap = strings(&["notebooklm_backend2", "a_notebooklm_backend", "backend"]);
    assert!(!is_backend_running(&snap, &"notebooklm_backend".to_string()));
}

#[test]
fn probe_on_empty_snapshot_reports_not_running() {
    let snap: Vec<String> = Vec::new();
    assert!(!is_backend_running(&snap, &"notebooklm_backend".to_string()));
}

// --- candidate locator: the seven layouts, in priority order ---

#[test]
fn locator_emits_all_seven_layouts_in_order() {
    let cfg = Config::new(false);
    let cands = candidate_paths(&packaged_env(), &cfg);
    let expected: Vec<Vec<String>> = vec![
        // development checkout: sibling of the working directory
        strings(&["opt", "python_api"]),
        // resource directory, flat
        strings(&["opt", "app", "resources"]),
        // resource directory, nested
        strings(&["opt", "app", "resources", "python_api"]),
        // escape hatch beside the executable
        strings(&["opt", "app", "bin", "_up_", "python_api"]),
        // escape hatch under the resource directory
        strings(&["opt", "app", "resources", "_up_", "python_api"]),
        // beside the executable
        strings(&["opt", "app", "bin", "python_api"]),
        // one level further up from the executable's directory
        strings(&["opt", "app", "python_api"]),
    ];
    let got: Vec<Vec<String>> = cands.into_iter().map(|p| p.segments).collect();
    assert_eq!(got, expected);
}

#[test]
fn locator_omits_unresolvable_entries() {
    let cfg = Config::new(false);
    let env = EnvPaths {
        current_dir: Some(fspath(&["home", "dev", "app_src"])),
        exe_path: None,
        resource_dir: None,
    };
    let cands = candidate_paths(&env, &cfg);
    let got: Vec<Vec<String>> = cands.into_iter().map(|p| p.segments).collect();
    assert_eq!(got, vec![strings(&["home", "dev", "python_api"])]);
}

#[test]
fn locator_with_nothing_resolved_emits_nothing() {
    let cfg = Config::new(false);
    let env = EnvPaths { current_dir: None, exe_path: None, resource_dir: None };
    assert_eq!(candidate_paths(&env, &cfg).len(), 0);
}

// --- launcher machine ---

#[test]
fn launcher_with_no_candidates_is_exhausted_at_once() {
    let launcher = Launcher::new(Vec::new(), Config::new(false));
    assert_eq!(launcher.outcome(), Some(LaunchOutcome::ExhaustedAllCandidates));
    assert!(launcher.next_action().is_none());
}

#[test]
fn launcher_checks_nested_output_first() {
    let launcher = Launcher::new(vec![fspath(&["root"])], Config::new(false));
    match launcher.next_action() {
        Some(LaunchAction::CheckArtifact { path }) => {
            assert_eq!(path.segments, strings(&["root", "dist", "notebooklm_backend.exe"]));
        }
        other => panic!("expected an existence check, got {:?}", other),
    }
}

#[test]
fn launcher_moves_through_shapes_then_candidates() {
    let cands = vec![fspath(&["one"]), fspath(&["two"])];
    let launcher = Launcher::new(cands, Config::new(false));
    let launcher = launcher.on_artifact_check(false);
    assert!(matches!(
        launcher.state,
        LauncherState::Checking { cand: 0, shape: ArtifactShape::CompiledAtRoot }
    ));
    let launcher = launcher.on_artifact_check(false);
    assert!(matches!(
        launcher.state,
        LauncherState::Checking { cand: 0, shape: ArtifactShape::InterpretableScriptAtRoot }
    ));
    let launcher = launcher.on_artifact_check(false);
    assert!(matches!(
        launcher.state,
        LauncherState::Checking { cand: 1, shape: ArtifactShape::CompiledInNestedOutput }
    ));
}

// --- law: no artifact anywhere means exhaustion and zero spawns ---

#[test]
fn launch_without_artifacts_exhausts_with_zero_spawns() {
    let env = packaged_env();
    let (outcome, checked, spawns) = run_supervisor(false, &["init"], &env, &[], &[]);
    assert_eq!(outcome, Some(RunOutcome::ExhaustedAllCandidates));
    // every candidate was checked for every shape: seven candidates, three
    // shapes each
    assert_eq!(checked.len(), 21);
    assert_eq!(spawns.len(), 0);
}

// --- law: priority order wins over artifact strength ---

#[test]
fn earlier_candidate_script_beats_later_executable() {
    let env = packaged_env();
    // the development-layout candidate holds only a script; the nested
    // resource candidate holds a compiled executable
    let existing = vec![
        strings(&["opt", "python_api", "app.py"]),
        strings(&["opt", "app", "resources", "python_api", "notebooklm_backend.exe"]),
    ];
    let (outcome, _checked, spawns) = run_supervisor(false, &["init"], &env, &existing, &[true]);
    assert_eq!(outcome, Some(RunOutcome::Started));
    assert_eq!(spawns.len(), 1);
    let req = &spawns[0];
    assert_eq!(req.working_dir.segments, strings(&["opt", "python_api"]));
    match &req.program {
        SpawnProgram::Interpreter { interpreter, script } => {
            assert_eq!(interpreter, "python");
            assert_eq!(script.segments, strings(&["opt", "python_api", "app.py"]));
        }
        other => panic!("expected an interpreter spawn, got {:?}", other),
    }
}

// --- law: within one candidate, nested output first, root next ---

#[test]
fn failed_nested_spawn_falls_back_to_root_within_same_candidate() {
    let cfg = Config::new(false);
    let root = fspath(&["only"]);
    let launcher = Launcher::new(vec![root], cfg);
    // the nested-output executable exists and its spawn fails
    let launcher = launcher.on_artifact_check(true);
    match launcher.next_action() {
        Some(LaunchAction::SpawnProcess { request }) => match &request.program {
            SpawnProgram::Executable { path } => {
                assert_eq!(path.segments, strings(&["only", "dist", "notebooklm_backend.exe"]));
            }
            other => panic!("expected an executable spawn, got {:?}", other),
        },
        other => panic!("expected a spawn, got {:?}", other),
    }
    let launcher = launcher.on_spawn_result(false);
    // still the same candidate: now the root-level executable is checked
    assert!(matches!(
        launcher.state,
        LauncherState::Checking { cand: 0, shape: ArtifactShape::CompiledAtRoot }
    ));
    let launcher = launcher.on_artifact_check(true);
    match launcher.next_action() {
        Some(LaunchAction::SpawnProcess { request }) => match &request.program {
            SpawnProgram::Executable { path } => {
                assert_eq!(path.segments, strings(&["only", "notebooklm_backend.exe"]));
            }
            other => panic!("expected an executable spawn, got {:?}", other),
        },
        other => panic!("expected a spawn, got {:?}", other),
    }
}

#[test]
fn both_executables_present_are_attempted_in_order_end_to_end() {
    let env = EnvPaths {
        current_dir: Some(fspath(&["home", "dev", "app_src"])),
        exe_path: None,
        resource_dir: None,
    };
    // the single candidate holds both executables; the nested spawn fails,
    // the root spawn succeeds
    let existing = vec![
        strings(&["home", "dev", "python_api", "dist", "notebooklm_backend.exe"]),
        strings(&["home", "dev", "python_api", "notebooklm_backend.exe"]),
    ];
    let (outcome, _checked, spawns) =
        run_supervisor(false, &[], &env, &existing, &[false, true]);
    assert_eq!(outcome, Some(RunOutcome::Started));
    assert_eq!(spawns.len(), 2);
    match &spawns[0].program {
        SpawnProgram::Executable { path } => assert_eq!(
            path.segments,
            strings(&["home", "dev", "python_api", "dist", "notebooklm_backend.exe"])
        ),
        other => panic!("expected an executable spawn, got {:?}", other),
    }
    match &spawns[1].program {
        SpawnProgram::Executable { path } => assert_eq!(
            path.segments,
            strings(&["home", "dev", "python_api", "notebooklm_backend.exe"])
        ),
        other => panic!("expected an executable spawn, got {:?}", other),
    }
}

// --- end-to-end scenario A: development layout, script spawn ---

#[test]
fn scenario_dev_layout_starts_script_via_interpreter() {
    let env = dev_env();
    let existing = vec![strings(&["home", "dev", "python_api", "app.py"])];
    let (outcome, _checked, spawns) = run_supervisor(false, &["init"], &env, &existing, &[true]);
    assert_eq!(outcome, Some(RunOutcome::Started));
    assert_eq!(spawns.len(), 1);
    let req = &spawns[0];
    assert_eq!(req.working_dir.segments, strings(&["home", "dev", "python_api"]));
    match &req.program {
        SpawnProgram::Interpreter { interpreter, script } => {
            assert_eq!(interpreter, "python");
            assert_eq!(script.segments, strings(&["home", "dev", "python_api", "app.py"]));
        }
        other => panic!("expected an interpreter spawn, got {:?}", other),
    }
}

// --- end-to-end scenario B: packaged layout, direct executable spawn ---

#[test]
fn scenario_packaged_layout_starts_executable_before_any_script_check() {
    let env = packaged_env();
    let existing = vec![strings(&[
        "opt", "app", "resources", "python_api", "dist", "notebooklm_backend.exe",
    ])];
    let (outcome, checked, spawns) = run_supervisor(false, &["init"], &env, &existing, &[true]);
    assert_eq!(outcome, Some(RunOutcome::Started));
    assert_eq!(spawns.len(), 1);
    let req = &spawns[0];
    assert_eq!(
        req.working_dir.segments,
        strings(&["opt", "app", "resources", "python_api"])
    );
    match &req.program {
        SpawnProgram::Executable { path } => assert_eq!(
            path.segments,
            strings(&["opt", "app", "resources", "python_api", "dist", "notebooklm_backend.exe"])
        ),
        other => panic!("expected an executable spawn, got {:?}", other),
    }
    // the winning candidate's script path was never checked: its compiled
    // executable won before the script shape was reached
    let winner_script = strings(&["opt", "app", "resources", "python_api", "app.py"]);
    assert!(checked.iter().all(|p| p.segments != winner_script));
}

// --- end-to-end scenario C: backend already running ---

#[test]
fn scenario_already_running_skips_everything() {
    let env = dev_env();
    let existing = vec![strings(&["home", "dev", "python_api", "app.py"])];
    let (outcome, checked, spawns) = run_supervisor(
        false,
        &["init", "notebooklm_backend", "sh"],
        &env,
        &existing,
        &[],
    );
    assert_eq!(outcome, Some(RunOutcome::AlreadyRunning));
    // zero filesystem probes, zero spawns
    assert_eq!(checked.len(), 0);
    assert_eq!(spawns.len(), 0);
}

#[test]
fn scenario_already_running_respects_platform_name() {
    let env = dev_env();
    // on Windows the match is against the `.exe` name
    let (outcome, _checked, _spawns) = run_supervisor(
        true,
        &["notebooklm_backend.exe"],
        &env,
        &[],
        &[],
    );
    assert_eq!(outcome, Some(RunOutcome::AlreadyRunning));
    // the bare name does not match the Windows process name
    let (outcome, _checked, _spawns) = run_supervisor(
        true,
        &["notebooklm_backend"],
        &env,
        &[],
        &[],
    );
    assert_eq!(outcome, Some(RunOutcome::ExhaustedAllCandidates));
}

// --- end-to-end scenario D: nothing anywhere ---

#[test]
fn scenario_no_candidate_resolves_to_an_artifact() {
    let env = EnvPaths { current_dir: None, exe_path: None, resource_dir: None };
    let (outcome, checked, spawns) = run_supervisor(false, &["init"], &env, &[], &[]);
    assert_eq!(outcome, Some(RunOutcome::ExhaustedAllCandidates));
    assert_eq!(checked.len(), 0);
    assert_eq!(spawns.len(), 0);
}

// --- supervisor phases ---

#[test]
fn supervisor_walks_its_phases_in_order() {
    let sup = Supervisor::new(Config::new(false));
    assert!(matches!(sup.phase, SupervisorPhase::Idle));
    assert!(sup.outcome().is_none());
    let sup = sup.begin();
    assert!(matches!(sup.phase, SupervisorPhase::ProbingLiveness));
    let sup = sup.on_snapshot(&strings(&["init"]));
    assert!(matches!(sup.phase, SupervisorPhase::LocatingCandidates));
    let sup = sup.on_environment(&dev_env());
    assert!(matches!(sup.phase, SupervisorPhase::Launching { .. }));
}
