//! The supervisor's configuration: the names it probes and searches for.
//!
//! Every name is fixed at startup. The backend's process name depends on the
//! target platform (Windows executables carry an `.exe` suffix), so it is
//! selected once from an explicit platform flag, never detected at runtime.

use vstd::prelude::*;

verus! {

/// The names a supervisor run works with: the backend's process name as it
/// appears in the host's process table, the directory and file names of the
/// artifacts searched for, and the interpreter used for script artifacts.
pub struct Config {
    /// Name the backend process bears in the process table.
    pub process_name: String,
    /// Directory name of the backend component (`python_api`).
    pub backend_dir_name: String,
    /// The packaging escape-hatch directory (`_up_`) that one packaging
    /// pipeline places bundled extra resources under.
    pub up_dir_name: String,
    /// The nested build-output directory (`dist`) a compiled backend lives in.
    pub dist_dir_name: String,
    /// File name of the compiled backend executable.
    pub exe_file_name: String,
    /// File name of the interpretable entry-point script.
    pub script_file_name: String,
    /// Interpreter command used to run the entry-point script.
    pub interpreter: String,
}

impl Config {
    /// The stock configuration, with the process name picked for the target
    /// platform given as `windows`.
    pub fn new(windows: bool) -> (cfg: Config)
        ensures
            windows ==> cfg.process_name@ == "notebooklm_backend.exe"@,
            !windows ==> cfg.process_name@ == "notebooklm_backend"@,
            cfg.backend_dir_name@ == "python_api"@,
            cfg.up_dir_name@ == "_up_"@,
            cfg.dist_dir_name@ == "dist"@,
            cfg.exe_file_name@ == "notebooklm_backend.exe"@,
            cfg.script_file_name@ == "app.py"@,
            cfg.interpreter@ == "python"@,
    {
        let process_name = if windows {
            "notebooklm_backend.exe".to_owned()
        } else {
            "notebooklm_backend".to_owned()
        };
        Config {
            process_name,
            backend_dir_name: "python_api".to_owned(),
            up_dir_name: "_up_".to_owned(),
            dist_dir_name: "dist".to_owned(),
            exe_file_name: "notebooklm_backend.exe".to_owned(),
            script_file_name: "app.py".to_owned(),
            interpreter: "python".to_owned(),
        }
    }
}

impl Clone for Config {
    fn clone(&self) -> (cfg: Config)
        ensures
            cfg == *self,
    {
        Config {
            process_name: self.process_name.clone(),
            backend_dir_name: self.backend_dir_name.clone(),
            up_dir_name: self.up_dir_name.clone(),
            dist_dir_name: self.dist_dir_name.clone(),
            exe_file_name: self.exe_file_name.clone(),
            script_file_name: self.script_file_name.clone(),
            interpreter: self.interpreter.clone(),
        }
    }
}

} // verus!
