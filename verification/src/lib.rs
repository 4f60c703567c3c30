//! A sidecar process supervisor: the logic a desktop application uses, once at
//! startup, to make sure its companion backend process is running — probing the
//! host's process table, enumerating the filesystem locations a backend
//! artifact may live in, and choosing which artifact to spawn, in a fixed
//! priority order, stopping at the first successful spawn.
//!
//! The crate holds only the decision logic, over plain values: a process-table
//! snapshot is a vector of names, a filesystem path a vector of segments, and
//! the launcher a state machine that asks its driver to perform one existence
//! check or one spawn at a time and is fed the result back. The driver (the
//! application shell) performs the actual probing, filesystem tests and
//! spawning.

pub mod config;
pub mod launch;
pub mod locate;
pub mod path;
pub mod probe;
pub mod supervise;
