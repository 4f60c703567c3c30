//! The liveness prober: is the backend already running?
//!
//! The driver captures a point-in-time snapshot of the host's process table —
//! here, just the list of process names — and the prober decides whether any
//! entry matches the expected backend process name exactly. A snapshot is
//! never cached: a later check must take a fresh one, since process state is
//! stale the instant after capture. A degraded snapshot mechanism simply
//! yields fewer (or no) names, which this prober reads as "not running": a
//! possibly redundant launch is preferred over never starting a needed
//! backend.

use vstd::prelude::*;

verus! {

/// Whether the snapshot holds a name equal, character for character, to
/// `name`. Exact match: a process whose name merely contains `name` as a
/// substring does not count.
pub open spec fn snapshot_has_name(snapshot: Seq<String>, name: Seq<char>) -> bool {
    exists|i: int| 0 <= i < snapshot.len() && snapshot[i]@ == name
}

/// Returns whether a process named exactly `process_name` appears in the
/// given process-table snapshot.
pub fn is_backend_running(snapshot: &Vec<String>, process_name: &String) -> (running: bool)
    ensures
        running == snapshot_has_name(snapshot@, process_name@),
{
    let mut i: usize = 0;
    while i < snapshot.len()
        invariant
            i <= snapshot@.len(),
            forall|j: int| 0 <= j < i ==> snapshot@[j]@ != process_name@,
        decreases snapshot@.len() - i,
    {
        if snapshot[i] == *process_name {
            return true;
        }
        i = i + 1;
    }
    false
}

} // verus!
