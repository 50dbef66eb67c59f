//! The engine's fixed limits and inactivity deadlines.

use vstd::prelude::*;

verus! {

/// The admission ceiling: how many tasks may be live at once.
pub const MAX_CONCURRENT_TASKS: usize = 4;

/// How many result slots the coordinator's buffer starts with.
pub const MAX_REQ_ID: usize = 100;

/// Seconds a task unit waits for an instruction before it exits.
pub const TASK_TIMEOUT: u64 = 2;

/// Seconds the listener waits for a result before it shuts the system down.
pub const LISTENER_TIMEOUT: u64 = 5;

/// Seconds the admission controller waits for a request before it looks at
/// the shutdown flag again.
pub const WORKER_TIMEOUT: u64 = 5;

/// The order the three deadlines must stand in: a task unit gives up first,
/// and the listener never gives up before the admission controller's wait.
///
/// A task unit answers within `task` seconds of taking an instruction, so a
/// listener that tolerates more silence than that cannot shut down while a
/// result is still on its way.
pub open spec fn timeouts_ordered(task: u64, worker: u64, listener: u64) -> bool {
    task < worker && worker <= listener
}

/// Tells whether three deadlines stand in the required order. A runtime calls
/// this once, before it starts any component.
pub fn check_timeouts(task: u64, worker: u64, listener: u64) -> (ok: bool)
    ensures
        ok == timeouts_ordered(task, worker, listener),
{
    task < worker && worker <= listener
}

/// The deadlines this crate is configured with stand in the required order.
pub proof fn lemma_configured_timeouts_ordered()
    ensures
        timeouts_ordered(TASK_TIMEOUT, WORKER_TIMEOUT, LISTENER_TIMEOUT),
{
}

} // verus!
