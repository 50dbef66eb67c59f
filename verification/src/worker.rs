//! The task registry and admission controller.

use crate::config::MAX_CONCURRENT_TASKS;
use crate::event::Received;
use crate::maps::{QueryMap, UpdateMap};
use crate::result::TaskResult;
use crate::task::{Reply, Task, TaskInstruction};
use std::collections::HashSet;
use vstd::prelude::*;

verus! {

/// The context a `NotFound` carries when a query found no task.
pub const QUERY_CONTEXT: &'static str = "Task not found for query";

/// The context a `NotFound` carries when an update found no task.
pub const UPDATE_CONTEXT: &'static str = "Task not found for update";

/// A request as the coordinator sends it to the admission controller.
///
/// `result_tx` is the sink the request's results go to: a handle of the
/// caller's, one per request. The engine never looks inside a sink; it only
/// hands it on, to the reply or to the instruction made from the request.
pub enum TaskRequest<S, Op> {
    /// Create task `id` from a key/value state and named operations.
    CreateTask {
        req_id: usize,
        id: usize,
        query_map: QueryMap,
        update_map: UpdateMap<Op>,
        result_tx: S,
    },
    /// Look `query_id` up in task `id`.
    QueryTask { req_id: usize, id: usize, query_id: String, result_tx: S },
    /// Run the operation `update_id` of task `id`.
    UpdateTask { req_id: usize, id: usize, update_id: String, result_tx: S },
}

impl<S, Op> TaskRequest<S, Op> {
    /// The request's identifier.
    pub open spec fn spec_req_id(&self) -> usize {
        match *self {
            TaskRequest::CreateTask { req_id, .. } => req_id,
            TaskRequest::QueryTask { req_id, .. } => req_id,
            TaskRequest::UpdateTask { req_id, .. } => req_id,
        }
    }

    /// The task the request is about.
    pub open spec fn spec_id(&self) -> usize {
        match *self {
            TaskRequest::CreateTask { id, .. } => id,
            TaskRequest::QueryTask { id, .. } => id,
            TaskRequest::UpdateTask { id, .. } => id,
        }
    }

    /// The request's identifier.
    #[verifier::when_used_as_spec(spec_req_id)]
    pub fn req_id(&self) -> (req_id: usize)
        ensures
            req_id == self.spec_req_id(),
    {
        match self {
            TaskRequest::CreateTask { req_id, .. } => *req_id,
            TaskRequest::QueryTask { req_id, .. } => *req_id,
            TaskRequest::UpdateTask { req_id, .. } => *req_id,
        }
    }

    /// The task the request is about.
    #[verifier::when_used_as_spec(spec_id)]
    pub fn id(&self) -> (id: usize)
        ensures
            id == self.spec_id(),
    {
        match self {
            TaskRequest::CreateTask { id, .. } => *id,
            TaskRequest::QueryTask { id, .. } => *id,
            TaskRequest::UpdateTask { id, .. } => *id,
        }
    }
}

/// What the admission controller has the runtime do after one wait on its
/// request channel. No action ends the controller: it runs until the shutdown
/// flag is set, whatever it receives.
pub enum WorkerAction<S, Op> {
    /// Send `reply.result` to `reply.result_tx`.
    Reply { reply: Reply<S> },
    /// Open an instruction channel for `task.id`, start a task unit for
    /// `task` on it, and call [`WorkerThread::task_exited`] when the unit
    /// exits.
    Spawn { task: Task<Op> },
    /// Send `instruction` on the instruction channel of task `id`. A failed
    /// send is ignored: the task may just have exited.
    Forward { id: usize, instruction: TaskInstruction<S> },
    /// Nothing to do: wait again.
    Idle,
}

/// The admission controller's state: which task identifiers are registered,
/// and how many tasks are counted as live.
pub struct WorkerView {
    pub registry: Set<usize>,
    pub active: nat,
}

impl WorkerView {
    /// The state of a controller that has seen nothing yet.
    pub open spec fn initial() -> WorkerView {
        WorkerView { registry: Set::empty(), active: 0 }
    }

    /// Whether one more task may be created: the count is below the ceiling.
    pub open spec fn has_capacity(self) -> bool {
        self.active < MAX_CONCURRENT_TASKS
    }

    /// Whether the count of live tasks respects the ceiling.
    pub open spec fn within_ceiling(self) -> bool {
        self.active <= MAX_CONCURRENT_TASKS
    }

    /// Whether a request for task `id` finds the task.
    pub open spec fn routes(self, id: usize) -> bool {
        self.registry.contains(id)
    }

    /// The state after task `id` was created.
    pub open spec fn register(self, id: usize) -> WorkerView {
        WorkerView { registry: self.registry.insert(id), active: self.active + 1 }
    }

    /// The state after a unit of task `id` has exited.
    pub open spec fn release(self, id: usize) -> WorkerView {
        WorkerView { registry: self.registry.remove(id), active: (self.active - 1) as nat }
    }

    /// Whether the count equals the number of registered tasks.
    pub open spec fn settled(self) -> bool {
        self.registry.finite() && self.active == self.registry.len()
    }
}

/// The reply that refuses a creation at the ceiling.
pub open spec fn throttled<S>(req_id: usize, id: usize, result_tx: S) -> Reply<S> {
    Reply { result_tx, result: TaskResult::Throttled { req_id, id } }
}

/// The reply to a request for a task that is not registered.
pub open spec fn not_found<S>(req_id: usize, id: usize, ctx: &'static str, result_tx: S) -> Reply<
    S,
> {
    Reply { result_tx, result: TaskResult::NotFound { req_id, id, ctx } }
}

/// One step of the admission controller: the state after `received`, and the
/// action to perform.
///
/// - A creation at or above the ceiling is refused with `Throttled` and
///   changes nothing; it is dropped, not queued. Below the ceiling the task is
///   registered and counted, and a unit is to be spawned for it.
/// - A query or an update for a registered task is forwarded to it as an
///   instruction, with the request's own identifier, name and sink. For any
///   other task the answer is `NotFound`.
/// - A timeout or a disconnect changes nothing and asks for nothing.
pub open spec fn worker_step<S, Op>(w: WorkerView, received: Received<TaskRequest<S, Op>>) -> (
    WorkerView,
    WorkerAction<S, Op>,
) {
    match received {
        Received::Message(
            TaskRequest::CreateTask { req_id, id, query_map, update_map, result_tx },
        ) => {
            if w.has_capacity() {
                (w.register(id), WorkerAction::Spawn { task: Task { id, query_map, update_map } })
            } else {
                (w, WorkerAction::Reply { reply: throttled(req_id, id, result_tx) })
            }
        },
        Received::Message(TaskRequest::QueryTask { req_id, id, query_id, result_tx }) => {
            if w.routes(id) {
                (
                    w,
                    WorkerAction::Forward {
                        id,
                        instruction: TaskInstruction::Query { req_id, query_id, result_tx },
                    },
                )
            } else {
                (w, WorkerAction::Reply { reply: not_found(req_id, id, QUERY_CONTEXT, result_tx) })
            }
        },
        Received::Message(TaskRequest::UpdateTask { req_id, id, update_id, result_tx }) => {
            if w.routes(id) {
                (
                    w,
                    WorkerAction::Forward {
                        id,
                        instruction: TaskInstruction::Update { req_id, update_id, result_tx },
                    },
                )
            } else {
                (w, WorkerAction::Reply { reply: not_found(req_id, id, UPDATE_CONTEXT, result_tx) })
            }
        },
        Received::Timeout => (w, WorkerAction::Idle),
        Received::Disconnected => (w, WorkerAction::Idle),
    }
}

/// The admission controller: the one owner of task creation and routing.
///
/// It keeps the registry of live task identifiers and the count of live
/// tasks. The two are changed only here: [`step`](WorkerThread::step)
/// registers and counts a task in one move, and
/// [`task_exited`](WorkerThread::task_exited) removes and discounts it in one
/// move, so no creation is ever judged on a count that lags the registry. A
/// runtime that shares the controller between threads keeps it behind one lock.
pub struct WorkerThread {
    registry: HashSet<usize>,
    active_tasks: usize,
}

impl View for WorkerThread {
    type V = WorkerView;

    closed spec fn view(&self) -> WorkerView {
        WorkerView { registry: self.registry@, active: self.active_tasks as nat }
    }
}

impl WorkerThread {
    /// A controller with no task registered and none counted.
    pub fn new() -> (worker: Self)
        ensures
            worker@ == WorkerView::initial(),
    {
        WorkerThread { registry: HashSet::new(), active_tasks: 0 }
    }

    /// The number of tasks counted as live.
    pub fn active_tasks(&self) -> (n: usize)
        ensures
            n == self@.active,
    {
        self.active_tasks
    }

    /// Whether task `id` is registered.
    pub fn is_registered(&self, id: usize) -> (found: bool)
        ensures
            found == self@.routes(id),
    {
        self.registry.contains(&id)
    }

    /// Whether the controller goes on to wait for the next request: it does
    /// until the shutdown flag is set, and for no other reason stops.
    pub fn continues(shutdown: bool) -> (go_on: bool)
        ensures
            go_on == !shutdown,
    {
        !shutdown
    }

    /// Takes one step on the outcome of a wait of at most [`WORKER_TIMEOUT`]
    /// seconds on the request channel, and says what the runtime is to do.
    ///
    /// [`WORKER_TIMEOUT`]: crate::config::WORKER_TIMEOUT
    pub fn step<S, Op>(&mut self, received: Received<TaskRequest<S, Op>>) -> (action: WorkerAction<
        S,
        Op,
    >)
        ensures
            (final(self)@, action) == worker_step(old(self)@, received),
    {
        match received {
            Received::Message(request) => match request {
                TaskRequest::CreateTask { req_id, id, query_map, update_map, result_tx } => {
                    if self.active_tasks >= MAX_CONCURRENT_TASKS {
                        WorkerAction::Reply {
                            reply: Reply { result_tx, result: TaskResult::Throttled { req_id, id } },
                        }
                    } else {
                        self.registry.insert(id);
                        self.active_tasks = self.active_tasks + 1;
                        WorkerAction::Spawn { task: Task { id, query_map, update_map } }
                    }
                },
                TaskRequest::QueryTask { req_id, id, query_id, result_tx } => {
                    if self.registry.contains(&id) {
                        WorkerAction::Forward {
                            id,
                            instruction: TaskInstruction::Query { req_id, query_id, result_tx },
                        }
                    } else {
                        WorkerAction::Reply {
                            reply: Reply {
                                result_tx,
                                result: TaskResult::NotFound { req_id, id, ctx: QUERY_CONTEXT },
                            },
                        }
                    }
                },
                TaskRequest::UpdateTask { req_id, id, update_id, result_tx } => {
                    if self.registry.contains(&id) {
                        WorkerAction::Forward {
                            id,
                            instruction: TaskInstruction::Update { req_id, update_id, result_tx },
                        }
                    } else {
                        WorkerAction::Reply {
                            reply: Reply {
                                result_tx,
                                result: TaskResult::NotFound { req_id, id, ctx: UPDATE_CONTEXT },
                            },
                        }
                    }
                },
            },
            Received::Timeout => WorkerAction::Idle,
            Received::Disconnected => WorkerAction::Idle,
        }
    }

    /// Records that a unit of task `id` has exited: the task leaves the
    /// registry and the count goes down by one.
    ///
    /// A unit exits once, after it was counted, so a live task is always
    /// counted when this is called.
    pub fn task_exited(&mut self, id: usize)
        requires
            old(self)@.active > 0,
        ensures
            final(self)@ == old(self)@.release(id),
    {
        self.registry.remove(&id);
        self.active_tasks = self.active_tasks - 1;
    }
}

} // verus!
