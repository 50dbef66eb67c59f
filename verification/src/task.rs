//! A task and the unit that works on it.

use crate::event::Received;
use crate::maps::{QueryMap, UpdateMap, UpdateOp};
use crate::result::{TaskResult, TaskResultView};
use vstd::prelude::*;
use vstd::string::StringExecFns;

verus! {

/// The text of the error for a key or an operation name that a task lacks:
/// the name, then `" not found"`.
pub open spec fn not_found_message(name: Seq<char>) -> Seq<char> {
    name + " not found"@
}

/// What running an operation came to, with its text as a character sequence.
pub open spec fn outcome_text(outcome: Option<String>) -> Option<Seq<char>> {
    match outcome {
        Some(value) => Some(value@),
        None => None,
    }
}

/// A task: an identifier, a read-only key/value state, and named operations.
///
/// A task belongs to one task unit for as long as it lives and is never
/// shared. Queries read `query_map`; updates run an operation of `update_map`
/// and change nothing else.
pub struct Task<Op> {
    pub id: usize,
    pub query_map: QueryMap,
    pub update_map: UpdateMap<Op>,
}

/// What the engine's rules read of a task: its identifier, its key/value
/// state, and the names of its operations.
pub struct TaskView {
    pub id: usize,
    pub query_state: Map<Seq<char>, Seq<char>>,
    pub update_names: Set<Seq<char>>,
}

impl TaskView {
    /// The answer to a query for `query_id`: the stored value, or an error
    /// that names the missing key.
    pub open spec fn query_reply(self, req_id: usize, query_id: Seq<char>) -> TaskResultView {
        if self.query_state.contains_key(query_id) {
            TaskResultView::QueryOk { req_id, id: self.id, value: self.query_state[query_id] }
        } else {
            TaskResultView::QueryError { req_id, id: self.id, msg: not_found_message(query_id) }
        }
    }

    /// The answer to an update for `update_id`, given what running the
    /// operation came to: `Some` of its result, or `None` where the task has
    /// no such operation.
    pub open spec fn update_reply(
        self,
        req_id: usize,
        update_id: Seq<char>,
        outcome: Option<Seq<char>>,
    ) -> TaskResultView {
        match outcome {
            Some(value) => TaskResultView::UpdateOk { req_id, id: self.id, value },
            None => TaskResultView::UpdateError {
                req_id,
                id: self.id,
                msg: not_found_message(update_id),
            },
        }
    }
}

impl<Op> View for Task<Op> {
    type V = TaskView;

    open spec fn view(&self) -> TaskView {
        TaskView {
            id: self.id,
            query_state: self.query_map@,
            update_names: self.update_map.names(),
        }
    }
}

impl<Op> Task<Op> {
    /// The task's tables are sound.
    pub open spec fn wf(&self) -> bool {
        self.update_map.wf()
    }

    /// Answers a query: `QueryOk` with the value stored under `query_id`, or
    /// `QueryError` where the task has no such key.
    pub fn query(&self, req_id: usize, query_id: &str) -> (result: TaskResult)
        ensures
            result@ == self@.query_reply(req_id, query_id@),
    {
        match self.query_map.get(query_id) {
            Some(value) => TaskResult::QueryOk { req_id, id: self.id, value: value.clone() },
            None => TaskResult::QueryError { req_id, id: self.id, msg: not_found_text(query_id) },
        }
    }

    /// The result that closes an update, given what running the operation
    /// came to: `UpdateOk` with the operation's result, or `UpdateError` where
    /// there was no operation to run.
    pub fn update_result(&self, req_id: usize, update_id: &str, outcome: Option<String>) -> (result:
        TaskResult)
        ensures
            result@ == self@.update_reply(req_id, update_id@, outcome_text(outcome)),
    {
        match outcome {
            Some(value) => TaskResult::UpdateOk { req_id, id: self.id, value },
            None => TaskResult::UpdateError { req_id, id: self.id, msg: not_found_text(update_id) },
        }
    }
}

impl<Op: UpdateOp> Task<Op> {
    /// Carries out an update: runs the operation named `update_id` once and
    /// answers `UpdateOk` with what it returned, or answers `UpdateError`,
    /// having run nothing, where the task has no such operation.
    ///
    /// The identifier, the key/value state and the set of operation names stay
    /// as they were, and so does every operation but the one that ran.
    pub fn update(&mut self, req_id: usize, update_id: &str) -> (result: TaskResult)
        requires
            old(self).wf(),
        ensures
            final(self).wf(),
            final(self)@ == old(self)@,
            final(self).query_map == old(self).query_map,
            forall|other: Seq<char>|
                other != update_id@ && old(self).update_map@.contains_key(other)
                    ==> #[trigger] final(self).update_map@[other] == old(self).update_map@[other],
            !old(self)@.update_names.contains(update_id@) ==> *final(self) == *old(self)
                && result@ == old(self)@.update_reply(req_id, update_id@, None),
            old(self)@.update_names.contains(update_id@) ==> exists|value: Seq<char>|
                result@ == old(self)@.update_reply(req_id, update_id@, Some(value)),
    {
        let outcome = self.update_map.invoke(update_id);
        self.update_result(req_id, update_id, outcome)
    }
}

/// A request as one task unit sees it: the routing identifier is gone, since
/// the channel it travels on belongs to one task.
///
/// `result_tx` is the sink its results go to. The engine never looks inside a
/// sink; it only hands it on.
#[derive(Debug)]
pub enum TaskInstruction<S> {
    /// Look `query_id` up in the task's key/value state.
    Query { req_id: usize, query_id: String, result_tx: S },
    /// Run the operation named `update_id`.
    Update { req_id: usize, update_id: String, result_tx: S },
}

impl<S> TaskInstruction<S> {
    /// The request this instruction belongs to.
    pub open spec fn spec_req_id(&self) -> usize {
        match *self {
            TaskInstruction::Query { req_id, .. } => req_id,
            TaskInstruction::Update { req_id, .. } => req_id,
        }
    }

    /// The sink this instruction's results go to.
    pub open spec fn spec_result_tx(&self) -> S {
        match *self {
            TaskInstruction::Query { result_tx, .. } => result_tx,
            TaskInstruction::Update { result_tx, .. } => result_tx,
        }
    }

    /// The request this instruction belongs to.
    #[verifier::when_used_as_spec(spec_req_id)]
    pub fn req_id(&self) -> (req_id: usize)
        ensures
            req_id == self.spec_req_id(),
    {
        match self {
            TaskInstruction::Query { req_id, .. } => *req_id,
            TaskInstruction::Update { req_id, .. } => *req_id,
        }
    }

    /// The sink this instruction's results go to.
    pub fn result_tx(&self) -> (result_tx: &S)
        ensures
            *result_tx == self.spec_result_tx(),
    {
        match self {
            TaskInstruction::Query { result_tx, .. } => result_tx,
            TaskInstruction::Update { result_tx, .. } => result_tx,
        }
    }
}

/// A result together with the sink to send it to.
#[derive(Debug)]
pub struct Reply<S> {
    pub result_tx: S,
    pub result: TaskResult,
}

/// What a task unit does after one wait on its instruction channel.
#[derive(Debug)]
pub enum TaskStep<S> {
    /// Send `ack` to the instruction's sink at once, then
    /// [`execute`](TaskThread::execute) the instruction. The acknowledgement
    /// goes out before the work starts, so that the listener hears of a slow
    /// operation before it could mistake the silence for idleness.
    Work { ack: TaskResult, instruction: TaskInstruction<S> },
    /// Stop: no instruction came in time, or none can come any more. The
    /// admission controller is to be told that task `id` has exited.
    Exit { id: usize },
}

/// The step a task unit for task `id` takes on `received`: work on a message,
/// exit on silence.
pub open spec fn task_step<S>(id: usize, received: Received<TaskInstruction<S>>) -> TaskStep<S> {
    match received {
        Received::Message(instruction) => TaskStep::Work {
            ack: TaskResult::ReceivedRequest,
            instruction,
        },
        Received::Timeout => TaskStep::Exit { id },
        Received::Disconnected => TaskStep::Exit { id },
    }
}

/// The terminal result of `instruction` on `task`, given what running the
/// named operation came to (`outcome` is read for updates only).
pub open spec fn task_reply<S>(
    task: TaskView,
    instruction: TaskInstruction<S>,
    outcome: Option<Seq<char>>,
) -> TaskResultView {
    match instruction {
        TaskInstruction::Query { req_id, query_id, .. } => task.query_reply(req_id, query_id@),
        TaskInstruction::Update { req_id, update_id, .. } => task.update_reply(
            req_id,
            update_id@,
            outcome,
        ),
    }
}

/// The task as the engine's rules read it after `instruction`: the task as it
/// was. No instruction changes the identifier, the key/value state or the
/// operation names; an update only lets the named operation change itself.
pub open spec fn task_after<S>(task: TaskView, instruction: TaskInstruction<S>) -> TaskView {
    task
}

/// Whether `instruction` is an update that names the operation `name`.
pub open spec fn names<S>(instruction: TaskInstruction<S>, name: Seq<char>) -> bool {
    instruction matches TaskInstruction::Update { update_id, .. } && update_id@ == name
}

/// Whether `outcome` is what running the operation that `instruction` names
/// on `task` can come to: for an update, `Some` exactly where the task has the
/// operation. For a query no operation runs.
pub open spec fn outcome_fits<S>(
    task: TaskView,
    instruction: TaskInstruction<S>,
    outcome: Option<Seq<char>>,
) -> bool {
    match instruction {
        TaskInstruction::Query { .. } => outcome is None,
        TaskInstruction::Update { update_id, .. } => (outcome is Some
            <==> task.update_names.contains(update_id@)),
    }
}

/// A task unit: the sole owner of one task, working through its instructions
/// one at a time, in the order they arrive.
pub struct TaskThread<Op> {
    pub task: Task<Op>,
}

impl<Op> View for TaskThread<Op> {
    type V = TaskView;

    open spec fn view(&self) -> TaskView {
        self.task@
    }
}

impl<Op: UpdateOp> TaskThread<Op> {
    /// The unit's task is sound.
    pub open spec fn wf(&self) -> bool {
        self.task.wf()
    }

    /// A unit for `task`.
    pub fn new(task: Task<Op>) -> (unit: Self)
        ensures
            unit.task == task,
    {
        TaskThread { task }
    }

    /// Decides what to do after one wait of at most [`TASK_TIMEOUT`] seconds
    /// on the instruction channel: acknowledge and work on an instruction, or
    /// exit on a timeout or a disconnect. Neither way of exiting is an error.
    ///
    /// [`TASK_TIMEOUT`]: crate::config::TASK_TIMEOUT
    pub fn step<S>(&self, received: Received<TaskInstruction<S>>) -> (step: TaskStep<S>)
        ensures
            step == task_step(self@.id, received),
    {
        match received {
            Received::Message(instruction) => TaskStep::Work {
                ack: TaskResult::ReceivedRequest,
                instruction,
            },
            Received::Timeout => TaskStep::Exit { id: self.task.id },
            Received::Disconnected => TaskStep::Exit { id: self.task.id },
        }
    }

    /// Works on one instruction and returns its one terminal result, to be
    /// sent to the instruction's own sink.
    ///
    /// A query answers from the key/value state and changes nothing. An update
    /// runs the named operation once; the task's identifier, key/value state
    /// and operation names stay as they were.
    pub fn execute<S>(&mut self, instruction: TaskInstruction<S>) -> (reply: Reply<S>)
        requires
            old(self).wf(),
        ensures
            final(self).wf(),
            final(self)@ == task_after(old(self)@, instruction),
            final(self).task.query_map == old(self).task.query_map,
            forall|other: Seq<char>|
                old(self).task.update_map@.contains_key(other) && !names(instruction, other)
                    ==> #[trigger] final(self).task.update_map@[other]
                    == old(self).task.update_map@[other],
            reply.result_tx == instruction.spec_result_tx(),
            instruction is Query ==> *final(self) == *old(self),
            exists|outcome: Option<Seq<char>>|
                outcome_fits(old(self)@, instruction, outcome) && reply.result@ == task_reply(
                    old(self)@,
                    instruction,
                    outcome,
                ),
    {
        match instruction {
            TaskInstruction::Query { req_id, query_id, result_tx } => {
                let result = self.task.query(req_id, query_id.as_str());
                Reply { result_tx, result }
            },
            TaskInstruction::Update { req_id, update_id, result_tx } => {
                let result = self.task.update(req_id, update_id.as_str());
                proof {
                    if old(self)@.update_names.contains(update_id@) {
                        let value = choose|value: Seq<char>|
                            result@ == old(self)@.update_reply(req_id, update_id@, Some(value));
                        assert(result@ == task_reply(old(self)@, instruction, Some(value)));
                    } else {
                        assert(result@ == task_reply(old(self)@, instruction, None::<Seq<char>>));
                    }
                }
                Reply { result_tx, result }
            },
        }
    }
}

/// The error text for `name`.
fn not_found_text(name: &str) -> (text: String)
    ensures
        text@ == not_found_message(name@),
{
    String::from_str(name).concat(" not found")
}

} // verus!
