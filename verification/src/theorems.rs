//! What holds of the engine as a whole: theorems that tie the components'
//! steps together, each proved from the step functions' definitions.

use crate::event::Received;
use crate::result::{TaskResult, TaskResultView};
use crate::server::{ListenerStep, listener_step, recorded};
use crate::task::{
    Task, TaskInstruction, TaskView, not_found_message, outcome_fits, task_after, task_reply,
};
use crate::worker::{
    QUERY_CONTEXT, TaskRequest, UPDATE_CONTEXT, WorkerAction, WorkerView, not_found, throttled,
    worker_step,
};
use vstd::prelude::*;

verus! {

/// One thing that happens to the admission controller.
pub enum WorkerEvent<S, Op> {
    /// A wait on the request channel ended in `received`.
    Wait { received: Received<TaskRequest<S, Op>> },
    /// A unit of task `id` exited.
    Exit { id: usize },
}

impl<S, Op> WorkerEvent<S, Op> {
    /// Whether the event can happen in state `w`: a unit can only exit while
    /// a live task is counted.
    pub open spec fn enabled(self, w: WorkerView) -> bool {
        self is Exit ==> w.active > 0
    }

    /// The controller's state after the event.
    pub open spec fn apply(self, w: WorkerView) -> WorkerView {
        match self {
            WorkerEvent::Wait { received } => worker_step(w, received).0,
            WorkerEvent::Exit { id } => w.release(id),
        }
    }

    /// Whether the event is the exit of a unit of task `id`.
    pub open spec fn exits(self, id: usize) -> bool {
        self matches WorkerEvent::Exit { id: gone } && gone == id
    }

    /// Whether the event is the arrival of a request to create task `id`.
    pub open spec fn creates(self, id: usize) -> bool {
        self matches WorkerEvent::Wait {
            received: Received::Message(TaskRequest::CreateTask { id: made, .. }),
        } && made == id
    }
}

/// The controller's state after `events`, one after the other, from `w`.
pub open spec fn worker_run<S, Op>(w: WorkerView, events: Seq<WorkerEvent<S, Op>>) -> WorkerView
    decreases events.len(),
{
    if events.len() == 0 {
        w
    } else {
        events.last().apply(worker_run(w, events.drop_last()))
    }
}

/// Whether each of `events` can happen when its turn comes, from `w`.
pub open spec fn run_enabled<S, Op>(w: WorkerView, events: Seq<WorkerEvent<S, Op>>) -> bool
    decreases events.len(),
{
    events.len() > 0 ==> run_enabled(w, events.drop_last()) && events.last().enabled(
        worker_run(w, events.drop_last()),
    )
}

/// A creation below the ceiling succeeds: the task is spawned with the
/// identifier and tables of the request, it is registered, and it is counted.
pub proof fn lemma_creation_below_ceiling_succeeds<S, Op>(
    w: WorkerView,
    create: TaskRequest<S, Op>,
)
    requires
        create is CreateTask,
        w.has_capacity(),
    ensures
        create matches TaskRequest::CreateTask { id, query_map, update_map, .. } && ({
            let (after, action) = worker_step(w, Received::Message(create));
            &&& action == WorkerAction::<S, Op>::Spawn { task: Task { id, query_map, update_map } }
            &&& after.routes(id)
            &&& after.active == w.active + 1
            &&& after.within_ceiling()
        }),
{
}

/// A creation at or above the ceiling is answered with exactly `Throttled`,
/// sent to the request's own sink, and leaves the controller as it was: no
/// task is registered and none is counted.
pub proof fn lemma_creation_at_ceiling_is_throttled<S, Op>(
    w: WorkerView,
    create: TaskRequest<S, Op>,
)
    requires
        create is CreateTask,
        !w.has_capacity(),
    ensures
        create matches TaskRequest::CreateTask { req_id, id, result_tx, .. } && ({
            let (after, action) = worker_step(w, Received::Message(create));
            &&& after == w
            &&& action == WorkerAction::<S, Op>::Reply { reply: throttled(req_id, id, result_tx) }
            &&& throttled(req_id, id, result_tx).result@ == TaskResultView::Throttled { req_id, id }
        }),
{
}

/// A registered task stays registered through every event but the exit of one
/// of its own units.
pub proof fn lemma_task_stays_registered<S, Op>(
    w: WorkerView,
    id: usize,
    events: Seq<WorkerEvent<S, Op>>,
)
    requires
        w.routes(id),
        forall|i: int| 0 <= i < events.len() ==> !(#[trigger] events[i]).exits(id),
    ensures
        worker_run(w, events).routes(id),
    decreases events.len(),
{
    if events.len() > 0 {
        lemma_task_stays_registered(w, id, events.drop_last());
    }
}

/// A task created below the ceiling can be queried and updated until one of
/// its units exits: whatever happens in between, a query or an update for it
/// is forwarded to it, as an instruction with the request's own identifier,
/// name and sink.
pub proof fn lemma_created_task_is_reachable<S, Op>(
    w: WorkerView,
    create: TaskRequest<S, Op>,
    events: Seq<WorkerEvent<S, Op>>,
    later: TaskRequest<S, Op>,
)
    requires
        create is CreateTask,
        w.has_capacity(),
        forall|i: int| 0 <= i < events.len() ==> !(#[trigger] events[i]).exits(create.spec_id()),
        later is QueryTask || later is UpdateTask,
        later.spec_id() == create.spec_id(),
    ensures
        ({
            let created = worker_step(w, Received::Message(create)).0;
            let reached = worker_run(created, events);
            let (after, action) = worker_step(reached, Received::Message(later));
            &&& after == reached
            &&& later matches TaskRequest::QueryTask { req_id, id, query_id, result_tx }
                ==> action == WorkerAction::<S, Op>::Forward {
                id,
                instruction: TaskInstruction::Query { req_id, query_id, result_tx },
            }
            &&& later matches TaskRequest::UpdateTask { req_id, id, update_id, result_tx }
                ==> action == WorkerAction::<S, Op>::Forward {
                id,
                instruction: TaskInstruction::Update { req_id, update_id, result_tx },
            }
        }),
{
    let created = worker_step(w, Received::Message(create)).0;
    lemma_task_stays_registered(created, create.spec_id(), events);
}

/// A request for a task that is not registered is answered with `NotFound`,
/// sent to the request's own sink, naming the kind of request, and changes
/// nothing.
pub proof fn lemma_unregistered_task_is_not_found<S, Op>(
    w: WorkerView,
    request: TaskRequest<S, Op>,
)
    requires
        request is QueryTask || request is UpdateTask,
        !w.routes(request.spec_id()),
    ensures
        ({
            let (after, action) = worker_step(w, Received::Message(request));
            &&& after == w
            &&& request matches TaskRequest::QueryTask { req_id, id, result_tx, .. } ==> {
                &&& action == WorkerAction::<S, Op>::Reply {
                    reply: not_found(req_id, id, QUERY_CONTEXT, result_tx),
                }
                &&& not_found(req_id, id, QUERY_CONTEXT, result_tx).result@
                    == TaskResultView::NotFound { req_id, id, ctx: "Task not found for query"@ }
            }
            &&& request matches TaskRequest::UpdateTask { req_id, id, result_tx, .. } ==> {
                &&& action == WorkerAction::<S, Op>::Reply {
                    reply: not_found(req_id, id, UPDATE_CONTEXT, result_tx),
                }
                &&& not_found(req_id, id, UPDATE_CONTEXT, result_tx).result@
                    == TaskResultView::NotFound { req_id, id, ctx: "Task not found for update"@ }
            }
        }),
{
}

/// A task that no request ever created is not registered.
pub proof fn lemma_task_never_created_is_unregistered<S, Op>(
    id: usize,
    events: Seq<WorkerEvent<S, Op>>,
)
    requires
        forall|i: int| 0 <= i < events.len() ==> !(#[trigger] events[i]).creates(id),
    ensures
        !worker_run(WorkerView::initial(), events).routes(id),
    decreases events.len(),
{
    if events.len() > 0 {
        lemma_task_never_created_is_unregistered(id, events.drop_last());
    }
}

/// A task whose unit has exited, on a timeout or a disconnect, is registered
/// no more, and stays so until a request creates it again.
pub proof fn lemma_exited_task_is_unregistered<S, Op>(
    w: WorkerView,
    id: usize,
    events: Seq<WorkerEvent<S, Op>>,
)
    requires
        forall|i: int| 0 <= i < events.len() ==> !(#[trigger] events[i]).creates(id),
    ensures
        !worker_run(w.release(id), events).routes(id),
    decreases events.len(),
{
    if events.len() > 0 {
        lemma_exited_task_is_unregistered(w, id, events.drop_last());
    }
}

/// The count of live tasks never exceeds the ceiling, whatever happens.
pub proof fn lemma_ceiling_is_never_exceeded<S, Op>(events: Seq<WorkerEvent<S, Op>>)
    requires
        run_enabled(WorkerView::initial(), events),
    ensures
        worker_run(WorkerView::initial(), events).within_ceiling(),
    decreases events.len(),
{
    if events.len() > 0 {
        lemma_ceiling_is_never_exceeded(events.drop_last());
    }
}

/// The count of live tasks equals the number of registered tasks before and
/// after every event, as long as no task is created under an identifier that
/// is still registered and only registered tasks exit.
pub proof fn lemma_count_matches_registry<S, Op>(w: WorkerView, event: WorkerEvent<S, Op>)
    requires
        w.settled(),
        forall|id: usize| #[trigger] event.creates(id) ==> !w.routes(id),
        forall|id: usize| #[trigger] event.exits(id) ==> w.routes(id),
    ensures
        event.apply(w).settled(),
{
    match event {
        WorkerEvent::Wait { received } => {
            match received {
                Received::Message(TaskRequest::CreateTask { id, .. }) => {
                    assert(event.creates(id));
                },
                _ => {},
            }
        },
        WorkerEvent::Exit { id } => {
            assert(event.exits(id));
        },
    }
}

/// Read-after-create: as long as no unit of the task exits and no other task
/// is created under its identifier, a query for a key that was supplied at
/// creation is answered with `QueryOk` and the value supplied under that key;
/// a query for any other key is answered with `QueryError`, which names the
/// key.
pub proof fn lemma_read_after_create<S, Op>(
    w: WorkerView,
    create: TaskRequest<S, Op>,
    events: Seq<WorkerEvent<S, Op>>,
    query: TaskRequest<S, Op>,
)
    requires
        create is CreateTask,
        w.has_capacity(),
        forall|i: int|
            0 <= i < events.len() ==> !(#[trigger] events[i]).exits(create.spec_id())
                && !events[i].creates(create.spec_id()),
        query is QueryTask,
        query.spec_id() == create.spec_id(),
    ensures
        ({
            let (created, spawn) = worker_step(w, Received::Message(create));
            let (_, forward) = worker_step(worker_run(created, events), Received::Message(query));
            &&& spawn is Spawn
            &&& forward is Forward
            &&& create matches TaskRequest::CreateTask { id, query_map, .. }
                && query matches TaskRequest::QueryTask { req_id, query_id, .. } && ({
                let answer = task_reply(spawn->task@, forward->instruction, None);
                if query_map@.contains_key(query_id@) {
                    answer == TaskResultView::QueryOk { req_id, id, value: query_map@[query_id@] }
                } else {
                    answer == TaskResultView::QueryError {
                        req_id,
                        id,
                        msg: not_found_message(query_id@),
                    }
                }
            })
        }),
{
    lemma_created_task_is_reachable(w, create, events, query);
}

/// As long as no unit of the task exits and no other task is created under
/// its identifier, an update for an operation that was supplied at creation
/// is answered with `UpdateOk`, which carries what the run of the operation
/// returned; an update for any other name is answered with `UpdateError`,
/// which names it, and runs nothing.
pub proof fn lemma_update_after_create<S, Op>(
    w: WorkerView,
    create: TaskRequest<S, Op>,
    events: Seq<WorkerEvent<S, Op>>,
    update: TaskRequest<S, Op>,
    outcome: Option<Seq<char>>,
)
    requires
        create is CreateTask,
        w.has_capacity(),
        forall|i: int|
            0 <= i < events.len() ==> !(#[trigger] events[i]).exits(create.spec_id())
                && !events[i].creates(create.spec_id()),
        update is UpdateTask,
        update.spec_id() == create.spec_id(),
        ({
            let spawn = worker_step(w, Received::Message(create)).1;
            let forward = worker_step(
                worker_run(worker_step(w, Received::Message(create)).0, events),
                Received::Message(update),
            ).1;
            outcome_fits(spawn->task@, forward->instruction, outcome)
        }),
    ensures
        ({
            let (created, spawn) = worker_step(w, Received::Message(create));
            let (_, forward) = worker_step(worker_run(created, events), Received::Message(update));
            &&& spawn is Spawn
            &&& forward is Forward
            &&& create matches TaskRequest::CreateTask { id, update_map, .. }
                && update matches TaskRequest::UpdateTask { req_id, update_id, .. } && ({
                let answer = task_reply(spawn->task@, forward->instruction, outcome);
                if update_map@.contains_key(update_id@) {
                    outcome matches Some(value) && answer == TaskResultView::UpdateOk {
                        req_id,
                        id,
                        value,
                    }
                } else {
                    outcome is None && answer == TaskResultView::UpdateError {
                        req_id,
                        id,
                        msg: not_found_message(update_id@),
                    }
                }
            })
        }),
{
    lemma_created_task_is_reachable(w, create, events, update);
}

/// Whatever a task unit answers to an instruction is terminal, and names the
/// instruction's own request and the unit's own task: each instruction gets
/// the one acknowledgement and this one result.
pub proof fn lemma_reply_answers_its_request<S>(
    task: TaskView,
    instruction: TaskInstruction<S>,
    outcome: Option<Seq<char>>,
)
    ensures
        task_reply(task, instruction, outcome).is_terminal(),
        task_reply(task, instruction, outcome).req_id() == Some(instruction.spec_req_id()),
        match task_reply(task, instruction, outcome) {
            TaskResultView::QueryOk { id, .. } => instruction is Query && id == task.id,
            TaskResultView::QueryError { id, .. } => instruction is Query && id == task.id,
            TaskResultView::UpdateOk { id, .. } => instruction is Update && id == task.id,
            TaskResultView::UpdateError { id, .. } => instruction is Update && id == task.id,
            _ => false,
        },
{
}

/// Queries are idempotent: a query leaves the task as it was, so a second
/// query for the same key is answered as the first was, with `QueryOk` and the
/// same value or with `QueryError` and the same text.
pub proof fn lemma_query_is_idempotent<S>(
    task: TaskView,
    first: TaskInstruction<S>,
    second: TaskInstruction<S>,
)
    requires
        first matches TaskInstruction::Query { query_id: once, .. }
            && second matches TaskInstruction::Query { query_id: twice, .. } && once@ == twice@,
    ensures
        task_after(task, first) == task,
        match task_reply(task, first, None) {
            TaskResultView::QueryOk { id, value, .. } => task_reply(
                task_after(task, first),
                second,
                None,
            ) == (TaskResultView::QueryOk { req_id: second.spec_req_id(), id, value }),
            TaskResultView::QueryError { id, msg, .. } => task_reply(
                task_after(task, first),
                second,
                None,
            ) == (TaskResultView::QueryError { req_id: second.spec_req_id(), id, msg }),
            _ => false,
        },
{
}

/// A terminal result is filed in the slot of its own request and nowhere
/// else; the bare acknowledgement is filed nowhere. Either way the listener
/// goes on.
pub proof fn lemma_result_is_filed_under_its_request(
    buffer: Seq<Option<TaskResultView>>,
    result: TaskResult,
)
    ensures
        listener_step(buffer, Received::Message(result)).1 == ListenerStep::Continue,
        listener_step(buffer, Received::Message(result)).0 == recorded(buffer, result@),
        recorded(buffer, result@).len() >= buffer.len(),
        result@.req_id() matches Some(req_id) ==> {
            &&& req_id < recorded(buffer, result@).len()
            &&& recorded(buffer, result@)[req_id as int] == Some(result@)
            &&& forall|i: int|
                0 <= i < buffer.len() && i != req_id ==> recorded(buffer, result@)[i] == buffer[i]
            &&& forall|i: int|
                buffer.len() <= i < recorded(buffer, result@).len() && i != req_id ==> recorded(
                    buffer,
                    result@,
                )[i] is None
        },
        result@.req_id() is None ==> recorded(buffer, result@) == buffer,
{
}

/// What a task unit answers to an instruction ends up in the buffer slot of
/// the instruction's request, whatever the buffer held and however short it
/// was.
pub proof fn lemma_answer_is_filed_under_its_request<S>(
    buffer: Seq<Option<TaskResultView>>,
    task: TaskView,
    instruction: TaskInstruction<S>,
    outcome: Option<Seq<char>>,
)
    ensures
        instruction.spec_req_id() < recorded(
            buffer,
            task_reply(task, instruction, outcome),
        ).len(),
        recorded(buffer, task_reply(task, instruction, outcome))[instruction.spec_req_id() as int]
            == Some(task_reply(task, instruction, outcome)),
{
    lemma_reply_answers_its_request(task, instruction, outcome);
}

/// The listener asks for the shutdown exactly when a wait ends in silence, a
/// timeout or a disconnect, and then leaves the buffer as it was.
pub proof fn lemma_listener_shuts_down_on_silence(
    buffer: Seq<Option<TaskResultView>>,
    received: Received<TaskResult>,
)
    ensures
        listener_step(buffer, received).1 == ListenerStep::Shutdown <==> received.is_silence(),
        received.is_silence() ==> listener_step(buffer, received).0 == buffer,
{
}

} // verus!
