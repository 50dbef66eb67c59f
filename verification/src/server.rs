//! The coordinator, and the listener that keeps its result buffer.

use crate::config::MAX_REQ_ID;
use crate::event::Received;
use crate::maps::{QueryMap, UpdateMap};
use crate::result::{TaskResult, TaskResultView};
use crate::worker::TaskRequest;
use vstd::prelude::*;

verus! {

/// What the listener does after one wait on the result channel.
#[derive(Debug, Clone, Copy, PartialEq, Eq, Structural)]
pub enum ListenerStep {
    /// Wait for the next result.
    Continue,
    /// Set the shared shutdown flag and stop: the system has gone idle, or no
    /// sender is left.
    Shutdown,
}

/// One slot of the result buffer, with its text as character sequences.
pub open spec fn slot_view(slot: Option<TaskResult>) -> Option<TaskResultView> {
    match slot {
        Some(result) => Some(result@),
        None => None,
    }
}

/// A buffer of `len` empty slots.
pub open spec fn empty_buffer(len: nat) -> Seq<Option<TaskResultView>> {
    Seq::new(len, |i: int| None::<TaskResultView>)
}

/// `buffer`, with empty slots added at its end until it has `len` slots.
pub open spec fn grown(buffer: Seq<Option<TaskResultView>>, len: nat) -> Seq<
    Option<TaskResultView>,
> {
    if buffer.len() >= len {
        buffer
    } else {
        buffer + empty_buffer((len - buffer.len()) as nat)
    }
}

/// `buffer` after `result` was filed: a terminal result takes the slot of its
/// request, in place of what was there, the buffer growing to reach that slot;
/// the bare acknowledgement is not kept.
pub open spec fn recorded(buffer: Seq<Option<TaskResultView>>, result: TaskResultView) -> Seq<
    Option<TaskResultView>,
> {
    match result.req_id() {
        Some(req_id) => grown(buffer, (req_id + 1) as nat).update(req_id as int, Some(result)),
        None => buffer,
    }
}

/// One step of the listener: the buffer after `received`, and whether the
/// listener goes on. A result is filed and the listener waits again; a
/// timeout or a disconnect leaves the buffer alone and shuts the system down.
pub open spec fn listener_step(
    buffer: Seq<Option<TaskResultView>>,
    received: Received<TaskResult>,
) -> (Seq<Option<TaskResultView>>, ListenerStep) {
    match received {
        Received::Message(result) => (recorded(buffer, result@), ListenerStep::Continue),
        Received::Timeout => (buffer, ListenerStep::Shutdown),
        Received::Disconnected => (buffer, ListenerStep::Shutdown),
    }
}

/// The coordinator: the engine's public entry point.
///
/// It hands out request and task identifiers from two counters that only go
/// up, builds the requests that go to the admission controller, and keeps the
/// buffer in which the listener files each request's terminal result under
/// the request's identifier.
pub struct ServerThread {
    pub request_counter: usize,
    pub task_id_counter: usize,
    pub results: Vec<Option<TaskResult>>,
}

impl ServerThread {
    /// The result buffer, slot by slot.
    pub open spec fn buffer(&self) -> Seq<Option<TaskResultView>> {
        self.results@.map_values(|slot: Option<TaskResult>| slot_view(slot))
    }

    /// A coordinator that has handed out no identifier, with a buffer of
    /// [`MAX_REQ_ID`] empty slots.
    pub fn new() -> (server: Self)
        ensures
            server.request_counter == 0,
            server.task_id_counter == 0,
            server.buffer() == empty_buffer(MAX_REQ_ID as nat),
    {
        let mut results: Vec<Option<TaskResult>> = Vec::with_capacity(MAX_REQ_ID);
        while results.len() < MAX_REQ_ID
            invariant
                results.len() <= MAX_REQ_ID,
                forall|i: int| 0 <= i < results.len() ==> results[i] is None,
            decreases MAX_REQ_ID - results.len(),
        {
            results.push(None);
        }
        let server = ServerThread { request_counter: 0, task_id_counter: 0, results };
        server
    }

    /// Hands out the next request identifier.
    pub fn next_req_id(&mut self) -> (req_id: usize)
        requires
            old(self).request_counter < usize::MAX,
        ensures
            req_id == old(self).request_counter,
            final(self).request_counter == old(self).request_counter + 1,
            final(self).task_id_counter == old(self).task_id_counter,
            final(self).results == old(self).results,
    {
        let req_id = self.request_counter;
        self.request_counter = self.request_counter + 1;
        req_id
    }

    /// Hands out the next task identifier.
    pub fn next_task_id(&mut self) -> (id: usize)
        requires
            old(self).task_id_counter < usize::MAX,
        ensures
            id == old(self).task_id_counter,
            final(self).task_id_counter == old(self).task_id_counter + 1,
            final(self).request_counter == old(self).request_counter,
            final(self).results == old(self).results,
    {
        let id = self.task_id_counter;
        self.task_id_counter = self.task_id_counter + 1;
        id
    }

    /// Builds the request that creates a task from `query_map` and
    /// `update_map`, under a fresh request identifier and a fresh task
    /// identifier, and returns the task identifier with it. The caller sends
    /// the request to the admission controller.
    pub fn create_task<S, Op>(
        &mut self,
        query_map: QueryMap,
        update_map: UpdateMap<Op>,
        result_tx: S,
    ) -> (created: (usize, TaskRequest<S, Op>))
        requires
            old(self).request_counter < usize::MAX,
            old(self).task_id_counter < usize::MAX,
        ensures
            created.0 == old(self).task_id_counter,
            created.1 == (TaskRequest::CreateTask {
                req_id: old(self).request_counter,
                id: old(self).task_id_counter,
                query_map,
                update_map,
                result_tx,
            }),
            final(self).request_counter == old(self).request_counter + 1,
            final(self).task_id_counter == old(self).task_id_counter + 1,
            final(self).results == old(self).results,
    {
        let req_id = self.next_req_id();
        let id = self.next_task_id();
        (id, TaskRequest::CreateTask { req_id, id, query_map, update_map, result_tx })
    }

    /// Builds the request that queries task `id` for `query_id`, under a
    /// fresh request identifier. The caller sends it to the admission
    /// controller.
    pub fn query_task<S, Op>(&mut self, id: usize, query_id: &str, result_tx: S) -> (request:
        TaskRequest<S, Op>)
        requires
            old(self).request_counter < usize::MAX,
        ensures
            request matches TaskRequest::QueryTask { req_id, id: target, query_id: key, result_tx: tx }
                && {
                &&& req_id == old(self).request_counter
                &&& target == id
                &&& key@ == query_id@
                &&& tx == result_tx
            },
            final(self).request_counter == old(self).request_counter + 1,
            final(self).task_id_counter == old(self).task_id_counter,
            final(self).results == old(self).results,
    {
        let req_id = self.next_req_id();
        TaskRequest::QueryTask { req_id, id, query_id: query_id.to_owned(), result_tx }
    }

    /// Builds the request that runs the operation `update_id` of task `id`,
    /// under a fresh request identifier. The caller sends it to the admission
    /// controller.
    pub fn update_task<S, Op>(&mut self, id: usize, update_id: &str, result_tx: S) -> (request:
        TaskRequest<S, Op>)
        requires
            old(self).request_counter < usize::MAX,
        ensures
            request matches TaskRequest::UpdateTask { req_id, id: target, update_id: name, result_tx: tx }
                && {
                &&& req_id == old(self).request_counter
                &&& target == id
                &&& name@ == update_id@
                &&& tx == result_tx
            },
            final(self).request_counter == old(self).request_counter + 1,
            final(self).task_id_counter == old(self).task_id_counter,
            final(self).results == old(self).results,
    {
        let req_id = self.next_req_id();
        TaskRequest::UpdateTask { req_id, id, update_id: update_id.to_owned(), result_tx }
    }

    /// Files one result: a terminal result goes into the slot of its request,
    /// in place of what was there, and the buffer grows where the slot lies
    /// beyond its end. The bare acknowledgement is dropped.
    pub fn record(&mut self, result: TaskResult)
        requires
            result@.req_id() matches Some(req_id) ==> req_id < usize::MAX,
        ensures
            final(self).buffer() == recorded(old(self).buffer(), result@),
            final(self).request_counter == old(self).request_counter,
            final(self).task_id_counter == old(self).task_id_counter,
    {
        match result.req_id() {
            Some(req_id) => {
                while self.results.len() <= req_id
                    invariant
                        req_id < usize::MAX,
                        self.request_counter == old(self).request_counter,
                        self.task_id_counter == old(self).task_id_counter,
                        old(self).results@.len() <= self.results@.len(),
                        self.results@.len() <= old(self).results@.len() || self.results@.len()
                            <= req_id + 1,
                        forall|i: int|
                            0 <= i < old(self).results@.len() ==> self.results@[i] == old(
                                self,
                            ).results@[i],
                        forall|i: int|
                            old(self).results@.len() <= i < self.results@.len()
                                ==> self.results@[i] is None,
                    decreases req_id + 1 - self.results.len(),
                {
                    self.results.push(None);
                }
                self.results[req_id] = Some(result);
            },
            None => {},
        }
    }

    /// Takes one step of the listener on the outcome of a wait of at most
    /// [`LISTENER_TIMEOUT`] seconds on the result channel: files a result and
    /// goes on, or, on a timeout or a disconnect, asks for the shutdown.
    ///
    /// [`LISTENER_TIMEOUT`]: crate::config::LISTENER_TIMEOUT
    pub fn listen(&mut self, received: Received<TaskResult>) -> (step: ListenerStep)
        requires
            received matches Received::Message(result) ==> (result@.req_id() matches Some(req_id)
                ==> req_id < usize::MAX),
        ensures
            (final(self).buffer(), step) == listener_step(old(self).buffer(), received),
            final(self).request_counter == old(self).request_counter,
            final(self).task_id_counter == old(self).task_id_counter,
    {
        match received {
            Received::Message(result) => {
                self.record(result);
                ListenerStep::Continue
            },
            Received::Timeout => ListenerStep::Shutdown,
            Received::Disconnected => ListenerStep::Shutdown,
        }
    }

    /// Whether the result filed for request `req_id` equals `expected`.
    pub fn expect(&self, req_id: usize, expected: &TaskResult) -> (matched: bool)
        requires
            req_id < self.buffer().len(),
        ensures
            matched == (self.buffer()[req_id as int] == Some(expected@)),
    {
        match &self.results[req_id] {
            Some(actual) => actual == expected,
            None => false,
        }
    }

    /// Whether no result has been filed for request `req_id`.
    pub fn expect_none(&self, req_id: usize) -> (empty: bool)
        requires
            req_id < self.buffer().len(),
        ensures
            empty == (self.buffer()[req_id as int] is None),
    {
        self.results[req_id].is_none()
    }
}

} // verus!
