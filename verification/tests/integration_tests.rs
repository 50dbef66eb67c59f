//! The whole engine, driven one event at a time on a single thread.

use server_worker_sim::{
    ListenerStep, QueryMap, Received, ServerThread, TaskRequest, TaskResult, TaskStep, TaskThread,
    UpdateMap, UpdateOp, WorkerAction, WorkerThread, MAX_CONCURRENT_TASKS, MAX_REQ_ID,
};
use std::collections::HashMap;

/// A boxed closure as a task operation.
struct Boxed(Box<dyn FnMut() -> String + Send + 'static>);

impl UpdateOp for Boxed {
    fn invoke(&mut self) -> String {
        (self.0)()
    }
}

/// A sink that remembers which request it was made for.
type Sink = usize;

/// The four components wired together without threads: every request is
/// carried through the admission controller, the task unit and the listener
/// before the next one is sent.
struct Engine {
    server: ServerThread,
    worker: WorkerThread,
    units: HashMap<usize, TaskThread<Boxed>>,
    shutdown: bool,
    acks: usize,
}

impl Engine {
    fn new() -> Self {
        Engine {
            server: ServerThread::new(),
            worker: WorkerThread::new(),
            units: HashMap::new(),
            shutdown: false,
            acks: 0,
        }
    }

    fn sink(&self) -> Sink {
        self.server.request_counter
    }

    /// What the result channel does with one message.
    fn deliver(&mut self, result_tx: Sink, result: TaskResult) {
        match result.req_id() {
            Some(req_id) => assert_eq!(result_tx, req_id, "a result went to another request's sink"),
            None => self.acks += 1,
        }
        assert!(!self.shutdown, "a result arrived after the listener had stopped");
        let step = self.server.listen(Received::Message(result));
        assert_eq!(step, ListenerStep::Continue);
    }

    /// What the request channel does with one message.
    fn send(&mut self, request: TaskRequest<Sink, Boxed>) {
        if !WorkerThread::continues(self.shutdown) {
            return;
        }
        match self.worker.step(Received::Message(request)) {
            WorkerAction::Reply { reply } => self.deliver(reply.result_tx, reply.result),
            WorkerAction::Spawn { task } => {
                let id = task.id;
                self.units.insert(id, TaskThread::new(task));
            }
            WorkerAction::Forward { id, instruction } => {
                let mut unit = self.units.remove(&id).expect("a forwarded instruction has a unit");
                match unit.step(Received::Message(instruction)) {
                    TaskStep::Work { ack, instruction } => {
                        self.deliver(*instruction.result_tx(), ack);
                        let reply = unit.execute(instruction);
                        self.deliver(reply.result_tx, reply.result);
                    }
                    TaskStep::Exit { .. } => panic!("a unit exited on a message"),
                }
                self.units.insert(id, unit);
            }
            WorkerAction::Idle => panic!("the controller idled on a message"),
        }
    }

    fn create_task(&mut self, query_map: QueryMap, update_map: UpdateMap<Boxed>) -> usize {
        let sink = self.sink();
        let (id, request) = self.server.create_task(query_map, update_map, sink);
        self.send(request);
        id
    }

    fn query_task(&mut self, id: usize, query_id: &str) -> usize {
        let sink = self.sink();
        let request = self.server.query_task(id, query_id, sink);
        let req_id = request.req_id();
        self.send(request);
        req_id
    }

    fn update_task(&mut self, id: usize, update_id: &str) -> usize {
        let sink = self.sink();
        let request = self.server.update_task(id, update_id, sink);
        let req_id = request.req_id();
        self.send(request);
        req_id
    }

    /// The unit of task `id` waits for an instruction in vain.
    fn task_times_out(&mut self, id: usize) {
        let unit = self.units.remove(&id).expect("only a live unit can time out");
        match unit.step(Received::<server_worker_sim::TaskInstruction<Sink>>::Timeout) {
            TaskStep::Exit { id: gone } => {
                assert_eq!(gone, id);
                assert!(self.worker.active_tasks() > 0);
                self.worker.task_exited(gone);
            }
            TaskStep::Work { .. } => panic!("a unit worked on a timeout"),
        }
    }

    /// Every unit times out, then the listener waits for a result in vain.
    fn join_listener(&mut self) {
        let mut live: Vec<usize> = self.units.keys().copied().collect();
        live.sort();
        for id in live {
            self.task_times_out(id);
        }
        assert_eq!(self.server.listen(Received::Timeout), ListenerStep::Shutdown);
        self.shutdown = true;
    }

    fn expect(&self, req_id: usize, expected: TaskResult) {
        assert!(req_id < self.server.results.len());
        assert!(
            self.server.expect(req_id, &expected),
            "request {req_id}: expected {expected:?}, found {:?}",
            self.server.results[req_id]
        );
    }

    fn expect_none(&self, req_id: usize) {
        assert!(req_id < self.server.results.len());
        assert!(self.server.expect_none(req_id), "request {req_id} has a result");
    }
}

fn query_map(entries: &[(&str, &str)]) -> QueryMap {
    let mut map = QueryMap::new();
    for (key, value) in entries {
        map.insert(key.to_string(), value.to_string());
    }
    map
}

fn no_updates() -> UpdateMap<Boxed> {
    UpdateMap::new()
}

fn one_update(name: &str, value: &'static str) -> UpdateMap<Boxed> {
    let mut map = UpdateMap::new();
    map.insert(name.to_string(), Boxed(Box::new(move || value.to_string())));
    map
}

#[test]
fn test_simple_success() {
    let mut s = Engine::new();

    let task_id = s.create_task(query_map(&[("status", "running")]), no_updates());
    let req = s.query_task(task_id, "status");

    assert_eq!(task_id, 0);
    assert_eq!(req, 1);
    s.expect_none(0);
    s.expect(
        req,
        TaskResult::QueryOk { req_id: req, id: task_id, value: "running".to_string() },
    );
    assert_eq!(s.acks, 1);
}

#[test]
fn test_query_after_completion() {
    let mut s = Engine::new();

    let task_id = s.create_task(query_map(&[("status", "running")]), no_updates());
    // Longer than the task's deadline, shorter than the listener's.
    s.task_times_out(task_id);
    let req = s.query_task(task_id, "status");

    s.expect(
        req,
        TaskResult::NotFound { req_id: req, id: task_id, ctx: "Task not found for query" },
    );
    assert_eq!(s.worker.active_tasks(), 0);
    assert!(!s.worker.is_registered(task_id));
}

#[test]
fn test_query_after_worker_dropped() {
    let mut s = Engine::new();

    let task_id = s.create_task(query_map(&[("status", "running")]), no_updates());
    // Longer than every deadline: the task exits, then the listener shuts the system down.
    s.join_listener();
    let req = s.query_task(task_id, "status");

    assert!(s.shutdown);
    assert!(!WorkerThread::continues(s.shutdown));
    s.expect_none(req);
}

#[test]
fn test_query_missing_key_in_task() {
    let mut s = Engine::new();

    let task_id = s.create_task(query_map(&[("status", "running")]), no_updates());
    let req = s.query_task(task_id, "nonexistent_key");

    s.expect(
        req,
        TaskResult::QueryError {
            req_id: req,
            id: task_id,
            msg: "nonexistent_key not found".to_string(),
        },
    );
}

#[test]
fn test_update_missing_id_in_task() {
    let mut s = Engine::new();

    let task_id = s.create_task(query_map(&[("info", "test")]), no_updates());
    let req = s.update_task(task_id, "bad_update_id");
    s.join_listener();

    s.expect(
        req,
        TaskResult::UpdateError {
            req_id: req,
            id: task_id,
            msg: "bad_update_id not found".to_string(),
        },
    );
}

#[test]
fn test_query_nonexistent_task() {
    let mut s = Engine::new();
    let req = s.query_task(999, "any_key");
    s.join_listener();

    s.expect(req, TaskResult::NotFound { req_id: 0, id: 999, ctx: "Task not found for query" });
    assert_eq!(s.acks, 0);
}

#[test]
fn test_update_nonexistent_task() {
    let mut s = Engine::new();
    let req = s.update_task(888, "some_update");
    s.join_listener();

    s.expect(req, TaskResult::NotFound { req_id: 0, id: 888, ctx: "Task not found for update" });
    assert_eq!(s.acks, 0);
}

#[test]
fn test_task_throttling_behavior() {
    let mut s = Engine::new();
    for _i in 0..6 {
        s.create_task(query_map(&[("get_status", "idle")]), one_update("mark_done", "Done"));
    }
    assert_eq!(s.worker.active_tasks(), MAX_CONCURRENT_TASKS);
    s.join_listener();

    for created in 0..4 {
        s.expect_none(created);
    }
    s.expect(4, TaskResult::Throttled { req_id: 4, id: 4 });
    s.expect(5, TaskResult::Throttled { req_id: 5, id: 5 });
    assert_eq!(s.worker.active_tasks(), 0);
}

#[test]
fn test_queried_task_w_throttled_tasks() {
    let mut s = Engine::new();
    let mut task_id = [0; 6];
    for i in 0..6 {
        task_id[i] =
            s.create_task(query_map(&[("get_status", "idle")]), one_update("mark_done", "done"));
    }
    assert_eq!(task_id, [0, 1, 2, 3, 4, 5]);

    let q0 = s.query_task(task_id[0], "get_status");
    let u1 = s.update_task(task_id[1], "mark_done");
    let q2 = s.query_task(task_id[2], "get_status");
    let bad = s.query_task(task_id[0], "invalid_query");
    s.join_listener();

    s.expect(4, TaskResult::Throttled { req_id: 4, id: 4 });
    s.expect(5, TaskResult::Throttled { req_id: 5, id: 5 });
    s.expect(q0, TaskResult::QueryOk { req_id: 6, id: 0, value: "idle".to_string() });
    s.expect(u1, TaskResult::UpdateOk { req_id: 7, id: 1, value: "done".to_string() });
    s.expect(q2, TaskResult::QueryOk { req_id: 8, id: 2, value: "idle".to_string() });
    s.expect(
        bad,
        TaskResult::QueryError { req_id: 9, id: 0, msg: "invalid_query not found".to_string() },
    );
    assert_eq!(s.acks, 4);
}

#[test]
fn test_complex_task_interactions() {
    let mut server = Engine::new();

    let mut task_ids = Vec::new();
    for i in 0..4 {
        let status = format!("idle_{}", i);
        let task_id =
            server.create_task(query_map(&[("get_status", &status)]), one_update("mark_done", "done"));
        task_ids.push(task_id);
    }

    let r4 = server.query_task(task_ids[0], "get_status");
    let r5 = server.update_task(task_ids[1], "mark_done");
    let r6 = server.query_task(task_ids[2], "get_status");
    let r7 = server.query_task(task_ids[0], "invalid_query");
    let r8 = server.update_task(task_ids[3], "invalid_update");
    let r9 = server.query_task(task_ids[0], "get_status");
    let r10 = server.update_task(task_ids[1], "mark_done");
    let r11 = server.query_task(task_ids[2], "get_status");
    let r12 = server.update_task(task_ids[3], "mark_done");
    let r13 = server.query_task(task_ids[1], "get_status");

    server.join_listener();

    assert_eq!([r4, r5, r6, r7, r8, r9, r10, r11, r12, r13], [4, 5, 6, 7, 8, 9, 10, 11, 12, 13]);
    server.expect(r4, TaskResult::QueryOk { req_id: 4, id: 0, value: "idle_0".to_string() });
    server.expect(r5, TaskResult::UpdateOk { req_id: 5, id: 1, value: "done".to_string() });
    server.expect(r6, TaskResult::QueryOk { req_id: 6, id: 2, value: "idle_2".to_string() });
    server.expect(
        r7,
        TaskResult::QueryError { req_id: 7, id: 0, msg: "invalid_query not found".to_string() },
    );
    server.expect(
        r8,
        TaskResult::UpdateError { req_id: 8, id: 3, msg: "invalid_update not found".to_string() },
    );
    server.expect(r9, TaskResult::QueryOk { req_id: 9, id: 0, value: "idle_0".to_string() });
    server.expect(r10, TaskResult::UpdateOk { req_id: 10, id: 1, value: "done".to_string() });
    server.expect(r11, TaskResult::QueryOk { req_id: 11, id: 2, value: "idle_2".to_string() });
    server.expect(r12, TaskResult::UpdateOk { req_id: 12, id: 3, value: "done".to_string() });
    server.expect(r13, TaskResult::QueryOk { req_id: 13, id: 1, value: "idle_1".to_string() });
    assert_eq!(server.acks, 10);
}

#[test]
fn one_more_than_the_ceiling_is_throttled() {
    let mut s = Engine::new();
    for _ in 0..MAX_CONCURRENT_TASKS {
        s.create_task(query_map(&[]), no_updates());
    }
    let extra = s.create_task(query_map(&[]), no_updates());

    assert_eq!(extra, MAX_CONCURRENT_TASKS);
    for created in 0..MAX_CONCURRENT_TASKS {
        s.expect_none(created);
        assert!(s.worker.is_registered(created));
    }
    s.expect(extra, TaskResult::Throttled { req_id: extra, id: extra });
    assert!(!s.worker.is_registered(extra));
    assert_eq!(s.worker.active_tasks(), MAX_CONCURRENT_TASKS);

    let req = s.query_task(extra, "anything");
    s.expect(req, TaskResult::NotFound { req_id: req, id: extra, ctx: "Task not found for query" });
}

#[test]
fn update_runs_the_operation_each_time() {
    let mut s = Engine::new();
    let runs = std::sync::Arc::new(std::sync::atomic::AtomicUsize::new(0));
    let seen = runs.clone();
    let mut updates = UpdateMap::new();
    updates.insert(
        "mark_done".to_string(),
        Boxed(Box::new(move || {
            seen.fetch_add(1, std::sync::atomic::Ordering::SeqCst);
            "done".to_string()
        })),
    );
    let id = s.create_task(query_map(&[]), updates);

    let first = s.update_task(id, "mark_done");
    assert_eq!(runs.load(std::sync::atomic::Ordering::SeqCst), 1);
    let second = s.update_task(id, "mark_done");
    assert_eq!(runs.load(std::sync::atomic::Ordering::SeqCst), 2);

    s.expect(first, TaskResult::UpdateOk { req_id: first, id, value: "done".to_string() });
    s.expect(second, TaskResult::UpdateOk { req_id: second, id, value: "done".to_string() });
    assert_ne!(first, second);
}

#[test]
fn slot_freed_by_an_exit_can_be_taken_again() {
    let mut s = Engine::new();
    let mut ids = Vec::new();
    for _ in 0..MAX_CONCURRENT_TASKS {
        ids.push(s.create_task(query_map(&[("k", "v")]), no_updates()));
    }
    s.task_times_out(ids[1]);
    assert_eq!(s.worker.active_tasks(), MAX_CONCURRENT_TASKS - 1);

    let fresh = s.create_task(query_map(&[("k", "w")]), no_updates());
    s.expect_none(fresh + MAX_CONCURRENT_TASKS - ids.len());
    assert!(s.worker.is_registered(fresh));
    let req = s.query_task(fresh, "k");
    s.expect(req, TaskResult::QueryOk { req_id: req, id: fresh, value: "w".to_string() });

    let gone = s.query_task(ids[1], "k");
    s.expect(gone, TaskResult::NotFound { req_id: gone, id: ids[1], ctx: "Task not found for query" });
}

#[test]
fn two_identical_queries_agree() {
    let mut s = Engine::new();
    let id = s.create_task(query_map(&[("status", "running")]), no_updates());

    let first = s.query_task(id, "status");
    let second = s.query_task(id, "status");

    s.expect(first, TaskResult::QueryOk { req_id: first, id, value: "running".to_string() });
    s.expect(second, TaskResult::QueryOk { req_id: second, id, value: "running".to_string() });
}

#[test]
fn results_beyond_the_first_slots_are_kept() {
    let mut s = Engine::new();
    let id = s.create_task(query_map(&[("status", "running")]), no_updates());
    let mut last = 0;
    for _ in 0..MAX_REQ_ID + 5 {
        last = s.query_task(id, "status");
    }

    assert_eq!(last, MAX_REQ_ID + 5);
    assert_eq!(s.server.results.len(), MAX_REQ_ID + 6);
    s.expect(last, TaskResult::QueryOk { req_id: last, id, value: "running".to_string() });
    s.expect(
        MAX_REQ_ID - 1,
        TaskResult::QueryOk { req_id: MAX_REQ_ID - 1, id, value: "running".to_string() },
    );
}
