//! A three-tier task-execution engine, written as verified state machines.
//!
//! A coordinator ([`ServerThread`]) hands out request and task identifiers and
//! builds requests. An admission controller ([`WorkerThread`]) throttles task
//! creation and routes instructions to task units. Each task unit
//! ([`TaskThread`]) answers one instruction at a time against the private state
//! of its [`Task`]. A listener, kept with the coordinator, files every result
//! under its request identifier and decides when the system has gone idle.
//!
//! Every component is a step function from its state and one receive outcome
//! ([`Received`]) to its next state and the action to perform. Nothing here
//! blocks, sleeps, spawns or sends: the caller owns the threads and channels,
//! performs each action, and hands back what it received next.

pub mod config;
pub mod event;
pub mod result;
pub mod maps;
pub mod task;
pub mod worker;
pub mod server;
pub mod theorems;

pub use crate::config::{
    LISTENER_TIMEOUT, MAX_CONCURRENT_TASKS, MAX_REQ_ID, TASK_TIMEOUT, WORKER_TIMEOUT,
};
pub use crate::event::Received;
pub use crate::maps::{QueryMap, UpdateMap, UpdateOp};
pub use crate::result::{TaskResult, TaskResultView};
pub use crate::server::{ListenerStep, ServerThread};
pub use crate::task::{Reply, Task, TaskInstruction, TaskStep, TaskThread, TaskView};
pub use crate::worker::{TaskRequest, WorkerAction, WorkerThread, WorkerView};
