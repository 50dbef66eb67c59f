//! The outcomes that travel on the shared result channel.

use vstd::prelude::*;

verus! {

/// What a component reports about one request.
///
/// Every variant but [`TaskResult::ReceivedRequest`] is terminal: it names the
/// request it answers and is filed in the coordinator's buffer.
/// `ReceivedRequest` only tells the listener that a task unit is at work.
#[derive(Debug, Clone)]
pub enum TaskResult {
    /// The queried key exists; `value` is what was stored under it.
    QueryOk { req_id: usize, id: usize, value: String },
    /// The task has no such key.
    QueryError { req_id: usize, id: usize, msg: String },
    /// The named operation ran; `value` is what it returned.
    UpdateOk { req_id: usize, id: usize, value: String },
    /// The task has no operation of that name.
    UpdateError { req_id: usize, id: usize, msg: String },
    /// No task of that identifier is registered; `ctx` names the kind of
    /// request that looked for it.
    NotFound { req_id: usize, id: usize, ctx: &'static str },
    /// The admission ceiling was reached: the task was not created.
    Throttled { req_id: usize, id: usize },
    /// A task unit has taken an instruction and is about to work on it.
    ReceivedRequest,
}

/// A [`TaskResult`] with its strings as character sequences.
pub enum TaskResultView {
    QueryOk { req_id: usize, id: usize, value: Seq<char> },
    QueryError { req_id: usize, id: usize, msg: Seq<char> },
    UpdateOk { req_id: usize, id: usize, value: Seq<char> },
    UpdateError { req_id: usize, id: usize, msg: Seq<char> },
    NotFound { req_id: usize, id: usize, ctx: Seq<char> },
    Throttled { req_id: usize, id: usize },
    ReceivedRequest,
}

impl TaskResultView {
    /// The request a result answers; `None` for the bare acknowledgement.
    pub open spec fn req_id(self) -> Option<usize> {
        match self {
            TaskResultView::QueryOk { req_id, .. } => Some(req_id),
            TaskResultView::QueryError { req_id, .. } => Some(req_id),
            TaskResultView::UpdateOk { req_id, .. } => Some(req_id),
            TaskResultView::UpdateError { req_id, .. } => Some(req_id),
            TaskResultView::NotFound { req_id, .. } => Some(req_id),
            TaskResultView::Throttled { req_id, .. } => Some(req_id),
            TaskResultView::ReceivedRequest => None,
        }
    }

    /// Whether a result closes its request, which all but the acknowledgement do.
    pub open spec fn is_terminal(self) -> bool {
        self.req_id() is Some
    }
}

impl View for TaskResult {
    type V = TaskResultView;

    open spec fn view(&self) -> TaskResultView {
        match *self {
            TaskResult::QueryOk { req_id, id, value } => TaskResultView::QueryOk {
                req_id,
                id,
                value: value@,
            },
            TaskResult::QueryError { req_id, id, msg } => TaskResultView::QueryError {
                req_id,
                id,
                msg: msg@,
            },
            TaskResult::UpdateOk { req_id, id, value } => TaskResultView::UpdateOk {
                req_id,
                id,
                value: value@,
            },
            TaskResult::UpdateError { req_id, id, msg } => TaskResultView::UpdateError {
                req_id,
                id,
                msg: msg@,
            },
            TaskResult::NotFound { req_id, id, ctx } => TaskResultView::NotFound {
                req_id,
                id,
                ctx: ctx@,
            },
            TaskResult::Throttled { req_id, id } => TaskResultView::Throttled { req_id, id },
            TaskResult::ReceivedRequest => TaskResultView::ReceivedRequest,
        }
    }
}

impl TaskResult {
    /// The request this result answers; `None` for the bare acknowledgement.
    pub fn req_id(&self) -> (r: Option<usize>)
        ensures
            r == self@.req_id(),
    {
        match self {
            TaskResult::QueryOk { req_id, .. } => Some(*req_id),
            TaskResult::QueryError { req_id, .. } => Some(*req_id),
            TaskResult::UpdateOk { req_id, .. } => Some(*req_id),
            TaskResult::UpdateError { req_id, .. } => Some(*req_id),
            TaskResult::NotFound { req_id, .. } => Some(*req_id),
            TaskResult::Throttled { req_id, .. } => Some(*req_id),
            TaskResult::ReceivedRequest => None,
        }
    }
}

/// Two results are equal when they are the same variant with the same
/// identifiers and the same text.
impl PartialEq for TaskResult {
    fn eq(&self, other: &TaskResult) -> (r: bool) {
        match (self, other) {
            (
                TaskResult::QueryOk { req_id: r1, id: i1, value: v1 },
                TaskResult::QueryOk { req_id: r2, id: i2, value: v2 },
            ) => *r1 == *r2 && *i1 == *i2 && *v1 == *v2,
            (
                TaskResult::QueryError { req_id: r1, id: i1, msg: m1 },
                TaskResult::QueryError { req_id: r2, id: i2, msg: m2 },
            ) => *r1 == *r2 && *i1 == *i2 && *m1 == *m2,
            (
                TaskResult::UpdateOk { req_id: r1, id: i1, value: v1 },
                TaskResult::UpdateOk { req_id: r2, id: i2, value: v2 },
            ) => *r1 == *r2 && *i1 == *i2 && *v1 == *v2,
            (
                TaskResult::UpdateError { req_id: r1, id: i1, msg: m1 },
                TaskResult::UpdateError { req_id: r2, id: i2, msg: m2 },
            ) => *r1 == *r2 && *i1 == *i2 && *m1 == *m2,
            (
                TaskResult::NotFound { req_id: r1, id: i1, ctx: c1 },
                TaskResult::NotFound { req_id: r2, id: i2, ctx: c2 },
            ) => *r1 == *r2 && *i1 == *i2 && (*c1).to_owned() == (*c2).to_owned(),
            (
                TaskResult::Throttled { req_id: r1, id: i1 },
                TaskResult::Throttled { req_id: r2, id: i2 },
            ) => *r1 == *r2 && *i1 == *i2,
            (TaskResult::ReceivedRequest, TaskResult::ReceivedRequest) => true,
            _ => false,
        }
    }
}

impl vstd::std_specs::cmp::PartialEqSpecImpl for TaskResult {
    open spec fn obeys_eq_spec() -> bool {
        true
    }

    open spec fn eq_spec(&self, other: &TaskResult) -> bool {
        self@ == other@
    }
}

} // verus!
