//! Protocol definitions: the status reports a worker sends to the supervisor,
//! the control directives the supervisor broadcasts to workers, the task
//! status set, and the candidate descriptions tasks are created from.

use vstd::prelude::*;

verus! {

/// Identity of a task record. Ids are allocated monotonically by the
/// supervisor and are never reused, even after the task terminates.
pub type Id = usize;

/// The lifecycle states of a task record.
///
/// `Finished` and `Canceled` are terminal and admit no further transition.
#[derive(Clone, Copy, Debug, PartialEq, Eq, Structural)]
pub enum TaskStatus {
    Running,
    Sleeping,
    OnStrike,
    /// Initial state: the record exists but no report has arrived yet.
    KnownUnknown,
    Finished,
    Canceled,
}

/// Sent from workers to the supervisor over the bounded status channel.
/// Every variant is tagged with the id of the task it reports on.
#[derive(Clone, Copy, Debug, PartialEq, Eq, Structural)]
pub enum TaskTxMsg {
    /// Conditions were untenable and the task refuses to work.
    LaborDispute(Id),
    /// Work resumes after a bargain was struck.
    Reconciliation(Id),
    /// Progress update; `progress` is a percentage in 0..=100.
    RunReport { id: Id, progress: u8 },
    /// The worker is about to block for a sleep sub-interval.
    SleepReport(Id),
    /// The worker observed a stop directive that applied to it — addressed
    /// or broadcast — and terminated.
    CancelReport(Id),
}

/// Broadcast by the supervisor to all workers; each worker checks whether a
/// directive is addressed to it or to everyone.
#[derive(Clone, Copy, Debug, PartialEq, Eq, Structural)]
pub enum TaskRxMsg {
    /// Ask the worker with this id to stop at its next safe point.
    PleaseStop(Id),
    /// Global shutdown: every worker should stop.
    EveryoneStopPls,
}

/// One outcome of a non-blocking poll of the control channel.
#[derive(Clone, Copy, Debug)]
pub enum ControlPoll {
    /// A directive was pending.
    Msg(TaskRxMsg),
    /// No directive is pending; senders may still be active.
    Empty,
    /// All senders are gone; no directive will ever arrive.
    Closed,
    /// The receiver lagged and skipped this many directives.
    Lagged(u64),
}

/// A candidate job description, as offered by the picker; `name` and
/// `description` are copied unchanged into the task record at creation.
#[derive(Clone, Copy, Debug)]
pub struct CandidateTask {
    pub name: &'static str,
    pub description: &'static str,
}

/// Whether a status is terminal: a terminal record admits no transition.
pub open spec fn is_terminal(s: TaskStatus) -> bool {
    s is Finished || s is Canceled
}

impl TaskStatus {
    /// Whether this status is terminal.
    pub fn terminal(&self) -> (r: bool)
        ensures
            r == is_terminal(*self),
    {
        matches!(*self, TaskStatus::Finished | TaskStatus::Canceled)
    }

    /// The text a rendering layer shows for this status.
    pub fn label(&self) -> (r: &'static str)
        ensures
            *self is Running ==> r@ == "Running"@,
            *self is Sleeping ==> r@ == "Sleeping"@,
            *self is OnStrike ==> r@ == "Strike!"@,
            *self is KnownUnknown ==> r@ == "???"@,
            *self is Finished ==> r@ == "Done"@,
            *self is Canceled ==> r@ == "Cancelled"@,
    {
        match *self {
            TaskStatus::Running => "Running",
            TaskStatus::Sleeping => "Sleeping",
            TaskStatus::OnStrike => "Strike!",
            TaskStatus::KnownUnknown => "???",
            TaskStatus::Finished => "Done",
            TaskStatus::Canceled => "Cancelled",
        }
    }
}

impl TaskTxMsg {
    /// The id of the task record this report targets.
    pub open spec fn spec_target(self) -> Id {
        match self {
            TaskTxMsg::LaborDispute(id) => id,
            TaskTxMsg::Reconciliation(id) => id,
            TaskTxMsg::RunReport { id, progress } => id,
            TaskTxMsg::SleepReport(id) => id,
            TaskTxMsg::CancelReport(id) => id,
        }
    }

    /// The id of the task record this report targets.
    pub fn target(&self) -> (id: Id)
        ensures
            id == self.spec_target(),
    {
        match *self {
            TaskTxMsg::LaborDispute(id) => id,
            TaskTxMsg::Reconciliation(id) => id,
            TaskTxMsg::RunReport { id, progress } => id,
            TaskTxMsg::SleepReport(id) => id,
            TaskTxMsg::CancelReport(id) => id,
        }
    }
}

} // verus!
