//! The task record: the supervisor's bookkeeping entry mirroring one worker's
//! observable state, and the state machine that status reports drive it
//! through.
//!
//! `KnownUnknown` is the initial state; `RunReport` and `SleepReport` oscillate
//! the record between `Running` and `Sleeping`; `LaborDispute` parks it in
//! `OnStrike`, from which `Reconciliation` recovers it; `CancelReport` takes it
//! to `Canceled`. `Finished` and `Canceled` are terminal and absorb every
//! further report. A record is finalized — end timestamp set, progress 100,
//! result handle taken — only when its worker's execution context is observed
//! to have stopped, and an explicit cancellation is never overwritten by that
//! derived completion.

use vstd::prelude::*;

use crate::ext;
use crate::messages::{is_terminal, CandidateTask, Id, TaskStatus, TaskTxMsg};

verus! {

/// One task record. It is owned and mutated only by the supervisor; workers
/// influence it exclusively through status reports.
pub struct Task {
    /// Unique, monotonically assigned, never reused.
    pub id: Id,
    /// Immutable, from the originating candidate.
    pub name: &'static str,
    /// The record's position in the state machine.
    pub status: TaskStatus,
    /// Creation time, in milliseconds since the Unix epoch.
    pub start: i64,
    /// Finalization time; set exactly once, when the record is finalized.
    pub end: Option<i64>,
    /// Immutable, from the originating candidate.
    pub description: &'static str,
    /// The outstanding result handle; consumed exactly once, at finalization.
    pub handle: Option<tokio::task::JoinHandle<Option<i128>>>,
    /// Progress percentage in 0..=100.
    pub progress: u8,
    /// Sticky once set: a stop was requested and the terminal report is
    /// still awaited.
    pub pending_cancel: bool,
}

impl Task {
    /// Well-formedness: progress is a percentage, and the end timestamp is
    /// set only on a finalized record — terminal, at full progress, with the
    /// result handle consumed.
    pub open spec fn wf(self) -> bool {
        &&& self.progress <= 100
        &&& (self.end is Some ==> self.progress == 100 && is_terminal(self.status)
            && self.handle is None)
    }

    /// Build a fresh record for a just-created task: initial status, zero
    /// progress, no end timestamp, holding the task's result handle. The
    /// start timestamp is read from the clock.
    pub fn new(
        ct: &CandidateTask,
        id: Id,
        handle: Option<tokio::task::JoinHandle<Option<i128>>>,
    ) -> (t: Task)
        ensures
            t.wf(),
            t.id == id,
            t.name == ct.name,
            t.description == ct.description,
            t.status is KnownUnknown,
            t.progress == 0,
            t.end is None,
            t.handle == handle,
            !t.pending_cancel,
    {
        let start = ext::now_millis();
        Task {
            id,
            name: ct.name,
            status: TaskStatus::KnownUnknown,
            start,
            end: None,
            description: ct.description,
            handle,
            progress: 0,
            pending_cancel: false,
        }
    }

    /// Apply one status report to this record, following the state machine.
    pub fn apply_msg(&mut self, msg: TaskTxMsg)
        requires
            old(self).wf(),
        ensures
            *final(self) == spec_apply(*old(self), msg),
            final(self).wf(),
    {
        if self.status.terminal() {
            return ;
        }
        match msg {
            TaskTxMsg::RunReport { id, progress } => {
                if progress <= 100 {
                    self.status = TaskStatus::Running;
                    self.progress = progress;
                }
            },
            TaskTxMsg::SleepReport(_) => {
                self.status = TaskStatus::Sleeping;
            },
            TaskTxMsg::LaborDispute(_) => {
                self.status = TaskStatus::OnStrike;
            },
            TaskTxMsg::Reconciliation(_) => {
                self.status = TaskStatus::Running;
            },
            TaskTxMsg::CancelReport(_) => {
                self.status = TaskStatus::Canceled;
            },
        }
    }

    /// Apply one observation of whether this record's worker has finished its
    /// execution context: on a finished observation of an outstanding handle,
    /// finalize the record and hand the handle out; on any other observation,
    /// change nothing.
    ///
    /// Finalizing sets the end timestamp, jumps progress to 100, and marks the
    /// record `Finished` — unless it is already `Canceled`: the cancellation
    /// report usually arrives first, and an explicit cancellation must never
    /// be overwritten by a derived completion.
    pub fn resolve_finished(&mut self, finished: bool) -> (r: Option<
        tokio::task::JoinHandle<Option<i128>>,
    >)
        requires
            old(self).wf(),
        ensures
            final(self).wf(),
            finished && old(self).handle is Some ==> finalizes(*old(self), *final(self)) && r
                == old(self).handle,
            !(finished && old(self).handle is Some) ==> r is None && *final(self) == *old(self),
    {
        if finished && self.handle.is_some() {
            if !matches!(self.status, TaskStatus::Canceled) {
                self.status = TaskStatus::Finished;
            }
            self.end = Some(ext::now_millis());
            self.progress = 100;
            self.handle.take()
        } else {
            None
        }
    }

    /// Check whether this record's worker has finished its execution context;
    /// if so, finalize the record (see `resolve_finished`) and hand the
    /// result handle to the caller. Whether the worker has finished is
    /// another execution context's doing, so only the response to each
    /// observation is fixed — by `resolve_finished`'s contract.
    pub fn check_done(&mut self) -> (r: Option<tokio::task::JoinHandle<Option<i128>>>)
        requires
            old(self).wf(),
        ensures
            final(self).wf(),
            old(self).handle is None ==> r is None,
            r is None ==> *final(self) == *old(self),
            r is Some ==> finalizes(*old(self), *final(self)) && r == old(self).handle,
    {
        let finished = match &self.handle {
            Some(h) => ext::handle_finished(h),
            None => false,
        };
        self.resolve_finished(finished)
    }
}

/// The record state machine: the status a record moves to when one report is
/// applied. Terminal records admit no further transition, and a progress
/// report out of the 0..=100 range is malformed and discarded whole.
pub open spec fn spec_apply(t: Task, msg: TaskTxMsg) -> Task {
    if is_terminal(t.status) {
        t
    } else {
        match msg {
            TaskTxMsg::RunReport { id, progress } => if progress <= 100 {
                Task { status: TaskStatus::Running, progress, ..t }
            } else {
                t
            },
            TaskTxMsg::SleepReport(_) => Task { status: TaskStatus::Sleeping, ..t },
            TaskTxMsg::LaborDispute(_) => Task { status: TaskStatus::OnStrike, ..t },
            TaskTxMsg::Reconciliation(_) => Task { status: TaskStatus::Running, ..t },
            TaskTxMsg::CancelReport(_) => Task { status: TaskStatus::Canceled, ..t },
        }
    }
}

/// The terminal status a record is finalized to: an explicit cancellation is
/// kept, anything else derives completion.
pub open spec fn spec_finalize_status(s: TaskStatus) -> TaskStatus {
    if s is Canceled {
        TaskStatus::Canceled
    } else {
        TaskStatus::Finished
    }
}

/// How a finalized record relates to its pre-finalization state: identity and
/// the sticky cancellation flag are kept, progress jumps to 100, the end
/// timestamp is set, the result handle is consumed, and the status is the
/// finalization of the old one.
pub open spec fn finalizes(pre: Task, post: Task) -> bool {
    &&& post.id == pre.id
    &&& post.name == pre.name
    &&& post.description == pre.description
    &&& post.start == pre.start
    &&& post.pending_cancel == pre.pending_cancel
    &&& post.status == spec_finalize_status(pre.status)
    &&& post.progress == 100
    &&& post.end is Some
    &&& post.handle is None
}

/// What a pass of status reports can do to one record: only the status and
/// the progress move, everything else is kept; a terminal record is kept
/// whole, so a report never resurrects it; and no report yields `Finished` —
/// completion is only ever derived at finalization.
pub open spec fn report_evolution(pre: Task, post: Task) -> bool {
    &&& post.id == pre.id
    &&& post.name == pre.name
    &&& post.description == pre.description
    &&& post.start == pre.start
    &&& post.end == pre.end
    &&& post.handle == pre.handle
    &&& post.pending_cancel == pre.pending_cancel
    &&& (is_terminal(pre.status) ==> post == pre)
    &&& (post.status is Finished ==> pre.status is Finished)
}

/// What one supervisor tick can do to one record: a report evolution to some
/// intermediate state — the drained reports — which is then either kept or
/// finalized, and nothing else.
pub open spec fn tick_evolution(pre: Task, post: Task) -> bool {
    exists|m: Task| #[trigger] report_evolution(pre, m) && (post == m || finalizes(m, post))
}

/// Applying one report is a report evolution: it touches only status and
/// progress, and leaves a terminal record whole.
pub proof fn lemma_apply_is_report_evolution(t: Task, msg: TaskTxMsg)
    ensures
        report_evolution(t, spec_apply(t, msg)),
{
}

/// Report evolutions compose: a whole drained batch of reports is still one
/// report evolution.
pub proof fn lemma_report_evolution_trans(a: Task, b: Task, c: Task)
    requires
        report_evolution(a, b),
        report_evolution(b, c),
    ensures
        report_evolution(a, c),
{
}

/// A record's progress never decreases under reports that carry at least its
/// current progress. Reports from one worker arrive in send order and carry
/// non-decreasing percentages, so a live record's progress is non-decreasing.
pub proof fn lemma_progress_monotone_under_reports(t: Task, msg: TaskTxMsg)
    requires
        msg matches TaskTxMsg::RunReport { id, progress } ==> progress >= t.progress,
    ensures
        spec_apply(t, msg).progress >= t.progress,
{
}

/// A terminal record admits no further transition: every report leaves it
/// exactly as it is. In particular a record observed `Canceled` is never
/// moved to `Finished` by a report, nor the reverse.
pub proof fn lemma_terminal_absorbs(t: Task, msg: TaskTxMsg)
    requires
        is_terminal(t.status),
    ensures
        spec_apply(t, msg) == t,
{
}

/// Explicit cancellation has priority over derived completion: finalizing
/// keeps a `Canceled` record `Canceled`, a record not yet cancelled becomes
/// `Finished`, and the finalized record is never both — the two terminal
/// outcomes are mutually exclusive.
pub proof fn lemma_cancel_priority(pre: Task, post: Task)
    requires
        finalizes(pre, post),
    ensures
        pre.status is Canceled ==> post.status is Canceled,
        !(pre.status is Canceled) ==> post.status is Finished,
        !(post.status is Canceled && post.status is Finished),
{
}

} // verus!
