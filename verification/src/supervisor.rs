//! The supervisor: owner of the task record collection, the status channel
//! receiver, and the control channel sender.
//!
//! Each tick it drains pending status reports non-blockingly, applies them to
//! the matching records by id, and finalizes every record whose worker has
//! finished. Task creation allocates a fresh monotonic id; cancellation —
//! individual or global — publishes a control directive and returns without
//! waiting for workers to acknowledge. Records are never deleted: they stay
//! in the collection for the rest of the session.

use vstd::prelude::*;

use crate::ext;
use crate::messages::{is_terminal, CandidateTask, Id, TaskRxMsg, TaskTxMsg};
use crate::record::{finalizes, report_evolution, spec_apply, tick_evolution, Task};

verus! {

/// Capacity of the bounded status channel. A full queue blocks the sending
/// worker, so each tick drains up to this many reports.
pub const STATUS_CHANNEL_CAPACITY: usize = 100;

/// Capacity of the broadcast control channel; a worker that polls too rarely
/// relative to this buffer may lag and skip directives.
pub const CONTROL_CHANNEL_CAPACITY: usize = 16;

/// The task supervisor. The record collection is exclusively owned and
/// mutated here; workers communicate only through the two channels.
pub struct Supervisor {
    /// All records ever created this session, in creation order; a record's
    /// id equals its position.
    pub tasks: Vec<Task>,
    /// How many tasks have been created; the next task's id.
    pub tasks_created: Id,
    /// The receiving half of the status channel.
    pub status_rx: tokio::sync::mpsc::Receiver<TaskTxMsg>,
    /// The sending half of the status channel, kept to clone for workers.
    pub status_tx: tokio::sync::mpsc::Sender<TaskTxMsg>,
    /// The sending half of the control channel.
    pub control_tx: tokio::sync::broadcast::Sender<TaskRxMsg>,
}

impl Supervisor {
    /// Well-formedness: ids are exactly the positions in the collection, the
    /// creation counter sits one past the last id, and every record is
    /// well-formed. Ids are thus strictly increasing and never reused.
    pub open spec fn wf(self) -> bool {
        &&& self.tasks_created == self.tasks@.len()
        &&& forall|i: int|
            0 <= i < self.tasks@.len() ==> (#[trigger] self.tasks@[i]).id == i
                && self.tasks@[i].wf()
    }

    /// Build a supervisor with no records and fresh channels.
    pub fn new() -> (s: Supervisor)
        ensures
            s.wf(),
            s.tasks@.len() == 0,
            s.tasks_created == 0,
    {
        let (status_tx, status_rx) = ext::status_channel(STATUS_CHANNEL_CAPACITY);
        let control_tx = ext::control_channel(CONTROL_CHANNEL_CAPACITY);
        Supervisor { tasks: Vec::new(), tasks_created: 0, status_rx, status_tx, control_tx }
    }

    /// The id the next created task will get.
    pub fn next_task_id(&self) -> (id: Id)
        ensures
            id == self.tasks_created,
    {
        self.tasks_created
    }

    /// The endpoints a new worker needs: a clone of the status sender and a
    /// fresh control subscription, which sees only directives sent after this
    /// call.
    pub fn worker_channels(&self) -> (tokio::sync::mpsc::Sender<TaskTxMsg>, tokio::sync::broadcast::Receiver<TaskRxMsg>) {
        (ext::clone_status_sender(&self.status_tx), ext::subscribe_control(&self.control_tx))
    }

    /// Insert the record for a just-spawned task: it gets the next monotonic
    /// id, initial status, zero progress, and holds the task's result handle.
    /// Existing records are untouched. Returns the id.
    pub fn create_task(
        &mut self,
        ct: &CandidateTask,
        handle: Option<tokio::task::JoinHandle<Option<i128>>>,
    ) -> (id: Id)
        requires
            old(self).wf(),
            old(self).tasks@.len() < usize::MAX,
        ensures
            final(self).wf(),
            id == old(self).tasks_created,
            final(self).tasks_created == old(self).tasks_created + 1,
            final(self).tasks@.len() == old(self).tasks@.len() + 1,
            forall|i: int|
                0 <= i < old(self).tasks@.len() ==> final(self).tasks@[i] == old(self).tasks@[i],
            final(self).tasks@[id as int].id == id,
            final(self).tasks@[id as int].name == ct.name,
            final(self).tasks@[id as int].description == ct.description,
            final(self).tasks@[id as int].status is KnownUnknown,
            final(self).tasks@[id as int].progress == 0,
            final(self).tasks@[id as int].end is None,
            final(self).tasks@[id as int].handle == handle,
            !final(self).tasks@[id as int].pending_cancel,
    {
        let id = self.tasks_created;
        let t = Task::new(ct, id, handle);
        self.tasks.push(t);
        self.tasks_created = self.tasks_created + 1;
        id
    }

    /// Apply one status report to the record it targets, following the state
    /// machine. A report whose id matches no record is discarded whole — a
    /// stale or stray message must never fail the supervisor.
    pub fn apply_status(&mut self, msg: TaskTxMsg)
        requires
            old(self).wf(),
        ensures
            final(self).wf(),
            final(self).tasks_created == old(self).tasks_created,
            msg.spec_target() < old(self).tasks@.len() ==> final(self).tasks@ == old(
                self,
            ).tasks@.update(
                msg.spec_target() as int,
                spec_apply(old(self).tasks@[msg.spec_target() as int], msg),
            ),
            msg.spec_target() >= old(self).tasks@.len() ==> final(self).tasks@ == old(
                self,
            ).tasks@,
    {
        let tid = msg.target();
        if tid < self.tasks.len() {
            let t = &mut self.tasks[tid];
            t.apply_msg(msg);
        }
    }

    /// Drain the status channel non-blockingly and apply every report, up to
    /// `fuel` of them, so one tick is bounded even while reports keep
    /// arriving. Records only move as the state machine allows: identity,
    /// timestamps, handles and the cancellation flag are kept, and terminal
    /// records are kept whole.
    pub fn drain(&mut self, fuel: usize)
        requires
            old(self).wf(),
        ensures
            final(self).wf(),
            final(self).tasks_created == old(self).tasks_created,
            final(self).tasks@.len() == old(self).tasks@.len(),
            forall|i: int|
                0 <= i < old(self).tasks@.len() ==> report_evolution(
                    old(self).tasks@[i],
                    #[trigger] final(self).tasks@[i],
                ),
    {
        let mut i: usize = 0;
        let mut more = true;
        while more && i < fuel
            invariant
                self.wf(),
                self.tasks_created == old(self).tasks_created,
                self.tasks@.len() == old(self).tasks@.len(),
                forall|j: int|
                    0 <= j < old(self).tasks@.len() ==> report_evolution(
                        old(self).tasks@[j],
                        #[trigger] self.tasks@[j],
                    ),
            decreases fuel - i,
        {
            let ghost pre = self.tasks@;
            match ext::try_recv_status(&mut self.status_rx) {
                Some(msg) => {
                    self.apply_status(msg);
                    proof {
                        let tid = msg.spec_target() as int;
                        if 0 <= tid < pre.len() {
                            crate::record::lemma_apply_is_report_evolution(pre[tid], msg);
                            crate::record::lemma_report_evolution_trans(
                                old(self).tasks@[tid],
                                pre[tid],
                                self.tasks@[tid],
                            );
                        }
                    }
                },
                None => {
                    more = false;
                },
            }
            i = i + 1;
        }
    }

    /// Check every record holding an outstanding result handle for a finished
    /// worker, finalize those found finished, and return the handles taken,
    /// for the caller to collect results from. Every record either stays
    /// exactly as it is or is finalized — in particular a `Canceled` record
    /// stays `Canceled`.
    pub fn reconcile(&mut self) -> (handles: Vec<tokio::task::JoinHandle<Option<i128>>>)
        requires
            old(self).wf(),
        ensures
            final(self).wf(),
            final(self).tasks_created == old(self).tasks_created,
            final(self).tasks@.len() == old(self).tasks@.len(),
            forall|i: int|
                0 <= i < old(self).tasks@.len() ==> (#[trigger] final(self).tasks@[i]) == old(
                    self,
                ).tasks@[i] || finalizes(old(self).tasks@[i], final(self).tasks@[i]),
            forall|i: int|
                0 <= i < old(self).tasks@.len() && old(self).tasks@[i].handle is None ==> (
                #[trigger] final(self).tasks@[i]) == old(self).tasks@[i],
    {
        let mut handles: Vec<tokio::task::JoinHandle<Option<i128>>> = Vec::new();
        let mut i: usize = 0;
        while i < self.tasks.len()
            invariant
                self.wf(),
                i <= self.tasks@.len(),
                self.tasks_created == old(self).tasks_created,
                self.tasks@.len() == old(self).tasks@.len(),
                forall|j: int|
                    i <= j < old(self).tasks@.len() ==> (#[trigger] self.tasks@[j]) == old(
                        self,
                    ).tasks@[j],
                forall|j: int|
                    0 <= j < i ==> (#[trigger] self.tasks@[j]) == old(self).tasks@[j]
                        || finalizes(old(self).tasks@[j], self.tasks@[j]),
                forall|j: int|
                    0 <= j < i && old(self).tasks@[j].handle is None ==> (
                    #[trigger] self.tasks@[j]) == old(self).tasks@[j],
            decreases self.tasks@.len() - i,
        {
            let t = &mut self.tasks[i];
            match t.check_done() {
                Some(h) => handles.push(h),
                None => {},
            }
            i = i + 1;
        }
        handles
    }

    /// One reconciliation pass: drain pending status reports (up to `fuel`),
    /// then finalize every record whose worker has finished, returning the
    /// result handles taken. All channel reads are non-blocking: the tick
    /// never waits on a worker.
    ///
    /// Per record, the pass factors exactly into the two phases: a report
    /// evolution to some intermediate state, which is then either kept or
    /// finalized. In particular identity is kept, the cancellation flag is
    /// kept, a terminal status is kept, and a record already finalized — its
    /// end timestamp set — does not change at all.
    pub fn tick(&mut self, fuel: usize) -> (handles: Vec<tokio::task::JoinHandle<Option<i128>>>)
        requires
            old(self).wf(),
        ensures
            final(self).wf(),
            final(self).tasks_created == old(self).tasks_created,
            final(self).tasks@.len() == old(self).tasks@.len(),
            forall|i: int|
                0 <= i < old(self).tasks@.len() ==> tick_evolution(
                    old(self).tasks@[i],
                    #[trigger] final(self).tasks@[i],
                ),
            forall|i: int|
                0 <= i < old(self).tasks@.len() ==> (#[trigger] final(self).tasks@[i]).id == old(
                    self,
                ).tasks@[i].id && final(self).tasks@[i].name == old(self).tasks@[i].name
                    && final(self).tasks@[i].description == old(self).tasks@[i].description
                    && final(self).tasks@[i].start == old(self).tasks@[i].start,
            forall|i: int|
                0 <= i < old(self).tasks@.len() ==> (#[trigger] final(self).tasks@[i]).pending_cancel
                    == old(self).tasks@[i].pending_cancel,
            forall|i: int|
                0 <= i < old(self).tasks@.len() && is_terminal(old(self).tasks@[i].status)
                    ==> (#[trigger] final(self).tasks@[i]).status == old(self).tasks@[i].status,
            forall|i: int|
                0 <= i < old(self).tasks@.len() && old(self).tasks@[i].end is Some ==> (
                #[trigger] final(self).tasks@[i]) == old(self).tasks@[i],
    {
        self.drain(fuel);
        let ghost mid = self.tasks@;
        let handles = self.reconcile();
        proof {
            assert forall|i: int| 0 <= i < old(self).tasks@.len() implies tick_evolution(
                old(self).tasks@[i],
                #[trigger] self.tasks@[i],
            ) by {
                assert(report_evolution(old(self).tasks@[i], mid[i]));
                assert(self.tasks@[i] == mid[i] || finalizes(mid[i], self.tasks@[i]));
            }
        }
        handles
    }

    /// Request cancellation of the task with this id: if such a record exists
    /// and is not already terminal, mark its cancellation pending — the
    /// transient "cancelling" indicator, until the terminal report arrives —
    /// and publish an addressed stop directive, returning whether the
    /// publication found a subscriber. For a nonexistent id, and for a record
    /// already terminal, this is a no-op with no error: cancelling twice has
    /// no further effect.
    pub fn cancel_task(&mut self, id: Id) -> (requested: bool)
        requires
            old(self).wf(),
        ensures
            final(self).wf(),
            final(self).tasks_created == old(self).tasks_created,
            final(self).tasks@.len() == old(self).tasks@.len(),
            id >= old(self).tasks@.len() ==> final(self).tasks@ == old(self).tasks@
                && !requested,
            id < old(self).tasks@.len() && is_terminal(old(self).tasks@[id as int].status)
                ==> final(self).tasks@ == old(self).tasks@ && !requested,
            id < old(self).tasks@.len() && !is_terminal(old(self).tasks@[id as int].status)
                ==> final(self).tasks@ == old(self).tasks@.update(
                id as int,
                Task { pending_cancel: true, ..old(self).tasks@[id as int] },
            ),
    {
        if id >= self.tasks.len() {
            return false;
        }
        let terminal = self.tasks[id].status.terminal();
        if terminal {
            return false;
        }
        let t = &mut self.tasks[id];
        t.pending_cancel = true;
        proof {
            assert(self.tasks@ =~= old(self).tasks@.update(
                id as int,
                Task { pending_cancel: true, ..old(self).tasks@[id as int] },
            ));
        }
        ext::publish_control(&self.control_tx, TaskRxMsg::PleaseStop(id))
    }

    /// Global shutdown: publish one broadcast stop directive and return
    /// immediately, without waiting for workers to acknowledge. No record is
    /// touched; workers observe the directive at their own pace.
    pub fn cancel_all(&self) -> (requested: bool) {
        ext::publish_control(&self.control_tx, TaskRxMsg::EveryoneStopPls)
    }
}

/// Task ids are strictly increasing across the record collection, in creation
/// order.
pub proof fn lemma_ids_strictly_increasing(s: Supervisor)
    requires
        s.wf(),
    ensures
        forall|i: int, j: int|
            0 <= i < j < s.tasks@.len() ==> s.tasks@[i].id < s.tasks@[j].id,
{
}

/// Every existing id lies strictly below the creation counter, so the id the
/// next task gets is fresh: ids are never reused, even after a record has
/// terminated — records are never deleted.
pub proof fn lemma_next_id_fresh(s: Supervisor)
    requires
        s.wf(),
    ensures
        forall|i: int| 0 <= i < s.tasks@.len() ==> (#[trigger] s.tasks@[i]).id < s.tasks_created,
{
}

} // verus!
