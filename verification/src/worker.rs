//! The work unit: an independently executing job that performs synthetic
//! long-running work while staying responsive to cancellation.
//!
//! A `Worker` is a step machine. Each `step` performs one loop iteration of
//! the job — poll for a stop directive, report progress, burn a round of
//! synthetic computation, draw a sleep sub-interval, poll again, report the
//! coming sleep — and then hands control back to the caller with a
//! `WorkerAction`: either sleep for the drawn sub-interval and step again, or
//! the job is done. The caller performs the actual blocking; the decisions
//! are all made here.

use vstd::arithmetic::div_mod::{
    lemma_div_is_ordered, lemma_div_multiples_vanish, lemma_div_pos_is_pos,
};
use vstd::math::abs;
use vstd::prelude::*;

use crate::ext;
use crate::messages::{ControlPoll, Id, TaskRxMsg, TaskTxMsg};

verus! {

/// How many random draws one round of synthetic computation folds together.
/// The workload is a stand-in for real work; only the wall-clock time it
/// consumes matters.
pub const WORK_ROUNDS: usize = 111333777;

/// How many pending control-channel entries one poll inspects at most, so
/// that a poll is bounded even while directives keep arriving. The channel
/// buffers far fewer directives than this, so a bounded poll still sees
/// everything that was pending when it started.
pub const POLL_FUEL: u64 = 64;

/// The smallest total duration a worker draws, in time units.
pub const MIN_DURATION: u64 = 2;

/// All drawn durations are strictly below this bound, in time units.
pub const MAX_DURATION: u64 = 60;

/// A task's progress percentage once `elapsed` of `total` time units have
/// been worked off: `floor(elapsed * 100 / total)`.
pub open spec fn spec_progress(elapsed: int, total: int) -> int {
    elapsed * 100 / total
}

/// What one round of synthetic computation adds to the running sum for one
/// drawn value: the absolute value of the draw's remainder modulo 500.
pub open spec fn spec_work_increment(num: int) -> int {
    (abs(num) as int) % 500
}

/// The largest sum one round of `rounds` draws of synthetic computation can
/// add.
pub open spec fn work_round_bound(rounds: int) -> int {
    500 * rounds
}

/// One step of the synthetic workload: fold the next drawn value into the
/// accumulated sum. Only the time this consumes matters to the job; the sum
/// is reported at completion for show.
pub fn work_step(acc: i128, num: i32) -> (r: i128)
    requires
        0 <= acc,
        acc + 500 <= i128::MAX,
    ensures
        r == acc + spec_work_increment(num as int),
        acc <= r < acc + 500,
{
    let wide: i128 = num as i128;
    let mag: i128 = if wide < 0 {
        -wide
    } else {
        wide
    };
    acc + mag % 500
}

/// The progress percentage reported after `elapsed` of `total` time units:
/// `floor(elapsed / total * 100)`, always in 0..=100.
pub fn progress_of(elapsed: u64, total: u64) -> (r: u8)
    requires
        0 < total,
        elapsed <= total,
        total <= 0xffff_ffff,
    ensures
        r == spec_progress(elapsed as int, total as int),
        r <= 100,
{
    proof {
        lemma_div_pos_is_pos(elapsed as int * 100, total as int);
        lemma_div_is_ordered(elapsed as int * 100, total as int * 100, total as int);
        lemma_div_multiples_vanish(100, total as int);
    }
    let q: u64 = elapsed * 100 / total;
    q as u8
}

/// One round of synthetic computation: fold `rounds` random draws into the
/// accumulated sum, each adding a value in 0..=499. Only the wall-clock time
/// this consumes matters to the job; the draws are random, so only the bounds
/// that hold of every outcome are stated.
pub fn burn_work(sum: i128, rounds: usize) -> (r: i128)
    requires
        0 <= sum,
        sum + 500 * rounds <= i128::MAX,
    ensures
        sum <= r <= sum + 500 * rounds,
{
    let mut acc = sum;
    let mut i: usize = 0;
    while i < rounds
        invariant
            i <= rounds,
            0 <= sum <= acc <= sum + 500 * i,
            sum + 500 * rounds <= i128::MAX,
        decreases rounds - i,
    {
        acc = work_step(acc, ext::random_i32());
        i = i + 1;
    }
    acc
}

/// What a worker decides about one control-channel poll outcome.
#[derive(Clone, Copy, Debug, PartialEq, Eq, Structural)]
pub enum TermCheck {
    /// A stop directive applies to this worker; `report` says whether a
    /// cancellation report is owed (only for a directive addressed to it).
    Stop { report: bool },
    /// The entry did not settle the question; poll the channel again.
    KeepChecking,
    /// No directive is pending; keep working.
    Clear,
}

/// The decision a worker with id `my` takes on one poll outcome.
///
/// An addressed stop and a global stop are obeyed with a cancellation report;
/// a closed channel (the supervisor is gone, so there is nothing to report
/// to) is obeyed silently; a directive addressed to another worker and a lag
/// marker only mean the next entry must be inspected; an empty channel clears
/// the worker to continue.
pub open spec fn spec_term_check(my: Id, poll: ControlPoll) -> TermCheck {
    match poll {
        ControlPoll::Msg(TaskRxMsg::PleaseStop(addr)) => if addr == my {
            TermCheck::Stop { report: true }
        } else {
            TermCheck::KeepChecking
        },
        ControlPoll::Msg(TaskRxMsg::EveryoneStopPls) => TermCheck::Stop { report: true },
        ControlPoll::Closed => TermCheck::Stop { report: false },
        ControlPoll::Lagged(n) => TermCheck::KeepChecking,
        ControlPoll::Empty => TermCheck::Clear,
    }
}

/// Decide what one control-channel poll outcome means for worker `my`.
pub fn term_check(my: Id, poll: ControlPoll) -> (r: TermCheck)
    ensures
        r == spec_term_check(my, poll),
{
    match poll {
        ControlPoll::Msg(TaskRxMsg::PleaseStop(addr)) => if addr == my {
            TermCheck::Stop { report: true }
        } else {
            TermCheck::KeepChecking
        },
        ControlPoll::Msg(TaskRxMsg::EveryoneStopPls) => TermCheck::Stop { report: true },
        ControlPoll::Closed => TermCheck::Stop { report: false },
        ControlPoll::Lagged(n) => TermCheck::KeepChecking,
        ControlPoll::Empty => TermCheck::Clear,
    }
}

/// What the caller driving a worker must do after one step.
#[derive(Debug)]
pub enum WorkerAction {
    /// Block for this many time units, then step again.
    Sleep(u64),
    /// The job is over: `Some(sum)` after natural completion, `None` after a
    /// stop directive was observed.
    Done(Option<i128>),
}

/// An independently executing unit of simulated work. It consumes a control
/// channel receiver (its own subscription) and a status channel sender.
pub struct Worker {
    /// The id of the task record this worker reports as.
    pub id: Id,
    /// The total duration drawn at start, in time units.
    pub total: u64,
    /// How many time units of work are still ahead.
    pub remaining: u64,
    /// The accumulated sum of the synthetic computation.
    pub sum: i128,
    /// How many draws one round of synthetic computation folds together. The
    /// workload is a stand-in: only the time it consumes matters, so a driver
    /// may scale it down without changing the contract.
    pub rounds: usize,
    /// The sending half of the status channel, cloned from the supervisor's.
    pub status_tx: tokio::sync::mpsc::Sender<TaskTxMsg>,
    /// This worker's own subscription to the control channel.
    pub control_rx: tokio::sync::broadcast::Receiver<TaskRxMsg>,
}

impl Worker {
    /// Well-formedness: the duration is in range, the work left never exceeds
    /// the total, the workload is at most the standard one, and the sum is
    /// bounded by the rounds burnt so far.
    pub open spec fn wf(self) -> bool {
        &&& 0 < self.total < MAX_DURATION
        &&& self.remaining <= self.total
        &&& self.rounds <= WORK_ROUNDS
        &&& 0 <= self.sum <= (self.total - self.remaining) * work_round_bound(self.rounds as int)
    }

    /// The progress percentage this worker would report right now.
    pub open spec fn emitted_progress(self) -> int {
        spec_progress(self.total - self.remaining, self.total as int)
    }

    /// Build a worker over a given total duration and workload size, with all
    /// its work ahead.
    pub fn with_workload(
        id: Id,
        status_tx: tokio::sync::mpsc::Sender<TaskTxMsg>,
        control_rx: tokio::sync::broadcast::Receiver<TaskRxMsg>,
        total: u64,
        rounds: usize,
    ) -> (w: Worker)
        requires
            0 < total < MAX_DURATION,
            rounds <= WORK_ROUNDS,
        ensures
            w.wf(),
            w.id == id,
            w.total == total,
            w.remaining == total,
            w.sum == 0,
            w.rounds == rounds,
    {
        Worker { id, total, remaining: total, sum: 0, rounds, status_tx, control_rx }
    }

    /// Build a worker over a given total duration, with the standard
    /// workload and all its work ahead.
    pub fn with_total(
        id: Id,
        status_tx: tokio::sync::mpsc::Sender<TaskTxMsg>,
        control_rx: tokio::sync::broadcast::Receiver<TaskRxMsg>,
        total: u64,
    ) -> (w: Worker)
        requires
            0 < total < MAX_DURATION,
        ensures
            w.wf(),
            w.id == id,
            w.total == total,
            w.remaining == total,
            w.sum == 0,
            w.rounds == WORK_ROUNDS,
    {
        Worker::with_workload(id, status_tx, control_rx, total, WORK_ROUNDS)
    }

    /// Build a worker with a total duration drawn from the fixed random
    /// range.
    pub fn new(
        id: Id,
        status_tx: tokio::sync::mpsc::Sender<TaskTxMsg>,
        control_rx: tokio::sync::broadcast::Receiver<TaskRxMsg>,
    ) -> (w: Worker)
        ensures
            w.wf(),
            w.id == id,
            MIN_DURATION <= w.total < MAX_DURATION,
            w.remaining == w.total,
            w.sum == 0,
            w.rounds == WORK_ROUNDS,
    {
        let total = ext::random_in_range(MIN_DURATION, MAX_DURATION);
        Worker::with_total(id, status_tx, control_rx, total)
    }

    /// Drain the control channel non-blockingly, up to `fuel` entries, and
    /// say whether a stop directive for this worker was seen. A stop —
    /// addressed to this worker or broadcast to everyone — is acknowledged
    /// with a cancellation report before returning; a failed report (the
    /// supervisor is gone) is ignored, the worker stops regardless.
    pub fn check_for_stop(&mut self, fuel: u64) -> (stopped: bool)
        ensures
            final(self).id == old(self).id,
            final(self).total == old(self).total,
            final(self).remaining == old(self).remaining,
            final(self).sum == old(self).sum,
            final(self).rounds == old(self).rounds,
    {
        let mut i: u64 = 0;
        while i < fuel
            invariant
                self.id == old(self).id,
                self.total == old(self).total,
                self.remaining == old(self).remaining,
                self.sum == old(self).sum,
                self.rounds == old(self).rounds,
            decreases fuel - i,
        {
            let poll = ext::poll_control(&mut self.control_rx);
            match term_check(self.id, poll) {
                TermCheck::Stop { report } => {
                    if report {
                        let _ = ext::send_status(
                            &self.status_tx,
                            TaskTxMsg::CancelReport(self.id),
                        );
                    }
                    return true;
                },
                TermCheck::Clear => {
                    return false;
                },
                TermCheck::KeepChecking => {},
            }
            i = i + 1;
        }
        false
    }

    /// One iteration of the job's loop.
    ///
    /// With no work left, the job completes and returns its sum. Otherwise it
    /// polls for a stop directive (terminating with no sum if one applies),
    /// reports its progress, burns one round of synthetic computation, draws
    /// a sleep sub-interval no larger than the work left, subtracts it, polls
    /// again, reports the coming sleep, and asks the caller to block for the
    /// drawn sub-interval. Failed reports are ignored: the worker runs its
    /// own loop to completion or cancellation regardless.
    pub fn step(&mut self) -> (a: WorkerAction)
        requires
            old(self).wf(),
        ensures
            final(self).wf(),
            final(self).id == old(self).id,
            final(self).total == old(self).total,
            final(self).rounds == old(self).rounds,
            final(self).remaining <= old(self).remaining,
            old(self).remaining == 0 ==> a == WorkerAction::Done(Some(old(self).sum))
                && final(self).remaining == old(self).remaining
                && final(self).sum == old(self).sum,
            a matches WorkerAction::Sleep(d) ==> 1 <= d <= old(self).remaining
                && final(self).remaining == old(self).remaining - d
                && final(self).sum >= old(self).sum,
            old(self).remaining > 0 ==> (a matches WorkerAction::Done(r) ==> r is None),
    {
        if self.remaining == 0 {
            return WorkerAction::Done(Some(self.sum));
        }
        if self.check_for_stop(POLL_FUEL) {
            return WorkerAction::Done(None);
        }
        let progress = progress_of(self.total - self.remaining, self.total);
        let _ = ext::send_status(
            &self.status_tx,
            TaskTxMsg::RunReport { id: self.id, progress },
        );
        proof {
            assert(self.sum + 500 * (self.rounds as int) <= (self.total - self.remaining + 1)
                * work_round_bound(self.rounds as int)) by (nonlinear_arith)
                requires
                    self.sum <= (self.total - self.remaining) * work_round_bound(
                        self.rounds as int,
                    ),
                    work_round_bound(self.rounds as int) == 500 * (self.rounds as int),
            ;
            assert((self.total - self.remaining + 1) * work_round_bound(self.rounds as int) <= 60
                * work_round_bound(WORK_ROUNDS as int)) by (nonlinear_arith)
                requires
                    self.total - self.remaining + 1 <= 60,
                    0 <= self.rounds <= WORK_ROUNDS,
            ;
        }
        self.sum = burn_work(self.sum, self.rounds);
        let ghost mid = *self;
        let sub_interval = ext::random_in_range(1, self.remaining + 1);
        self.remaining = self.remaining - sub_interval;
        proof {
            assert(mid.sum <= (self.total - self.remaining) * work_round_bound(
                self.rounds as int,
            )) by (nonlinear_arith)
                requires
                    mid.sum <= (mid.total - mid.remaining + 1) * work_round_bound(
                        mid.rounds as int,
                    ),
                    self.total == mid.total,
                    self.rounds == mid.rounds,
                    self.remaining <= mid.remaining - 1,
                    work_round_bound(mid.rounds as int) >= 0,
            ;
        }
        if self.check_for_stop(POLL_FUEL) {
            return WorkerAction::Done(None);
        }
        let _ = ext::send_status(&self.status_tx, TaskTxMsg::SleepReport(self.id));
        WorkerAction::Sleep(sub_interval)
    }
}

/// Progress is monotone in elapsed time: working off more of the total never
/// lowers the reported percentage.
pub proof fn lemma_progress_monotone(e1: int, e2: int, total: int)
    requires
        0 < total,
        0 <= e1 <= e2,
    ensures
        spec_progress(e1, total) <= spec_progress(e2, total),
{
    lemma_div_is_ordered(e1 * 100, e2 * 100, total);
}

/// The reported percentage always lies in 0..=100, and is exactly 100 once
/// the whole total has been worked off.
pub proof fn lemma_progress_bounds(elapsed: int, total: int)
    requires
        0 < total,
        0 <= elapsed <= total,
    ensures
        0 <= spec_progress(elapsed, total) <= 100,
        elapsed == total ==> spec_progress(elapsed, total) == 100,
{
    lemma_div_pos_is_pos(elapsed * 100, total);
    lemma_div_is_ordered(elapsed * 100, total * 100, total);
    lemma_div_multiples_vanish(100, total);
}

/// The progress a worker reports never decreases over its run: later states
/// of the same job (same total, less work remaining) report at least as much.
pub proof fn lemma_worker_progress_monotone(w1: Worker, w2: Worker)
    requires
        w1.wf(),
        w2.wf(),
        w2.total == w1.total,
        w2.remaining <= w1.remaining,
    ensures
        w1.emitted_progress() <= w2.emitted_progress(),
{
    lemma_progress_monotone(
        w1.total - w1.remaining,
        w2.total - w2.remaining,
        w1.total as int,
    );
}

} // verus!
