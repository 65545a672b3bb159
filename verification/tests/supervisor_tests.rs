//! Supervisor behaviour: id allocation, report dispatch, cancellation entry
//! points, and their boundary cases.

use clustrctrl::messages::{CandidateTask, TaskStatus, TaskTxMsg};
use clustrctrl::supervisor::Supervisor;

fn candidate() -> CandidateTask {
    CandidateTask { name: "Sleve McDichael", description: "Re-attach turbo encabulator" }
}

#[test]
fn ids_are_strictly_increasing_and_counted() {
    let mut sup = Supervisor::new();
    assert_eq!(sup.next_task_id(), 0);
    let ct = candidate();
    let a = sup.create_task(&ct, None);
    let b = sup.create_task(&ct, None);
    let c = sup.create_task(&ct, None);
    assert_eq!(a, 0);
    assert_eq!(b, 1);
    assert_eq!(c, 2);
    assert!(a < b && b < c);
    assert_eq!(sup.tasks_created, 3);
    assert_eq!(sup.tasks.len(), 3);
    for (i, t) in sup.tasks.iter().enumerate() {
        assert_eq!(t.id, i);
    }
    assert_eq!(sup.next_task_id(), 3);
}

#[test]
fn reports_are_dispatched_by_id() {
    let mut sup = Supervisor::new();
    let ct = candidate();
    sup.create_task(&ct, None);
    sup.create_task(&ct, None);
    sup.apply_status(TaskTxMsg::RunReport { id: 1, progress: 33 });
    assert!(matches!(sup.tasks[0].status, TaskStatus::KnownUnknown));
    assert!(matches!(sup.tasks[1].status, TaskStatus::Running));
    assert_eq!(sup.tasks[1].progress, 33);
}

#[test]
fn report_for_unknown_id_is_discarded() {
    let mut sup = Supervisor::new();
    let ct = candidate();
    sup.create_task(&ct, None);
    sup.apply_status(TaskTxMsg::RunReport { id: 7, progress: 50 });
    assert!(matches!(sup.tasks[0].status, TaskStatus::KnownUnknown));
    assert_eq!(sup.tasks[0].progress, 0);
}

#[test]
fn cancel_of_nonexistent_id_is_a_no_op() {
    let mut sup = Supervisor::new();
    let requested = sup.cancel_task(42);
    assert!(!requested);
    assert_eq!(sup.tasks.len(), 0);
    let ct = candidate();
    sup.create_task(&ct, None);
    let requested = sup.cancel_task(5);
    assert!(!requested);
    assert!(!sup.tasks[0].pending_cancel);
}

#[test]
fn cancel_publishes_and_marks_pending_while_a_worker_listens() {
    let mut sup = Supervisor::new();
    // Hold a subscription so the broadcast has a receiver, as a live worker
    // would.
    let (_tx, _rx) = sup.worker_channels();
    let ct = candidate();
    let id = sup.create_task(&ct, None);
    let requested = sup.cancel_task(id);
    assert!(requested);
    assert!(sup.tasks[id].pending_cancel);
    assert!(matches!(sup.tasks[id].status, TaskStatus::KnownUnknown));
}

#[test]
fn cancel_marks_pending_even_without_subscribers() {
    let mut sup = Supervisor::new();
    let ct = candidate();
    let id = sup.create_task(&ct, None);
    // No worker subscription exists, so the publication goes nowhere — but
    // the live record's "cancelling" indicator is set regardless.
    let requested = sup.cancel_task(id);
    assert!(!requested);
    assert!(sup.tasks[id].pending_cancel);
    assert!(matches!(sup.tasks[id].status, TaskStatus::KnownUnknown));
}

#[test]
fn cancel_after_terminal_has_no_observable_effect() {
    let mut sup = Supervisor::new();
    let (_tx, _rx) = sup.worker_channels();
    let ct = candidate();
    let id = sup.create_task(&ct, None);
    sup.apply_status(TaskTxMsg::CancelReport(id));
    assert!(matches!(sup.tasks[id].status, TaskStatus::Canceled));
    let before_pending = sup.tasks[id].pending_cancel;
    let before_progress = sup.tasks[id].progress;
    let before_end = sup.tasks[id].end;
    let requested = sup.cancel_task(id);
    assert!(!requested);
    assert!(matches!(sup.tasks[id].status, TaskStatus::Canceled));
    assert_eq!(sup.tasks[id].pending_cancel, before_pending);
    assert_eq!(sup.tasks[id].progress, before_progress);
    assert_eq!(sup.tasks[id].end, before_end);
    // A second time, still nothing.
    let requested = sup.cancel_task(id);
    assert!(!requested);
    assert!(matches!(sup.tasks[id].status, TaskStatus::Canceled));
}

#[test]
fn cancel_all_touches_no_record() {
    let mut sup = Supervisor::new();
    let (_tx, _rx) = sup.worker_channels();
    let ct = candidate();
    sup.create_task(&ct, None);
    sup.create_task(&ct, None);
    let requested = sup.cancel_all();
    assert!(requested);
    for t in sup.tasks.iter() {
        assert!(matches!(t.status, TaskStatus::KnownUnknown));
        assert!(!t.pending_cancel);
    }
}

#[test]
fn cancel_all_without_receivers_reports_failure() {
    let sup = Supervisor::new();
    let requested = sup.cancel_all();
    assert!(!requested);
}

#[test]
fn tick_without_handles_applies_queued_reports() {
    let mut sup = Supervisor::new();
    let (tx, _rx) = sup.worker_channels();
    let ct = candidate();
    let id = sup.create_task(&ct, None);
    tx.blocking_send(TaskTxMsg::RunReport { id, progress: 20 }).unwrap();
    tx.blocking_send(TaskTxMsg::SleepReport(id)).unwrap();
    let handles = sup.tick(100);
    assert!(handles.is_empty());
    assert!(matches!(sup.tasks[id].status, TaskStatus::Sleeping));
    assert_eq!(sup.tasks[id].progress, 20);
}
