//! Record state machine behaviour, driven through the public record API.

use clustrctrl::messages::{CandidateTask, TaskStatus, TaskTxMsg};
use clustrctrl::record::Task;

fn fresh_record(id: usize) -> Task {
    let ct = CandidateTask { name: "Onson Sweemey", description: "Repaint fence" };
    Task::new(&ct, id, None)
}

#[test]
fn new_record_is_unknown_with_zero_progress() {
    let t = fresh_record(0);
    assert!(matches!(t.status, TaskStatus::KnownUnknown));
    assert_eq!(t.progress, 0);
    assert!(t.end.is_none());
    assert!(!t.pending_cancel);
    assert_eq!(t.name, "Onson Sweemey");
    assert_eq!(t.description, "Repaint fence");
}

#[test]
fn run_report_moves_to_running_and_updates_progress() {
    let mut t = fresh_record(0);
    t.apply_msg(TaskTxMsg::RunReport { id: 0, progress: 42 });
    assert!(matches!(t.status, TaskStatus::Running));
    assert_eq!(t.progress, 42);
}

#[test]
fn run_and_sleep_reports_oscillate() {
    let mut t = fresh_record(0);
    t.apply_msg(TaskTxMsg::RunReport { id: 0, progress: 10 });
    assert!(matches!(t.status, TaskStatus::Running));
    t.apply_msg(TaskTxMsg::SleepReport(0));
    assert!(matches!(t.status, TaskStatus::Sleeping));
    assert_eq!(t.progress, 10);
    t.apply_msg(TaskTxMsg::RunReport { id: 0, progress: 30 });
    assert!(matches!(t.status, TaskStatus::Running));
    assert_eq!(t.progress, 30);
}

#[test]
fn labor_dispute_strikes_and_reconciliation_recovers() {
    let mut t = fresh_record(0);
    t.apply_msg(TaskTxMsg::LaborDispute(0));
    assert!(matches!(t.status, TaskStatus::OnStrike));
    t.apply_msg(TaskTxMsg::Reconciliation(0));
    assert!(matches!(t.status, TaskStatus::Running));
}

#[test]
fn cancel_report_is_terminal() {
    let mut t = fresh_record(0);
    t.apply_msg(TaskTxMsg::CancelReport(0));
    assert!(matches!(t.status, TaskStatus::Canceled));
    t.apply_msg(TaskTxMsg::RunReport { id: 0, progress: 99 });
    assert!(matches!(t.status, TaskStatus::Canceled));
    assert_eq!(t.progress, 0);
    t.apply_msg(TaskTxMsg::Reconciliation(0));
    assert!(matches!(t.status, TaskStatus::Canceled));
}

#[test]
fn out_of_range_progress_report_is_discarded() {
    let mut t = fresh_record(0);
    t.apply_msg(TaskTxMsg::RunReport { id: 0, progress: 150 });
    assert!(matches!(t.status, TaskStatus::KnownUnknown));
    assert_eq!(t.progress, 0);
}

#[test]
fn unfinished_observation_changes_nothing() {
    let mut t = fresh_record(0);
    t.apply_msg(TaskTxMsg::RunReport { id: 0, progress: 50 });
    let r = t.resolve_finished(false);
    assert!(r.is_none());
    assert!(matches!(t.status, TaskStatus::Running));
    assert_eq!(t.progress, 50);
    assert!(t.end.is_none());
}

#[test]
fn finished_observation_without_a_handle_changes_nothing() {
    let mut t = fresh_record(0);
    let r = t.resolve_finished(true);
    assert!(r.is_none());
    assert!(matches!(t.status, TaskStatus::KnownUnknown));
    assert!(t.end.is_none());
}

#[test]
fn check_done_without_handle_is_a_no_op() {
    let mut t = fresh_record(0);
    t.apply_msg(TaskTxMsg::RunReport { id: 0, progress: 50 });
    let r = t.check_done();
    assert!(r.is_none());
    assert!(matches!(t.status, TaskStatus::Running));
    assert_eq!(t.progress, 50);
    assert!(t.end.is_none());
}

#[test]
fn status_labels() {
    assert_eq!(TaskStatus::Running.label(), "Running");
    assert_eq!(TaskStatus::Sleeping.label(), "Sleeping");
    assert_eq!(TaskStatus::OnStrike.label(), "Strike!");
    assert_eq!(TaskStatus::KnownUnknown.label(), "???");
    assert_eq!(TaskStatus::Finished.label(), "Done");
    assert_eq!(TaskStatus::Canceled.label(), "Cancelled");
}

#[test]
fn terminal_statuses() {
    assert!(TaskStatus::Finished.terminal());
    assert!(TaskStatus::Canceled.terminal());
    assert!(!TaskStatus::Running.terminal());
    assert!(!TaskStatus::Sleeping.terminal());
    assert!(!TaskStatus::OnStrike.terminal());
    assert!(!TaskStatus::KnownUnknown.terminal());
}
