use archinstaller::engine::{StageAction, StageRun};
use archinstaller::error::InstallError;
use archinstaller::tasks::Task;

fn three() -> Vec<Task> {
    vec![Task::Prepare, Task::DownloadBase, Task::Base]
}

#[test]
fn decline_stops_stage_and_exits_zero() {
    let mut run = StageRun::new(three());
    assert_eq!(run.next_action(), StageAction::RunTask(Task::Prepare));
    run.record(Ok(()));
    assert_eq!(run.next_action(), StageAction::RunTask(Task::DownloadBase));
    run.record(Err(InstallError::Decline));
    assert!(run.is_finished());
    assert_eq!(run.next_action(), StageAction::Finish(0));
    assert_eq!(run.exit_code(), 0);
    assert_eq!(run.error(), None);
}

#[test]
fn failure_halts_stage_and_exits_nonzero() {
    let mut run = StageRun::new(three());
    assert_eq!(run.next_action(), StageAction::RunTask(Task::Prepare));
    run.record(Ok(()));
    assert_eq!(run.next_action(), StageAction::RunTask(Task::DownloadBase));
    run.record(Err(InstallError::CommandFailed(2)));
    assert_eq!(run.next_action(), StageAction::Finish(1));
    assert_eq!(run.exit_code(), 1);
    assert_eq!(run.error(), Some(InstallError::CommandFailed(2)));
}

#[test]
fn all_tasks_succeed_in_order() {
    let mut run = StageRun::new(three());
    let mut seen = Vec::new();
    while let StageAction::RunTask(t) = run.next_action() {
        seen.push(t);
        run.record(Ok(()));
    }
    assert_eq!(seen, three());
    assert_eq!(run.exit_code(), 0);
}

#[test]
fn empty_stage_finishes_at_once() {
    let run = StageRun::new(vec![]);
    assert_eq!(run.next_action(), StageAction::Finish(0));
}
