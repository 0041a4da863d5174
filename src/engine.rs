//! The stage execution engine: a stage's tasks run one at a time, in order,
//! and the first task that does not succeed ends the stage.
use crate::config::{stage_of, Stages};
use crate::error::InstallError;
use crate::runner::copy_error;
use crate::tasks::Task;
use vstd::prelude::*;

verus! {

/// Where a stage's run stands.
#[derive(Clone, Debug)]
pub enum StageStatus {
    /// The task at the current position is to run next.
    Running,
    /// Every task succeeded.
    Completed,
    /// A task's confirmation was declined: the stage stopped, successfully.
    Declined,
    /// A task failed with this error: the stage stopped, unsuccessfully.
    Failed(InstallError),
}

pub struct StageView {
    pub position: nat,
    pub status: StageStatus,
}

/// The state before any task ran.
pub open spec fn stage_start(n: nat) -> StageView {
    StageView { position: 0, status: if n == 0 { StageStatus::Completed } else { StageStatus::Running } }
}

/// The state after the running task reported `outcome`.
pub open spec fn stage_next(n: nat, s: StageView, outcome: Result<(), InstallError>) -> StageView {
    match outcome {
        Ok(_) => StageView {
            position: s.position + 1,
            status: if s.position + 1 >= n { StageStatus::Completed } else { StageStatus::Running },
        },
        Err(InstallError::Decline) => StageView { status: StageStatus::Declined, ..s },
        Err(e) => StageView { status: StageStatus::Failed(e), ..s },
    }
}

/// The state after the tasks reported `outcomes`, one after the other.
pub open spec fn stage_after(n: nat, outcomes: Seq<Result<(), InstallError>>) -> StageView
    decreases outcomes.len(),
{
    if outcomes.len() == 0 {
        stage_start(n)
    } else {
        stage_next(n, stage_after(n, outcomes.drop_last()), outcomes.last())
    }
}

/// The process exit status a stage's state maps to.
pub open spec fn exit_code_of(status: StageStatus) -> i32 {
    match status {
        StageStatus::Failed(_) => 1,
        _ => 0,
    }
}

/// What the stage asks for next.
#[derive(Clone, Copy, Debug, PartialEq, Eq, Structural)]
pub enum StageAction {
    RunTask(Task),
    Finish(i32),
}

pub open spec fn stage_action(tasks: Seq<Task>, s: StageView) -> StageAction {
    if s.status is Running {
        StageAction::RunTask(tasks[s.position as int])
    } else {
        StageAction::Finish(exit_code_of(s.status))
    }
}

/// A run of a stage's tasks: one at a time, in order, stopping at the first
/// task that does not succeed.
pub struct StageRun {
    tasks: Vec<Task>,
    position: usize,
    status: StageStatus,
}

impl View for StageRun {
    type V = StageView;

    closed spec fn view(&self) -> StageView {
        StageView { position: self.position as nat, status: self.status }
    }
}

impl StageRun {
    pub closed spec fn tasks(&self) -> Seq<Task> {
        self.tasks@
    }

    pub closed spec fn wf(&self) -> bool {
        &&& self.position <= self.tasks@.len()
        &&& self.status is Running ==> self.position < self.tasks@.len()
    }

    /// Start running `tasks`.
    pub fn new(tasks: Vec<Task>) -> (r: StageRun)
        ensures
            r.wf(),
            r.tasks() == tasks@,
            r@ == stage_start(tasks@.len()),
    {
        let status = if tasks.len() == 0 {
            StageStatus::Completed
        } else {
            StageStatus::Running
        };
        StageRun { tasks, position: 0, status }
    }

    /// The task to run next, or the exit status once the stage is over.
    pub fn next_action(&self) -> (r: StageAction)
        requires
            self.wf(),
        ensures
            r == stage_action(self.tasks(), self@),
    {
        match &self.status {
            StageStatus::Running => StageAction::RunTask(self.tasks[self.position]),
            StageStatus::Failed(_) => StageAction::Finish(1),
            _ => StageAction::Finish(0),
        }
    }

    /// Take in the outcome of the task that was running.
    pub fn record(&mut self, outcome: Result<(), InstallError>)
        requires
            old(self).wf(),
            old(self)@.status is Running,
        ensures
            final(self).wf(),
            final(self).tasks() == old(self).tasks(),
            final(self)@ == stage_next(old(self).tasks().len(), old(self)@, outcome),
    {
        match outcome {
            Ok(_) => {
                assert(self.position < self.tasks.len());
                self.position = self.position + 1;
                self.status = if self.position >= self.tasks.len() {
                    StageStatus::Completed
                } else {
                    StageStatus::Running
                };
            },
            Err(InstallError::Decline) => {
                self.status = StageStatus::Declined;
            },
            Err(e) => {
                self.status = StageStatus::Failed(e);
            },
        }
    }

    /// Whether the stage is over.
    pub fn is_finished(&self) -> (r: bool)
        ensures
            r == !(self@.status is Running),
    {
        match &self.status {
            StageStatus::Running => false,
            _ => true,
        }
    }

    /// The process exit status: nonzero only when a task failed.
    pub fn exit_code(&self) -> (r: i32)
        ensures
            r == exit_code_of(self@.status),
    {
        match &self.status {
            StageStatus::Failed(_) => 1,
            _ => 0,
        }
    }

    /// The error that stopped the stage, if one did.
    pub fn error(&self) -> (r: Option<InstallError>)
        ensures
            match self@.status {
                StageStatus::Failed(e) => r == Some(e),
                _ => r.is_none(),
            },
    {
        match &self.status {
            StageStatus::Failed(e) => Some(copy_error(e)),
            _ => None,
        }
    }
}

/// The tasks of stage `name`, or `InvalidStage` naming it.
pub fn stage_tasks(stages: &Stages, name: &str) -> (r: Result<Vec<Task>, InstallError>)
    requires
        stages.wf(),
    ensures
        match r {
            Ok(t) => stage_of(stages@, name@) == Some(t@),
            Err(e) => {
                &&& stage_of(stages@, name@).is_none()
                &&& e matches InstallError::InvalidStage(s) && s@ == name@
            },
        },
{
    match stages.get(name) {
        Some(t) => Ok(t),
        None => Err(InstallError::InvalidStage(String::from_str(name))),
    }
}

/// When every task before position `k` succeeded, the stage was running and
/// asked for task `k` after them.
pub proof fn lemma_successes_run_in_order(n: nat, outcomes: Seq<Result<(), InstallError>>)
    requires
        outcomes.len() < n,
        forall|j: int| 0 <= j < outcomes.len() ==> (#[trigger] outcomes[j]) is Ok,
    ensures
        stage_after(n, outcomes) == (StageView {
            position: outcomes.len(),
            status: StageStatus::Running,
        }),
    decreases outcomes.len(),
{
    if outcomes.len() > 0 {
        let pre = outcomes.drop_last();
        assert forall|j: int| 0 <= j < pre.len() implies (#[trigger] pre[j]) is Ok by {
            assert(pre[j] == outcomes[j]);
        }
        lemma_successes_run_in_order(n, pre);
        assert(outcomes.last() == outcomes[outcomes.len() - 1]);
    }
}

/// A task that declines after every earlier task succeeded ends the stage
/// there: no later task runs and the exit status is zero.
pub proof fn lemma_decline_stops_stage(tasks: Seq<Task>, outcomes: Seq<Result<(), InstallError>>)
    requires
        outcomes.len() <= tasks.len(),
        outcomes.len() > 0,
        forall|j: int| 0 <= j < outcomes.len() - 1 ==> (#[trigger] outcomes[j]) is Ok,
        outcomes.last() == Err::<(), InstallError>(InstallError::Decline),
    ensures
        forall|j: int|
            0 <= j < outcomes.len() ==> stage_action(
                tasks,
                #[trigger] stage_after(tasks.len(), outcomes.subrange(0, j)),
            ) == StageAction::RunTask(tasks[j]),
        stage_after(tasks.len(), outcomes).status is Declined,
        stage_action(tasks, stage_after(tasks.len(), outcomes)) == StageAction::Finish(0),
{
    lemma_prefix_runs(tasks, outcomes);
    let pre = outcomes.drop_last();
    lemma_successes_run_in_order(tasks.len(), pre);
}

/// A task that fails (other than by declining) after every earlier task
/// succeeded ends the stage there: no later task runs, its error is the one
/// reported, and the exit status is nonzero.
pub proof fn lemma_failure_halts_stage(
    tasks: Seq<Task>,
    outcomes: Seq<Result<(), InstallError>>,
    e: InstallError,
)
    requires
        outcomes.len() <= tasks.len(),
        outcomes.len() > 0,
        forall|j: int| 0 <= j < outcomes.len() - 1 ==> (#[trigger] outcomes[j]) is Ok,
        outcomes.last() == Err::<(), InstallError>(e),
        e != InstallError::Decline,
    ensures
        forall|j: int|
            0 <= j < outcomes.len() ==> stage_action(
                tasks,
                #[trigger] stage_after(tasks.len(), outcomes.subrange(0, j)),
            ) == StageAction::RunTask(tasks[j]),
        stage_after(tasks.len(), outcomes).status == StageStatus::Failed(e),
        stage_action(tasks, stage_after(tasks.len(), outcomes)) == StageAction::Finish(1),
{
    lemma_prefix_runs(tasks, outcomes);
    let pre = outcomes.drop_last();
    lemma_successes_run_in_order(tasks.len(), pre);
}

proof fn lemma_prefix_runs(tasks: Seq<Task>, outcomes: Seq<Result<(), InstallError>>)
    requires
        outcomes.len() <= tasks.len(),
        forall|j: int| 0 <= j < outcomes.len() - 1 ==> (#[trigger] outcomes[j]) is Ok,
    ensures
        forall|j: int|
            0 <= j < outcomes.len() ==> stage_action(
                tasks,
                #[trigger] stage_after(tasks.len(), outcomes.subrange(0, j)),
            ) == StageAction::RunTask(tasks[j]),
{
    assert forall|j: int| 0 <= j < outcomes.len() implies stage_action(
        tasks,
        #[trigger] stage_after(tasks.len(), outcomes.subrange(0, j)),
    ) == StageAction::RunTask(tasks[j]) by {
        let pre = outcomes.subrange(0, j);
        assert forall|k: int| 0 <= k < pre.len() implies (#[trigger] pre[k]) is Ok by {
            assert(pre[k] == outcomes[k]);
        }
        lemma_successes_run_in_order(tasks.len(), pre);
    }
}

} // verus!
