//! Boundary crossings: staging a copy of this program and its configuration
//! in a target root, and continuing a task inside it through a chroot.
use crate::command::{command, described};
use crate::config::Config;
use crate::error::InstallError;
use crate::plan::{ActionView, EventView, Plan, Step, StepView};
use crate::runner::{
    action_of, enter, fail_with, finish_result, lemma_action_after_success, lemma_cleanup_always_runs, record_spec,
    settle, settled, RunView,
};
use crate::tasks::{registered, task_name, Registry, Task};
use vstd::prelude::*;
use vstd::string::*;

verus! {

/// What runs after a crossing: a task or a whole stage.
#[derive(Clone, Debug, PartialEq, Eq)]
pub enum Selector {
    Task(String),
    Stage(String),
}

/// A continuation past a crossing: this program and its configuration staged
/// in the directory `staging` of the target root `root`, to be run there for
/// the selected task or stage.
#[derive(Clone, Debug)]
pub struct Continuation {
    pub root: String,
    pub staging: String,
    pub selector: Selector,
}

pub struct ContinuationView {
    pub root: Seq<char>,
    pub staging: Seq<char>,
    /// Whether a single task (rather than a stage) is selected.
    pub task: bool,
    pub name: Seq<char>,
}

impl View for Continuation {
    type V = ContinuationView;

    open spec fn view(&self) -> ContinuationView {
        ContinuationView {
            root: self.root@,
            staging: self.staging@,
            task: self.selector is Task,
            name: match self.selector {
                Selector::Task(n) => n@,
                Selector::Stage(n) => n@,
            },
        }
    }
}

/// The staging directory as seen from outside the target root.
pub open spec fn host_dir(c: ContinuationView) -> Seq<char> {
    c.root + c.staging
}

/// The staged executable, as seen from inside the target root.
pub open spec fn staged_binary(c: ContinuationView) -> Seq<char> {
    c.staging + "/archinstaller"@
}

/// The staged configuration, as seen from inside the target root.
pub open spec fn staged_config(c: ContinuationView) -> Seq<char> {
    c.staging + "/config.yaml"@
}

pub open spec fn selector_word(c: ContinuationView) -> Seq<char> {
    if c.task {
        "task"@
    } else {
        "stage"@
    }
}

/// The arguments the staged executable is run with.
pub open spec fn relaunch_args(c: ContinuationView) -> Seq<Seq<char>> {
    seq![selector_word(c), c.name, "--config"@, staged_config(c)]
}

/// The command line that runs the staged executable, as a script holds it.
pub open spec fn relaunch_line(c: ContinuationView) -> Seq<char> {
    staged_binary(c) + " "@ + selector_word(c) + " "@ + c.name + " --config "@ + staged_config(c)
}

impl Continuation {
    /// The staging directory as seen from outside the target root.
    pub fn host_dir(&self) -> (r: String)
        ensures
            r@ == host_dir(self@),
    {
        self.root.clone().concat(self.staging.as_str())
    }

    fn selector_word(&self) -> (r: &'static str)
        ensures
            r@ == selector_word(self@),
    {
        match self.selector {
            Selector::Task(_) => "task",
            Selector::Stage(_) => "stage",
        }
    }

    fn name(&self) -> (r: &String)
        ensures
            r@ == self@.name,
    {
        match &self.selector {
            Selector::Task(n) => n,
            Selector::Stage(n) => n,
        }
    }

    /// The command line that runs the staged executable on the staged configuration.
    pub fn relaunch_line(&self) -> (r: String)
        ensures
            r@ == relaunch_line(self@),
    {
        self.staging.clone()
            .concat("/archinstaller")
            .concat(" ")
            .concat(self.selector_word())
            .concat(" ")
            .concat(self.name().as_str())
            .concat(" --config ")
            .concat(self.staging.as_str())
            .concat("/config.yaml")
    }
}

/// The continuation of a chroot crossing into `/mnt` for the task `task`.
pub open spec fn chroot_continuation(task: Seq<char>) -> ContinuationView {
    ContinuationView { root: "/mnt"@, staging: "/_chroot_install"@, task: true, name: task }
}

/// The steps that put a copy of the configuration at `config_path` and of the
/// running executable into the directory `dir`.
pub open spec fn staging_plan(config_path: Seq<char>, dir: Seq<char>) -> Seq<StepView> {
    seq![
        StepView::CreateDir(dir),
        StepView::CopyFile { from: config_path, to: dir + "/config.yaml"@ },
        StepView::CopySelf(dir + "/archinstaller"@),
    ]
}

/// Stage the configuration at `config_path` and the running executable in `dir`.
pub fn stage_self(config_path: &str, dir: &str) -> (r: Plan)
    ensures
        r@ == staging_plan(config_path@, dir@),
{
    let mut p = Plan::new();
    p.add(Step::CreateDir(String::from_str(dir)));
    p.add(Step::CopyFile {
        from: String::from_str(config_path),
        to: String::from_str(dir).concat("/config.yaml"),
    });
    p.add(Step::CopySelf(String::from_str(dir).concat("/archinstaller")));
    assert(p@ =~= staging_plan(config_path@, dir@));
    p
}

/// A chroot crossing along `c`: stage the copies, run the staged executable
/// through `arch-chroot` on the staged configuration, then remove the staging
/// directory whatever happened after it was created.
///
/// A decline inside the nested run ends only that run: the nested program
/// exits with status zero, so the crossing succeeds and the outer stage goes on.
pub open spec fn chroot_plan(config_path: Seq<char>, c: ContinuationView) -> Seq<StepView> {
    staging_plan(config_path, host_dir(c)) + seq![
        StepView::Exec(
            described(
                "arch-chroot"@,
                seq![c.root, staged_binary(c)] + relaunch_args(c),
                "chrooting for task "@ + c.name,
            ),
        ),
        StepView::Cleanup { path: host_dir(c), scope: 3 },
    ]
}

/// The chroot crossing for `task`, which is registered by construction.
pub fn chroot_crossing(config: &Config, task: Task) -> (r: Plan)
    ensures
        r@ == chroot_plan(config.path@, chroot_continuation(task_name(task))),
{
    let name = task.name();
    chroot_steps(config.path.as_str(), name.as_str())
}

fn chroot_steps(config_path: &str, task: &str) -> (r: Plan)
    ensures
        r@ == chroot_plan(config_path@, chroot_continuation(task@)),
{
    let c = Continuation {
        root: String::from_str("/mnt"),
        staging: String::from_str("/_chroot_install"),
        selector: Selector::Task(String::from_str(task)),
    };
    let dir = c.host_dir();
    let mut p = stage_self(config_path, dir.as_str());
    let binary = c.staging.clone().concat("/archinstaller");
    let config = c.staging.clone().concat("/config.yaml");
    let label = String::from_str("chrooting for task ").concat(task);
    let args = vec![c.root.as_str(), binary.as_str(), "task", task, "--config", config.as_str()];
    let cmd = command("arch-chroot", args).desc(label.as_str()).run();
    assert(cmd@.args =~= seq![c@.root, staged_binary(c@)] + relaunch_args(c@));
    p.add(Step::Exec(cmd));
    p.add(Step::Cleanup { path: dir, scope: 3 });
    assert(p@ =~= chroot_plan(config_path@, chroot_continuation(task@)));
    p
}

/// The chroot crossing for the task named `task`; `InvalidTask` when no task
/// has that name, so that nothing is staged for it.
pub fn with_chroot(reg: &Registry, config: &Config, task: &str) -> (r: Result<Plan, InstallError>)
    requires
        reg.wf(),
    ensures
        match r {
            Ok(p) => {
                &&& registered(reg@, task@)
                &&& p@ == chroot_plan(config.path@, chroot_continuation(task@))
            },
            Err(e) => {
                &&& !registered(reg@, task@)
                &&& e matches InstallError::InvalidTask(s) && s@ == task@
            },
        },
{
    match reg.lookup(task) {
        Ok(_) => {
            let ghost t = choose|t: Task| reg@.contains(t) && task_name(t) == task@;
            proof {
                let i = choose|i: int| 0 <= i < reg@.len() && reg@[i] == t;
                assert(task_name(reg@[i]) == task@);
            }
            Ok(chroot_steps(config.path.as_str(), task))
        },
        Err(e) => Err(e),
    }
}

/// A chroot crossing copies the configuration and the executable into the
/// staging directory, which is where the nested run looks for them, and starts
/// that run only after both copies succeeded. Once the staging directory was
/// created, whatever any later step reports, the run cannot end without asking
/// for its removal, and a successful removal leaves the outcome of the earlier
/// steps as the outcome. When the directory could not be created, nothing is
/// removed.
pub proof fn lemma_chroot_crossing(config_path: Seq<char>, task: Seq<char>, s: RunView, ev: EventView)
    requires
        settled(chroot_plan(config_path, chroot_continuation(task)), s),
    ensures
        ({
            let c = chroot_continuation(task);
            let plan = chroot_plan(config_path, c);
            &&& plan.len() == 5
            &&& plan[1] == StepView::CopyFile { from: config_path, to: c.root + staged_config(c) }
            &&& plan[2] == StepView::CopySelf(c.root + staged_binary(c))
            &&& plan[3] matches StepView::Exec(cmd)
                && cmd.args == seq!["/mnt"@, staged_binary(c)] + relaunch_args(c)
            &&& plan[4] == StepView::Cleanup { path: host_dir(c), scope: 3 }
            &&& (s.index == 3 ==> s.failure is None)
            &&& (1 <= s.index < 4 ==> record_spec(plan, s, ev).index <= 4)
            &&& (s.index == 0 && ev is Failed ==> record_spec(plan, s, ev).index == 5)
            &&& (s.index == 4 ==> action_of(plan, s) == ActionView::RemoveDir(host_dir(c)))
            &&& (s.index == 4 && ev == EventView::Done ==> {
                let t = record_spec(plan, s, ev);
                t.index == 5 && t.failure == s.failure && action_of(plan, t) == ActionView::Finish(
                    finish_result(s),
                )
            })
        }),
{
    let c = chroot_continuation(task);
    let plan = chroot_plan(config_path, c);
    assert(c.root + staged_config(c) =~= host_dir(c) + "/config.yaml"@);
    assert(c.root + staged_binary(c) =~= host_dir(c) + "/archinstaller"@);
    assert(plan[4] == StepView::Cleanup { path: host_dir(c), scope: 3 });
    if s.index == 3 {
        lemma_action_after_success(plan, s);
    }
    if 1 <= s.index < 4 {
        lemma_cleanup_always_runs(plan, s, ev, 4);
    }
    if s.index == 0 && ev is Failed {
        let e = ev->Failed_0;
        let f = fail_with(s, e);
        let s1 = enter(plan, f, 1);
        let s2 = enter(plan, s1, 2);
        let s3 = enter(plan, s2, 3);
        let s4 = enter(plan, s3, 4);
        let s5 = enter(plan, s4, 5);
        assert(settle(plan, s5) == s5);
        assert(settle(plan, s4) == s5);
        assert(settle(plan, s3) == s5);
        assert(settle(plan, s2) == s5);
        assert(settle(plan, s1) == s5);
        assert(record_spec(plan, s, ev).index == 5);
    }
    assert(plan[1] == StepView::CopyFile { from: config_path, to: c.root + staged_config(c) });
    assert(plan[2] == StepView::CopySelf(c.root + staged_binary(c)));
    assert(s.index == 3 ==> s.failure is None);
    if s.index == 4 && ev == EventView::Done {
        let nx = enter(plan, s, 5);
        assert(settle(plan, nx) == nx);
    }
}

} // verus!
