//! Plans (the steps a task performs), the actions a run asks the surrounding
//! program to carry out, and the events it reports back.
use crate::command::{Invocation, InvocationView};
use crate::env::{vars_view, VarsView};
use crate::error::InstallError;
use vstd::prelude::*;

verus! {

/// One element of a task's plan.
#[derive(Clone, Debug)]
pub enum Step {
    /// Log a progress note.
    Note(String),
    /// Ask the operator; a negative answer is `Decline`.
    Confirm(String),
    /// Run one command.
    Exec(Invocation),
    /// Capture `probe`'s text, then run `found` if it contains `needle`, else `otherwise`.
    Branch { probe: Invocation, needle: String, found: Invocation, otherwise: Invocation },
    /// Poll: note, capture `probe`'s text, and stop once it contains `needle`;
    /// sleep between attempts; fail once `attempts` probes did not match.
    Await { probe: Invocation, needle: String, note: String, attempts: u32, delay_secs: u64 },
    /// Replace the file at `path` with `content`.
    WriteFile { path: String, content: String },
    /// Append a line break and `line` to the file at `path`.
    AppendFile { path: String, line: String },
    /// Set an environment variable for every later command.
    SetEnv { key: String, value: String },
    /// Add a directory at the end of the command search path.
    AppendPath(String),
    /// Create a directory and its parents.
    CreateDir(String),
    /// Copy the file at `from` (the configuration of this run) to `to`.
    CopyFile { from: String, to: String },
    /// Copy the running executable to a path.
    CopySelf(String),
    /// Remove a file.
    RemoveFile(String),
    /// Remove a directory tree. After a failure in one of the `scope` steps
    /// just before it, it still runs; after an earlier failure it is skipped.
    Cleanup { path: String, scope: usize },
    /// Fail with this error.
    Fail(InstallError),
}

pub enum StepView {
    Note(Seq<char>),
    Confirm(Seq<char>),
    Exec(InvocationView),
    Branch { probe: InvocationView, needle: Seq<char>, found: InvocationView, otherwise: InvocationView },
    Await { probe: InvocationView, needle: Seq<char>, note: Seq<char>, attempts: nat, delay_secs: nat },
    WriteFile { path: Seq<char>, content: Seq<char> },
    AppendFile { path: Seq<char>, line: Seq<char> },
    SetEnv { key: Seq<char>, value: Seq<char> },
    AppendPath(Seq<char>),
    CreateDir(Seq<char>),
    CopyFile { from: Seq<char>, to: Seq<char> },
    CopySelf(Seq<char>),
    RemoveFile(Seq<char>),
    Cleanup { path: Seq<char>, scope: nat },
    Fail(InstallError),
}

impl View for Step {
    type V = StepView;

    open spec fn view(&self) -> StepView {
        match self {
            Step::Note(s) => StepView::Note(s@),
            Step::Confirm(s) => StepView::Confirm(s@),
            Step::Exec(c) => StepView::Exec(c@),
            Step::Branch { probe, needle, found, otherwise } => StepView::Branch {
                probe: probe@,
                needle: needle@,
                found: found@,
                otherwise: otherwise@,
            },
            Step::Await { probe, needle, note, attempts, delay_secs } => StepView::Await {
                probe: probe@,
                needle: needle@,
                note: note@,
                attempts: *attempts as nat,
                delay_secs: *delay_secs as nat,
            },
            Step::WriteFile { path, content } => StepView::WriteFile { path: path@, content: content@ },
            Step::AppendFile { path, line } => StepView::AppendFile { path: path@, line: line@ },
            Step::SetEnv { key, value } => StepView::SetEnv { key: key@, value: value@ },
            Step::AppendPath(d) => StepView::AppendPath(d@),
            Step::CreateDir(p) => StepView::CreateDir(p@),
            Step::CopyFile { from, to } => StepView::CopyFile { from: from@, to: to@ },
            Step::CopySelf(p) => StepView::CopySelf(p@),
            Step::RemoveFile(p) => StepView::RemoveFile(p@),
            Step::Cleanup { path, scope } => StepView::Cleanup { path: path@, scope: *scope as nat },
            Step::Fail(e) => StepView::Fail(*e),
        }
    }
}

/// The views of a sequence of steps.
pub open spec fn steps_view(v: Seq<Step>) -> Seq<StepView> {
    v.map_values(|s: Step| s@)
}

/// A task's plan: the steps it performs, in order.
#[derive(Clone, Debug)]
pub struct Plan {
    pub steps: Vec<Step>,
}

impl View for Plan {
    type V = Seq<StepView>;

    open spec fn view(&self) -> Seq<StepView> {
        steps_view(self.steps@)
    }
}

impl Plan {
    /// A plan with no steps.
    pub fn new() -> (r: Plan)
        ensures
            r@ == Seq::<StepView>::empty(),
    {
        let r = Plan { steps: Vec::new() };
        assert(r@ =~= Seq::<StepView>::empty());
        r
    }

    /// Append one step.
    pub fn add(&mut self, s: Step)
        ensures
            final(self)@ == old(self)@.push(s@),
    {
        self.steps.push(s);
        assert(self@ =~= old(self)@.push(s@));
    }

    /// Append every step of `other`, in order.
    pub fn extend(&mut self, other: Plan)
        ensures
            final(self)@ == old(self)@ + other@,
    {
        let mut rest = other.steps;
        let mut tail: Vec<Step> = Vec::new();
        let ghost all = steps_view(rest@);
        // move the steps over in order by reversing twice
        while rest.len() > 0
            invariant
                steps_view(rest@) + steps_view(tail@).reverse() == all,
            decreases rest@.len(),
        {
            let s = rest.pop().unwrap();
            proof {
                let r0 = steps_view(rest@);
                assert(steps_view(tail@.push(s)).reverse() =~= seq![s@] + steps_view(tail@).reverse());
                assert(r0 + (seq![s@] + steps_view(tail@).reverse()) =~= all);
            }
            tail.push(s);
        }
        assert(steps_view(tail@).reverse() =~= all);
        while tail.len() > 0
            invariant
                self@ + steps_view(tail@).reverse() == old(self)@ + all,
            decreases tail@.len(),
        {
            let s = tail.pop().unwrap();
            let ghost before = self@;
            self.add(s);
            proof {
                assert(steps_view(tail@.push(s)).reverse() =~= seq![s@] + steps_view(tail@).reverse());
                assert(self@ + steps_view(tail@).reverse() =~= before + (seq![s@] + steps_view(tail@).reverse()));
            }
        }
        assert(self@ =~= self@ + steps_view(tail@).reverse());
    }
}

/// What the surrounding program is asked to do next.
#[derive(Debug)]
pub enum Action {
    Note(String),
    Confirm(String),
    /// Spawn the command with exactly this environment.
    Spawn { invocation: Invocation, env: Vec<(String, String)> },
    WriteFile { path: String, content: String, append: bool },
    WriteBytes { path: String, bytes: Vec<u8> },
    CreateDir(String),
    CopyFile { from: String, to: String },
    CopySelf(String),
    RemoveFile(String),
    RemoveDir(String),
    Sleep(u64),
    /// The task is over, with this outcome.
    Finish(Result<(), InstallError>),
}

pub enum ActionView {
    Note(Seq<char>),
    Confirm(Seq<char>),
    Spawn { invocation: InvocationView, env: VarsView },
    WriteFile { path: Seq<char>, content: Seq<char>, append: bool },
    WriteBytes { path: Seq<char>, bytes: Seq<u8> },
    CreateDir(Seq<char>),
    CopyFile { from: Seq<char>, to: Seq<char> },
    CopySelf(Seq<char>),
    RemoveFile(Seq<char>),
    RemoveDir(Seq<char>),
    Sleep(nat),
    Finish(Result<(), InstallError>),
}

impl View for Action {
    type V = ActionView;

    open spec fn view(&self) -> ActionView {
        match self {
            Action::Note(s) => ActionView::Note(s@),
            Action::Confirm(s) => ActionView::Confirm(s@),
            Action::Spawn { invocation, env } => ActionView::Spawn {
                invocation: invocation@,
                env: vars_view(env@),
            },
            Action::WriteFile { path, content, append } => ActionView::WriteFile {
                path: path@,
                content: content@,
                append: *append,
            },
            Action::WriteBytes { path, bytes } => ActionView::WriteBytes { path: path@, bytes: bytes@ },
            Action::CreateDir(p) => ActionView::CreateDir(p@),
            Action::CopyFile { from, to } => ActionView::CopyFile { from: from@, to: to@ },
            Action::CopySelf(p) => ActionView::CopySelf(p@),
            Action::RemoveFile(p) => ActionView::RemoveFile(p@),
            Action::RemoveDir(p) => ActionView::RemoveDir(p@),
            Action::Sleep(n) => ActionView::Sleep(*n as nat),
            Action::Finish(r) => ActionView::Finish(*r),
        }
    }
}

/// What came of the last action.
#[derive(Clone, Debug)]
pub enum Event {
    /// The action was carried out.
    Done,
    /// A streamed command exited with this status.
    Exited(i32),
    /// A capture-to-file command exited with this status and primary output.
    Captured { status: i32, output: Vec<u8> },
    /// A capture-to-text command exited with this status and merged output.
    Printed { status: i32, text: String },
    /// The operator's answer to a confirmation.
    Answer(bool),
    /// The action could not be carried out.
    Failed(InstallError),
}

pub enum EventView {
    Done,
    Exited(i32),
    Captured { status: i32, output: Seq<u8> },
    Printed { status: i32, text: Seq<char> },
    Answer(bool),
    Failed(InstallError),
}

impl View for Event {
    type V = EventView;

    open spec fn view(&self) -> EventView {
        match self {
            Event::Done => EventView::Done,
            Event::Exited(c) => EventView::Exited(*c),
            Event::Captured { status, output } => EventView::Captured { status: *status, output: output@ },
            Event::Printed { status, text } => EventView::Printed { status: *status, text: text@ },
            Event::Answer(b) => EventView::Answer(*b),
            Event::Failed(e) => EventView::Failed(*e),
        }
    }
}

} // verus!
