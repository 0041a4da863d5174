//! A task's run through its plan, as a state machine: `next_action` says what
//! to do, `record` takes in what came of it. Its model is the spec functions
//! `start`, `action_of` and `record_spec`.
use crate::command::{
    done_marker, done_text, exit_outcome, exit_result, occurs_in, start_marker, start_text, strs,
    text_contains, Invocation, InvocationView, ModeView, OutputMode,
};
use crate::env::{env_get, env_set, lemma_set_then_get, EnvTable, VarsView};
use crate::error::InstallError;
use crate::plan::{steps_view, Action, ActionView, Event, EventView, Plan, Step, StepView};
use vstd::prelude::*;
use vstd::string::*;

verus! {

/// Where a task's run stands.
pub struct RunView {
    /// The step being carried out.
    pub index: nat,
    /// The part of that step being carried out.
    pub phase: nat,
    /// Probes already made by a poll.
    pub tries: nat,
    /// Which command a branch picked.
    pub chosen: bool,
    /// Output captured for a file, not yet written.
    pub pending: Seq<u8>,
    /// The first failure, if any.
    pub failure: Option<InstallError>,
    /// The step at which the first failure happened.
    pub failed_at: nat,
    /// The text the last capture-to-text command printed.
    pub output: Seq<char>,
    /// The environment handed to every spawned command.
    pub env: VarsView,
}

pub open spec fn opt_text(o: Option<Seq<char>>) -> Seq<char> {
    match o {
        Some(t) => t,
        None => Seq::empty(),
    }
}

pub open spec fn mode_path(m: ModeView) -> Seq<char> {
    match m {
        ModeView::ToFile(p) => p,
        _ => Seq::empty(),
    }
}

// A command runs in up to four parts: the start note (only when described),
// the spawn, the write of captured output (only in capture-to-file mode) and
// the done note (only when described). Part 4 means the command is over.
pub open spec fn first_cmd_phase(c: InvocationView) -> nat {
    if c.description is Some {
        0
    } else {
        1
    }
}

pub open spec fn next_cmd_phase(c: InvocationView, p: nat) -> nat {
    if p == 0 {
        1
    } else if p == 1 && c.mode is ToFile {
        2
    } else if p <= 2 && c.description is Some {
        3
    } else {
        4
    }
}

pub open spec fn initial_phase(s: StepView) -> nat {
    match s {
        StepView::Exec(c) => first_cmd_phase(c),
        _ => 0,
    }
}

/// Steps that change only the run's own state and need no action.
pub open spec fn is_internal(s: StepView) -> bool {
    s is SetEnv || s is AppendPath || s is Fail
}

/// The search path after `dir` is added at its end.
pub open spec fn path_appended(old: Option<Seq<char>>, dir: Seq<char>) -> Seq<char> {
    opt_text(old) + ":"@ + dir
}

pub open spec fn enter(plan: Seq<StepView>, s: RunView, i: nat) -> RunView {
    RunView {
        index: i,
        phase: if i < plan.len() {
            initial_phase(plan[i as int])
        } else {
            0
        },
        tries: 0,
        chosen: false,
        pending: Seq::empty(),
        ..s
    }
}

/// Record `e` unless an earlier failure is already recorded.
pub open spec fn fail_with(s: RunView, e: InstallError) -> RunView {
    if s.failure is Some {
        s
    } else {
        RunView { failure: Some(e), failed_at: s.index, ..s }
    }
}

/// Whether the current step still runs although a failure is recorded: a
/// cleanup whose scope holds the step that failed.
pub open spec fn kept_after_failure(plan: Seq<StepView>, s: RunView) -> bool {
    plan[s.index as int] matches StepView::Cleanup { scope, .. } && s.index <= s.failed_at + scope
}

pub open spec fn apply_internal(st: StepView, s: RunView) -> RunView {
    match st {
        StepView::SetEnv { key, value } => RunView { env: env_set(s.env, key, value), ..s },
        StepView::AppendPath(d) => RunView {
            env: env_set(s.env, "PATH"@, path_appended(env_get(s.env, "PATH"@), d)),
            ..s
        },
        StepView::Fail(e) => fail_with(s, e),
        _ => s,
    }
}

/// Move past every step that needs no action: internal steps are applied,
/// and once a failure is recorded every step is skipped but a cleanup whose
/// scope holds the failed step.
pub open spec fn settle(plan: Seq<StepView>, s: RunView) -> RunView
    decreases plan.len() - s.index,
{
    if s.index >= plan.len() {
        s
    } else if s.failure is Some && !kept_after_failure(plan, s) {
        settle(plan, enter(plan, s, s.index + 1))
    } else if is_internal(plan[s.index as int]) {
        settle(plan, enter(plan, apply_internal(plan[s.index as int], s), s.index + 1))
    } else {
        s
    }
}

/// A state that `settle` leaves as it is.
pub open spec fn settled(plan: Seq<StepView>, s: RunView) -> bool {
    s.index <= plan.len() && (s.index < plan.len() ==> {
        &&& !(s.failure is Some && !kept_after_failure(plan, s))
        &&& !is_internal(plan[s.index as int])
    })
}

pub open spec fn cmd_action(c: InvocationView, p: nat, s: RunView) -> ActionView {
    if p == 0 {
        ActionView::Note(start_text(opt_text(c.description)))
    } else if p == 1 {
        ActionView::Spawn { invocation: c, env: s.env }
    } else if p == 2 {
        ActionView::WriteBytes { path: mode_path(c.mode), bytes: s.pending }
    } else {
        ActionView::Note(done_text(opt_text(c.description)))
    }
}

pub open spec fn finish_result(s: RunView) -> Result<(), InstallError> {
    match s.failure {
        Some(e) => Err(e),
        None => Ok(()),
    }
}

/// The action a settled run asks for.
pub open spec fn action_of(plan: Seq<StepView>, s: RunView) -> ActionView {
    if s.index >= plan.len() {
        ActionView::Finish(finish_result(s))
    } else {
        match plan[s.index as int] {
            StepView::Note(t) => ActionView::Note(t),
            StepView::Confirm(q) => ActionView::Confirm(q),
            StepView::Exec(c) => cmd_action(c, s.phase, s),
            StepView::Branch { probe, found, otherwise, .. } => if s.phase == 0 {
                ActionView::Spawn { invocation: probe, env: s.env }
            } else {
                cmd_action(if s.chosen { found } else { otherwise }, (s.phase - 1) as nat, s)
            },
            StepView::Await { probe, note, delay_secs, .. } => if s.phase == 0 {
                ActionView::Note(note)
            } else if s.phase == 1 {
                ActionView::Spawn { invocation: probe, env: s.env }
            } else {
                ActionView::Sleep(delay_secs)
            },
            StepView::WriteFile { path, content } => ActionView::WriteFile { path, content, append: false },
            StepView::AppendFile { path, line } => ActionView::WriteFile {
                path,
                content: "\n"@ + line,
                append: true,
            },
            StepView::CreateDir(p) => ActionView::CreateDir(p),
            StepView::CopyFile { from, to } => ActionView::CopyFile { from, to },
            StepView::CopySelf(p) => ActionView::CopySelf(p),
            StepView::RemoveFile(p) => ActionView::RemoveFile(p),
            StepView::Cleanup { path, .. } => ActionView::RemoveDir(path),
            _ => ActionView::Finish(finish_result(s)),
        }
    }
}

/// What an action other than a spawn reports.
pub open spec fn io_result(ev: EventView) -> Result<(), InstallError> {
    match ev {
        EventView::Failed(e) => Err(e),
        _ => Ok(()),
    }
}

/// What a spawn reports: its exit status decides.
pub open spec fn spawn_result(ev: EventView) -> Result<(), InstallError> {
    match ev {
        EventView::Exited(c) => exit_result(c),
        EventView::Captured { status, .. } => exit_result(status),
        EventView::Printed { status, .. } => exit_result(status),
        EventView::Failed(e) => Err(e),
        _ => Ok(()),
    }
}

pub open spec fn captured(ev: EventView) -> Seq<u8> {
    match ev {
        EventView::Captured { output, .. } => output,
        _ => Seq::empty(),
    }
}

pub open spec fn printed(ev: EventView) -> Seq<char> {
    match ev {
        EventView::Printed { text, .. } => text,
        _ => Seq::empty(),
    }
}

pub open spec fn advance(plan: Seq<StepView>, s: RunView) -> RunView {
    settle(plan, enter(plan, s, s.index + 1))
}

pub open spec fn fail_and_advance(plan: Seq<StepView>, s: RunView, e: InstallError) -> RunView {
    advance(plan, fail_with(s, e))
}

/// The run after a spawn of `c` succeeded: captured bytes are kept for the
/// write, and captured text is kept as the last output.
pub open spec fn after_spawn(s: RunView, c: InvocationView, ev: EventView) -> RunView {
    RunView {
        pending: captured(ev),
        output: if c.mode is Capture {
            printed(ev)
        } else {
            s.output
        },
        ..s
    }
}

/// Go on to part `q` of the current command (offset by `offset` in the step's
/// phases), or past the step when the command is over.
pub open spec fn goto_part(plan: Seq<StepView>, s: RunView, q: nat, offset: nat) -> RunView {
    if q >= 4 {
        advance(plan, s)
    } else {
        RunView { phase: q + offset, ..s }
    }
}

pub open spec fn cmd_record(
    plan: Seq<StepView>,
    s: RunView,
    c: InvocationView,
    p: nat,
    offset: nat,
    ev: EventView,
) -> RunView {
    if p == 1 {
        match spawn_result(ev) {
            Err(e) => fail_and_advance(plan, s, e),
            Ok(_) => if c.mode is ToFile && captured(ev).len() == 0 {
                fail_and_advance(plan, s, InstallError::EmptyResponse)
            } else {
                goto_part(plan, after_spawn(s, c, ev), next_cmd_phase(c, 1), offset)
            },
        }
    } else {
        match io_result(ev) {
            Err(e) => fail_and_advance(plan, s, e),
            Ok(_) => goto_part(plan, s, next_cmd_phase(c, p), offset),
        }
    }
}

/// The run after the current action reported `ev`.
pub open spec fn record_spec(plan: Seq<StepView>, s: RunView, ev: EventView) -> RunView {
    match plan[s.index as int] {
        StepView::Confirm(_) => match ev {
            EventView::Answer(false) => fail_and_advance(plan, s, InstallError::Decline),
            EventView::Failed(e) => fail_and_advance(plan, s, e),
            _ => advance(plan, s),
        },
        StepView::Exec(c) => cmd_record(plan, s, c, s.phase, 0, ev),
        StepView::Branch { needle, found, otherwise, .. } => if s.phase == 0 {
            match spawn_result(ev) {
                Err(e) => fail_and_advance(plan, s, e),
                Ok(_) => {
                    let ch = occurs_in(needle, printed(ev));
                    let c = if ch { found } else { otherwise };
                    RunView { chosen: ch, phase: first_cmd_phase(c) + 1, ..s }
                },
            }
        } else {
            cmd_record(plan, s, if s.chosen { found } else { otherwise }, (s.phase - 1) as nat, 1, ev)
        },
        StepView::Await { needle, attempts, .. } => if s.phase == 1 {
            match spawn_result(ev) {
                Err(e) => fail_and_advance(plan, s, e),
                Ok(_) => if occurs_in(needle, printed(ev)) {
                    advance(plan, s)
                } else if s.tries + 1 >= attempts {
                    fail_and_advance(plan, s, InstallError::WaitExhausted)
                } else {
                    RunView { tries: s.tries + 1, phase: 2, ..s }
                },
            }
        } else {
            match io_result(ev) {
                Err(e) => fail_and_advance(plan, s, e),
                Ok(_) => RunView { phase: if s.phase == 0 { 1 } else { 0 }, ..s },
            }
        },
        _ => match io_result(ev) {
            Err(e) => fail_and_advance(plan, s, e),
            Ok(_) => advance(plan, s),
        },
    }
}

/// The state a run starts from.
pub open spec fn start(plan: Seq<StepView>, env: VarsView) -> RunView {
    settle(
        plan,
        enter(
            plan,
            RunView {
                index: 0,
                phase: 0,
                tries: 0,
                chosen: false,
                pending: Seq::empty(),
                failure: None,
                failed_at: 0,
                output: Seq::empty(),
                env,
            },
            0,
        ),
    )
}

/// A copy of `v`.
pub fn copy_bytes(v: &Vec<u8>) -> (r: Vec<u8>)
    ensures
        r@ == v@,
{
    let mut out: Vec<u8> = Vec::new();
    let mut i: usize = 0;
    while i < v.len()
        invariant
            0 <= i <= v@.len(),
            out@ == v@.subrange(0, i as int),
        decreases v@.len() - i,
    {
        out.push(v[i]);
        assert(out@ =~= v@.subrange(0, i + 1));
        i = i + 1;
    }
    assert(v@.subrange(0, v@.len() as int) =~= v@);
    out
}

/// A copy of `v`.
pub fn copy_strings(v: &Vec<String>) -> (r: Vec<String>)
    ensures
        strs(r@) == strs(v@),
{
    let mut out: Vec<String> = Vec::new();
    let mut i: usize = 0;
    while i < v.len()
        invariant
            0 <= i <= v@.len(),
            strs(out@) == strs(v@).subrange(0, i as int),
            out@.len() == i,
        decreases v@.len() - i,
    {
        out.push(v[i].clone());
        assert(strs(out@) =~= strs(v@).subrange(0, i + 1));
        i = i + 1;
    }
    assert(strs(v@).subrange(0, v@.len() as int) =~= strs(v@));
    out
}

/// A copy of `c`.
pub fn copy_invocation(c: &Invocation) -> (r: Invocation)
    ensures
        r@ == c@,
{
    Invocation {
        program: c.program.clone(),
        args: copy_strings(&c.args),
        description: match &c.description {
            Some(d) => Some(d.clone()),
            None => None,
        },
        stdin: match &c.stdin {
            Some(b) => Some(copy_bytes(b)),
            None => None,
        },
        mode: match &c.mode {
            OutputMode::Stream => OutputMode::Stream,
            OutputMode::Capture => OutputMode::Capture,
            OutputMode::ToFile(p) => OutputMode::ToFile(p.clone()),
        },
    }
}

/// A copy of `e`.
pub fn copy_error(e: &InstallError) -> (r: InstallError)
    ensures
        r == *e,
{
    match e {
        InstallError::Decline => InstallError::Decline,
        InstallError::IoError(m) => InstallError::IoError(m.clone()),
        InstallError::InvalidFile(m) => InstallError::InvalidFile(m.clone()),
        InstallError::InvalidConfig(m) => InstallError::InvalidConfig(m.clone()),
        InstallError::Custom(m) => InstallError::Custom(m.clone()),
        InstallError::EmptyResponse => InstallError::EmptyResponse,
        InstallError::InvalidTask(m) => InstallError::InvalidTask(m.clone()),
        InstallError::InvalidStage(m) => InstallError::InvalidStage(m.clone()),
        InstallError::CommandFailed(c) => InstallError::CommandFailed(*c),
        InstallError::WaitExhausted => InstallError::WaitExhausted,
        InstallError::NotImplemented => InstallError::NotImplemented,
    }
}

fn first_part(described: bool) -> (r: u8)
    ensures
        r == (if described { 0nat } else { 1nat }),
{
    if described {
        0
    } else {
        1
    }
}

fn next_part(described: bool, to_file: bool, p: u8) -> (r: u8)
    ensures
        forall|c: InvocationView|
            c.description is Some == described && c.mode is ToFile == to_file ==> r
                == #[trigger] next_cmd_phase(c, p as nat),
{
    if p == 0 {
        1
    } else if p == 1 && to_file {
        2
    } else if p <= 2 && described {
        3
    } else {
        4
    }
}

fn cleanup_scope(s: &Step) -> (r: Option<usize>)
    ensures
        match r {
            Some(k) => s@ matches StepView::Cleanup { scope, .. } && scope == k,
            None => !(s@ is Cleanup),
        },
{
    match s {
        Step::Cleanup { scope, .. } => Some(*scope),
        _ => None,
    }
}

fn is_internal_step(s: &Step) -> (r: bool)
    ensures
        r == is_internal(s@),
{
    match s {
        Step::SetEnv { .. } => true,
        Step::AppendPath(_) => true,
        Step::Fail(_) => true,
        _ => false,
    }
}

fn initial_phase_of(s: &Step) -> (r: u8)
    ensures
        r == initial_phase(s@),
{
    match s {
        Step::Exec(c) => first_part(c.description.is_some()),
        _ => 0,
    }
}

fn event_result(ev: &Event) -> (r: Result<(), InstallError>)
    ensures
        r == io_result(ev@),
{
    match ev {
        Event::Failed(e) => Err(copy_error(e)),
        _ => Ok(()),
    }
}

fn spawn_outcome(ev: &Event) -> (r: Result<(), InstallError>)
    ensures
        r == spawn_result(ev@),
{
    match ev {
        Event::Exited(c) => exit_outcome(*c),
        Event::Captured { status, .. } => exit_outcome(*status),
        Event::Printed { status, .. } => exit_outcome(*status),
        Event::Failed(e) => Err(copy_error(e)),
        _ => Ok(()),
    }
}

fn take_outputs(ev: Event) -> (r: (Vec<u8>, String))
    ensures
        r.0@ == captured(ev@),
        r.1@ == printed(ev@),
{
    match ev {
        Event::Captured { output, .. } => (output, String::new()),
        Event::Printed { text, .. } => (Vec::new(), text),
        _ => (Vec::new(), String::new()),
    }
}

fn printed_contains(ev: &Event, needle: &str) -> (r: bool)
    ensures
        r == occurs_in(needle@, printed(ev@)),
{
    match ev {
        Event::Printed { text, .. } => text_contains(text.as_str(), needle),
        _ => {
            let empty = String::new();
            text_contains(empty.as_str(), needle)
        },
    }
}

/// One task's run through its plan: asks for one action at a time and decides,
/// from what each reported, what comes next.
pub struct TaskRun {
    plan: Vec<Step>,
    index: usize,
    phase: u8,
    tries: u32,
    chosen: bool,
    pending: Vec<u8>,
    failure: Option<InstallError>,
    failed_at: usize,
    output: String,
    env: EnvTable,
}

impl View for TaskRun {
    type V = RunView;

    closed spec fn view(&self) -> RunView {
        RunView {
            index: self.index as nat,
            phase: self.phase as nat,
            tries: self.tries as nat,
            chosen: self.chosen,
            pending: self.pending@,
            failure: self.failure,
            failed_at: self.failed_at as nat,
            output: self.output@,
            env: self.env@,
        }
    }
}

impl TaskRun {
    /// The plan being run.
    pub closed spec fn steps(&self) -> Seq<StepView> {
        steps_view(self.plan@)
    }

    pub closed spec fn wf(&self) -> bool {
        &&& settled(self.steps(), self@)
        &&& self.plan@.len() == self.steps().len()
    }

    proof fn lemma_steps(&self)
        ensures
            self.plan@.len() == self.steps().len(),
            forall|i: int| 0 <= i < self.plan@.len() ==> #[trigger] self.steps()[i] == self.plan@[i]@,
    {
    }

    fn enter(&mut self, i: usize)
        requires
            i <= old(self).plan@.len(),
        ensures
            final(self).plan == old(self).plan,
            final(self)@ == enter(old(self).steps(), old(self)@, i as nat),
    {
        proof {
            self.lemma_steps();
        }
        self.index = i;
        self.phase = if i < self.plan.len() {
            initial_phase_of(&self.plan[i])
        } else {
            0
        };
        self.tries = 0;
        self.chosen = false;
        self.pending = Vec::new();
        assert(self.pending@ =~= Seq::<u8>::empty());
    }

    fn fail(&mut self, e: InstallError)
        ensures
            final(self).plan == old(self).plan,
            final(self)@ == fail_with(old(self)@, e),
    {
        if self.failure.is_none() {
            self.failure = Some(e);
            self.failed_at = self.index;
        }
    }

    fn kept_after_failure(&self) -> (r: bool)
        requires
            self.index < self.plan@.len(),
        ensures
            r == kept_after_failure(self.steps(), self@),
    {
        proof {
            self.lemma_steps();
        }
        match cleanup_scope(&self.plan[self.index]) {
            Some(k) => k >= self.index || self.index - k <= self.failed_at,
            None => false,
        }
    }

    fn apply_internal(&mut self)
        requires
            old(self).index < old(self).plan@.len(),
        ensures
            final(self).plan == old(self).plan,
            final(self)@ == apply_internal(old(self).steps()[old(self).index as int], old(self)@),
    {
        proof {
            self.lemma_steps();
        }
        let i = self.index;
        match &self.plan[i] {
            Step::SetEnv { key, value } => {
                let k = key.clone();
                let v = value.clone();
                self.env.set(k.as_str(), v.as_str());
            },
            Step::AppendPath(d) => {
                let d = d.clone();
                let joined = match self.env.get("PATH") {
                    Some(p) => p.concat(":").concat(d.as_str()),
                    None => {
                        let r = String::from_str(":").concat(d.as_str());
                        assert(r@ =~= Seq::<char>::empty() + ":"@ + d@);
                        r
                    },
                };
                self.env.set("PATH", joined.as_str());
            },
            Step::Fail(e) => {
                let e = copy_error(e);
                self.fail(e);
            },
            _ => {},
        }
    }

    fn settle(&mut self)
        requires
            old(self)@.index <= old(self).plan@.len(),
        ensures
            final(self).plan == old(self).plan,
            final(self)@ == settle(old(self).steps(), old(self)@),
            final(self).wf(),
    {
        proof {
            self.lemma_steps();
        }
        let ghost s0 = self@;
        let ghost initial_plan = self.plan;
        let ghost plan = self.steps();
        let mut done = false;
        while !done && self.index < self.plan.len()
            invariant
                self.plan == initial_plan,
                self.steps() == plan,
                plan.len() == self.plan@.len(),
                self.index <= self.plan@.len(),
                settle(plan, self@) == settle(plan, s0),
                done ==> settled(plan, self@),
            decreases self.plan@.len() - self.index + (if done { 0int } else { 1int }),
        {
            proof {
                self.lemma_steps();
            }
            let i = self.index;
            if self.failure.is_some() && !self.kept_after_failure() {
                self.enter(i + 1);
            } else if is_internal_step(&self.plan[i]) {
                self.apply_internal();
                self.enter(i + 1);
            } else {
                done = true;
            }
        }
        proof {
            self.lemma_steps();
        }
    }

    fn advance(&mut self)
        requires
            old(self)@.index < old(self).plan@.len(),
        ensures
            final(self).plan == old(self).plan,
            final(self)@ == advance(old(self).steps(), old(self)@),
            final(self).wf(),
    {
        let i = self.index;
        let n = self.plan.len();
        assert(i < n);
        self.enter(i + 1);
        self.settle();
    }

    fn fail_and_advance(&mut self, e: InstallError)
        requires
            old(self)@.index < old(self).plan@.len(),
        ensures
            final(self).plan == old(self).plan,
            final(self)@ == fail_and_advance(old(self).steps(), old(self)@, e),
            final(self).wf(),
    {
        self.fail(e);
        self.advance();
    }

    /// Start a run of `plan` with the environment `env`.
    pub fn new(plan: Plan, env: EnvTable) -> (r: TaskRun)
        ensures
            r.wf(),
            r.steps() == plan@,
            r@ == start(plan@, env@),
    {
        let mut r = TaskRun {
            plan: plan.steps,
            index: 0,
            phase: 0,
            tries: 0,
            chosen: false,
            pending: Vec::new(),
            failure: None,
            failed_at: 0,
            output: String::new(),
            env,
        };
        assert(r.pending@ =~= Seq::<u8>::empty());
        r.enter(0);
        r.settle();
        r
    }

    /// Whether the plan has been run to its end.
    pub fn is_finished(&self) -> (r: bool)
        requires
            self.wf(),
        ensures
            r == (self@.index >= self.steps().len()),
    {
        proof {
            self.lemma_steps();
        }
        self.index >= self.plan.len()
    }

    /// The text the last capture-to-text command of the plan printed (empty
    /// before any did).
    pub fn last_output(&self) -> (r: String)
        ensures
            r@ == self@.output,
    {
        self.output.clone()
    }

    /// A well-formed run is settled, so the laws about settled runs apply to it.
    pub proof fn lemma_wf_settled(&self)
        requires
            self.wf(),
        ensures
            settled(self.steps(), self@),
    {
    }

    /// The environment as the run leaves it.
    pub fn into_env(self) -> (r: EnvTable)
        ensures
            r@ == self@.env,
    {
        self.env
    }

    fn finish(&self) -> (r: Result<(), InstallError>)
        ensures
            r == finish_result(self@),
    {
        match &self.failure {
            Some(e) => Err(copy_error(e)),
            None => Ok(()),
        }
    }

    fn cmd_action(&self, c: &Invocation, p: u8) -> (r: Action)
        ensures
            r@ == cmd_action(c@, p as nat, self@),
    {
        let empty = String::new();
        let desc = match &c.description {
            Some(d) => d.as_str(),
            None => empty.as_str(),
        };
        if p == 0 {
            Action::Note(start_marker(desc))
        } else if p == 1 {
            Action::Spawn { invocation: copy_invocation(c), env: self.env.vars() }
        } else if p == 2 {
            let path = match &c.mode {
                OutputMode::ToFile(path) => path.clone(),
                _ => String::new(),
            };
            Action::WriteBytes { path, bytes: copy_bytes(&self.pending) }
        } else {
            Action::Note(done_marker(desc))
        }
    }

    /// The action the run asks for now.
    pub fn next_action(&self) -> (r: Action)
        requires
            self.wf(),
        ensures
            r@ == action_of(self.steps(), self@),
    {
        proof {
            self.lemma_steps();
        }
        if self.index >= self.plan.len() {
            return Action::Finish(self.finish());
        }
        match &self.plan[self.index] {
            Step::Note(t) => Action::Note(t.clone()),
            Step::Confirm(q) => Action::Confirm(q.clone()),
            Step::Exec(c) => self.cmd_action(c, self.phase),
            Step::Branch { probe, found, otherwise, .. } => {
                if self.phase == 0 {
                    Action::Spawn { invocation: copy_invocation(probe), env: self.env.vars() }
                } else if self.chosen {
                    self.cmd_action(found, self.phase - 1)
                } else {
                    self.cmd_action(otherwise, self.phase - 1)
                }
            },
            Step::Await { probe, note, delay_secs, .. } => {
                if self.phase == 0 {
                    Action::Note(note.clone())
                } else if self.phase == 1 {
                    Action::Spawn { invocation: copy_invocation(probe), env: self.env.vars() }
                } else {
                    Action::Sleep(*delay_secs)
                }
            },
            Step::WriteFile { path, content } => Action::WriteFile {
                path: path.clone(),
                content: content.clone(),
                append: false,
            },
            Step::AppendFile { path, line } => Action::WriteFile {
                path: path.clone(),
                content: String::from_str("\n").concat(line.as_str()),
                append: true,
            },
            Step::CreateDir(p) => Action::CreateDir(p.clone()),
            Step::CopyFile { from, to } => Action::CopyFile { from: from.clone(), to: to.clone() },
            Step::CopySelf(p) => Action::CopySelf(p.clone()),
            Step::RemoveFile(p) => Action::RemoveFile(p.clone()),
            Step::Cleanup { path, .. } => Action::RemoveDir(path.clone()),
            _ => Action::Finish(self.finish()),
        }
    }

    fn goto_part(&mut self, q: u8, offset: u8)
        requires
            old(self)@.index < old(self).plan@.len(),
            offset <= 1,
        ensures
            final(self).plan == old(self).plan,
            final(self)@ == goto_part(old(self).steps(), old(self)@, q as nat, offset as nat),
            final(self).wf() || q < 4,
    {
        if q >= 4 {
            self.advance();
        } else {
            self.phase = q + offset;
        }
    }

    fn cmd_record(
        &mut self,
        Ghost(c): Ghost<InvocationView>,
        described: bool,
        to_file: bool,
        capture: bool,
        p: u8,
        offset: u8,
        ev: Event,
    )
        requires
            old(self).wf(),
            old(self)@.index < old(self).plan@.len(),
            offset <= 1,
            described == c.description is Some,
            to_file == c.mode is ToFile,
            capture == c.mode is Capture,
        ensures
            final(self).plan == old(self).plan,
            final(self)@ == cmd_record(old(self).steps(), old(self)@, c, p as nat, offset as nat, ev@),
            final(self).wf(),
    {
        if p == 1 {
            match spawn_outcome(&ev) {
                Err(e) => self.fail_and_advance(e),
                Ok(_) => {
                    let (bytes, text) = take_outputs(ev);
                    if to_file && bytes.len() == 0 {
                        self.fail_and_advance(InstallError::EmptyResponse);
                    } else {
                        self.pending = bytes;
                        if capture {
                            self.output = text;
                        }
                        let q = next_part(described, to_file, 1);
                        self.goto_part(q, offset);
                    }
                },
            }
        } else {
            match event_result(&ev) {
                Err(e) => self.fail_and_advance(e),
                Ok(_) => {
                    let q = next_part(described, to_file, p);
                    self.goto_part(q, offset);
                },
            }
        }
    }

    /// Take in what the current action reported and move on.
    pub fn record(&mut self, ev: Event)
        requires
            old(self).wf(),
            old(self)@.index < old(self).steps().len(),
        ensures
            final(self).wf(),
            final(self).steps() == old(self).steps(),
            final(self)@ == record_spec(old(self).steps(), old(self)@, ev@),
    {
        proof {
            self.lemma_steps();
        }
        let i = self.index;
        match &self.plan[i] {
            Step::Confirm(_) => match ev {
                Event::Answer(false) => self.fail_and_advance(InstallError::Decline),
                Event::Failed(e) => self.fail_and_advance(e),
                _ => self.advance(),
            },
            Step::Exec(c) => {
                let described = c.description.is_some();
                let to_file = match &c.mode {
                    OutputMode::ToFile(_) => true,
                    _ => false,
                };
                let capture = match &c.mode {
                    OutputMode::Capture => true,
                    _ => false,
                };
                let ghost cv = c@;
                let p = self.phase;
                self.cmd_record(Ghost(cv), described, to_file, capture, p, 0, ev);
            },
            Step::Branch { needle, found, otherwise, .. } => {
                if self.phase == 0 {
                    let fd = found.description.is_some();
                    let od = otherwise.description.is_some();
                    match spawn_outcome(&ev) {
                        Err(e) => self.fail_and_advance(e),
                        Ok(_) => {
                            let ch = printed_contains(&ev, needle.as_str());
                            self.chosen = ch;
                            self.phase = first_part(if ch { fd } else { od }) + 1;
                        },
                    }
                } else {
                    let c = if self.chosen { found } else { otherwise };
                    let described = c.description.is_some();
                    let to_file = match &c.mode {
                        OutputMode::ToFile(_) => true,
                        _ => false,
                    };
                    let capture = match &c.mode {
                        OutputMode::Capture => true,
                        _ => false,
                    };
                    let ghost cv = c@;
                    let p = self.phase - 1;
                    self.cmd_record(Ghost(cv), described, to_file, capture, p, 1, ev);
                }
            },
            Step::Await { needle, attempts, .. } => {
                if self.phase == 1 {
                    let attempts = *attempts;
                    match spawn_outcome(&ev) {
                        Err(e) => self.fail_and_advance(e),
                        Ok(_) => {
                            if printed_contains(&ev, needle.as_str()) {
                                self.advance();
                            } else if self.tries as u64 + 1 >= attempts as u64 {
                                self.fail_and_advance(InstallError::WaitExhausted);
                            } else {
                                self.tries = self.tries + 1;
                                self.phase = 2;
                            }
                        },
                    }
                } else {
                    match event_result(&ev) {
                        Err(e) => self.fail_and_advance(e),
                        Ok(_) => {
                            self.phase = if self.phase == 0 {
                                1
                            } else {
                                0
                            };
                        },
                    }
                }
            },
            _ => match event_result(&ev) {
                Err(e) => self.fail_and_advance(e),
                Ok(_) => self.advance(),
            },
        }
    }
}

/// `settle` only moves forward, and never past the end of the plan.
pub proof fn lemma_settle_bounds(plan: Seq<StepView>, s: RunView)
    requires
        s.index <= plan.len(),
    ensures
        s.index <= settle(plan, s).index <= plan.len(),
        settled(plan, settle(plan, s)),
    decreases plan.len() - s.index,
{
    if s.index < plan.len() {
        if s.failure is Some && !kept_after_failure(plan, s) {
            lemma_settle_bounds(plan, enter(plan, s, s.index + 1));
        } else if is_internal(plan[s.index as int]) {
            lemma_settle_bounds(plan, enter(plan, apply_internal(plan[s.index as int], s), s.index + 1));
        }
    }
}

/// Once a failure is recorded it stays, and only cleanups whose scope holds
/// the failed step still run.
pub proof fn lemma_settle_after_failure(plan: Seq<StepView>, s: RunView)
    requires
        s.index <= plan.len(),
        s.failure is Some,
    ensures
        settle(plan, s).failure == s.failure,
        settle(plan, s).failed_at == s.failed_at,
        settle(plan, s).index < plan.len() ==> kept_after_failure(plan, settle(plan, s)),
    decreases plan.len() - s.index,
{
    if s.index < plan.len() && !kept_after_failure(plan, s) {
        lemma_settle_after_failure(plan, enter(plan, s, s.index + 1));
    }
}

/// The scope of the cleanup step `st` (zero for other steps).
pub open spec fn scope_of(st: StepView) -> nat {
    match st {
        StepView::Cleanup { scope, .. } => scope,
        _ => 0,
    }
}

/// `settle` never moves past a cleanup step whose scope reaches back to the
/// current step, unless an earlier failure lies outside that scope.
pub proof fn lemma_settle_stops_at_cleanup(plan: Seq<StepView>, s: RunView, j: int)
    requires
        s.index <= j < plan.len(),
        plan[j] is Cleanup,
        j <= s.index + scope_of(plan[j]),
        s.failure is Some ==> j <= s.failed_at + scope_of(plan[j]),
    ensures
        settle(plan, s).index <= j,
    decreases plan.len() - s.index,
{
    if s.index < j {
        if s.failure is Some && !kept_after_failure(plan, s) {
            lemma_settle_stops_at_cleanup(plan, enter(plan, s, s.index + 1), j);
        } else if is_internal(plan[s.index as int]) {
            lemma_settle_stops_at_cleanup(
                plan,
                enter(plan, apply_internal(plan[s.index as int], s), s.index + 1),
                j,
            );
        }
    }
}

/// An action is only asked for a step other than a cleanup while no earlier
/// step has failed: every step before it reported success.
pub proof fn lemma_action_after_success(plan: Seq<StepView>, s: RunView)
    requires
        settled(plan, s),
        s.index < plan.len(),
        !(plan[s.index as int] is Cleanup),
    ensures
        s.failure is None,
{
}

/// A cleanup step is not skipped while the run is inside its scope: whatever
/// the current step reports, the run cannot get past the cleanup without
/// asking for the directory's removal.
pub proof fn lemma_cleanup_always_runs(plan: Seq<StepView>, s: RunView, ev: EventView, j: int)
    requires
        settled(plan, s),
        s.index < j < plan.len(),
        !(plan[s.index as int] is Cleanup),
        plan[j] is Cleanup,
        j <= s.index + scope_of(plan[j]),
    ensures
        record_spec(plan, s, ev).index <= j,
        action_of(plan, RunView { index: j as nat, ..s }) == ActionView::RemoveDir(plan[j]->Cleanup_path),
{
    let i = s.index;
    let st = plan[i as int];
    let k = scope_of(plan[j]);
    assert forall|f: RunView|
        f.index == i + 1 && (f.failure is Some ==> j <= f.failed_at + k) implies #[trigger] settle(
        plan,
        f,
    ).index <= j by {
        lemma_settle_stops_at_cleanup(plan, f, j);
    }
    assert forall|e: InstallError| #[trigger] fail_and_advance(plan, s, e).index <= j by {
        lemma_settle_stops_at_cleanup(plan, enter(plan, fail_with(s, e), i + 1), j);
    }
    lemma_settle_stops_at_cleanup(plan, enter(plan, s, i + 1), j);
    assert forall|r: RunView, q: nat, o: nat|
        r.index == i && r.failure is None implies #[trigger] goto_part(plan, r, q, o).index <= j by {
        if q >= 4 {
            lemma_settle_stops_at_cleanup(plan, enter(plan, r, i + 1), j);
        }
    }
    match st {
        StepView::Exec(c) => {
            assert(goto_part(plan, after_spawn(s, c, ev), next_cmd_phase(c, 1), 0).index <= j);
            assert(goto_part(plan, s, next_cmd_phase(c, s.phase), 0).index <= j);
        },
        StepView::Branch { needle, found, otherwise, .. } => {
            let c = if s.chosen { found } else { otherwise };
            if s.phase > 0 {
                let p = (s.phase - 1) as nat;
                assert(goto_part(plan, after_spawn(s, c, ev), next_cmd_phase(c, 1), 1).index <= j);
                assert(goto_part(plan, s, next_cmd_phase(c, p), 1).index <= j);
            }
        },
        _ => {},
    }
}

/// A capture-to-file command that exits zero with no output fails the task
/// with `EmptyResponse` and the run goes past it without any write: what it
/// asks for next is a cleanup or the end.
pub proof fn lemma_empty_capture_writes_nothing(plan: Seq<StepView>, s: RunView, c: InvocationView)
    requires
        settled(plan, s),
        s.index < plan.len(),
        plan[s.index as int] == StepView::Exec(c),
        c.mode is ToFile,
        s.phase == 1,
    ensures
        ({
            let t = record_spec(plan, s, EventView::Captured { status: 0, output: Seq::empty() });
            &&& t.failure == Some(InstallError::EmptyResponse)
            &&& t.index > s.index
            &&& (action_of(plan, t) is RemoveDir || action_of(plan, t) is Finish)
        }),
{
    let f = fail_with(s, InstallError::EmptyResponse);
    let nx = enter(plan, f, s.index + 1);
    lemma_settle_after_failure(plan, nx);
    lemma_settle_bounds(plan, nx);
}

/// A variable set by one task is in the environment handed to a command that
/// the next task spawns.
pub proof fn lemma_set_env_reaches_next_command(
    env: VarsView,
    key: Seq<char>,
    value: Seq<char>,
    c: InvocationView,
)
    requires
        c.description is None,
    ensures
        ({
            let first = start(seq![StepView::SetEnv { key, value }], env);
            let second = start(seq![StepView::Exec(c)], first.env);
            &&& first.index == 1
            &&& action_of(seq![StepView::SetEnv { key, value }], first) == ActionView::Finish(Ok(()))
            &&& action_of(seq![StepView::Exec(c)], second) == ActionView::Spawn { invocation: c, env: first.env }
            &&& env_get(first.env, key) == Some(value)
        }),
{
    let first_plan = seq![StepView::SetEnv { key, value }];
    let fresh = RunView {
        index: 0,
        phase: 0,
        tries: 0,
        chosen: false,
        pending: Seq::empty(),
        failure: None,
        failed_at: 0,
        output: Seq::empty(),
        env,
    };
    let s0 = enter(first_plan, fresh, 0);
    let s1 = enter(first_plan, apply_internal(first_plan[0], s0), 1);
    assert(settle(first_plan, s1) == s1);
    lemma_set_then_get(env, key, value, key);
    let second_plan = seq![StepView::Exec(c)];
    let e2 = enter(second_plan, RunView { env: s1.env, ..fresh }, 0);
    assert(settle(second_plan, e2) == e2);
}

/// No step from position `from` on changes the environment.
pub open spec fn env_untouched_from(plan: Seq<StepView>, from: int) -> bool {
    forall|k: int| from <= k < plan.len() ==> !(#[trigger] plan[k] is SetEnv) && !(plan[k] is AppendPath)
}

/// Settling leaves the environment as it is when no later step changes it.
pub proof fn lemma_settle_keeps_env(plan: Seq<StepView>, s: RunView)
    requires
        s.index <= plan.len(),
        env_untouched_from(plan, s.index as int),
    ensures
        settle(plan, s).env == s.env,
    decreases plan.len() - s.index,
{
    if s.index < plan.len() {
        assert(!(plan[s.index as int] is SetEnv) && !(plan[s.index as int] is AppendPath));
        if s.failure is Some && !kept_after_failure(plan, s) {
            lemma_settle_keeps_env(plan, enter(plan, s, s.index + 1));
        } else if is_internal(plan[s.index as int]) {
            lemma_settle_keeps_env(plan, enter(plan, apply_internal(plan[s.index as int], s), s.index + 1));
        }
    }
}

/// Recording an event leaves the environment as it is when no step from the
/// current one on changes it.
pub proof fn lemma_record_keeps_env(plan: Seq<StepView>, s: RunView, ev: EventView)
    requires
        settled(plan, s),
        s.index < plan.len(),
        env_untouched_from(plan, s.index as int),
    ensures
        record_spec(plan, s, ev).env == s.env,
{
    assert forall|f: RunView| f.index == s.index + 1 && f.env == s.env implies #[trigger] settle(plan, f).env
        == s.env by {
        lemma_settle_keeps_env(plan, f);
    }
}

/// After the search path is extended, a command spawned later sees the
/// extended path: the directory is added after the old value and a colon.
pub proof fn lemma_append_path_reaches_command(env: VarsView, dir: Seq<char>, c: InvocationView)
    requires
        c.description is None,
    ensures
        ({
            let plan = seq![StepView::AppendPath(dir), StepView::Exec(c)];
            let s = start(plan, env);
            &&& action_of(plan, s) == ActionView::Spawn { invocation: c, env: s.env }
            &&& env_get(s.env, "PATH"@) == Some(path_appended(env_get(env, "PATH"@), dir))
        }),
{
    let plan = seq![StepView::AppendPath(dir), StepView::Exec(c)];
    let fresh = RunView {
        index: 0,
        phase: 0,
        tries: 0,
        chosen: false,
        pending: Seq::empty(),
        failure: None,
        failed_at: 0,
        output: Seq::empty(),
        env,
    };
    let s0 = enter(plan, fresh, 0);
    let s1 = enter(plan, apply_internal(plan[0], s0), 1);
    assert(settle(plan, s1) == s1);
    lemma_set_then_get(env, "PATH"@, path_appended(env_get(env, "PATH"@), dir), "PATH"@);
}

} // verus!
