//! The validated configuration: disks, user profile, the named stages, and the
//! path of the document it came from; and the checks that loading applies.
use crate::error::InstallError;
use crate::tasks::{lemma_task_names_distinct, registered, task_name, Registry, Task};
use vstd::prelude::*;
use vstd::string::*;

verus! {

/// Free-text profile of the user the system is installed for.
#[derive(Clone, Debug)]
pub struct User {
    pub name: String,
    pub full_name: String,
    pub email: String,
    pub hostname: String,
}

/// The block devices the install works on, as full device paths.
#[derive(Clone, Debug)]
pub struct Installer {
    pub install_disk: String,
    pub system_disk: String,
    pub boot_disk: String,
}

/// Disks recorded by the early stages.
#[derive(Clone, Debug, Default)]
pub struct SystemInfo {
    pub boot_disk: String,
    pub system_disk: String,
}

pub type StagesView = Seq<(Seq<char>, Seq<Task>)>;

/// Whether `name` names a stage of `entries`.
pub open spec fn has_stage(entries: StagesView, name: Seq<char>) -> bool {
    exists|i: int| 0 <= i < entries.len() && (#[trigger] entries[i]).0 == name
}

/// The tasks of stage `name`, if there is one.
pub open spec fn stage_of(entries: StagesView, name: Seq<char>) -> Option<Seq<Task>> {
    if has_stage(entries, name) {
        let i = choose|i: int| 0 <= i < entries.len() && (#[trigger] entries[i]).0 == name;
        Some(entries[i].1)
    } else {
        None
    }
}

/// No two stages share a name.
pub open spec fn unique_names(entries: StagesView) -> bool {
    forall|i: int, j: int|
        0 <= i < j < entries.len() ==> (#[trigger] entries[i]).0 != (#[trigger] entries[j]).0
}

proof fn lemma_stage_at(entries: StagesView, name: Seq<char>, i: int)
    requires
        unique_names(entries),
        0 <= i < entries.len(),
        entries[i].0 == name,
    ensures
        has_stage(entries, name),
        (choose|j: int| 0 <= j < entries.len() && (#[trigger] entries[j]).0 == name) == i,
        stage_of(entries, name) == Some(entries[i].1),
{
    let j = choose|j: int| 0 <= j < entries.len() && (#[trigger] entries[j]).0 == name;
    if j != i {
        if j < i {
            assert(entries[j].0 != entries[i].0);
        } else {
            assert(entries[i].0 != entries[j].0);
        }
    }
}

/// The named stages of a configuration and the one that `install` starts with.
#[derive(Clone, Debug)]
pub struct Stages {
    first_stage: String,
    entries: Vec<(String, Vec<Task>)>,
}

impl View for Stages {
    type V = StagesView;

    closed spec fn view(&self) -> StagesView {
        self.entries@.map_values(|e: (String, Vec<Task>)| (e.0@, e.1@))
    }
}

impl Stages {
    pub closed spec fn wf(&self) -> bool {
        unique_names(self@)
    }

    /// The name of the stage that `install` starts with.
    pub closed spec fn first(&self) -> Seq<char> {
        self.first_stage@
    }

    pub fn first_stage(&self) -> (r: &String)
        ensures
            r@ == self.first(),
    {
        &self.first_stage
    }

    pub fn set_first_stage(&mut self, name: String)
        ensures
            final(self)@ == old(self)@,
            final(self).wf() == old(self).wf(),
            final(self).first() == name@,
    {
        self.first_stage = name;
    }

    proof fn lemma_view(&self)
        ensures
            self@.len() == self.entries@.len(),
            forall|i: int|
                0 <= i < self.entries@.len() ==> #[trigger] self@[i] == (
                self.entries@[i].0@,
                self.entries@[i].1@,
            ),
    {
    }

    /// No stages, and an empty first-stage name.
    pub fn new() -> (r: Stages)
        ensures
            r.wf(),
            r@ == Seq::<(Seq<char>, Seq<Task>)>::empty(),
            r.first() == Seq::<char>::empty(),
    {
        let r = Stages { first_stage: String::new(), entries: Vec::new() };
        assert(r@ =~= Seq::<(Seq<char>, Seq<Task>)>::empty());
        r
    }

    fn index_of(&self, name: &str) -> (r: Option<usize>)
        requires
            self.wf(),
        ensures
            match r {
                Some(i) => i < self@.len() && self@[i as int].0 == name@,
                None => !has_stage(self@, name@),
            },
    {
        proof {
            self.lemma_view();
        }
        let key = String::from_str(name);
        let mut i: usize = 0;
        while i < self.entries.len()
            invariant
                key@ == name@,
                0 <= i <= self@.len(),
                self@.len() == self.entries@.len(),
                forall|k: int| 0 <= k < i ==> (#[trigger] self@[k]).0 != name@,
            decreases self.entries@.len() - i,
        {
            if self.entries[i].0 == key {
                assert(self@[i as int].0 == name@);
                return Some(i);
            }
            i = i + 1;
        }
        None
    }

    /// Whether a stage is called `name`.
    pub fn contains(&self, name: &str) -> (r: bool)
        requires
            self.wf(),
        ensures
            r == has_stage(self@, name@),
    {
        self.index_of(name).is_some()
    }

    /// The tasks of stage `name`, in order.
    pub fn get(&self, name: &str) -> (r: Option<Vec<Task>>)
        requires
            self.wf(),
        ensures
            match r {
                Some(t) => stage_of(self@, name@) == Some(t@),
                None => stage_of(self@, name@).is_none(),
            },
    {
        proof {
            self.lemma_view();
        }
        match self.index_of(name) {
            Some(i) => {
                proof {
                    lemma_stage_at(self@, name@, i as int);
                }
                Some(self.entries[i].1.clone())
            },
            None => None,
        }
    }

    /// Add stage `name` with the tasks `tasks`. A name can be given only
    /// once: adding it again fails with `InvalidConfig` and changes nothing.
    pub fn add(&mut self, name: String, tasks: Vec<Task>) -> (r: Result<(), InstallError>)
        requires
            old(self).wf(),
        ensures
            final(self).wf(),
            final(self).first() == old(self).first(),
            has_stage(old(self)@, name@) ==> {
                &&& r matches Err(InstallError::InvalidConfig(n)) && n@ == name@
                &&& final(self)@ == old(self)@
            },
            !has_stage(old(self)@, name@) ==> {
                &&& r is Ok
                &&& final(self)@ == old(self)@.push((name@, tasks@))
                &&& stage_of(final(self)@, name@) == Some(tasks@)
                &&& forall|other: Seq<char>|
                    other != name@ ==> #[trigger] stage_of(final(self)@, other) == stage_of(
                        old(self)@,
                        other,
                    )
            },
    {
        proof {
            self.lemma_view();
        }
        let ghost before = self@;
        if self.index_of(name.as_str()).is_some() {
            return Err(InstallError::InvalidConfig(name));
        }
        self.entries.push((name, tasks));
        proof {
            self.lemma_view();
            assert(self@ =~= before.push((name@, tasks@)));
            assert forall|other: Seq<char>| other != name@ implies #[trigger] stage_of(self@, other)
                == stage_of(before, other) by {
                lemma_add_then_get(before, name@, tasks@, other);
            }
            lemma_add_then_get(before, name@, tasks@, name@);
        }
        Ok(())
    }

    /// The stage names, in the order they were added.
    pub fn names(&self) -> (r: Vec<String>)
        ensures
            r@.len() == self@.len(),
            forall|i: int| 0 <= i < r@.len() ==> (#[trigger] r@[i])@ == self@[i].0,
    {
        proof {
            self.lemma_view();
        }
        let mut out: Vec<String> = Vec::new();
        let mut i: usize = 0;
        while i < self.entries.len()
            invariant
                0 <= i <= self.entries@.len(),
                self@.len() == self.entries@.len(),
                out@.len() == i,
                forall|k: int| 0 <= k < i ==> (#[trigger] out@[k])@ == self@[k].0,
            decreases self.entries@.len() - i,
        {
            out.push(self.entries[i].0.clone());
            i = i + 1;
        }
        out
    }
}

/// Adding a stage under a new name keeps names unique, makes it readable
/// under its name, and leaves the others.
pub proof fn lemma_add_then_get(entries: StagesView, name: Seq<char>, tasks: Seq<Task>, other: Seq<char>)
    requires
        unique_names(entries),
        !has_stage(entries, name),
    ensures
        unique_names(entries.push((name, tasks))),
        stage_of(entries.push((name, tasks)), name) == Some(tasks),
        other != name ==> stage_of(entries.push((name, tasks)), other) == stage_of(entries, other),
{
    let r = entries.push((name, tasks));
    assert(unique_names(r)) by {
        assert forall|a: int, b: int| 0 <= a < b < r.len() implies (#[trigger] r[a]).0 != (
        #[trigger] r[b]).0 by {
            if b < entries.len() {
                assert(entries[a].0 != entries[b].0);
            } else {
                assert(r[a] == entries[a]);
            }
        }
    }
    lemma_stage_at(r, name, entries.len() as int);
    if other != name {
        if has_stage(entries, other) {
            let j = choose|j: int| 0 <= j < entries.len() && (#[trigger] entries[j]).0 == other;
            lemma_stage_at(entries, other, j);
            assert(r[j] == entries[j]);
            lemma_stage_at(r, other, j);
        } else {
            assert(!has_stage(r, other)) by {
                if has_stage(r, other) {
                    let j = choose|j: int| 0 <= j < r.len() && (#[trigger] r[j]).0 == other;
                    assert(entries[j].0 == other);
                }
            }
        }
    }
}

/// `buf` after `part` is pushed onto it as a path component: an absolute part
/// replaces it, otherwise a separator is put between them where needed.
pub open spec fn path_push(buf: Seq<char>, part: Seq<char>) -> Seq<char> {
    if part.len() > 0 && part[0] == '/' {
        part
    } else if buf.len() > 0 && buf.last() != '/' {
        buf + seq!['/'] + part
    } else {
        buf + part
    }
}

/// The path made of `parts`, pushed one after the other onto an empty path.
pub open spec fn joined(parts: Seq<Seq<char>>) -> Seq<char>
    decreases parts.len(),
{
    if parts.len() == 0 {
        Seq::empty()
    } else {
        path_push(joined(parts.drop_last()), parts.last())
    }
}

/// The path made of `parts`.
pub fn join_path(parts: &Vec<&str>) -> (r: String)
    ensures
        r@ == joined(parts@.map_values(|p: &str| p@)),
{
    let ghost pv = parts@.map_values(|p: &str| p@);
    let mut buf = String::new();
    let mut i: usize = 0;
    while i < parts.len()
        invariant
            0 <= i <= parts@.len(),
            pv == parts@.map_values(|p: &str| p@),
            buf@ == joined(pv.subrange(0, i as int)),
        decreases parts@.len() - i,
    {
        let part: &str = parts[i];
        assert(pv.subrange(0, i + 1).drop_last() =~= pv.subrange(0, i as int));
        assert(pv[i as int] == part@);
        let n = buf.as_str().unicode_len();
        if part.unicode_len() > 0 && part.get_char(0) == '/' {
            buf = String::from_str(part);
        } else if n > 0 && buf.as_str().get_char(n - 1) != '/' {
            buf.append("/");
            proof {
                reveal_strlit("/");
            }
            buf.append(part);
        } else {
            buf.append(part);
        }
        i = i + 1;
    }
    assert(pv.subrange(0, parts@.len() as int) =~= pv);
    buf
}

/// `path` if it names an existing file that is not a directory (as `is_file`
/// reports), otherwise `InvalidFile` naming it.
pub fn existing_file(path: String, is_file: bool) -> (r: Result<String, InstallError>)
    ensures
        is_file ==> (r matches Ok(p) && p@ == path@),
        !is_file ==> (r matches Err(InstallError::InvalidFile(p)) && p@ == path@),
{
    if is_file {
        Ok(path)
    } else {
        Err(InstallError::InvalidFile(path))
    }
}

/// The device node a device name resolves to.
pub open spec fn device_text(name: Seq<char>) -> Seq<char> {
    "/dev/"@ + name
}

pub fn device_path(name: &str) -> (r: String)
    ensures
        r@ == device_text(name@),
{
    String::from_str("/dev/").concat(name)
}

/// A stage as the configuration document writes it: task names, not tasks.
#[derive(Clone, Debug)]
pub struct RawStage {
    pub name: String,
    pub tasks: Vec<String>,
}

/// The configuration document as parsed, before validation.
#[derive(Clone, Debug)]
pub struct RawConfig {
    /// Device names, relative to `/dev`.
    pub install_disk: String,
    pub system_disk: String,
    pub boot_disk: String,
    pub user: User,
    pub first_stage: String,
    pub stages: Vec<RawStage>,
}

/// Whether each device path names an existing non-directory node.
#[derive(Clone, Copy, Debug)]
pub struct DeviceCheck {
    pub install_disk: bool,
    pub system_disk: bool,
    pub boot_disk: bool,
}

pub type RawStagesView = Seq<(Seq<char>, Seq<Seq<char>>)>;

pub open spec fn raw_view(v: Seq<RawStage>) -> RawStagesView {
    v.map_values(|r: RawStage| (r.name@, strs_of(r.tasks@)))
}

pub open spec fn strs_of(v: Seq<String>) -> Seq<Seq<char>> {
    v.map_values(|s: String| s@)
}

/// The task registered under `name` (names are unique).
pub open spec fn task_named(name: Seq<char>) -> Task {
    choose|t: Task| task_name(t) == name
}

/// Every task name of every stage is registered.
pub open spec fn names_registered(reg: Seq<Task>, raw: RawStagesView) -> bool {
    forall|i: int, j: int|
        0 <= i < raw.len() && 0 <= j < raw[i].1.len() ==> registered(reg, #[trigger] raw[i].1[j])
}

/// Whether some raw stage is called `name`.
pub open spec fn raw_has_stage(raw: RawStagesView, name: Seq<char>) -> bool {
    exists|i: int| 0 <= i < raw.len() && (#[trigger] raw[i]).0 == name
}

/// No two raw stages share a name.
pub open spec fn raw_unique(raw: RawStagesView) -> bool {
    forall|i: int, j: int| 0 <= i < j < raw.len() ==> (#[trigger] raw[i]).0 != (#[trigger] raw[j]).0
}

/// Whether at least two raw stages are called `name`.
pub open spec fn repeated_stage(raw: RawStagesView, name: Seq<char>) -> bool {
    exists|i: int, j: int| 0 <= i < j < raw.len() && (#[trigger] raw[i]).0 == name && (#[trigger] raw[j]).0 == name
}

/// The stages the raw stages describe: each name with its tasks resolved.
pub open spec fn built_stages(raw: RawStagesView) -> StagesView {
    raw.map_values(|r: (Seq<char>, Seq<Seq<char>>)| (r.0, r.1.map_values(|n: Seq<char>| task_named(n))))
}

proof fn lemma_built_stages(raw: RawStagesView, name: Seq<char>)
    requires
        raw_unique(raw),
    ensures
        unique_names(built_stages(raw)),
        has_stage(built_stages(raw), name) == raw_has_stage(raw, name),
{
    let b = built_stages(raw);
    assert forall|i: int, j: int| 0 <= i < j < b.len() implies (#[trigger] b[i]).0 != (#[trigger] b[j]).0 by {
        assert(raw[i].0 != raw[j].0);
    }
    if raw_has_stage(raw, name) {
        let i = choose|i: int| 0 <= i < raw.len() && (#[trigger] raw[i]).0 == name;
        assert(b[i].0 == name);
    }
    if has_stage(b, name) {
        let i = choose|i: int| 0 <= i < b.len() && (#[trigger] b[i]).0 == name;
        assert(raw[i].0 == name);
    }
}

/// A validated configuration: the disks as device paths, the user profile,
/// the stages, and the path of the document it was loaded from.
#[derive(Clone, Debug)]
pub struct Config {
    pub installer: Installer,
    pub user: User,
    pub stages: Stages,
    pub path: String,
}

impl Config {
    /// The stage map is well formed and holds the first stage.
    pub open spec fn wf(&self) -> bool {
        &&& self.stages.wf()
        &&& has_stage(self.stages@, self.stages.first())
    }
}

fn resolve_tasks(reg: &Registry, names: &Vec<String>) -> (r: Result<Vec<Task>, InstallError>)
    requires
        reg.wf(),
    ensures
        match r {
            Ok(t) => {
                &&& forall|j: int|
                    0 <= j < names@.len() ==> registered(reg@, #[trigger] strs_of(names@)[j])
                &&& t@ == strs_of(names@).map_values(|n: Seq<char>| task_named(n))
            },
            Err(e) => {
                &&& e matches InstallError::InvalidTask(n)
                &&& !registered(reg@, n@)
                &&& strs_of(names@).contains(n@)
            },
        },
{
    let ghost nv = strs_of(names@);
    let mut out: Vec<Task> = Vec::new();
    let mut j: usize = 0;
    while j < names.len()
        invariant
            reg.wf(),
            nv == strs_of(names@),
            0 <= j <= names@.len(),
            forall|k: int| 0 <= k < j ==> registered(reg@, #[trigger] nv[k]),
            out@ == nv.subrange(0, j as int).map_values(|n: Seq<char>| task_named(n)),
        decreases names@.len() - j,
    {
        match reg.lookup(names[j].as_str()) {
            Ok(t) => {
                proof {
                    let idx = choose|i: int| 0 <= i < reg@.len() && reg@[i] == t;
                    assert(task_name(reg@[idx]) == nv[j as int]);
                    let c = task_named(nv[j as int]);
                    if c != t {
                        lemma_task_names_distinct(c, t);
                    }
                }
                out.push(t);
                assert(out@ =~= nv.subrange(0, j + 1).map_values(|n: Seq<char>| task_named(n)));
            },
            Err(_) => {
                assert(nv[j as int] == names@[j as int]@);
                return Err(InstallError::InvalidTask(names[j].clone()));
            },
        }
        j = j + 1;
    }
    assert(nv.subrange(0, names@.len() as int) =~= nv);
    Ok(out)
}

/// Validate a parsed configuration document loaded from `path`.
///
/// Fails with `InvalidConfig` when the first stage is not among the stages,
/// then with `InvalidConfig` naming the device path of the first disk
/// (install, system, boot) whose device node is missing, then with
/// `InvalidConfig` naming a stage given twice or `InvalidTask` naming a task
/// that is not registered, whichever comes first in the stage list.
pub fn load_config(
    raw: RawConfig,
    path: &str,
    checks: DeviceCheck,
    reg: &Registry,
) -> (r: Result<Config, InstallError>)
    requires
        reg.wf(),
    ensures
        ({
            let rv = raw_view(raw.stages@);
            match r {
                Ok(c) => {
                    &&& raw_has_stage(rv, raw.first_stage@)
                    &&& checks.install_disk && checks.system_disk && checks.boot_disk
                    &&& raw_unique(rv)
                    &&& names_registered(reg@, rv)
                    &&& c.wf()
                    &&& c.stages@ == built_stages(rv)
                    &&& c.stages.first() == raw.first_stage@
                    &&& c.installer.install_disk@ == device_text(raw.install_disk@)
                    &&& c.installer.system_disk@ == device_text(raw.system_disk@)
                    &&& c.installer.boot_disk@ == device_text(raw.boot_disk@)
                    &&& c.user == raw.user
                    &&& c.path@ == path@
                },
                Err(e) => if !raw_has_stage(rv, raw.first_stage@) {
                    e matches InstallError::InvalidConfig(m) && m@ == raw.first_stage@
                } else if !checks.install_disk {
                    e matches InstallError::InvalidConfig(p) && p@ == device_text(raw.install_disk@)
                } else if !checks.system_disk {
                    e matches InstallError::InvalidConfig(p) && p@ == device_text(raw.system_disk@)
                } else if !checks.boot_disk {
                    e matches InstallError::InvalidConfig(p) && p@ == device_text(raw.boot_disk@)
                } else {
                    &&& !(raw_unique(rv) && names_registered(reg@, rv))
                    &&& {
                        ||| (e matches InstallError::InvalidConfig(n) && repeated_stage(rv, n@))
                        ||| (e matches InstallError::InvalidTask(n) && !registered(reg@, n@))
                    }
                },
            }
        }),
{
    let ghost rv = raw_view(raw.stages@);
    // the first stage must be one of the stages
    let mut found = false;
    let mut i: usize = 0;
    while i < raw.stages.len()
        invariant
            rv == raw_view(raw.stages@),
            0 <= i <= raw.stages@.len(),
            found == (exists|k: int| 0 <= k < i && (#[trigger] rv[k]).0 == raw.first_stage@),
        decreases raw.stages@.len() - i,
    {
        if raw.stages[i].name == raw.first_stage {
            assert(rv[i as int].0 == raw.first_stage@);
            found = true;
        }
        i = i + 1;
    }
    if !found {
        return Err(InstallError::InvalidConfig(raw.first_stage));
    }
    assert(raw_has_stage(rv, raw.first_stage@));
    let install_disk = match existing_file(device_path(raw.install_disk.as_str()), checks.install_disk) {
        Ok(p) => p,
        Err(InstallError::InvalidFile(p)) => return Err(InstallError::InvalidConfig(p)),
        Err(e) => return Err(e),
    };
    let system_disk = match existing_file(device_path(raw.system_disk.as_str()), checks.system_disk) {
        Ok(p) => p,
        Err(InstallError::InvalidFile(p)) => return Err(InstallError::InvalidConfig(p)),
        Err(e) => return Err(e),
    };
    let boot_disk = match existing_file(device_path(raw.boot_disk.as_str()), checks.boot_disk) {
        Ok(p) => p,
        Err(InstallError::InvalidFile(p)) => return Err(InstallError::InvalidConfig(p)),
        Err(e) => return Err(e),
    };
    let mut stages = Stages::new();
    let mut i: usize = 0;
    while i < raw.stages.len()
        invariant
            reg.wf(),
            rv == raw_view(raw.stages@),
            0 <= i <= raw.stages@.len(),
            stages.wf(),
            stages@ == built_stages(rv.subrange(0, i as int)),
            raw_unique(rv.subrange(0, i as int)),
            raw_has_stage(rv, raw.first_stage@),
            checks.install_disk && checks.system_disk && checks.boot_disk,
            forall|a: int, b: int|
                0 <= a < i && 0 <= b < rv[a].1.len() ==> registered(reg@, #[trigger] rv[a].1[b]),
        decreases raw.stages@.len() - i,
    {
        let st = &raw.stages[i];
        proof {
            assert(rv[i as int] == (st.name@, strs_of(st.tasks@)));
        }
        if stages.contains(st.name.as_str()) {
            proof {
                let k = choose|k: int| 0 <= k < stages@.len() && (#[trigger] stages@[k]).0 == st.name@;
                assert(rv.subrange(0, i as int)[k].0 == st.name@);
                assert(rv[k].0 == st.name@);
                assert(repeated_stage(rv, st.name@));
                assert(!raw_unique(rv)) by {
                    assert(rv[k].0 == rv[i as int].0);
                }
            }
            return Err(InstallError::InvalidConfig(st.name.clone()));
        }
        match resolve_tasks(reg, &st.tasks) {
            Ok(tasks) => {
                let ghost before = stages@;
                let added = stages.add(st.name.clone(), tasks);
                proof {
                    let next = rv.subrange(0, i + 1);
                    assert(next =~= rv.subrange(0, i as int).push(rv[i as int]));
                    assert(stages@ =~= built_stages(next));
                    assert forall|a: int, b: int| 0 <= a < b < next.len() implies (#[trigger] next[a]).0
                        != (#[trigger] next[b]).0 by {
                        if b == i {
                            if next[a].0 == next[b].0 {
                                assert(before[a].0 == st.name@);
                            }
                        } else {
                            assert(rv.subrange(0, i as int)[a] == next[a]);
                            assert(rv.subrange(0, i as int)[b] == next[b]);
                        }
                    }
                }
            },
            Err(e) => {
                proof {
                    assert(rv[i as int].1 == strs_of(st.tasks@));
                    let n = e->InvalidTask_0;
                    let b = choose|b: int| 0 <= b < rv[i as int].1.len() && rv[i as int].1[b] == n@;
                    assert(!registered(reg@, rv[i as int].1[b]));
                }
                return Err(e);
            },
        }
        i = i + 1;
    }
    proof {
        assert(rv.subrange(0, rv.len() as int) =~= rv);
        lemma_built_stages(rv, raw.first_stage@);
        assert(raw_has_stage(rv, raw.first_stage@));
    }
    stages.set_first_stage(raw.first_stage);
    Ok(Config {
        installer: Installer { install_disk, system_disk, boot_disk },
        user: raw.user,
        stages,
        path: String::from_str(path),
    })
}

impl Default for Config {
    /// A template configuration to start a real one from.
    fn default() -> (r: Config)
        ensures
            r.wf(),
            r.installer.install_disk@ == "/dev/sdX"@,
            r.installer.system_disk@ == "/dev/sdXn"@,
            r.installer.boot_disk@ == "/dev/sdXn"@,
            r.user.name@ == "your_login"@,
            r.user.full_name@ == "Full Name"@,
            r.user.email@ == "my@email.com"@,
            r.user.hostname@ == "myhost"@,
            r.stages.first() == "my_stage1"@,
            r.stages@ == seq![
                ("my_stage1"@, seq![Task::Prepare, Task::Base]),
                ("my_stage2"@, seq![Task::Bootloader]),
            ],
            r.path@ == Seq::<char>::empty(),
    {
        let mut stages = Stages::new();
        let t1 = vec![Task::Prepare, Task::Base];
        let t2 = vec![Task::Bootloader];
        assert(t1@ =~= seq![Task::Prepare, Task::Base]);
        assert(t2@ =~= seq![Task::Bootloader]);
        let _ = stages.add(String::from_str("my_stage1"), t1);
        proof {
            reveal_strlit("my_stage1");
            reveal_strlit("my_stage2");
            assert("my_stage1"@ != "my_stage2"@) by {
                assert("my_stage1"@[8] != "my_stage2"@[8]);
            }
            let e = Seq::<(Seq<char>, Seq<Task>)>::empty();
            assert(!has_stage(e, "my_stage1"@));
        }
        assert(stages@ =~= seq![("my_stage1"@, seq![Task::Prepare, Task::Base])]);
        proof {
            let one = seq![("my_stage1"@, seq![Task::Prepare, Task::Base])];
            assert(!has_stage(one, "my_stage2"@)) by {
                if has_stage(one, "my_stage2"@) {
                    let i = choose|i: int| 0 <= i < one.len() && (#[trigger] one[i]).0 == "my_stage2"@;
                    assert(one[i].0 == "my_stage1"@);
                }
            }
        }
        let _ = stages.add(String::from_str("my_stage2"), t2);
        stages.set_first_stage(String::from_str("my_stage1"));
        let r = Config {
            installer: Installer {
                install_disk: String::from_str("/dev/sdX"),
                system_disk: String::from_str("/dev/sdXn"),
                boot_disk: String::from_str("/dev/sdXn"),
            },
            user: User {
                name: String::from_str("your_login"),
                full_name: String::from_str("Full Name"),
                email: String::from_str("my@email.com"),
                hostname: String::from_str("myhost"),
            },
            stages,
            path: String::new(),
        };
        assert(r.stages@ =~= seq![
            ("my_stage1"@, seq![Task::Prepare, Task::Base]),
            ("my_stage2"@, seq![Task::Bootloader]),
        ]);
        assert(r.stages@[0].0 == "my_stage1"@);
        r
    }
}

} // verus!
