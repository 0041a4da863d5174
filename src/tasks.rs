//! The task registry: every task under its unique name, built once.
use crate::error::InstallError;
use vstd::prelude::*;
use vstd::string::*;

verus! {

/// The closed set of provisioning steps that can be named in a configuration.
#[derive(Clone, Copy, Debug, PartialEq, Eq, Structural)]
pub enum Task {
    Prepare,
    DownloadBase,
    Base,
    BaseInChroot,
    Bootloader,
    BootloaderInChroot,
    SetupRebootUserSystem,
    Reboot,
    SetInQemuHttpProxy,
    CleanupRebootHook,
    SystemdNetwork,
    EssentialPackages,
    Vga,
    Audio,
    Desktop,
    DesktopPackages,
    SetupDotfiles,
    Codecs,
    TerminalPackages,
    AddUser,
    GenerateSshKeys,
    DisableRootLogin,
    PowerManagement,
    Firewall,
    SetupRebootPostInstall,
    SetGitUser,
    RustPackages,
    Vpn,
}

/// The name under which each task is registered.
pub open spec fn task_name(t: Task) -> Seq<char> {
    match t {
        Task::Prepare => "prepare"@,
        Task::DownloadBase => "download_base"@,
        Task::Base => "base"@,
        Task::BaseInChroot => "base_in_chroot"@,
        Task::Bootloader => "bootloader"@,
        Task::BootloaderInChroot => "bootloader_in_chroot"@,
        Task::SetupRebootUserSystem => "setup_reboot_user_system"@,
        Task::Reboot => "reboot"@,
        Task::SetInQemuHttpProxy => "set_in_qemu_http_proxy"@,
        Task::CleanupRebootHook => "cleanup_reboot_hook"@,
        Task::SystemdNetwork => "systemd_network"@,
        Task::EssentialPackages => "essential_packages"@,
        Task::Vga => "vga"@,
        Task::Audio => "audio"@,
        Task::Desktop => "desktop"@,
        Task::DesktopPackages => "desktop_packages"@,
        Task::SetupDotfiles => "setup_dotfiles"@,
        Task::Codecs => "codecs"@,
        Task::TerminalPackages => "terminal_packages"@,
        Task::AddUser => "add_user"@,
        Task::GenerateSshKeys => "generate_ssh_keys"@,
        Task::DisableRootLogin => "disable_root_login"@,
        Task::PowerManagement => "power_management"@,
        Task::Firewall => "firewall"@,
        Task::SetupRebootPostInstall => "setup_reboot_post_install"@,
        Task::SetGitUser => "set_git_user"@,
        Task::RustPackages => "rust_packages"@,
        Task::Vpn => "vpn"@,
    }
}

/// The registration order of the standard table.
pub open spec fn standard_tasks() -> Seq<Task> {
    seq![
        Task::Prepare,
        Task::DownloadBase,
        Task::Base,
        Task::BaseInChroot,
        Task::Bootloader,
        Task::BootloaderInChroot,
        Task::SetupRebootUserSystem,
        Task::Reboot,
        Task::SetInQemuHttpProxy,
        Task::CleanupRebootHook,
        Task::SystemdNetwork,
        Task::EssentialPackages,
        Task::Vga,
        Task::Audio,
        Task::Desktop,
        Task::DesktopPackages,
        Task::SetupDotfiles,
        Task::Codecs,
        Task::TerminalPackages,
        Task::AddUser,
        Task::GenerateSshKeys,
        Task::DisableRootLogin,
        Task::PowerManagement,
        Task::Firewall,
        Task::SetupRebootPostInstall,
        Task::SetGitUser,
        Task::RustPackages,
        Task::Vpn,
    ]
}

/// No two tasks share a registered name.
pub proof fn lemma_task_names_distinct(a: Task, b: Task)
    requires
        a != b,
    ensures
        task_name(a) != task_name(b),
{
    reveal_strlit("prepare");
    reveal_strlit("download_base");
    reveal_strlit("base");
    reveal_strlit("base_in_chroot");
    reveal_strlit("bootloader");
    reveal_strlit("bootloader_in_chroot");
    reveal_strlit("setup_reboot_user_system");
    reveal_strlit("reboot");
    reveal_strlit("set_in_qemu_http_proxy");
    reveal_strlit("cleanup_reboot_hook");
    reveal_strlit("systemd_network");
    reveal_strlit("essential_packages");
    reveal_strlit("vga");
    reveal_strlit("audio");
    reveal_strlit("desktop");
    reveal_strlit("desktop_packages");
    reveal_strlit("setup_dotfiles");
    reveal_strlit("codecs");
    reveal_strlit("terminal_packages");
    reveal_strlit("add_user");
    reveal_strlit("generate_ssh_keys");
    reveal_strlit("disable_root_login");
    reveal_strlit("power_management");
    reveal_strlit("firewall");
    reveal_strlit("setup_reboot_post_install");
    reveal_strlit("set_git_user");
    reveal_strlit("rust_packages");
    reveal_strlit("vpn");
    if task_name(a) == task_name(b) {
        assert(task_name(a).len() == task_name(b).len());
        assert(task_name(a)[0] == task_name(b)[0]);
        assert(task_name(a)[1] == task_name(b)[1]);
        assert(task_name(a)[2] == task_name(b)[2]);
    }
}

impl Task {
    /// The name it is registered under.
    pub fn name(&self) -> (r: String)
        ensures
            r@ == task_name(*self),
    {
        match self {
            Task::Prepare => String::from_str("prepare"),
            Task::DownloadBase => String::from_str("download_base"),
            Task::Base => String::from_str("base"),
            Task::BaseInChroot => String::from_str("base_in_chroot"),
            Task::Bootloader => String::from_str("bootloader"),
            Task::BootloaderInChroot => String::from_str("bootloader_in_chroot"),
            Task::SetupRebootUserSystem => String::from_str("setup_reboot_user_system"),
            Task::Reboot => String::from_str("reboot"),
            Task::SetInQemuHttpProxy => String::from_str("set_in_qemu_http_proxy"),
            Task::CleanupRebootHook => String::from_str("cleanup_reboot_hook"),
            Task::SystemdNetwork => String::from_str("systemd_network"),
            Task::EssentialPackages => String::from_str("essential_packages"),
            Task::Vga => String::from_str("vga"),
            Task::Audio => String::from_str("audio"),
            Task::Desktop => String::from_str("desktop"),
            Task::DesktopPackages => String::from_str("desktop_packages"),
            Task::SetupDotfiles => String::from_str("setup_dotfiles"),
            Task::Codecs => String::from_str("codecs"),
            Task::TerminalPackages => String::from_str("terminal_packages"),
            Task::AddUser => String::from_str("add_user"),
            Task::GenerateSshKeys => String::from_str("generate_ssh_keys"),
            Task::DisableRootLogin => String::from_str("disable_root_login"),
            Task::PowerManagement => String::from_str("power_management"),
            Task::Firewall => String::from_str("firewall"),
            Task::SetupRebootPostInstall => String::from_str("setup_reboot_post_install"),
            Task::SetGitUser => String::from_str("set_git_user"),
            Task::RustPackages => String::from_str("rust_packages"),
            Task::Vpn => String::from_str("vpn"),
        }
    }
}

/// A registered task together with the name it is registered under.
#[derive(Clone, Debug)]
pub struct Entry {
    pub name: String,
    pub task: Task,
}

impl Entry {
    pub open spec fn wf(&self) -> bool {
        self.name@ == task_name(self.task)
    }

    pub fn of(task: Task) -> (r: Entry)
        ensures
            r.wf(),
            r.task == task,
    {
        Entry { name: task.name(), task }
    }
}

/// Whether some task of `reg` is registered under `name`.
pub open spec fn registered(reg: Seq<Task>, name: Seq<char>) -> bool {
    exists|i: int| 0 <= i < reg.len() && task_name(#[trigger] reg[i]) == name
}

/// The table from names to tasks, built once and only read afterwards.
pub struct Registry {
    entries: Vec<Entry>,
}

impl View for Registry {
    type V = Seq<Task>;

    closed spec fn view(&self) -> Seq<Task> {
        self.entries@.map_values(|e: Entry| e.task)
    }
}

impl Registry {
    /// Each entry carries its own name and no task is registered twice.
    pub closed spec fn wf(&self) -> bool {
        &&& forall|i: int| 0 <= i < self.entries@.len() ==> (#[trigger] self.entries@[i]).wf()
        &&& forall|i: int, j: int|
            0 <= i < j < self.entries@.len() ==> self.entries@[i].task != self.entries@[j].task
    }

    /// The standard table of every task, in registration order.
    pub fn new() -> (r: Registry)
        ensures
            r.wf(),
            r@ == standard_tasks(),
    {
        let mut entries: Vec<Entry> = Vec::new();
        entries.push(Entry::of(Task::Prepare));
        entries.push(Entry::of(Task::DownloadBase));
        entries.push(Entry::of(Task::Base));
        entries.push(Entry::of(Task::BaseInChroot));
        entries.push(Entry::of(Task::Bootloader));
        entries.push(Entry::of(Task::BootloaderInChroot));
        entries.push(Entry::of(Task::SetupRebootUserSystem));
        entries.push(Entry::of(Task::Reboot));
        entries.push(Entry::of(Task::SetInQemuHttpProxy));
        entries.push(Entry::of(Task::CleanupRebootHook));
        entries.push(Entry::of(Task::SystemdNetwork));
        entries.push(Entry::of(Task::EssentialPackages));
        entries.push(Entry::of(Task::Vga));
        entries.push(Entry::of(Task::Audio));
        entries.push(Entry::of(Task::Desktop));
        entries.push(Entry::of(Task::DesktopPackages));
        entries.push(Entry::of(Task::SetupDotfiles));
        entries.push(Entry::of(Task::Codecs));
        entries.push(Entry::of(Task::TerminalPackages));
        entries.push(Entry::of(Task::AddUser));
        entries.push(Entry::of(Task::GenerateSshKeys));
        entries.push(Entry::of(Task::DisableRootLogin));
        entries.push(Entry::of(Task::PowerManagement));
        entries.push(Entry::of(Task::Firewall));
        entries.push(Entry::of(Task::SetupRebootPostInstall));
        entries.push(Entry::of(Task::SetGitUser));
        entries.push(Entry::of(Task::RustPackages));
        entries.push(Entry::of(Task::Vpn));
        let r = Registry { entries };
        assert(r@ =~= standard_tasks());
        r
    }

    /// No name is registered twice.
    pub proof fn lemma_names_unique(&self)
        requires
            self.wf(),
        ensures
            forall|i: int, j: int|
                0 <= i < j < self@.len() ==> task_name(#[trigger] self@[i]) != task_name(#[trigger] self@[j]),
    {
        assert forall|i: int, j: int| 0 <= i < j < self@.len() implies task_name(#[trigger] self@[i])
            != task_name(#[trigger] self@[j]) by {
            assert(self@[i] == self.entries@[i].task);
            assert(self@[j] == self.entries@[j].task);
            lemma_task_names_distinct(self@[i], self@[j]);
        }
    }

    /// Number of registered tasks.
    pub fn len(&self) -> (r: usize)
        ensures
            r == self@.len(),
    {
        self.entries.len()
    }

    /// The task registered under `name`, or `InvalidTask` naming it.
    pub fn lookup(&self, name: &str) -> (r: Result<Task, InstallError>)
        requires
            self.wf(),
        ensures
            match r {
                Ok(t) => self@.contains(t) && task_name(t) == name@,
                Err(e) => !registered(self@, name@) && (e matches InstallError::InvalidTask(s) && s@ == name@),
            },
    {
        let key = String::from_str(name);
        let mut i: usize = 0;
        while i < self.entries.len()
            invariant
                self.wf(),
                key@ == name@,
                0 <= i <= self.entries@.len(),
                forall|k: int| 0 <= k < i ==> task_name(#[trigger] self@[k]) != name@,
            decreases self.entries@.len() - i,
        {
            if self.entries[i].name == key {
                assert(self@[i as int] == self.entries@[i as int].task);
                return Ok(self.entries[i].task);
            }
            i = i + 1;
        }
        proof {
            assert forall|k: int| 0 <= k < self@.len() implies task_name(#[trigger] self@[k]) != name@ by {}
        }
        Err(InstallError::InvalidTask(key))
    }

    /// Whether a task is registered under `name`.
    pub fn contains(&self, name: &str) -> (r: bool)
        requires
            self.wf(),
        ensures
            r == registered(self@, name@),
    {
        self.lookup(name).is_ok()
    }

    /// Reverse lookup: the name `task` is registered under, if it is registered.
    pub fn name_of(&self, task: Task) -> (r: Option<String>)
        requires
            self.wf(),
        ensures
            match r {
                Some(s) => self@.contains(task) && s@ == task_name(task),
                None => !self@.contains(task),
            },
    {
        let mut i: usize = 0;
        while i < self.entries.len()
            invariant
                self.wf(),
                0 <= i <= self.entries@.len(),
                forall|k: int| 0 <= k < i ==> self@[k] != task,
            decreases self.entries@.len() - i,
        {
            if self.entries[i].task == task {
                assert(self@[i as int] == task);
                return Some(self.entries[i].name.clone());
            }
            i = i + 1;
        }
        None
    }

    /// The registered names, in registration order.
    pub fn names(&self) -> (r: Vec<String>)
        requires
            self.wf(),
        ensures
            r@.len() == self@.len(),
            forall|i: int| 0 <= i < r@.len() ==> (#[trigger] r@[i])@ == task_name(self@[i]),
    {
        let mut out: Vec<String> = Vec::new();
        let mut i: usize = 0;
        while i < self.entries.len()
            invariant
                self.wf(),
                0 <= i <= self.entries@.len(),
                out@.len() == i,
                forall|k: int| 0 <= k < i ==> (#[trigger] out@[k])@ == task_name(self@[k]),
            decreases self.entries@.len() - i,
        {
            out.push(self.entries[i].name.clone());
            i = i + 1;
        }
        out
    }
}

/// Looking the same name up twice gives the same task: the registry is a
/// function from names to tasks.
pub proof fn lemma_lookup_is_stable(reg: Seq<Task>, name: Seq<char>, t1: Task, t2: Task)
    requires
        reg.contains(t1),
        reg.contains(t2),
        task_name(t1) == name,
        task_name(t2) == name,
    ensures
        t1 == t2,
{
    if t1 != t2 {
        lemma_task_names_distinct(t1, t2);
    }
}

} // verus!
