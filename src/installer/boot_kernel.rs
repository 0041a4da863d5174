//! The tasks that prepare the disks and install the base system.
use crate::command::{command, described, plain, InvocationView, ModeView};
use crate::config::Config;
use crate::crossing::{
    chroot_continuation,
    chroot_crossing,
    chroot_plan,
    host_dir,
    relaunch_line,
    stage_self,
    staging_plan,
    Continuation,
    ContinuationView,
    Selector,
};
use crate::installer::pacman_install;
use crate::plan::{Plan, Step, StepView};
use crate::tasks::{task_name, Task};
use vstd::prelude::*;
use vstd::string::*;

verus! {

pub open spec fn download_base_plan() -> Seq<StepView> {
    seq![
        StepView::Exec(
            described(
                "pacstrap"@,
                seq!["/mnt"@, "base"@, "linux"@, "linux-firmware"@],
                "installing essential packages"@,
            ),
        ),
    ]
}

/// Install the base system into the mounted target.
pub fn download_base(_config: &Config) -> (r: Plan)
    ensures
        r@ == download_base_plan(),
{
    let mut p = Plan::new();
    let c = command("pacstrap", vec!["/mnt", "base", "linux", "linux-firmware"])
        .desc("installing essential packages").run();
    assert(c@.args =~= seq!["/mnt"@, "base"@, "linux"@, "linux-firmware"@]);
    p.add(Step::Exec(c));
    assert(p@ =~= download_base_plan());
    p
}

pub open spec fn base_plan(config: Config) -> Seq<StepView> {
    seq![
        StepView::Exec(
            InvocationView {
                program: "genfstab"@,
                args: seq!["-U"@, "/mnt"@],
                description: Some("Generating fstab"@),
                stdin: None,
                mode: ModeView::ToFile("/mnt/etc/fstab"@),
            },
        ),
    ]
        + chroot_plan(config.path@, chroot_continuation(task_name(Task::BaseInChroot)))
}

/// Write the target's fstab, then finish the base setup inside the target.
pub fn base(config: &Config) -> (r: Plan)
    ensures
        r@ == base_plan(*config),
{
    let mut p = Plan::new();
    let c = command("genfstab", vec!["-U", "/mnt"])
        .desc("Generating fstab").to_file("/mnt/etc/fstab");
    assert(c@.args =~= seq!["-U"@, "/mnt"@]);
    p.add(Step::Exec(c));
    p.extend(chroot_crossing(config, Task::BaseInChroot));
    assert(p@ =~= base_plan(*config));
    p
}

pub open spec fn base_in_chroot_plan() -> Seq<StepView> {
    seq![
        StepView::Exec(
            described(
                "ln"@,
                seq!["-sf"@, "/usr/share/zoneinfo/Europe/Moscow"@, "/etc/localtime"@],
                "setting timezone"@,
            ),
        ),
        StepView::Exec(described("timedatectl"@, seq!["set-ntp"@, "true"@], "enable ntp"@)),
        StepView::Exec(
            described(
                "hwclock"@,
                seq!["--systohc"@],
                "setting Hardware Clock from Software Clock"@,
            ),
        ),
        StepView::Exec(described("locale-gen"@, seq![], "generating locale"@)),
        StepView::WriteFile { path: "/etc/hostname"@, content: "wpc"@ },
        StepView::AppendFile { path: "/etc/hosts"@, line: "127.0.0.1\tlocalhost"@ },
        StepView::AppendFile { path: "/etc/hosts"@, line: "::1\t\tlocalhost"@ },
        StepView::AppendFile { path: "/etc/hosts"@, line: "127.0.1.1\twpc.localdomain\twpc"@ },
        StepView::Exec(pacman_install(seq!["intel-ucode"@], "install intel microcode"@)),
    ]
}

/// Time zone, clock, locale, host name and microcode, run inside the target.
pub fn base_in_chroot(_config: &Config) -> (r: Plan)
    ensures
        r@ == base_in_chroot_plan(),
{
    let mut p = Plan::new();
    let c = command("ln", vec!["-sf", "/usr/share/zoneinfo/Europe/Moscow", "/etc/localtime"])
        .desc("setting timezone").run();
    assert(c@.args =~= seq!["-sf"@, "/usr/share/zoneinfo/Europe/Moscow"@, "/etc/localtime"@]);
    p.add(Step::Exec(c));
    let c = command("timedatectl", vec!["set-ntp", "true"]).desc("enable ntp").run();
    assert(c@.args =~= seq!["set-ntp"@, "true"@]);
    p.add(Step::Exec(c));
    let c = command("hwclock", vec!["--systohc"])
        .desc("setting Hardware Clock from Software Clock").run();
    assert(c@.args =~= seq!["--systohc"@]);
    p.add(Step::Exec(c));
    let c = command("locale-gen", vec![]).desc("generating locale").run();
    assert(c@.args =~= seq![]);
    p.add(Step::Exec(c));
    p.add(Step::WriteFile {
        path: String::from_str("/etc/hostname"),
        content: String::from_str("wpc"),
    });
    p.add(Step::AppendFile {
        path: String::from_str("/etc/hosts"),
        line: String::from_str("127.0.0.1\tlocalhost"),
    });
    p.add(Step::AppendFile {
        path: String::from_str("/etc/hosts"),
        line: String::from_str("::1\t\tlocalhost"),
    });
    p.add(Step::AppendFile {
        path: String::from_str("/etc/hosts"),
        line: String::from_str("127.0.1.1\twpc.localdomain\twpc"),
    });
    let c = command("pacman", vec!["--noconfirm", "-S", "intel-ucode"])
        .desc("install intel microcode").run();
    assert(c@.args =~= seq!["--noconfirm"@, "-S"@] + seq!["intel-ucode"@]);
    p.add(Step::Exec(c));
    assert(p@ =~= base_in_chroot_plan());
    p
}

pub open spec fn bootloader_plan(config: Config) -> Seq<StepView> {
    chroot_plan(config.path@, chroot_continuation(task_name(Task::BootloaderInChroot)))
}

/// Install the boot loader from inside the target.
pub fn bootloader(config: &Config) -> (r: Plan)
    ensures
        r@ == bootloader_plan(*config),
{
    let mut p = Plan::new();
    p.extend(chroot_crossing(config, Task::BootloaderInChroot));
    assert(p@ =~= bootloader_plan(*config));
    p
}

pub open spec fn bootloader_in_chroot_plan() -> Seq<StepView> {
    seq![
        StepView::Exec(pacman_install(seq!["grub"@, "efibootmgr"@], "install grub"@)),
        StepView::Exec(
            described(
                "grub-install"@,
                seq![
                    "--debug"@,
                    "--target=x86_64-efi"@,
                    "--efi-directory=/efi"@,
                    "--bootloader-id=GRUB"@,
                ],
                "Install bootloader (Grub) in UEFI mode"@,
            ),
        ),
        StepView::Exec(
            described(
                "grub-mkconfig"@,
                seq!["-o"@, "/boot/grub/grub.cfg"@],
                "Generating grub config"@,
            ),
        ),
    ]
}

/// Install and configure GRUB in UEFI mode, run inside the target.
pub fn bootloader_in_chroot(_config: &Config) -> (r: Plan)
    ensures
        r@ == bootloader_in_chroot_plan(),
{
    let mut p = Plan::new();
    let c = command("pacman", vec!["--noconfirm", "-S", "grub", "efibootmgr"])
        .desc("install grub").run();
    assert(c@.args =~= seq!["--noconfirm"@, "-S"@] + seq!["grub"@, "efibootmgr"@]);
    p.add(Step::Exec(c));
    let c = command(
        "grub-install",
        vec!["--debug", "--target=x86_64-efi", "--efi-directory=/efi", "--bootloader-id=GRUB"],
    ).desc("Install bootloader (Grub) in UEFI mode").run();
    assert(c@.args =~= seq![
        "--debug"@,
        "--target=x86_64-efi"@,
        "--efi-directory=/efi"@,
        "--bootloader-id=GRUB"@,
    ]);
    p.add(Step::Exec(c));
    let c = command("grub-mkconfig", vec!["-o", "/boot/grub/grub.cfg"])
        .desc("Generating grub config").run();
    assert(c@.args =~= seq!["-o"@, "/boot/grub/grub.cfg"@]);
    p.add(Step::Exec(c));
    assert(p@ =~= bootloader_in_chroot_plan());
    p
}

pub open spec fn prepare_plan(config: Config) -> Seq<StepView> {
    seq![
        StepView::Confirm("Are you connected to Internet"@),
        StepView::Confirm("Do you have your disks setup?"@),
        StepView::Exec(described("ip"@, seq!["link"@], "Current network settings"@)),
        StepView::Exec(
            described(
                "timedatectl"@,
                seq!["set-ntp"@, "true"@],
                "Updating system clock"@,
            ),
        ),
        StepView::Note("Your disks:"@),
        StepView::Exec(plain("fdisk"@, seq!["-l"@])),
        StepView::Confirm("using \""@ + config.installer.boot_disk@ + "\" as boot disk and \""@ + config.installer.system_disk@ + "\" as system disk, correct?"@),
        StepView::Exec(
            described(
                "mkfs.fat"@,
                seq!["-F32"@, config.installer.boot_disk@],
                "formatting boot disk"@,
            ),
        ),
        StepView::Exec(
            described(
                "mkfs.ext4"@,
                seq![config.installer.system_disk@],
                "formatting system disk"@,
            ),
        ),
        StepView::Note("mounting disks"@),
        StepView::Exec(plain("mount"@, seq![config.installer.system_disk@, "/mnt"@])),
        StepView::Exec(plain("mkdir"@, seq!["-p"@, "/mnt/efi"@])),
        StepView::Exec(plain("mount"@, seq![config.installer.boot_disk@, "/mnt/efi"@])),
    ]
}

/// Confirm with the operator, then format and mount the disks.
pub fn prepare(config: &Config) -> (r: Plan)
    ensures
        r@ == prepare_plan(*config),
{
    let mut p = Plan::new();
    p.add(Step::Confirm(String::from_str("Are you connected to Internet")));
    p.add(Step::Confirm(String::from_str("Do you have your disks setup?")));
    let c = command("ip", vec!["link"]).desc("Current network settings").run();
    assert(c@.args =~= seq!["link"@]);
    p.add(Step::Exec(c));
    let c = command("timedatectl", vec!["set-ntp", "true"]).desc("Updating system clock").run();
    assert(c@.args =~= seq!["set-ntp"@, "true"@]);
    p.add(Step::Exec(c));
    p.add(Step::Note(String::from_str("Your disks:")));
    let c = command("fdisk", vec!["-l"]).run();
    assert(c@.args =~= seq!["-l"@]);
    p.add(Step::Exec(c));
    let question = String::from_str("using \"")
        .concat(config.installer.boot_disk.as_str())
        .concat("\" as boot disk and \"")
        .concat(config.installer.system_disk.as_str())
        .concat("\" as system disk, correct?");
    p.add(Step::Confirm(question));
    let c = command("mkfs.fat", vec!["-F32", config.installer.boot_disk.as_str()])
        .desc("formatting boot disk").run();
    assert(c@.args =~= seq!["-F32"@, config.installer.boot_disk@]);
    p.add(Step::Exec(c));
    let c = command("mkfs.ext4", vec![config.installer.system_disk.as_str()])
        .desc("formatting system disk").run();
    assert(c@.args =~= seq![config.installer.system_disk@]);
    p.add(Step::Exec(c));
    p.add(Step::Note(String::from_str("mounting disks")));
    let c = command("mount", vec![config.installer.system_disk.as_str(), "/mnt"]).run();
    assert(c@.args =~= seq![config.installer.system_disk@, "/mnt"@]);
    p.add(Step::Exec(c));
    let c = command("mkdir", vec!["-p", "/mnt/efi"]).run();
    assert(c@.args =~= seq!["-p"@, "/mnt/efi"@]);
    p.add(Step::Exec(c));
    let c = command("mount", vec![config.installer.boot_disk.as_str(), "/mnt/efi"]).run();
    assert(c@.args =~= seq![config.installer.boot_disk@, "/mnt/efi"@]);
    p.add(Step::Exec(c));
    assert(p@ =~= prepare_plan(*config));
    p
}

pub open spec fn reboot_plan() -> Seq<StepView> {
    seq![StepView::Exec(described("reboot"@, seq!["-h"@, "now"@], "rebooting"@))]
}

/// Reboot the machine.
pub fn reboot(_config: &Config) -> (r: Plan)
    ensures
        r@ == reboot_plan(),
{
    let mut p = Plan::new();
    let c = command("reboot", vec!["-h", "now"]).desc("rebooting").run();
    assert(c@.args =~= seq!["-h"@, "now"@]);
    p.add(Step::Exec(c));
    assert(p@ =~= reboot_plan());
    p
}


/// Where the user-system stage continues after the reboot.
pub open spec fn user_system_continuation() -> ContinuationView {
    ContinuationView { root: "/mnt"@, staging: "/root/installer"@, task: false, name: "user_system"@ }
}

pub open spec fn setup_reboot_user_system_plan(config: Config) -> Seq<StepView> {
    let c = user_system_continuation();
    staging_plan(config.path@, host_dir(c)) + seq![
        StepView::WriteFile { path: "/mnt/root/continue_install.sh"@, content: relaunch_line(c) },
        StepView::Exec(plain("chmod"@, seq!["+x"@, "/mnt/root/continue_install.sh"@])),
    ]
}

/// Stage this program in the target, with a script that runs the user-system
/// stage after the reboot.
pub fn setup_reboot_user_system(config: &Config) -> (r: Plan)
    ensures
        r@ == setup_reboot_user_system_plan(*config),
{
    let cont = Continuation {
        root: String::from_str("/mnt"),
        staging: String::from_str("/root/installer"),
        selector: Selector::Stage(String::from_str("user_system")),
    };
    let dir = cont.host_dir();
    let mut p = stage_self(config.path.as_str(), dir.as_str());
    p.add(Step::WriteFile {
        path: String::from_str("/mnt/root/continue_install.sh"),
        content: cont.relaunch_line(),
    });
    let c = command("chmod", vec!["+x", "/mnt/root/continue_install.sh"]).run();
    assert(c@.args =~= seq!["+x"@, "/mnt/root/continue_install.sh"@]);
    p.add(Step::Exec(c));
    assert(p@ =~= setup_reboot_user_system_plan(*config));
    p
}

} // verus!
