//! The provisioning tasks: each builds the plan of steps it performs.

pub mod boot_kernel;
pub mod post_install;
pub mod user_system;

use crate::command::{described, InvocationView};
use crate::config::Config;
use crate::plan::{Plan, StepView};
use crate::tasks::Task;
use vstd::prelude::*;

verus! {

/// `pacman --noconfirm -S` with the given packages, described as `desc`.
pub open spec fn pacman_install(pkgs: Seq<Seq<char>>, desc: Seq<char>) -> InvocationView {
    described("pacman"@, seq!["--noconfirm"@, "-S"@] + pkgs, desc)
}

/// The plan of `task` for the configuration `config`.
pub open spec fn task_plan(task: Task, config: Config) -> Seq<StepView> {
    match task {
        Task::DownloadBase => boot_kernel::download_base_plan(),
        Task::Base => boot_kernel::base_plan(config),
        Task::BaseInChroot => boot_kernel::base_in_chroot_plan(),
        Task::Bootloader => boot_kernel::bootloader_plan(config),
        Task::BootloaderInChroot => boot_kernel::bootloader_in_chroot_plan(),
        Task::Prepare => boot_kernel::prepare_plan(config),
        Task::SetupRebootUserSystem => boot_kernel::setup_reboot_user_system_plan(config),
        Task::Reboot => boot_kernel::reboot_plan(),
        Task::SetInQemuHttpProxy => user_system::set_in_qemu_http_proxy_plan(),
        Task::SystemdNetwork => user_system::systemd_network_plan(),
        Task::EssentialPackages => user_system::essential_packages_plan(),
        Task::Vga => user_system::vga_plan(),
        Task::Audio => user_system::audio_plan(),
        Task::TerminalPackages => user_system::terminal_packages_plan(),
        Task::Codecs => user_system::codecs_plan(),
        Task::Desktop => user_system::desktop_plan(),
        Task::SetupDotfiles => user_system::setup_dotfiles_plan(config),
        Task::DesktopPackages => user_system::desktop_packages_plan(),
        Task::AddUser => user_system::add_user_plan(config),
        Task::CleanupRebootHook => user_system::cleanup_reboot_hook_plan(),
        Task::GenerateSshKeys => user_system::generate_ssh_keys_plan(config),
        Task::DisableRootLogin => user_system::disable_root_login_plan(),
        Task::PowerManagement => user_system::power_management_plan(),
        Task::Firewall => user_system::firewall_plan(),
        Task::SetupRebootPostInstall => user_system::setup_reboot_post_install_plan(config),
        Task::SetGitUser => post_install::set_git_user_plan(config),
        Task::RustPackages => post_install::rust_packages_plan(config),
        Task::Vpn => post_install::vpn_plan(),
    }
}

/// Build the plan of `task` for the configuration `config`.
pub fn plan_of(task: Task, config: &Config) -> (r: Plan)
    ensures
        r@ == task_plan(task, *config),
{
    match task {
        Task::DownloadBase => boot_kernel::download_base(config),
        Task::Base => boot_kernel::base(config),
        Task::BaseInChroot => boot_kernel::base_in_chroot(config),
        Task::Bootloader => boot_kernel::bootloader(config),
        Task::BootloaderInChroot => boot_kernel::bootloader_in_chroot(config),
        Task::Prepare => boot_kernel::prepare(config),
        Task::SetupRebootUserSystem => boot_kernel::setup_reboot_user_system(config),
        Task::Reboot => boot_kernel::reboot(config),
        Task::SetInQemuHttpProxy => user_system::set_in_qemu_http_proxy(config),
        Task::SystemdNetwork => user_system::systemd_network(config),
        Task::EssentialPackages => user_system::essential_packages(config),
        Task::Vga => user_system::vga(config),
        Task::Audio => user_system::audio(config),
        Task::TerminalPackages => user_system::terminal_packages(config),
        Task::Codecs => user_system::codecs(config),
        Task::Desktop => user_system::desktop(config),
        Task::SetupDotfiles => user_system::setup_dotfiles(config),
        Task::DesktopPackages => user_system::desktop_packages(config),
        Task::AddUser => user_system::add_user(config),
        Task::CleanupRebootHook => user_system::cleanup_reboot_hook(config),
        Task::GenerateSshKeys => user_system::generate_ssh_keys(config),
        Task::DisableRootLogin => user_system::disable_root_login(config),
        Task::PowerManagement => user_system::power_management(config),
        Task::Firewall => user_system::firewall(config),
        Task::SetupRebootPostInstall => user_system::setup_reboot_post_install(config),
        Task::SetGitUser => post_install::set_git_user(config),
        Task::RustPackages => post_install::rust_packages(config),
        Task::Vpn => post_install::vpn(config),
    }
}

} // verus!
