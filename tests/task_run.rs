use archinstaller::config::Config;
use archinstaller::env::EnvTable;
use archinstaller::error::InstallError;
use archinstaller::installer::plan_of;
use archinstaller::installer::user_system::{essential_packages, systemd_network, vga};
use archinstaller::installer::{boot_kernel, post_install};
use archinstaller::plan::{Action, Event, Plan};
use archinstaller::runner::TaskRun;
use archinstaller::tasks::Task;

fn config() -> Config {
    let mut c = Config::default();
    c.path = "/root/inst.toml".to_string();
    c.user.name = "erz".to_string();
    c
}

fn start(plan: Plan) -> TaskRun {
    TaskRun::new(plan, EnvTable::new())
}

fn finish_of(run: &TaskRun) -> Result<(), InstallError> {
    match run.next_action() {
        Action::Finish(r) => r,
        other => panic!("expected the end, got {:?}", other),
    }
}

#[test]
fn empty_capture_to_file_fails_without_writing() {
    let cfg = config();
    let mut run = start(boot_kernel::base(&cfg));
    assert!(matches!(run.next_action(), Action::Note(ref n) if n == "--- starting  --- Generating fstab"));
    run.record(Event::Done);
    match run.next_action() {
        Action::Spawn { invocation, .. } => assert_eq!(invocation.program, "genfstab"),
        other => panic!("unexpected {:?}", other),
    }
    run.record(Event::Captured { status: 0, output: vec![] });
    // the crossing never began, so nothing of it runs, not even its cleanup
    assert_eq!(finish_of(&run), Err(InstallError::EmptyResponse));
}

#[test]
fn nonempty_capture_is_written_to_the_file() {
    let cfg = config();
    let mut run = start(boot_kernel::base(&cfg));
    run.record(Event::Done);
    run.record(Event::Captured { status: 0, output: b"UUID=1 / ext4".to_vec() });
    match run.next_action() {
        Action::WriteBytes { path, bytes } => {
            assert_eq!(path, "/mnt/etc/fstab");
            assert_eq!(bytes, b"UUID=1 / ext4".to_vec());
        },
        other => panic!("unexpected {:?}", other),
    }
    run.record(Event::Done);
    assert!(matches!(run.next_action(), Action::Note(ref n) if n == "--- done --- Generating fstab"));
}

#[test]
fn chroot_crossing_stages_then_cleans_up_after_failure() {
    let cfg = config();
    let mut run = start(boot_kernel::bootloader(&cfg));
    assert!(matches!(run.next_action(), Action::CreateDir(ref p) if p == "/mnt/_chroot_install"));
    run.record(Event::Done);
    match run.next_action() {
        Action::CopyFile { from, to } => {
            assert_eq!(from, "/root/inst.toml");
            assert_eq!(to, "/mnt/_chroot_install/config.yaml");
        },
        other => panic!("unexpected {:?}", other),
    }
    run.record(Event::Done);
    assert!(matches!(run.next_action(), Action::CopySelf(ref p) if p == "/mnt/_chroot_install/archinstaller"));
    run.record(Event::Done);
    assert!(matches!(run.next_action(), Action::Note(ref n) if n == "--- starting  --- chrooting for task bootloader_in_chroot"));
    run.record(Event::Done);
    match run.next_action() {
        Action::Spawn { invocation, .. } => {
            assert_eq!(invocation.program, "arch-chroot");
            assert_eq!(
                invocation.args,
                vec!["/mnt", "/_chroot_install/archinstaller", "task", "bootloader_in_chroot", "--config", "/_chroot_install/config.yaml"]
            );
        },
        other => panic!("unexpected {:?}", other),
    }
    run.record(Event::Exited(1));
    assert!(matches!(run.next_action(), Action::RemoveDir(ref p) if p == "/mnt/_chroot_install"));
    run.record(Event::Done);
    assert_eq!(finish_of(&run), Err(InstallError::CommandFailed(1)));
}

#[test]
fn chroot_crossing_cleans_up_after_success() {
    let cfg = config();
    let mut run = start(boot_kernel::bootloader(&cfg));
    for _ in 0..4 {
        run.record(Event::Done);
    }
    run.record(Event::Exited(0));
    assert!(matches!(run.next_action(), Action::Note(ref n) if n == "--- done --- chrooting for task bootloader_in_chroot"));
    run.record(Event::Done);
    assert!(matches!(run.next_action(), Action::RemoveDir(_)));
    run.record(Event::Done);
    assert!(run.is_finished());
    assert_eq!(finish_of(&run), Ok(()));
}

#[test]
fn failed_copy_skips_nested_run_but_cleans_up() {
    let cfg = config();
    let mut run = start(boot_kernel::bootloader(&cfg));
    run.record(Event::Done);
    run.record(Event::Failed(InstallError::IoError("disk full".to_string())));
    assert!(matches!(run.next_action(), Action::RemoveDir(_)));
    run.record(Event::Failed(InstallError::IoError("busy".to_string())));
    assert_eq!(finish_of(&run), Err(InstallError::IoError("disk full".to_string())));
}

#[test]
fn env_set_by_one_task_reaches_next_command() {
    let cfg = config();
    let first = TaskRun::new(plan_of(Task::SetInQemuHttpProxy, &cfg), EnvTable::new());
    assert_eq!(finish_of(&first), Ok(()));
    let env = first.into_env();
    assert_eq!(env.get("http_proxy"), Some("http://10.0.2.2:3128".to_string()));
    let mut second = TaskRun::new(plan_of(Task::Reboot, &cfg), env);
    assert!(matches!(second.next_action(), Action::Note(_)));
    second.record(Event::Done);
    match second.next_action() {
        Action::Spawn { invocation, env } => {
            assert_eq!(invocation.program, "reboot");
            assert!(env.contains(&("http_proxy".to_string(), "http://10.0.2.2:3128".to_string())));
        },
        other => panic!("unexpected {:?}", other),
    }
}

#[test]
fn path_is_extended_for_later_commands() {
    let cfg = config();
    let mut env = EnvTable::new();
    env.set("PATH", "/usr/bin");
    let mut run = TaskRun::new(post_install::rust_packages(&cfg), env);
    // curl, chmod, rustup (each described or not), then the script is removed
    let mut spawns = 0;
    while spawns < 3 {
        if let Action::Spawn { .. } = run.next_action() {
            spawns += 1;
            run.record(Event::Exited(0));
        } else {
            run.record(Event::Done);
        }
    }
    assert!(matches!(run.next_action(), Action::Note(_)));
    run.record(Event::Done);
    assert!(matches!(run.next_action(), Action::RemoveFile(ref p) if p == "/home/erz/rustup.sh"));
    run.record(Event::Done);
    match run.next_action() {
        Action::Spawn { invocation, env } => {
            assert_eq!(invocation.program, "cargo");
            assert!(env.contains(&("PATH".to_string(), "/usr/bin:/home/erz/.cargo/bin".to_string())));
        },
        other => panic!("unexpected {:?}", other),
    }
}

#[test]
fn declined_confirmation_ends_task_with_decline() {
    let cfg = config();
    let mut run = start(boot_kernel::prepare(&cfg));
    assert!(matches!(run.next_action(), Action::Confirm(ref q) if q == "Are you connected to Internet"));
    run.record(Event::Answer(false));
    assert_eq!(finish_of(&run), Err(InstallError::Decline));
}

#[test]
fn disk_confirmation_names_both_disks() {
    let cfg = config();
    let plan = boot_kernel::prepare(&cfg);
    let texts: Vec<String> = plan
        .steps
        .iter()
        .filter_map(|s| match s {
            archinstaller::plan::Step::Confirm(q) => Some(q.clone()),
            _ => None,
        })
        .collect();
    assert_eq!(texts[2], "using \"/dev/sdXn\" as boot disk and \"/dev/sdXn\" as system disk, correct?");
}

#[test]
fn vga_picks_nvidia_driver_when_listed() {
    let cfg = config();
    let mut run = start(vga(&cfg));
    run.record(Event::Printed { status: 0, text: "01:00.0 VGA compatible controller: NVIDIA Corporation".to_string() });
    assert!(matches!(run.next_action(), Action::Note(ref n) if n == "--- starting  --- install Nvidia drivers"));
    run.record(Event::Done);
    match run.next_action() {
        Action::Spawn { invocation, .. } => assert_eq!(invocation.args, vec!["--noconfirm", "-S", "nvidia", "nvidia-settings"]),
        other => panic!("unexpected {:?}", other),
    }
}

#[test]
fn vga_picks_generic_driver_otherwise() {
    let cfg = config();
    let mut run = start(vga(&cfg));
    run.record(Event::Printed { status: 0, text: "00:02.0 VGA compatible controller: Intel".to_string() });
    run.record(Event::Done);
    match run.next_action() {
        Action::Spawn { invocation, .. } => assert_eq!(invocation.args, vec!["--noconfirm", "-S", "xf86-video-vesa"]),
        other => panic!("unexpected {:?}", other),
    }
}

#[test]
fn network_wait_gives_up_after_its_attempts() {
    let cfg = config();
    let mut run = start(systemd_network(&cfg));
    // the network file, then two described commands
    run.record(Event::Done);
    for _ in 0..2 {
        run.record(Event::Done);
        run.record(Event::Exited(0));
        run.record(Event::Done);
    }
    let mut probes = 0;
    while !run.is_finished() {
        match run.next_action() {
            Action::Note(n) => {
                assert_eq!(n, "waiting for network");
                run.record(Event::Done);
            },
            Action::Spawn { invocation, .. } => {
                assert_eq!(invocation.program, "ip");
                probes += 1;
                run.record(Event::Printed { status: 0, text: "2: enp0s3: state DOWN".to_string() });
            },
            Action::Sleep(secs) => {
                assert_eq!(secs, 1);
                run.record(Event::Done);
            },
            other => panic!("unexpected {:?}", other),
        }
    }
    assert_eq!(probes, 10);
    assert_eq!(finish_of(&run), Err(InstallError::WaitExhausted));
}

#[test]
fn network_wait_stops_once_link_is_up() {
    let cfg = config();
    let mut run = start(systemd_network(&cfg));
    run.record(Event::Done);
    for _ in 0..2 {
        run.record(Event::Done);
        run.record(Event::Exited(0));
        run.record(Event::Done);
    }
    run.record(Event::Done);
    run.record(Event::Printed { status: 0, text: "2: enp0s3: <UP> mtu 1500 state UP".to_string() });
    assert_eq!(finish_of(&run), Ok(()));
}

#[test]
fn nonzero_exit_is_command_failed() {
    let cfg = config();
    let mut run = start(essential_packages(&cfg));
    run.record(Event::Done);
    run.record(Event::Exited(3));
    assert_eq!(finish_of(&run), Err(InstallError::CommandFailed(3)));
}

#[test]
fn hosts_lines_are_appended_on_new_lines() {
    let cfg = config();
    let mut run = start(boot_kernel::base_in_chroot(&cfg));
    for _ in 0..4 {
        run.record(Event::Done);
        run.record(Event::Exited(0));
        run.record(Event::Done);
    }
    match run.next_action() {
        Action::WriteFile { path, content, append } => {
            assert_eq!(path, "/etc/hostname");
            assert_eq!(content, "wpc");
            assert!(!append);
        },
        other => panic!("unexpected {:?}", other),
    }
    run.record(Event::Done);
    match run.next_action() {
        Action::WriteFile { path, content, append } => {
            assert_eq!(path, "/etc/hosts");
            assert_eq!(content, "\n127.0.0.1\tlocalhost");
            assert!(append);
        },
        other => panic!("unexpected {:?}", other),
    }
}

#[test]
fn vpn_is_not_implemented() {
    let cfg = config();
    let run = start(post_install::vpn(&cfg));
    assert_eq!(finish_of(&run), Err(InstallError::NotImplemented));
}

#[test]
fn empty_tasks_succeed_at_once() {
    let cfg = config();
    assert_eq!(finish_of(&start(plan_of(Task::Codecs, &cfg))), Ok(()));
    assert_eq!(finish_of(&start(plan_of(Task::CleanupRebootHook, &cfg))), Ok(()));
}

#[test]
fn every_registered_task_has_a_plan() {
    let cfg = config();
    let reg = archinstaller::tasks::Registry::new();
    for name in reg.names() {
        let task = reg.lookup(&name).unwrap();
        let plan = plan_of(task, &cfg);
        let empty = matches!(task, Task::Codecs | Task::CleanupRebootHook);
        assert_eq!(plan.steps.is_empty(), empty, "{}", name);
    }
}

#[test]
fn reboot_staging_writes_continuation_script() {
    let cfg = config();
    let plan = boot_kernel::setup_reboot_user_system(&cfg);
    assert!(matches!(&plan.steps[0], archinstaller::plan::Step::CreateDir(p) if p == "/mnt/root/installer"));
    assert!(matches!(&plan.steps[1], archinstaller::plan::Step::CopyFile { from, to }
        if from == "/root/inst.toml" && to == "/mnt/root/installer/config.yaml"));
    assert!(matches!(&plan.steps[2], archinstaller::plan::Step::CopySelf(p) if p == "/mnt/root/installer/archinstaller"));
    match &plan.steps[3] {
        archinstaller::plan::Step::WriteFile { path, content } => {
            assert_eq!(path, "/mnt/root/continue_install.sh");
            assert_eq!(content, "/root/installer/archinstaller stage user_system --config /root/installer/config.yaml");
        },
        other => panic!("unexpected {:?}", other),
    }
}

#[test]
fn failed_staging_directory_is_not_removed() {
    let cfg = config();
    let mut run = start(boot_kernel::bootloader(&cfg));
    assert!(matches!(run.next_action(), Action::CreateDir(_)));
    run.record(Event::Failed(InstallError::IoError("read-only".to_string())));
    assert_eq!(finish_of(&run), Err(InstallError::IoError("read-only".to_string())));
}

#[test]
fn captured_text_is_kept_as_last_output() {
    let mut plan = Plan::new();
    plan.add(archinstaller::plan::Step::Exec(archinstaller::command::command("ip", vec!["link"]).to_string()));
    let mut run = start(plan);
    assert_eq!(run.last_output(), "");
    match run.next_action() {
        Action::Spawn { invocation, .. } => assert_eq!(invocation.program, "ip"),
        other => panic!("unexpected {:?}", other),
    }
    run.record(Event::Printed { status: 0, text: "1: lo: <LOOPBACK,UP>".to_string() });
    assert_eq!(finish_of(&run), Ok(()));
    assert_eq!(run.last_output(), "1: lo: <LOOPBACK,UP>");
}
