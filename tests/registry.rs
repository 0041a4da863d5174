use archinstaller::config::Stages;
use archinstaller::crossing::with_chroot;
use archinstaller::engine::stage_tasks;
use archinstaller::error::InstallError;
use archinstaller::tasks::{Registry, Task};

#[test]
fn lookup_same_name_twice_gives_same_task() {
    let reg = Registry::new();
    let a = reg.lookup("base_in_chroot").unwrap();
    let b = reg.lookup("base_in_chroot").unwrap();
    assert_eq!(a, Task::BaseInChroot);
    assert_eq!(a, b);
}

#[test]
fn registry_holds_every_task_once() {
    let reg = Registry::new();
    assert_eq!(reg.len(), 28);
    let names = reg.names();
    assert_eq!(names.len(), 28);
    assert_eq!(names[0], "prepare");
    assert_eq!(names[27], "vpn");
    for (i, a) in names.iter().enumerate() {
        for b in names.iter().skip(i + 1) {
            assert_ne!(a, b);
        }
        assert_eq!(reg.lookup(a).unwrap().name(), *a);
    }
}

#[test]
fn lookup_unknown_name_is_invalid_task() {
    let reg = Registry::new();
    assert_eq!(reg.lookup("format_everything"), Err(InstallError::InvalidTask("format_everything".to_string())));
    assert!(!reg.contains("format_everything"));
    assert!(reg.contains("vga"));
}

#[test]
fn reverse_lookup_gives_registered_name() {
    let reg = Registry::new();
    assert_eq!(reg.name_of(Task::SetupDotfiles), Some("setup_dotfiles".to_string()));
    assert_eq!(Task::RustPackages.name(), "rust_packages");
}

#[test]
fn unknown_stage_is_invalid_stage() {
    let mut stages = Stages::new();
    stages.add("base".to_string(), vec![Task::Prepare]).unwrap();
    assert_eq!(stage_tasks(&stages, "user"), Err(InstallError::InvalidStage("user".to_string())));
    assert_eq!(stage_tasks(&stages, "base"), Ok(vec![Task::Prepare]));
}

#[test]
fn chroot_into_unknown_task_is_refused() {
    let reg = Registry::new();
    let cfg = archinstaller::config::Config::default();
    match with_chroot(&reg, &cfg, "no_such_task") {
        Err(InstallError::InvalidTask(n)) => assert_eq!(n, "no_such_task"),
        _ => panic!("expected InvalidTask"),
    }
    let plan = with_chroot(&reg, &cfg, "base_in_chroot").unwrap();
    assert_eq!(plan.steps.len(), 5);
}

#[test]
fn stages_add_refuses_a_repeated_name() {
    let mut stages = Stages::new();
    assert_eq!(stages.add("one".to_string(), vec![Task::Prepare]), Ok(()));
    assert_eq!(stages.add("two".to_string(), vec![Task::Base]), Ok(()));
    assert_eq!(
        stages.add("one".to_string(), vec![Task::Reboot, Task::Vga]),
        Err(InstallError::InvalidConfig("one".to_string()))
    );
    assert_eq!(stages.names(), vec!["one".to_string(), "two".to_string()]);
    assert_eq!(stages.get("one"), Some(vec![Task::Prepare]));
    assert_eq!(stages.get("two"), Some(vec![Task::Base]));
    assert_eq!(stages.get("three"), None);
    assert!(stages.contains("two"));
}
