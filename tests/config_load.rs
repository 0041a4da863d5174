use archinstaller::config::{
    device_path, existing_file, join_path, load_config, Config, DeviceCheck, RawConfig, RawStage, User,
};
use archinstaller::error::InstallError;
use archinstaller::tasks::{Registry, Task};

fn user() -> User {
    User {
        name: "erz".to_string(),
        full_name: "E Rz".to_string(),
        email: "e@example.com".to_string(),
        hostname: "box".to_string(),
    }
}

fn raw(first: &str, tasks: Vec<&str>) -> RawConfig {
    RawConfig {
        install_disk: "sda".to_string(),
        system_disk: "sda2".to_string(),
        boot_disk: "sda1".to_string(),
        user: user(),
        first_stage: first.to_string(),
        stages: vec![
            RawStage { name: "base".to_string(), tasks: tasks.iter().map(|t| t.to_string()).collect() },
            RawStage { name: "user_system".to_string(), tasks: vec!["vga".to_string()] },
        ],
    }
}

const ALL_PRESENT: DeviceCheck = DeviceCheck { install_disk: true, system_disk: true, boot_disk: true };

#[test]
fn missing_first_stage_is_invalid_config() {
    let reg = Registry::new();
    let r = load_config(raw("install", vec!["prepare"]), "/etc/inst.toml", ALL_PRESENT, &reg);
    assert_eq!(r.err(), Some(InstallError::InvalidConfig("install".to_string())));
}

#[test]
fn missing_first_stage_wins_over_other_faults() {
    let reg = Registry::new();
    let none = DeviceCheck { install_disk: false, system_disk: false, boot_disk: false };
    let r = load_config(raw("install", vec!["nope"]), "/etc/inst.toml", none, &reg);
    assert_eq!(r.err(), Some(InstallError::InvalidConfig("install".to_string())));
}

#[test]
fn valid_document_loads() {
    let reg = Registry::new();
    let c = load_config(raw("base", vec!["prepare", "base"]), "/etc/inst.toml", ALL_PRESENT, &reg).unwrap();
    assert_eq!(c.installer.install_disk, "/dev/sda");
    assert_eq!(c.installer.system_disk, "/dev/sda2");
    assert_eq!(c.installer.boot_disk, "/dev/sda1");
    assert_eq!(c.path, "/etc/inst.toml");
    assert_eq!(c.user.name, "erz");
    assert_eq!(c.stages.first_stage(), "base");
    assert_eq!(c.stages.get("base"), Some(vec![Task::Prepare, Task::Base]));
    assert_eq!(c.stages.get("user_system"), Some(vec![Task::Vga]));
}

#[test]
fn missing_device_is_invalid_file() {
    let reg = Registry::new();
    let check = DeviceCheck { install_disk: true, system_disk: false, boot_disk: false };
    let r = load_config(raw("base", vec!["prepare"]), "/etc/inst.toml", check, &reg);
    assert_eq!(r.err(), Some(InstallError::InvalidConfig("/dev/sda2".to_string())));
}

#[test]
fn unknown_task_name_fails_loading() {
    let reg = Registry::new();
    let r = load_config(raw("base", vec!["prepare", "partition"]), "/etc/inst.toml", ALL_PRESENT, &reg);
    assert_eq!(r.err(), Some(InstallError::InvalidTask("partition".to_string())));
}

#[test]
fn template_config_is_consistent() {
    let c = Config::default();
    assert_eq!(c.installer.install_disk, "/dev/sdX");
    assert_eq!(c.installer.boot_disk, "/dev/sdXn");
    assert_eq!(c.user.email, "my@email.com");
    assert_eq!(c.stages.first_stage(), "my_stage1");
    assert_eq!(c.stages.get("my_stage1"), Some(vec![Task::Prepare, Task::Base]));
    assert_eq!(c.stages.get("my_stage2"), Some(vec![Task::Bootloader]));
    assert_eq!(c.path, "");
}

#[test]
fn path_join_follows_path_push() {
    assert_eq!(join_path(&vec!["/dev", "sda"]), "/dev/sda");
    assert_eq!(join_path(&vec!["/dev/", "sda"]), "/dev/sda");
    assert_eq!(join_path(&vec!["/home", "erz", "installer/config.yaml"]), "/home/erz/installer/config.yaml");
    assert_eq!(join_path(&vec!["/home", "/etc", "hosts"]), "/etc/hosts");
    assert_eq!(join_path(&vec![]), "");
}

#[test]
fn existing_file_checks_flag() {
    assert_eq!(existing_file("/dev/sda".to_string(), true), Ok("/dev/sda".to_string()));
    assert_eq!(existing_file("/dev/sdq".to_string(), false), Err(InstallError::InvalidFile("/dev/sdq".to_string())));
    assert_eq!(device_path("nvme0n1"), "/dev/nvme0n1");
}

#[test]
fn repeated_stage_name_is_invalid_config() {
    let reg = Registry::new();
    let mut doc = raw("base", vec!["prepare"]);
    doc.stages.push(RawStage { name: "base".to_string(), tasks: vec!["reboot".to_string()] });
    let r = load_config(doc, "/etc/inst.toml", ALL_PRESENT, &reg);
    assert_eq!(r.err(), Some(InstallError::InvalidConfig("base".to_string())));
}
