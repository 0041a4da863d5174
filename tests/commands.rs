use archinstaller::command::{
    command, done_marker, exit_outcome, start_marker, text_contains, utf8_bytes, OutputMode, Wrap,
};
use archinstaller::env::EnvTable;
use archinstaller::error::InstallError;
use archinstaller::config::Config;
use archinstaller::installer::user_system::add_user;
use archinstaller::plan::Step;

#[test]
fn exit_status_decides_success() {
    assert_eq!(exit_outcome(0), Ok(()));
    assert_eq!(exit_outcome(127), Err(InstallError::CommandFailed(127)));
    assert_eq!(exit_outcome(-1), Err(InstallError::CommandFailed(-1)));
}

#[test]
fn markers_bracket_the_description() {
    assert_eq!(start_marker("install grub"), "--- starting  --- install grub");
    assert_eq!(done_marker("install grub"), "--- done --- install grub");
}

#[test]
fn wrappers_pick_the_output_mode() {
    let c = Wrap::new("genfstab").arg("-U").arg("/mnt").desc("Generating fstab").to_file("/mnt/etc/fstab");
    assert_eq!(c.program, "genfstab");
    assert_eq!(c.args, vec!["-U", "/mnt"]);
    assert_eq!(c.description, Some("Generating fstab".to_string()));
    assert_eq!(c.mode, OutputMode::ToFile("/mnt/etc/fstab".to_string()));
    let s = command("lspci", vec![]).to_string();
    assert_eq!(s.mode, OutputMode::Capture);
    assert_eq!(s.description, None);
    let r = command("passwd", vec!["-l", "root"]).run();
    assert_eq!(r.mode, OutputMode::Stream);
    assert_eq!(r.args, vec!["-l", "root"]);
    let i = Wrap::new("chpasswd").desc("pw").run_with_stdin(&[0xff, b'a']);
    assert_eq!(i.stdin, Some(vec![0xff, b'a']));
}

#[test]
fn password_is_piped_to_chpasswd() {
    let mut cfg = Config::default();
    cfg.user.name = "erz".to_string();
    let plan = add_user(&cfg);
    match &plan.steps[1] {
        Step::Exec(c) => {
            assert_eq!(c.program, "chpasswd");
            assert_eq!(c.stdin, Some(b"erz:erz".to_vec()));
        },
        other => panic!("unexpected {:?}", other),
    }
    match &plan.steps[2] {
        Step::AppendFile { path, line } => {
            assert_eq!(path, "/etc/sudoers");
            assert_eq!(line, "erz ALL=(ALL) ALL");
        },
        other => panic!("unexpected {:?}", other),
    }
}

#[test]
fn substring_search() {
    assert!(text_contains("link state UP now", "state UP"));
    assert!(!text_contains("link state DOWN", "state UP"));
    assert!(text_contains("abc", ""));
    assert!(!text_contains("", "a"));
    assert!(text_contains("NVIDIA", "NVIDIA"));
}

#[test]
fn env_table_set_replaces_and_keeps_others() {
    let mut env = EnvTable::from_vars(vec![
        ("A".to_string(), "1".to_string()),
        ("B".to_string(), "2".to_string()),
        ("A".to_string(), "3".to_string()),
    ]);
    assert_eq!(env.get("A"), Some("3".to_string()));
    env.set("B", "20");
    env.set("C", "30");
    assert_eq!(env.get("B"), Some("20".to_string()));
    assert_eq!(env.get("C"), Some("30".to_string()));
    assert_eq!(env.get("D"), None);
    let vars = env.vars();
    assert!(vars.contains(&("B".to_string(), "20".to_string())));
    assert!(!vars.contains(&("B".to_string(), "2".to_string())));
}

#[test]
fn utf8_encoding_matches_std() {
    for text in ["", "erz:erz", "é", "€uro", "\u{1F600} ok", "日本語"] {
        assert_eq!(utf8_bytes(text), text.as_bytes().to_vec());
    }
}
