use archinstaller::config::Config;
use archinstaller::crossing::{Continuation, Selector};
use archinstaller::installer::user_system::setup_reboot_post_install;
use archinstaller::plan::Step;

#[test]
fn continuation_paths_and_command_line() {
    let c = Continuation {
        root: "/mnt".to_string(),
        staging: "/root/installer".to_string(),
        selector: Selector::Stage("user_system".to_string()),
    };
    assert_eq!(c.host_dir(), "/mnt/root/installer");
    assert_eq!(c.relaunch_line(), "/root/installer/archinstaller stage user_system --config /root/installer/config.yaml");
    let t = Continuation {
        root: "/mnt".to_string(),
        staging: "/_chroot_install".to_string(),
        selector: Selector::Task("base_in_chroot".to_string()),
    };
    assert_eq!(t.relaunch_line(), "/_chroot_install/archinstaller task base_in_chroot --config /_chroot_install/config.yaml");
}

#[test]
fn post_install_staging_lives_in_user_home() {
    let mut cfg = Config::default();
    cfg.path = "/root/inst.toml".to_string();
    cfg.user.name = "erz".to_string();
    let plan = setup_reboot_post_install(&cfg);
    assert!(matches!(&plan.steps[0], Step::CreateDir(p) if p == "/home/erz/installer"));
    assert!(matches!(&plan.steps[1], Step::CopyFile { to, .. } if to == "/home/erz/installer/config.yaml"));
    match &plan.steps[3] {
        Step::WriteFile { path, content } => {
            assert_eq!(path, "/home/erz/continue_install.sh");
            assert_eq!(
                content,
                "#!/bin/bash\n~/installer/archinstaller stage post_install --config ~/installer/config.yaml"
            );
        },
        other => panic!("unexpected {:?}", other),
    }
    match &plan.steps[4] {
        Step::Exec(c) => assert_eq!(c.args, vec!["-R", "erz:users", "/home/erz"]),
        other => panic!("unexpected {:?}", other),
    }
}
