//! The tasks run by the user after the system is installed.
use crate::command::{command, described, plain};
use crate::config::Config;
use crate::error::InstallError;
use crate::plan::{EventView, Plan, Step, StepView};
use crate::env::{env_get, lemma_set_then_get};
use crate::runner::{
    action_of,
    apply_internal,
    enter,
    env_untouched_from,
    lemma_record_keeps_env,
    path_appended,
    record_spec,
    settle,
    settled,
    RunView,
};
use vstd::prelude::*;
use vstd::string::*;

verus! {

pub open spec fn set_git_user_plan(config: Config) -> Seq<StepView> {
    seq![
        StepView::Exec(
            plain(
                "git"@,
                seq!["config"@, "--global"@, "user.email"@, config.user.email@],
            ),
        ),
        StepView::Exec(
            plain(
                "git"@,
                seq!["config"@, "--global"@, "user.name"@, config.user.full_name@],
            ),
        ),
    ]
}

/// Set the user's name and email in the global git configuration.
pub fn set_git_user(config: &Config) -> (r: Plan)
    ensures
        r@ == set_git_user_plan(*config),
{
    let mut p = Plan::new();
    let c = command("git", vec!["config", "--global", "user.email", config.user.email.as_str()]).run();
    assert(c@.args =~= seq!["config"@, "--global"@, "user.email"@, config.user.email@]);
    p.add(Step::Exec(c));
    let c = command("git", vec!["config", "--global", "user.name", config.user.full_name.as_str()]).run();
    assert(c@.args =~= seq!["config"@, "--global"@, "user.name"@, config.user.full_name@]);
    p.add(Step::Exec(c));
    assert(p@ =~= set_git_user_plan(*config));
    p
}

pub open spec fn rust_packages_plan(config: Config) -> Seq<StepView> {
    seq![
        StepView::Exec(
            described(
                "curl"@,
                seq![
                    "--proto"@,
                    "=https"@,
                    "--tlsv1.2"@,
                    "-sSf"@,
                    "https://sh.rustup.rs"@,
                    "-o"@,
                    "/home/"@ + config.user.name@ + "/rustup.sh"@,
                ],
                "getting rustup script"@,
            ),
        ),
        StepView::Exec(plain("chmod"@, seq!["+x"@, "/home/"@ + config.user.name@ + "/rustup.sh"@])),
        StepView::Exec(
            described(
                "/home/"@ + config.user.name@ + "/rustup.sh"@,
                seq!["--default-toolchain"@, "nightly"@, "-y"@],
                "running rustup install script"@,
            ),
        ),
        StepView::RemoveFile("/home/"@ + config.user.name@ + "/rustup.sh"@),
        StepView::AppendPath("/home/"@ + config.user.name@ + "/.cargo/bin"@),
        StepView::Exec(
            plain(
                "cargo"@,
                seq!["install"@, "cargo-edit"@, "procs"@, "exa"@, "bingrep"@, "starhip"@],
            ),
        ),
        StepView::Exec(
            plain(
                "cargo"@,
                seq!["install"@, "-f"@, "--git"@, "https://github.com/cjbassi/ytop"@, "ytop"@],
            ),
        ),
        StepView::Exec(
            plain(
                "cargo"@,
                seq!["install"@, "-f"@, "--git"@, "https://github.com/bootandy/dust"@],
            ),
        ),
    ]
}

/// Install the Rust toolchain, put cargo's binaries on the search path, and install tools with it.
pub fn rust_packages(config: &Config) -> (r: Plan)
    ensures
        r@ == rust_packages_plan(*config),
{
    let mut p = Plan::new();
    let script = String::from_str("/home/").concat(config.user.name.as_str()).concat("/rustup.sh");
    let c = command(
        "curl",
        vec![
            "--proto",
            "=https",
            "--tlsv1.2",
            "-sSf",
            "https://sh.rustup.rs",
            "-o",
            script.as_str(),
        ],
    ).desc("getting rustup script").run();
    assert(c@.args =~= seq![
        "--proto"@,
        "=https"@,
        "--tlsv1.2"@,
        "-sSf"@,
        "https://sh.rustup.rs"@,
        "-o"@,
        "/home/"@ + config.user.name@ + "/rustup.sh"@,
    ]);
    p.add(Step::Exec(c));
    let c = command("chmod", vec!["+x", script.as_str()]).run();
    assert(c@.args =~= seq!["+x"@, "/home/"@ + config.user.name@ + "/rustup.sh"@]);
    p.add(Step::Exec(c));
    let c = command(script.as_str(), vec!["--default-toolchain", "nightly", "-y"])
        .desc("running rustup install script").run();
    assert(c@.args =~= seq!["--default-toolchain"@, "nightly"@, "-y"@]);
    p.add(Step::Exec(c));
    p.add(Step::RemoveFile(script));
    let cargo_bin = String::from_str("/home/")
        .concat(config.user.name.as_str())
        .concat("/.cargo/bin");
    p.add(Step::AppendPath(cargo_bin));
    let c = command("cargo", vec!["install", "cargo-edit", "procs", "exa", "bingrep", "starhip"]).run();
    assert(c@.args =~= seq!["install"@, "cargo-edit"@, "procs"@, "exa"@, "bingrep"@, "starhip"@]);
    p.add(Step::Exec(c));
    let c = command("cargo", vec!["install", "-f", "--git", "https://github.com/cjbassi/ytop", "ytop"]).run();
    assert(c@.args =~= seq![
        "install"@,
        "-f"@,
        "--git"@,
        "https://github.com/cjbassi/ytop"@,
        "ytop"@,
    ]);
    p.add(Step::Exec(c));
    let c = command("cargo", vec!["install", "-f", "--git", "https://github.com/bootandy/dust"]).run();
    assert(c@.args =~= seq!["install"@, "-f"@, "--git"@, "https://github.com/bootandy/dust"@]);
    p.add(Step::Exec(c));
    assert(p@ =~= rust_packages_plan(*config));
    p
}

pub open spec fn vpn_plan() -> Seq<StepView> {
    seq![StepView::Fail(InstallError::NotImplemented)]
}

/// Not available yet: the plan fails at once.
pub fn vpn(_config: &Config) -> (r: Plan)
    ensures
        r@ == vpn_plan(),
{
    let mut p = Plan::new();
    p.add(Step::Fail(InstallError::NotImplemented));
    assert(p@ =~= vpn_plan());
    p
}


/// Every cargo command of `rust_packages` sees the search path extended by
/// cargo's binary directory: once the script is removed, the run adds the
/// directory after the old path and a colon; from there on no step changes the
/// environment again, and each spawn carries the run's environment.
pub proof fn lemma_rust_packages_path(config: Config, s: RunView, ev: EventView)
    requires
        settled(rust_packages_plan(config), s),
    ensures
        ({
            let plan = rust_packages_plan(config);
            let cargo_bin = "/home/"@ + config.user.name@ + "/.cargo/bin"@;
            &&& plan[4] == StepView::AppendPath(cargo_bin)
            &&& (s.index == 3 && ev == EventView::Done && s.failure is None ==> {
                let t = record_spec(plan, s, ev);
                &&& t.index == 5
                &&& env_get(t.env, "PATH"@) == Some(path_appended(env_get(s.env, "PATH"@), cargo_bin))
            })
            &&& (5 <= s.index < plan.len() ==> {
                &&& record_spec(plan, s, ev).env == s.env
                &&& action_of(plan, s) is Spawn ==> action_of(plan, s)->Spawn_env == s.env
            })
        }),
{
    let plan = rust_packages_plan(config);
    let cargo_bin = "/home/"@ + config.user.name@ + "/.cargo/bin"@;
    if s.index == 3 && ev == EventView::Done && s.failure is None {
        let n4 = enter(plan, s, 4);
        let n5 = enter(plan, apply_internal(plan[4], n4), 5);
        assert(settle(plan, n5) == n5);
        lemma_set_then_get(s.env, "PATH"@, path_appended(env_get(s.env, "PATH"@), cargo_bin), "PATH"@);
    }
    if 5 <= s.index < plan.len() {
        assert(env_untouched_from(plan, s.index as int));
        lemma_record_keeps_env(plan, s, ev);
    }
}

} // verus!
