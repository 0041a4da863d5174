//! The tasks that set up the installed system for its user.
use crate::command::{command, described, plain, utf8_bytes, InvocationView, ModeView};
use crate::config::Config;
use crate::crossing::{stage_self, staging_plan};
use crate::installer::pacman_install;
use crate::plan::{Plan, Step, StepView};
use vstd::utf8::encode_utf8;
use vstd::prelude::*;
use vstd::string::*;

verus! {

pub open spec fn set_in_qemu_http_proxy_plan() -> Seq<StepView> {
    seq![StepView::SetEnv { key: "http_proxy"@, value: "http://10.0.2.2:3128"@ }]
}

/// Route HTTP through the proxy of the QEMU host.
pub fn set_in_qemu_http_proxy(_config: &Config) -> (r: Plan)
    ensures
        r@ == set_in_qemu_http_proxy_plan(),
{
    let mut p = Plan::new();
    p.add(Step::SetEnv {
        key: String::from_str("http_proxy"),
        value: String::from_str("http://10.0.2.2:3128"),
    });
    assert(p@ =~= set_in_qemu_http_proxy_plan());
    p
}

pub open spec fn systemd_network_plan() -> Seq<StepView> {
    seq![
        StepView::WriteFile { path: "/etc/systemd/network/MyDhcp.network"@, content: "[Match]\nName=en*\n\n[Network]\nDHCP=ipv4"@ },
        StepView::Exec(
            described(
                "systemctl"@,
                seq!["enable"@, "--now"@, "systemd-networkd.service"@],
                "enabling networkd"@,
            ),
        ),
        StepView::Exec(
            described(
                "systemctl"@,
                seq!["enable"@, "--now"@, "systemd-resolved.service"@],
                "enabling resolved"@,
            ),
        ),
        StepView::Await {
            probe: InvocationView {
                program: "ip"@,
                args: seq!["a"@],
                description: None,
                stdin: None,
                mode: ModeView::Capture,
            },
            needle: "state UP"@,
            note: "waiting for network"@,
            attempts: 10,
            delay_secs: 1,
        },
    ]
}

/// Configure DHCP networking and wait until a link is up.
pub fn systemd_network(_config: &Config) -> (r: Plan)
    ensures
        r@ == systemd_network_plan(),
{
    let mut p = Plan::new();
    p.add(Step::WriteFile {
        path: String::from_str("/etc/systemd/network/MyDhcp.network"),
        content: String::from_str("[Match]\nName=en*\n\n[Network]\nDHCP=ipv4"),
    });
    let c = command("systemctl", vec!["enable", "--now", "systemd-networkd.service"])
        .desc("enabling networkd").run();
    assert(c@.args =~= seq!["enable"@, "--now"@, "systemd-networkd.service"@]);
    p.add(Step::Exec(c));
    let c = command("systemctl", vec!["enable", "--now", "systemd-resolved.service"])
        .desc("enabling resolved").run();
    assert(c@.args =~= seq!["enable"@, "--now"@, "systemd-resolved.service"@]);
    p.add(Step::Exec(c));
    let c = command("ip", vec!["a"]).to_string();
    assert(c@.args =~= seq!["a"@]);
    p.add(Step::Await {
        probe: c,
        needle: String::from_str("state UP"),
        note: String::from_str("waiting for network"),
        attempts: 10,
        delay_secs: 1,
    });
    assert(p@ =~= systemd_network_plan());
    p
}

pub open spec fn essential_packages_plan() -> Seq<StepView> {
    seq![
        StepView::Exec(described("pacman"@, seq!["-Sy"@], "update pacman databases"@)),
        StepView::Exec(
            pacman_install(
                seq!["neovim"@, "smbclient"@, "base-devel"@, "curl"@, "git"@, "openssh"@, "man"@],
                "install packages"@,
            ),
        ),
    ]
}

/// Refresh the package databases and install the essential packages.
pub fn essential_packages(_config: &Config) -> (r: Plan)
    ensures
        r@ == essential_packages_plan(),
{
    let mut p = Plan::new();
    let c = command("pacman", vec!["-Sy"]).desc("update pacman databases").run();
    assert(c@.args =~= seq!["-Sy"@]);
    p.add(Step::Exec(c));
    let c = command(
        "pacman",
        vec![
            "--noconfirm",
            "-S",
            "neovim",
            "smbclient",
            "base-devel",
            "curl",
            "git",
            "openssh",
            "man",
        ],
    ).desc("install packages").run();
    assert(c@.args =~= seq!["--noconfirm"@, "-S"@] + seq![
        "neovim"@,
        "smbclient"@,
        "base-devel"@,
        "curl"@,
        "git"@,
        "openssh"@,
        "man"@,
    ]);
    p.add(Step::Exec(c));
    assert(p@ =~= essential_packages_plan());
    p
}

pub open spec fn vga_plan() -> Seq<StepView> {
    seq![
        StepView::Branch {
            probe: InvocationView {
                program: "lspci"@,
                args: seq![],
                description: None,
                stdin: None,
                mode: ModeView::Capture,
            },
            needle: "NVIDIA"@,
            found: pacman_install(seq!["nvidia"@, "nvidia-settings"@], "install Nvidia drivers"@),
            otherwise: pacman_install(seq!["xf86-video-vesa"@], "install generic VGA driver"@),
        },
    ]
}

/// Install the NVIDIA driver when the PCI listing shows such a card, else the generic one.
pub fn vga(_config: &Config) -> (r: Plan)
    ensures
        r@ == vga_plan(),
{
    let mut p = Plan::new();
    let c = command("lspci", vec![]).to_string();
    assert(c@.args =~= seq![]);
    let f = command("pacman", vec!["--noconfirm", "-S", "nvidia", "nvidia-settings"])
        .desc("install Nvidia drivers").run();
    assert(f@.args =~= seq!["--noconfirm"@, "-S"@] + seq!["nvidia"@, "nvidia-settings"@]);
    let o = command("pacman", vec!["--noconfirm", "-S", "xf86-video-vesa"])
        .desc("install generic VGA driver").run();
    assert(o@.args =~= seq!["--noconfirm"@, "-S"@] + seq!["xf86-video-vesa"@]);
    p.add(Step::Branch { probe: c, needle: String::from_str("NVIDIA"), found: f, otherwise: o });
    assert(p@ =~= vga_plan());
    p
}

pub open spec fn audio_plan() -> Seq<StepView> {
    seq![
        StepView::Exec(
            pacman_install(
                seq!["pulseaudio"@, "pulseaudio-alsa"@, "pavucontrol"@],
                "install packages"@,
            ),
        ),
    ]
}

/// Install the sound system.
pub fn audio(_config: &Config) -> (r: Plan)
    ensures
        r@ == audio_plan(),
{
    let mut p = Plan::new();
    let c = command("pacman", vec!["--noconfirm", "-S", "pulseaudio", "pulseaudio-alsa", "pavucontrol"])
        .desc("install packages").run();
    assert(c@.args =~= seq!["--noconfirm"@, "-S"@] + seq![
        "pulseaudio"@,
        "pulseaudio-alsa"@,
        "pavucontrol"@,
    ]);
    p.add(Step::Exec(c));
    assert(p@ =~= audio_plan());
    p
}

pub open spec fn terminal_packages_plan() -> Seq<StepView> {
    seq![
        StepView::Exec(
            pacman_install(
                seq![
                    "alacritty"@,
                    "xclip"@,
                    "ttf-fira-code"@,
                    "fish"@,
                    "ranger"@,
                    "bat"@,
                    "ttf-fira-code"@,
                    "hexyl"@,
                    "broot"@,
                    "fd"@,
                    "ripgrep"@,
                ],
                "install packages"@,
            ),
        ),
    ]
}

/// Install the terminal tools.
pub fn terminal_packages(_config: &Config) -> (r: Plan)
    ensures
        r@ == terminal_packages_plan(),
{
    let mut p = Plan::new();
    let c = command(
        "pacman",
        vec![
            "--noconfirm",
            "-S",
            "alacritty",
            "xclip",
            "ttf-fira-code",
            "fish",
            "ranger",
            "bat",
            "ttf-fira-code",
            "hexyl",
            "broot",
            "fd",
            "ripgrep",
        ],
    ).desc("install packages").run();
    assert(c@.args =~= seq!["--noconfirm"@, "-S"@] + seq![
        "alacritty"@,
        "xclip"@,
        "ttf-fira-code"@,
        "fish"@,
        "ranger"@,
        "bat"@,
        "ttf-fira-code"@,
        "hexyl"@,
        "broot"@,
        "fd"@,
        "ripgrep"@,
    ]);
    p.add(Step::Exec(c));
    assert(p@ =~= terminal_packages_plan());
    p
}

pub open spec fn codecs_plan() -> Seq<StepView> {
    seq![]
}

/// Nothing to do yet.
pub fn codecs(_config: &Config) -> (r: Plan)
    ensures
        r@ == codecs_plan(),
{
    let mut p = Plan::new();
    assert(p@ =~= codecs_plan());
    p
}

pub open spec fn desktop_plan() -> Seq<StepView> {
    seq![
        StepView::Exec(
            pacman_install(
                seq![
                    "xorg-server"@,
                    "lightdm"@,
                    "lightdm-gtk-greeter"@,
                    "i3-gaps"@,
                    "i3lock"@,
                    "rofi"@,
                    "maim"@,
                ],
                "install packages"@,
            ),
        ),
        StepView::Exec(
            described(
                "systemctl"@,
                seq!["enable"@, "lightdm.service"@],
                "enabling lightdm"@,
            ),
        ),
    ]
}

/// Install the desktop and enable its display manager.
pub fn desktop(_config: &Config) -> (r: Plan)
    ensures
        r@ == desktop_plan(),
{
    let mut p = Plan::new();
    let c = command(
        "pacman",
        vec![
            "--noconfirm",
            "-S",
            "xorg-server",
            "lightdm",
            "lightdm-gtk-greeter",
            "i3-gaps",
            "i3lock",
            "rofi",
            "maim",
        ],
    ).desc("install packages").run();
    assert(c@.args =~= seq!["--noconfirm"@, "-S"@] + seq![
        "xorg-server"@,
        "lightdm"@,
        "lightdm-gtk-greeter"@,
        "i3-gaps"@,
        "i3lock"@,
        "rofi"@,
        "maim"@,
    ]);
    p.add(Step::Exec(c));
    let c = command("systemctl", vec!["enable", "lightdm.service"]).desc("enabling lightdm").run();
    assert(c@.args =~= seq!["enable"@, "lightdm.service"@]);
    p.add(Step::Exec(c));
    assert(p@ =~= desktop_plan());
    p
}

pub open spec fn setup_dotfiles_plan(config: Config) -> Seq<StepView> {
    seq![
        StepView::Exec(
            described(
                "git"@,
                seq![
                    "clone"@,
                    "--bare"@,
                    "https://github.com/rozaliev/dotfiles.git"@,
                    "/home/"@ + config.user.name@ + "/dotfiles"@,
                ],
                "cloning dotfiles"@,
            ),
        ),
        StepView::Exec(
            described(
                "git"@,
                seq![
                    "--git-dir=/home/"@ + config.user.name@ + "/dotfiles"@,
                    "--work-tree=/home/"@ + config.user.name@,
                    "checkout"@,
                ],
                "checking out dotfiles"@,
            ),
        ),
    ]
}

/// Check the user's dotfiles out of their bare repository.
pub fn setup_dotfiles(config: &Config) -> (r: Plan)
    ensures
        r@ == setup_dotfiles_plan(*config),
{
    let mut p = Plan::new();
    let repo = String::from_str("/home/").concat(config.user.name.as_str()).concat("/dotfiles");
    let c = command(
        "git",
        vec!["clone", "--bare", "https://github.com/rozaliev/dotfiles.git", repo.as_str()],
    ).desc("cloning dotfiles").run();
    assert(c@.args =~= seq![
        "clone"@,
        "--bare"@,
        "https://github.com/rozaliev/dotfiles.git"@,
        "/home/"@ + config.user.name@ + "/dotfiles"@,
    ]);
    p.add(Step::Exec(c));
    let git_dir = String::from_str("--git-dir=/home/")
        .concat(config.user.name.as_str())
        .concat("/dotfiles");
    let work_tree = String::from_str("--work-tree=/home/").concat(config.user.name.as_str());
    let c = command("git", vec![git_dir.as_str(), work_tree.as_str(), "checkout"])
        .desc("checking out dotfiles").run();
    assert(c@.args =~= seq![
        "--git-dir=/home/"@ + config.user.name@ + "/dotfiles"@,
        "--work-tree=/home/"@ + config.user.name@,
        "checkout"@,
    ]);
    p.add(Step::Exec(c));
    assert(p@ =~= setup_dotfiles_plan(*config));
    p
}

pub open spec fn desktop_packages_plan() -> Seq<StepView> {
    seq![
        StepView::Exec(
            pacman_install(
                seq!["firefox"@, "transmission-gtk"@, "telegram-desktop"@, "vlc"@],
                "install packages"@,
            ),
        ),
        StepView::Exec(
            pacman_install(
                seq![
                    "xorg-fonts-type1"@,
                    "ttf-dejavu"@,
                    "font-bh-ttf"@,
                    "ttf-liberation"@,
                    "ttf-freefont"@,
                ],
                "install fonts"@,
            ),
        ),
    ]
}

/// Install the desktop applications and fonts.
pub fn desktop_packages(_config: &Config) -> (r: Plan)
    ensures
        r@ == desktop_packages_plan(),
{
    let mut p = Plan::new();
    let c = command(
        "pacman",
        vec!["--noconfirm", "-S", "firefox", "transmission-gtk", "telegram-desktop", "vlc"],
    ).desc("install packages").run();
    assert(c@.args =~= seq!["--noconfirm"@, "-S"@] + seq![
        "firefox"@,
        "transmission-gtk"@,
        "telegram-desktop"@,
        "vlc"@,
    ]);
    p.add(Step::Exec(c));
    let c = command(
        "pacman",
        vec![
            "--noconfirm",
            "-S",
            "xorg-fonts-type1",
            "ttf-dejavu",
            "font-bh-ttf",
            "ttf-liberation",
            "ttf-freefont",
        ],
    ).desc("install fonts").run();
    assert(c@.args =~= seq!["--noconfirm"@, "-S"@] + seq![
        "xorg-fonts-type1"@,
        "ttf-dejavu"@,
        "font-bh-ttf"@,
        "ttf-liberation"@,
        "ttf-freefont"@,
    ]);
    p.add(Step::Exec(c));
    assert(p@ =~= desktop_packages_plan());
    p
}

pub open spec fn add_user_plan(config: Config) -> Seq<StepView> {
    seq![
        StepView::Exec(
            described(
                "useradd"@,
                seq!["-g"@, "users"@, "--create-home"@, "--shell"@, "/usr/bin/fish"@, config.user.name@],
                "create user"@,
            ),
        ),
        StepView::Exec(
            InvocationView {
                program: "chpasswd"@,
                args: seq![],
                description: Some("setting password to username"@),
                stdin: Some(encode_utf8(config.user.name@ + ":"@ + config.user.name@)),
                mode: ModeView::Stream,
            },
        ),
        StepView::AppendFile { path: "/etc/sudoers"@, line: config.user.name@ + " ALL=(ALL) ALL"@ },
    ]
}

/// Create the user, set its password to its name and allow it sudo.
pub fn add_user(config: &Config) -> (r: Plan)
    ensures
        r@ == add_user_plan(*config),
{
    let mut p = Plan::new();
    let c = command(
        "useradd",
        vec!["-g", "users", "--create-home", "--shell", "/usr/bin/fish", config.user.name.as_str()],
    ).desc("create user").run();
    assert(c@.args =~= seq![
        "-g"@,
        "users"@,
        "--create-home"@,
        "--shell"@,
        "/usr/bin/fish"@,
        config.user.name@,
    ]);
    p.add(Step::Exec(c));
    let password = config.user.name.clone().concat(":").concat(config.user.name.as_str());
    let bytes = utf8_bytes(password.as_str());
    let c = command("chpasswd", vec![])
        .desc("setting password to username").run_with_stdin(bytes.as_slice());
    assert(c@.args =~= seq![]);
    p.add(Step::Exec(c));
    let sudoers_line = config.user.name.clone().concat(" ALL=(ALL) ALL");
    p.add(Step::AppendFile { path: String::from_str("/etc/sudoers"), line: sudoers_line });
    assert(p@ =~= add_user_plan(*config));
    p
}

pub open spec fn cleanup_reboot_hook_plan() -> Seq<StepView> {
    seq![]
}

/// Nothing to do yet.
pub fn cleanup_reboot_hook(_config: &Config) -> (r: Plan)
    ensures
        r@ == cleanup_reboot_hook_plan(),
{
    let mut p = Plan::new();
    assert(p@ =~= cleanup_reboot_hook_plan());
    p
}

pub open spec fn generate_ssh_keys_plan(config: Config) -> Seq<StepView> {
    seq![
        StepView::Exec(
            described(
                "mkdir"@,
                seq!["-p"@, "/home/"@ + config.user.name@ + "/.ssh"@],
                "ensure that .ssh exists"@,
            ),
        ),
        StepView::Exec(
            plain(
                "ssh-keygen"@,
                seq![
                    "-t"@,
                    "rsa"@,
                    "-b"@,
                    "4096"@,
                    "-C"@,
                    config.user.email@,
                    "-f"@,
                    "/home/"@ + config.user.name@ + "/.ssh/id_rsa"@,
                    "-N"@,
                    "\"\""@,
                ],
            ),
        ),
    ]
}

/// Create an SSH key pair for the user.
pub fn generate_ssh_keys(config: &Config) -> (r: Plan)
    ensures
        r@ == generate_ssh_keys_plan(*config),
{
    let mut p = Plan::new();
    let ssh_dir = String::from_str("/home/").concat(config.user.name.as_str()).concat("/.ssh");
    let c = command("mkdir", vec!["-p", ssh_dir.as_str()]).desc("ensure that .ssh exists").run();
    assert(c@.args =~= seq!["-p"@, "/home/"@ + config.user.name@ + "/.ssh"@]);
    p.add(Step::Exec(c));
    let key_file = String::from_str("/home/")
        .concat(config.user.name.as_str())
        .concat("/.ssh/id_rsa");
    let c = command(
        "ssh-keygen",
        vec![
            "-t",
            "rsa",
            "-b",
            "4096",
            "-C",
            config.user.email.as_str(),
            "-f",
            key_file.as_str(),
            "-N",
            "\"\"",
        ],
    ).run();
    assert(c@.args =~= seq![
        "-t"@,
        "rsa"@,
        "-b"@,
        "4096"@,
        "-C"@,
        config.user.email@,
        "-f"@,
        "/home/"@ + config.user.name@ + "/.ssh/id_rsa"@,
        "-N"@,
        "\"\""@,
    ]);
    p.add(Step::Exec(c));
    assert(p@ =~= generate_ssh_keys_plan(*config));
    p
}

pub open spec fn disable_root_login_plan() -> Seq<StepView> {
    seq![StepView::Exec(plain("passwd"@, seq!["-l"@, "root"@]))]
}

/// Lock the root account.
pub fn disable_root_login(_config: &Config) -> (r: Plan)
    ensures
        r@ == disable_root_login_plan(),
{
    let mut p = Plan::new();
    let c = command("passwd", vec!["-l", "root"]).run();
    assert(c@.args =~= seq!["-l"@, "root"@]);
    p.add(Step::Exec(c));
    assert(p@ =~= disable_root_login_plan());
    p
}

pub open spec fn power_management_plan() -> Seq<StepView> {
    seq![
        StepView::Exec(
            pacman_install(
                seq!["xfce4-power-manager"@],
                "install power management tools"@,
            ),
        ),
    ]
}

/// Install the power management tools.
pub fn power_management(_config: &Config) -> (r: Plan)
    ensures
        r@ == power_management_plan(),
{
    let mut p = Plan::new();
    let c = command("pacman", vec!["--noconfirm", "-S", "xfce4-power-manager"])
        .desc("install power management tools").run();
    assert(c@.args =~= seq!["--noconfirm"@, "-S"@] + seq!["xfce4-power-manager"@]);
    p.add(Step::Exec(c));
    assert(p@ =~= power_management_plan());
    p
}

pub open spec fn firewall_plan() -> Seq<StepView> {
    seq![
        StepView::Exec(pacman_install(seq!["nftables"@], "install nftables"@)),
        StepView::Exec(
            described(
                "systemctl"@,
                seq!["enable"@, "nftables.service"@],
                "enabling nftables service"@,
            ),
        ),
    ]
}

/// Install and enable nftables.
pub fn firewall(_config: &Config) -> (r: Plan)
    ensures
        r@ == firewall_plan(),
{
    let mut p = Plan::new();
    let c = command("pacman", vec!["--noconfirm", "-S", "nftables"]).desc("install nftables").run();
    assert(c@.args =~= seq!["--noconfirm"@, "-S"@] + seq!["nftables"@]);
    p.add(Step::Exec(c));
    let c = command("systemctl", vec!["enable", "nftables.service"])
        .desc("enabling nftables service").run();
    assert(c@.args =~= seq!["enable"@, "nftables.service"@]);
    p.add(Step::Exec(c));
    assert(p@ =~= firewall_plan());
    p
}


/// The continuation script left in the user's home: it runs the staged program
/// for the post-install stage.
pub open spec fn post_install_script() -> Seq<char> {
    "#!/bin/bash\n~/installer/archinstaller stage post_install --config ~/installer/config.yaml"@
}

pub open spec fn setup_reboot_post_install_plan(config: Config) -> Seq<StepView> {
    let home = "/home/"@ + config.user.name@;
    let script = home + "/continue_install.sh"@;
    staging_plan(config.path@, home + "/installer"@) + seq![
        StepView::WriteFile { path: script, content: post_install_script() },
        StepView::Exec(
            described("chown"@, seq!["-R"@, config.user.name@ + ":users"@, home], "fix permissions"@),
        ),
        StepView::Exec(described("chmod"@, seq!["+x"@, script], "make installer runnable"@)),
    ]
}

/// Stage this program in the user's home, with a script that runs the
/// post-install stage, and hand the files to the user.
pub fn setup_reboot_post_install(config: &Config) -> (r: Plan)
    ensures
        r@ == setup_reboot_post_install_plan(*config),
{
    let home = String::from_str("/home/").concat(config.user.name.as_str());
    let staging = home.clone().concat("/installer");
    let mut p = stage_self(config.path.as_str(), staging.as_str());
    let script = home.clone().concat("/continue_install.sh");
    let content = String::from_str(
        "#!/bin/bash\n~/installer/archinstaller stage post_install --config ~/installer/config.yaml",
    );
    p.add(Step::WriteFile { path: script.clone(), content });
    let owner = config.user.name.clone().concat(":users");
    let c = command("chown", vec!["-R", owner.as_str(), home.as_str()]).desc("fix permissions").run();
    assert(c@.args =~= seq!["-R"@, config.user.name@ + ":users"@, home@]);
    p.add(Step::Exec(c));
    let c = command("chmod", vec!["+x", script.as_str()]).desc("make installer runnable").run();
    assert(c@.args =~= seq!["+x"@, script@]);
    p.add(Step::Exec(c));
    assert(p@ =~= setup_reboot_post_install_plan(*config));
    p
}

} // verus!
