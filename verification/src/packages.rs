//! The commands that bring packages onto the target and enable its
//! services.

use vstd::prelude::*;
use crate::command::{command, push_command, push_text, texts, CommandSpec, CommandSpecView};

verus! {

/// The packages of the base system.
pub open spec fn base_packages() -> Seq<Seq<char>> {
    seq!["base"@, "linux-zen"@, "linux-zen-firmware"@, "openssh"@, "networkmanager"@]
}

/// The packages of the desktop.
pub open spec fn desktop_packages() -> Seq<Seq<char>> {
    seq![
        "gdm"@,
        "gnome-shell"@,
        "gnome-control-center"@,
        "gnome-terminal"@,
        "nautilus"@,
        "xdg-user-dirs"@,
        "gnome-text-editor"@,
    ]
}

/// The services that are enabled on the target, in the order in which
/// they are enabled.
pub open spec fn enabled_services() -> Seq<Seq<char>> {
    seq!["gdm.service"@, "NetworkManager.service"@, "sshd.service"@]
}

/// The command that installs `packages` into the system below `root`.
pub open spec fn pacstrap(root: Seq<char>, packages: Seq<Seq<char>>) -> CommandSpecView {
    command("pacstrap"@, seq![root] + packages)
}

/// The command that runs `inner` inside the system below `root`.
pub open spec fn in_target(root: Seq<char>, inner: Seq<Seq<char>>) -> CommandSpecView {
    command("arch-chroot"@, seq![root] + inner)
}

/// The command that enables `service` in the system below `root`.
pub open spec fn systemctl_enable(root: Seq<char>, service: Seq<char>) -> CommandSpecView {
    in_target(root, seq!["systemctl"@, "enable"@, service])
}

/// One command for each of the enabled services, in order.
pub open spec fn enable_services(root: Seq<char>) -> Seq<CommandSpecView> {
    Seq::new(enabled_services().len(), |i: int| systemctl_enable(root, enabled_services()[i]))
}

/// The command that installs `packages` into the system below `root`.
pub fn pacstrap_command(root: &str, packages: &[&str]) -> (spec: CommandSpec)
    ensures
        spec@ == pacstrap(root@, texts(packages@)),
{
    let mut args: Vec<String> = Vec::new();
    push_text(&mut args, root);
    assert(args.deep_view() =~= seq![root@]);
    CommandSpec::new("pacstrap", args).with_args(packages)
}

/// The command that runs `inner` inside the system below `root`.
pub fn in_target_command(root: &str, inner: &[&str]) -> (spec: CommandSpec)
    ensures
        spec@ == in_target(root@, texts(inner@)),
{
    let mut args: Vec<String> = Vec::new();
    push_text(&mut args, root);
    assert(args.deep_view() =~= seq![root@]);
    CommandSpec::new("arch-chroot", args).with_args(inner)
}

/// The command that installs the base system below `root`.
pub fn install_base_packages(root: &str) -> (spec: CommandSpec)
    ensures
        spec@ == pacstrap(root@, base_packages()),
{
    let packages: [&str; 5] = ["base", "linux-zen", "linux-zen-firmware", "openssh", "networkmanager"];
    assert(texts(packages@) =~= base_packages());
    pacstrap_command(root, packages.as_slice())
}

/// The command that installs the desktop below `root`.
pub fn install_desktop_packages(root: &str) -> (spec: CommandSpec)
    ensures
        spec@ == pacstrap(root@, desktop_packages()),
{
    let packages: [&str; 7] = [
        "gdm",
        "gnome-shell",
        "gnome-control-center",
        "gnome-terminal",
        "nautilus",
        "xdg-user-dirs",
        "gnome-text-editor",
    ];
    assert(texts(packages@) =~= desktop_packages());
    pacstrap_command(root, packages.as_slice())
}

fn systemctl_enable_command(root: &str, service: &str) -> (spec: CommandSpec)
    ensures
        spec@ == systemctl_enable(root@, service@),
{
    let inner: [&str; 3] = ["systemctl", "enable", service];
    assert(texts(inner@) =~= seq!["systemctl"@, "enable"@, service@]);
    in_target_command(root, inner.as_slice())
}

/// The commands that enable the services of the system below `root`.
pub fn enable_services_commands(root: &str) -> (commands: Vec<CommandSpec>)
    ensures
        commands.deep_view() == enable_services(root@),
{
    let mut commands: Vec<CommandSpec> = Vec::new();
    push_command(&mut commands, systemctl_enable_command(root, "gdm.service"));
    push_command(&mut commands, systemctl_enable_command(root, "NetworkManager.service"));
    push_command(&mut commands, systemctl_enable_command(root, "sshd.service"));
    commands
}

} // verus!
