//! The install plan: the nine stages of an installation, each with its
//! summary and its commands, built from the configuration.

use vstd::prelude::*;
use vstd::string::StringExecFns;
use crate::command::{command, push_command, push_text, texts, CommandSpec, CommandSpecView};
use crate::error::{ValidationError, ValidationErrorView};
use crate::filesystem::{
    activate_swap_command, deactivate_swap_command, mkfs_command, mkfs_plan, mount_command,
    mount_plan, swapoff_command, swapon_command,
};
use crate::packages::{
    base_packages, desktop_packages, enable_services, enable_services_commands, in_target,
    in_target_command, install_base_packages, install_desktop_packages, pacstrap,
};
use crate::partition::{build_command_plan, command_plan, default_plan, default_plan_for_disk};
use crate::state::{
    DiskPlan, DiskPlanView, FileSystem, InstallerState, InstallerStateView, PartitionSpec,
    PartitionSpecView,
};
use crate::text::{
    contains_text, decimal, decimal_string, join, join_with, text_contains, trim_end_char,
    trim_end_matches, trim_start_char, trim_start_matches,
};

verus! {

/// Where the target system is mounted while it is installed.
pub const TARGET_ROOT: &'static str = "/mnt/arm-distro";

/// The phases of an installation, in the order in which they run.
#[derive(Debug, Clone, Copy, PartialEq, Eq, Structural)]
pub enum InstallStage {
    PrepareEnvironment,
    PartitionDisks,
    FormatFilesystems,
    MountTarget,
    InstallBaseSystem,
    InstallDesktopEnvironment,
    ConfigureSystem,
    InstallBootloader,
    Finalize,
}

/// The name of a stage as it is shown in logs.
pub open spec fn stage_name(stage: InstallStage) -> Seq<char> {
    match stage {
        InstallStage::PrepareEnvironment => "PrepareEnvironment"@,
        InstallStage::PartitionDisks => "PartitionDisks"@,
        InstallStage::FormatFilesystems => "FormatFilesystems"@,
        InstallStage::MountTarget => "MountTarget"@,
        InstallStage::InstallBaseSystem => "InstallBaseSystem"@,
        InstallStage::InstallDesktopEnvironment => "InstallDesktopEnvironment"@,
        InstallStage::ConfigureSystem => "ConfigureSystem"@,
        InstallStage::InstallBootloader => "InstallBootloader"@,
        InstallStage::Finalize => "Finalize"@,
    }
}

/// The stage that runs at position `i`, counting from zero.
pub open spec fn stage_at(i: int) -> InstallStage {
    if i <= 0 {
        InstallStage::PrepareEnvironment
    } else if i == 1 {
        InstallStage::PartitionDisks
    } else if i == 2 {
        InstallStage::FormatFilesystems
    } else if i == 3 {
        InstallStage::MountTarget
    } else if i == 4 {
        InstallStage::InstallBaseSystem
    } else if i == 5 {
        InstallStage::InstallDesktopEnvironment
    } else if i == 6 {
        InstallStage::ConfigureSystem
    } else if i == 7 {
        InstallStage::InstallBootloader
    } else {
        InstallStage::Finalize
    }
}

/// The number of stages.
pub const STAGE_COUNT: usize = 9;

impl InstallStage {
    /// The name of the stage as it is shown in logs.
    pub fn name(&self) -> (name: &'static str)
        ensures
            name@ == stage_name(*self),
    {
        match self {
            InstallStage::PrepareEnvironment => "PrepareEnvironment",
            InstallStage::PartitionDisks => "PartitionDisks",
            InstallStage::FormatFilesystems => "FormatFilesystems",
            InstallStage::MountTarget => "MountTarget",
            InstallStage::InstallBaseSystem => "InstallBaseSystem",
            InstallStage::InstallDesktopEnvironment => "InstallDesktopEnvironment",
            InstallStage::ConfigureSystem => "ConfigureSystem",
            InstallStage::InstallBootloader => "InstallBootloader",
            InstallStage::Finalize => "Finalize",
        }
    }

    /// Whether an installation ends with this stage.
    pub fn is_terminal(&self) -> (last: bool)
        ensures
            last == (*self == InstallStage::Finalize),
    {
        match self {
            InstallStage::Finalize => true,
            _ => false,
        }
    }
}

/// One stage of a plan: what it is for, and the commands it runs.
#[derive(Debug)]
pub struct InstallStep {
    pub stage: InstallStage,
    pub summary: String,
    pub commands: Vec<CommandSpec>,
}

/// A step, as the contracts see it.
pub struct InstallStepView {
    pub stage: InstallStage,
    pub summary: Seq<char>,
    pub commands: Seq<CommandSpecView>,
}

/// The step of `stage` with `summary` and `commands`.
pub open spec fn step(
    stage: InstallStage,
    summary: Seq<char>,
    commands: Seq<CommandSpecView>,
) -> InstallStepView {
    InstallStepView { stage, summary, commands }
}

impl View for InstallStep {
    type V = InstallStepView;

    open spec fn view(&self) -> InstallStepView {
        step(self.stage, self.summary@, self.commands.deep_view())
    }
}

impl DeepView for InstallStep {
    type V = InstallStepView;

    open spec fn deep_view(&self) -> InstallStepView {
        self.view()
    }
}

impl Clone for InstallStep {
    fn clone(&self) -> (copy: Self)
        ensures
            copy@ == self@,
    {
        let mut commands: Vec<CommandSpec> = Vec::new();
        let mut i: usize = 0;
        while i < self.commands.len()
            invariant
                i <= self.commands.len(),
                commands.deep_view() == self.commands.deep_view().take(i as int),
            decreases self.commands.len() - i,
        {
            push_command(&mut commands, self.commands[i].clone());
            i = i + 1;
        }
        assert(self.commands.deep_view().take(self.commands.len() as int)
            =~= self.commands.deep_view());
        InstallStep { stage: self.stage, summary: self.summary.clone(), commands }
    }
}

impl InstallStep {
    /// The step of `stage` with `summary` and `commands`.
    pub fn new(stage: InstallStage, summary: &str, commands: Vec<CommandSpec>) -> (made: Self)
        ensures
            made@ == step(stage, summary@, commands.deep_view()),
    {
        InstallStep { stage, summary: String::from_str(summary), commands }
    }
}

/// The steps of one installation attempt, in the order in which they run.
#[derive(Debug)]
pub struct InstallPlan {
    steps: Vec<InstallStep>,
}

impl View for InstallPlan {
    type V = Seq<InstallStepView>;

    closed spec fn view(&self) -> Seq<InstallStepView> {
        self.steps.deep_view()
    }
}

impl Clone for InstallPlan {
    fn clone(&self) -> (copy: Self)
        ensures
            copy@ == self@,
    {
        let mut steps: Vec<InstallStep> = Vec::new();
        let mut i: usize = 0;
        while i < self.steps.len()
            invariant
                i <= self.steps.len(),
                steps.deep_view() == self.steps.deep_view().take(i as int),
            decreases self.steps.len() - i,
        {
            let ghost before = steps.deep_view();
            steps.push(self.steps[i].clone());
            assert(steps.deep_view() =~= before.push(self.steps@[i as int]@));
            i = i + 1;
        }
        InstallPlan { steps }
    }
}

impl InstallPlan {
    /// The plan that runs `steps` in order.
    pub fn new(steps: Vec<InstallStep>) -> (plan: Self)
        ensures
            plan@ == steps.deep_view(),
    {
        InstallPlan { steps }
    }

    /// The steps, in the order in which they run.
    pub fn steps(&self) -> (steps: &[InstallStep])
        ensures
            steps.deep_view() == self@,
            steps@.len() == self@.len(),
            forall|i: int| 0 <= i < steps@.len() ==> (#[trigger] steps@[i])@ == self@[i],
    {
        self.steps.as_slice()
    }

    /// Whether the plan holds no step.
    pub fn is_empty(&self) -> (empty: bool)
        ensures
            empty == (self@.len() == 0),
    {
        self.steps.len() == 0
    }
}

/// The device of partition `number` of `disk`, counting from one. Disks
/// whose name ends in a digit, as NVMe and eMMC disks do, have a `p` before
/// the number.
pub open spec fn device_path(disk: Seq<char>, number: nat) -> Seq<char> {
    if contains_text(disk, "nvme"@) || contains_text(disk, "mmcblk"@) {
        disk + "p"@ + decimal(number)
    } else {
        disk + decimal(number)
    }
}

/// The directory on which `part` is mounted, for a partition that has a
/// mountpoint: `root` itself for the root mountpoint, else the mountpoint
/// below `root`.
pub open spec fn mount_target(part: PartitionSpecView, root: Seq<char>) -> Option<Seq<char>> {
    match part.mountpoint {
        None => None,
        Some(mountpoint) => {
            let base = trim_end_char(root, '/');
            let below = trim_start_char(mountpoint, '/');
            if below.len() == 0 {
                Some(base)
            } else {
                Some(base + "/"@ + below)
            }
        },
    }
}

/// The command that creates the directory `path` and those above it.
pub open spec fn mkdir_command(path: Seq<char>) -> CommandSpecView {
    command("mkdir"@, seq!["-p"@, path])
}

/// The command that unmounts what is mounted on `path`.
pub open spec fn umount_command(path: Seq<char>) -> CommandSpecView {
    command("umount"@, seq![path])
}

/// What formatting and mounting the partitions of a plan comes to: the
/// commands of the two stages, and what has to be undone at the end.
pub struct FilesystemLayoutView {
    pub format_commands: Seq<CommandSpecView>,
    pub mount_commands: Seq<CommandSpecView>,
    pub mount_points: Seq<Seq<char>>,
    pub swap_devices: Seq<Seq<char>>,
}

impl FilesystemLayoutView {
    /// The layout of no partition.
    pub open spec fn empty() -> FilesystemLayoutView {
        FilesystemLayoutView {
            format_commands: Seq::empty(),
            mount_commands: Seq::empty(),
            mount_points: Seq::empty(),
            swap_devices: Seq::empty(),
        }
    }

    /// This layout, followed by `next`.
    pub open spec fn followed_by(self, next: FilesystemLayoutView) -> FilesystemLayoutView {
        FilesystemLayoutView {
            format_commands: self.format_commands + next.format_commands,
            mount_commands: self.mount_commands + next.mount_commands,
            mount_points: self.mount_points + next.mount_points,
            swap_devices: self.swap_devices + next.swap_devices,
        }
    }
}

/// The one command, or none.
pub open spec fn optional(made: Option<CommandSpecView>) -> Seq<CommandSpecView> {
    match made {
        Some(spec) => seq![spec],
        None => Seq::empty(),
    }
}

/// What partition `number` of `disk` adds to the layout. It is formatted.
/// Swap space is then taken into use, and remembered. Any other partition
/// with a mountpoint is mounted on its directory, which is created first
/// and remembered.
pub open spec fn partition_layout(
    disk: Seq<char>,
    part: PartitionSpecView,
    number: nat,
    root: Seq<char>,
) -> Result<FilesystemLayoutView, ValidationErrorView> {
    let device = device_path(disk, number);
    match mkfs_plan(device, part.filesystem) {
        Err(error) => Err(error),
        Ok(mkfs) => if part.filesystem is Swap {
            Ok(
                FilesystemLayoutView {
                    format_commands: optional(mkfs).push(swapon_command(device)),
                    mount_commands: Seq::empty(),
                    mount_points: Seq::empty(),
                    swap_devices: seq![device],
                },
            )
        } else {
            match mount_plan(part, device, root) {
                Err(error) => Err(error),
                Ok(None) => Ok(
                    FilesystemLayoutView {
                        format_commands: optional(mkfs),
                        mount_commands: Seq::empty(),
                        mount_points: Seq::empty(),
                        swap_devices: Seq::empty(),
                    },
                ),
                Ok(Some(mount)) => match mount_target(part, root) {
                    Some(target) => Ok(
                        FilesystemLayoutView {
                            format_commands: optional(mkfs),
                            mount_commands: seq![mkdir_command(target), mount],
                            mount_points: seq![target],
                            swap_devices: Seq::empty(),
                        },
                    ),
                    None => Ok(
                        FilesystemLayoutView {
                            format_commands: optional(mkfs),
                            mount_commands: seq![mount],
                            mount_points: Seq::empty(),
                            swap_devices: Seq::empty(),
                        },
                    ),
                },
            }
        },
    }
}

/// The layout of the first `n` partitions of `plan`, taken in declaration
/// order, or the first rejection met on the way.
pub open spec fn layout_after(plan: DiskPlanView, root: Seq<char>, n: int) -> Result<
    FilesystemLayoutView,
    ValidationErrorView,
>
    decreases n,
{
    if n <= 0 {
        Ok(FilesystemLayoutView::empty())
    } else {
        match layout_after(plan, root, n - 1) {
            Err(error) => Err(error),
            Ok(before) => match partition_layout(
                plan.target.path,
                plan.partitions[n - 1],
                n as nat,
                root,
            ) {
                Err(error) => Err(error),
                Ok(next) => Ok(before.followed_by(next)),
            },
        }
    }
}

/// The layout of all partitions of `plan`.
pub open spec fn filesystem_layout(plan: DiskPlanView, root: Seq<char>) -> Result<
    FilesystemLayoutView,
    ValidationErrorView,
> {
    layout_after(plan, root, plan.partitions.len() as int)
}

/// The commands that end an installation: pending writes are flushed, swap
/// space is taken out of use, and what was mounted is unmounted, last
/// mounted first. `root` is unmounted in any case: at the end, where it was
/// not remembered as a mount point.
pub open spec fn finalize_commands(
    mount_points: Seq<Seq<char>>,
    swap_devices: Seq<Seq<char>>,
    root: Seq<char>,
) -> Seq<CommandSpecView> {
    let released = seq![command("sync"@, Seq::empty())] + Seq::new(
        swap_devices.len(),
        |i: int| swapoff_command(swap_devices[i]),
    ) + Seq::new(
        mount_points.len(),
        |i: int| umount_command(mount_points[mount_points.len() - 1 - i]),
    );
    if mount_points.contains(root) {
        released
    } else {
        released.push(umount_command(root))
    }
}

/// The commands that configure the installed system below `root`: locale,
/// time zone, clock, the first user and its rights, then the services.
pub open spec fn config_commands(root: Seq<char>) -> Seq<CommandSpecView> {
    seq![
        in_target(root, seq!["sh"@, "-c"@, "locale-gen"@]),
        in_target(root, seq!["sh"@, "-c"@, "echo 'LANG=en_US.UTF-8' > /etc/locale.conf"@]),
        in_target(root, seq!["ln"@, "-sf"@, "/usr/share/zoneinfo/UTC"@, "/etc/localtime"@]),
        in_target(root, seq!["sh"@, "-c"@, "hwclock --systohc"@]),
        in_target(root, seq!["useradd"@, "-m"@, "-G"@, "wheel"@, "armuser"@]),
        in_target(root, seq!["sh"@, "-c"@, "echo 'armuser:armdistro' | chpasswd"@]),
        in_target(
            root,
            seq![
                "sh"@,
                "-c"@,
                "echo '%wheel ALL=(ALL) NOPASSWD: ALL' > /etc/sudoers.d/99-arm-distro"@,
            ],
        ),
    ] + enable_services(root)
}

/// The commands that install the boot loader of the system below `root`.
pub open spec fn bootloader_commands(root: Seq<char>) -> Seq<CommandSpecView> {
    seq![
        in_target(root, seq!["sh"@, "-c"@, "bootctl install"@]),
        in_target(root, seq!["sh"@, "-c"@, "echo 'default arch.conf' > /boot/loader/loader.conf"@]),
        in_target(root, seq!["sh"@, "-c"@, "mkinitcpio -P"@]),
    ]
}

/// The disk plan that an installation works on, with the summary of its
/// partitioning stage: the plan of the configuration where it has one, else
/// the default plan for the selected disk, else none.
pub open spec fn chosen_plan(state: InstallerStateView) -> Option<(Seq<char>, DiskPlanView)> {
    match state.target {
        Some(plan) => Some(("Apply partition layout to "@ + plan.target.path, plan)),
        None => match state.selected_disk {
            Some(disk) => Some(
                (
                    "Partition disk "@ + disk.path + " using default layout"@,
                    default_plan(disk),
                ),
            ),
            None => None,
        },
    }
}

/// The nine steps around the given partitioning stage and layout.
pub open spec fn steps_around(
    partition_summary: Seq<char>,
    partition_commands: Seq<CommandSpecView>,
    layout: FilesystemLayoutView,
    root: Seq<char>,
) -> Seq<InstallStepView> {
    seq![
        step(
            InstallStage::PrepareEnvironment,
            "Prepare live environment and validate selections"@,
            Seq::empty(),
        ),
        step(InstallStage::PartitionDisks, partition_summary, partition_commands),
        step(InstallStage::FormatFilesystems, "Format selected partitions"@, layout.format_commands),
        step(
            InstallStage::MountTarget,
            "Mount target partitions under "@ + root,
            layout.mount_commands,
        ),
        step(
            InstallStage::InstallBaseSystem,
            "Install minimal Arch base system"@,
            seq![pacstrap(root, base_packages())],
        ),
        step(
            InstallStage::InstallDesktopEnvironment,
            "Install GNOME desktop packages"@,
            seq![pacstrap(root, desktop_packages())],
        ),
        step(
            InstallStage::ConfigureSystem,
            "Configure locale, users, networking, and services"@,
            config_commands(root),
        ),
        step(
            InstallStage::InstallBootloader,
            "Install and configure bootloader"@,
            bootloader_commands(root),
        ),
        step(
            InstallStage::Finalize,
            "Finalize installation and clean up mounts"@,
            finalize_commands(layout.mount_points, layout.swap_devices, root),
        ),
    ]
}

/// The steps of the installation that `state` asks for, with the target
/// mounted on `root`. Without a disk the stages that work on one are empty,
/// and the plan says so. A disk plan that the planner rejects, or whose
/// partitions cannot be formatted or mounted, gives no plan at all.
pub open spec fn plan_steps(state: InstallerStateView, root: Seq<char>) -> Result<
    Seq<InstallStepView>,
    ValidationErrorView,
> {
    match chosen_plan(state) {
        None => Ok(
            steps_around(
                "No target disk selected; partitioning skipped"@,
                Seq::empty(),
                FilesystemLayoutView::empty(),
                root,
            ),
        ),
        Some((summary, plan)) => match command_plan(plan) {
            Err(error) => Err(error),
            Ok(commands) => match filesystem_layout(plan, root) {
                Err(error) => Err(error),
                Ok(layout) => Ok(steps_around(summary, commands, layout, root)),
            },
        },
    }
}

/// The device of partition `index` of the disk at `disk_path`, counting
/// from one.
pub fn partition_device_path(disk_path: &str, index: usize) -> (path: String)
    ensures
        path@ == device_path(disk_path@, index as nat),
{
    let number = decimal_string(index as u64);
    if text_contains(disk_path, "nvme") || text_contains(disk_path, "mmcblk") {
        String::from_str(disk_path).concat("p").concat(number.as_str())
    } else {
        String::from_str(disk_path).concat(number.as_str())
    }
}

/// The command that creates the directory `path` and those above it.
pub fn mkdir_p_command(path: String) -> (spec: CommandSpec)
    ensures
        spec@ == mkdir_command(path@),
{
    let mut args: Vec<String> = Vec::new();
    push_text(&mut args, "-p");
    push_text(&mut args, path.as_str());
    assert(args.deep_view() =~= seq!["-p"@, path@]);
    CommandSpec::new("mkdir", args)
}

/// The directory below `root` on which the partition `spec` is mounted,
/// where it has a mountpoint.
pub fn mount_target_path(spec: &PartitionSpec, root: &str) -> (path: Option<String>)
    ensures
        match path {
            Some(target) => mount_target(spec@, root@) == Some(target@),
            None => mount_target(spec@, root@) is None,
        },
{
    let mountpoint: &str = match &spec.mountpoint {
        Some(mountpoint) => mountpoint.as_str(),
        None => {
            return None;
        },
    };
    let base = trim_end_matches(root, '/');
    let below = trim_start_matches(mountpoint, '/');
    if below.as_str().is_empty() {
        Some(base)
    } else {
        Some(base.concat("/").concat(below.as_str()))
    }
}

/// The commands that end an installation on `TARGET_ROOT`, given the
/// directories that were mounted, in the order of mounting, and the devices
/// that were taken into use as swap space.
pub fn build_finalize_commands(mount_points: &[String], swap_devices: &[String]) -> (commands: Vec<
    CommandSpec,
>)
    ensures
        commands.deep_view() == finalize_commands(
            mount_points.deep_view(),
            swap_devices.deep_view(),
            TARGET_ROOT@,
        ),
{
    let ghost points = mount_points.deep_view();
    let ghost swaps = swap_devices.deep_view();
    let ghost sync = seq![command("sync"@, Seq::empty())];
    let ghost swapoffs = Seq::new(swaps.len(), |i: int| swapoff_command(swaps[i]));
    let ghost umounts = Seq::new(
        points.len(),
        |i: int| umount_command(points[points.len() - 1 - i]),
    );
    let mut commands: Vec<CommandSpec> = Vec::new();
    let no_args: Vec<String> = Vec::new();
    assert(no_args.deep_view() =~= Seq::<Seq<char>>::empty());
    push_command(&mut commands, CommandSpec::new("sync", no_args));

    let mut i: usize = 0;
    while i < swap_devices.len()
        invariant
            i <= swap_devices.len(),
            swaps == swap_devices.deep_view(),
            swapoffs == Seq::new(swaps.len(), |i: int| swapoff_command(swaps[i])),
            commands.deep_view() == sync + swapoffs.take(i as int),
        decreases swap_devices.len() - i,
    {
        push_command(&mut commands, deactivate_swap_command(swap_devices[i].as_str()));
        i = i + 1;
    }

    let root = String::from_str(TARGET_ROOT);
    let count: usize = mount_points.len();
    let mut seen_root = false;
    let mut done: usize = 0;
    while done < count
        invariant
            done <= count,
            count == mount_points.len(),
            points == mount_points.deep_view(),
            root@ == TARGET_ROOT@,
            umounts == Seq::new(
                points.len(),
                |i: int| umount_command(points[points.len() - 1 - i]),
            ),
            commands.deep_view() == sync + swapoffs + umounts.take(done as int),
            seen_root == (exists|j: int| count - done <= j < count && points[j] == root@),
        decreases count - done,
    {
        let path = &mount_points[count - 1 - done];
        assert(points[count - 1 - done] == path@);
        if *path == root {
            seen_root = true;
        }
        let mut args: Vec<String> = Vec::new();
        push_text(&mut args, path.as_str());
        assert(args.deep_view() =~= seq![path@]);
        push_command(&mut commands, CommandSpec::new("umount", args));
        done = done + 1;
    }
    if !seen_root {
        let mut args: Vec<String> = Vec::new();
        push_text(&mut args, TARGET_ROOT);
        push_command(&mut commands, CommandSpec::new("umount", args));
    }
    commands
}

fn shell_in_target(script: &str) -> (spec: CommandSpec)
    ensures
        spec@ == in_target(TARGET_ROOT@, seq!["sh"@, "-c"@, script@]),
{
    let inner: [&str; 3] = ["sh", "-c", script];
    assert(texts(inner@) =~= seq!["sh"@, "-c"@, script@]);
    in_target_command(TARGET_ROOT, inner.as_slice())
}

/// The commands that configure the installed system on `TARGET_ROOT`.
pub fn build_config_commands() -> (commands: Vec<CommandSpec>)
    ensures
        commands.deep_view() == config_commands(TARGET_ROOT@),
{
    let mut commands: Vec<CommandSpec> = Vec::new();

    push_command(&mut commands, shell_in_target("locale-gen"));
    push_command(&mut commands, shell_in_target("echo 'LANG=en_US.UTF-8' > /etc/locale.conf"));

    let link: [&str; 4] = ["ln", "-sf", "/usr/share/zoneinfo/UTC", "/etc/localtime"];
    assert(texts(link@) =~= seq!["ln"@, "-sf"@, "/usr/share/zoneinfo/UTC"@, "/etc/localtime"@]);
    push_command(&mut commands, in_target_command(TARGET_ROOT, link.as_slice()));

    push_command(&mut commands, shell_in_target("hwclock --systohc"));

    let user: [&str; 5] = ["useradd", "-m", "-G", "wheel", "armuser"];
    assert(texts(user@) =~= seq!["useradd"@, "-m"@, "-G"@, "wheel"@, "armuser"@]);
    push_command(&mut commands, in_target_command(TARGET_ROOT, user.as_slice()));

    push_command(&mut commands, shell_in_target("echo 'armuser:armdistro' | chpasswd"));
    push_command(
        &mut commands,
        shell_in_target("echo '%wheel ALL=(ALL) NOPASSWD: ALL' > /etc/sudoers.d/99-arm-distro"),
    );

    let ghost fixed = commands.deep_view();
    let services = enable_services_commands(TARGET_ROOT);
    let mut i: usize = 0;
    while i < services.len()
        invariant
            i <= services.len(),
            services.deep_view() == enable_services(TARGET_ROOT@),
            commands.deep_view() == fixed + services.deep_view().take(i as int),
        decreases services.len() - i,
    {
        push_command(&mut commands, services[i].clone());
        i = i + 1;
    }
    commands
}

/// The commands that install the boot loader of the system on
/// `TARGET_ROOT`.
pub fn build_bootloader_commands() -> (commands: Vec<CommandSpec>)
    ensures
        commands.deep_view() == bootloader_commands(TARGET_ROOT@),
{
    let mut commands: Vec<CommandSpec> = Vec::new();
    push_command(&mut commands, shell_in_target("bootctl install"));
    push_command(
        &mut commands,
        shell_in_target("echo 'default arch.conf' > /boot/loader/loader.conf"),
    );
    push_command(&mut commands, shell_in_target("mkinitcpio -P"));
    commands
}

/// What formatting and mounting the partitions of a plan comes to.
#[derive(Debug)]
pub struct FilesystemLayout {
    pub format_commands: Vec<CommandSpec>,
    pub mount_commands: Vec<CommandSpec>,
    pub mount_points: Vec<String>,
    pub swap_devices: Vec<String>,
}

impl View for FilesystemLayout {
    type V = FilesystemLayoutView;

    open spec fn view(&self) -> FilesystemLayoutView {
        FilesystemLayoutView {
            format_commands: self.format_commands.deep_view(),
            mount_commands: self.mount_commands.deep_view(),
            mount_points: self.mount_points.deep_view(),
            swap_devices: self.swap_devices.deep_view(),
        }
    }
}

impl FilesystemLayout {
    /// The layout of no partition.
    pub fn new() -> (layout: Self)
        ensures
            layout@ == FilesystemLayoutView::empty(),
    {
        let layout = FilesystemLayout {
            format_commands: Vec::new(),
            mount_commands: Vec::new(),
            mount_points: Vec::new(),
            swap_devices: Vec::new(),
        };
        assert(layout.mount_commands.deep_view() =~= Seq::<CommandSpecView>::empty());
        assert(layout.swap_devices.deep_view() =~= Seq::<Seq<char>>::empty());
        layout
    }
}

/// Works out how the partitions of `plan` are formatted and mounted below
/// `root`, in declaration order.
pub fn build_filesystem_layout(plan: &DiskPlan, root: &str) -> (res: Result<
    FilesystemLayout,
    ValidationError,
>)
    ensures
        match res {
            Ok(layout) => filesystem_layout(plan@, root@) == Ok::<
                FilesystemLayoutView,
                ValidationErrorView,
            >(layout@),
            Err(error) => filesystem_layout(plan@, root@) == Err::<
                FilesystemLayoutView,
                ValidationErrorView,
            >(error@),
        },
{
    let mut layout = FilesystemLayout::new();
    let count: usize = plan.partitions.len();
    let mut index: usize = 0;
    while index < count
        invariant
            index <= count,
            count == plan.partitions.len(),
            count == plan@.partitions.len(),
            layout_after(plan@, root@, index as int) == Ok::<
                FilesystemLayoutView,
                ValidationErrorView,
            >(layout@),
        decreases count - index,
    {
        let spec = &plan.partitions[index];
        let ghost before = layout@;
        let ghost disk = plan@.target.path;
        let device = partition_device_path(plan.target.path.as_str(), index + 1);
        let ghost step = partition_layout(disk, spec@, (index + 1) as nat, root@);

        match mkfs_command(device.as_str(), spec) {
            Ok(Some(mkfs)) => {
                push_command(&mut layout.format_commands, mkfs);
            },
            Ok(None) => {},
            Err(error) => {
                proof {
                    lemma_layout_error_stays(plan@, root@, index + 1, count as int);
                }
                return Err(error);
            },
        }
        if spec.filesystem == FileSystem::Swap {
            push_command(&mut layout.format_commands, activate_swap_command(device.as_str()));
            push_text(&mut layout.swap_devices, device.as_str());
            assert(layout@ =~= before.followed_by(step->Ok_0)) by {
                assert(layout@.format_commands =~= before.format_commands
                    + step->Ok_0.format_commands);
                assert(layout@.swap_devices =~= before.swap_devices + step->Ok_0.swap_devices);
            }
        } else {
            match mount_command(spec, device.as_str(), root) {
                Ok(Some(mount)) => {
                    match mount_target_path(spec, root) {
                        Some(target_path) => {
                            push_text(&mut layout.mount_points, target_path.as_str());
                            push_command(&mut layout.mount_commands, mkdir_p_command(target_path));
                        },
                        None => {},
                    }
                    push_command(&mut layout.mount_commands, mount);
                },
                Ok(None) => {},
                Err(error) => {
                    proof {
                        lemma_layout_error_stays(plan@, root@, index + 1, count as int);
                    }
                    return Err(error);
                },
            }
            assert(layout@ =~= before.followed_by(step->Ok_0)) by {
                assert(layout@.format_commands =~= before.format_commands
                    + step->Ok_0.format_commands);
                assert(layout@.mount_commands =~= before.mount_commands
                    + step->Ok_0.mount_commands);
                assert(layout@.mount_points =~= before.mount_points + step->Ok_0.mount_points);
            }
        }
        index = index + 1;
    }
    Ok(layout)
}

/// The line of a plan summary for the step at place `number`, counting
/// from one.
pub open spec fn summary_line(number: nat, step: InstallStepView) -> Seq<char> {
    decimal(number) + ". "@ + stage_name(step.stage) + ": "@ + step.summary + " ("@ + decimal(
        step.commands.len(),
    ) + " commands)"@
}

/// The lines of a plan summary: a heading, then one line for each step.
pub open spec fn summary_lines(steps: Seq<InstallStepView>) -> Seq<Seq<char>> {
    seq!["Installation plan:"@] + Seq::new(steps.len(), |i: int| summary_line((i + 1) as nat, steps[i]))
}

/// The summary of a plan as one text, its lines parted by line feeds.
pub open spec fn plan_summary(steps: Seq<InstallStepView>) -> Seq<char> {
    join_with(summary_lines(steps), "\n"@)
}

/// Sums up `plan` for display: each stage with its summary and the number
/// of its commands.
pub fn build_install_plan_summary(plan: &InstallPlan) -> (text: String)
    ensures
        text@ == plan_summary(plan@),
{
    let steps = plan.steps();
    let mut lines: Vec<String> = Vec::new();
    push_text(&mut lines, "Installation plan:");
    let mut i: usize = 0;
    while i < steps.len()
        invariant
            i <= steps.len(),
            steps@.len() == plan@.len(),
            forall|k: int| 0 <= k < steps@.len() ==> (#[trigger] steps@[k])@ == plan@[k],
            lines.deep_view() == summary_lines(plan@).take(i + 1),
        decreases steps.len() - i,
    {
        let step = &steps[i];
        let number = decimal_string((i + 1) as u64);
        let count = decimal_string(step.commands.len() as u64);
        let line = number.concat(". ").concat(step.stage.name()).concat(": ").concat(
            step.summary.as_str(),
        ).concat(" (").concat(count.as_str()).concat(" commands)");
        push_text(&mut lines, line.as_str());
        i = i + 1;
    }
    assert(summary_lines(plan@).take(steps.len() + 1) =~= summary_lines(plan@));
    join(&lines, "\n")
}

/// A rejection met among the first `k` partitions is the one met on any
/// longer way.
pub proof fn lemma_layout_error_stays(plan: DiskPlanView, root: Seq<char>, k: int, n: int)
    requires
        k <= n,
        layout_after(plan, root, k) is Err,
    ensures
        layout_after(plan, root, n) == layout_after(plan, root, k),
    decreases n - k,
{
    if k < n {
        lemma_layout_error_stays(plan, root, k, n - 1);
    }
}

/// Adds `next` at the end of `steps`.
fn push_step(steps: &mut Vec<InstallStep>, next: InstallStep)
    ensures
        final(steps).deep_view() == old(steps).deep_view().push(next@),
{
    steps.push(next);
}

/// Builds the plan of the installation that `state` asks for, with the
/// target mounted on `TARGET_ROOT`.
pub fn build_plan(state: &InstallerState) -> (res: Result<InstallPlan, ValidationError>)
    ensures
        match res {
            Ok(plan) => plan_steps(state@, TARGET_ROOT@) == Ok::<
                Seq<InstallStepView>,
                ValidationErrorView,
            >(plan@),
            Err(error) => plan_steps(state@, TARGET_ROOT@) == Err::<
                Seq<InstallStepView>,
                ValidationErrorView,
            >(error@),
        },
{
    let synthesized: Option<DiskPlan> = match (&state.target, &state.selected_disk) {
        (None, Some(disk)) => Some(default_plan_for_disk(disk)),
        _ => None,
    };
    let (partition_summary, partition_commands, layout) = match &state.target {
        Some(plan) => {
            let commands = match build_command_plan(plan) {
                Ok(built) => built.commands,
                Err(error) => {
                    return Err(error);
                },
            };
            let layout = match build_filesystem_layout(plan, TARGET_ROOT) {
                Ok(layout) => layout,
                Err(error) => {
                    return Err(error);
                },
            };
            let summary = String::from_str("Apply partition layout to ").concat(
                plan.target.path.as_str(),
            );
            (summary, commands, layout)
        },
        None => match (&state.selected_disk, &synthesized) {
            (Some(disk), Some(plan)) => {
                let commands = match build_command_plan(plan) {
                    Ok(built) => built.commands,
                    Err(error) => {
                        return Err(error);
                    },
                };
                let layout = match build_filesystem_layout(plan, TARGET_ROOT) {
                    Ok(layout) => layout,
                    Err(error) => {
                        return Err(error);
                    },
                };
                let summary = String::from_str("Partition disk ").concat(
                    disk.path.as_str(),
                ).concat(" using default layout");
                (summary, commands, layout)
            },
            _ => {
                let commands: Vec<CommandSpec> = Vec::new();
                (
                    String::from_str("No target disk selected; partitioning skipped"),
                    commands,
                    FilesystemLayout::new(),
                )
            },
        },
    };
    let ghost summary_view = partition_summary@;
    let ghost commands_view = partition_commands.deep_view();
    let ghost layout_view = layout@;

    let mut steps: Vec<InstallStep> = Vec::new();
    let no_commands: Vec<CommandSpec> = Vec::new();
    assert(no_commands.deep_view() =~= Seq::<CommandSpecView>::empty());
    push_step(
        &mut steps,
        InstallStep::new(
            InstallStage::PrepareEnvironment,
            "Prepare live environment and validate selections",
            no_commands,
        ),
    );
    push_step(
        &mut steps,
        InstallStep::new(
            InstallStage::PartitionDisks,
            partition_summary.as_str(),
            partition_commands,
        ),
    );
    let finalize = build_finalize_commands(
        layout.mount_points.as_slice(),
        layout.swap_devices.as_slice(),
    );
    push_step(
        &mut steps,
        InstallStep::new(
            InstallStage::FormatFilesystems,
            "Format selected partitions",
            layout.format_commands,
        ),
    );
    let mount_summary = String::from_str("Mount target partitions under ").concat(TARGET_ROOT);
    push_step(
        &mut steps,
        InstallStep::new(InstallStage::MountTarget, mount_summary.as_str(), layout.mount_commands),
    );
    let mut base: Vec<CommandSpec> = Vec::new();
    push_command(&mut base, install_base_packages(TARGET_ROOT));
    push_step(
        &mut steps,
        InstallStep::new(InstallStage::InstallBaseSystem, "Install minimal Arch base system", base),
    );
    let mut desktop: Vec<CommandSpec> = Vec::new();
    push_command(&mut desktop, install_desktop_packages(TARGET_ROOT));
    push_step(
        &mut steps,
        InstallStep::new(
            InstallStage::InstallDesktopEnvironment,
            "Install GNOME desktop packages",
            desktop,
        ),
    );
    push_step(
        &mut steps,
        InstallStep::new(
            InstallStage::ConfigureSystem,
            "Configure locale, users, networking, and services",
            build_config_commands(),
        ),
    );
    push_step(
        &mut steps,
        InstallStep::new(
            InstallStage::InstallBootloader,
            "Install and configure bootloader",
            build_bootloader_commands(),
        ),
    );
    push_step(
        &mut steps,
        InstallStep::new(
            InstallStage::Finalize,
            "Finalize installation and clean up mounts",
            finalize,
        ),
    );
    assert(steps.deep_view() =~= steps_around(
        summary_view,
        commands_view,
        layout_view,
        TARGET_ROOT@,
    ));
    Ok(InstallPlan::new(steps))
}

} // verus!
