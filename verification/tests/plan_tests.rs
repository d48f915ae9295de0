use installer::command::CommandSpec;
use installer::engine::{
    emit_shown_lines, outcome_succeeded, report_outcome, status_string, Backend, LogBuffer,
    LogSink, LogStream,
};
use installer::command::{CommandError, CommandOutput};
use installer::error::ValidationError;
use installer::scripted::ScriptedExecutor;
use installer::state::{
    DiskIdentifier, DiskMode, DiskPlan, FileSystem, InstallerState, PartitionFlag, PartitionSize,
    PartitionSpec,
};
use installer::tasks::{
    build_bootloader_commands, build_config_commands, build_filesystem_layout,
    build_finalize_commands, build_plan, mkdir_p_command, mount_target_path,
    partition_device_path, InstallPlan, InstallStage, InstallStep, STAGE_COUNT, TARGET_ROOT,
};

const GIB: u64 = 1024 * 1024 * 1024;

fn texts(values: &[&str]) -> Vec<String> {
    values.iter().map(|v| v.to_string()).collect()
}

fn line(spec: &CommandSpec) -> String {
    format!("{} {}", spec.program, spec.args.join(" "))
}

fn lines_of(commands: &[CommandSpec]) -> Vec<String> {
    commands.iter().map(line).collect()
}

fn disk(path: &str, size_bytes: u64) -> DiskIdentifier {
    DiskIdentifier { path: path.to_string(), size_bytes, label: None }
}

fn part(id: &str, fs: FileSystem, mountpoint: Option<&str>, size: PartitionSize) -> PartitionSpec {
    PartitionSpec {
        id: id.to_string(),
        mountpoint: mountpoint.map(|m| m.to_string()),
        filesystem: fs,
        size,
        flags: Vec::new(),
    }
}

fn stages() -> Vec<InstallStage> {
    vec![
        InstallStage::PrepareEnvironment,
        InstallStage::PartitionDisks,
        InstallStage::FormatFilesystems,
        InstallStage::MountTarget,
        InstallStage::InstallBaseSystem,
        InstallStage::InstallDesktopEnvironment,
        InstallStage::ConfigureSystem,
        InstallStage::InstallBootloader,
        InstallStage::Finalize,
    ]
}

#[test]
fn device_path_of_plain_disks() {
    assert_eq!(partition_device_path("/dev/sda", 1), "/dev/sda1");
    assert_eq!(partition_device_path("/dev/vdb", 12), "/dev/vdb12");
}

#[test]
fn device_path_of_nvme_and_emmc_disks() {
    assert_eq!(partition_device_path("/dev/nvme0n1", 1), "/dev/nvme0n1p1");
    assert_eq!(partition_device_path("/dev/nvme0n1", 2), "/dev/nvme0n1p2");
    assert_eq!(partition_device_path("/dev/mmcblk0", 3), "/dev/mmcblk0p3");
}

#[test]
fn mount_target_paths() {
    let root = part("root", FileSystem::Ext4, Some("/"), PartitionSize::Remainder);
    assert_eq!(mount_target_path(&root, "/mnt/arm-distro").as_deref(), Some("/mnt/arm-distro"));
    assert_eq!(mount_target_path(&root, "/mnt/arm-distro/").as_deref(), Some("/mnt/arm-distro"));
    let efi = part("esp", FileSystem::Fat32, Some("/boot/efi"), PartitionSize::Remainder);
    assert_eq!(
        mount_target_path(&efi, "/mnt/arm-distro").as_deref(),
        Some("/mnt/arm-distro/boot/efi")
    );
    let none = part("raw", FileSystem::Ext4, None, PartitionSize::Remainder);
    assert_eq!(mount_target_path(&none, "/mnt/arm-distro"), None);
    let empty = part("raw", FileSystem::Ext4, Some(""), PartitionSize::Remainder);
    assert_eq!(mount_target_path(&empty, "/mnt/x/").as_deref(), Some("/mnt/x"));
}

#[test]
fn mkdir_command() {
    assert_eq!(line(&mkdir_p_command("/mnt/a b".to_string())), "mkdir -p /mnt/a b");
}

#[test]
fn finalize_unmounts_in_reverse_order() {
    let mounts = texts(&["/mnt/arm-distro", "/mnt/arm-distro/boot", "/mnt/arm-distro/home"]);
    let swaps = texts(&["/dev/sda2", "/dev/sda5"]);
    let commands = build_finalize_commands(&mounts, &swaps);
    assert_eq!(commands[0].program, "sync");
    assert!(commands[0].args.is_empty());
    assert_eq!(
        lines_of(&commands[1..]),
        vec![
            "swapoff /dev/sda2",
            "swapoff /dev/sda5",
            "umount /mnt/arm-distro/home",
            "umount /mnt/arm-distro/boot",
            "umount /mnt/arm-distro",
        ]
    );
}

#[test]
fn finalize_unmounts_the_root_even_if_it_was_not_mounted() {
    let commands = build_finalize_commands(&texts(&["/mnt/arm-distro/boot"]), &[]);
    assert_eq!(
        lines_of(&commands[1..]),
        vec!["umount /mnt/arm-distro/boot", "umount /mnt/arm-distro"]
    );
    let commands = build_finalize_commands(&[], &[]);
    assert_eq!(commands.len(), 2);
    assert_eq!(line(&commands[1]), "umount /mnt/arm-distro");
}

#[test]
fn finalize_unmounts_a_root_that_was_mounted_exactly_once() {
    let commands = build_finalize_commands(&texts(&["/mnt/arm-distro"]), &[]);
    let roots = commands
        .iter()
        .filter(|c| c.program == "umount" && c.args == texts(&[TARGET_ROOT]))
        .count();
    assert_eq!(roots, 1);
    assert_eq!(commands.len(), 2);
}

#[test]
fn config_commands_are_fixed() {
    let commands = build_config_commands();
    let expected: Vec<Vec<&str>> = vec![
        vec!["/mnt/arm-distro", "sh", "-c", "locale-gen"],
        vec!["/mnt/arm-distro", "sh", "-c", "echo 'LANG=en_US.UTF-8' > /etc/locale.conf"],
        vec!["/mnt/arm-distro", "ln", "-sf", "/usr/share/zoneinfo/UTC", "/etc/localtime"],
        vec!["/mnt/arm-distro", "sh", "-c", "hwclock --systohc"],
        vec!["/mnt/arm-distro", "useradd", "-m", "-G", "wheel", "armuser"],
        vec!["/mnt/arm-distro", "sh", "-c", "echo 'armuser:armdistro' | chpasswd"],
        vec![
            "/mnt/arm-distro",
            "sh",
            "-c",
            "echo '%wheel ALL=(ALL) NOPASSWD: ALL' > /etc/sudoers.d/99-arm-distro",
        ],
        vec!["/mnt/arm-distro", "systemctl", "enable", "gdm.service"],
        vec!["/mnt/arm-distro", "systemctl", "enable", "NetworkManager.service"],
        vec!["/mnt/arm-distro", "systemctl", "enable", "sshd.service"],
    ];
    assert_eq!(commands.len(), expected.len());
    for (command, args) in commands.iter().zip(expected.iter()) {
        assert_eq!(command.program, "arch-chroot");
        assert_eq!(command.args, texts(args));
    }
}

#[test]
fn bootloader_commands_are_fixed() {
    let commands = build_bootloader_commands();
    let expected: Vec<Vec<&str>> = vec![
        vec!["/mnt/arm-distro", "sh", "-c", "bootctl install"],
        vec!["/mnt/arm-distro", "sh", "-c", "echo 'default arch.conf' > /boot/loader/loader.conf"],
        vec!["/mnt/arm-distro", "sh", "-c", "mkinitcpio -P"],
    ];
    assert_eq!(commands.len(), expected.len());
    for (command, args) in commands.iter().zip(expected.iter()) {
        assert_eq!(command.program, "arch-chroot");
        assert_eq!(command.args, texts(args));
    }
}

#[test]
fn stage_names() {
    let names: Vec<&str> = stages().iter().map(|s| s.name()).collect();
    assert_eq!(
        names,
        vec![
            "PrepareEnvironment",
            "PartitionDisks",
            "FormatFilesystems",
            "MountTarget",
            "InstallBaseSystem",
            "InstallDesktopEnvironment",
            "ConfigureSystem",
            "InstallBootloader",
            "Finalize",
        ]
    );
    for stage in stages() {
        assert_eq!(stage.name(), format!("{:?}", stage));
        assert_eq!(stage.is_terminal(), stage == InstallStage::Finalize);
    }
}

#[test]
fn plan_without_disk_has_every_stage_and_explains() {
    let plan = build_plan(&InstallerState::default()).unwrap();
    let steps = plan.steps();
    assert_eq!(steps.len(), STAGE_COUNT);
    assert!(!plan.is_empty());
    let seen: Vec<InstallStage> = steps.iter().map(|s| s.stage).collect();
    assert_eq!(seen, stages());
    assert_eq!(steps[0].summary, "Prepare live environment and validate selections");
    assert!(steps[0].commands.is_empty());
    assert_eq!(steps[1].summary, "No target disk selected; partitioning skipped");
    assert!(steps[1].commands.is_empty());
    assert!(steps[2].commands.is_empty());
    assert!(steps[3].commands.is_empty());
    assert_eq!(steps[4].commands.len(), 1);
    assert_eq!(steps[5].commands.len(), 1);
    assert_eq!(steps[6].commands.len(), 10);
    assert_eq!(steps[7].commands.len(), 3);
    assert_eq!(lines_of(&steps[8].commands[1..]), vec!["umount /mnt/arm-distro"]);
    assert_eq!(steps[8].commands[0].program, "sync");
}

#[test]
fn plan_for_a_selected_disk_uses_the_default_layout() {
    let mut state = InstallerState::default();
    state.selected_disk = Some(disk("/dev/sda", 20 * GIB));
    let plan = build_plan(&state).unwrap();
    let steps = plan.steps();
    let seen: Vec<InstallStage> = steps.iter().map(|s| s.stage).collect();
    assert_eq!(seen, stages());

    assert_eq!(steps[1].summary, "Partition disk /dev/sda using default layout");
    assert_eq!(
        lines_of(&steps[1].commands),
        vec![
            "parted /dev/sda --script mklabel gpt",
            "parted /dev/sda --script mkpart esp fat32 1MiB 513MiB",
            "parted /dev/sda --script set 1 esp on",
            "parted /dev/sda --script set 1 boot on",
            "parted /dev/sda --script mkpart root ext4 513MiB 20480MiB",
        ]
    );
    assert_eq!(steps[2].summary, "Format selected partitions");
    assert_eq!(
        lines_of(&steps[2].commands),
        vec!["mkfs.fat -F 32 /dev/sda1", "mkfs.ext4 -F /dev/sda2"]
    );
    assert_eq!(steps[3].summary, "Mount target partitions under /mnt/arm-distro");
    assert_eq!(
        lines_of(&steps[3].commands),
        vec![
            "mkdir -p /mnt/arm-distro/boot/efi",
            "mount /dev/sda1 /mnt/arm-distro/boot/efi",
            "mkdir -p /mnt/arm-distro",
            "mount /dev/sda2 /mnt/arm-distro/",
        ]
    );
    assert_eq!(steps[4].summary, "Install minimal Arch base system");
    assert_eq!(
        lines_of(&steps[4].commands),
        vec!["pacstrap /mnt/arm-distro base linux-zen linux-zen-firmware openssh networkmanager"]
    );
    assert_eq!(steps[5].summary, "Install GNOME desktop packages");
    assert_eq!(steps[6].summary, "Configure locale, users, networking, and services");
    assert_eq!(steps[7].summary, "Install and configure bootloader");
    assert_eq!(steps[8].summary, "Finalize installation and clean up mounts");
    assert_eq!(
        lines_of(&steps[8].commands[1..]),
        vec!["umount /mnt/arm-distro", "umount /mnt/arm-distro/boot/efi"]
    );
}

fn custom_state() -> InstallerState {
    let mut esp = part("esp", FileSystem::Fat32, Some("/boot"), PartitionSize::ExactBytes(GIB));
    esp.flags = vec![PartitionFlag::Esp];
    let swap = part("swap", FileSystem::Swap, None, PartitionSize::Percentage(10));
    let root = part("root", FileSystem::Btrfs, Some("/"), PartitionSize::Percentage(40));
    let raw = part("raw", FileSystem::Xfs, None, PartitionSize::ExactBytes(GIB));
    let home = part("home", FileSystem::Ext4, Some("home"), PartitionSize::Remainder);
    let mut state = InstallerState::default();
    state.selected_disk = Some(disk("/dev/sdz", GIB));
    state.target = Some(DiskPlan {
        target: disk("/dev/nvme0n1", 100 * GIB),
        mode: DiskMode::Custom,
        partitions: vec![esp, swap, root, raw, home],
    });
    state
}

#[test]
fn plan_for_an_explicit_layout() {
    let plan = build_plan(&custom_state()).unwrap();
    let steps = plan.steps();
    assert_eq!(steps[1].summary, "Apply partition layout to /dev/nvme0n1");
    assert_eq!(
        lines_of(&steps[1].commands),
        vec![
            "parted /dev/nvme0n1 --script mklabel gpt",
            "parted /dev/nvme0n1 --script mkpart esp fat32 1MiB 1025MiB",
            "parted /dev/nvme0n1 --script set 1 esp on",
            "parted /dev/nvme0n1 --script mkpart swap 1025MiB 11265MiB",
            "parted /dev/nvme0n1 --script mkpart root btrfs 11265MiB 52225MiB",
            "parted /dev/nvme0n1 --script mkpart raw xfs 52225MiB 53249MiB",
            "parted /dev/nvme0n1 --script mkpart home ext4 53249MiB 102400MiB",
        ]
    );
    assert_eq!(
        lines_of(&steps[2].commands),
        vec![
            "mkfs.fat -F 32 /dev/nvme0n1p1",
            "mkswap /dev/nvme0n1p2",
            "swapon /dev/nvme0n1p2",
            "mkfs.btrfs -f /dev/nvme0n1p3",
            "mkfs.xfs -f /dev/nvme0n1p4",
            "mkfs.ext4 -F /dev/nvme0n1p5",
        ]
    );
    assert_eq!(
        lines_of(&steps[3].commands),
        vec![
            "mkdir -p /mnt/arm-distro/boot",
            "mount /dev/nvme0n1p1 /mnt/arm-distro/boot",
            "mkdir -p /mnt/arm-distro",
            "mount /dev/nvme0n1p3 /mnt/arm-distro/",
            "mkdir -p /mnt/arm-distro/home",
            "mount /dev/nvme0n1p5 /mnt/arm-distro/home",
        ]
    );
    assert_eq!(
        lines_of(&steps[8].commands[1..]),
        vec![
            "swapoff /dev/nvme0n1p2",
            "umount /mnt/arm-distro/home",
            "umount /mnt/arm-distro",
            "umount /mnt/arm-distro/boot",
        ]
    );
}

#[test]
fn unmount_order_is_the_reverse_of_the_mount_order() {
    let plan = build_plan(&custom_state()).unwrap();
    let steps = plan.steps();
    let mounted: Vec<String> = steps[3]
        .commands
        .iter()
        .filter(|c| c.program == "mkdir")
        .map(|c| c.args[1].clone())
        .collect();
    let unmounted: Vec<String> = steps[8]
        .commands
        .iter()
        .filter(|c| c.program == "umount")
        .map(|c| c.args[0].clone())
        .collect();
    let mut reversed = mounted.clone();
    reversed.reverse();
    assert_eq!(unmounted, reversed);
    assert_eq!(unmounted.iter().filter(|p| p.as_str() == TARGET_ROOT).count(), 1);
}

#[test]
fn filesystem_layout_remembers_mounts_and_swap() {
    let state = custom_state();
    let layout = build_filesystem_layout(state.target.as_ref().unwrap(), "/target/").unwrap();
    assert_eq!(layout.swap_devices, texts(&["/dev/nvme0n1p2"]));
    assert_eq!(layout.mount_points, texts(&["/target/boot", "/target", "/target/home"]));
    assert_eq!(layout.format_commands.len(), 6);
    assert_eq!(layout.mount_commands.len(), 6);
}

#[test]
fn plan_fails_where_the_planner_rejects_the_layout() {
    let mut state = InstallerState::default();
    state.target = Some(DiskPlan {
        target: disk("/dev/sda", 20 * GIB),
        mode: DiskMode::Custom,
        partitions: vec![part("data", FileSystem::Ext4, None, PartitionSize::Percentage(150))],
    });
    let error = build_plan(&state).unwrap_err();
    assert!(matches!(error, ValidationError::Size { .. }));
}

#[test]
fn plan_fails_on_an_empty_custom_filesystem_name() {
    let mut state = InstallerState::default();
    state.target = Some(DiskPlan {
        target: disk("/dev/sda", 20 * GIB),
        mode: DiskMode::Custom,
        partitions: vec![
            part("ok", FileSystem::Ext4, Some("/"), PartitionSize::Percentage(50)),
            part("bad", FileSystem::Other(String::new()), None, PartitionSize::Remainder),
        ],
    });
    assert!(matches!(build_plan(&state).unwrap_err(), ValidationError::EmptyFilesystemName));
}

#[test]
fn plan_fails_on_an_empty_mountpoint() {
    let mut state = InstallerState::default();
    state.target = Some(DiskPlan {
        target: disk("/dev/sda", 20 * GIB),
        mode: DiskMode::Custom,
        partitions: vec![part("bad", FileSystem::Ext4, Some(""), PartitionSize::Remainder)],
    });
    assert!(matches!(build_plan(&state).unwrap_err(), ValidationError::EmptyMountpoint));
}

#[test]
fn plan_accessors() {
    let empty = InstallPlan::new(Vec::new());
    assert!(empty.is_empty());
    assert!(empty.steps().is_empty());
    let step = InstallStep::new(
        InstallStage::Finalize,
        "done",
        vec![CommandSpec::new("sync", Vec::new())],
    );
    assert_eq!(step.stage, InstallStage::Finalize);
    assert_eq!(step.summary, "done");
    let plan = InstallPlan::new(vec![step.clone(), step]);
    assert!(!plan.is_empty());
    assert_eq!(plan.steps().len(), 2);
    let copy = plan.clone();
    assert_eq!(copy.steps().len(), 2);
    assert_eq!(copy.steps()[1].summary, "done");
    assert_eq!(copy.steps()[1].commands[0].program, "sync");
}

fn two_stage_plan() -> (InstallPlan, CommandSpec, CommandSpec, CommandSpec) {
    let first = CommandSpec::new("echo", texts(&["one"]));
    let second = CommandSpec::new("false", Vec::new());
    let third = CommandSpec::new("echo", texts(&["never"]));
    let plan = InstallPlan::new(vec![
        InstallStep::new(
            InstallStage::PartitionDisks,
            "two commands",
            vec![first.clone(), second.clone()],
        ),
        InstallStep::new(InstallStage::FormatFilesystems, "later", vec![third.clone()]),
    ]);
    (plan, first, second, third)
}

struct CountingExecutor {
    inner: ScriptedExecutor,
    seen: std::cell::RefCell<Vec<String>>,
}

impl installer::command::CommandExecutor for CountingExecutor {
    fn run(&self, spec: &CommandSpec) -> installer::command::CommandOutcome {
        self.seen.borrow_mut().push(line(spec));
        self.inner.run(spec)
    }
}

#[test]
fn run_stops_at_the_first_failing_command() {
    let (plan, first, second, third) = two_stage_plan();
    let executor = CountingExecutor {
        inner: ScriptedExecutor::new()
            .on(first, "one\n", "", Some(0))
            .on(second, "", "", Some(1))
            .on(third, "never\n", "", Some(0)),
        seen: std::cell::RefCell::new(Vec::new()),
    };
    let backend = Backend::with_executor(InstallerState::default(), executor);
    let mut log = LogBuffer::new();
    let success = backend.execute_plan_stream(plan, &mut log);
    assert!(!success);
    assert_eq!(
        log.entries,
        vec![
            "== PartitionDisks ==\ntwo commands",
            "$ echo one",
            "one",
            "$ false ",
            "command exited with status Some(1)",
        ]
    );
    let failures = log
        .entries
        .iter()
        .filter(|l| l.starts_with("command exited") || l.starts_with("error:"))
        .count();
    assert_eq!(failures, 1);
    assert_eq!(*backend.executor.seen.borrow(), vec!["echo one", "false "]);
}

#[test]
fn run_reports_every_stage_when_all_commands_succeed() {
    let (plan, first, second, third) = two_stage_plan();
    let executor = ScriptedExecutor::new()
        .on(first, "one\n\n  \nmore\r\n", "careful\n", Some(0))
        .on(second, "", "", Some(0))
        .on(third, "never", "", Some(0));
    let backend = Backend::with_executor(InstallerState::default(), executor);
    let mut log = LogBuffer::new();
    assert!(backend.execute_plan_stream(plan, &mut log));
    assert_eq!(
        log.entries,
        vec![
            "== PartitionDisks ==\ntwo commands",
            "$ echo one",
            "one",
            "more",
            "stderr: careful",
            "$ false ",
            "== FormatFilesystems ==\nlater",
            "$ echo never",
            "never",
        ]
    );
}

#[test]
fn run_stops_when_a_command_cannot_be_run() {
    let (plan, first, second, _third) = two_stage_plan();
    let executor = ScriptedExecutor::new()
        .refuse(first, "No such file or directory")
        .on(second, "", "", Some(0));
    let backend = Backend::with_executor(InstallerState::default(), executor);
    let mut log = LogBuffer::new();
    log.emit("earlier".to_string());
    assert!(!backend.execute_plan_stream(plan, &mut log));
    assert_eq!(
        log.entries,
        vec![
            "earlier",
            "== PartitionDisks ==\ntwo commands",
            "$ echo one",
            "error: failed to run echo: No such file or directory",
        ]
    );
}

#[test]
fn run_of_an_empty_plan_succeeds() {
    let backend = Backend::with_executor(InstallerState::default(), ScriptedExecutor::new());
    let mut log = LogBuffer::new();
    assert!(backend.execute_plan_stream(InstallPlan::new(Vec::new()), &mut log));
    assert!(log.entries.is_empty());
}

#[test]
fn run_enters_stages_without_commands() {
    let plan = InstallPlan::new(vec![
        InstallStep::new(InstallStage::PrepareEnvironment, "nothing to do", Vec::new()),
        InstallStep::new(InstallStage::Finalize, "nothing either", Vec::new()),
    ]);
    let backend = Backend::with_executor(InstallerState::default(), ScriptedExecutor::new());
    let mut log = LogBuffer::new();
    assert!(backend.execute_plan_stream(plan, &mut log));
    assert_eq!(
        log.entries,
        vec!["== PrepareEnvironment ==\nnothing to do", "== Finalize ==\nnothing either"]
    );
}

#[test]
fn begin_installation_builds_the_plan_of_the_configuration() {
    let mut state = InstallerState::default();
    state.selected_disk = Some(disk("/dev/mmcblk0", 8 * GIB));
    let backend = Backend::with_executor(state, ScriptedExecutor::new());
    let plan = backend.begin_installation().unwrap();
    assert_eq!(plan.steps().len(), 9);
    assert_eq!(plan.steps()[1].summary, "Partition disk /dev/mmcblk0 using default layout");
    assert_eq!(
        lines_of(&plan.steps()[2].commands),
        vec!["mkfs.fat -F 32 /dev/mmcblk0p1", "mkfs.ext4 -F /dev/mmcblk0p2"]
    );

    let mut bad = InstallerState::default();
    bad.selected_disk = Some(disk("/dev/sda", 1000));
    let backend = Backend::with_executor(bad, ScriptedExecutor::new());
    assert!(matches!(backend.begin_installation().unwrap_err(), ValidationError::DiskTooSmall));
}

#[test]
fn outcome_reports() {
    let spec = CommandSpec::new("tool", texts(&["x"]));
    let mut log = LogBuffer::new();

    let good = Ok(CommandOutput::new(&spec, "a\n \nb".to_string(), String::new(), Some(0)));
    assert!(outcome_succeeded(&good));
    assert!(report_outcome(&spec, &good, &mut log));
    assert_eq!(log.entries, vec!["a", "b"]);

    let mut log = LogBuffer::new();
    let killed = Ok(CommandOutput::new(&spec, String::new(), "e1\ne2\n".to_string(), None));
    assert!(!outcome_succeeded(&killed));
    assert!(!report_outcome(&spec, &killed, &mut log));
    assert_eq!(log.entries, vec!["stderr: e1", "stderr: e2", "command exited with status None"]);

    let mut log = LogBuffer::new();
    let negative = Ok(CommandOutput::new(&spec, String::new(), String::new(), Some(-7)));
    assert!(!report_outcome(&spec, &negative, &mut log));
    assert_eq!(log.entries, vec!["command exited with status Some(-7)"]);

    let mut log = LogBuffer::new();
    let refused = Err(CommandError { message: "denied".to_string() });
    assert!(!outcome_succeeded(&refused));
    assert!(!report_outcome(&spec, &refused, &mut log));
    assert_eq!(log.entries, vec!["error: failed to run tool: denied"]);
}

#[test]
fn shown_lines_skip_blank_lines() {
    let mut log = LogBuffer::new();
    emit_shown_lines("\n one \n\t\nlast", "> ", &mut log);
    assert_eq!(log.entries, vec![">  one ", "> last"]);
    assert_eq!(status_string(Some(0)), "Some(0)");
    assert_eq!(status_string(Some(255)), "Some(255)");
    assert_eq!(status_string(None), "None");
}

#[test]
fn run_streams_each_line_to_a_callback() {
    let (plan, first, second, third) = two_stage_plan();
    let executor = ScriptedExecutor::new()
        .on(first, "", "", Some(0))
        .on(second, "", "", Some(0))
        .on(third, "done", "", Some(0));
    let backend = Backend::with_executor(InstallerState::default(), executor);
    let mut seen: Vec<String> = Vec::new();
    let mut stream = LogStream::new(|line: String| seen.push(line));
    stream.emit("start".to_string());
    let success = backend.execute_plan_stream(plan, &mut stream);
    drop(stream);
    assert!(success);
    assert_eq!(
        seen,
        vec![
            "start",
            "== PartitionDisks ==\ntwo commands",
            "$ echo one",
            "$ false ",
            "== FormatFilesystems ==\nlater",
            "$ echo never",
            "done",
        ]
    );
}

#[test]
fn plan_summary_lists_every_stage() {
    let (plan, _first, _second, _third) = two_stage_plan();
    assert_eq!(
        installer::tasks::build_install_plan_summary(&plan),
        "Installation plan:\n1. PartitionDisks: two commands (2 commands)\n2. FormatFilesystems: later (1 commands)"
    );
    assert_eq!(
        installer::tasks::build_install_plan_summary(&InstallPlan::new(Vec::new())),
        "Installation plan:"
    );
}

#[test]
fn disks_and_filesystems_compare_by_value() {
    let a = disk("/dev/sda", 5);
    let mut b = disk("/dev/sda", 5);
    assert!(a == b);
    b.label = Some("x".to_string());
    assert!(a != b);
    assert!(disk("/dev/sda", 5) != disk("/dev/sdb", 5));
    assert!(disk("/dev/sda", 5) != disk("/dev/sda", 6));
    assert!(FileSystem::Swap == FileSystem::Swap);
    assert!(FileSystem::Swap != FileSystem::Ext4);
    assert!(FileSystem::Other("a".to_string()) == FileSystem::Other("a".to_string()));
    assert!(FileSystem::Other("a".to_string()) != FileSystem::Other("b".to_string()));
}
