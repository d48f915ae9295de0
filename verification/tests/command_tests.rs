use installer::command::{
    clone_texts, CommandError, CommandExecutor, CommandOutput, CommandSpec,
};
use installer::config::{apply_locale, configure_network};
use installer::disk::{disks_from_devices, lsblk_command, probe_block_devices_with, BlockDevice, ProbeError};
use installer::error::{SizeError, ValidationError};
use installer::filesystem::{
    activate_swap_command, deactivate_swap_command, join_under, mkfs_command, mount_command,
};
use installer::packages::{
    enable_services_commands, in_target_command, install_base_packages,
    install_desktop_packages, pacstrap_command,
};
use installer::scripted::{same_command, same_texts, ScriptedExecutor};
use installer::state::{
    DiskIdentifier, FileSystem, InstallerState, KeyboardSelection, LocaleSelection,
    NetworkConfig, PartitionSize, PartitionSpec, UserAccount,
};

fn texts(values: &[&str]) -> Vec<String> {
    values.iter().map(|v| v.to_string()).collect()
}

fn part(filesystem: FileSystem, mountpoint: Option<&str>) -> PartitionSpec {
    PartitionSpec {
        id: "p".to_string(),
        mountpoint: mountpoint.map(|m| m.to_string()),
        filesystem,
        size: PartitionSize::Remainder,
        flags: Vec::new(),
    }
}

fn line(spec: &CommandSpec) -> String {
    format!("{} {}", spec.program, spec.args.join(" "))
}

#[test]
fn command_spec_builders() {
    let spec = CommandSpec::new("parted", texts(&["/dev/sda"]));
    assert_eq!(spec.program, "parted");
    assert_eq!(spec.args, texts(&["/dev/sda"]));
    let spec = spec.arg("--script");
    assert_eq!(spec.args, texts(&["/dev/sda", "--script"]));
    let spec = spec.with_args(&["mklabel", "gpt"]);
    assert_eq!(spec.program, "parted");
    assert_eq!(spec.args, texts(&["/dev/sda", "--script", "mklabel", "gpt"]));
    let same = spec.clone();
    assert_eq!(same.program, spec.program);
    assert_eq!(same.args, spec.args);
    let bare = CommandSpec::new("sync", Vec::new()).with_args(&[]);
    assert!(bare.args.is_empty());
}

#[test]
fn command_output_echoes_the_invocation() {
    let spec = CommandSpec::new("ls", texts(&["-l", "/"]));
    let out = CommandOutput::new(&spec, "a\n".to_string(), "warn".to_string(), Some(0));
    assert_eq!(out.program(), "ls");
    assert_eq!(out.args(), texts(&["-l", "/"]).as_slice());
    assert_eq!(out.stdout, "a\n");
    assert_eq!(out.stderr, "warn");
    assert!(out.success());
    let copy = out.clone();
    assert_eq!(copy.program(), "ls");
    assert_eq!(copy.stdout, "a\n");
    assert_eq!(copy.status, Some(0));
}

#[test]
fn command_output_success_needs_exit_code_zero() {
    let spec = CommandSpec::new("false", Vec::new());
    assert!(CommandOutput::new(&spec, String::new(), String::new(), Some(0)).success());
    assert!(!CommandOutput::new(&spec, String::new(), String::new(), Some(1)).success());
    assert!(!CommandOutput::new(&spec, String::new(), String::new(), Some(-1)).success());
    assert!(!CommandOutput::new(&spec, String::new(), String::new(), None).success());
}

#[test]
fn clone_texts_copies() {
    let values = texts(&["a", "", "c"]);
    assert_eq!(clone_texts(&values), values);
    assert!(clone_texts(&Vec::new()).is_empty());
}

#[test]
fn same_texts_and_commands() {
    assert!(same_texts(&texts(&["a", "b"]), &texts(&["a", "b"])));
    assert!(!same_texts(&texts(&["a", "b"]), &texts(&["a"])));
    assert!(!same_texts(&texts(&["a", "b"]), &texts(&["a", "c"])));
    assert!(same_texts(&Vec::new(), &Vec::new()));
    let a = CommandSpec::new("x", texts(&["1"]));
    assert!(same_command(&a, &CommandSpec::new("x", texts(&["1"]))));
    assert!(!same_command(&a, &CommandSpec::new("y", texts(&["1"]))));
    assert!(!same_command(&a, &CommandSpec::new("x", texts(&["2"]))));
}

#[test]
fn scripted_executor_answers_from_its_script() {
    let first = CommandSpec::new("echo", texts(&["hi"]));
    let second = CommandSpec::new("false", Vec::new());
    let third = CommandSpec::new("missing", Vec::new());
    let executor = ScriptedExecutor::new()
        .on(first.clone(), "hi\n", "", Some(0))
        .on(second.clone(), "", "boom", Some(3))
        .refuse(third.clone(), "not found")
        .on(first.clone(), "later", "", Some(9));

    let out = executor.run(&first).unwrap();
    assert_eq!(out.program(), "echo");
    assert_eq!(out.args(), texts(&["hi"]).as_slice());
    assert_eq!(out.stdout, "hi\n");
    assert_eq!(out.status, Some(0));

    let out = executor.run(&second).unwrap();
    assert_eq!(out.stderr, "boom");
    assert_eq!(out.status, Some(3));
    assert!(!out.success());

    let error: CommandError = executor.run(&third).unwrap_err();
    assert_eq!(error.message, "not found");

    let error = executor.run(&CommandSpec::new("echo", texts(&["ho"]))).unwrap_err();
    assert_eq!(error.message, "no scripted result for echo");
    let error = ScriptedExecutor::new().run(&first).unwrap_err();
    assert_eq!(error.message, "no scripted result for echo");
}

#[test]
fn mkfs_command_for_each_filesystem() {
    let cases = [
        (FileSystem::Ext4, "mkfs.ext4 -F /dev/sda1"),
        (FileSystem::Btrfs, "mkfs.btrfs -f /dev/sda1"),
        (FileSystem::Xfs, "mkfs.xfs -f /dev/sda1"),
        (FileSystem::Fat32, "mkfs.fat -F 32 /dev/sda1"),
        (FileSystem::Swap, "mkswap /dev/sda1"),
        (FileSystem::Other("mkfs.f2fs".to_string()), "mkfs.f2fs /dev/sda1"),
    ];
    for (fs, expected) in cases {
        let made = mkfs_command("/dev/sda1", &part(fs, None)).unwrap().unwrap();
        assert_eq!(line(&made), expected);
    }
}

#[test]
fn mkfs_command_rejects_an_empty_custom_name() {
    let error = mkfs_command("/dev/sda1", &part(FileSystem::Other(String::new()), None)).unwrap_err();
    assert!(matches!(error, ValidationError::EmptyFilesystemName));
    assert_eq!(error.message(), "custom filesystem identifier cannot be empty");
}

#[test]
fn mkfs_command_gives_the_same_command_twice() {
    let spec = part(FileSystem::Fat32, Some("/boot"));
    let first = mkfs_command("/dev/sda1", &spec).unwrap().unwrap();
    let second = mkfs_command("/dev/sda1", &spec.clone()).unwrap().unwrap();
    assert_eq!(line(&first), line(&second));
}

#[test]
fn mount_command_joins_root_and_mountpoint() {
    let made = mount_command(&part(FileSystem::Ext4, Some("/boot/efi")), "/dev/sda1", "/mnt/x")
        .unwrap()
        .unwrap();
    assert_eq!(made.program, "mount");
    assert_eq!(made.args, texts(&["/dev/sda1", "/mnt/x/boot/efi"]));

    let made = mount_command(&part(FileSystem::Ext4, Some("/")), "/dev/sda2", "/mnt/x")
        .unwrap()
        .unwrap();
    assert_eq!(made.args, texts(&["/dev/sda2", "/mnt/x/"]));

    let made = mount_command(&part(FileSystem::Ext4, Some("home")), "/dev/sda3", "/mnt/x/")
        .unwrap()
        .unwrap();
    assert_eq!(made.args, texts(&["/dev/sda3", "/mnt/x/home"]));

    let made = mount_command(&part(FileSystem::Xfs, Some("//var")), "/dev/sda4", "/mnt/x//")
        .unwrap()
        .unwrap();
    assert_eq!(made.args, texts(&["/dev/sda4", "/mnt/x/var"]));
}

#[test]
fn mount_command_skips_swap_and_unmounted_partitions() {
    assert!(mount_command(&part(FileSystem::Swap, Some("/swap")), "/dev/sda1", "/mnt")
        .unwrap()
        .is_none());
    assert!(mount_command(&part(FileSystem::Swap, None), "/dev/sda1", "/mnt").unwrap().is_none());
    assert!(mount_command(&part(FileSystem::Swap, Some("")), "/dev/sda1", "/mnt")
        .unwrap()
        .is_none());
    assert!(mount_command(&part(FileSystem::Ext4, None), "/dev/sda1", "/mnt").unwrap().is_none());
}

#[test]
fn mount_command_rejects_an_empty_mountpoint() {
    let error = mount_command(&part(FileSystem::Ext4, Some("")), "/dev/sda1", "/mnt").unwrap_err();
    assert!(matches!(error, ValidationError::EmptyMountpoint));
    assert_eq!(error.message(), "mountpoint cannot be empty when provided");
}

#[test]
fn mount_command_gives_the_same_command_twice() {
    let spec = part(FileSystem::Ext4, Some("/home"));
    let first = mount_command(&spec, "/dev/sda1", "/mnt").unwrap().unwrap();
    let second = mount_command(&spec.clone(), "/dev/sda1", "/mnt").unwrap().unwrap();
    assert_eq!(line(&first), line(&second));
}

#[test]
fn join_under_keeps_one_slash() {
    assert_eq!(join_under("/mnt", "boot"), "/mnt/boot");
    assert_eq!(join_under("/mnt/", "/boot"), "/mnt/boot");
    assert_eq!(join_under("/", "/"), "/");
    assert_eq!(join_under("", ""), "/");
}

#[test]
fn swap_commands() {
    assert_eq!(line(&activate_swap_command("/dev/sda2")), "swapon /dev/sda2");
    assert_eq!(line(&deactivate_swap_command("/dev/sda2")), "swapoff /dev/sda2");
}

#[test]
fn package_commands() {
    assert_eq!(line(&pacstrap_command("/mnt", &["a", "b"])), "pacstrap /mnt a b");
    assert_eq!(pacstrap_command("/mnt", &[]).args, texts(&["/mnt"]));
    assert_eq!(
        line(&install_base_packages("/mnt")),
        "pacstrap /mnt base linux-zen linux-zen-firmware openssh networkmanager"
    );
    assert_eq!(
        line(&install_desktop_packages("/mnt")),
        "pacstrap /mnt gdm gnome-shell gnome-control-center gnome-terminal nautilus xdg-user-dirs gnome-text-editor"
    );
    assert_eq!(line(&in_target_command("/mnt", &["ls", "-l"])), "arch-chroot /mnt ls -l");
}

#[test]
fn service_commands() {
    let lines: Vec<String> = enable_services_commands("/mnt").iter().map(line).collect();
    assert_eq!(
        lines,
        vec![
            "arch-chroot /mnt systemctl enable gdm.service",
            "arch-chroot /mnt systemctl enable NetworkManager.service",
            "arch-chroot /mnt systemctl enable sshd.service",
        ]
    );
}

#[test]
fn locale_needs_language_and_region() {
    let mut state = InstallerState::default();
    assert!(apply_locale("/mnt", &state).is_ok());
    state.locale.region = String::new();
    let error = apply_locale("/mnt", &state).unwrap_err();
    assert!(matches!(error, ValidationError::EmptyLocaleRegion));
    assert_eq!(error.message(), "locale region cannot be empty");
    state.locale.language = String::new();
    let error = apply_locale("/mnt", &state).unwrap_err();
    assert!(matches!(error, ValidationError::EmptyLocaleLanguage));
    assert_eq!(error.message(), "locale language cannot be empty");
}

#[test]
fn network_needs_a_hostname() {
    let mut network = NetworkConfig::default();
    assert!(configure_network("/mnt", &network).is_ok());
    network.hostname = String::new();
    let error = configure_network("/mnt", &network).unwrap_err();
    assert!(matches!(error, ValidationError::EmptyHostname));
    assert_eq!(error.message(), "hostname cannot be empty");
}

#[test]
fn error_messages_of_the_remaining_variants() {
    assert_eq!(
        ValidationError::InvalidRange { partition: "root".to_string() }.message(),
        "invalid range computed for partition root"
    );
    assert_eq!(
        ValidationError::Size { partition: "x".to_string(), cause: SizeError::ZeroSpan }.message(),
        "failed to compute size for partition x: computed partition size is zero"
    );
    assert_eq!(SizeError::ZeroBytes.message(), "partition size must be > 0 bytes");
    assert_eq!(SizeError::InvalidPercentage(200).message(), "invalid percentage size: 200");
    assert_eq!(SizeError::ZeroSpan.message(), "computed partition size is zero");
}

#[test]
fn defaults_of_the_configuration() {
    let state = InstallerState::default();
    assert_eq!(state.current_step, 0);
    assert_eq!(state.locale.language, "en");
    assert_eq!(state.locale.region, "US");
    assert_eq!(state.keyboard.layouts, texts(&["us"]));
    assert!(state.keyboard.variant.is_none());
    assert!(state.timezone.is_none());
    assert!(state.target.is_none());
    assert_eq!(state.users.len(), 1);
    assert_eq!(state.users[0].username, "armdistro");
    assert_eq!(state.users[0].full_name, "Arm Distro");
    assert!(state.users[0].password_hash.is_none());
    assert!(state.users[0].is_admin);
    assert_eq!(state.network.hostname, "arm-distro");
    assert!(state.network.enable_network_manager);
    assert!(state.discovered_disks.is_empty());
    assert!(state.selected_disk.is_none());

    assert_eq!(LocaleSelection::default().language, "en");
    assert_eq!(KeyboardSelection::default().layouts.len(), 1);
    assert_eq!(UserAccount::default_admin().username, "armdistro");
}

#[test]
fn filesystem_labels() {
    assert_eq!(FileSystem::Ext4.label(), "ext4");
    assert_eq!(FileSystem::Btrfs.label(), "btrfs");
    assert_eq!(FileSystem::Xfs.label(), "xfs");
    assert_eq!(FileSystem::Swap.label(), "swap");
    assert_eq!(FileSystem::Fat32.label(), "fat32");
    assert_eq!(FileSystem::Other("zfs".to_string()).label(), "zfs");
}

#[test]
fn disk_identifier_clone_keeps_every_field() {
    let disk = DiskIdentifier {
        path: "/dev/sda".to_string(),
        size_bytes: 42,
        label: Some("Model".to_string()),
    };
    let copy = disk.clone();
    assert_eq!(copy.path, "/dev/sda");
    assert_eq!(copy.size_bytes, 42);
    assert_eq!(copy.label.as_deref(), Some("Model"));
}

fn row(name: &str, size: u64, model: Option<&str>, kind: &str) -> BlockDevice {
    BlockDevice {
        name: name.to_string(),
        size,
        model: model.map(|m| m.to_string()),
        kind: kind.to_string(),
    }
}

#[test]
fn listing_command_asks_for_json() {
    let spec = lsblk_command();
    assert_eq!(spec.program, "lsblk");
    assert_eq!(spec.args, texts(&["--json", "--bytes", "-d", "-o", "NAME,SIZE,MODEL,TYPE"]));
}

#[test]
fn only_whole_disks_are_kept_and_empty_models_dropped() {
    let disks = disks_from_devices(vec![
        row("sda1", 1000, Some("Part"), "part"),
        row("sda", 2000, Some(""), "disk"),
    ]);
    assert_eq!(disks.len(), 1);
    assert_eq!(disks[0].path, "/dev/sda");
    assert_eq!(disks[0].size_bytes, 2000);
    assert_eq!(disks[0].label, None);
}

#[test]
fn disks_keep_the_order_of_the_listing() {
    let disks = disks_from_devices(vec![
        row("nvme0n1", 1, Some("Fast Disk"), "disk"),
        row("loop0", 2, None, "loop"),
        row("sdb", 3, Some("  \t"), "disk"),
        row("sr0", 4, Some("DVD"), "rom"),
        row("sdc", 5, None, "disk"),
        row("sdd", 6, Some(" Big "), "Disk"),
    ]);
    let seen: Vec<(String, u64, Option<String>)> =
        disks.into_iter().map(|d| (d.path, d.size_bytes, d.label)).collect();
    assert_eq!(
        seen,
        vec![
            ("/dev/nvme0n1".to_string(), 1, Some("Fast Disk".to_string())),
            ("/dev/sdb".to_string(), 3, None),
            ("/dev/sdc".to_string(), 5, None),
        ]
    );
    assert!(disks_from_devices(Vec::new()).is_empty());
}

#[test]
fn probe_runs_the_listing_and_decodes_it() {
    let executor = ScriptedExecutor::new().on(lsblk_command(), "two rows", "", Some(0));
    let disks = probe_block_devices_with(&executor, |printed: &String| {
        assert_eq!(printed, "two rows");
        Ok(vec![row("sda1", 1, None, "part"), row("sda", 2, Some("M"), "disk")])
    })
    .unwrap();
    assert_eq!(disks.len(), 1);
    assert_eq!(disks[0].path, "/dev/sda");
    assert_eq!(disks[0].label.as_deref(), Some("M"));
}

#[test]
fn probe_hands_on_failures() {
    let silent = ScriptedExecutor::new();
    let result = probe_block_devices_with(&silent, |_printed: &String| Ok(Vec::new()));
    match result {
        Err(ProbeError::Command(error)) => {
            assert_eq!(error.message, "no scripted result for lsblk")
        }
        other => panic!("unexpected result: {:?}", other),
    }

    let executor = ScriptedExecutor::new().on(lsblk_command(), "{", "", Some(0));
    let result = probe_block_devices_with(&executor, |_printed: &String| Err("bad json".to_string()));
    match result {
        Err(ProbeError::Parse(reason)) => assert_eq!(reason, "bad json"),
        other => panic!("unexpected result: {:?}", other),
    }
}
