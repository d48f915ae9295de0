//! The commands that format a partition, mount it, and switch swap space on
//! and off.

use vstd::prelude::*;
use vstd::string::StringExecFns;
use crate::command::{command, push_text, CommandSpec, CommandSpecView};
use crate::error::{ValidationError, ValidationErrorView};
use crate::state::{FileSystem, FileSystemView, PartitionSpec, PartitionSpecView};
use crate::text::{trim_end_char, trim_end_matches, trim_start_char, trim_start_matches};

verus! {

/// The command that formats `device` with a filesystem. The known
/// filesystems have their own tool and flags. Any other name is taken as
/// the name of the tool, and must not be empty.
pub open spec fn mkfs_plan(device: Seq<char>, fs: FileSystemView) -> Result<
    Option<CommandSpecView>,
    ValidationErrorView,
> {
    match fs {
        FileSystemView::Ext4 => Ok(Some(command("mkfs.ext4"@, seq!["-F"@, device]))),
        FileSystemView::Btrfs => Ok(Some(command("mkfs.btrfs"@, seq!["-f"@, device]))),
        FileSystemView::Xfs => Ok(Some(command("mkfs.xfs"@, seq!["-f"@, device]))),
        FileSystemView::Fat32 => Ok(Some(command("mkfs.fat"@, seq!["-F"@, "32"@, device]))),
        FileSystemView::Swap => Ok(Some(command("mkswap"@, seq![device]))),
        FileSystemView::Other(tool) => if tool.len() == 0 {
            Err(ValidationErrorView::EmptyFilesystemName)
        } else {
            Ok(Some(command(tool, seq![device])))
        },
    }
}

/// The place of `mountpoint` below `root`: the two joined by one slash,
/// whatever slashes `root` ends with and `mountpoint` starts with.
pub open spec fn path_under(root: Seq<char>, mountpoint: Seq<char>) -> Seq<char> {
    trim_end_char(root, '/') + "/"@ + trim_start_char(mountpoint, '/')
}

/// The command that mounts `part`, found on `device`, below `root`. Swap
/// space and a partition without mountpoint are not mounted. A mountpoint
/// that is given must not be empty.
pub open spec fn mount_plan(part: PartitionSpecView, device: Seq<char>, root: Seq<char>) -> Result<
    Option<CommandSpecView>,
    ValidationErrorView,
> {
    if part.filesystem is Swap {
        Ok(None)
    } else {
        match part.mountpoint {
            None => Ok(None),
            Some(mountpoint) => if mountpoint.len() == 0 {
                Err(ValidationErrorView::EmptyMountpoint)
            } else {
                Ok(Some(command("mount"@, seq![device, path_under(root, mountpoint)])))
            },
        }
    }
}

/// The command that takes `device` into use as swap space.
pub open spec fn swapon_command(device: Seq<char>) -> CommandSpecView {
    command("swapon"@, seq![device])
}

/// The command that takes `device` out of use as swap space.
pub open spec fn swapoff_command(device: Seq<char>) -> CommandSpecView {
    command("swapoff"@, seq![device])
}

fn tool_on_device(tool: &str, device_path: &str) -> (spec: CommandSpec)
    ensures
        spec@ == command(tool@, seq![device_path@]),
{
    let mut args: Vec<String> = Vec::new();
    push_text(&mut args, device_path);
    assert(args.deep_view() =~= seq![device_path@]);
    CommandSpec::new(tool, args)
}

fn tool_with_flag(tool: &str, flag: &str, device_path: &str) -> (spec: CommandSpec)
    ensures
        spec@ == command(tool@, seq![flag@, device_path@]),
{
    let mut args: Vec<String> = Vec::new();
    push_text(&mut args, flag);
    push_text(&mut args, device_path);
    assert(args.deep_view() =~= seq![flag@, device_path@]);
    CommandSpec::new(tool, args)
}

/// The command that formats the partition `spec`, found on `device_path`.
pub fn mkfs_command(device_path: &str, spec: &PartitionSpec) -> (res: Result<
    Option<CommandSpec>,
    ValidationError,
>)
    ensures
        match res {
            Ok(Some(made)) => mkfs_plan(device_path@, spec@.filesystem) == Ok::<
                Option<CommandSpecView>,
                ValidationErrorView,
            >(Some(made@)),
            Ok(None) => false,
            Err(error) => mkfs_plan(device_path@, spec@.filesystem) == Err::<
                Option<CommandSpecView>,
                ValidationErrorView,
            >(error@),
        },
{
    match &spec.filesystem {
        FileSystem::Ext4 => Ok(Some(tool_with_flag("mkfs.ext4", "-F", device_path))),
        FileSystem::Btrfs => Ok(Some(tool_with_flag("mkfs.btrfs", "-f", device_path))),
        FileSystem::Xfs => Ok(Some(tool_with_flag("mkfs.xfs", "-f", device_path))),
        FileSystem::Fat32 => {
            let mut args: Vec<String> = Vec::new();
            push_text(&mut args, "-F");
            push_text(&mut args, "32");
            push_text(&mut args, device_path);
            assert(args.deep_view() =~= seq!["-F"@, "32"@, device_path@]);
            Ok(Some(CommandSpec::new("mkfs.fat", args)))
        },
        FileSystem::Swap => Ok(Some(tool_on_device("mkswap", device_path))),
        FileSystem::Other(fs) => {
            if fs.as_str().is_empty() {
                return Err(ValidationError::EmptyFilesystemName);
            }
            Ok(Some(tool_on_device(fs.as_str(), device_path)))
        },
    }
}

/// Joins `root` and `mountpoint` by one slash.
pub fn join_under(root: &str, mountpoint: &str) -> (path: String)
    ensures
        path@ == path_under(root@, mountpoint@),
{
    let below = trim_start_matches(mountpoint, '/');
    let mut path = trim_end_matches(root, '/');
    path.append("/");
    path.append(below.as_str());
    path
}

/// The command that mounts the partition `spec`, found on `device_path`,
/// below `root`, if it is to be mounted.
pub fn mount_command(spec: &PartitionSpec, device_path: &str, root: &str) -> (res: Result<
    Option<CommandSpec>,
    ValidationError,
>)
    ensures
        match res {
            Ok(Some(made)) => mount_plan(spec@, device_path@, root@) == Ok::<
                Option<CommandSpecView>,
                ValidationErrorView,
            >(Some(made@)),
            Ok(None) => mount_plan(spec@, device_path@, root@) == Ok::<
                Option<CommandSpecView>,
                ValidationErrorView,
            >(None),
            Err(error) => mount_plan(spec@, device_path@, root@) == Err::<
                Option<CommandSpecView>,
                ValidationErrorView,
            >(error@),
        },
{
    match &spec.filesystem {
        FileSystem::Swap => {
            return Ok(None);
        },
        _ => {},
    }
    let mountpoint: &str = match &spec.mountpoint {
        Some(mountpoint) => mountpoint.as_str(),
        None => {
            return Ok(None);
        },
    };
    if mountpoint.is_empty() {
        return Err(ValidationError::EmptyMountpoint);
    }
    let full_target = join_under(root, mountpoint);
    let mut args: Vec<String> = Vec::new();
    push_text(&mut args, device_path);
    push_text(&mut args, full_target.as_str());
    assert(args.deep_view() =~= seq![device_path@, path_under(root@, mountpoint@)]);
    Ok(Some(CommandSpec::new("mount", args)))
}

/// The command that takes `device_path` into use as swap space.
pub fn activate_swap_command(device_path: &str) -> (spec: CommandSpec)
    ensures
        spec@ == swapon_command(device_path@),
{
    tool_on_device("swapon", device_path)
}

/// The command that takes `device_path` out of use as swap space.
pub fn deactivate_swap_command(device_path: &str) -> (spec: CommandSpec)
    ensures
        spec@ == swapoff_command(device_path@),
{
    tool_on_device("swapoff", device_path)
}

} // verus!
