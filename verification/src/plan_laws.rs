//! What holds of every install plan that the builder gives, and of the
//! builders of single commands.

use vstd::prelude::*;
use crate::command::{command, CommandSpec, CommandSpecView};
use crate::error::{ValidationError, ValidationErrorView};
use crate::filesystem::{mkfs_command, mkfs_plan, mount_command, mount_plan, swapoff_command};
use crate::partition::{describe_partition, partition_description};
use crate::state::{DiskPlanView, InstallerStateView, PartitionSpec};
use crate::tasks::{
    chosen_plan, filesystem_layout, finalize_commands, layout_after, mkdir_command,
    partition_layout, plan_steps, stage_at, umount_command, FilesystemLayoutView, InstallStage,
    STAGE_COUNT,
};

verus! {

/// A plan holds the nine stages, each once and in their fixed order,
/// whatever the configuration holds.
pub proof fn lemma_plan_has_every_stage(state: InstallerStateView, root: Seq<char>)
    requires
        plan_steps(state, root) is Ok,
    ensures
        plan_steps(state, root)->Ok_0.len() == STAGE_COUNT,
        forall|i: int|
            0 <= i < STAGE_COUNT ==> (#[trigger] plan_steps(state, root)->Ok_0[i]).stage
                == stage_at(i),
        plan_steps(state, root)->Ok_0.last().stage == InstallStage::Finalize,
{
}

/// Without a plan and without a selected disk there is still a plan: its
/// stages that work on a disk run no command.
pub proof fn lemma_plan_without_disk(state: InstallerStateView, root: Seq<char>)
    requires
        state.target is None,
        state.selected_disk is None,
    ensures
        plan_steps(state, root) is Ok,
        plan_steps(state, root)->Ok_0[1].commands.len() == 0,
        plan_steps(state, root)->Ok_0[2].commands.len() == 0,
        plan_steps(state, root)->Ok_0[3].commands.len() == 0,
{
}

/// The targets of the unmount commands among `commands`, in order.
pub open spec fn unmounted(commands: Seq<CommandSpecView>) -> Seq<Seq<char>>
    decreases commands.len(),
{
    if commands.len() == 0 {
        Seq::empty()
    } else {
        let before = unmounted(commands.drop_last());
        let last = commands.last();
        if last.program == "umount"@ && last.args.len() == 1 {
            before.push(last.args[0])
        } else {
            before
        }
    }
}

/// How often `path` stands in `paths`.
pub open spec fn occurrences(paths: Seq<Seq<char>>, path: Seq<char>) -> nat
    decreases paths.len(),
{
    if paths.len() == 0 {
        0
    } else if paths.last() == path {
        occurrences(paths.drop_last(), path) + 1
    } else {
        occurrences(paths.drop_last(), path)
    }
}

/// The unmount commands with which an installation ends, taken by
/// themselves: one for each mount point, last mounted first, and one for
/// `root` behind them where `root` is no mount point.
pub open spec fn unmount_tail(mount_points: Seq<Seq<char>>, root: Seq<char>) -> Seq<
    CommandSpecView,
> {
    let reversed = Seq::new(
        mount_points.len(),
        |i: int| umount_command(mount_points[mount_points.len() - 1 - i]),
    );
    if mount_points.contains(root) {
        reversed
    } else {
        reversed.push(umount_command(root))
    }
}

/// The commands that end an installation are: one that flushes pending
/// writes, one for each swap device, then the unmount commands.
pub proof fn lemma_finalize_shape(
    mount_points: Seq<Seq<char>>,
    swap_devices: Seq<Seq<char>>,
    root: Seq<char>,
)
    ensures
        finalize_commands(mount_points, swap_devices, root).len() == 1 + swap_devices.len()
            + unmount_tail(mount_points, root).len(),
        finalize_commands(mount_points, swap_devices, root).subrange(
            1 + swap_devices.len() as int,
            finalize_commands(mount_points, swap_devices, root).len() as int,
        ) == unmount_tail(mount_points, root),
        forall|i: int|
            0 <= i < mount_points.len() ==> #[trigger] unmount_tail(mount_points, root)[i]
                == umount_command(mount_points[mount_points.len() - 1 - i]),
{
}

/// The targets of `count` unmount commands that follow `mount_points` from
/// its end are the last `count` mount points, reversed.
proof fn lemma_unmounted_reversed(mount_points: Seq<Seq<char>>, count: int)
    requires
        0 <= count <= mount_points.len(),
    ensures
        unmounted(
            Seq::new(
                count as nat,
                |i: int| umount_command(mount_points[mount_points.len() - 1 - i]),
            ),
        ) == Seq::new(count as nat, |i: int| mount_points[mount_points.len() - 1 - i]),
    decreases count,
{
    let commands = Seq::new(
        count as nat,
        |i: int| umount_command(mount_points[mount_points.len() - 1 - i]),
    );
    if count > 0 {
        lemma_unmounted_reversed(mount_points, count - 1);
        let shorter = Seq::new(
            (count - 1) as nat,
            |i: int| umount_command(mount_points[mount_points.len() - 1 - i]),
        );
        assert(commands.drop_last() =~= shorter);
    }
}

/// A path stands as often in a sequence as in its reverse.
proof fn lemma_occurrences_reversed(paths: Seq<Seq<char>>, path: Seq<char>)
    ensures
        occurrences(paths.reverse(), path) == occurrences(paths, path),
    decreases paths.len(),
{
    if paths.len() > 0 {
        let reversed = paths.reverse();
        lemma_occurrences_front(reversed, path);
        assert(reversed.drop_first() =~= paths.drop_last().reverse());
        lemma_occurrences_reversed(paths.drop_last(), path);
    }
}

/// Counting may as well start at the front.
proof fn lemma_occurrences_front(paths: Seq<Seq<char>>, path: Seq<char>)
    requires
        paths.len() > 0,
    ensures
        occurrences(paths, path) == occurrences(paths.drop_first(), path) + (if paths[0] == path {
            1nat
        } else {
            0nat
        }),
    decreases paths.len(),
{
    if paths.len() > 1 {
        lemma_occurrences_front(paths.drop_last(), path);
        assert(paths.drop_last().drop_first() =~= paths.drop_first().drop_last());
    } else {
        assert(paths.drop_first() =~= Seq::<Seq<char>>::empty());
        assert(paths.drop_last() =~= Seq::<Seq<char>>::empty());
    }
}

/// A path that stands nowhere in a sequence is counted zero times, and one
/// that stands somewhere at least once.
proof fn lemma_occurrences_contains(paths: Seq<Seq<char>>, path: Seq<char>)
    ensures
        paths.contains(path) <==> occurrences(paths, path) > 0,
    decreases paths.len(),
{
    if paths.len() > 0 {
        lemma_occurrences_contains(paths.drop_last(), path);
        if paths.last() != path {
            if paths.contains(path) {
                let i = choose|i: int| 0 <= i < paths.len() && paths[i] == path;
                assert(paths.drop_last()[i] == path);
            } else if paths.drop_last().contains(path) {
                let i = choose|i: int|
                    0 <= i < paths.drop_last().len() && paths.drop_last()[i] == path;
                assert(paths[i] == path);
            }
        }
    }
}

/// The unmount commands at the end of an installation name the mount points
/// in the exact reverse of the order of mounting, and after them `root`
/// where it was not mounted as a mount point. So `root` is unmounted in
/// any case, and exactly once where it was remembered at most once.
pub proof fn lemma_unmount_order(mount_points: Seq<Seq<char>>, root: Seq<char>)
    ensures
        unmounted(unmount_tail(mount_points, root)) == if mount_points.contains(root) {
            mount_points.reverse()
        } else {
            mount_points.reverse().push(root)
        },
        occurrences(unmounted(unmount_tail(mount_points, root)), root) >= 1,
        occurrences(mount_points, root) <= 1 ==> occurrences(
            unmounted(unmount_tail(mount_points, root)),
            root,
        ) == 1,
{
    let reversed = Seq::new(
        mount_points.len(),
        |i: int| umount_command(mount_points[mount_points.len() - 1 - i]),
    );
    lemma_unmounted_reversed(mount_points, mount_points.len() as int);
    lemma_occurrences_reversed(mount_points, root);
    lemma_occurrences_contains(mount_points, root);
    if !mount_points.contains(root) {
        let tail = reversed.push(umount_command(root));
        assert(tail.drop_last() =~= reversed);
        let targets = mount_points.reverse().push(root);
        assert(targets.drop_last() =~= mount_points.reverse());
    }
}

/// The directories that the create-directory commands among `commands`
/// name, in order.
pub open spec fn created_dirs(commands: Seq<CommandSpecView>) -> Seq<Seq<char>>
    decreases commands.len(),
{
    if commands.len() == 0 {
        Seq::empty()
    } else {
        let before = created_dirs(commands.drop_last());
        let last = commands.last();
        if last.program == "mkdir"@ && last.args.len() == 2 {
            before.push(last.args[1])
        } else {
            before
        }
    }
}

/// The directories named by two runs of commands are those of the first,
/// then those of the second.
proof fn lemma_created_dirs_concat(a: Seq<CommandSpecView>, b: Seq<CommandSpecView>)
    ensures
        created_dirs(a + b) == created_dirs(a) + created_dirs(b),
    decreases b.len(),
{
    if b.len() == 0 {
    } else {
        lemma_created_dirs_concat(a, b.drop_last());
        assert((a + b).drop_last() =~= a + b.drop_last());
    }
}

/// The targets unmounted by two runs of commands are those of the first,
/// then those of the second.
proof fn lemma_unmounted_concat(a: Seq<CommandSpecView>, b: Seq<CommandSpecView>)
    ensures
        unmounted(a + b) == unmounted(a) + unmounted(b),
    decreases b.len(),
{
    if b.len() == 0 {
    } else {
        lemma_unmounted_concat(a, b.drop_last());
        assert((a + b).drop_last() =~= a + b.drop_last());
    }
}

/// Commands that take swap space out of use unmount nothing.
proof fn lemma_swapoff_unmounts_nothing(swap_devices: Seq<Seq<char>>, n: int)
    requires
        0 <= n <= swap_devices.len(),
    ensures
        unmounted(Seq::new(n as nat, |i: int| swapoff_command(swap_devices[i]))) == Seq::<
            Seq<char>,
        >::empty(),
    decreases n,
{
    reveal_strlit("swapoff");
    reveal_strlit("umount");
    let commands = Seq::new(n as nat, |i: int| swapoff_command(swap_devices[i]));
    if n > 0 {
        lemma_swapoff_unmounts_nothing(swap_devices, n - 1);
        assert(commands.drop_last() =~= Seq::new(
            (n - 1) as nat,
            |i: int| swapoff_command(swap_devices[i]),
        ));
        assert("swapoff"@.len() != "umount"@.len());
    }
}

/// The mount points that a layout remembers are the directories that its
/// mount commands create, in the order of mounting.
pub proof fn lemma_mount_points_are_created(plan: DiskPlanView, root: Seq<char>, n: int)
    requires
        layout_after(plan, root, n) is Ok,
    ensures
        created_dirs(layout_after(plan, root, n)->Ok_0.mount_commands) == layout_after(
            plan,
            root,
            n,
        )->Ok_0.mount_points,
    decreases n,
{
    reveal_strlit("mkdir");
    reveal_strlit("mount");
    assert("mkdir"@ != "mount"@) by {
        assert("mkdir"@[1] != "mount"@[1]);
    }
    if n > 0 {
        lemma_mount_points_are_created(plan, root, n - 1);
        let before = layout_after(plan, root, n - 1)->Ok_0;
        let next = partition_layout(plan.target.path, plan.partitions[n - 1], n as nat, root)->Ok_0;
        lemma_created_dirs_concat(before.mount_commands, next.mount_commands);
        let added = next.mount_commands;
        let none = Seq::<CommandSpecView>::empty();
        assert(created_dirs(none) =~= Seq::<Seq<char>>::empty());
        if added.len() == 2 {
            let target = next.mount_points[0];
            assert(added.drop_last() =~= seq![mkdir_command(target)]);
            assert(seq![mkdir_command(target)].drop_last() =~= none);
            assert(created_dirs(seq![mkdir_command(target)]) =~= seq![target]);
        } else if added.len() == 1 {
            assert(added.drop_last() =~= none);
        }
    }
}

/// The last stage of a plan unmounts what its mount stage mounted, in the
/// exact reverse of the order of mounting, and after that `root` where the
/// mount stage did not mount it.
pub proof fn lemma_plan_unmounts_in_reverse(state: InstallerStateView, root: Seq<char>)
    requires
        plan_steps(state, root) is Ok,
    ensures
        ({
            let steps = plan_steps(state, root)->Ok_0;
            let mounted = created_dirs(steps[3].commands);
            unmounted(steps[8].commands) == if mounted.contains(root) {
                mounted.reverse()
            } else {
                mounted.reverse().push(root)
            }
        }),
{
    let layout = match chosen_plan(state) {
        None => FilesystemLayoutView::empty(),
        Some((_, plan)) => filesystem_layout(plan, root)->Ok_0,
    };
    match chosen_plan(state) {
        None => {},
        Some((_, plan)) => {
            lemma_mount_points_are_created(plan, root, plan.partitions.len() as int);
        },
    }
    let sync = seq![command("sync"@, Seq::empty())];
    let swapoffs = Seq::new(
        layout.swap_devices.len(),
        |i: int| swapoff_command(layout.swap_devices[i]),
    );
    let tail = unmount_tail(layout.mount_points, root);
    lemma_unmounted_concat(sync + swapoffs, tail);
    lemma_unmounted_concat(sync, swapoffs);
    lemma_swapoff_unmounts_nothing(layout.swap_devices, layout.swap_devices.len() as int);
    assert(unmounted(sync) =~= Seq::<Seq<char>>::empty()) by {
        assert(unmounted(Seq::<CommandSpecView>::empty()) =~= Seq::<Seq<char>>::empty());
        assert(sync.drop_last() =~= Seq::<CommandSpecView>::empty());
    }
    lemma_unmount_order(layout.mount_points, root);
}

/// Describing a partition is a function of the partition alone: two calls
/// on partitions that hold the same give the same text.
pub proof fn lemma_describe_partition_pure(
    a: PartitionSpec,
    b: PartitionSpec,
    first: String,
    second: String,
)
    requires
        a@ == b@,
        call_ensures(describe_partition, (&a,), first),
        call_ensures(describe_partition, (&b,), second),
    ensures
        first@ == second@,
        first@ == partition_description(a@),
{
}

/// The view of what a command builder hands back.
pub open spec fn built_view(built: Result<Option<CommandSpec>, ValidationError>) -> Result<
    Option<CommandSpecView>,
    ValidationErrorView,
> {
    match built {
        Ok(Some(spec)) => Ok(Some(spec@)),
        Ok(None) => Ok(None),
        Err(error) => Err(error@),
    }
}

/// The format command is a function of the device and the partition alone:
/// two calls on the same give the same command, or the same rejection.
pub proof fn lemma_mkfs_command_pure(
    device_a: &str,
    device_b: &str,
    a: PartitionSpec,
    b: PartitionSpec,
    first: Result<Option<CommandSpec>, ValidationError>,
    second: Result<Option<CommandSpec>, ValidationError>,
)
    requires
        device_a@ == device_b@,
        a@ == b@,
        call_ensures(mkfs_command, (device_a, &a), first),
        call_ensures(mkfs_command, (device_b, &b), second),
    ensures
        built_view(first) == built_view(second),
        built_view(first) == mkfs_plan(device_a@, a@.filesystem),
{
}

/// The mount command is a function of the partition, the device and the
/// root alone: two calls on the same give the same command, the same
/// absence of one, or the same rejection.
pub proof fn lemma_mount_command_pure(
    a: PartitionSpec,
    b: PartitionSpec,
    device_a: &str,
    device_b: &str,
    root_a: &str,
    root_b: &str,
    first: Result<Option<CommandSpec>, ValidationError>,
    second: Result<Option<CommandSpec>, ValidationError>,
)
    requires
        a@ == b@,
        device_a@ == device_b@,
        root_a@ == root_b@,
        call_ensures(mount_command, (&a, device_a, root_a), first),
        call_ensures(mount_command, (&b, device_b, root_b), second),
    ensures
        built_view(first) == built_view(second),
        built_view(first) == mount_plan(a@, device_a@, root_a@),
{
}

} // verus!
