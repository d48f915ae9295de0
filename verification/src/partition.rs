//! The partition planner: from a disk plan to the MiB range of every
//! partition, and to the commands that create and flag the partitions.

use vstd::prelude::*;
use vstd::string::StringExecFns;
use crate::command::{command, push_command, push_text, CommandSpec, CommandSpecView};
use crate::error::{SizeError, ValidationError, ValidationErrorView};
use crate::state::{
    filesystem_label, DiskIdentifier, DiskIdentifierView, DiskMode, DiskPlan, DiskPlanView,
    FileSystem, FileSystemView, PartitionFlag, PartitionFlagView, PartitionSize, PartitionSpec,
    PartitionSpecView,
};
use crate::text::{decimal, decimal_string};

verus! {

/// Bytes in one MiB.
pub const MIB: u64 = 1048576;

/// The first MiB that a partition may use: the one before it is left free
/// for alignment.
pub const FIRST_MIB: u64 = 1;

/// The part of a disk that one partition takes, in MiB: from `start_mib`
/// up to, and not including, `end_mib`.
#[derive(Debug, Clone, Copy, PartialEq, Eq, Structural)]
pub struct PartitionRange {
    pub start_mib: u64,
    pub end_mib: u64,
}

/// `n`, or the largest `u64` where `n` is beyond it.
pub open spec fn saturated(n: nat) -> nat {
    if n > u64::MAX {
        u64::MAX as nat
    } else {
        n
    }
}

/// The span in MiB of a declared size on a disk of `total_mib`. An exact
/// size is rounded up to whole MiB. A percentage is that share of the disk,
/// rounded down, and at least one MiB. The rest of the disk is no size of
/// its own.
pub open spec fn span_mib(size: PartitionSize, total_mib: nat) -> Result<nat, SizeError> {
    match size {
        PartitionSize::ExactBytes(bytes) => if bytes == 0 {
            Err(SizeError::ZeroBytes)
        } else {
            Ok(((bytes + MIB - 1) / (MIB as int)) as nat)
        },
        PartitionSize::Percentage(percent) => if percent == 0 || percent > 100 {
            Err(SizeError::InvalidPercentage(percent))
        } else if total_mib * percent / 100 < 1 {
            Ok(1)
        } else {
            Ok((total_mib * percent / 100) as nat)
        },
        PartitionSize::Remainder => Err(SizeError::ZeroSpan),
    }
}

/// The MiB that a partition claims by its declared size: nothing where it
/// takes the rest of the disk, or where its size has no span.
pub open spec fn claimed_mib(part: PartitionSpecView, total_mib: nat) -> nat {
    match span_mib(part.size, total_mib) {
        Ok(span) => span,
        Err(_) => 0,
    }
}

/// Where the next sized partition starts once the first `n` partitions have
/// claimed their spans, one after the other from `FIRST_MIB` on.
pub open spec fn cursor_after(parts: Seq<PartitionSpecView>, total_mib: nat, n: int) -> nat
    decreases n,
{
    if n <= 0 {
        FIRST_MIB as nat
    } else {
        saturated(cursor_after(parts, total_mib, n - 1) + claimed_mib(parts[n - 1], total_mib))
    }
}

/// How many of the first `n` partitions take the rest of the disk.
pub open spec fn remainders_in(parts: Seq<PartitionSpecView>, n: int) -> nat
    decreases n,
{
    if n <= 0 {
        0
    } else if parts[n - 1].size is Remainder {
        remainders_in(parts, n - 1) + 1
    } else {
        remainders_in(parts, n - 1)
    }
}

/// What is wrong with partition `i` by itself or after those before it: a
/// second partition that takes the rest, or a size without span.
pub open spec fn declaration_error(parts: Seq<PartitionSpecView>, total_mib: nat, i: int) -> Option<
    ValidationErrorView,
> {
    if parts[i].size is Remainder {
        if remainders_in(parts, i) > 0 {
            Some(ValidationErrorView::MultipleRemainder)
        } else {
            None
        }
    } else {
        match span_mib(parts[i].size, total_mib) {
            Err(cause) => Some(ValidationErrorView::Size { partition: parts[i].id, cause }),
            Ok(_) => None,
        }
    }
}

/// The first rejection among the first `n` partitions, in declaration order.
pub open spec fn first_declaration_error(
    parts: Seq<PartitionSpecView>,
    total_mib: nat,
    n: int,
) -> Option<ValidationErrorView>
    decreases n,
{
    if n <= 0 {
        None
    } else {
        match first_declaration_error(parts, total_mib, n - 1) {
            Some(error) => Some(error),
            None => declaration_error(parts, total_mib, n - 1),
        }
    }
}

/// The range of partition `i`. A sized partition starts where those before
/// it end and is as long as its span. The partition that takes the rest
/// starts where the last sized partition ends, and ends with the disk.
pub open spec fn range_at(parts: Seq<PartitionSpecView>, total_mib: nat, i: int) -> PartitionRange {
    if parts[i].size is Remainder {
        PartitionRange {
            start_mib: cursor_after(parts, total_mib, parts.len() as int) as u64,
            end_mib: total_mib as u64,
        }
    } else {
        PartitionRange {
            start_mib: cursor_after(parts, total_mib, i) as u64,
            end_mib: cursor_after(parts, total_mib, i + 1) as u64,
        }
    }
}

/// A range that holds no MiB.
pub open spec fn is_empty_range(range: PartitionRange) -> bool {
    range.end_mib <= range.start_mib
}

/// The first of the first `n` partitions whose range is empty.
pub open spec fn first_empty_range(parts: Seq<PartitionSpecView>, total_mib: nat, n: int) -> Option<
    int,
>
    decreases n,
{
    if n <= 0 {
        None
    } else {
        match first_empty_range(parts, total_mib, n - 1) {
            Some(i) => Some(i),
            None => if is_empty_range(range_at(parts, total_mib, n - 1)) {
                Some(n - 1)
            } else {
                None
            },
        }
    }
}

/// The capacity of a disk of `size_bytes`, in whole MiB.
pub open spec fn capacity_mib(size_bytes: u64) -> nat {
    (size_bytes / MIB) as nat
}

/// The ranges of a layout of `parts` on a disk of `total_mib`, one for each
/// partition in declaration order, or the reason why the layout is rejected.
/// The first reason that applies is given: a disk below one MiB; the first
/// partition in declaration order with a size that has no span or that is
/// the second to take the rest; no room left for the partition that takes
/// the rest; the first partition whose range would be empty.
pub open spec fn layout_ranges(parts: Seq<PartitionSpecView>, total_mib: nat) -> Result<
    Seq<PartitionRange>,
    ValidationErrorView,
> {
    let n = parts.len() as int;
    if total_mib == 0 {
        Err(ValidationErrorView::DiskTooSmall)
    } else if first_declaration_error(parts, total_mib, n) is Some {
        Err(first_declaration_error(parts, total_mib, n)->0)
    } else if remainders_in(parts, n) > 0 && cursor_after(parts, total_mib, n) >= total_mib {
        Err(ValidationErrorView::NoSpaceForRemainder)
    } else if first_empty_range(parts, total_mib, n) is Some {
        Err(
            ValidationErrorView::InvalidRange {
                partition: parts[first_empty_range(parts, total_mib, n)->0].id,
            },
        )
    } else {
        Ok(Seq::new(parts.len(), |i: int| range_at(parts, total_mib, i)))
    }
}

/// The ranges that a disk plan gives its partitions.
pub open spec fn plan_ranges(plan: DiskPlanView) -> Result<
    Seq<PartitionRange>,
    ValidationErrorView,
> {
    layout_ranges(plan.partitions, capacity_mib(plan.target.size_bytes))
}

/// A cursor never leaves the range of `u64`.
pub proof fn lemma_cursor_bounded(parts: Seq<PartitionSpecView>, total_mib: nat, n: int)
    ensures
        FIRST_MIB <= cursor_after(parts, total_mib, n) <= u64::MAX,
    decreases n,
{
    if n > 0 {
        lemma_cursor_bounded(parts, total_mib, n - 1);
    }
}

/// A rejection found among the first `k` partitions is the one found among
/// any longer prefix.
pub proof fn lemma_declaration_error_stays(
    parts: Seq<PartitionSpecView>,
    total_mib: nat,
    k: int,
    n: int,
)
    requires
        k <= n,
        first_declaration_error(parts, total_mib, k) is Some,
    ensures
        first_declaration_error(parts, total_mib, n) == first_declaration_error(
            parts,
            total_mib,
            k,
        ),
    decreases n - k,
{
    if k < n {
        lemma_declaration_error_stays(parts, total_mib, k, n - 1);
    }
}

/// An empty range found among the first `k` partitions is the one found
/// among any longer prefix.
pub proof fn lemma_empty_range_stays(parts: Seq<PartitionSpecView>, total_mib: nat, k: int, n: int)
    requires
        k <= n,
        first_empty_range(parts, total_mib, k) is Some,
    ensures
        first_empty_range(parts, total_mib, n) == first_empty_range(parts, total_mib, k),
    decreases n - k,
{
    if k < n {
        lemma_empty_range_stays(parts, total_mib, k, n - 1);
    }
}

/// The span of a declared size on a disk of `total_mib`, or why it has none.
pub fn partition_size_to_mib(size: &PartitionSize, total_mib: u64) -> (res: Result<u64, SizeError>)
    ensures
        match res {
            Ok(span) => span_mib(*size, total_mib as nat) == Ok::<nat, SizeError>(span as nat),
            Err(cause) => span_mib(*size, total_mib as nat) == Err::<nat, SizeError>(cause),
        },
{
    match size {
        PartitionSize::ExactBytes(bytes) => {
            if *bytes == 0 {
                Err(SizeError::ZeroBytes)
            } else {
                Ok((*bytes - 1) / MIB + 1)
            }
        },
        PartitionSize::Percentage(percent) => {
            if *percent == 0 || *percent > 100 {
                Err(SizeError::InvalidPercentage(*percent))
            } else {
                assert((total_mib as u128) * (*percent as u128) <= 0xffff_ffff_ffff_ffff * 100)
                    by (nonlinear_arith)
                    requires
                        total_mib <= 0xffff_ffff_ffff_ffff,
                        *percent <= 100,
                ;
                assert((total_mib as nat) * (*percent as nat) / 100 <= total_mib)
                    by (nonlinear_arith)
                    requires
                        *percent <= 100,
                ;
                let share: u128 = (total_mib as u128) * (*percent as u128) / 100;
                if share < 1 {
                    Ok(1)
                } else {
                    Ok(share as u64)
                }
            }
        },
        PartitionSize::Remainder => Err(SizeError::ZeroSpan),
    }
}

/// Computes the range of every partition of `plan`, in declaration order.
pub fn compute_ranges(plan: &DiskPlan) -> (res: Result<Vec<PartitionRange>, ValidationError>)
    ensures
        match res {
            Ok(ranges) => plan_ranges(plan@) == Ok::<Seq<PartitionRange>, ValidationErrorView>(
                ranges@,
            ),
            Err(error) => plan_ranges(plan@) == Err::<Seq<PartitionRange>, ValidationErrorView>(
                error@,
            ),
        },
{
    let total_mib: u64 = plan.target.size_bytes / MIB;
    if total_mib == 0 {
        return Err(ValidationError::DiskTooSmall);
    }
    let ghost parts = plan@.partitions;
    let ghost total = total_mib as nat;
    let count: usize = plan.partitions.len();
    let mut sized: Vec<Option<PartitionRange>> = Vec::new();
    let mut cursor_mib: u64 = FIRST_MIB;
    let mut has_remainder = false;
    let mut index: usize = 0;
    while index < count
        invariant
            index <= count,
            count == plan.partitions.len(),
            parts == plan@.partitions,
            total == total_mib,
            total == capacity_mib(plan@.target.size_bytes),
            total > 0,
            first_declaration_error(parts, total, index as int) is None,
            cursor_mib == cursor_after(parts, total, index as int),
            has_remainder == (remainders_in(parts, index as int) > 0),
            sized.len() == index,
            forall|j: int|
                0 <= j < index ==> #[trigger] sized@[j] == (if parts[j].size is Remainder {
                    None
                } else {
                    Some(
                        PartitionRange {
                            start_mib: cursor_after(parts, total, j) as u64,
                            end_mib: cursor_after(parts, total, j + 1) as u64,
                        },
                    )
                }),
        decreases count - index,
    {
        let spec = &plan.partitions[index];
        match spec.size {
            PartitionSize::Remainder => {
                if has_remainder {
                    proof {
                        lemma_declaration_error_stays(parts, total, index + 1, count as int);
                    }
                    return Err(ValidationError::MultipleRemainder);
                }
                has_remainder = true;
                sized.push(None);
            },
            _ => {
                let span_mib = match partition_size_to_mib(&spec.size, total_mib) {
                    Ok(span) => span,
                    Err(cause) => {
                        let error = ValidationError::Size { partition: spec.id.clone(), cause };
                        proof {
                            lemma_declaration_error_stays(parts, total, index + 1, count as int);
                        }
                        return Err(error);
                    },
                };
                let end_mib = cursor_mib.saturating_add(span_mib);
                sized.push(Some(PartitionRange { start_mib: cursor_mib, end_mib }));
                cursor_mib = end_mib;
            },
        }
        index = index + 1;
    }
    if has_remainder && cursor_mib >= total_mib {
        return Err(ValidationError::NoSpaceForRemainder);
    }
    let mut ranges: Vec<PartitionRange> = Vec::new();
    let mut index: usize = 0;
    while index < count
        invariant
            index <= count,
            count == plan.partitions.len(),
            parts == plan@.partitions,
            total == total_mib,
            total == capacity_mib(plan@.target.size_bytes),
            total > 0,
            first_declaration_error(parts, total, count as int) is None,
            !(remainders_in(parts, count as int) > 0 && cursor_mib >= total),
            cursor_mib == cursor_after(parts, total, count as int),
            sized.len() == count,
            forall|j: int|
                0 <= j < count ==> #[trigger] sized@[j] == (if parts[j].size is Remainder {
                    None
                } else {
                    Some(
                        PartitionRange {
                            start_mib: cursor_after(parts, total, j) as u64,
                            end_mib: cursor_after(parts, total, j + 1) as u64,
                        },
                    )
                }),
            first_empty_range(parts, total, index as int) is None,
            ranges.len() == index,
            forall|j: int| 0 <= j < index ==> #[trigger] ranges@[j] == range_at(parts, total, j),
        decreases count - index,
    {
        let spec = &plan.partitions[index];
        let range = match sized[index] {
            Some(range) => range,
            None => PartitionRange { start_mib: cursor_mib, end_mib: total_mib },
        };
        if range.end_mib <= range.start_mib {
            proof {
                lemma_empty_range_stays(parts, total, index + 1, count as int);
            }
            return Err(ValidationError::InvalidRange { partition: spec.id.clone() });
        }
        ranges.push(range);
        index = index + 1;
    }
    assert(ranges@ =~= Seq::new(parts.len(), |i: int| range_at(parts, total, i)));
    Ok(ranges)
}

/// Whether `plan` can be applied to the selected `disk`.
pub open spec fn plan_validity(disk: DiskIdentifierView, plan: DiskPlanView) -> Result<
    (),
    ValidationErrorView,
> {
    if plan.target.path != disk.path {
        Err(ValidationErrorView::DiskMismatch)
    } else if plan.partitions.len() == 0 {
        Err(ValidationErrorView::EmptyPlan)
    } else {
        Ok(())
    }
}

/// Checks that `plan` was made for `disk` and holds a partition.
pub fn validate_plan(disk: &DiskIdentifier, plan: &DiskPlan) -> (res: Result<(), ValidationError>)
    ensures
        match res {
            Ok(()) => plan_validity(disk@, plan@) is Ok,
            Err(error) => plan_validity(disk@, plan@) == Err::<(), ValidationErrorView>(error@),
        },
{
    if !(plan.target.path == disk.path) {
        return Err(ValidationError::DiskMismatch);
    }
    if plan.partitions.len() == 0 {
        return Err(ValidationError::EmptyPlan);
    }
    Ok(())
}

/// Size of the EFI system partition of the default layout, in bytes.
pub const ESP_BYTES: u64 = 536870912;

/// The EFI system partition of the default layout.
pub open spec fn default_esp() -> PartitionSpecView {
    PartitionSpecView {
        id: "esp"@,
        mountpoint: Some("/boot/efi"@),
        filesystem: FileSystemView::Fat32,
        size: PartitionSize::ExactBytes(ESP_BYTES),
        flags: seq![PartitionFlagView::Esp, PartitionFlagView::Boot],
    }
}

/// The root partition of the default layout.
pub open spec fn default_root() -> PartitionSpecView {
    PartitionSpecView {
        id: "root"@,
        mountpoint: Some("/"@),
        filesystem: FileSystemView::Ext4,
        size: PartitionSize::Remainder,
        flags: Seq::empty(),
    }
}

/// The layout for a disk that is used whole: an EFI system partition, then
/// a root partition on the rest.
pub open spec fn default_plan(disk: DiskIdentifierView) -> DiskPlanView {
    DiskPlanView {
        target: disk,
        mode: DiskMode::UseEntireDisk,
        partitions: seq![default_esp(), default_root()],
    }
}

/// Makes the default layout for `disk`.
pub fn default_plan_for_disk(disk: &DiskIdentifier) -> (plan: DiskPlan)
    ensures
        plan@ == default_plan(disk@),
{
    let mut esp_flags: Vec<PartitionFlag> = Vec::new();
    esp_flags.push(PartitionFlag::Esp);
    esp_flags.push(PartitionFlag::Boot);
    assert(esp_flags.deep_view() =~= seq![PartitionFlagView::Esp, PartitionFlagView::Boot]);
    let boot_partition = PartitionSpec {
        id: String::from_str("esp"),
        mountpoint: Some(String::from_str("/boot/efi")),
        filesystem: FileSystem::Fat32,
        size: PartitionSize::ExactBytes(ESP_BYTES),
        flags: esp_flags,
    };
    let root_flags: Vec<PartitionFlag> = Vec::new();
    assert(root_flags.deep_view() =~= Seq::<PartitionFlagView>::empty());
    let root_partition = PartitionSpec {
        id: String::from_str("root"),
        mountpoint: Some(String::from_str("/")),
        filesystem: FileSystem::Ext4,
        size: PartitionSize::Remainder,
        flags: root_flags,
    };
    let mut partitions: Vec<PartitionSpec> = Vec::new();
    partitions.push(boot_partition);
    partitions.push(root_partition);
    assert(partitions.deep_view() =~= seq![default_esp(), default_root()]);
    DiskPlan { target: disk.clone(), mode: DiskMode::UseEntireDisk, partitions }
}

/// The filesystem type that the partitioning tool is told, where it knows
/// the filesystem.
pub open spec fn filesystem_hint_text(fs: FileSystemView) -> Option<Seq<char>> {
    match fs {
        FileSystemView::Ext4 => Some("ext4"@),
        FileSystemView::Btrfs => Some("btrfs"@),
        FileSystemView::Xfs => Some("xfs"@),
        FileSystemView::Swap => None,
        FileSystemView::Fat32 => Some("fat32"@),
        FileSystemView::Other(_) => None,
    }
}

/// The name by which the partitioning tool knows a flag.
pub open spec fn flag_text(flag: PartitionFlagView) -> Seq<char> {
    match flag {
        PartitionFlagView::Boot => "boot"@,
        PartitionFlagView::Esp => "esp"@,
        PartitionFlagView::Swap => "swap"@,
        PartitionFlagView::Lvm => "lvm"@,
        PartitionFlagView::Custom(name) => name,
    }
}

/// A position on the disk as the partitioning tool reads it.
pub open spec fn mib_text(mib: u64) -> Seq<char> {
    decimal(mib as nat) + "MiB"@
}

/// The command that writes a fresh GPT partition table to `disk`.
pub open spec fn mklabel_command(disk: Seq<char>) -> CommandSpecView {
    command("parted"@, seq![disk, "--script"@, "mklabel"@, "gpt"@])
}

/// The command that creates `part` on `disk` over `range`.
pub open spec fn mkpart_command(
    disk: Seq<char>,
    part: PartitionSpecView,
    range: PartitionRange,
) -> CommandSpecView {
    let head = seq![disk, "--script"@, "mkpart"@, part.id];
    let typed = match filesystem_hint_text(part.filesystem) {
        Some(hint) => head.push(hint),
        None => head,
    };
    command("parted"@, typed.push(mib_text(range.start_mib)).push(mib_text(range.end_mib)))
}

/// The command that sets `flag` on partition `number` of `disk`, counting
/// from one.
pub open spec fn set_flag_command(
    disk: Seq<char>,
    number: nat,
    flag: PartitionFlagView,
) -> CommandSpecView {
    command("parted"@, seq![disk, "--script"@, "set"@, decimal(number), flag_text(flag), "on"@])
}

/// One flag command for each of `flags`, in order.
pub open spec fn flag_commands(
    disk: Seq<char>,
    number: nat,
    flags: Seq<PartitionFlagView>,
) -> Seq<CommandSpecView> {
    Seq::new(flags.len(), |k: int| set_flag_command(disk, number, flags[k]))
}

/// The commands for the first `n` partitions: for each in declaration
/// order, the command that creates it, then its flag commands.
pub open spec fn partition_commands(
    disk: Seq<char>,
    parts: Seq<PartitionSpecView>,
    ranges: Seq<PartitionRange>,
    n: int,
) -> Seq<CommandSpecView>
    decreases n,
{
    if n <= 0 {
        Seq::empty()
    } else {
        partition_commands(disk, parts, ranges, n - 1).push(
            mkpart_command(disk, parts[n - 1], ranges[n - 1]),
        ) + flag_commands(disk, n as nat, parts[n - 1].flags)
    }
}

/// The commands that realise `plan`: a fresh partition table, then the
/// commands of every partition. A plan whose layout is rejected has none.
pub open spec fn command_plan(plan: DiskPlanView) -> Result<
    Seq<CommandSpecView>,
    ValidationErrorView,
> {
    match plan_ranges(plan) {
        Err(error) => Err(error),
        Ok(ranges) => Ok(
            seq![mklabel_command(plan.target.path)] + partition_commands(
                plan.target.path,
                plan.partitions,
                ranges,
                plan.partitions.len() as int,
            ),
        ),
    }
}

fn filesystem_hint(fs: &FileSystem) -> (hint: Option<&'static str>)
    ensures
        match hint {
            Some(text) => filesystem_hint_text(fs@) == Some(text@),
            None => filesystem_hint_text(fs@) is None,
        },
{
    match fs {
        FileSystem::Ext4 => Some("ext4"),
        FileSystem::Btrfs => Some("btrfs"),
        FileSystem::Xfs => Some("xfs"),
        FileSystem::Swap => None,
        FileSystem::Fat32 => Some("fat32"),
        FileSystem::Other(_) => None,
    }
}

fn flag_name(flag: &PartitionFlag) -> (name: Option<&str>)
    ensures
        name matches Some(text) && text@ == flag_text(flag@),
{
    match flag {
        PartitionFlag::Boot => Some("boot"),
        PartitionFlag::Esp => Some("esp"),
        PartitionFlag::Swap => Some("swap"),
        PartitionFlag::Lvm => Some("lvm"),
        PartitionFlag::Custom(name) => Some(name.as_str()),
    }
}

fn mib_argument(mib: u64) -> (text: String)
    ensures
        text@ == mib_text(mib),
{
    decimal_string(mib).concat("MiB")
}

/// The commands that realise a disk plan, in the order in which they run.
#[derive(Debug)]
pub struct PartitionCommandPlan {
    pub commands: Vec<CommandSpec>,
}

impl View for PartitionCommandPlan {
    type V = Seq<CommandSpecView>;

    open spec fn view(&self) -> Seq<CommandSpecView> {
        self.commands.deep_view()
    }
}

impl Default for PartitionCommandPlan {
    fn default() -> (plan: Self)
        ensures
            plan@ == Seq::<CommandSpecView>::empty(),
    {
        let commands: Vec<CommandSpec> = Vec::new();
        PartitionCommandPlan { commands }
    }
}

/// Builds the commands that partition the target disk of `plan`.
pub fn build_command_plan(plan: &DiskPlan) -> (res: Result<PartitionCommandPlan, ValidationError>)
    ensures
        match res {
            Ok(built) => command_plan(plan@) == Ok::<Seq<CommandSpecView>, ValidationErrorView>(
                built@,
            ),
            Err(error) => command_plan(plan@) == Err::<Seq<CommandSpecView>, ValidationErrorView>(
                error@,
            ),
        },
{
    let ranges = match compute_ranges(plan) {
        Ok(ranges) => ranges,
        Err(error) => {
            return Err(error);
        },
    };
    let disk_path: &str = plan.target.path.as_str();
    let ghost disk = plan@.target.path;
    let ghost parts = plan@.partitions;
    let count: usize = plan.partitions.len();

    let mut commands: Vec<CommandSpec> = Vec::new();
    let mut label_args: Vec<String> = Vec::new();
    push_text(&mut label_args, disk_path);
    push_text(&mut label_args, "--script");
    push_text(&mut label_args, "mklabel");
    push_text(&mut label_args, "gpt");
    assert(label_args.deep_view() =~= seq![disk, "--script"@, "mklabel"@, "gpt"@]);
    push_command(&mut commands, CommandSpec::new("parted", label_args));

    let mut index: usize = 0;
    while index < count
        invariant
            index <= count,
            count == plan.partitions.len(),
            count == ranges@.len(),
            disk == plan@.target.path,
            disk == disk_path@,
            parts == plan@.partitions,
            commands.deep_view() == seq![mklabel_command(disk)] + partition_commands(
                disk,
                parts,
                ranges@,
                index as int,
            ),
        decreases count - index,
    {
        let spec = &plan.partitions[index];
        let range = ranges[index];
        let ghost before = seq![mklabel_command(disk)] + partition_commands(
            disk,
            parts,
            ranges@,
            index as int,
        );

        let mut args: Vec<String> = Vec::new();
        push_text(&mut args, disk_path);
        push_text(&mut args, "--script");
        push_text(&mut args, "mkpart");
        push_text(&mut args, spec.id.as_str());
        assert(args.deep_view() =~= seq![disk, "--script"@, "mkpart"@, spec@.id]);
        match filesystem_hint(&spec.filesystem) {
            Some(hint) => {
                push_text(&mut args, hint);
            },
            None => {},
        }
        let start = mib_argument(range.start_mib);
        let end = mib_argument(range.end_mib);
        push_text(&mut args, start.as_str());
        push_text(&mut args, end.as_str());
        push_command(&mut commands, CommandSpec::new("parted", args));

        let number = decimal_string((index + 1) as u64);
        let flag_count: usize = spec.flags.len();
        let ghost flags = spec@.flags;
        let ghost created = before.push(mkpart_command(disk, spec@, range));
        let mut k: usize = 0;
        while k < flag_count
            invariant
                k <= flag_count,
                flag_count == spec.flags.len(),
                flags == spec@.flags,
                disk == disk_path@,
                number@ == decimal((index + 1) as nat),
                commands.deep_view() == created + flag_commands(
                    disk,
                    (index + 1) as nat,
                    flags,
                ).take(k as int),
            decreases flag_count - k,
        {
            let flag = &spec.flags[k];
            match flag_name(flag) {
                Some(name) => {
                    let mut flag_args: Vec<String> = Vec::new();
                    push_text(&mut flag_args, disk_path);
                    push_text(&mut flag_args, "--script");
                    push_text(&mut flag_args, "set");
                    push_text(&mut flag_args, number.as_str());
                    push_text(&mut flag_args, name);
                    push_text(&mut flag_args, "on");
                    assert(flag_args.deep_view() =~= seq![
                        disk,
                        "--script"@,
                        "set"@,
                        decimal((index + 1) as nat),
                        flag_text(flag@),
                        "on"@,
                    ]);
                    push_command(&mut commands, CommandSpec::new("parted", flag_args));
                },
                None => {},
            }
            k = k + 1;
        }
        index = index + 1;
    }
    Ok(PartitionCommandPlan { commands })
}

/// Why applying a plan stopped: the plan was rejected before any command
/// ran, or the runner failed on a command.
#[derive(Debug)]
pub enum ApplyError<E> {
    Plan(ValidationError),
    Command(E),
}

/// The views of `commands`, in order.
pub open spec fn command_views(commands: Seq<CommandSpec>) -> Seq<CommandSpecView> {
    Seq::new(commands.len(), |i: int| commands[i]@)
}

/// `run_cmd` has answered `Ok` to each of `issued`.
pub open spec fn all_accepted<E, F: Fn(&CommandSpec) -> Result<(), E>>(
    run_cmd: F,
    issued: Seq<CommandSpec>,
) -> bool {
    forall|i: int|
        0 <= i < issued.len() ==> call_ensures(run_cmd, (&#[trigger] issued[i],), Ok::<(), E>(()))
}

/// Builds the commands of `plan` and hands them to `run_cmd` one by one, in
/// order, until one fails. A rejected plan hands it none.
pub fn apply_plan<E, F: Fn(&CommandSpec) -> Result<(), E>>(plan: &DiskPlan, run_cmd: F) -> (res:
    Result<(), ApplyError<E>>)
    requires
        forall|next: &CommandSpec| call_requires(run_cmd, (next,)),
    ensures
        match res {
            Ok(()) => exists|issued: Seq<CommandSpec>|
                {
                    &&& command_plan(plan@) == Ok::<Seq<CommandSpecView>, ValidationErrorView>(
                        #[trigger] command_views(issued),
                    )
                    &&& all_accepted(run_cmd, issued)
                },
            Err(ApplyError::Plan(error)) => command_plan(plan@) == Err::<
                Seq<CommandSpecView>,
                ValidationErrorView,
            >(error@),
            Err(ApplyError::Command(error)) => exists|issued: Seq<CommandSpec>, failed: CommandSpec|
                {
                    &&& command_plan(plan@) matches Ok(commands)
                    &&& #[trigger] command_views(issued).push(failed@) == commands.take(
                        issued.len() as int + 1,
                    )
                    &&& issued.len() < commands.len()
                    &&& all_accepted(run_cmd, issued)
                    &&& call_ensures(run_cmd, (&failed,), Err::<(), E>(error))
                },
        },
{
    let commands = match build_command_plan(plan) {
        Ok(built) => built.commands,
        Err(error) => {
            return Err(ApplyError::Plan(error));
        },
    };
    let mut index: usize = 0;
    while index < commands.len()
        invariant
            index <= commands.len(),
            forall|next: &CommandSpec| call_requires(run_cmd, (next,)),
            command_plan(plan@) == Ok::<Seq<CommandSpecView>, ValidationErrorView>(
                commands.deep_view(),
            ),
            all_accepted(run_cmd, commands@.take(index as int)),
        decreases commands.len() - index,
    {
        let outcome = run_cmd(&commands[index]);
        match outcome {
            Ok(done) => {
                assert(done == ());
            },
            Err(error) => {
                proof {
                    let issued = commands@.take(index as int);
                    let failed = commands@[index as int];
                    assert(command_views(issued).push(failed@) =~= commands.deep_view().take(
                        index + 1,
                    ));
                }
                return Err(ApplyError::Command(error));
            },
        }
        proof {
            let before = commands@.take(index as int);
            let after = commands@.take(index + 1);
            assert forall|i: int| 0 <= i < after.len() implies call_ensures(
                run_cmd,
                (&#[trigger] after[i],),
                Ok::<(), E>(()),
            ) by {
                if i < index {
                    assert(after[i] == before[i]);
                }
            }
        }
        index = index + 1;
    }
    proof {
        assert(commands@.take(commands.len() as int) =~= commands@);
        assert(command_views(commands@) =~= commands.deep_view());
    }
    Ok(())
}

/// One line that names a partition, where it is mounted and its filesystem.
pub open spec fn partition_description(part: PartitionSpecView) -> Seq<char> {
    let place = match part.mountpoint {
        Some(mountpoint) => mountpoint,
        None => "unassigned"@,
    };
    part.id + ": "@ + place + " ("@ + filesystem_label(part.filesystem) + ")"@
}

/// Describes a partition for display.
pub fn describe_partition(spec: &PartitionSpec) -> (line: String)
    ensures
        line@ == partition_description(spec@),
{
    let place: &str = match &spec.mountpoint {
        Some(mountpoint) => mountpoint.as_str(),
        None => "unassigned",
    };
    spec.id.clone().concat(": ").concat(place).concat(" (").concat(spec.filesystem.label()).concat(
        ")",
    )
}

} // verus!
