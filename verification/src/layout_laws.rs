//! What holds of every layout that the planner accepts, and of every layout
//! that it rejects.

use vstd::prelude::*;
use crate::error::ValidationErrorView;
use crate::partition::{
    cursor_after, declaration_error, first_declaration_error, first_empty_range,
    is_empty_range, layout_ranges, lemma_cursor_bounded, range_at, remainders_in, saturated,
    span_mib, PartitionRange, FIRST_MIB,
};
use crate::state::{PartitionSize, PartitionSpecView};

verus! {

/// The cursor never moves back.
pub proof fn lemma_cursor_monotonic(parts: Seq<PartitionSpecView>, total_mib: nat, i: int, j: int)
    requires
        i <= j,
    ensures
        cursor_after(parts, total_mib, i) <= cursor_after(parts, total_mib, j),
    decreases j - i,
{
    if i < j {
        lemma_cursor_monotonic(parts, total_mib, i, j - 1);
        lemma_cursor_bounded(parts, total_mib, j - 1);
    }
}

/// Where no rejection is found among the first `n` partitions, none of them
/// has one.
pub proof fn lemma_no_declaration_error(
    parts: Seq<PartitionSpecView>,
    total_mib: nat,
    n: int,
    i: int,
)
    requires
        0 <= i < n,
        first_declaration_error(parts, total_mib, n) is None,
    ensures
        declaration_error(parts, total_mib, i) is None,
    decreases n,
{
    if i < n - 1 {
        lemma_no_declaration_error(parts, total_mib, n - 1, i);
    }
}

/// A partition with a rejection of its own makes the walk over any prefix
/// that holds it find one.
pub proof fn lemma_declaration_error_found(
    parts: Seq<PartitionSpecView>,
    total_mib: nat,
    n: int,
    i: int,
)
    requires
        0 <= i < n,
        declaration_error(parts, total_mib, i) is Some,
    ensures
        first_declaration_error(parts, total_mib, n) is Some,
    decreases n,
{
    if i < n - 1 {
        lemma_declaration_error_found(parts, total_mib, n - 1, i);
    }
}

/// Where no empty range is found among the first `n` partitions, none of
/// their ranges is empty.
pub proof fn lemma_no_empty_range(parts: Seq<PartitionSpecView>, total_mib: nat, n: int, i: int)
    requires
        0 <= i < n,
        first_empty_range(parts, total_mib, n) is None,
    ensures
        !is_empty_range(range_at(parts, total_mib, i)),
    decreases n,
{
    if i < n - 1 {
        lemma_no_empty_range(parts, total_mib, n - 1, i);
    }
}

/// The count of partitions that take the rest never falls along the
/// declaration order, and a prefix that ends behind such a partition counts
/// it.
pub proof fn lemma_remainders_counted(parts: Seq<PartitionSpecView>, i: int, n: int)
    requires
        0 <= i < n,
    ensures
        remainders_in(parts, i) <= remainders_in(parts, n),
        parts[i].size is Remainder ==> remainders_in(parts, i) < remainders_in(parts, n),
    decreases n - i,
{
    if i < n - 1 {
        lemma_remainders_counted(parts, i, n - 1);
    }
}

/// Two partitions that take the rest make the walk find a rejection.
pub proof fn lemma_two_remainders_found(parts: Seq<PartitionSpecView>, total_mib: nat, n: int)
    requires
        remainders_in(parts, n) >= 2,
    ensures
        first_declaration_error(parts, total_mib, n) is Some,
    decreases n,
{
    if n > 0 && !(parts[n - 1].size is Remainder) {
        lemma_two_remainders_found(parts, total_mib, n - 1);
    }
}

/// In an accepted layout every range holds at least one MiB and starts at
/// `FIRST_MIB` or behind it, and no two ranges overlap. The sized partitions
/// lie on the disk in declaration order, and the partition that takes the
/// rest lies behind all of them.
pub proof fn lemma_ranges_disjoint(parts: Seq<PartitionSpecView>, total_mib: nat)
    requires
        layout_ranges(parts, total_mib) is Ok,
    ensures
        forall|i: int|
            #![trigger layout_ranges(parts, total_mib)->Ok_0[i]]
            0 <= i < parts.len() ==> {
                let range = layout_ranges(parts, total_mib)->Ok_0[i];
                FIRST_MIB <= range.start_mib < range.end_mib
            },
        forall|i: int, j: int|
            #![trigger layout_ranges(parts, total_mib)->Ok_0[i], layout_ranges(parts, total_mib)->Ok_0[j]]
            0 <= i < j < parts.len() ==> {
                let ranges = layout_ranges(parts, total_mib)->Ok_0;
                ranges[i].end_mib <= ranges[j].start_mib || ranges[j].end_mib
                    <= ranges[i].start_mib
            },
        forall|i: int, j: int|
            #![trigger layout_ranges(parts, total_mib)->Ok_0[i], layout_ranges(parts, total_mib)->Ok_0[j]]
            0 <= i < parts.len() && 0 <= j < parts.len() && i != j && (i < j
                || parts[j].size is Remainder) && !(parts[i].size is Remainder) ==> {
                let ranges = layout_ranges(parts, total_mib)->Ok_0;
                ranges[i].end_mib <= ranges[j].start_mib
            },
{
    let n = parts.len() as int;
    let ranges = layout_ranges(parts, total_mib)->Ok_0;
    assert forall|i: int| 0 <= i < n implies FIRST_MIB <= (#[trigger] ranges[i]).start_mib
        < ranges[i].end_mib by {
        lemma_no_empty_range(parts, total_mib, n, i);
        lemma_cursor_bounded(parts, total_mib, i);
        lemma_cursor_bounded(parts, total_mib, n);
    }
    assert forall|i: int, j: int|
        0 <= i < n && 0 <= j < n && i != j && (i < j || parts[j].size is Remainder) && !(
        parts[i].size is Remainder) implies (#[trigger] ranges[i]).end_mib <= (
    #[trigger] ranges[j]).start_mib by {
        lemma_cursor_bounded(parts, total_mib, i + 1);
        lemma_cursor_bounded(parts, total_mib, j);
        lemma_cursor_bounded(parts, total_mib, n);
        if parts[j].size is Remainder {
            lemma_cursor_monotonic(parts, total_mib, i + 1, n);
        } else {
            lemma_cursor_monotonic(parts, total_mib, i + 1, j);
        }
    }
    assert forall|i: int, j: int| 0 <= i < j < n implies (#[trigger] ranges[i]).end_mib <= (
    #[trigger] ranges[j]).start_mib || ranges[j].end_mib <= ranges[i].start_mib by {
        if parts[i].size is Remainder && parts[j].size is Remainder {
            lemma_remainders_counted(parts, i, j);
            lemma_no_declaration_error(parts, total_mib, n, j);
        }
    }
}

/// In an accepted layout in which no partition but the last takes the rest
/// of the disk, the ranges follow each other in declaration order: each
/// starts where the one before it ends, or behind that.
pub proof fn lemma_ranges_increasing(parts: Seq<PartitionSpecView>, total_mib: nat)
    requires
        layout_ranges(parts, total_mib) is Ok,
        forall|k: int| 0 <= k < parts.len() - 1 ==> !((#[trigger] parts[k]).size is Remainder),
    ensures
        forall|i: int, j: int|
            #![trigger layout_ranges(parts, total_mib)->Ok_0[i], layout_ranges(parts, total_mib)->Ok_0[j]]
            0 <= i < j < parts.len() ==> {
                let ranges = layout_ranges(parts, total_mib)->Ok_0;
                ranges[i].start_mib < ranges[i].end_mib <= ranges[j].start_mib < ranges[j].end_mib
            },
{
    lemma_ranges_disjoint(parts, total_mib);
}

/// In an accepted layout with a partition that takes the rest, and in one
/// whose sized partitions together end within the disk, no range ends
/// behind the disk.
pub proof fn lemma_ranges_within_disk(parts: Seq<PartitionSpecView>, total_mib: nat)
    requires
        layout_ranges(parts, total_mib) is Ok,
        remainders_in(parts, parts.len() as int) > 0 || cursor_after(
            parts,
            total_mib,
            parts.len() as int,
        ) <= total_mib,
    ensures
        forall|i: int|
            #![trigger layout_ranges(parts, total_mib)->Ok_0[i]]
            0 <= i < parts.len() ==> {
                let range = layout_ranges(parts, total_mib)->Ok_0[i];
                FIRST_MIB <= range.start_mib < range.end_mib <= total_mib
            },
{
    lemma_ranges_disjoint(parts, total_mib);
    let n = parts.len() as int;
    let ranges = layout_ranges(parts, total_mib)->Ok_0;
    assert forall|i: int| 0 <= i < n implies (#[trigger] ranges[i]).end_mib <= total_mib by {
        lemma_cursor_bounded(parts, total_mib, i + 1);
        lemma_cursor_bounded(parts, total_mib, n);
        lemma_cursor_monotonic(parts, total_mib, i + 1, n);
    }
}

/// In an accepted layout the partition that takes the rest ends exactly
/// where the disk ends.
pub proof fn lemma_remainder_ends_with_disk(parts: Seq<PartitionSpecView>, total_mib: nat, i: int)
    requires
        total_mib <= u64::MAX,
        layout_ranges(parts, total_mib) is Ok,
        0 <= i < parts.len(),
        parts[i].size is Remainder,
    ensures
        layout_ranges(parts, total_mib)->Ok_0[i].end_mib == total_mib,
        layout_ranges(parts, total_mib)->Ok_0[i].start_mib == cursor_after(
            parts,
            total_mib,
            parts.len() as int,
        ),
{
    lemma_remainders_counted(parts, i, parts.len() as int);
    lemma_cursor_bounded(parts, total_mib, parts.len() as int);
}

/// In an accepted layout a sized partition takes its declared span and no
/// more: it ends its span behind its start, or at the largest position
/// there is. So a layout in which no partition takes the rest claims no
/// space that was not declared.
pub proof fn lemma_sized_range_is_declared_span(
    parts: Seq<PartitionSpecView>,
    total_mib: nat,
    i: int,
)
    requires
        layout_ranges(parts, total_mib) is Ok,
        0 <= i < parts.len(),
        !(parts[i].size is Remainder),
    ensures
        span_mib(parts[i].size, total_mib) is Ok,
        layout_ranges(parts, total_mib)->Ok_0[i].end_mib == saturated(
            layout_ranges(parts, total_mib)->Ok_0[i].start_mib as nat + span_mib(
                parts[i].size,
                total_mib,
            )->Ok_0,
        ),
        i == 0 ==> layout_ranges(parts, total_mib)->Ok_0[i].start_mib == FIRST_MIB,
        i > 0 && !(parts[i - 1].size is Remainder) ==> layout_ranges(
            parts,
            total_mib,
        )->Ok_0[i].start_mib == layout_ranges(parts, total_mib)->Ok_0[i - 1].end_mib,
{
    let n = parts.len() as int;
    lemma_no_declaration_error(parts, total_mib, n, i);
    lemma_cursor_bounded(parts, total_mib, i);
    lemma_cursor_bounded(parts, total_mib, i + 1);
}

/// An accepted layout holds at most one partition that takes the rest of
/// the disk. A layout with two of them is rejected, and for that reason
/// where the disk holds a MiB and every declared size has a span.
pub proof fn lemma_second_remainder_rejected(parts: Seq<PartitionSpecView>, total_mib: nat)
    ensures
        layout_ranges(parts, total_mib) is Ok ==> remainders_in(parts, parts.len() as int) <= 1,
        remainders_in(parts, parts.len() as int) >= 2 && total_mib > 0 && (forall|i: int|
            0 <= i < parts.len() && !((#[trigger] parts[i]).size is Remainder) ==> span_mib(
                parts[i].size,
                total_mib,
            ) is Ok) ==> layout_ranges(parts, total_mib) == Err::<
            Seq<PartitionRange>,
            ValidationErrorView,
        >(ValidationErrorView::MultipleRemainder),
{
    let n = parts.len() as int;
    if remainders_in(parts, n) >= 2 {
        lemma_two_remainders_found(parts, total_mib, n);
        if total_mib > 0 && (forall|i: int|
            0 <= i < parts.len() && !((#[trigger] parts[i]).size is Remainder) ==> span_mib(
                parts[i].size,
                total_mib,
            ) is Ok) {
            lemma_only_remainder_errors(parts, total_mib, n);
        }
    }
}

/// Where every declared size has a span, the only rejection that the walk
/// can find is a second partition that takes the rest.
proof fn lemma_only_remainder_errors(parts: Seq<PartitionSpecView>, total_mib: nat, n: int)
    requires
        n <= parts.len(),
        forall|i: int|
            0 <= i < parts.len() && !((#[trigger] parts[i]).size is Remainder) ==> span_mib(
                parts[i].size,
                total_mib,
            ) is Ok,
    ensures
        first_declaration_error(parts, total_mib, n) is Some ==> first_declaration_error(
            parts,
            total_mib,
            n,
        ) == Some(ValidationErrorView::MultipleRemainder),
    decreases n,
{
    if n > 0 {
        lemma_only_remainder_errors(parts, total_mib, n - 1);
    }
}

/// A layout is rejected where one of its partitions declares a percentage
/// of zero or above one hundred, or an exact size of zero bytes.
pub proof fn lemma_invalid_size_rejected(parts: Seq<PartitionSpecView>, total_mib: nat, i: int)
    requires
        0 <= i < parts.len(),
        match parts[i].size {
            PartitionSize::Percentage(percent) => percent == 0 || percent > 100,
            PartitionSize::ExactBytes(bytes) => bytes == 0,
            PartitionSize::Remainder => false,
        },
    ensures
        layout_ranges(parts, total_mib) is Err,
        span_mib(parts[i].size, total_mib) is Err,
{
    lemma_declaration_error_found(parts, total_mib, parts.len() as int, i);
}

} // verus!
