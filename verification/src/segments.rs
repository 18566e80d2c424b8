//! The segments that a row of dividers cuts a total extent into: what a
//! host does with the value that one of its dividers reports.

use vstd::prelude::*;

verus! {

/// Where cut `k` of the row lies: the first cut is the near edge at 0, the
/// last the far edge at `total`, and the ones between are the dividers.
pub open spec fn cut(dividers: Seq<i32>, total: int, k: int) -> int {
    if k <= 0 {
        0
    } else if k > dividers.len() {
        total
    } else {
        dividers[k - 1] as int
    }
}

/// What divider `index` at `value` leaves to the segment before it: the
/// distance from the cut before.
pub open spec fn width_before(dividers: Seq<i32>, total: int, index: int, value: int) -> int {
    value - cut(dividers, total, index)
}

/// What divider `index` at `value` leaves to the segment after it: the
/// distance to the cut after.
pub open spec fn width_after(dividers: Seq<i32>, total: int, index: int, value: int) -> int {
    cut(dividers, total, index + 2) - value
}

/// Every segment is as wide as its two cuts are apart.
pub open spec fn consistent(widths: Seq<i32>, dividers: Seq<i32>, total: int) -> bool {
    &&& widths.len() == dividers.len() + 1
    &&& forall|i: int|
        0 <= i < widths.len() ==> #[trigger] widths[i] == cut(dividers, total, i + 1) - cut(
            dividers,
            total,
            i,
        )
}

/// The widths of the first `count` segments together.
pub open spec fn width_of_first(widths: Seq<i32>, count: nat) -> int
    decreases count,
{
    if count == 0 {
        0
    } else {
        width_of_first(widths, (count - 1) as nat) + widths[count - 1]
    }
}

/// Moves divider `index` to `value`: the segment before it and the segment
/// after it take up what the move gives and takes, and all other segments
/// and dividers stay as they are.
pub fn move_divider(
    widths: &mut Vec<i32>,
    dividers: &mut Vec<i32>,
    total: i32,
    index: usize,
    value: i32,
)
    requires
        index < old(dividers).len(),
        index + 1 < old(widths).len(),
        i32::MIN <= width_before(old(dividers)@, total as int, index as int, value as int)
            <= i32::MAX,
        i32::MIN <= width_after(old(dividers)@, total as int, index as int, value as int)
            <= i32::MAX,
    ensures
        final(dividers)@ == old(dividers)@.update(index as int, value),
        final(widths)@.len() == old(widths)@.len(),
        final(widths)@[index as int] == width_before(
            old(dividers)@,
            total as int,
            index as int,
            value as int,
        ),
        final(widths)@[index + 1] == width_after(
            old(dividers)@,
            total as int,
            index as int,
            value as int,
        ),
        forall|i: int|
            0 <= i < old(widths)@.len() && i != index && i != index + 1 ==> final(widths)@[i]
                == old(widths)@[i],
{
    let before: i32 = if index == 0 {
        value
    } else {
        value - dividers[index - 1]
    };
    let after: i32 = if index == dividers.len() - 1 {
        total - value
    } else {
        dividers[index + 1] - value
    };
    widths.set(index, before);
    widths.set(index + 1, after);
    dividers.set(index, value);
}

/// The first `count` segments of a consistent row reach from the near edge
/// to cut `count`.
pub proof fn lemma_first_segments_reach_their_cut(
    widths: Seq<i32>,
    dividers: Seq<i32>,
    total: int,
    count: nat,
)
    requires
        consistent(widths, dividers, total),
        count <= widths.len(),
    ensures
        width_of_first(widths, count) == cut(dividers, total, count as int),
    decreases count,
{
    if count > 0 {
        lemma_first_segments_reach_their_cut(widths, dividers, total, (count - 1) as nat);
        assert(widths[count - 1] == cut(dividers, total, count - 1 + 1) - cut(
            dividers,
            total,
            count - 1,
        ));
    }
}

/// The segments of a consistent row fill the total extent, wherever the
/// dividers stand.
pub proof fn law_segments_fill_the_extent(widths: Seq<i32>, dividers: Seq<i32>, total: int)
    requires
        consistent(widths, dividers, total),
    ensures
        width_of_first(widths, widths.len()) == total,
{
    lemma_first_segments_reach_their_cut(widths, dividers, total, widths.len());
}

/// Moving a divider keeps a consistent row consistent: what the segment
/// before the divider gains, the segment after it loses.
pub proof fn law_move_keeps_the_row_consistent(
    widths: Seq<i32>,
    dividers: Seq<i32>,
    total: int,
    index: int,
    value: i32,
    moved: Seq<i32>,
)
    requires
        consistent(widths, dividers, total),
        0 <= index < dividers.len(),
        moved.len() == widths.len(),
        moved[index] == width_before(dividers, total, index, value as int),
        moved[index + 1] == width_after(dividers, total, index, value as int),
        forall|i: int|
            0 <= i < widths.len() && i != index && i != index + 1 ==> moved[i] == widths[i],
    ensures
        consistent(moved, dividers.update(index, value), total),
        moved[index] + moved[index + 1] == widths[index] + widths[index + 1],
{
    let after: Seq<i32> = dividers.update(index, value);
    assert forall|i: int| 0 <= i < moved.len() implies #[trigger] moved[i] == cut(
        after,
        total,
        i + 1,
    ) - cut(after, total, i) by {
        assert(widths[i] == cut(dividers, total, i + 1) - cut(dividers, total, i));
    }
    assert(widths[index] == cut(dividers, total, index + 1) - cut(dividers, total, index));
    assert(widths[index + 1] == cut(dividers, total, index + 2) - cut(
        dividers,
        total,
        index + 1,
    ));
}

} // verus!
