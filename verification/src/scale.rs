//! The arithmetic of a divider: forcing a value into its range, mapping a
//! coordinate on the track to a value of the range, and mapping a value back
//! to an offset on the track.

use vstd::prelude::*;
use vstd::arithmetic::div_mod::{
    lemma_div_pos_is_pos,
    lemma_fundamental_div_mod,
    lemma_mod_pos_bound,
};

verus! {

/// `value` forced into `start..=end`. A range that holds nothing
/// (`start > end`) gives `start`.
pub open spec fn clamp_value(value: int, start: int, end: int) -> int {
    if start > end {
        start
    } else if value < start {
        start
    } else if value > end {
        end
    } else {
        value
    }
}

/// A step that can divide: `step` itself where it is positive, else the
/// smallest positive step.
pub open spec fn usable_step(step: int) -> int {
    if step >= 1 {
        step
    } else {
        1
    }
}

/// The whole number nearest to `n / d` for a positive `d`; a tie goes up.
pub open spec fn round_div(n: int, d: int) -> int {
    (2 * n + d) / (2 * d)
}

/// The value that a pointer at `coord` asks for, on a track that starts at
/// `origin` and is `extent` long.
///
/// At or before the near edge of the track it is `start`, at or after the far
/// edge it is `end`. In between, on a range that holds nothing to choose from
/// (`start >= end`), it is `start`; else the share of the track that the
/// pointer has passed is taken of the range, rounded to a whole number of
/// steps from `start`, and kept from passing `end`.
pub open spec fn locate_value(
    start: int,
    end: int,
    step: int,
    origin: int,
    extent: int,
    coord: int,
) -> int {
    if coord <= origin {
        start
    } else if coord >= origin + extent {
        end
    } else if start >= end {
        start
    } else {
        let steps: int = round_div((coord - origin) * (end - start), extent * step);
        if start + steps * step < end {
            start + steps * step
        } else {
            end
        }
    }
}

/// How far from the origin of a track of length `extent` the handle of
/// `value` stands: the share of the range that `value` has passed, taken of
/// the track and rounded down. A range with `start >= end` gives 0.
pub open spec fn offset_value(value: int, start: int, end: int, extent: int) -> int {
    if start >= end {
        0
    } else {
        extent * (value - start) / (end - start)
    }
}

/// Forces `value` into `start..=end`.
pub fn clamp(value: i32, start: i32, end: i32) -> (clamped: i32)
    ensures
        clamped == clamp_value(value as int, start as int, end as int),
{
    if start > end {
        start
    } else if value < start {
        start
    } else if value > end {
        end
    } else {
        value
    }
}

/// Replaces a step that cannot divide by the smallest positive step.
pub fn positive_step(step: i32) -> (usable: i32)
    ensures
        usable == usable_step(step as int),
        usable >= 1,
{
    if step >= 1 {
        step
    } else {
        1
    }
}

/// A product of two bounded factors is bounded by the product of the bounds.
proof fn lemma_product_bounds(a: int, b: int, a_max: int, b_max: int)
    by (nonlinear_arith)
    requires
        0 <= a <= a_max,
        0 <= b <= b_max,
    ensures
        0 <= a * b <= a_max * b_max,
{
}

/// A positive product of positive factors.
proof fn lemma_product_positive(a: int, b: int)
    by (nonlinear_arith)
    requires
        0 < a,
        0 < b,
    ensures
        0 < a * b,
{
}

/// `round_div` of a number that is not negative is not negative, and no
/// larger than that number plus one.
pub proof fn lemma_round_div_bounds(n: int, d: int)
    requires
        0 <= n,
        0 < d,
    ensures
        0 <= round_div(n, d) <= n + 1,
{
    let x: int = 2 * n + d;
    let y: int = 2 * d;
    lemma_div_pos_is_pos(x, y);
    lemma_fundamental_div_mod(x, y);
    lemma_mod_pos_bound(x, y);
    let q: int = x / y;
    assert(x == y * q + x % y);
    if q > n + 1 {
        assert(y * q >= y * (n + 2)) by (nonlinear_arith)
            requires
                q >= n + 2,
                y > 0,
        ;
        assert(y * (n + 2) == 2 * d * n + 4 * d) by (nonlinear_arith)
            requires
                y == 2 * d,
        ;
        assert(2 * d * n >= 2 * n) by (nonlinear_arith)
            requires
                d >= 1,
                n >= 0,
        ;
        assert(false);
    }
}

/// The located value is a value of the range. On a range that holds nothing
/// it is one of the two bounds.
pub proof fn lemma_locate_in_range(
    start: int,
    end: int,
    step: int,
    origin: int,
    extent: int,
    coord: int,
)
    requires
        step >= 1,
    ensures
        start <= end ==> start <= locate_value(start, end, step, origin, extent, coord) <= end,
        start > end ==> {
            ||| locate_value(start, end, step, origin, extent, coord) == start
            ||| locate_value(start, end, step, origin, extent, coord) == end
        },
{
    if origin < coord < origin + extent && start < end {
        let n: int = (coord - origin) * (end - start);
        let d: int = extent * step;
        lemma_product_positive(coord - origin, end - start);
        lemma_product_positive(extent, step);
        lemma_round_div_bounds(n, d);
        lemma_product_bounds(round_div(n, d), step, n + 1, step);
    }
}

/// Maps a coordinate on the track to a value of the range. A step that is
/// not positive counts as 1.
pub fn locate(start: i32, end: i32, step: i32, origin: i32, extent: u32, coord: i32) -> (value:
    i32)
    ensures
        value == locate_value(
            start as int,
            end as int,
            usable_step(step as int),
            origin as int,
            extent as int,
            coord as int,
        ),
{
    let step: i32 = positive_step(step);
    if coord <= origin {
        return start;
    }
    let passed: i64 = coord as i64 - origin as i64;
    if passed >= extent as i64 {
        return end;
    }
    if start >= end {
        return start;
    }
    let span: i64 = end as i64 - start as i64;
    proof {
        lemma_product_bounds(passed as int, span as int, 0xffff_ffff, 0xffff_ffff);
        lemma_product_bounds(extent as int, step as int, 0xffff_ffff, 0x7fff_ffff);
        lemma_product_positive(extent as int, step as int);
    }
    let n: i128 = passed as i128 * span as i128;
    let d: i128 = extent as i128 * step as i128;
    let steps: i128 = (2 * n + d) / (2 * d);
    proof {
        lemma_round_div_bounds(n as int, d as int);
        lemma_product_bounds(
            steps as int,
            step as int,
            0xffff_ffff_ffff_ffff_ffff,
            0x7fff_ffff,
        );
    }
    let raw: i128 = start as i128 + steps * step as i128;
    if raw < end as i128 {
        raw as i32
    } else {
        end
    }
}

/// Maps a value to its offset on a track of length `extent`. A value
/// outside the range counts as the bound of the range that it lies beyond.
pub fn offset(value: i32, start: i32, end: i32, extent: u32) -> (off: u32)
    ensures
        off == offset_value(
            clamp_value(value as int, start as int, end as int),
            start as int,
            end as int,
            extent as int,
        ),
        off <= extent,
{
    if start >= end {
        return 0;
    }
    let value: i32 = clamp(value, start, end);
    let passed: u64 = (value as i64 - start as i64) as u64;
    let span: u64 = (end as i64 - start as i64) as u64;
    proof {
        lemma_product_bounds(extent as int, passed as int, 0xffff_ffff, 0xffff_ffff);
        lemma_offset_bounds(value as int, start as int, end as int, extent as int);
    }
    let off: u64 = (extent as u64 * passed) / span;
    off as u32
}

/// The offset of a value of the range lies on the track.
pub proof fn lemma_offset_bounds(value: int, start: int, end: int, extent: int)
    requires
        start <= value <= end,
        0 <= extent,
    ensures
        0 <= offset_value(value, start, end, extent) <= extent,
{
    if start < end {
        let span: int = end - start;
        let x: int = extent * (value - start);
        assert(0 <= x <= extent * span) by (nonlinear_arith)
            requires
                x == extent * (value - start),
                0 <= value - start <= span,
                0 <= extent,
        ;
        lemma_div_pos_is_pos(x, span);
        lemma_fundamental_div_mod(x, span);
        lemma_mod_pos_bound(x, span);
        let q: int = x / span;
        if q > extent {
            assert(span * q >= span * (extent + 1)) by (nonlinear_arith)
                requires
                    q >= extent + 1,
                    span > 0,
            ;
            assert(span * (extent + 1) == extent * span + span) by (nonlinear_arith);
            assert(false);
        }
    }
}

} // verus!
