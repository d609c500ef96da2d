//! Mapping a value of an axis onto the cells of the plot.
//!
//! The high end of the axis maps to offset 0, the low end to the full
//! extent; values between are placed in proportion and rounded down.

use vstd::arithmetic::div_mod::{lemma_div_is_ordered, lemma_div_multiples_vanish};
use vstd::prelude::*;

verus! {

/// Whether `v` lies on an axis that runs from `min` to `max`, ends included.
pub open spec fn in_bounds(v: int, min: int, max: int) -> bool {
    min <= v <= max
}

/// The offset of `v` on an axis that runs from `min` to `max` over `extent`
/// cells: `(max - v) * extent / (max - min)`, rounded down.
pub open spec fn scaled(v: int, min: int, max: int, extent: int) -> int {
    (max - v) * extent / (max - min)
}

/// The offset that `scale` gives: that of a value on an axis that spans
/// something, none otherwise.
pub open spec fn offset_of(v: int, min: int, max: int, extent: int) -> Option<int> {
    if in_bounds(v, min, max) && min < max {
        Some(scaled(v, min, max, extent))
    } else {
        None
    }
}

/// A value within the bounds maps into the extent, both ends included.
pub proof fn lemma_scaled_in_extent(v: int, min: int, max: int, extent: int)
    requires
        in_bounds(v, min, max),
        min < max,
        0 <= extent,
    ensures
        0 <= scaled(v, min, max, extent) <= extent,
{
    let range = max - min;
    assert(0 <= (max - v) * extent <= range * extent) by (nonlinear_arith)
        requires
            0 <= max - v <= range,
            0 <= extent,
    ;
    lemma_div_is_ordered(0, (max - v) * extent, range);
    lemma_div_is_ordered((max - v) * extent, range * extent, range);
    lemma_div_multiples_vanish(extent, range);
    assert(range * extent == extent * range) by (nonlinear_arith);
}

/// Scaling keeps the order of values, turned round: of two values within
/// the bounds, the greater never maps to the greater offset.
pub proof fn lemma_scaled_monotonic(low: int, high: int, min: int, max: int, extent: int)
    requires
        in_bounds(low, min, max),
        in_bounds(high, min, max),
        low <= high,
        min < max,
        0 <= extent,
    ensures
        scaled(high, min, max, extent) <= scaled(low, min, max, extent),
{
    assert((max - high) * extent <= (max - low) * extent) by (nonlinear_arith)
        requires
            max - high <= max - low,
            0 <= extent,
    ;
    lemma_div_is_ordered((max - high) * extent, (max - low) * extent, max - min);
}

/// The ends of the axis map to the ends of the extent.
pub proof fn lemma_scaled_ends(min: int, max: int, extent: int)
    requires
        min < max,
        0 <= extent,
    ensures
        scaled(max, min, max, extent) == 0,
        scaled(min, min, max, extent) == extent,
{
    let range = max - min;
    assert((max - max) * extent == 0) by (nonlinear_arith);
    assert(range * extent == extent * range) by (nonlinear_arith);
    lemma_div_multiples_vanish(extent, range);
}

/// The offset of `v` on an axis that runs from `min` to `max` over `extent`
/// cells. There is none for a value outside the bounds, nor on an axis whose
/// bounds are equal.
pub fn scale(v: i64, min: i64, max: i64, extent: u16) -> (offset: Option<u16>)
    ensures
        offset_of(v as int, min as int, max as int, extent as int) == match offset {
            Some(o) => Some(o as int),
            None => None,
        },
        offset matches Some(o) ==> o <= extent,
{
    if v < min || v > max || min == max {
        return None;
    }
    let above: u128 = (max as i128 - v as i128) as u128;
    let range: u128 = (max as i128 - min as i128) as u128;
    proof {
        lemma_scaled_in_extent(v as int, min as int, max as int, extent as int);
        assert(above * extent <= 0xffff_ffff_ffff_ffff * 0xffff) by (nonlinear_arith)
            requires
                0 <= above <= 0xffff_ffff_ffff_ffff,
                0 <= extent <= 0xffff,
        ;
    }
    let offset: u128 = above * (extent as u128) / range;
    Some(offset as u16)
}

} // verus!
