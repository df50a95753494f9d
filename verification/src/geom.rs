//! Geometry primitives: integer 2-D vectors, axis-aligned rectangle edges
//! and interval-overlap queries.
//!
//! A rectangle is described by a center position, a local offset of its
//! collider from that position, and half-extents. Its edges on one axis are
//! `center + offset - half` and `center + offset + half`. Two rectangles
//! overlap on an axis iff neither lies strictly beyond the other.

use vstd::prelude::*;

verus! {

/// A two-dimensional point, displacement or extent in integer world units.
///
/// The simulation measures everything in a single integer unit chosen by
/// the caller (for example a fixed subdivision of a pixel), so that all
/// collision arithmetic is exact.
#[derive(Clone, Copy, Debug, PartialEq, Eq, Structural)]
pub struct Vec2i {
    pub x: i64,
    pub y: i64,
}

/// Largest magnitude accepted for a single coordinate, extent or velocity.
pub const MAX_UNIT: i64 = 0x100_0000_0000;

/// Largest accepted tick length, in time units.
pub const MAX_DT: i64 = 0x10_0000;

/// Largest magnitude a coordinate can reach after one resolver tick: a
/// coordinate in the accepted range moved by one velocity step.
pub const MAX_TRAVEL: i64 = 0x2000_0000_0000_0000;

/// Whether a single coordinate, extent or velocity is within the accepted range.
pub open spec fn in_unit_range(v: int) -> bool {
    -MAX_UNIT <= v <= MAX_UNIT
}

/// Whether both components of a vector are within the accepted range.
pub open spec fn vec2_in_range(v: Vec2i) -> bool {
    in_unit_range(v.x as int) && in_unit_range(v.y as int)
}

/// The low edge of a rectangle on one axis (its left or bottom edge).
pub open spec fn edge_low(center: int, offset: int, half: int) -> int {
    center + offset - half
}

/// The high edge of a rectangle on one axis (its right or top edge).
pub open spec fn edge_high(center: int, offset: int, half: int) -> int {
    center + offset + half
}

/// Whether the interval `[a_low, a_high]` overlaps the interval `[b_low, b_high]`:
/// neither lies strictly beyond the other.
pub open spec fn spans_overlap(a_low: int, a_high: int, b_low: int, b_high: int) -> bool {
    !(a_low > b_high || a_high < b_low)
}

/// Computes the low edge of a rectangle on one axis.
pub fn eval_edge_low(center: i64, offset: i64, half: i64) -> (r: i64)
    requires
        in_unit_range(center as int),
        in_unit_range(offset as int),
        in_unit_range(half as int),
    ensures
        r == edge_low(center as int, offset as int, half as int),
{
    center + offset - half
}

/// Computes the high edge of a rectangle on one axis.
pub fn eval_edge_high(center: i64, offset: i64, half: i64) -> (r: i64)
    requires
        in_unit_range(center as int),
        in_unit_range(offset as int),
        in_unit_range(half as int),
    ensures
        r == edge_high(center as int, offset as int, half as int),
{
    center + offset + half
}

/// Decides interval overlap on one axis.
pub fn eval_spans_overlap(a_low: i64, a_high: i64, b_low: i64, b_high: i64) -> (r: bool)
    ensures
        r == spans_overlap(a_low as int, a_high as int, b_low as int, b_high as int),
{
    !(a_low > b_high || a_high < b_low)
}

/// Whether a value is within the range a rectangle edge can take: the sum
/// of three values in the accepted unit range.
pub open spec fn edge_in_range(v: int) -> bool {
    -3 * MAX_UNIT <= v <= 3 * MAX_UNIT
}

/// Whether a coordinate is within the range reachable in one resolver tick.
pub open spec fn travel_in_range(v: int) -> bool {
    -MAX_TRAVEL <= v <= MAX_TRAVEL
}

/// Whether a value is within the range an edge of a rectangle can take
/// when its center has moved by one velocity step.
pub open spec fn edge_travel_in_range(v: int) -> bool {
    -MAX_TRAVEL - 3 * MAX_UNIT <= v <= MAX_TRAVEL + 3 * MAX_UNIT
}

/// Whether `a` and `b` differ by at most `tolerance` in either direction.
pub open spec fn within_tolerance(a: int, b: int, tolerance: int) -> bool {
    -tolerance <= a - b <= tolerance
}

/// Decides whether `a` and `b` differ by at most `tolerance`.
pub fn eval_within_tolerance(a: i64, b: i64, tolerance: i64) -> (r: bool)
    requires
        edge_travel_in_range(a as int),
        edge_travel_in_range(b as int),
        0 <= tolerance,
    ensures
        r == within_tolerance(a as int, b as int, tolerance as int),
{
    let d: i64 = if a >= b {
        a - b
    } else {
        b - a
    };
    d <= tolerance
}

} // verus!
