use vstd::prelude::*;

verus! {

/// Number of basis points in a whole (a thickness of 10000 is the full width).
pub const BASIS_POINTS: u32 = 10000;

/// Default width of each edge band: 5% of the axis maximum.
pub const EDGE_THICKNESS_BASIS_POINTS: u32 = 500;

/// The two positional axes the recognizer tracks.
#[derive(Clone, Copy, Debug, PartialEq, Eq, Structural)]
pub enum Axis {
    Horizontal,
    Vertical,
}

/// A named band near one border of the sensing surface.
#[derive(Clone, Copy, Debug, PartialEq, Eq, Structural)]
pub enum EdgeZone {
    Left,
    Right,
    Top,
    Bottom,
}

/// The raw value range a device reports for one axis.
#[derive(Clone, Copy, Debug, PartialEq, Eq, Structural)]
pub struct AxisRange {
    pub minimum: i32,
    pub maximum: i32,
}

/// `m * bp / 10000`, truncated toward zero.
pub open spec fn scaled_toward_zero(m: int, bp: int) -> int {
    if m >= 0 {
        (m * bp) / (BASIS_POINTS as int)
    } else {
        -(((-m) * bp) / (BASIS_POINTS as int))
    }
}

/// The inner border of the low band (left or top): `maximum * thickness`.
pub open spec fn low_threshold(maximum: int, thickness_bp: int) -> int {
    scaled_toward_zero(maximum, thickness_bp)
}

/// The inner border of the high band (right): `maximum * (1 - thickness)`.
pub open spec fn high_threshold(maximum: int, thickness_bp: int) -> int {
    scaled_toward_zero(maximum, BASIS_POINTS - thickness_bp)
}

/// The zone that `value` falls in on `axis`, for a band `thickness_bp` wide.
pub open spec fn zone_of(axis: Axis, value: int, maximum: int, thickness_bp: int) -> Option<EdgeZone> {
    match axis {
        Axis::Horizontal => {
            if value > high_threshold(maximum, thickness_bp) {
                Some(EdgeZone::Right)
            } else if value < low_threshold(maximum, thickness_bp) {
                Some(EdgeZone::Left)
            } else {
                None
            }
        },
        Axis::Vertical => {
            if value < low_threshold(maximum, thickness_bp) {
                Some(EdgeZone::Top)
            } else {
                None
            }
        },
    }
}

/// `m * bp / 10000`, truncated toward zero, computed without overflow.
fn scale_toward_zero(m: i32, bp: u32) -> (r: i64)
    requires
        bp <= BASIS_POINTS,
    ensures
        r == scaled_toward_zero(m as int, bp as int),
{
    let m64: i64 = m as i64;
    let b64: i64 = bp as i64;
    if m64 >= 0 {
        assert(0 <= m64 * b64 <= 0x7fff_ffff * 10000) by (nonlinear_arith)
            requires 0 <= m64 <= 0x7fff_ffff, 0 <= b64 <= 10000;
        (m64 * b64) / (BASIS_POINTS as i64)
    } else {
        let n: i64 = -m64;
        assert(0 <= n * b64 <= 0x8000_0000 * 10000) by (nonlinear_arith)
            requires 0 <= n <= 0x8000_0000, 0 <= b64 <= 10000;
        -((n * b64) / (BASIS_POINTS as i64))
    }
}

/// The border below which a value lies in the low band.
pub fn low_border(range: &AxisRange, thickness_bp: u32) -> (r: i64)
    requires
        thickness_bp <= BASIS_POINTS,
    ensures
        r == low_threshold(range.maximum as int, thickness_bp as int),
{
    scale_toward_zero(range.maximum, thickness_bp)
}

/// The border above which a value lies in the high band.
pub fn high_border(range: &AxisRange, thickness_bp: u32) -> (r: i64)
    requires
        thickness_bp <= BASIS_POINTS,
    ensures
        r == high_threshold(range.maximum as int, thickness_bp as int),
{
    scale_toward_zero(range.maximum, BASIS_POINTS - thickness_bp)
}

/// Classifies a raw axis value into an edge zone. Only the maximum of the
/// range is used; the minimum is taken to be 0. The result depends on the
/// arguments alone.
pub fn classify(axis: Axis, value: i32, range: &AxisRange, thickness_bp: u32) -> (r: Option<EdgeZone>)
    requires
        thickness_bp <= BASIS_POINTS,
    ensures
        r == zone_of(axis, value as int, range.maximum as int, thickness_bp as int),
{
    let v: i64 = value as i64;
    match axis {
        Axis::Horizontal => {
            if v > high_border(range, thickness_bp) {
                Some(EdgeZone::Right)
            } else if v < low_border(range, thickness_bp) {
                Some(EdgeZone::Left)
            } else {
                None
            }
        },
        Axis::Vertical => {
            if v < low_border(range, thickness_bp) {
                Some(EdgeZone::Top)
            } else {
                None
            }
        },
    }
}

} // verus!
