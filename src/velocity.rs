use vstd::prelude::*;

verus! {

/// Default minimum time between two evaluated samples, in microseconds.
pub const RATE_LIMIT_US: i64 = 150000;

/// Default factor from position change per microsecond to adjustment step.
pub const VELOCITY_SCALING: u16 = 4000;

/// Microseconds in one second.
pub const MICROS_PER_SECOND: i64 = 1000000;

/// A point in time, as seconds and microseconds.
#[derive(Clone, Copy, Debug, PartialEq, Eq, Structural)]
pub struct Timestamp {
    pub seconds: i64,
    pub microseconds: i64,
}

/// One axis value with the time it was reported.
#[derive(Clone, Copy, Debug, PartialEq, Eq, Structural)]
pub struct TimedSample {
    pub timestamp: Timestamp,
    pub value: i32,
}

/// Signed microseconds from `earlier` to `later`.
pub open spec fn elapsed_spec(earlier: Timestamp, later: Timestamp) -> int {
    (later.seconds - earlier.seconds) * MICROS_PER_SECOND + (later.microseconds - earlier.microseconds)
}

/// `a / b` truncated toward zero, for `b > 0`.
pub open spec fn div_toward_zero(a: int, b: int) -> int {
    if a >= 0 {
        a / b
    } else {
        -((-a) / b)
    }
}

/// The unit nudge away from zero: +1 when the position fell, -1 when it rose.
pub open spec fn bias(delta: int) -> int {
    if delta < 0 {
        1
    } else if delta > 0 {
        -1
    } else {
        0
    }
}

/// The velocity for a position change `delta` over `elapsed` microseconds.
pub open spec fn velocity_spec(delta: int, scaling: int, elapsed: int) -> int {
    -div_toward_zero(delta * scaling, elapsed) + bias(delta)
}

/// Whether a sample `elapsed` microseconds after the baseline is dropped:
/// too soon after it, or not after it at all.
pub open spec fn suppressed(elapsed: int, rate_limit_us: int) -> bool {
    elapsed <= rate_limit_us || elapsed <= 0
}

/// What the estimator returns for a baseline and a new sample.
pub open spec fn estimate_spec(
    previous: TimedSample,
    current: TimedSample,
    scaling: int,
    rate_limit_us: int,
) -> Option<int> {
    let elapsed = elapsed_spec(previous.timestamp, current.timestamp);
    if suppressed(elapsed, rate_limit_us) {
        None
    } else {
        Some(velocity_spec(current.value - previous.value, scaling, elapsed))
    }
}

/// Signed microseconds from `earlier` to `later`, seconds carried over.
pub fn elapsed_us(earlier: &Timestamp, later: &Timestamp) -> (r: i128)
    ensures
        r == elapsed_spec(*earlier, *later),
{
    let ds: i128 = later.seconds as i128 - earlier.seconds as i128;
    let du: i128 = later.microseconds as i128 - earlier.microseconds as i128;
    assert(-0x1_0000_0000_0000_0000 * 1000000 <= ds * 1000000 <= 0x1_0000_0000_0000_0000 * 1000000)
        by (nonlinear_arith)
        requires -0x1_0000_0000_0000_0000 <= ds <= 0x1_0000_0000_0000_0000;
    ds * (MICROS_PER_SECOND as i128) + du
}

/// Turns the movement from `previous` to `current` into a signed adjustment,
/// or `None` when the sample is suppressed by the rate limit. A positive
/// result means "increase": it comes from a falling position.
pub fn estimate(
    previous: &TimedSample,
    current: &TimedSample,
    scaling: u16,
    rate_limit_us: i64,
) -> (r: Option<i64>)
    ensures
        r matches Some(v) ==> estimate_spec(*previous, *current, scaling as int, rate_limit_us as int)
            == Some(v as int),
        r is None <==> estimate_spec(*previous, *current, scaling as int, rate_limit_us as int) is None,
{
    let elapsed = elapsed_us(&previous.timestamp, &current.timestamp);
    if elapsed <= rate_limit_us as i128 || elapsed <= 0 {
        return None;
    }
    let delta: i64 = current.value as i64 - previous.value as i64;
    let s: i64 = scaling as i64;
    let magnitude: i64 = if delta >= 0 { delta } else { -delta };
    assert(0 <= magnitude * s <= 0x1_0000_0000 * 0x1_0000) by (nonlinear_arith)
        requires 0 <= magnitude <= 0x1_0000_0000, 0 <= s <= 0xffff;
    let scaled: i128 = (magnitude * s) as i128;
    let q: i128 = scaled / elapsed;
    assert(0 <= q <= scaled) by (nonlinear_arith)
        requires q == scaled / elapsed, scaled >= 0, elapsed >= 1;
    assert((delta >= 0 ==> magnitude * s == delta * s) && (delta < 0 ==> magnitude * s == -(delta
        * s))) by (nonlinear_arith)
        requires
            delta >= 0 ==> magnitude == delta,
            delta < 0 ==> magnitude == -delta,
    ;
    let truncated: i64 = if delta >= 0 { q as i64 } else { -(q as i64) };
    let v: i64 = if delta < 0 {
        -truncated + 1
    } else if delta > 0 {
        -truncated - 1
    } else {
        -truncated
    };
    Some(v)
}

} // verus!
