use vstd::prelude::*;
use crate::session::{axis_step, idle, touch_step, Action, GestureConfig, TouchSession};
use crate::velocity::{div_toward_zero, elapsed_spec, estimate_spec, TimedSample};
use crate::zone::{Axis, AxisRange};

verus! {

/// A sample that comes no later than the rate limit after the baseline is
/// suppressed: the estimator returns nothing, the session dispatches nothing,
/// and the stored baseline stays as it was.
pub proof fn suppressed_sample_keeps_baseline(
    s: TouchSession,
    prev: TimedSample,
    axis: Axis,
    sample: TimedSample,
    range: Option<AxisRange>,
    cfg: GestureConfig,
)
    requires
        s.wf(),
        s.previous_sample == Some(prev),
        elapsed_spec(prev.timestamp, sample.timestamp) <= cfg.rate_limit_us,
    ensures
        estimate_spec(prev, sample, cfg.scaling as int, cfg.rate_limit_us as int) is None,
        axis_step(s, axis, sample, range, cfg).0.previous_sample == Some(prev),
        axis == Axis::Horizontal ==> axis_step(s, axis, sample, range, cfg) == (s, None::<Action>),
{
}

/// A truncated quotient of a non-negative numerator by a positive divisor is
/// non-negative.
proof fn lemma_quotient_nonnegative(a: int, b: int)
    requires
        a >= 0,
        b > 0,
    ensures
        div_toward_zero(a, b) >= 0,
        div_toward_zero(-a, b) <= 0,
{
    assert(a / b >= 0) by (nonlinear_arith)
        requires a >= 0, b > 0;
}

/// Every velocity that is not suppressed points against the movement: it is
/// negative when the position rose, positive when it fell, and zero only when
/// the position did not change.
pub proof fn velocity_opposes_movement(
    previous: TimedSample,
    current: TimedSample,
    scaling: u16,
    rate_limit_us: i64,
)
    requires
        estimate_spec(previous, current, scaling as int, rate_limit_us as int) is Some,
    ensures
        ({
            let v = estimate_spec(previous, current, scaling as int, rate_limit_us as int).unwrap();
            let delta = current.value - previous.value;
            &&& delta > 0 ==> v < 0
            &&& delta < 0 ==> v > 0
            &&& delta == 0 ==> v == 0
        }),
{
    let delta = current.value - previous.value;
    let e = elapsed_spec(previous.timestamp, current.timestamp);
    let s = scaling as int;
    if delta >= 0 {
        assert(delta * s >= 0) by (nonlinear_arith)
            requires delta >= 0, s >= 0;
        lemma_quotient_nonnegative(delta * s, e);
    } else {
        assert((-delta) * s >= 0) by (nonlinear_arith)
            requires delta < 0, s >= 0;
        assert(delta * s == -((-delta) * s)) by (nonlinear_arith);
        lemma_quotient_nonnegative((-delta) * s, e);
    }
    if delta == 0 {
        assert(delta * s == 0) by (nonlinear_arith)
            requires delta == 0;
        assert(0int / e == 0) by (nonlinear_arith)
            requires e > 0;
    }
}

/// A touch-down followed at once by a touch-up, with no sample between them,
/// leaves the session idle and dispatches nothing, unless a hide was owed.
pub proof fn tap_leaves_session_idle(s: TouchSession)
    requires
        !s.pulled,
    ensures
        touch_step(s, true).1 is None,
        touch_step(touch_step(s, true).0, false) == (idle(), None::<Action>),
{
}

/// An armed session evaluates at most one axis sample: the first sample
/// whose axis range is known disarms it, whatever zone it falls in, and
/// dispatches nothing.
pub proof fn first_sample_disarms(
    s: TouchSession,
    axis: Axis,
    sample: TimedSample,
    range: AxisRange,
    cfg: GestureConfig,
)
    requires
        s.wf(),
        s.armed,
    ensures
        !axis_step(s, axis, sample, Some(range), cfg).0.armed,
        axis_step(s, axis, sample, Some(range), cfg).1 is None,
{
}

} // verus!
