use vstd::prelude::*;
use crate::velocity::{estimate, estimate_spec, TimedSample, RATE_LIMIT_US, VELOCITY_SCALING};
use crate::zone::{
    classify, low_border, low_threshold, zone_of, Axis, AxisRange, EdgeZone, BASIS_POINTS,
    EDGE_THICKNESS_BASIS_POINTS,
};

verus! {

/// A command for the action dispatcher.
#[derive(Clone, Copy, Debug, PartialEq, Eq, Structural)]
pub enum Action {
    AdjustVolume(i64),
    AdjustBrightness(i64),
    ShowPanel,
    HidePanel,
}

/// One event from the input device.
#[derive(Clone, Copy, Debug, PartialEq, Eq, Structural)]
pub enum Event {
    /// A position sample on one axis.
    Axis(Axis, TimedSample),
    /// The finger touched down (`true`) or lifted (`false`).
    Touch(bool),
}

/// The tuning constants of the recognizer.
#[derive(Clone, Copy, Debug, PartialEq, Eq, Structural)]
pub struct GestureConfig {
    /// Samples no more than this many microseconds after the baseline are dropped.
    pub rate_limit_us: i64,
    /// Factor from position change per microsecond to adjustment step.
    pub scaling: u16,
    /// Width of each edge band, in basis points of the axis maximum.
    pub thickness_bp: u32,
}

impl GestureConfig {
    pub open spec fn wf(&self) -> bool {
        self.thickness_bp <= BASIS_POINTS
    }

    /// The default tuning: 150 ms, a factor of 4000, bands 5% wide.
    pub fn standard() -> (r: GestureConfig)
        ensures
            r.wf(),
            r.rate_limit_us == RATE_LIMIT_US,
            r.scaling == VELOCITY_SCALING,
            r.thickness_bp == EDGE_THICKNESS_BASIS_POINTS,
    {
        GestureConfig {
            rate_limit_us: RATE_LIMIT_US,
            scaling: VELOCITY_SCALING,
            thickness_bp: EDGE_THICKNESS_BASIS_POINTS,
        }
    }
}

/// The state of one touch, from touch-down to touch-up.
#[derive(Clone, Copy, Debug, PartialEq, Eq, Structural)]
pub struct TouchSession {
    /// Set at touch-down; cleared by the first classified axis sample.
    pub armed: bool,
    /// The edge being scrolled along, if any.
    pub scroll_target: Option<EdgeZone>,
    /// The edge a pull gesture started from, until it resolves.
    pub pull_target: Option<EdgeZone>,
    /// The panel was shown and must be hidden at touch-up.
    pub pulled: bool,
    /// The baseline for the next velocity estimate.
    pub previous_sample: Option<TimedSample>,
}

/// Whether a zone is one of the two side edges that drive a continuous scroll.
pub open spec fn is_side(z: Option<EdgeZone>) -> bool {
    z == Some(EdgeZone::Left) || z == Some(EdgeZone::Right)
}

/// The session with nothing going on.
pub open spec fn idle() -> TouchSession {
    TouchSession {
        armed: false,
        scroll_target: None,
        pull_target: None,
        pulled: false,
        previous_sample: None,
    }
}

/// The session after a touch-down or touch-up, and what it dispatches.
pub open spec fn touch_step(s: TouchSession, pressed: bool) -> (TouchSession, Option<Action>) {
    if pressed {
        (TouchSession { armed: true, pulled: s.pulled, ..idle() }, None)
    } else {
        (idle(), if s.pulled { Some(Action::HidePanel) } else { None })
    }
}

/// The one decision an armed session makes, from the zone of its first sample.
pub open spec fn decide(s: TouchSession, axis: Axis, zone: Option<EdgeZone>) -> TouchSession {
    match axis {
        Axis::Horizontal => TouchSession {
            armed: false,
            scroll_target: zone,
            previous_sample: None,
            ..s
        },
        Axis::Vertical => if zone == Some(EdgeZone::Top) {
            TouchSession {
                armed: false,
                scroll_target: Some(EdgeZone::Top),
                pull_target: Some(EdgeZone::Top),
                previous_sample: None,
                ..s
            }
        } else {
            TouchSession { armed: false, ..s }
        },
    }
}

/// The adjustment a side-edge scroll dispatches: volume on the left,
/// brightness on the right.
pub open spec fn scroll_action(target: EdgeZone, velocity: i64) -> Action {
    if target == EdgeZone::Left {
        Action::AdjustVolume(velocity)
    } else {
        Action::AdjustBrightness(velocity)
    }
}

/// A horizontal sample after the decision: it drives a side-edge scroll.
pub open spec fn follow_horizontal(s: TouchSession, sample: TimedSample, cfg: GestureConfig) -> (
    TouchSession,
    Option<Action>,
) {
    if is_side(s.scroll_target) {
        match s.previous_sample {
            None => (TouchSession { previous_sample: Some(sample), ..s }, None),
            Some(prev) => match estimate_spec(
                prev,
                sample,
                cfg.scaling as int,
                cfg.rate_limit_us as int,
            ) {
                None => (s, None),
                Some(v) => (
                    TouchSession { previous_sample: Some(sample), ..s },
                    Some(scroll_action(s.scroll_target.unwrap(), v as i64)),
                ),
            },
        }
    } else {
        (s, None)
    }
}

/// A vertical sample after the decision: it may complete a pull from the top.
pub open spec fn follow_vertical(
    s: TouchSession,
    sample: TimedSample,
    range: AxisRange,
    cfg: GestureConfig,
) -> (TouchSession, Option<Action>) {
    if s.pull_target == Some(EdgeZone::Top) && !s.pulled && sample.value > low_threshold(
        range.maximum as int,
        cfg.thickness_bp as int,
    ) {
        (TouchSession { pulled: true, pull_target: None, ..s }, Some(Action::ShowPanel))
    } else {
        (s, None)
    }
}

/// The session after an axis sample, and what it dispatches. Without a
/// known range the sample is dropped.
pub open spec fn axis_step(
    s: TouchSession,
    axis: Axis,
    sample: TimedSample,
    range: Option<AxisRange>,
    cfg: GestureConfig,
) -> (TouchSession, Option<Action>) {
    match range {
        None => (s, None),
        Some(rg) => if s.armed {
            (
                decide(
                    s,
                    axis,
                    zone_of(axis, sample.value as int, rg.maximum as int, cfg.thickness_bp as int),
                ),
                None,
            )
        } else {
            match axis {
                Axis::Horizontal => follow_horizontal(s, sample, cfg),
                Axis::Vertical => follow_vertical(s, sample, rg, cfg),
            }
        },
    }
}

/// The session after any event. `range` is the range of the event's axis.
pub open spec fn event_step(
    s: TouchSession,
    event: Event,
    range: Option<AxisRange>,
    cfg: GestureConfig,
) -> (TouchSession, Option<Action>) {
    match event {
        Event::Axis(axis, sample) => axis_step(s, axis, sample, range, cfg),
        Event::Touch(pressed) => touch_step(s, pressed),
    }
}

impl TouchSession {
    /// The baseline belongs to a side-edge scroll; a pull only starts from the
    /// top; an armed session has decided nothing yet.
    pub open spec fn wf(&self) -> bool {
        &&& self.previous_sample is Some ==> is_side(self.scroll_target)
        &&& self.scroll_target != Some(EdgeZone::Bottom)
        &&& self.pull_target is Some ==> self.pull_target == Some(EdgeZone::Top)
        &&& self.armed ==> self.scroll_target is None && self.pull_target is None
            && self.previous_sample is None
    }

    /// A session with no touch in progress.
    pub fn new() -> (r: TouchSession)
        ensures
            r == idle(),
            r.wf(),
    {
        TouchSession {
            armed: false,
            scroll_target: None,
            pull_target: None,
            pulled: false,
            previous_sample: None,
        }
    }

    /// Touch-down arms the session afresh (an owed hide stays owed); touch-up
    /// clears it, hiding the panel if a pull showed it.
    pub fn on_touch(&mut self, pressed: bool) -> (r: Option<Action>)
        requires
            old(self).wf(),
        ensures
            final(self).wf(),
            (*final(self), r) == touch_step(*old(self), pressed),
    {
        let owed = self.pulled;
        self.scroll_target = None;
        self.pull_target = None;
        self.previous_sample = None;
        if pressed {
            self.armed = true;
            None
        } else {
            self.armed = false;
            self.pulled = false;
            if owed {
                Some(Action::HidePanel)
            } else {
                None
            }
        }
    }

    /// Feeds a horizontal sample to an active side-edge scroll.
    fn follow_horizontal(&mut self, sample: &TimedSample, cfg: &GestureConfig) -> (r: Option<
        Action,
    >)
        requires
            old(self).wf(),
        ensures
            final(self).wf(),
            (*final(self), r) == follow_horizontal(*old(self), *sample, *cfg),
    {
        let target = match self.scroll_target {
            Some(EdgeZone::Left) => EdgeZone::Left,
            Some(EdgeZone::Right) => EdgeZone::Right,
            _ => {
                return None;
            },
        };
        match self.previous_sample {
            None => {
                self.previous_sample = Some(*sample);
                None
            },
            Some(prev) => match estimate(&prev, sample, cfg.scaling, cfg.rate_limit_us) {
                None => None,
                Some(v) => {
                    self.previous_sample = Some(*sample);
                    match target {
                        EdgeZone::Left => Some(Action::AdjustVolume(v)),
                        _ => Some(Action::AdjustBrightness(v)),
                    }
                },
            },
        }
    }

    /// Feeds a vertical sample to a pull from the top edge.
    fn follow_vertical(&mut self, sample: &TimedSample, range: &AxisRange, cfg: &GestureConfig) -> (r:
        Option<Action>)
        requires
            old(self).wf(),
            cfg.wf(),
        ensures
            final(self).wf(),
            (*final(self), r) == follow_vertical(*old(self), *sample, *range, *cfg),
    {
        if self.pull_target == Some(EdgeZone::Top) && !self.pulled && (sample.value as i64)
            > low_border(range, cfg.thickness_bp) {
            self.pulled = true;
            self.pull_target = None;
            Some(Action::ShowPanel)
        } else {
            None
        }
    }

    /// Handles one axis sample. `range` is the learned range of `axis`; while
    /// it is unknown the sample is dropped and the session left as it is.
    pub fn on_axis(
        &mut self,
        axis: Axis,
        sample: &TimedSample,
        range: Option<AxisRange>,
        cfg: &GestureConfig,
    ) -> (r: Option<Action>)
        requires
            old(self).wf(),
            cfg.wf(),
        ensures
            final(self).wf(),
            (*final(self), r) == axis_step(*old(self), axis, *sample, range, *cfg),
    {
        let rg = match range {
            None => {
                return None;
            },
            Some(rg) => rg,
        };
        if self.armed {
            let zone = classify(axis, sample.value, &rg, cfg.thickness_bp);
            self.armed = false;
            match axis {
                Axis::Horizontal => {
                    self.scroll_target = zone;
                    self.previous_sample = None;
                },
                Axis::Vertical => {
                    if zone == Some(EdgeZone::Top) {
                        self.scroll_target = Some(EdgeZone::Top);
                        self.pull_target = Some(EdgeZone::Top);
                        self.previous_sample = None;
                    }
                },
            }
            None
        } else {
            match axis {
                Axis::Horizontal => self.follow_horizontal(sample, cfg),
                Axis::Vertical => self.follow_vertical(sample, &rg, cfg),
            }
        }
    }

    /// Handles one event from the device. `range` is the learned range of
    /// the event's axis (ignored for touch events).
    pub fn step(&mut self, event: &Event, range: Option<AxisRange>, cfg: &GestureConfig) -> (r:
        Option<Action>)
        requires
            old(self).wf(),
            cfg.wf(),
        ensures
            final(self).wf(),
            (*final(self), r) == event_step(*old(self), *event, range, *cfg),
    {
        match event {
            Event::Axis(axis, sample) => self.on_axis(*axis, sample, range, cfg),
            Event::Touch(pressed) => self.on_touch(*pressed),
        }
    }
}

} // verus!
