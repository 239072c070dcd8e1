use edge_gestures::commands::{percent_step, KeyState, PercentStep, ScrubState};
use edge_gestures::geometry::GeometryResolver;
use edge_gestures::session::{Action, Event, GestureConfig, TouchSession};
use edge_gestures::velocity::{elapsed_us, estimate, TimedSample, Timestamp};
use edge_gestures::zone::{classify, Axis, AxisRange, EdgeZone};

fn range(maximum: i32) -> AxisRange {
    AxisRange { minimum: 0, maximum }
}

fn sample(seconds: i64, microseconds: i64, value: i32) -> TimedSample {
    TimedSample { timestamp: Timestamp { seconds, microseconds }, value }
}

fn run(session: &mut TouchSession, events: &[Event], rg: AxisRange) -> Vec<Action> {
    let cfg = GestureConfig::standard();
    let mut actions = Vec::new();
    for e in events {
        if let Some(a) = session.step(e, Some(rg), &cfg) {
            actions.push(a);
        }
    }
    actions
}

#[test]
fn classify_is_deterministic() {
    let rg = range(1000);
    for v in [-5, 0, 49, 50, 500, 950, 951, 1000] {
        for axis in [Axis::Horizontal, Axis::Vertical] {
            assert_eq!(classify(axis, v, &rg, 500), classify(axis, v, &rg, 500));
        }
    }
}

#[test]
fn classify_bands() {
    let rg = range(1000);
    assert_eq!(classify(Axis::Horizontal, 990, &rg, 500), Some(EdgeZone::Right));
    assert_eq!(classify(Axis::Horizontal, 951, &rg, 500), Some(EdgeZone::Right));
    assert_eq!(classify(Axis::Horizontal, 950, &rg, 500), None);
    assert_eq!(classify(Axis::Horizontal, 500, &rg, 500), None);
    assert_eq!(classify(Axis::Horizontal, 50, &rg, 500), None);
    assert_eq!(classify(Axis::Horizontal, 49, &rg, 500), Some(EdgeZone::Left));
    assert_eq!(classify(Axis::Vertical, 10, &rg, 500), Some(EdgeZone::Top));
    assert_eq!(classify(Axis::Vertical, 50, &rg, 500), None);
    assert_eq!(classify(Axis::Vertical, 990, &rg, 500), None);
}

#[test]
fn classify_truncates_thresholds() {
    // 1234 * 5% = 61.7, truncated to 61; 1234 * 95% = 1172.3, truncated to 1172.
    let rg = range(1234);
    assert_eq!(classify(Axis::Horizontal, 60, &rg, 500), Some(EdgeZone::Left));
    assert_eq!(classify(Axis::Horizontal, 61, &rg, 500), None);
    assert_eq!(classify(Axis::Horizontal, 1172, &rg, 500), None);
    assert_eq!(classify(Axis::Horizontal, 1173, &rg, 500), Some(EdgeZone::Right));
}

#[test]
fn elapsed_carries_seconds() {
    let a = Timestamp { seconds: 10, microseconds: 900000 };
    let b = Timestamp { seconds: 11, microseconds: 100000 };
    assert_eq!(elapsed_us(&a, &b), 200000);
    assert_eq!(elapsed_us(&b, &a), -200000);
    assert_eq!(elapsed_us(&a, &a), 0);
}

#[test]
fn estimate_suppresses_within_rate_limit() {
    let p = sample(0, 0, 500);
    assert_eq!(estimate(&p, &sample(0, 150000, 400), 4000, 150000), None);
    assert_eq!(estimate(&p, &sample(0, 149999, 400), 4000, 150000), None);
    assert_eq!(estimate(&p, &sample(0, 150001, 400), 4000, 150000), Some(3));
}

#[test]
fn estimate_suppresses_backwards_time() {
    let p = sample(5, 0, 500);
    assert_eq!(estimate(&p, &sample(4, 0, 400), 4000, -2000000), None);
    assert_eq!(estimate(&p, &sample(5, 0, 400), 4000, -1), None);
}

#[test]
fn estimate_exact_values() {
    let p = sample(0, 0, 800);
    // fell by 100 over 200 ms: -(-100 * 4000 / 200000) + 1 = 3
    assert_eq!(estimate(&p, &sample(0, 200000, 700), 4000, 150000), Some(3));
    // rose by 100 over 200 ms: -(100 * 4000 / 200000) - 1 = -3
    assert_eq!(estimate(&p, &sample(0, 200000, 900), 4000, 150000), Some(-3));
    // rose by 10 over 1 s: truncates to 0, then biased to -1
    assert_eq!(estimate(&p, &sample(1, 0, 810), 4000, 150000), Some(-1));
    // fell by 10 over 1 s: truncates to 0, then biased to 1
    assert_eq!(estimate(&p, &sample(1, 0, 790), 4000, 150000), Some(1));
}

#[test]
fn estimate_sign_opposes_movement() {
    let p = sample(0, 0, 0);
    for v in [-100000, -1, 1, 100000] {
        let r = estimate(&p, &sample(0, 200000, v), 4000, 150000).unwrap();
        assert!(r != 0);
        assert_eq!(r > 0, v < 0);
    }
    assert_eq!(estimate(&p, &sample(0, 200000, 0), 4000, 150000), Some(0));
}

#[test]
fn estimate_extreme_values() {
    let p = sample(0, 0, i32::MIN);
    let r = estimate(&p, &sample(0, 150001, i32::MAX), u16::MAX, 150000).unwrap();
    assert_eq!(r, -((4294967295i64 * 65535) / 150001) - 1);
}

#[test]
fn tap_leaves_session_idle() {
    let mut s = TouchSession::new();
    let actions = run(&mut s, &[Event::Touch(true), Event::Touch(false)], range(1000));
    assert!(actions.is_empty());
    assert_eq!(s, TouchSession::new());
}

#[test]
fn right_edge_scroll_adjusts_brightness() {
    let mut s = TouchSession::new();
    let rg = range(1000);
    let events = [
        Event::Touch(true),
        Event::Axis(Axis::Horizontal, sample(1, 0, 990)),
        Event::Axis(Axis::Horizontal, sample(1, 50000, 800)),
        Event::Axis(Axis::Horizontal, sample(1, 250000, 700)),
    ];
    let actions = run(&mut s, &events, rg);
    assert_eq!(actions, vec![Action::AdjustBrightness(3)]);
    assert_eq!(s.scroll_target, Some(EdgeZone::Right));
    assert_eq!(s.previous_sample, Some(sample(1, 250000, 700)));
    let actions = run(&mut s, &[Event::Touch(false)], rg);
    assert!(actions.is_empty());
    assert_eq!(s.scroll_target, None);
    assert_eq!(s.previous_sample, None);
}

#[test]
fn left_edge_scroll_adjusts_volume() {
    let mut s = TouchSession::new();
    let events = [
        Event::Touch(true),
        Event::Axis(Axis::Horizontal, sample(0, 0, 10)),
        Event::Axis(Axis::Horizontal, sample(0, 100000, 20)),
        Event::Axis(Axis::Horizontal, sample(0, 300000, 120)),
    ];
    let actions = run(&mut s, &events, range(1000));
    assert_eq!(actions, vec![Action::AdjustVolume(-3)]);
}

#[test]
fn top_pull_shows_and_hides_panel() {
    let mut s = TouchSession::new();
    let rg = range(1000);
    let events = [
        Event::Touch(true),
        Event::Axis(Axis::Vertical, sample(0, 0, 10)),
    ];
    assert!(run(&mut s, &events, rg).is_empty());
    assert_eq!(s.pull_target, Some(EdgeZone::Top));
    assert_eq!(s.scroll_target, Some(EdgeZone::Top));
    let actions = run(&mut s, &[Event::Axis(Axis::Vertical, sample(0, 100000, 500))], rg);
    assert_eq!(actions, vec![Action::ShowPanel]);
    assert!(s.pulled);
    assert_eq!(s.pull_target, None);
    let actions = run(&mut s, &[Event::Axis(Axis::Vertical, sample(0, 200000, 10))], rg);
    assert!(actions.is_empty());
    let actions = run(&mut s, &[Event::Touch(false)], rg);
    assert_eq!(actions, vec![Action::HidePanel]);
    assert_eq!(s, TouchSession::new());
}

#[test]
fn rate_limit_boundary_in_session() {
    let rg = range(1000);
    let lead = [
        Event::Touch(true),
        Event::Axis(Axis::Horizontal, sample(0, 0, 990)),
        Event::Axis(Axis::Horizontal, sample(0, 10000, 800)),
    ];
    let mut s = TouchSession::new();
    run(&mut s, &lead, rg);
    let under = run(&mut s, &[Event::Axis(Axis::Horizontal, sample(0, 159999, 700))], rg);
    assert!(under.is_empty());
    assert_eq!(s.previous_sample, Some(sample(0, 10000, 800)));

    let mut s = TouchSession::new();
    run(&mut s, &lead, rg);
    let over = run(&mut s, &[Event::Axis(Axis::Horizontal, sample(0, 160001, 700))], rg);
    assert_eq!(over.len(), 1);
    assert!(matches!(over[0], Action::AdjustBrightness(v) if v > 0));
}

#[test]
fn first_sample_decides_once() {
    let mut s = TouchSession::new();
    let rg = range(1000);
    run(&mut s, &[Event::Touch(true), Event::Axis(Axis::Horizontal, sample(0, 0, 500))], rg);
    assert!(!s.armed);
    assert_eq!(s.scroll_target, None);
    // a later edge sample no longer starts a scroll
    let actions = run(&mut s, &[
        Event::Axis(Axis::Horizontal, sample(0, 10000, 990)),
        Event::Axis(Axis::Horizontal, sample(0, 500000, 900)),
    ], rg);
    assert!(actions.is_empty());
    assert_eq!(s.scroll_target, None);
}

#[test]
fn unresolved_geometry_drops_sample() {
    let cfg = GestureConfig::standard();
    let mut s = TouchSession::new();
    s.on_touch(true);
    let a = s.on_axis(Axis::Horizontal, &sample(0, 0, 990), None, &cfg);
    assert_eq!(a, None);
    assert!(s.armed);
    s.on_axis(Axis::Horizontal, &sample(0, 1000, 990), Some(range(1000)), &cfg);
    assert!(!s.armed);
    assert_eq!(s.scroll_target, Some(EdgeZone::Right));
}

#[test]
fn vertical_samples_do_not_drive_side_scroll() {
    let mut s = TouchSession::new();
    let actions = run(&mut s, &[
        Event::Touch(true),
        Event::Axis(Axis::Horizontal, sample(0, 0, 10)),
        Event::Axis(Axis::Vertical, sample(0, 100000, 10)),
        Event::Axis(Axis::Vertical, sample(0, 900000, 600)),
    ], range(1000));
    assert!(actions.is_empty());
    assert_eq!(s.previous_sample, None);
}

#[test]
fn resolver_caches_first_range() {
    let mut g = GeometryResolver::new();
    assert_eq!(g.range(Axis::Horizontal), None);
    assert_eq!(g.resolve(Axis::Horizontal, None), None);
    assert_eq!(g.resolve(Axis::Horizontal, Some(range(1000))), Some(range(1000)));
    assert_eq!(g.resolve(Axis::Horizontal, Some(range(7))), Some(range(1000)));
    assert_eq!(g.range(Axis::Horizontal), Some(range(1000)));
    assert_eq!(g.range(Axis::Vertical), None);
}

#[test]
fn scrub_keys() {
    assert_eq!(KeyState::Up.code(), 0);
    assert_eq!(KeyState::Down.code(), 1);
    assert_eq!(ScrubState::Left(KeyState::Down).key_code(), 105);
    assert_eq!(ScrubState::Right(KeyState::Up).key_code(), 106);
    assert_eq!(ScrubState::Right(KeyState::Up).key_state(), KeyState::Up);
}

#[test]
fn percent_steps() {
    assert_eq!(percent_step(-7), PercentStep { amount: 7, raise: false });
    assert_eq!(percent_step(0), PercentStep { amount: 0, raise: true });
    assert_eq!(percent_step(12), PercentStep { amount: 12, raise: true });
    assert_eq!(percent_step(i64::MIN).amount, 9223372036854775808);
    assert_eq!(percent_step(-3).suffix(), "%-");
    assert_eq!(percent_step(3).suffix(), "%+");
}
