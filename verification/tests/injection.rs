use conference_planner::delay::{DelayInjector, DelayInjectorMiddleware};
use conference_planner::failure::{status_after, FailureInjector, FailureInjectorMiddleware, FAILURE_STATUS};

#[test]
fn failure_rate_defaults_to_zero() {
    let m = FailureInjector::default().new_transform(None).unwrap();
    assert_eq!(m.failure_rate, 0);
    for _ in 0..200 {
        assert!(!m.call());
    }
}

#[test]
fn failure_rate_from_setting() {
    assert_eq!(FailureInjector.new_transform(Some("25")).unwrap().failure_rate, 25);
    assert_eq!(FailureInjector.new_transform(Some("-3")).unwrap().failure_rate, -3);
    assert!(FailureInjector.new_transform(Some("25%")).is_none());
    assert!(FailureInjector.new_transform(Some("")).is_none());
}

#[test]
fn full_failure_rate_fails_every_call() {
    let m = FailureInjectorMiddleware { failure_rate: 100 };
    for _ in 0..200 {
        assert!(m.call());
    }
    let m = FailureInjectorMiddleware { failure_rate: 1000 };
    assert!(m.call());
}

#[test]
fn negative_failure_rate_never_fails() {
    let m = FailureInjectorMiddleware { failure_rate: -5 };
    for _ in 0..200 {
        assert!(!m.call());
    }
}

#[test]
fn failure_on_roll() {
    let m = FailureInjectorMiddleware { failure_rate: 30 };
    assert!(m.fails_on(0));
    assert!(m.fails_on(29));
    assert!(!m.fails_on(30));
    assert!(!m.fails_on(99));
    let failing = (0..100u64).filter(|r| m.fails_on(*r)).count();
    assert_eq!(failing, 30);
}

#[test]
fn failed_call_is_answered_unavailable() {
    assert_eq!(FAILURE_STATUS, 503);
    assert_eq!(status_after(true, 200), 503);
    assert_eq!(status_after(false, 200), 200);
    assert_eq!(status_after(false, 404), 404);
}

#[test]
fn delay_max_defaults_to_zero() {
    let m = DelayInjector::default().new_transform(None).unwrap();
    assert_eq!(m.random_delay_max, 0);
    for _ in 0..100 {
        assert_eq!(m.call(), 0);
    }
}

#[test]
fn delay_max_from_setting() {
    assert_eq!(DelayInjector.new_transform(Some("250")).unwrap().random_delay_max, 250);
    assert!(DelayInjector.new_transform(Some("-1")).is_none());
    assert!(DelayInjector.new_transform(Some("1.5")).is_none());
}

#[test]
fn delay_stays_below_max() {
    let m = DelayInjectorMiddleware { random_delay_max: 10 };
    for _ in 0..500 {
        assert!(m.call() < 10);
    }
}

#[test]
fn zero_max_means_no_delay() {
    let m = DelayInjectorMiddleware { random_delay_max: 0 };
    assert_eq!(m.call(), 0);
    let m = DelayInjectorMiddleware { random_delay_max: 1 };
    for _ in 0..100 {
        assert_eq!(m.call(), 0);
    }
}
