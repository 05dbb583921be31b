use motek_auth::limiter::{IpLimiter, HOUR_MILLIS};

const MINUTE: u64 = 60_000;

#[test]
fn fourth_attempt_within_hour_refused() {
    let mut l = IpLimiter::new(3);
    let t0 = 1_700_000_000_000;
    let got: Vec<bool> = [t0, t0 + 10 * MINUTE, t0 + 30 * MINUTE, t0 + 59 * MINUTE]
        .iter()
        .map(|&t| l.check_and_update(7, t))
        .collect();
    assert_eq!(got, vec![true, true, true, false]);
}

#[test]
fn fourth_attempt_subsecond_refused() {
    let mut l = IpLimiter::new(3);
    let t0 = 1_700_000_000_000;
    let got: Vec<bool> = (0..4).map(|i| l.check_and_update(7, t0 + i)).collect();
    assert_eq!(got, vec![true, true, true, false]);
}

#[test]
fn fourth_attempt_after_61_minutes_admitted() {
    let mut l = IpLimiter::new(3);
    let t0 = 1_700_000_000_000;
    assert!(l.check_and_update(7, t0));
    assert!(l.check_and_update(7, t0 + MINUTE));
    assert!(l.check_and_update(7, t0 + 2 * MINUTE));
    assert!(l.check_and_update(7, t0 + 61 * MINUTE));
    // The attempts 61 and 60 minutes old no longer count; the one 59 minutes
    // old and the new one do.
    assert_eq!(l.map.get(&7), Some(&vec![t0 + 2 * MINUTE, t0 + 61 * MINUTE]));
}

#[test]
fn refused_attempt_is_not_recorded() {
    let mut l = IpLimiter::new(1);
    let t0 = 5 * HOUR_MILLIS;
    assert!(l.check_and_update(1, t0));
    assert!(!l.check_and_update(1, t0 + 1));
    assert_eq!(l.map.get(&1), Some(&vec![t0]));
    // Exactly one hour after the admitted attempt it no longer counts.
    assert!(l.check_and_update(1, t0 + HOUR_MILLIS));
}

#[test]
fn addresses_are_independent() {
    let mut l = IpLimiter::new(1);
    assert!(l.check_and_update(1, 1000));
    assert!(l.check_and_update(2, 1000));
    assert!(!l.check_and_update(1, 2000));
}

#[test]
fn zero_limit_refuses_everything() {
    let mut l = IpLimiter::new(0);
    assert!(!l.check_and_update(9, 0));
    assert_eq!(l.map.get(&9), Some(&Vec::new()));
}

#[test]
fn future_attempts_are_pruned() {
    let mut l = IpLimiter::new(1);
    l.map.insert(4, vec![10 * HOUR_MILLIS]);
    assert!(l.check_and_update(4, HOUR_MILLIS));
    assert_eq!(l.map.get(&4), Some(&vec![HOUR_MILLIS]));
}
