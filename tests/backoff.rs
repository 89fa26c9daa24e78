use tunnel::backoff::Backoff;
use tunnel::config::{BACKOFF_MAX_SECS, BACKOFF_MIN_SECS};

#[test]
fn backoff_saturation_sequence() {
    let mut backoff = Backoff::new(BACKOFF_MIN_SECS..=BACKOFF_MAX_SECS);
    let got: Vec<u8> = (0..10).map(|_| backoff.next()).collect();
    assert_eq!(got, vec![1, 2, 4, 8, 16, 32, 64, 64, 64, 64]);
}

#[test]
fn backoff_caps_at_upper_bound() {
    let mut backoff = Backoff::new(3..=10);
    assert_eq!(backoff.next(), 3);
    assert_eq!(backoff.next(), 6);
    assert_eq!(backoff.next(), 10);
    assert_eq!(backoff.next(), 10);
}

#[test]
fn backoff_reset_restores_head() {
    let mut backoff = Backoff::new(1..=64);
    backoff.next();
    backoff.next();
    backoff.next();
    backoff.reset();
    assert_eq!(backoff.next(), 1);
    assert_eq!(backoff.next(), 2);
}

#[test]
fn backoff_large_bound_does_not_wrap() {
    let mut backoff = Backoff::new(100..=255);
    assert_eq!(backoff.next(), 100);
    assert_eq!(backoff.next(), 200);
    assert_eq!(backoff.next(), 255);
    assert_eq!(backoff.next(), 255);
}

#[test]
fn backoff_equal_bounds() {
    let mut backoff = Backoff::new(5..=5);
    assert_eq!(backoff.next(), 5);
    assert_eq!(backoff.next(), 5);
}
