use audio_engine::fixed::{limit, plus, scale, ONE};

#[test]
fn scale_multiplies_in_millionths() {
    assert_eq!(scale(500_000, 500_000), 250_000);
    assert_eq!(scale(800_000, ONE), 800_000);
    assert_eq!(scale(1_000_000, 300_000), 300_000);
    assert_eq!(scale(440_000_000, 500_000), 220_000_000);
    assert_eq!(scale(0, 123_456), 0);
}

#[test]
fn scale_rounds_toward_zero() {
    assert_eq!(scale(3, 500_000), 1);
    assert_eq!(scale(-3, 500_000), -1);
    assert_eq!(scale(3, -500_000), -1);
    assert_eq!(scale(-3, -500_000), 1);
    assert_eq!(scale(1, 999_999), 0);
    assert_eq!(scale(-1, 999_999), 0);
}

#[test]
fn scale_saturates() {
    assert_eq!(scale(i64::MAX, 2_000_000), i64::MAX);
    assert_eq!(scale(i64::MIN, 2_000_000), i64::MIN);
    assert_eq!(scale(i64::MIN, -2_000_000), i64::MAX);
    assert_eq!(scale(i64::MAX, -2_000_000), i64::MIN);
    assert_eq!(scale(i64::MIN, ONE), i64::MIN);
    assert_eq!(scale(i64::MIN, i64::MIN), i64::MAX);
    assert_eq!(scale(i64::MAX, ONE), i64::MAX);
}

#[test]
fn plus_saturates_at_both_ends() {
    assert_eq!(plus(1, 2), 3);
    assert_eq!(plus(-5, 2), -3);
    assert_eq!(plus(i64::MAX, 1), i64::MAX);
    assert_eq!(plus(i64::MIN, -1), i64::MIN);
    assert_eq!(plus(i64::MAX, i64::MIN), -1);
}

#[test]
fn limit_keeps_values_inside_and_clamps_outside() {
    assert_eq!(limit(5, 0, 10), 5);
    assert_eq!(limit(-5, 0, 10), 0);
    assert_eq!(limit(15, 0, 10), 10);
    assert_eq!(limit(0, 0, 0), 0);
    assert_eq!(limit(i64::MIN, -ONE, ONE), -ONE);
    assert_eq!(limit(i64::MAX, -ONE, ONE), ONE);
}
