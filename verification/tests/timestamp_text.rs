use telemetry_bridge::timestamp::{seconds_since_boot, timestamp_display, MICROS_PER_SECOND};

#[test]
fn four_million_micros_render_as_four_seconds() {
    assert_eq!(timestamp_display(4_000_000), "4s");
}

#[test]
fn whole_seconds_round_toward_zero() {
    assert_eq!(seconds_since_boot(1_999_999), 1);
    assert_eq!(seconds_since_boot(-1_999_999), -1);
    assert_eq!(seconds_since_boot(999_999), 0);
    assert_eq!(seconds_since_boot(-999_999), 0);
    assert_eq!(seconds_since_boot(2_000_000), 2);
    assert_eq!(seconds_since_boot(-2_000_000), -2);
}

#[test]
fn one_second_is_a_million_micros() {
    assert_eq!(MICROS_PER_SECOND, 1_000_000);
    assert_eq!(seconds_since_boot(MICROS_PER_SECOND), 1);
    assert_eq!(seconds_since_boot(MICROS_PER_SECOND - 1), 0);
}

#[test]
fn zero_and_sub_second_timestamps_render_as_zero() {
    assert_eq!(timestamp_display(0), "0s");
    assert_eq!(timestamp_display(1), "0s");
    assert_eq!(timestamp_display(999_999), "0s");
    assert_eq!(timestamp_display(-1), "0s");
    assert_eq!(timestamp_display(-999_999), "0s");
}

#[test]
fn digits_come_most_significant_first() {
    assert_eq!(timestamp_display(9_000_000), "9s");
    assert_eq!(timestamp_display(10_000_000), "10s");
    assert_eq!(timestamp_display(12_345_678_999), "12345s");
    assert_eq!(timestamp_display(1_002_003_000_000), "1002003s");
    assert_eq!(timestamp_display(86_400_000_000), "86400s");
}

#[test]
fn negative_timestamps_carry_a_minus_sign() {
    assert_eq!(timestamp_display(-1_000_000), "-1s");
    assert_eq!(timestamp_display(-1_500_000), "-1s");
    assert_eq!(timestamp_display(-120_000_000), "-120s");
}

#[test]
fn extreme_timestamps_render() {
    assert_eq!(timestamp_display(i64::MAX), "9223372036854s");
    assert_eq!(timestamp_display(i64::MIN), "-9223372036854s");
}

#[test]
fn rendering_agrees_with_the_standard_formatter() {
    let mut micros: i64 = -5_000_000_123;
    while micros < 5_000_000_000 {
        assert_eq!(timestamp_display(micros), format!("{:?}s", micros / 1_000_000));
        micros += 7_919_311;
    }
    let mut power: i64 = 1;
    for _ in 0..18 {
        assert_eq!(timestamp_display(power), format!("{:?}s", power / 1_000_000));
        assert_eq!(timestamp_display(-power), format!("{:?}s", -power / 1_000_000));
        assert_eq!(timestamp_display(power - 1), format!("{:?}s", (power - 1) / 1_000_000));
        power *= 10;
    }
}
