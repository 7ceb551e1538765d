use telemetry_bridge::config::{Config, DEFAULT_CADENCE_MS, DEFAULT_SENSOR_PIN};

#[test]
fn default_config_is_two_seconds_on_pin_thirteen() {
    let config = Config::default();
    assert_eq!(config.cadence_ms, 2000);
    assert_eq!(config.sensor_pin, 13);
    assert_eq!(DEFAULT_CADENCE_MS, 2000);
    assert_eq!(DEFAULT_SENSOR_PIN, 13);
}

#[test]
fn cadence_in_ticks_is_rounded_down() {
    let config = Config::default();
    assert_eq!(config.cadence_ticks(10), Some(200));
    assert_eq!(config.cadence_ticks(1), Some(2000));
    assert_eq!(config.cadence_ticks(3), Some(666));
    assert_eq!(config.cadence_ticks(2001), Some(0));
}

#[test]
fn a_tick_of_no_length_gives_no_delay() {
    let config = Config { cadence_ms: 500, sensor_pin: 4 };
    assert_eq!(config.cadence_ticks(0), None);
    assert_eq!(config.cadence_ticks(250), Some(2));
}
