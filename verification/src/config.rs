//! What is fixed at startup: how often the sensor is polled and the
//! display refreshed, and where the sensor is wired.

use vstd::prelude::*;

verus! {

/// The cadence used when none is given: two seconds.
pub const DEFAULT_CADENCE_MS: u32 = 2000;

/// The data line used when none is given.
pub const DEFAULT_SENSOR_PIN: u8 = 13;

/// The settings of a bridge.
#[derive(Clone, Copy, Debug, PartialEq, Eq, Structural)]
pub struct Config {
    /// Time between two polls, and between two refreshes, in milliseconds.
    pub cadence_ms: u32,
    /// Number of the pin that the sensor's data line is wired to.
    pub sensor_pin: u8,
}

/// The settings used when none are given.
pub open spec fn default_config() -> Config {
    Config { cadence_ms: DEFAULT_CADENCE_MS, sensor_pin: DEFAULT_SENSOR_PIN }
}

/// The number of whole scheduler ticks of `tick_ms` milliseconds that fit
/// into `cadence_ms` milliseconds; there is none for a tick of no length.
pub open spec fn whole_ticks(cadence_ms: u32, tick_ms: u32) -> Option<u32> {
    if tick_ms == 0 {
        None
    } else {
        Some((cadence_ms / tick_ms) as u32)
    }
}

impl Default for Config {
    fn default() -> (config: Config)
        ensures
            config == default_config(),
    {
        Config { cadence_ms: DEFAULT_CADENCE_MS, sensor_pin: DEFAULT_SENSOR_PIN }
    }
}

impl Config {
    /// The cadence as a delay in scheduler ticks of `tick_ms` milliseconds
    /// each, rounded down.
    pub fn cadence_ticks(&self, tick_ms: u32) -> (ticks: Option<u32>)
        ensures
            ticks == whole_ticks(self.cadence_ms, tick_ms),
    {
        if tick_ms == 0 {
            None
        } else {
            Some(self.cadence_ms / tick_ms)
        }
    }
}

} // verus!
