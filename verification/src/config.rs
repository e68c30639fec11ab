//! The configuration surface: what is fixed when the program is built.

use crate::input::Key;
use vstd::prelude::*;

verus! {

/// Hotkey that turns the clicker on and off.
pub const RUNNING_TOGGLE_KEY: Key = Key::F8;

/// Mean time between a release and the next press, in milliseconds.
pub const CLICK_INTERVAL_MEAN_MS: u32 = 1200;

/// Mean time between a press and its release, in milliseconds.
pub const HOLD_DURATION_MEAN_MS: u32 = 85;

/// Each standard deviation is its mean divided by this.
pub const MEAN_TO_SD_DIVISOR: u32 = 6;

/// Moving the mouse farther than this from where it was when the clicker
/// was armed disarms it, in pixels.
pub const MOVE_STOP_DISTANCE_PX: u32 = 16;

/// Nanoseconds in a millisecond.
pub const NANOS_PER_MILLI: u64 = 1_000_000;

/// The values that the listener and the sampler are run with.
#[derive(Clone, Copy, Debug, PartialEq, Eq, Structural)]
pub struct Settings {
    pub toggle_key: Key,
    pub click_interval_mean_ms: u32,
    pub hold_duration_mean_ms: u32,
    pub mean_to_sd_divisor: u32,
    pub move_stop_distance_px: u32,
}

impl Settings {
    /// The settings made of this module's constants.
    pub open spec fn standard() -> Settings {
        Settings {
            toggle_key: RUNNING_TOGGLE_KEY,
            click_interval_mean_ms: CLICK_INTERVAL_MEAN_MS,
            hold_duration_mean_ms: HOLD_DURATION_MEAN_MS,
            mean_to_sd_divisor: MEAN_TO_SD_DIVISOR,
            move_stop_distance_px: MOVE_STOP_DISTANCE_PX,
        }
    }

    /// The mean click interval in nanoseconds.
    pub open spec fn click_interval_mean(self) -> int {
        self.click_interval_mean_ms * NANOS_PER_MILLI
    }

    /// The mean hold duration in nanoseconds.
    pub open spec fn hold_duration_mean(self) -> int {
        self.hold_duration_mean_ms * NANOS_PER_MILLI
    }

    /// Computes [`Settings::click_interval_mean`].
    pub fn click_interval_mean_ns(&self) -> (ns: u64)
        ensures
            ns == self.click_interval_mean(),
    {
        self.click_interval_mean_ms as u64 * NANOS_PER_MILLI
    }

    /// Computes [`Settings::hold_duration_mean`].
    pub fn hold_duration_mean_ns(&self) -> (ns: u64)
        ensures
            ns == self.hold_duration_mean(),
    {
        self.hold_duration_mean_ms as u64 * NANOS_PER_MILLI
    }
}

impl Default for Settings {
    fn default() -> (settings: Settings)
        ensures
            settings == Settings::standard(),
    {
        Settings {
            toggle_key: RUNNING_TOGGLE_KEY,
            click_interval_mean_ms: CLICK_INTERVAL_MEAN_MS,
            hold_duration_mean_ms: HOLD_DURATION_MEAN_MS,
            mean_to_sd_divisor: MEAN_TO_SD_DIVISOR,
            move_stop_distance_px: MOVE_STOP_DISTANCE_PX,
        }
    }
}

} // verus!
