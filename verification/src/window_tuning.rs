//! Timing and counts of window detection and calibration.

use vstd::prelude::*;

verus! {

/// Burst capture timing after a TMAG interrupt.
pub const BURST_SAMPLES: usize = 12;

pub const BURST_INTERVAL_MS: u64 = 50;

pub const REARM_DELAY_MS: u64 = 200;

/// Closed-position calibration capture timing.
pub const CALIBRATION_SAMPLES: usize = 8;

pub const CALIBRATION_INTERVAL_MS: u64 = 25;

pub const CALIBRATION_MAX_ATTEMPTS: usize = 6;

/// Minimum number of samples above the noise floor to classify as OPEN.
pub const MIN_SAMPLES_FOR_OPEN: usize = 5;

} // verus!
