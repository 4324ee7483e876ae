//! What setup decisions show on the LED and ask of the window monitor.

use crate::setup::{LedHint, SetupDecision};
use crate::tasks::window::CalibrationPhase;
use vstd::prelude::*;

verus! {

/// The time between two ticks of setup.
pub const SETUP_TICK_PERIOD_S: u64 = 1;

/// How the blue LED is to be driven until there is another hint.
#[derive(Clone, Copy, Debug, PartialEq, Eq, Structural)]
pub enum BluePattern {
    /// Not at all.
    Dark,
    /// Blink `count` times, pause, and start over.
    Blink { on_ms: u32, off_ms: u32, count: u32, pause_ms: u64 },
}

/// The pattern for a hint: only the two that speak of calibration have one.
pub fn blue_pattern(hint: LedHint) -> (pattern: BluePattern)
    ensures
        pattern == match hint {
            LedHint::CalibrationConfirm => BluePattern::Blink {
                on_ms: 80,
                off_ms: 220,
                count: 1,
                pause_ms: 0,
            },
            LedHint::CalibrationOk => BluePattern::Blink {
                on_ms: 120,
                off_ms: 120,
                count: 2,
                pause_ms: 400,
            },
            _ => BluePattern::Dark,
        },
{
    match hint {
        LedHint::CalibrationConfirm => BluePattern::Blink {
            on_ms: 80,
            off_ms: 220,
            count: 1,
            pause_ms: 0,
        },
        LedHint::CalibrationOk => BluePattern::Blink {
            on_ms: 120,
            off_ms: 120,
            count: 2,
            pause_ms: 400,
        },
        _ => BluePattern::Dark,
    }
}

/// The capture that a decision asks for: a calibration starts with the closed window.
pub fn calibration_request(decision: SetupDecision) -> (phase: Option<CalibrationPhase>)
    ensures
        phase == if decision.should_capture_calibration {
            Some(CalibrationPhase::Closed)
        } else {
            None
        },
{
    if decision.should_capture_calibration {
        Some(CalibrationPhase::Closed)
    } else {
        None
    }
}

} // verus!
