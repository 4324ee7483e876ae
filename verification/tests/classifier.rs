use window_sensor::classifier::{classify_burst, MagSample, SampleLevel, WindowState};
use window_sensor::window_tuning::MIN_SAMPLES_FOR_OPEN;

const UT_PER_LSB: f32 = 39.0625;

struct Thresholds {
    collapse_threshold_mt: f32,
    min_samples_for_open: usize,
    noise_floor_mt: f32,
}

impl Default for Thresholds {
    fn default() -> Self {
        Self {
            collapse_threshold_mt: 35.0,
            min_samples_for_open: MIN_SAMPLES_FOR_OPEN,
            noise_floor_mt: 0.5,
        }
    }
}

fn magnitude_mt(s: MagSample) -> f32 {
    let x = s.x_raw as f32 * UT_PER_LSB / 1000.0;
    let y = s.y_raw as f32 * UT_PER_LSB / 1000.0;
    let z = s.z_raw as f32 * UT_PER_LSB / 1000.0;
    libm::sqrtf(x * x + y * y + z * z)
}

/// Compares the samples with the thresholds and classifies the outcome.
fn classify(burst: &[MagSample], thresholds: &Thresholds) -> WindowState {
    let levels: Vec<SampleLevel> = burst
        .iter()
        .map(|s| SampleLevel {
            collapsed: magnitude_mt(burst[0]) - magnitude_mt(*s)
                > thresholds.collapse_threshold_mt,
            above_noise: magnitude_mt(*s) > thresholds.noise_floor_mt,
        })
        .collect();
    classify_burst(&levels, thresholds.min_samples_for_open)
}

fn sample(x: i16, y: i16, z: i16) -> MagSample {
    MagSample {
        x_raw: x,
        y_raw: y,
        z_raw: z,
    }
}

/// Helper: raw value for a given mT (single axis, others zero)
fn raw_for_mt(mt: f32) -> i16 {
    (mt * 1000.0 / UT_PER_LSB) as i16
}

#[test]
fn test_classify_tilt_instant_collapse() {
    let thresholds = Thresholds::default();
    // Tilt: 50 mT → 10 mT in one sample (drop = 40 mT > 35 mT threshold)
    let burst = [
        sample(raw_for_mt(50.0), 0, 0),
        sample(raw_for_mt(10.0), 0, 0),
        sample(raw_for_mt(5.0), 0, 0),
    ];
    assert_eq!(classify(&burst, &thresholds), WindowState::Tilt);
}

#[test]
fn test_classify_tilt_two_sample_collapse() {
    let thresholds = Thresholds::default();
    // Drop spread over 2 samples: 50 → 30 → 10
    // First drop = 20 mT (not enough), second drop from initial = 40 mT (enough)
    let burst = [
        sample(raw_for_mt(50.0), 0, 0),
        sample(raw_for_mt(30.0), 0, 0), // drop=20 < 35
        sample(raw_for_mt(10.0), 0, 0), // drop=40 > 35 ✓
    ];
    assert_eq!(classify(&burst, &thresholds), WindowState::Tilt);
}

#[test]
fn test_classify_open_gradual_decay() {
    let thresholds = Thresholds::default();
    // Open: gradual decay ~1.4 mT/sample, stays above noise for many samples
    let burst: [MagSample; 10] =
        core::array::from_fn(|i| sample(raw_for_mt(45.0 - i as f32 * 1.4), 0, 0));
    assert_eq!(classify(&burst, &thresholds), WindowState::Open);
}

#[test]
fn test_classify_empty_burst() {
    let thresholds = Thresholds::default();
    assert_eq!(classify(&[], &thresholds), WindowState::Open);
}

#[test]
fn test_classify_single_sample() {
    let thresholds = Thresholds::default();
    // Only 1 sample: can't determine pattern → CLOSED (ambiguous)
    let burst = [sample(raw_for_mt(45.0), 0, 0)];
    assert_eq!(classify(&burst, &thresholds), WindowState::Closed);
}

#[test]
fn test_classify_not_enough_drop_for_tilt() {
    let thresholds = Thresholds::default();
    // Drop of 30 mT < 35 mT threshold → NOT tilt, classify as open
    let burst = [
        sample(raw_for_mt(50.0), 0, 0),
        sample(raw_for_mt(20.0), 0, 0), // drop=30 < 35
        sample(raw_for_mt(15.0), 0, 0),
        sample(raw_for_mt(10.0), 0, 0),
        sample(raw_for_mt(5.0), 0, 0),
        sample(raw_for_mt(3.0), 0, 0),
    ];
    assert_eq!(classify(&burst, &thresholds), WindowState::Open);
}


#[test]
fn a_late_collapse_is_not_a_tilt() {
    let level = |collapsed, above_noise| SampleLevel {
        collapsed,
        above_noise,
    };
    let late = [
        level(false, true),
        level(false, true),
        level(false, true),
        level(true, true),
        level(true, true),
    ];
    assert_eq!(classify_burst(&late, 5), WindowState::Open);
    assert_eq!(classify_burst(&late, 6), WindowState::Closed);
    let early = [level(false, true), level(false, true), level(true, false)];
    assert_eq!(classify_burst(&early, 1), WindowState::Tilt);
}
