use window_sensor::gesture::{Gesture, GestureDetector};

#[test]
fn detects_calibrate_gesture() {
    let mut detector = GestureDetector::new();
    let mut result = None;

    for ts in [0, 800, 1600, 2400, 3200, 4000] {
        result = detector.record_transition(ts);
    }

    assert_eq!(result, None);
    assert_eq!(detector.record_transition(9_200), Some(Gesture::Calibrate));
}

#[test]
fn detects_pairing_gesture() {
    let mut detector = GestureDetector::new();
    let mut result = None;

    for ts in [0, 900, 1800, 2700, 3600, 4500, 5400, 6300, 7200, 8100] {
        result = detector.record_transition(ts);
    }

    assert_eq!(result, None);
    assert_eq!(detector.record_transition(19_000), Some(Gesture::Pairing));
}

#[test]
fn detects_factory_reset_gesture() {
    let mut detector = GestureDetector::new();
    let mut result = None;

    for ts in [
        0, 650, 1300, 1950, 2600, 3250, 3900, 4550, 5200, 5850, 6500, 7150, 7800, 8450,
    ] {
        result = detector.record_transition(ts);
    }

    assert_eq!(result, Some(Gesture::FactoryReset));
}

#[test]
fn ignores_slow_transitions() {
    let mut detector = GestureDetector::new();
    let mut result = None;

    for ts in [0, 1500, 3000, 4500, 6000, 7500] {
        result = detector.record_transition(ts);
    }

    assert_eq!(result, None);
}

#[test]
fn detector_resets_after_trigger() {
    let mut detector = GestureDetector::new();

    for ts in [0, 800, 1600, 2400, 3200, 4000] {
        let _ = detector.record_transition(ts);
    }

    assert_eq!(detector.record_transition(9_200), Some(Gesture::Calibrate));
    assert_eq!(detector.record_transition(20_000), None);
    assert_eq!(detector.record_transition(20_800), None);
}

#[test]
fn a_held_gesture_is_not_reported_before_it_can_no_longer_grow() {
    let mut detector = GestureDetector::new();
    for ts in [0, 800, 1600, 2400, 3200, 4000, 4800] {
        assert_eq!(detector.record_transition(ts), None);
    }
}

#[test]
fn a_brisk_series_grows_into_a_factory_reset_and_is_then_forgotten() {
    let mut detector = GestureDetector::new();
    let mut reports = Vec::new();
    for i in 0..14u64 {
        if let Some(gesture) = detector.record_transition(i * 600) {
            reports.push(gesture);
        }
    }
    assert_eq!(reports, vec![Gesture::FactoryReset]);
    for ts in [8_400, 9_000, 9_600, 10_200, 10_800] {
        assert_eq!(detector.record_transition(ts), None);
    }
}
