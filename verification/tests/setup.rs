use window_sensor::classifier::WindowState;
use window_sensor::gesture::Gesture;
use window_sensor::setup::{
    LedHint, MemsGesture, MemsGestureDetector, MemsInterrupt, SetupController, SetupDecision,
    SetupEvent, SetupState, FACTORY_NEW_DISCOVERY_WINDOW_MS, USER_DISCOVERY_WINDOW_MS,
};

#[test]
fn factory_new_boot_starts_discovery_window() {
    let mut setup = SetupController::new();

    let decision = setup.apply(
        SetupEvent::Boot {
            has_calibration: false,
        },
        1_000,
    );

    assert_eq!(setup.state(), SetupState::Discovery);
    assert_eq!(
        decision.discovery_window_ms,
        Some(FACTORY_NEW_DISCOVERY_WINDOW_MS)
    );
    assert_eq!(decision.led, LedHint::DiscoverySlowBlink);
}

#[test]
fn calibrated_boot_enters_ready_silently() {
    let mut setup = SetupController::new();

    let decision = setup.apply(
        SetupEvent::Boot {
            has_calibration: true,
        },
        1_000,
    );

    assert_eq!(setup.state(), SetupState::Ready);
    assert_eq!(decision, SetupDecision::quiet(SetupState::Ready));
}

#[test]
fn discovery_times_out_back_to_factory_new() {
    let mut setup = SetupController::new();
    let _ = setup.apply(
        SetupEvent::Boot {
            has_calibration: false,
        },
        0,
    );

    let decision = setup.apply(
        SetupEvent::Tick,
        u64::from(FACTORY_NEW_DISCOVERY_WINDOW_MS) + 1,
    );

    assert_eq!(setup.state(), SetupState::FactoryNew);
    assert_eq!(decision.state, SetupState::FactoryNew);
}

#[test]
fn pairing_gesture_reopens_short_discovery_window() {
    let mut setup = SetupController::new();
    let _ = setup.apply(
        SetupEvent::Boot {
            has_calibration: true,
        },
        0,
    );

    let decision = setup.apply(SetupEvent::MagnetGesture(Gesture::Pairing), 5_000);

    assert_eq!(setup.state(), SetupState::Discovery);
    assert_eq!(decision.discovery_window_ms, Some(USER_DISCOVERY_WINDOW_MS));
}

#[test]
fn mount_confirm_waits_for_closed_then_starts_calibration() {
    let mut setup = SetupController::new();
    let _ = setup.apply(
        SetupEvent::Boot {
            has_calibration: false,
        },
        0,
    );
    let _ = setup.apply(SetupEvent::WindowState(WindowState::Open), 100);

    let waiting = setup.apply(SetupEvent::MemsGesture(MemsGesture::ConfirmMount), 200);
    assert_eq!(setup.state(), SetupState::WaitingForClosedCalibration);
    assert!(!waiting.should_capture_calibration);

    let capture = setup.apply(SetupEvent::WindowState(WindowState::Closed), 300);
    assert_eq!(setup.state(), SetupState::Calibrating);
    assert!(capture.should_capture_calibration);
    assert_eq!(capture.led, LedHint::CalibrationConfirm);
}

#[test]
fn calibration_completion_enters_ready() {
    let mut setup = SetupController::new();
    let _ = setup.apply(
        SetupEvent::Boot {
            has_calibration: false,
        },
        0,
    );
    let _ = setup.apply(SetupEvent::WindowState(WindowState::Closed), 100);
    let _ = setup.apply(SetupEvent::MagnetGesture(Gesture::Calibrate), 200);

    let decision = setup.apply(SetupEvent::CalibrationStored, 300);

    assert_eq!(setup.state(), SetupState::Ready);
    assert_eq!(decision.led, LedHint::CalibrationOk);
}

#[test]
fn reoriented_tamper_requires_recalibration() {
    let mut setup = SetupController::new();
    let _ = setup.apply(
        SetupEvent::Boot {
            has_calibration: true,
        },
        0,
    );

    let decision = setup.apply(SetupEvent::TamperDetected, 1_000);

    assert_eq!(setup.state(), SetupState::NeedsRecalibration);
    assert_eq!(decision.led, LedHint::Attention);
}

#[test]
fn factory_reset_clears_state_and_restarts_discovery() {
    let mut setup = SetupController::new();
    let _ = setup.apply(
        SetupEvent::Boot {
            has_calibration: true,
        },
        0,
    );

    let decision = setup.apply(SetupEvent::MagnetGesture(Gesture::FactoryReset), 2_000);

    assert_eq!(setup.state(), SetupState::Discovery);
    assert!(decision.should_clear_state);
    assert_eq!(decision.led, LedHint::FactoryResetAlternating);
    assert_eq!(
        decision.discovery_window_ms,
        Some(FACTORY_NEW_DISCOVERY_WINDOW_MS)
    );
}

#[test]
fn debug_request_enters_debug_mode() {
    let mut setup = SetupController::new();

    let decision = setup.apply(SetupEvent::DebugRequested, 10_000);

    assert_eq!(setup.state(), SetupState::Debug);
    assert!(decision.should_enter_debug);
    assert_eq!(decision.led, LedHint::DebugSolid);
}

#[test]
fn discovery_state_requests_connectable_ble() {
    assert!(SetupState::Discovery.ble_discovery_active());
    assert!(!SetupState::Ready.ble_discovery_active());
}

#[test]
fn calibration_related_states_require_follow_up() {
    assert!(SetupState::WaitingForClosedCalibration.calibration_required());
    assert!(SetupState::Calibrating.calibration_required());
    assert!(SetupState::NeedsRecalibration.calibration_required());
    assert!(!SetupState::Ready.calibration_required());
}

#[test]
fn shake_pattern_starts_discovery() {
    let mut detector = MemsGestureDetector::new();

    assert_eq!(detector.record(MemsInterrupt::Wake, 0), None);
    assert_eq!(detector.record(MemsInterrupt::Wake, 1_000), None);
    assert_eq!(
        detector.record(MemsInterrupt::Wake, 2_500),
        Some(MemsGesture::StartDiscovery)
    );
}

#[test]
fn orientation_pattern_confirms_mount() {
    let mut detector = MemsGestureDetector::new();

    assert_eq!(detector.record(MemsInterrupt::OrientationChange, 0), None);
    assert_eq!(
        detector.record(MemsInterrupt::OrientationChange, 2_000),
        Some(MemsGesture::ConfirmMount)
    );
}

#[test]
fn double_tap_identifies_device() {
    let mut detector = MemsGestureDetector::new();

    assert_eq!(detector.record(MemsInterrupt::Tap, 0), None);
    assert_eq!(
        detector.record(MemsInterrupt::Tap, 800),
        Some(MemsGesture::Identify)
    );
}

#[test]
fn slow_motion_patterns_do_not_trigger() {
    let mut detector = MemsGestureDetector::new();

    assert_eq!(detector.record(MemsInterrupt::Wake, 0), None);
    assert_eq!(detector.record(MemsInterrupt::Wake, 5_000), None);
    assert_eq!(detector.record(MemsInterrupt::Wake, 10_000), None);
    assert_eq!(detector.record(MemsInterrupt::Tap, 20_000), None);
    assert_eq!(detector.record(MemsInterrupt::Tap, 22_000), None);
}

#[test]
fn discovery_ends_on_time_and_not_before() {
    let mut setup = SetupController::new();
    setup.apply(SetupEvent::MagnetGesture(Gesture::Pairing), 1_000);
    setup.apply(SetupEvent::Tick, 30_999);
    assert_eq!(setup.state(), SetupState::Discovery);
    setup.apply(SetupEvent::Tick, 31_000);
    assert_eq!(setup.state(), SetupState::FactoryNew);
}

#[test]
fn only_asking_for_it_clears_state_or_starts_debugging() {
    let mut setup = SetupController::new();
    for event in [
        SetupEvent::Boot {
            has_calibration: true,
        },
        SetupEvent::Tick,
        SetupEvent::MagnetGesture(Gesture::Pairing),
        SetupEvent::MemsGesture(MemsGesture::Identify),
        SetupEvent::WindowState(WindowState::Tilt),
        SetupEvent::TamperDetected,
        SetupEvent::MagnetGesture(Gesture::Calibrate),
    ] {
        let decision = setup.apply(event, 10);
        assert!(!decision.should_clear_state);
        assert!(!decision.should_enter_debug);
        assert!(!decision.should_capture_calibration);
        assert_eq!(decision.state, setup.state());
    }
    assert_eq!(setup.state(), SetupState::WaitingForClosedCalibration);
}

#[test]
fn a_gesture_is_forgotten_once_it_is_recognised() {
    let mut detector = MemsGestureDetector::new();
    detector.record(MemsInterrupt::Tap, 0);
    assert_eq!(
        detector.record(MemsInterrupt::Tap, 1_500),
        Some(MemsGesture::Identify)
    );
    assert_eq!(detector.record(MemsInterrupt::Tap, 1_600), None);
}
