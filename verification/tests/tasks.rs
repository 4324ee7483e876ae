use window_sensor::bthome::ButtonEvent;
use window_sensor::classifier::{MagSample, SampleLevel, WindowState};
use window_sensor::gesture::Gesture;
use window_sensor::mems::{MemsConfig, MemsInterruptConfig};
use window_sensor::ota::{OtaCommand, OtaController, OtaPrerequisites};
use window_sensor::settings::SocSettings;
use window_sensor::setup::{
    LedHint, MemsGesture, SetupController, SetupDecision, SetupEvent, SetupState,
};
use window_sensor::tasks::ble::{
    bd_addr, burst_pause_ms, should_advertise_ota, should_confirm_running_image,
    should_prioritize_calibration, BleAction, BleMonitor,
};
use window_sensor::tasks::mems::{
    init_lis, InterruptSources, LisCommand, MemsMonitor, MemsSignal, MemsSignals, MemsWait,
};
use window_sensor::tasks::setup::{blue_pattern, calibration_request, BluePattern};
use window_sensor::tasks::window::{
    after_capture_window, calibrated_settings, calibration_candidate, calibration_outcome,
    follow_up_phase, pending_after, phase_to_capture, Baselines, BurstCapture, CalibrationOutcome,
    CalibrationPhase, CaptureStep, FieldAction, Plausibility, Transition, WindowMonitor,
};
use window_sensor::telemetry::EnvReading;

const TILT: [SampleLevel; 2] = [
    SampleLevel {
        collapsed: false,
        above_noise: true,
    },
    SampleLevel {
        collapsed: true,
        above_noise: false,
    },
];

#[test]
fn the_window_is_reported_only_when_it_changes() {
    let mut monitor = WindowMonitor::new();
    assert_eq!(monitor.on_field(true, 0), FieldAction::Rearm(None));
    assert_eq!(monitor.on_field(false, 10), FieldAction::CaptureBurst);
    let tilted = Transition {
        state: WindowState::Tilt,
        gesture: None,
    };
    assert_eq!(monitor.on_burst(&TILT, 20), Some(tilted));
    assert_eq!(monitor.on_burst(&TILT, 30), None);
    assert_eq!(
        monitor.on_field(true, 40),
        FieldAction::Rearm(Some(Transition {
            state: WindowState::Closed,
            gesture: None,
        }))
    );
    assert_eq!(
        tilted.setup_events(),
        (None, SetupEvent::WindowState(WindowState::Tilt))
    );
}

#[test]
fn moving_the_window_to_and_fro_is_a_gesture() {
    let mut monitor = WindowMonitor::new();
    let mut gestures = Vec::new();
    for i in 0..14u64 {
        let change = if i % 2 == 0 {
            monitor.on_burst(&TILT, i * 600)
        } else {
            match monitor.on_field(true, i * 600) {
                FieldAction::Rearm(change) => change,
                FieldAction::CaptureBurst => None,
            }
        };
        let change = change.unwrap();
        if change.gesture.is_some() {
            gestures.push(change.setup_events().0);
        }
    }
    assert_eq!(
        gestures,
        vec![Some(SetupEvent::MagnetGesture(Gesture::FactoryReset))]
    );
}

#[test]
fn a_burst_is_filled_up_with_zeros() {
    let sample = |x_raw| MagSample {
        x_raw,
        y_raw: 0,
        z_raw: 0,
    };
    let mut capture = BurstCapture::new(sample(1));
    assert!(capture.wants_more());
    capture.record(Some(sample(2)));
    capture.record(None);
    assert!(!capture.wants_more());
    capture.record(Some(sample(3)));
    let burst = capture.burst();
    assert_eq!(burst.len(), 12);
    assert_eq!(burst[..3], [sample(1), sample(2), sample(0)]);

    let mut full = BurstCapture::new(sample(1));
    let mut reads = 0;
    while full.wants_more() {
        full.record(Some(sample(7)));
        reads += 1;
    }
    assert_eq!(reads, 11);
    assert_eq!(full.burst()[11], sample(7));
}

#[test]
fn a_baseline_settles_within_six_attempts_or_not_at_all() {
    assert_eq!(after_capture_window(0, true), CaptureStep::Settled);
    assert_eq!(after_capture_window(4, false), CaptureStep::Retry);
    assert_eq!(after_capture_window(5, false), CaptureStep::GiveUp);
    assert_eq!(after_capture_window(usize::MAX, false), CaptureStep::GiveUp);
    assert_eq!(after_capture_window(5, true), CaptureStep::Settled);
}

fn baselines(closed: u16, tilt: u16, open: u16) -> Baselines<u16> {
    Baselines { closed, tilt, open }
}

fn plausible(as_closed: bool, as_calibration: bool) -> Plausibility {
    Plausibility {
        as_closed,
        as_calibration,
    }
}

#[test]
fn a_calibration_is_stored_with_all_three_positions() {
    let fresh = baselines(0, 25, 0);
    let early = calibration_candidate(None, CalibrationPhase::Tilt, 30, fresh);
    assert_eq!(early, None);
    assert_eq!(
        calibration_outcome(CalibrationPhase::Tilt, early, plausible(true, true)),
        CalibrationOutcome::Rejected
    );

    let closed = calibration_candidate(None, CalibrationPhase::Closed, 50, fresh);
    assert_eq!(closed, Some(baselines(50, 25, 0)));
    let first = calibration_outcome(CalibrationPhase::Closed, closed, plausible(true, false));
    assert_eq!(
        calibration_outcome(CalibrationPhase::Closed, closed, plausible(false, true)),
        CalibrationOutcome::Rejected
    );
    assert_eq!(first, CalibrationOutcome::Captured(baselines(50, 25, 0)));
    assert_eq!(
        follow_up_phase(CalibrationPhase::Closed, first),
        Some(CalibrationPhase::Tilt)
    );
    let pending = pending_after(None, first);

    let tilt = calibration_candidate(pending, CalibrationPhase::Tilt, 30, fresh);
    let second = calibration_outcome(CalibrationPhase::Tilt, tilt, plausible(false, false));
    assert_eq!(
        follow_up_phase(CalibrationPhase::Tilt, second),
        Some(CalibrationPhase::Open)
    );
    let pending = pending_after(pending, second);

    let open = calibration_candidate(pending, CalibrationPhase::Open, 5, fresh);
    let refused = calibration_outcome(CalibrationPhase::Open, open, plausible(true, false));
    assert_eq!(refused, CalibrationOutcome::Rejected);
    assert_eq!(pending_after(pending, refused), Some(baselines(50, 30, 0)));
    let third = calibration_outcome(CalibrationPhase::Open, open, plausible(false, true));
    assert_eq!(third, CalibrationOutcome::Stored(baselines(50, 30, 5)));
    assert_eq!(follow_up_phase(CalibrationPhase::Open, third), None);
    assert_eq!(
        calibrated_settings(SocSettings::default(), 500),
        SocSettings {
            window_calibrated: true,
            window_closed_baseline_mt_x10: 500,
            ..SocSettings::default()
        }
    );
}

#[test]
fn a_position_is_captured_once_the_window_is_there() {
    let next = Some(CalibrationPhase::Tilt);
    assert_eq!(phase_to_capture(next, WindowState::Closed), None);
    assert_eq!(phase_to_capture(next, WindowState::Tilt), next);
    assert_eq!(phase_to_capture(None, WindowState::Tilt), None);
}

fn sent(action: BleAction) -> (Vec<u8>, bool) {
    match action {
        BleAction::Quiet => (Vec::new(), false),
        BleAction::Once(advert) => (advert.data()[..advert.len()].to_vec(), false),
        BleAction::Burst(advert) => (advert.data()[..advert.len()].to_vec(), true),
    }
}

#[test]
fn a_change_of_the_window_goes_out_as_a_burst() {
    let mut monitor = BleMonitor::new(false, SetupState::Ready);
    let (packet, burst) = sent(monitor.on_window(WindowState::Tilt, true));
    assert!(burst);
    assert_eq!(
        packet,
        vec![14, 0x16, 0xd2, 0xfc, 0x44, 0x00, 0, 0x0f, 1, 0x26, 1, 0x2b, 0, 0x2d, 1]
    );
    let env = EnvReading {
        temperature_cdeg: 2350,
        humidity_cpct: 6520,
        battery_soc_pct: 88,
    };
    let (heartbeat, burst) = sent(monitor.on_environment(env, false));
    assert!(!burst);
    assert_eq!(
        heartbeat,
        vec![
            22, 0x16, 0xd2, 0xfc, 0x44, 0x00, 1, 0x01, 88, 0x02, 0x2e, 0x09, 0x03, 0x78, 0x19,
            0x0f, 1, 0x26, 0, 0x2b, 0, 0x2d, 1
        ]
    );
    let (button, burst) = sent(monitor.on_button(ButtonEvent::LongPress));
    assert!(!burst);
    assert_eq!(
        button,
        vec![8, 0x16, 0xd2, 0xfc, 0x44, 0x00, 2, 0x3a, 0x04]
    );
}

#[test]
fn an_advertisement_is_filled_up_with_zeros() {
    let mut monitor = BleMonitor::new(false, SetupState::Ready);
    match monitor.on_button(ButtonEvent::HoldPress) {
        BleAction::Once(advert) => {
            assert_eq!(advert.len(), 9);
            assert_eq!(advert.data().len(), 31);
            assert!(advert.data()[9..].iter().all(|byte| *byte == 0));
        }
        other => panic!("{:?}", other),
    }
}

#[test]
fn a_tamper_alarm_comes_and_goes_with_setup_and_window() {
    let mut monitor = BleMonitor::new(false, SetupState::Ready);
    assert_eq!(
        sent(monitor.on_setup(SetupState::Ready, false)),
        (Vec::new(), false)
    );
    let (alarm, burst) = sent(monitor.on_setup(SetupState::NeedsRecalibration, false));
    assert!(burst);
    assert_eq!((alarm[6], alarm[12]), (0, 1));
    let (again, burst) = sent(monitor.on_setup(SetupState::NeedsRecalibration, false));
    assert!(burst);
    assert_eq!((again[6], again[12]), (1, 1));
    let (over, burst) = sent(monitor.on_setup(SetupState::Calibrating, false));
    assert!(!burst);
    assert_eq!((over[6], over[12]), (2, 0));

    monitor.on_window(WindowState::Open, false);
    monitor.on_setup(SetupState::NeedsRecalibration, false);
    let (kept, _) = sent(monitor.on_setup(SetupState::Calibrating, false));
    assert_eq!(kept[12], 1);
    let (closed, _) = sent(monitor.on_window(WindowState::Closed, false));
    assert_eq!(closed[12], 0);
}

#[test]
fn a_burst_pauses_between_its_transmissions() {
    let pauses: Vec<Option<u32>> = (0..10).map(burst_pause_ms).collect();
    assert!(pauses[..9].iter().all(|pause| *pause == Some(100)));
    assert_eq!(pauses[9], None);
}

#[test]
fn the_address_is_a_static_random_one() {
    assert_eq!(
        bd_addr(0x0403_0201, 0xffff_0605),
        [0x01, 0x02, 0x03, 0x04, 0x05, 0xc6]
    );
    assert_eq!(bd_addr(0, 0), [0, 0, 0, 0, 0, 0xc0]);
}

#[test]
fn ota_and_calibration_follow_their_status() {
    assert!(should_prioritize_calibration(SetupState::NeedsRecalibration));
    assert!(!should_prioritize_calibration(SetupState::Ready));
    let mut ota = OtaController::default();
    let status = ota.apply(OtaCommand::Evaluate(OtaPrerequisites {
        battery_pct: 82,
        setup_state: SetupState::Ready,
    }));
    assert!(should_advertise_ota(status));
    assert!(!should_confirm_running_image(status));
}

const NO_SOURCE: InterruptSources = InterruptSources {
    wake_up_interrupt: false,
    wake_up_event: false,
    single_tap_interrupt: false,
    single_tap_event: false,
    double_tap_interrupt: false,
    double_tap_event: false,
    six_d_interrupt: false,
    position_change_event: false,
    sleep_change_interrupt: false,
    sleep_event: false,
};

fn all(signals: MemsSignals) -> Vec<MemsSignal> {
    let all: Vec<MemsSignal> = (0..signals.len())
        .map(|index| signals.get(index).unwrap())
        .collect();
    assert_eq!(signals.get(signals.len()), None);
    all
}

#[test]
fn motion_is_tampering_in_operation_and_a_gesture_otherwise() {
    let turn = InterruptSources {
        position_change_event: true,
        ..NO_SOURCE
    };
    let mut monitor = MemsMonitor::new(MemsConfig::default());
    assert_eq!(
        all(monitor.on_interrupt(SetupState::Ready, turn, 0)),
        vec![MemsSignal::Setup(SetupEvent::TamperDetected)]
    );
    assert_eq!(
        all(monitor.on_interrupt(SetupState::Discovery, turn, 10)),
        vec![]
    );
    assert_eq!(
        all(monitor.on_interrupt(SetupState::Discovery, turn, 20)),
        vec![MemsSignal::Setup(SetupEvent::MemsGesture(
            MemsGesture::ConfirmMount
        ))]
    );
    assert_eq!(
        all(monitor.on_interrupt(SetupState::Ready, NO_SOURCE, 30)),
        vec![]
    );
}

#[test]
fn a_double_tap_is_two_taps() {
    let double = InterruptSources {
        double_tap_interrupt: true,
        ..NO_SOURCE
    };
    let single = InterruptSources {
        single_tap_event: true,
        ..NO_SOURCE
    };
    let identified = vec![MemsSignal::Setup(SetupEvent::MemsGesture(
        MemsGesture::Identify,
    ))];
    let mut monitor = MemsMonitor::new(MemsConfig::default());
    assert_eq!(
        all(monitor.on_interrupt(SetupState::Discovery, double, 100)),
        identified
    );
    let mut other = MemsMonitor::new(MemsConfig::default());
    other.on_interrupt(SetupState::Discovery, single, 100);
    assert_eq!(
        all(other.on_interrupt(SetupState::Discovery, single, 100)),
        identified
    );
    assert_eq!(monitor.tick(800), Some(ButtonEvent::DoublePress));
    assert_eq!(other.tick(800), Some(ButtonEvent::DoublePress));
}

#[test]
fn waits_end_in_a_button_event() {
    let mut monitor = MemsMonitor::new(MemsConfig::default());
    assert_eq!(monitor.next_wait(5), MemsWait::AnyInterrupt);
    let knock = InterruptSources {
        single_tap_interrupt: true,
        wake_up_interrupt: true,
        ..NO_SOURCE
    };
    monitor.on_interrupt(SetupState::Ready, knock, 1_000);
    assert_eq!(
        monitor.next_wait(1_200),
        MemsWait::Interrupt {
            ms: 500,
            deadline_ms: 1_700
        }
    );
    assert_eq!(monitor.next_wait(4_000), MemsWait::Tick);
    assert_eq!(monitor.tick(4_000), Some(ButtonEvent::HoldPress));
    assert_eq!(monitor.next_wait(4_000), MemsWait::Tick);
    assert_eq!(monitor.tick(4_000), Some(ButtonEvent::Press));
    assert_eq!(monitor.next_wait(4_000), MemsWait::AnyInterrupt);
}

#[test]
fn the_end_of_a_long_motion_is_a_long_press() {
    let start = InterruptSources {
        wake_up_event: true,
        ..NO_SOURCE
    };
    let end = InterruptSources {
        sleep_event: true,
        ..NO_SOURCE
    };
    let mut monitor = MemsMonitor::new(MemsConfig::default());
    monitor.on_interrupt(SetupState::Ready, start, 0);
    assert_eq!(
        all(monitor.on_interrupt(SetupState::Ready, end, 2_000)),
        vec![MemsSignal::Button(ButtonEvent::LongPress)]
    );
}

#[test]
fn everything_at_once_is_told_in_order() {
    let everything = InterruptSources {
        wake_up_interrupt: true,
        wake_up_event: true,
        single_tap_interrupt: true,
        single_tap_event: true,
        double_tap_interrupt: true,
        double_tap_event: true,
        six_d_interrupt: true,
        position_change_event: true,
        sleep_change_interrupt: true,
        sleep_event: true,
    };
    let mut monitor = MemsMonitor::new(MemsConfig::default());
    let gesture = |gesture| MemsSignal::Setup(SetupEvent::MemsGesture(gesture));
    assert_eq!(
        all(monitor.on_interrupt(SetupState::Discovery, everything, 0)),
        vec![gesture(MemsGesture::Identify)]
    );
    assert_eq!(
        all(monitor.on_interrupt(SetupState::Discovery, everything, 100)),
        vec![
            gesture(MemsGesture::Identify),
            gesture(MemsGesture::Identify),
            gesture(MemsGesture::ConfirmMount)
        ]
    );
}

#[test]
fn the_motion_sensor_is_set_up_step_by_step() {
    let config = MemsInterruptConfig::default();
    assert_eq!(init_lis(0x43, config), None);
    let steps = init_lis(0x44, config).unwrap();
    assert_eq!(steps[0], LisCommand::ResetSettings);
    assert_eq!(steps[6], LisCommand::WakeUpThreshold(2));
    assert_eq!(steps[15], LisCommand::TapThresholdZ(12));
    assert_eq!(steps[18], LisCommand::DoubleTapLatency(6));
    assert_eq!(steps[22], LisCommand::Interrupts(true));
    assert_eq!(
        steps
            .iter()
            .filter(|step| matches!(step, LisCommand::Interrupts(_)))
            .count(),
        1
    );
}

#[test]
fn only_calibration_shows_on_the_blue_led() {
    assert_eq!(
        blue_pattern(LedHint::CalibrationConfirm),
        BluePattern::Blink {
            on_ms: 80,
            off_ms: 220,
            count: 1,
            pause_ms: 0
        }
    );
    assert_eq!(
        blue_pattern(LedHint::CalibrationOk),
        BluePattern::Blink {
            on_ms: 120,
            off_ms: 120,
            count: 2,
            pause_ms: 400
        }
    );
    for hint in [
        LedHint::Silent,
        LedHint::DiscoverySlowBlink,
        LedHint::IdentifyPulse,
        LedHint::Attention,
        LedHint::FactoryResetAlternating,
        LedHint::DebugSolid,
    ] {
        assert_eq!(blue_pattern(hint), BluePattern::Dark);
    }
}

#[test]
fn a_calibration_starts_with_the_closed_window() {
    let mut setup = SetupController::new();
    setup.apply(SetupEvent::WindowState(WindowState::Closed), 0);
    let decision = setup.apply(SetupEvent::MagnetGesture(Gesture::Calibrate), 10);
    assert_eq!(
        calibration_request(decision),
        Some(CalibrationPhase::Closed)
    );
    assert_eq!(
        calibration_request(SetupDecision::quiet(SetupState::Ready)),
        None
    );
}
