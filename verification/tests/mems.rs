use window_sensor::mems::{
    ids_enabled_for_setup_state, IdsConfig, IdsDetector, IdsSignal, IdsTrigger, MemsConfig,
    MemsInterruptConfig, MemsOrientationThreshold,
};
use window_sensor::mems_button::MemsButtonConfig;
use window_sensor::setup::SetupState;

#[test]
fn default_interrupt_config_matches_current_firmware_tuning() {
    assert_eq!(
        MemsInterruptConfig::default(),
        MemsInterruptConfig {
            wake_up_threshold: 2,
            wake_up_duration: 1,
            sleep_mode_enabled: true,
            orientation_detection_enabled: true,
            orientation_threshold: MemsOrientationThreshold::Deg70,
            tap_detection_enabled: true,
            tap_threshold_x: 9,
            tap_threshold_y: 9,
            tap_threshold_z: 12,
            tap_quiet_time: 1,
            tap_shock_time: 2,
            double_tap_latency: 6,
        }
    );
}

#[test]
fn default_mems_config_reuses_button_defaults() {
    let config = MemsConfig::default();

    assert_eq!(config.interrupts, MemsInterruptConfig::default());
    assert_eq!(config.ids, IdsConfig::default());
    assert_eq!(config.button, MemsButtonConfig::default());
}

#[test]
fn balanced_ids_profile_avoids_tamper_on_triple_knock() {
    let mut detector = IdsDetector::new(IdsConfig::default());

    assert_eq!(detector.record(IdsSignal::Tap, 0), None);
    assert_eq!(detector.record(IdsSignal::Tap, 300), None);
    assert_eq!(detector.record(IdsSignal::Tap, 600), None);
    assert_eq!(detector.record(IdsSignal::Tap, 900), Some(IdsTrigger::TapBurst));
}

#[test]
fn slow_motion_does_not_trip_wake_burst_ids() {
    let mut detector = IdsDetector::new(IdsConfig::default());

    assert_eq!(detector.record(IdsSignal::Wake, 0), None);
    assert_eq!(detector.record(IdsSignal::Wake, 3_000), None);
    assert_eq!(detector.record(IdsSignal::Wake, 6_000), None);
}

#[test]
fn orientation_change_can_trigger_immediate_tamper() {
    let mut detector = IdsDetector::new(IdsConfig::default());

    assert_eq!(
        detector.record(IdsSignal::OrientationChange, 123),
        Some(IdsTrigger::OrientationChange)
    );
}

#[test]
fn ids_mode_only_applies_in_operational_states() {
    assert!(!ids_enabled_for_setup_state(SetupState::FactoryNew));
    assert!(!ids_enabled_for_setup_state(SetupState::Discovery));
    assert!(ids_enabled_for_setup_state(SetupState::Ready));
    assert!(ids_enabled_for_setup_state(SetupState::NeedsRecalibration));
    assert!(ids_enabled_for_setup_state(SetupState::Debug));
}

#[test]
fn quick_wakes_set_off_the_alarm_and_are_then_forgotten() {
    let mut detector = IdsDetector::new(IdsConfig::default());
    assert_eq!(detector.record(IdsSignal::Wake, 0), None);
    assert_eq!(detector.record(IdsSignal::Wake, 1_000), None);
    assert_eq!(
        detector.record(IdsSignal::Wake, 2_500),
        Some(IdsTrigger::WakeBurst)
    );
    assert_eq!(detector.record(IdsSignal::Wake, 2_600), None);
}

#[test]
fn wakes_and_taps_are_counted_apart() {
    let mut detector = IdsDetector::new(IdsConfig::default());
    assert_eq!(detector.record(IdsSignal::Wake, 0), None);
    assert_eq!(detector.record(IdsSignal::Wake, 100), None);
    assert_eq!(detector.record(IdsSignal::Tap, 200), None);
    assert_eq!(detector.record(IdsSignal::Tap, 300), None);
    assert_eq!(detector.record(IdsSignal::Tap, 400), None);
    assert_eq!(
        detector.record(IdsSignal::Wake, 500),
        Some(IdsTrigger::WakeBurst)
    );
    assert_eq!(
        detector.record(IdsSignal::Tap, 600),
        Some(IdsTrigger::TapBurst)
    );
}

#[test]
fn a_count_beyond_the_record_is_never_reached() {
    let mut detector = IdsDetector::new(IdsConfig {
        wake_event_count: 1_000,
        wake_window_ms: u64::MAX,
        ..IdsConfig::default()
    });
    for at_ms in 0..2_000 {
        assert_eq!(detector.record(IdsSignal::Wake, at_ms), None);
    }
}

#[test]
fn the_tuning_of_the_firmware_is_the_shipping_one() {
    assert_eq!(window_sensor::mems_tuning::mems_config(), MemsConfig::default());
}
