use window_sensor::bthome::ButtonEvent;
use window_sensor::mems_button::{MemsButtonDetector, MemsButtonSignal};

#[test]
fn single_knock_becomes_press_after_quiet_gap() {
    let mut detector = MemsButtonDetector::default();

    assert_eq!(detector.record(MemsButtonSignal::Knock, 0), None);
    assert_eq!(detector.record(MemsButtonSignal::Tick, 500), None);
    assert_eq!(
        detector.record(MemsButtonSignal::Tick, 800),
        Some(ButtonEvent::Press)
    );
}

#[test]
fn double_knock_becomes_double_press() {
    let mut detector = MemsButtonDetector::default();

    assert_eq!(detector.record(MemsButtonSignal::Knock, 0), None);
    assert_eq!(detector.record(MemsButtonSignal::Knock, 300), None);
    assert_eq!(
        detector.record(MemsButtonSignal::Tick, 1_100),
        Some(ButtonEvent::DoublePress)
    );
}

#[test]
fn triple_knock_caps_to_triple_press() {
    let mut detector = MemsButtonDetector::default();

    assert_eq!(detector.record(MemsButtonSignal::Knock, 0), None);
    assert_eq!(detector.record(MemsButtonSignal::Knock, 200), None);
    assert_eq!(detector.record(MemsButtonSignal::Knock, 400), None);
    assert_eq!(
        detector.record(MemsButtonSignal::Tick, 1_200),
        Some(ButtonEvent::TriplePress)
    );
}

#[test]
fn slow_knocks_do_not_merge() {
    let mut detector = MemsButtonDetector::default();

    assert_eq!(detector.record(MemsButtonSignal::Knock, 0), None);
    assert_eq!(
        detector.record(MemsButtonSignal::Tick, 1_000),
        Some(ButtonEvent::Press)
    );
    assert_eq!(detector.record(MemsButtonSignal::Knock, 2_000), None);
    assert_eq!(
        detector.record(MemsButtonSignal::Tick, 2_800),
        Some(ButtonEvent::Press)
    );
}

#[test]
fn long_motion_release_becomes_long_press() {
    let mut detector = MemsButtonDetector::default();

    assert_eq!(detector.record(MemsButtonSignal::MotionStart, 0), None);
    assert_eq!(
        detector.record(MemsButtonSignal::MotionEnd, 1_800),
        Some(ButtonEvent::LongPress)
    );
}

#[test]
fn long_hold_emits_hold_press_once() {
    let mut detector = MemsButtonDetector::default();

    assert_eq!(detector.record(MemsButtonSignal::MotionStart, 0), None);
    assert_eq!(detector.record(MemsButtonSignal::Tick, 2_000), None);
    assert_eq!(
        detector.record(MemsButtonSignal::Tick, 2_600),
        Some(ButtonEvent::HoldPress)
    );
    assert_eq!(detector.record(MemsButtonSignal::Tick, 3_000), None);
    assert_eq!(detector.record(MemsButtonSignal::MotionEnd, 3_200), None);
}

#[test]
fn ticks_complete_an_event_exactly_at_the_deadline() {
    let mut detector = MemsButtonDetector::default();
    assert_eq!(detector.next_deadline_ms(0), None);
    detector.record(MemsButtonSignal::Knock, 100);
    assert_eq!(detector.next_deadline_ms(100), Some(800));
    detector.record(MemsButtonSignal::MotionStart, 200);
    assert_eq!(detector.next_deadline_ms(200), Some(800));
    assert_eq!(detector.record(MemsButtonSignal::Tick, 799), None);
    assert_eq!(
        detector.record(MemsButtonSignal::Tick, 800),
        Some(ButtonEvent::Press)
    );
    assert_eq!(detector.next_deadline_ms(800), Some(2_700));
}

#[test]
fn four_knocks_still_are_a_triple_press() {
    let mut detector = MemsButtonDetector::default();
    for at_ms in [0, 200, 400, 600] {
        assert_eq!(detector.record(MemsButtonSignal::Knock, at_ms), None);
    }
    assert_eq!(
        detector.record(MemsButtonSignal::Tick, 1_300),
        Some(ButtonEvent::TriplePress)
    );
}

#[test]
fn a_knock_after_the_window_starts_a_group_of_its_own() {
    let mut detector = MemsButtonDetector::default();
    detector.record(MemsButtonSignal::Knock, 0);
    detector.record(MemsButtonSignal::Knock, 901);
    assert_eq!(
        detector.record(MemsButtonSignal::Tick, 1_601),
        Some(ButtonEvent::Press)
    );
}

#[test]
fn a_short_motion_is_no_press() {
    let mut detector = MemsButtonDetector::default();
    detector.record(MemsButtonSignal::MotionStart, 0);
    assert_eq!(detector.record(MemsButtonSignal::MotionEnd, 1_499), None);
    assert_eq!(detector.record(MemsButtonSignal::MotionEnd, 9_000), None);
}
