use window_sensor::advertising::{
    AdvertisingEvent, AdvertisingScheduler, HEARTBEAT_INTERVAL_S, STATE_BURST_COUNT,
    STATE_BURST_INTERVAL_MS,
};
use window_sensor::classifier::WindowState;
use window_sensor::telemetry::{EnvReading, WindowStatus};

fn env() -> EnvReading {
    EnvReading {
        temperature_cdeg: 2150,
        humidity_cpct: 5100,
        battery_soc_pct: 92,
    }
}

#[test]
fn state_change_emits_burst_policy() {
    let mut scheduler = AdvertisingScheduler::new(0, HEARTBEAT_INTERVAL_S);
    let event = scheduler.on_state_changed(WindowStatus {
        state: WindowState::Tilt,
        tampered: false,
        problem: false,
    });

    assert_eq!(
        event,
        AdvertisingEvent::StateBurst {
            packet_id: 0,
            repeats: STATE_BURST_COUNT,
            interval_ms: STATE_BURST_INTERVAL_MS,
            status: WindowStatus {
                state: WindowState::Tilt,
                tampered: false,
                problem: false,
            },
        }
    );
}

#[test]
fn heartbeat_is_silent_until_due() {
    let mut scheduler = AdvertisingScheduler::new(0, HEARTBEAT_INTERVAL_S);
    assert_eq!(scheduler.due_heartbeat(299_000, env()), None);
    assert!(matches!(
        scheduler.due_heartbeat(300_000, env()),
        Some(AdvertisingEvent::Heartbeat { packet_id: 0, .. })
    ));
}

#[test]
fn tamper_persists_until_closed() {
    let mut scheduler = AdvertisingScheduler::new(0, HEARTBEAT_INTERVAL_S);
    let tamper = scheduler.on_tamper();
    assert!(matches!(
        tamper,
        AdvertisingEvent::StateBurst {
            status: WindowStatus { tampered: true, .. },
            ..
        }
    ));

    scheduler.on_state_changed(WindowStatus {
        state: WindowState::Open,
        tampered: true,
        problem: false,
    });
    scheduler.clear_tamper_if_closed();
    assert!(scheduler.status().tampered);

    scheduler.on_state_changed(WindowStatus {
        state: WindowState::Closed,
        tampered: true,
        problem: false,
    });
    scheduler.clear_tamper_if_closed();
    assert!(!scheduler.status().tampered);
}

#[test]
fn heartbeat_catches_up_after_long_sleep() {
    let mut scheduler = AdvertisingScheduler::new(0, HEARTBEAT_INTERVAL_S);
    assert!(scheduler.due_heartbeat(905_000, env()).is_some());
    assert_eq!(scheduler.due_heartbeat(905_001, env()), None);
    assert!(scheduler.due_heartbeat(1_200_000, env()).is_some());
}

#[test]
fn the_interval_is_held_between_a_minute_and_an_hour() {
    let mut hasty = AdvertisingScheduler::new(0, 1);
    assert_eq!(hasty.due_heartbeat(59_999, env()), None);
    assert!(hasty.due_heartbeat(60_000, env()).is_some());
    let mut lazy = AdvertisingScheduler::new(0, 1_000_000);
    assert_eq!(lazy.due_heartbeat(3_599_999, env()), None);
    assert!(lazy.due_heartbeat(3_600_000, env()).is_some());
}

#[test]
fn packets_of_all_kinds_are_numbered_together() {
    let mut scheduler = AdvertisingScheduler::new(0, HEARTBEAT_INTERVAL_S);
    assert!(matches!(
        scheduler.on_tamper(),
        AdvertisingEvent::StateBurst { packet_id: 0, .. }
    ));
    scheduler.clear_tamper_if_closed();
    assert!(matches!(
        scheduler.due_heartbeat(300_000, env()),
        Some(AdvertisingEvent::Heartbeat { packet_id: 1, .. })
    ));
    let status = scheduler.status();
    assert!(matches!(
        scheduler.on_state_changed(status),
        AdvertisingEvent::StateBurst { packet_id: 2, .. }
    ));
}
