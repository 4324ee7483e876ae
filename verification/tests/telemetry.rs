use window_sensor::bthome;
use window_sensor::classifier::WindowState;
use window_sensor::telemetry::{
    encode_button_advertisement, encode_heartbeat_advertisement, encode_state_advertisement,
    EnvReading, PacketCounter, WindowStatus, AD_TYPE_SERVICE_DATA_UUID16,
};

#[test]
fn packet_counter_wraps() {
    let mut counter = PacketCounter::new();
    for id in 0..254 {
        assert_eq!(counter.next_packet_id(), id);
    }
    assert_eq!(counter.next_packet_id(), 254);
    assert_eq!(counter.next_packet_id(), 255);
    assert_eq!(counter.next_packet_id(), 0);
    assert_eq!(counter.next_packet_id(), 1);
}

#[test]
fn state_advertisement_has_bthome_service_data_prefix() {
    let mut buf = [0u8; 32];
    let len = encode_state_advertisement(
        &mut buf,
        7,
        WindowStatus {
            state: WindowState::Tilt,
            tampered: true,
            problem: false,
        },
    );

    assert_eq!(len, 15);
    assert_eq!(buf[0], 14);
    assert_eq!(buf[1], AD_TYPE_SERVICE_DATA_UUID16);
    assert_eq!(&buf[2..4], &bthome::BTHOME_UUID_LE);
    assert_eq!(buf[4], bthome::DEVICE_INFO);
    assert_eq!(buf[5], bthome::obj_id::PACKET_ID);
    assert_eq!(buf[6], 7);
    assert_eq!(buf[7], bthome::obj_id::GENERIC_BOOLEAN);
    assert_eq!(buf[8], 1);
    assert_eq!(buf[9], bthome::obj_id::PROBLEM);
    assert_eq!(buf[10], 0);
    assert_eq!(buf[11], bthome::obj_id::TAMPER);
    assert_eq!(buf[12], 1);
    assert_eq!(buf[13], bthome::obj_id::WINDOW);
    assert_eq!(buf[14], 1);
}

#[test]
fn heartbeat_advertisement_fits_single_ble_packet() {
    let mut buf = [0u8; 32];
    let len = encode_heartbeat_advertisement(
        &mut buf,
        42,
        EnvReading {
            temperature_cdeg: 2350,
            humidity_cpct: 6520,
            battery_soc_pct: 88,
        },
        WindowStatus {
            state: WindowState::Closed,
            tampered: false,
            problem: false,
        },
    );

    assert_eq!(buf[1], AD_TYPE_SERVICE_DATA_UUID16);
    assert_eq!(&buf[2..4], &bthome::BTHOME_UUID_LE);
    assert_eq!(buf[4], bthome::DEVICE_INFO);
    assert!(len <= 31, "advertisement length {} exceeds BLE limit", len);
}

#[test]
fn button_advertisement_contains_button_event() {
    let mut buf = [0u8; 32];
    let len = encode_button_advertisement(&mut buf, 11, bthome::ButtonEvent::TriplePress);

    assert_eq!(len, 9);
    assert_eq!(buf[1], AD_TYPE_SERVICE_DATA_UUID16);
    assert_eq!(&buf[2..4], &bthome::BTHOME_UUID_LE);
    assert_eq!(buf[4], bthome::DEVICE_INFO);
    assert_eq!(buf[5], bthome::obj_id::PACKET_ID);
    assert_eq!(buf[6], 11);
    assert_eq!(buf[7], bthome::obj_id::BUTTON_EVENT);
    assert_eq!(buf[8], 0x03);
}

#[test]
fn nothing_behind_the_advertisement_is_touched() {
    let mut buf = [0xa5u8; 31];
    let len = encode_button_advertisement(&mut buf, 1, bthome::ButtonEvent::Press);
    assert_eq!(&buf[..len], &[8, 0x16, 0xd2, 0xfc, 0x44, 0x00, 1, 0x3a, 0x01]);
    assert!(buf[len..].iter().all(|byte| *byte == 0xa5));
}
