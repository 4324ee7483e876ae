use window_sensor::bthome::{
    encode_button_event, encode_heartbeat, encode_state_event, obj_id, ButtonEvent, DEVICE_INFO,
};

#[test]
fn test_encode_state_event_closed() {
    let mut buf = [0u8; 32];
    let len = encode_state_event(&mut buf, 0, false, false, false, false);
    assert_eq!(len, 11);
    assert_eq!(buf[0], DEVICE_INFO);
    assert_eq!(buf[1], obj_id::PACKET_ID);
    assert_eq!(buf[2], 0); // packet_id = 0
    assert_eq!(buf[3], obj_id::GENERIC_BOOLEAN);
    assert_eq!(buf[4], 0); // not tilt
    assert_eq!(buf[5], obj_id::PROBLEM);
    assert_eq!(buf[6], 0); // no problem
    assert_eq!(buf[7], obj_id::TAMPER);
    assert_eq!(buf[8], 0); // not tampered
    assert_eq!(buf[9], obj_id::WINDOW);
    assert_eq!(buf[10], 0); // closed
}

#[test]
fn test_encode_state_event_tilt() {
    let mut buf = [0u8; 32];
    let len = encode_state_event(&mut buf, 5, true, true, false, false);
    assert_eq!(len, 11);
    assert_eq!(buf[2], 5); // packet_id
    assert_eq!(buf[4], 1); // tilt
    assert_eq!(buf[6], 0); // no problem
    assert_eq!(buf[8], 0); // not tampered
    assert_eq!(buf[10], 1); // open
}

#[test]
fn test_encode_state_event_tampered() {
    let mut buf = [0u8; 32];
    let len = encode_state_event(&mut buf, 255, true, false, true, true);
    assert_eq!(len, 11);
    assert_eq!(buf[2], 255);
    assert_eq!(buf[4], 0); // not tilt
    assert_eq!(buf[6], 1); // problem
    assert_eq!(buf[8], 1); // tampered
    assert_eq!(buf[10], 1); // open
}

#[test]
fn test_encode_heartbeat_basic() {
    let mut buf = [0u8; 32];
    let len = encode_heartbeat(&mut buf, 42, 75, 2350, 6520, false, false, false, false);
    assert_eq!(buf[0], DEVICE_INFO);
    // Battery = 75%
    assert_eq!(buf[3], obj_id::BATTERY);
    assert_eq!(buf[4], 75);
    // Temperature = 2350 centidegrees = 23.50°C
    assert_eq!(buf[5], obj_id::TEMPERATURE);
    assert_eq!(i16::from_le_bytes([buf[6], buf[7]]), 2350);
    // Humidity = 6520 centipercent = 65.20%
    assert_eq!(buf[8], obj_id::HUMIDITY);
    assert_eq!(u16::from_le_bytes([buf[9], buf[10]]), 6520);
    assert_eq!(buf[11], obj_id::GENERIC_BOOLEAN);
    assert_eq!(buf[12], 0);
    assert_eq!(buf[13], obj_id::PROBLEM);
    assert_eq!(buf[14], 0);
    assert_eq!(buf[15], obj_id::TAMPER);
    assert_eq!(buf[16], 0);
    assert_eq!(buf[17], obj_id::WINDOW);
    assert_eq!(buf[18], 0);
    // Must fit in standard BLE advert
    assert!(len <= 27, "Heartbeat {} bytes exceeds 27-byte limit", len);
}

#[test]
fn test_heartbeat_max_values_fits_ble() {
    let mut buf = [0u8; 32];
    let len = encode_heartbeat(&mut buf, 255, 100, 8500, 10000, true, true, true, true);
    // AD structure: len(1) + type(1) + UUID(2) + payload ≤ 27
    assert!(len <= 27, "Max heartbeat {} bytes exceeds limit", len);
}

#[test]
fn test_heartbeat_negative_temperature() {
    let mut buf = [0u8; 32];
    let _len = encode_heartbeat(&mut buf, 1, 50, -1500, 3000, false, false, false, false);
    // -15.00°C encoded as sint16 LE
    assert_eq!(i16::from_le_bytes([buf[6], buf[7]]), -1500);
}

#[test]
fn test_device_info_byte() {
    // Version 2 (bits 7-5 = 010), trigger-based (bit 2 = 1)
    assert_eq!(DEVICE_INFO & 0xE0, 0x40); // version = 2
    assert_eq!(DEVICE_INFO & 0x04, 0x04); // trigger-based
    assert_eq!(DEVICE_INFO & 0x01, 0x00); // not encrypted
}

#[test]
fn test_encode_button_event_double_press() {
    let mut buf = [0u8; 32];
    let len = encode_button_event(&mut buf, 9, ButtonEvent::DoublePress);
    assert_eq!(len, 5);
    assert_eq!(buf[0], DEVICE_INFO);
    assert_eq!(buf[1], obj_id::PACKET_ID);
    assert_eq!(buf[2], 9);
    assert_eq!(buf[3], obj_id::BUTTON_EVENT);
    assert_eq!(buf[4], 0x02);
}
