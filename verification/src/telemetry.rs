//! Telemetry and BLE advertisement assembly.

use crate::bthome;
use crate::classifier::WindowState;
use vstd::prelude::*;

verus! {

/// BLE AD type for Service Data - 16-bit UUID.
pub const AD_TYPE_SERVICE_DATA_UUID16: u8 = 0x16;

/// Shared environment reading model used by tasks and BLE encoding.
#[derive(Clone, Copy, Debug, PartialEq, Eq, Structural)]
pub struct EnvReading {
    /// SHT4x temperature in centi-degrees (2350 = 23.50 C)
    pub temperature_cdeg: i16,
    /// SHT4x relative humidity in centi-percent (6520 = 65.20 %RH)
    pub humidity_cpct: u16,
    /// Estimated battery SoC in percent (0-100)
    pub battery_soc_pct: u8,
}

/// Current user-visible window status.
#[derive(Clone, Copy, Debug, PartialEq, Eq, Structural)]
pub struct WindowStatus {
    pub state: WindowState,
    pub tampered: bool,
    pub problem: bool,
}

/// Monotonic packet counter used by BTHome for de-duplication.
#[derive(Clone, Copy, Debug, PartialEq, Eq)]
pub struct PacketCounter {
    next: u8,
}

impl View for PacketCounter {
    type V = u8;

    closed spec fn view(&self) -> u8 {
        self.next
    }
}

/// The packet identifier that follows `id`; the last one is followed by zero.
pub open spec fn following(id: u8) -> u8 {
    if id == u8::MAX {
        0
    } else {
        (id + 1) as u8
    }
}

impl PacketCounter {
    pub fn new() -> (counter: Self)
        ensures
            counter@ == 0,
    {
        PacketCounter { next: 0 }
    }

    pub fn next_packet_id(&mut self) -> (packet_id: u8)
        ensures
            packet_id == old(self)@,
            final(self)@ == following(old(self)@),
    {
        let packet_id: u8 = self.next;
        self.next = self.next.wrapping_add(1);
        packet_id
    }
}

impl Default for PacketCounter {
    fn default() -> (counter: Self)
        ensures
            counter@ == 0,
    {
        Self::new()
    }
}

/// A complete service-data AD structure around `payload`: its length, its type, the BTHome UUID.
pub open spec fn advertisement(payload: Seq<u8>) -> Seq<u8> {
    seq![
        (payload.len() + 3) as u8,
        AD_TYPE_SERVICE_DATA_UUID16,
        bthome::BTHOME_UUID_LE[0],
        bthome::BTHOME_UUID_LE[1],
    ] + payload
}

/// The payload that tells the status of the window.
pub open spec fn state_payload(packet_id: u8, status: WindowStatus) -> Seq<u8> {
    bthome::state_payload(
        packet_id,
        status.state != WindowState::Closed,
        status.state == WindowState::Tilt,
        status.tampered,
        status.problem,
    )
}

/// The payload that tells an environment reading and the status of the window.
pub open spec fn heartbeat_payload(packet_id: u8, env: EnvReading, status: WindowStatus) -> Seq<
    u8,
> {
    bthome::heartbeat_payload(
        packet_id,
        env.battery_soc_pct,
        env.temperature_cdeg,
        env.humidity_cpct,
        status.state != WindowState::Closed,
        status.state == WindowState::Tilt,
        status.tampered,
        status.problem,
    )
}

/// Encode a BTHome state advertisement as a complete BLE service-data AD structure.
pub fn encode_state_advertisement(buf: &mut [u8], packet_id: u8, status: WindowStatus) -> (len:
    usize)
    requires
        old(buf)@.len() >= 15,
    ensures
        len == 15,
        final(buf)@ == bthome::overwritten(
            old(buf)@,
            advertisement(state_payload(packet_id, status)),
        ),
{
    let (header, payload) = buf.split_at_mut(4);
    let payload_len: usize = bthome::encode_state_event(
        payload,
        packet_id,
        status.state != WindowState::Closed,
        status.state == WindowState::Tilt,
        status.tampered,
        status.problem,
    );
    encode_service_data_ad(header, payload_len)
}

/// Encode a periodic heartbeat advertisement as a complete BLE service-data AD structure.
pub fn encode_heartbeat_advertisement(
    buf: &mut [u8],
    packet_id: u8,
    env: EnvReading,
    status: WindowStatus,
) -> (len: usize)
    requires
        old(buf)@.len() >= 23,
    ensures
        len == 23,
        final(buf)@ == bthome::overwritten(
            old(buf)@,
            advertisement(heartbeat_payload(packet_id, env, status)),
        ),
{
    let (header, payload) = buf.split_at_mut(4);
    let payload_len: usize = bthome::encode_heartbeat(
        payload,
        packet_id,
        env.battery_soc_pct,
        env.temperature_cdeg,
        env.humidity_cpct,
        status.state != WindowState::Closed,
        status.state == WindowState::Tilt,
        status.tampered,
        status.problem,
    );
    encode_service_data_ad(header, payload_len)
}

/// Encode a BTHome button-event advertisement as a complete BLE service-data AD structure.
pub fn encode_button_advertisement(
    buf: &mut [u8],
    packet_id: u8,
    event: bthome::ButtonEvent,
) -> (len: usize)
    requires
        old(buf)@.len() >= 9,
    ensures
        len == 9,
        final(buf)@ == bthome::overwritten(
            old(buf)@,
            advertisement(bthome::button_payload(packet_id, event)),
        ),
{
    let (header, payload) = buf.split_at_mut(4);
    let payload_len: usize = bthome::encode_button_event(payload, packet_id, event);
    encode_service_data_ad(header, payload_len)
}

/// Fills in the header of the AD structure around a payload of `payload_len` bytes and returns
/// the length of the whole structure.
fn encode_service_data_ad(header: &mut [u8], payload_len: usize) -> (len: usize)
    requires
        old(header)@.len() == 4,
        payload_len <= 252,
    ensures
        len == payload_len + 4,
        final(header)@ == seq![
            (payload_len + 3) as u8,
            AD_TYPE_SERVICE_DATA_UUID16,
            bthome::BTHOME_UUID_LE[0],
            bthome::BTHOME_UUID_LE[1],
        ],
{
    header[0] = (payload_len + 3) as u8;
    header[1] = AD_TYPE_SERVICE_DATA_UUID16;
    header[2] = bthome::BTHOME_UUID_LE[0];
    header[3] = bthome::BTHOME_UUID_LE[1];
    payload_len + 4
}

/// What the service-data structure at the start of `data` says, if it is one for BTHome.
pub open spec fn read_advertisement(data: Seq<u8>) -> Option<Seq<bthome::Object>> {
    if data.len() >= 4 && data[0] >= 3 && data.len() >= data[0] + 1 && data[1]
        == AD_TYPE_SERVICE_DATA_UUID16 && data[2] == bthome::BTHOME_UUID_LE[0] && data[3]
        == bthome::BTHOME_UUID_LE[1] {
        bthome::read_payload(data.subrange(4, data[0] + 1))
    } else {
        None
    }
}

/// A payload of at most 27 bytes, wrapped as an advertisement, fits the 31 bytes of a legacy
/// advertising packet and is read back unchanged, whatever follows it in the buffer.
pub proof fn advertisement_reads_back(payload: Seq<u8>, rest: Seq<u8>)
    requires
        payload.len() <= 27,
    ensures
        advertisement(payload).len() <= 31,
        read_advertisement(advertisement(payload) + rest) == bthome::read_payload(payload),
{
    let data = advertisement(payload) + rest;
    assert(data.subrange(4, data[0] + 1) == payload);
}

/// Every advertisement fits a legacy advertising packet, and a receiver reads out of it exactly
/// the packet identifier, the reading and the status, or the button event, that went into it.
/// Of the status it learns whether the window is open at all, and whether it is tilted.
pub proof fn advertisements_tell_everything(
    packet_id: u8,
    env: EnvReading,
    status: WindowStatus,
    event: bthome::ButtonEvent,
    rest: Seq<u8>,
)
    ensures
        ({
            let told = bthome::status_said(
                status.state != WindowState::Closed,
                status.state == WindowState::Tilt,
                status.tampered,
                status.problem,
            );
            let state_ad = advertisement(state_payload(packet_id, status));
            let heartbeat_ad = advertisement(heartbeat_payload(packet_id, env, status));
            let button_ad = advertisement(bthome::button_payload(packet_id, event));
            &&& state_ad.len() == 15
            &&& heartbeat_ad.len() == 23
            &&& button_ad.len() == 9
            &&& read_advertisement(state_ad + rest) == Some(
                seq![bthome::Object::PacketId(packet_id)] + told,
            )
            &&& read_advertisement(heartbeat_ad + rest) == Some(
                seq![
                    bthome::Object::PacketId(packet_id),
                    bthome::Object::Battery(env.battery_soc_pct),
                    bthome::Object::TemperatureCdeg(env.temperature_cdeg as int),
                    bthome::Object::HumidityCpct(env.humidity_cpct as int),
                ] + told,
            )
            &&& read_advertisement(button_ad + rest) == Some(
                seq![bthome::Object::PacketId(packet_id), bthome::Object::Button(event.id())],
            )
        }),
{
    let open = status.state != WindowState::Closed;
    let tilt = status.state == WindowState::Tilt;
    bthome::state_payload_reads_back(packet_id, open, tilt, status.tampered, status.problem);
    bthome::heartbeat_payload_reads_back(
        packet_id,
        env.battery_soc_pct,
        env.temperature_cdeg,
        env.humidity_cpct,
        open,
        tilt,
        status.tampered,
        status.problem,
    );
    bthome::button_payload_reads_back(packet_id, event, event);
    advertisement_reads_back(state_payload(packet_id, status), rest);
    advertisement_reads_back(heartbeat_payload(packet_id, env, status), rest);
    advertisement_reads_back(bthome::button_payload(packet_id, event), rest);
}

/// Packet identifiers count up by one and start over after 255.
pub proof fn packet_ids_count_up(id: u8)
    ensures
        following(id) as int == (id as int + 1) % 256,
{
}

/// An advertisement is its payload behind four bytes: the number of bytes that follow the first,
/// the type for service data, and the BTHome identifier 0xFCD2 with its low byte first.
pub proof fn advertisements_are_framed(payload: Seq<u8>)
    requires
        payload.len() <= 252,
    ensures
        advertisement(payload).len() == payload.len() + 4,
        advertisement(payload)[0] == advertisement(payload).len() - 1,
        advertisement(payload)[1] == 0x16,
        advertisement(payload)[2] == 0xd2,
        advertisement(payload)[3] == 0xfc,
        advertisement(payload).skip(4) == payload,
{
}

} // verus!
