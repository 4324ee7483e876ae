//! BTHome v2 payload encoder.
//!
//! Encodes window state, environmental data, and device status into
//! BTHome v2 service data format for BLE advertising.

pub mod obj_id;

use crate::bytes;
use vstd::prelude::*;

verus! {

#[derive(Clone, Copy, Debug, PartialEq, Eq, Structural)]
pub enum ButtonEvent {
    Press,
    DoublePress,
    TriplePress,
    LongPress,
    HoldPress,
}

impl ButtonEvent {
    /// The BTHome identifier of the event.
    pub open spec fn id(self) -> u8 {
        match self {
            ButtonEvent::Press => 0x01,
            ButtonEvent::DoublePress => 0x02,
            ButtonEvent::TriplePress => 0x03,
            ButtonEvent::LongPress => 0x04,
            ButtonEvent::HoldPress => 0x80,
        }
    }

    pub fn event_id(self) -> (id: u8)
        ensures
            id == self.id(),
    {
        match self {
            ButtonEvent::Press => 0x01,
            ButtonEvent::DoublePress => 0x02,
            ButtonEvent::TriplePress => 0x03,
            ButtonEvent::LongPress => 0x04,
            ButtonEvent::HoldPress => 0x80,
        }
    }
}

/// BTHome v2 device information byte
/// Bits 7-5: version (010 = v2)
/// Bit 2: trigger-based (1 = yes)
/// Bit 0: encryption (0 = no)
pub const DEVICE_INFO: u8 = 0x44;  // 0b0100_0100

/// BTHome UUID (little-endian for BLE advertisement)
pub const BTHOME_UUID_LE: [u8; 2] = [0xD2, 0xFC];  // 0xFCD2 in LE

/// The byte that stands for a flag.
pub open spec fn flag(value: bool) -> u8 {
    if value {
        1
    } else {
        0
    }
}

/// The objects that tell the state of the window.
pub open spec fn status_objects(
    window_open: bool,
    is_tilt: bool,
    tampered: bool,
    problem: bool,
) -> Seq<u8> {
    seq![
        obj_id::GENERIC_BOOLEAN,
        flag(is_tilt),
        obj_id::PROBLEM,
        flag(problem),
        obj_id::TAMPER,
        flag(tampered),
        obj_id::WINDOW,
        flag(window_open),
    ]
}

/// The payload of a state-change event.
pub open spec fn state_payload(
    packet_id: u8,
    window_open: bool,
    is_tilt: bool,
    tampered: bool,
    problem: bool,
) -> Seq<u8> {
    seq![DEVICE_INFO, obj_id::PACKET_ID, packet_id] + status_objects(
        window_open,
        is_tilt,
        tampered,
        problem,
    )
}

/// The payload of a heartbeat.
pub open spec fn heartbeat_payload(
    packet_id: u8,
    battery_pct: u8,
    temp_cdeg: i16,
    humidity_cpct: u16,
    window_open: bool,
    is_tilt: bool,
    tampered: bool,
    problem: bool,
) -> Seq<u8> {
    seq![DEVICE_INFO, obj_id::PACKET_ID, packet_id, obj_id::BATTERY, battery_pct]
        + seq![obj_id::TEMPERATURE] + bytes::le16(bytes::twos_complement(temp_cdeg))
        + seq![obj_id::HUMIDITY] + bytes::le16(humidity_cpct) + status_objects(
        window_open,
        is_tilt,
        tampered,
        problem,
    )
}

/// The payload of a button event.
pub open spec fn button_payload(packet_id: u8, event: ButtonEvent) -> Seq<u8> {
    seq![DEVICE_INFO, obj_id::PACKET_ID, packet_id, obj_id::BUTTON_EVENT, event.id()]
}

/// A buffer with `payload` written over its start.
pub open spec fn overwritten(buf: Seq<u8>, payload: Seq<u8>) -> Seq<u8> {
    payload + buf.skip(payload.len() as int)
}

fn flag_byte(value: bool) -> (byte: u8)
    ensures
        byte == flag(value),
{
    if value {
        1
    } else {
        0
    }
}

/// Encode a window state-change event into BTHome v2 payload.
/// Returns the number of bytes written to `buf`.
pub fn encode_state_event(
    buf: &mut [u8],
    packet_id: u8,
    window_open: bool,
    is_tilt: bool,
    tampered: bool,
    problem: bool,
) -> (len: usize)
    requires
        old(buf)@.len() >= 11,
    ensures
        len == 11,
        final(buf)@ == overwritten(
            old(buf)@,
            state_payload(packet_id, window_open, is_tilt, tampered, problem),
        ),
{
    buf[0] = DEVICE_INFO;
    buf[1] = obj_id::PACKET_ID;
    buf[2] = packet_id;
    buf[3] = obj_id::GENERIC_BOOLEAN;
    buf[4] = flag_byte(is_tilt);
    buf[5] = obj_id::PROBLEM;
    buf[6] = flag_byte(problem);
    buf[7] = obj_id::TAMPER;
    buf[8] = flag_byte(tampered);
    buf[9] = obj_id::WINDOW;
    buf[10] = flag_byte(window_open);
    11
}

/// Encode a heartbeat payload (periodic environmental report).
/// Returns the number of bytes written to `buf`.
pub fn encode_heartbeat(
    buf: &mut [u8],
    packet_id: u8,
    battery_pct: u8,
    temp_cdeg: i16,
    humidity_cpct: u16,
    window_open: bool,
    is_tilt: bool,
    tampered: bool,
    problem: bool,
) -> (len: usize)
    requires
        old(buf)@.len() >= 19,
    ensures
        len == 19,
        final(buf)@ == overwritten(
            old(buf)@,
            heartbeat_payload(
                packet_id,
                battery_pct,
                temp_cdeg,
                humidity_cpct,
                window_open,
                is_tilt,
                tampered,
                problem,
            ),
        ),
{
    buf[0] = DEVICE_INFO;
    buf[1] = obj_id::PACKET_ID;
    buf[2] = packet_id;
    buf[3] = obj_id::BATTERY;
    buf[4] = battery_pct;
    // Temperature: sint16 LE, factor 0.01°C
    buf[5] = obj_id::TEMPERATURE;
    let t_bytes = bytes::i16_to_le(temp_cdeg);
    buf[6] = t_bytes[0];
    buf[7] = t_bytes[1];
    // Humidity: uint16 LE, factor 0.01%
    buf[8] = obj_id::HUMIDITY;
    let h_bytes = bytes::u16_to_le(humidity_cpct);
    buf[9] = h_bytes[0];
    buf[10] = h_bytes[1];
    buf[11] = obj_id::GENERIC_BOOLEAN;
    buf[12] = flag_byte(is_tilt);
    buf[13] = obj_id::PROBLEM;
    buf[14] = flag_byte(problem);
    buf[15] = obj_id::TAMPER;
    buf[16] = flag_byte(tampered);
    buf[17] = obj_id::WINDOW;
    buf[18] = flag_byte(window_open);
    19
}

/// Encode a button event into BTHome v2 payload.
/// Returns the number of bytes written to `buf`.
pub fn encode_button_event(buf: &mut [u8], packet_id: u8, event: ButtonEvent) -> (len: usize)
    requires
        old(buf)@.len() >= 5,
    ensures
        len == 5,
        final(buf)@ == overwritten(old(buf)@, button_payload(packet_id, event)),
{
    buf[0] = DEVICE_INFO;
    buf[1] = obj_id::PACKET_ID;
    buf[2] = packet_id;
    buf[3] = obj_id::BUTTON_EVENT;
    buf[4] = event.event_id();
    5
}

/// What one object of a payload says.
pub enum Object {
    PacketId(u8),
    Battery(u8),
    TemperatureCdeg(int),
    HumidityCpct(int),
    GenericBoolean(bool),
    Problem(bool),
    Tamper(bool),
    WindowOpen(bool),
    Button(u8),
}

/// The object at the start of `data` and the number of bytes that it takes, if there is one.
pub open spec fn first_object(data: Seq<u8>) -> Option<(Object, int)> {
    if data.len() < 2 {
        None
    } else if data[0] == obj_id::PACKET_ID {
        Some((Object::PacketId(data[1]), 2))
    } else if data[0] == obj_id::BATTERY {
        Some((Object::Battery(data[1]), 2))
    } else if data[0] == obj_id::BUTTON_EVENT {
        Some((Object::Button(data[1]), 2))
    } else if data[0] == obj_id::TEMPERATURE && data.len() >= 3 {
        let raw = bytes::from_le16(data[1], data[2]);
        Some((Object::TemperatureCdeg(bytes::from_twos_complement(raw)), 3))
    } else if data[0] == obj_id::HUMIDITY && data.len() >= 3 {
        Some((Object::HumidityCpct(bytes::from_le16(data[1], data[2])), 3))
    } else if data[1] > 1 {
        None
    } else if data[0] == obj_id::GENERIC_BOOLEAN {
        Some((Object::GenericBoolean(data[1] == 1), 2))
    } else if data[0] == obj_id::PROBLEM {
        Some((Object::Problem(data[1] == 1), 2))
    } else if data[0] == obj_id::TAMPER {
        Some((Object::Tamper(data[1] == 1), 2))
    } else if data[0] == obj_id::WINDOW {
        Some((Object::WindowOpen(data[1] == 1), 2))
    } else {
        None
    }
}

/// The objects of `data` one after the other, or nothing if it is not made of objects.
pub open spec fn objects(data: Seq<u8>) -> Option<Seq<Object>>
    decreases data.len(),
{
    if data.len() == 0 {
        Some(Seq::empty())
    } else {
        match first_object(data) {
            Some((object, taken)) if 0 < taken <= data.len() => match objects(data.skip(taken)) {
                Some(rest) => Some(seq![object] + rest),
                None => None,
            },
            _ => None,
        }
    }
}

/// What a payload says: nothing unless it starts with the device information byte.
pub open spec fn read_payload(payload: Seq<u8>) -> Option<Seq<Object>> {
    if payload.len() > 0 && payload[0] == DEVICE_INFO {
        objects(payload.skip(1))
    } else {
        None
    }
}

/// An object followed by more objects reads as that object and then the others.
proof fn lemma_objects_chain(head: Seq<u8>, object: Object, rest: Seq<u8>, others: Seq<Object>)
    requires
        first_object(head + rest) == Some((object, head.len() as int)),
        head.len() > 0,
        objects(rest) == Some(others),
    ensures
        objects(head + rest) == Some(seq![object] + others),
{
    assert((head + rest).skip(head.len() as int) == rest);
}

/// What the objects that tell the state of the window say.
pub open spec fn status_said(
    window_open: bool,
    is_tilt: bool,
    tampered: bool,
    problem: bool,
) -> Seq<Object> {
    seq![
        Object::GenericBoolean(is_tilt),
        Object::Problem(problem),
        Object::Tamper(tampered),
        Object::WindowOpen(window_open),
    ]
}

proof fn lemma_status_objects(window_open: bool, is_tilt: bool, tampered: bool, problem: bool)
    ensures
        objects(status_objects(window_open, is_tilt, tampered, problem)) == Some(
            status_said(window_open, is_tilt, tampered, problem),
        ),
{
    let window = seq![obj_id::WINDOW, flag(window_open)];
    let tamper = seq![obj_id::TAMPER, flag(tampered)];
    let trouble = seq![obj_id::PROBLEM, flag(problem)];
    let tilt = seq![obj_id::GENERIC_BOOLEAN, flag(is_tilt)];
    let said_0 = Seq::<Object>::empty();
    let none = Seq::<u8>::empty();
    lemma_objects_chain(window, Object::WindowOpen(window_open), none, said_0);
    let said_1 = seq![Object::WindowOpen(window_open)] + said_0;
    lemma_objects_chain(tamper, Object::Tamper(tampered), window + none, said_1);
    let said_2 = seq![Object::Tamper(tampered)] + said_1;
    lemma_objects_chain(trouble, Object::Problem(problem), tamper + (window + none), said_2);
    let said_3 = seq![Object::Problem(problem)] + said_2;
    lemma_objects_chain(
        tilt,
        Object::GenericBoolean(is_tilt),
        trouble + (tamper + (window + none)),
        said_3,
    );
    assert(tilt + (trouble + (tamper + (window + none))) == status_objects(
        window_open,
        is_tilt,
        tampered,
        problem,
    ));
    assert(seq![Object::GenericBoolean(is_tilt)] + said_3 == status_said(
        window_open,
        is_tilt,
        tampered,
        problem,
    ));
}

/// A state-change payload reads back as what was encoded.
pub proof fn state_payload_reads_back(
    packet_id: u8,
    window_open: bool,
    is_tilt: bool,
    tampered: bool,
    problem: bool,
)
    ensures
        read_payload(state_payload(packet_id, window_open, is_tilt, tampered, problem)) == Some(
            seq![Object::PacketId(packet_id)] + status_said(
                window_open,
                is_tilt,
                tampered,
                problem,
            ),
        ),
{
    let payload = state_payload(packet_id, window_open, is_tilt, tampered, problem);
    let status = status_objects(window_open, is_tilt, tampered, problem);
    lemma_status_objects(window_open, is_tilt, tampered, problem);
    lemma_objects_chain(
        seq![obj_id::PACKET_ID, packet_id],
        Object::PacketId(packet_id),
        status,
        status_said(window_open, is_tilt, tampered, problem),
    );
    assert(payload.skip(1) == seq![obj_id::PACKET_ID, packet_id] + status);
}

/// A heartbeat payload reads back as what was encoded.
pub proof fn heartbeat_payload_reads_back(
    packet_id: u8,
    battery_pct: u8,
    temp_cdeg: i16,
    humidity_cpct: u16,
    window_open: bool,
    is_tilt: bool,
    tampered: bool,
    problem: bool,
)
    ensures
        read_payload(
            heartbeat_payload(
                packet_id,
                battery_pct,
                temp_cdeg,
                humidity_cpct,
                window_open,
                is_tilt,
                tampered,
                problem,
            ),
        ) == Some(
            seq![
                Object::PacketId(packet_id),
                Object::Battery(battery_pct),
                Object::TemperatureCdeg(temp_cdeg as int),
                Object::HumidityCpct(humidity_cpct as int),
            ] + status_said(window_open, is_tilt, tampered, problem),
        ),
{
    let payload = heartbeat_payload(
        packet_id,
        battery_pct,
        temp_cdeg,
        humidity_cpct,
        window_open,
        is_tilt,
        tampered,
        problem,
    );
    let t = bytes::le16(bytes::twos_complement(temp_cdeg));
    let h = bytes::le16(humidity_cpct);
    bytes::le_round_trip(bytes::twos_complement(temp_cdeg), 0, temp_cdeg);
    bytes::le_round_trip(humidity_cpct, 0, 0);
    let status = status_objects(window_open, is_tilt, tampered, problem);
    let said_0 = status_said(window_open, is_tilt, tampered, problem);
    lemma_status_objects(window_open, is_tilt, tampered, problem);
    let humidity = seq![obj_id::HUMIDITY, h[0], h[1]];
    let temperature = seq![obj_id::TEMPERATURE, t[0], t[1]];
    let battery = seq![obj_id::BATTERY, battery_pct];
    let packet = seq![obj_id::PACKET_ID, packet_id];
    lemma_objects_chain(humidity, Object::HumidityCpct(humidity_cpct as int), status, said_0);
    let said_1 = seq![Object::HumidityCpct(humidity_cpct as int)] + said_0;
    lemma_objects_chain(
        temperature,
        Object::TemperatureCdeg(temp_cdeg as int),
        humidity + status,
        said_1,
    );
    let said_2 = seq![Object::TemperatureCdeg(temp_cdeg as int)] + said_1;
    lemma_objects_chain(
        battery,
        Object::Battery(battery_pct),
        temperature + (humidity + status),
        said_2,
    );
    let said_3 = seq![Object::Battery(battery_pct)] + said_2;
    lemma_objects_chain(
        packet,
        Object::PacketId(packet_id),
        battery + (temperature + (humidity + status)),
        said_3,
    );
    assert(payload.skip(1) == packet + (battery + (temperature + (humidity + status))));
    assert(seq![Object::PacketId(packet_id)] + said_3 == seq![
        Object::PacketId(packet_id),
        Object::Battery(battery_pct),
        Object::TemperatureCdeg(temp_cdeg as int),
        Object::HumidityCpct(humidity_cpct as int),
    ] + said_0);
}

/// A button payload reads back as what was encoded, and tells the five events apart.
pub proof fn button_payload_reads_back(packet_id: u8, event: ButtonEvent, other: ButtonEvent)
    ensures
        read_payload(button_payload(packet_id, event)) == Some(
            seq![Object::PacketId(packet_id), Object::Button(event.id())],
        ),
        event.id() == other.id() ==> event == other,
{
    let payload = button_payload(packet_id, event);
    let button = seq![obj_id::BUTTON_EVENT, event.id()];
    let packet = seq![obj_id::PACKET_ID, packet_id];
    let none = Seq::<u8>::empty();
    let said_0 = Seq::<Object>::empty();
    lemma_objects_chain(button, Object::Button(event.id()), none, said_0);
    let said_1 = seq![Object::Button(event.id())] + said_0;
    lemma_objects_chain(packet, Object::PacketId(packet_id), button + none, said_1);
    assert(payload.skip(1) == packet + (button + none));
    assert(seq![Object::PacketId(packet_id)] + said_1 == seq![
        Object::PacketId(packet_id),
        Object::Button(event.id()),
    ]);
}

/// The object identifier that an object is sent under.
pub open spec fn object_id(object: Object) -> u8 {
    match object {
        Object::PacketId(_) => obj_id::PACKET_ID,
        Object::Battery(_) => obj_id::BATTERY,
        Object::TemperatureCdeg(_) => obj_id::TEMPERATURE,
        Object::HumidityCpct(_) => obj_id::HUMIDITY,
        Object::GenericBoolean(_) => obj_id::GENERIC_BOOLEAN,
        Object::Problem(_) => obj_id::PROBLEM,
        Object::Tamper(_) => obj_id::TAMPER,
        Object::WindowOpen(_) => obj_id::WINDOW,
        Object::Button(_) => obj_id::BUTTON_EVENT,
    }
}

/// Whether objects come in the order of their identifiers, none of them twice.
pub open spec fn ordered(objects: Seq<Object>) -> bool {
    forall|i: int, j: int|
        0 <= i < j < objects.len() ==> object_id(#[trigger] objects[i]) < object_id(
            #[trigger] objects[j],
        )
}

/// The objects of every payload come in the order of their identifiers, as BTHome asks.
pub proof fn payload_objects_are_ordered(
    packet_id: u8,
    battery_pct: u8,
    temp_cdeg: i16,
    humidity_cpct: u16,
    window_open: bool,
    is_tilt: bool,
    tampered: bool,
    problem: bool,
    event: ButtonEvent,
)
    ensures
        ordered(
            read_payload(state_payload(packet_id, window_open, is_tilt, tampered, problem))->0,
        ),
        ordered(
            read_payload(
                heartbeat_payload(
                    packet_id,
                    battery_pct,
                    temp_cdeg,
                    humidity_cpct,
                    window_open,
                    is_tilt,
                    tampered,
                    problem,
                ),
            )->0,
        ),
        ordered(read_payload(button_payload(packet_id, event))->0),
{
    state_payload_reads_back(packet_id, window_open, is_tilt, tampered, problem);
    heartbeat_payload_reads_back(
        packet_id,
        battery_pct,
        temp_cdeg,
        humidity_cpct,
        window_open,
        is_tilt,
        tampered,
        problem,
    );
    button_payload_reads_back(packet_id, event, event);
}

/// The presses are numbered by how often the button was pressed, a long press is the fourth, and
/// a hold has the top bit alone.
pub proof fn button_events_have_their_numbers(event: ButtonEvent)
    ensures
        event.id() == 1 <==> event == ButtonEvent::Press,
        event.id() == 2 <==> event == ButtonEvent::DoublePress,
        event.id() == 3 <==> event == ButtonEvent::TriplePress,
        event.id() == 4 <==> event == ButtonEvent::LongPress,
        event.id() == 128 <==> event == ButtonEvent::HoldPress,
{
}

/// Every payload starts with the device information of an unencrypted, trigger-based second
/// version, and flags are sent as one and zero. A buffer keeps its length and everything beyond
/// the payload.
pub proof fn payloads_are_framed(
    packet_id: u8,
    battery_pct: u8,
    temp_cdeg: i16,
    humidity_cpct: u16,
    window_open: bool,
    is_tilt: bool,
    tampered: bool,
    problem: bool,
    event: ButtonEvent,
    buffer: Seq<u8>,
    payload: Seq<u8>,
)
    requires
        payload.len() <= buffer.len(),
    ensures
        ({
            let state = state_payload(packet_id, window_open, is_tilt, tampered, problem);
            let heartbeat = heartbeat_payload(
                packet_id,
                battery_pct,
                temp_cdeg,
                humidity_cpct,
                window_open,
                is_tilt,
                tampered,
                problem,
            );
            let button = button_payload(packet_id, event);
            &&& state.len() == 11 && state[0] == 0x44 && state[2] == packet_id
            &&& heartbeat.len() == 19 && heartbeat[0] == 0x44 && heartbeat[2] == packet_id
            &&& button.len() == 5 && button[0] == 0x44 && button[2] == packet_id
            &&& heartbeat[4] == battery_pct
            &&& heartbeat[9] + 256 * heartbeat[10] == humidity_cpct
            &&& (heartbeat[6] + 256 * heartbeat[7] - temp_cdeg) % 65_536 == 0
            &&& state[4] == 1 <==> is_tilt
            &&& state[6] == 1 <==> problem
            &&& state[8] == 1 <==> tampered
            &&& state[10] == 1 <==> window_open
            &&& heartbeat.skip(11) == state.skip(3)
            &&& button[4] == event.id()
        }),
        overwritten(buffer, payload).len() == buffer.len(),
        overwritten(buffer, payload).take(payload.len() as int) == payload,
        overwritten(buffer, payload).skip(payload.len() as int) == buffer.skip(
            payload.len() as int,
        ),
{
    bytes::le_round_trip(humidity_cpct, 0, temp_cdeg);
    bytes::le_round_trip(bytes::twos_complement(temp_cdeg), 0, temp_cdeg);
}

} // verus!
