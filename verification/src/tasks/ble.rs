//! What is advertised, and when.
//!
//! The device only advertises. A change of the window goes out as a burst, everything else as a
//! single advertisement; each carries the next packet identifier.

use crate::advertising::{STATE_BURST_COUNT, STATE_BURST_INTERVAL_MS};
use crate::bthome;
use crate::bthome::ButtonEvent;
use crate::classifier::WindowState;
use crate::ota::OtaStatus;
use crate::setup::SetupState;
use crate::telemetry;
use crate::telemetry::{
    encode_button_advertisement, encode_heartbeat_advertisement, encode_state_advertisement,
    EnvReading, PacketCounter, WindowStatus,
};
use vstd::prelude::*;

verus! {

/// The size of a legacy advertising packet.
pub const ADV_DATA_LEN: usize = 31;

/// The advertising interval while an advertisement is on the air.
pub const ACTIVE_ADV_INTERVAL_MS: u32 = 20;

/// How long an advertisement is on the air.
pub const ACTIVE_ADV_WINDOW_MS: u64 = 60;

/// The pause after the radio failed.
pub const RETRY_DELAY_S: u64 = 5;

/// The data of one advertisement, filled up with zeros.
#[derive(Clone, Copy, Debug, PartialEq, Eq)]
pub struct Advert {
    data: [u8; ADV_DATA_LEN],
    len: usize,
}

impl View for Advert {
    type V = Seq<u8>;

    closed spec fn view(&self) -> Seq<u8> {
        self.data@.take(self.len as int)
    }
}

/// `bytes` filled up with zeros to the size of an advertising packet.
pub open spec fn padded(bytes: Seq<u8>) -> Seq<u8> {
    bytes + Seq::new((ADV_DATA_LEN - bytes.len()) as nat, |i: int| 0u8)
}

impl Advert {
    /// The data fits, and nothing follows it.
    pub closed spec fn wf(&self) -> bool {
        self.len <= ADV_DATA_LEN && self.data@ == padded(self@)
    }

    pub fn data(&self) -> (data: [u8; ADV_DATA_LEN])
        requires
            self.wf(),
        ensures
            data@ == padded(self@),
            self@.len() <= ADV_DATA_LEN,
    {
        self.data
    }

    pub fn len(&self) -> (len: usize)
        requires
            self.wf(),
        ensures
            len == self@.len(),
    {
        self.len
    }

    fn of_state(packet_id: u8, status: WindowStatus) -> (advert: Self)
        ensures
            advert.wf(),
            advert@ == telemetry::advertisement(telemetry::state_payload(packet_id, status)),
    {
        let mut data: [u8; ADV_DATA_LEN] = [0;ADV_DATA_LEN];
        let ghost blank = data@;
        let len: usize = encode_state_advertisement(&mut data, packet_id, status);
        let advert = Advert { data, len };
        proof {
            let sent = telemetry::advertisement(telemetry::state_payload(packet_id, status));
            assert(data@ == bthome::overwritten(blank, sent));
            assert(advert@ == sent);
            assert(data@ == padded(sent));
        }
        advert
    }

    fn of_heartbeat(packet_id: u8, env: EnvReading, status: WindowStatus) -> (advert: Self)
        ensures
            advert.wf(),
            advert@ == telemetry::advertisement(
                telemetry::heartbeat_payload(packet_id, env, status),
            ),
    {
        let mut data: [u8; ADV_DATA_LEN] = [0;ADV_DATA_LEN];
        let ghost blank = data@;
        let len: usize = encode_heartbeat_advertisement(&mut data, packet_id, env, status);
        let advert = Advert { data, len };
        proof {
            let sent = telemetry::advertisement(
                telemetry::heartbeat_payload(packet_id, env, status),
            );
            assert(data@ == bthome::overwritten(blank, sent));
            assert(advert@ == sent);
            assert(data@ == padded(sent));
        }
        advert
    }

    fn of_button(packet_id: u8, event: ButtonEvent) -> (advert: Self)
        ensures
            advert.wf(),
            advert@ == telemetry::advertisement(bthome::button_payload(packet_id, event)),
    {
        let mut data: [u8; ADV_DATA_LEN] = [0;ADV_DATA_LEN];
        let ghost blank = data@;
        let len: usize = encode_button_advertisement(&mut data, packet_id, event);
        let advert = Advert { data, len };
        proof {
            let sent = telemetry::advertisement(bthome::button_payload(packet_id, event));
            assert(data@ == bthome::overwritten(blank, sent));
            assert(advert@ == sent);
            assert(data@ == padded(sent));
        }
        advert
    }
}

/// The pause in milliseconds after transmission number `repeat` of a burst, counted from zero.
/// There is none after the last one.
pub fn burst_pause_ms(repeat: u8) -> (pause: Option<u32>)
    ensures
        pause == if repeat + 1 < STATE_BURST_COUNT {
            Some(STATE_BURST_INTERVAL_MS)
        } else {
            None
        },
        pause is Some <==> repeat < 9,
        pause is Some ==> pause->0 == 100,
{
    if repeat < STATE_BURST_COUNT - 1 {
        Some(STATE_BURST_INTERVAL_MS)
    } else {
        None
    }
}

/// What there is to send.
#[derive(Clone, Copy, Debug, PartialEq, Eq)]
pub enum BleAction {
    Quiet,
    /// Send the advertisement once.
    Once(Advert),
    /// Send the advertisement [`STATE_BURST_COUNT`] times.
    Burst(Advert),
}

/// What is advertised, as the packet on the air.
pub enum Sending {
    Quiet,
    Once(Seq<u8>),
    Burst(Seq<u8>),
}

impl View for BleAction {
    type V = Sending;

    open spec fn view(&self) -> Sending {
        match self {
            BleAction::Quiet => Sending::Quiet,
            BleAction::Once(advert) => Sending::Once(advert@),
            BleAction::Burst(advert) => Sending::Burst(advert@),
        }
    }
}

impl BleAction {
    pub open spec fn wf(&self) -> bool {
        match self {
            BleAction::Quiet => true,
            BleAction::Once(advert) => advert.wf(),
            BleAction::Burst(advert) => advert.wf(),
        }
    }
}

/// Decides what is advertised.
#[derive(Clone, Copy, Debug, PartialEq, Eq)]
pub struct BleMonitor {
    packet_counter: PacketCounter,
    status: WindowStatus,
    setup_state: SetupState,
}

/// What a [`BleMonitor`] goes by.
pub struct BleProgress {
    /// The identifier of the next packet.
    pub packet_id: u8,
    pub status: WindowStatus,
    pub setup_state: SetupState,
}

impl BleProgress {
    pub open spec fn telling(self, status: WindowStatus) -> Self {
        BleProgress { status, ..self }
    }

    pub open spec fn sent(self) -> Self {
        BleProgress { packet_id: telemetry::following(self.packet_id), ..self }
    }

    /// The packet that tells the status.
    pub open spec fn state_packet(self) -> Seq<u8> {
        telemetry::advertisement(telemetry::state_payload(self.packet_id, self.status))
    }

    /// With the window in another state. A closed window ends a tamper alarm.
    pub open spec fn with_window(self, state: WindowState, problem: bool) -> Self {
        self.telling(
            WindowStatus {
                state,
                tampered: self.status.tampered && state != WindowState::Closed,
                problem,
            },
        )
    }

    pub open spec fn with_problem(self, problem: bool) -> Self {
        self.telling(WindowStatus { problem, ..self.status })
    }

    /// With setup in another state. A need to calibrate again raises a tamper alarm, which ends
    /// with that need if the window is closed.
    pub open spec fn with_setup(self, setup_state: SetupState, problem: bool) -> Self {
        BleProgress {
            setup_state,
            status: WindowStatus {
                tampered: if setup_state == SetupState::NeedsRecalibration {
                    true
                } else {
                    self.status.tampered && !(self.setup_state == SetupState::NeedsRecalibration
                        && self.status.state == WindowState::Closed)
                },
                problem,
                ..self.status
            },
            ..self
        }
    }

    /// What a change of setup makes it send: a burst for a tamper alarm, one packet for any other
    /// change, nothing if setup stayed where it was.
    pub open spec fn on_setup(self, setup_state: SetupState, problem: bool) -> (Self, Sending) {
        let next = self.with_setup(setup_state, problem);
        if setup_state == SetupState::NeedsRecalibration {
            (next.sent(), Sending::Burst(next.state_packet()))
        } else if setup_state != self.setup_state {
            (next.sent(), Sending::Once(next.state_packet()))
        } else {
            (next, Sending::Quiet)
        }
    }
}

impl View for BleMonitor {
    type V = BleProgress;

    closed spec fn view(&self) -> BleProgress {
        BleProgress {
            packet_id: self.packet_counter@,
            status: self.status,
            setup_state: self.setup_state,
        }
    }
}

impl BleMonitor {
    pub fn new(problem: bool, setup_state: SetupState) -> (monitor: Self)
        ensures
            monitor@ == (BleProgress {
                packet_id: 0,
                status: WindowStatus { state: WindowState::Closed, tampered: false, problem },
                setup_state,
            }),
    {
        BleMonitor {
            packet_counter: PacketCounter::new(),
            status: WindowStatus { state: WindowState::Closed, tampered: false, problem },
            setup_state,
        }
    }

    /// The window is in another state.
    pub fn on_window(&mut self, state: WindowState, problem: bool) -> (action: BleAction)
        ensures
            action.wf(),
            final(self)@ == old(self)@.with_window(state, problem).sent(),
            action@ == Sending::Burst(old(self)@.with_window(state, problem).state_packet()),
    {
        self.status.state = state;
        self.status.problem = problem;
        if state == WindowState::Closed {
            self.status.tampered = false;
        }
        BleAction::Burst(Advert::of_state(self.packet_counter.next_packet_id(), self.status))
    }

    /// There is a new environment reading.
    pub fn on_environment(&mut self, env: EnvReading, problem: bool) -> (action: BleAction)
        ensures
            action.wf(),
            final(self)@ == old(self)@.with_problem(problem).sent(),
            action@ == Sending::Once(
                telemetry::advertisement(
                    telemetry::heartbeat_payload(
                        old(self)@.packet_id,
                        env,
                        old(self)@.with_problem(problem).status,
                    ),
                ),
            ),
    {
        self.status.problem = problem;
        BleAction::Once(
            Advert::of_heartbeat(self.packet_counter.next_packet_id(), env, self.status),
        )
    }

    /// The device was knocked on or held.
    pub fn on_button(&mut self, event: ButtonEvent) -> (action: BleAction)
        ensures
            action.wf(),
            final(self)@ == old(self)@.sent(),
            action@ == Sending::Once(
                telemetry::advertisement(bthome::button_payload(old(self)@.packet_id, event)),
            ),
    {
        BleAction::Once(Advert::of_button(self.packet_counter.next_packet_id(), event))
    }

    /// Setup has made a decision.
    pub fn on_setup(&mut self, setup_state: SetupState, problem: bool) -> (action: BleAction)
        ensures
            action.wf(),
            final(self)@ == old(self)@.on_setup(setup_state, problem).0,
            action@ == old(self)@.on_setup(setup_state, problem).1,
    {
        let previous = self.setup_state;
        self.setup_state = setup_state;
        self.status.problem = problem;
        if setup_state == SetupState::NeedsRecalibration {
            self.status.tampered = true;
            return BleAction::Burst(
                Advert::of_state(self.packet_counter.next_packet_id(), self.status),
            );
        }
        if previous == SetupState::NeedsRecalibration && self.status.state == WindowState::Closed {
            self.status.tampered = false;
        }
        if previous != setup_state {
            BleAction::Once(Advert::of_state(self.packet_counter.next_packet_id(), self.status))
        } else {
            BleAction::Quiet
        }
    }
}

pub fn should_prioritize_calibration(setup: SetupState) -> (prioritize: bool)
    ensures
        prioritize == setup.needs_calibration(),
{
    setup.calibration_required()
}

pub fn should_advertise_ota(status: OtaStatus) -> (advertise: bool)
    ensures
        advertise == status.advertise_ota,
{
    status.advertise_ota
}

pub fn should_confirm_running_image(status: OtaStatus) -> (confirm: bool)
    ensures
        confirm == status.confirm_running_image,
{
    status.confirm_running_image
}

/// The Bluetooth device address for the two words of the factory address: its six lowest bytes,
/// least significant first, with the two highest bits set as in every static random address.
pub open spec fn address_of(low: u32, high: u32) -> Seq<u8> {
    crate::bytes::le32(low) + seq![(high % 256) as u8, ((high / 256 % 256) as u8) | 0xc0]
}

pub fn bd_addr(low: u32, high: u32) -> (address: [u8; 6])
    ensures
        address@ == address_of(low, high),
{
    let low_bytes = crate::bytes::u32_to_le(low);
    let high_bytes = crate::bytes::u32_to_le(high);
    [
        low_bytes[0],
        low_bytes[1],
        low_bytes[2],
        low_bytes[3],
        high_bytes[0],
        high_bytes[1] | 0xc0,
    ]
}

/// Whatever the factory address is, the device address is a static random one.
pub proof fn address_is_static_random(low: u32, high: u32)
    ensures
        address_of(low, high).len() == 6,
        address_of(low, high)[5] >= 0xc0,
{
    let byte = (high / 256 % 256) as u8;
    assert(byte | 0xc0 >= 0xc0) by (bit_vector);
}

/// Every packet carries the identifier after that of the packet before it, and nothing that is
/// not sent uses one up.
pub proof fn packets_are_numbered_in_order(
    progress: BleProgress,
    state: WindowState,
    setup_state: SetupState,
    problem: bool,
)
    ensures
        progress.with_window(state, problem).packet_id == progress.packet_id,
        progress.with_problem(problem).packet_id == progress.packet_id,
        progress.sent().packet_id == telemetry::following(progress.packet_id),
        ({
            let (next, sending) = progress.on_setup(setup_state, problem);
            next.packet_id == if sending is Quiet {
                progress.packet_id
            } else {
                telemetry::following(progress.packet_id)
            }
        }),
{
}

/// A tamper alarm is raised when, and only when, the device has to be calibrated again. It ends
/// when the window closes, or with that need while the window is closed, and never otherwise.
pub proof fn tamper_alarm_follows_setup_and_window(
    progress: BleProgress,
    state: WindowState,
    setup_state: SetupState,
    problem: bool,
)
    ensures
        ({
            let moved = progress.with_window(state, problem).status;
            &&& moved.tampered <==> progress.status.tampered && state != WindowState::Closed
            &&& moved.state == state
        }),
        ({
            let set_up = progress.on_setup(setup_state, problem).0.status;
            &&& setup_state == SetupState::NeedsRecalibration ==> set_up.tampered
            &&& !progress.status.tampered && set_up.tampered ==> setup_state
                == SetupState::NeedsRecalibration
            &&& progress.status.tampered && !set_up.tampered ==> progress.setup_state
                == SetupState::NeedsRecalibration && progress.status.state == WindowState::Closed
            &&& set_up.state == progress.status.state
        }),
        progress.with_problem(problem).status.tampered == progress.status.tampered,
{
}

/// A receiver reads out of every state packet, padded as it is on the air, exactly the status
/// that the device has in mind.
pub proof fn state_packets_tell_the_status(progress: BleProgress)
    ensures
        padded(progress.state_packet()).len() == ADV_DATA_LEN,
        telemetry::read_advertisement(padded(progress.state_packet())) == Some(
            seq![bthome::Object::PacketId(progress.packet_id)] + bthome::status_said(
                progress.status.state != WindowState::Closed,
                progress.status.state == WindowState::Tilt,
                progress.status.tampered,
                progress.status.problem,
            ),
        ),
{
    let packet = progress.state_packet();
    let rest = Seq::new((ADV_DATA_LEN - packet.len()) as nat, |i: int| 0u8);
    let env = EnvReading { temperature_cdeg: 0, humidity_cpct: 0, battery_soc_pct: 0 };
    telemetry::advertisements_tell_everything(
        progress.packet_id,
        env,
        progress.status,
        ButtonEvent::Press,
        rest,
    );
}

/// What a decision of setup sends, told by what a receiver reads: the status with the new problem
/// flag under the identifier that was next. The alarm is on if the device has to be calibrated
/// again, and stays as it was otherwise, but ends with that need at a closed window. A need to
/// calibrate again always goes out as a burst, any other change once, and no change not at all.
pub proof fn setup_is_told_to_receivers(
    progress: BleProgress,
    setup_state: SetupState,
    problem: bool,
)
    ensures
        ({
            let (next, sending) = progress.on_setup(setup_state, problem);
            let closed = progress.status.state == WindowState::Closed;
            let packet = match sending {
                Sending::Quiet => Seq::empty(),
                Sending::Once(packet) => packet,
                Sending::Burst(packet) => packet,
            };
            &&& sending is Burst <==> setup_state == SetupState::NeedsRecalibration
            &&& sending is Quiet <==> setup_state != SetupState::NeedsRecalibration && setup_state
                == progress.setup_state
            &&& next.setup_state == setup_state
            &&& next.status.problem == problem
            &&& next.status.state == progress.status.state
            &&& next.status.tampered <==> {
                ||| setup_state == SetupState::NeedsRecalibration
                ||| progress.status.tampered && !(progress.setup_state
                    == SetupState::NeedsRecalibration && closed)
            }
            &&& sending is Quiet ==> next.packet_id == progress.packet_id
            &&& sending !is Quiet ==> next.packet_id as int == (progress.packet_id + 1) % 256
            &&& sending !is Quiet ==> telemetry::read_advertisement(padded(packet)) == Some(
                seq![bthome::Object::PacketId(progress.packet_id)] + bthome::status_said(
                    !closed,
                    progress.status.state == WindowState::Tilt,
                    next.status.tampered,
                    problem,
                ),
            )
        }),
{
    let told = progress.with_setup(setup_state, problem);
    state_packets_tell_the_status(told);
}

/// A change of the window is told with the new state and problem flag under the next identifier;
/// setup does not move. A problem flag changes nothing else in the status.
pub proof fn windows_are_told_to_receivers(progress: BleProgress, state: WindowState, problem: bool)
    ensures
        ({
            let told = progress.with_window(state, problem);
            let tampered = progress.status.tampered && state != WindowState::Closed;
            &&& told.status == (WindowStatus { state, tampered, problem })
            &&& told.setup_state == progress.setup_state
            &&& told.sent().status == told.status
            &&& told.sent().setup_state == progress.setup_state
            &&& told.sent().packet_id as int == (progress.packet_id + 1) % 256
            &&& telemetry::read_advertisement(padded(told.state_packet())) == Some(
                seq![bthome::Object::PacketId(progress.packet_id)] + bthome::status_said(
                    state != WindowState::Closed,
                    state == WindowState::Tilt,
                    tampered,
                    problem,
                ),
            )
        }),
        ({
            let flagged = progress.with_problem(problem);
            &&& flagged.status == (WindowStatus { problem, ..progress.status })
            &&& flagged.setup_state == progress.setup_state
        }),
{
    state_packets_tell_the_status(progress.with_window(state, problem));
}

/// A packet on the air is 31 bytes: the data, and zeros after it.
pub proof fn packets_are_padded_with_zeros(bytes: Seq<u8>, i: int)
    requires
        bytes.len() <= 31,
    ensures
        padded(bytes).len() == 31,
        padded(bytes).take(bytes.len() as int) == bytes,
        bytes.len() <= i < 31 ==> padded(bytes)[i] == 0,
{
}

/// The device address is the factory address, least significant byte first, but for its two
/// highest bits, which are set: the top byte differs by what it lacks of them.
pub proof fn address_keeps_the_factory_bits(low: u32, high: u32)
    ensures
        ({
            let address = address_of(low, high);
            &&& address[0] + 256 * address[1] + 65_536 * address[2] + 16_777_216 * address[3] == low
            &&& address[4] as int == high as int % 256
            &&& address[5] as int % 64 == high as int / 256 % 64
            &&& address[5] >= 192
        }),
{
    crate::bytes::le_round_trip(0, low, 0);
    let byte = (high / 256 % 256) as u8;
    assert(byte | 0xc0 >= 0xc0 && (byte | 0xc0) % 64 == byte % 64) by (bit_vector);
}

} // verus!
