//! Central MEMS configuration and intrusion detection.
//!
//! Values intentionally mirror the raw LIS2DTW12 driver API, so that the production IDS and knock
//! behavior is configurable.

use crate::history;
use crate::mems_button::MemsButtonConfig;
use crate::setup::SetupState;
use vstd::prelude::*;

verus! {

pub const IDS_EVENT_HISTORY_LEN: usize = 8;

#[derive(Clone, Copy, Debug, PartialEq, Eq, Structural)]
pub enum MemsOrientationThreshold {
    Deg50,
    Deg60,
    Deg70,
    Deg80,
}

impl Default for MemsOrientationThreshold {
    fn default() -> (threshold: Self)
        ensures
            threshold == MemsOrientationThreshold::Deg70,
    {
        MemsOrientationThreshold::Deg70
    }
}

#[derive(Clone, Copy, Debug, PartialEq, Eq, Structural)]
pub enum IdsSensitivityProfile {
    Conservative,
    Balanced,
    Aggressive,
}

impl Default for IdsSensitivityProfile {
    fn default() -> (profile: Self)
        ensures
            profile == IdsSensitivityProfile::Balanced,
    {
        IdsSensitivityProfile::Balanced
    }
}

#[derive(Clone, Copy, Debug, PartialEq, Eq, Structural)]
pub struct IdsConfig {
    pub orientation_change_tamper: bool,
    pub wake_event_count: usize,
    pub wake_window_ms: u64,
    pub tap_event_count: usize,
    pub tap_window_ms: u64,
}

impl IdsConfig {
    /// The tuning of a sensitivity profile.
    pub open spec fn tuned(profile: IdsSensitivityProfile) -> Self {
        match profile {
            IdsSensitivityProfile::Conservative => IdsConfig {
                orientation_change_tamper: true,
                wake_event_count: 4,
                wake_window_ms: 4_000,
                tap_event_count: 5,
                tap_window_ms: 2_000,
            },
            IdsSensitivityProfile::Balanced => IdsConfig {
                orientation_change_tamper: true,
                wake_event_count: 3,
                wake_window_ms: 2_500,
                tap_event_count: 4,
                tap_window_ms: 1_500,
            },
            IdsSensitivityProfile::Aggressive => IdsConfig {
                orientation_change_tamper: true,
                wake_event_count: 2,
                wake_window_ms: 1_500,
                tap_event_count: 3,
                tap_window_ms: 1_200,
            },
        }
    }

    pub fn for_profile(profile: IdsSensitivityProfile) -> (config: Self)
        ensures
            config == Self::tuned(profile),
    {
        match profile {
            IdsSensitivityProfile::Conservative => IdsConfig {
                orientation_change_tamper: true,
                wake_event_count: 4,
                wake_window_ms: 4_000,
                tap_event_count: 5,
                tap_window_ms: 2_000,
            },
            IdsSensitivityProfile::Balanced => IdsConfig {
                orientation_change_tamper: true,
                wake_event_count: 3,
                wake_window_ms: 2_500,
                tap_event_count: 4,
                tap_window_ms: 1_500,
            },
            IdsSensitivityProfile::Aggressive => IdsConfig {
                orientation_change_tamper: true,
                wake_event_count: 2,
                wake_window_ms: 1_500,
                tap_event_count: 3,
                tap_window_ms: 1_200,
            },
        }
    }
}

impl Default for IdsConfig {
    fn default() -> (config: Self)
        ensures
            config == Self::tuned(IdsSensitivityProfile::Balanced),
    {
        Self::for_profile(IdsSensitivityProfile::default())
    }
}

#[derive(Clone, Copy, Debug, PartialEq, Eq, Structural)]
pub enum IdsSignal {
    Wake,
    Tap,
    OrientationChange,
}

#[derive(Clone, Copy, Debug, PartialEq, Eq, Structural)]
pub enum IdsTrigger {
    WakeBurst,
    TapBurst,
    OrientationChange,
}

#[derive(Clone, Copy, Debug, PartialEq, Eq)]
pub struct IdsDetector {
    config: IdsConfig,
    wakes_ms: [u64; IDS_EVENT_HISTORY_LEN],
    wake_len: usize,
    taps_ms: [u64; IDS_EVENT_HISTORY_LEN],
    tap_len: usize,
}

/// The events that an [`IdsDetector`] remembers, of each kind oldest first.
#[verifier::ext_equal]
pub struct IdsMemory {
    pub config: IdsConfig,
    pub wakes: Seq<u64>,
    pub taps: Seq<u64>,
}

/// A record of events after one more at `at`, and whether that completes a burst of `threshold`
/// events within `window`. A threshold of zero switches the record off.
pub open spec fn burst(entries: Seq<u64>, at: u64, window: u64, threshold: usize) -> (
    Seq<u64>,
    bool,
) {
    if threshold == 0 {
        (entries, false)
    } else {
        history::counted(entries, IDS_EVENT_HISTORY_LEN as int, at, window, threshold as int)
    }
}

impl IdsMemory {
    /// Nothing recorded.
    pub open spec fn blank(config: IdsConfig) -> Self {
        IdsMemory { config, wakes: Seq::empty(), taps: Seq::empty() }
    }

    /// What is remembered after `signal` at `at`, and the trigger that it sets off.
    pub open spec fn step(self, signal: IdsSignal, at: u64) -> (Self, Option<IdsTrigger>) {
        match signal {
            IdsSignal::Wake => {
                let (wakes, complete) = burst(
                    self.wakes,
                    at,
                    self.config.wake_window_ms,
                    self.config.wake_event_count,
                );
                (
                    IdsMemory { wakes, ..self },
                    if complete {
                        Some(IdsTrigger::WakeBurst)
                    } else {
                        None
                    },
                )
            },
            IdsSignal::Tap => {
                let (taps, complete) = burst(
                    self.taps,
                    at,
                    self.config.tap_window_ms,
                    self.config.tap_event_count,
                );
                (
                    IdsMemory { taps, ..self },
                    if complete {
                        Some(IdsTrigger::TapBurst)
                    } else {
                        None
                    },
                )
            },
            IdsSignal::OrientationChange => (
                self,
                if self.config.orientation_change_tamper {
                    Some(IdsTrigger::OrientationChange)
                } else {
                    None
                },
            ),
        }
    }
}

impl View for IdsDetector {
    type V = IdsMemory;

    closed spec fn view(&self) -> IdsMemory {
        IdsMemory {
            config: self.config,
            wakes: history::live(self.wakes_ms@, self.wake_len as int),
            taps: history::live(self.taps_ms@, self.tap_len as int),
        }
    }
}

impl IdsDetector {
    /// The records fit their storage.
    pub closed spec fn wf(self) -> bool {
        self.wake_len <= IDS_EVENT_HISTORY_LEN && self.tap_len <= IDS_EVENT_HISTORY_LEN
    }

    pub fn new(config: IdsConfig) -> (detector: Self)
        ensures
            detector.wf(),
            detector@ == IdsMemory::blank(config),
    {
        IdsDetector {
            config,
            wakes_ms: [0; IDS_EVENT_HISTORY_LEN],
            wake_len: 0,
            taps_ms: [0; IDS_EVENT_HISTORY_LEN],
            tap_len: 0,
        }
    }

    pub fn record(&mut self, signal: IdsSignal, at_ms: u64) -> (trigger: Option<IdsTrigger>)
        requires
            old(self).wf(),
        ensures
            final(self).wf(),
            final(self)@ == old(self)@.step(signal, at_ms).0,
            trigger == old(self)@.step(signal, at_ms).1,
    {
        match signal {
            IdsSignal::Wake => record_recent_trigger(
                &mut self.wakes_ms,
                &mut self.wake_len,
                at_ms,
                self.config.wake_window_ms,
                self.config.wake_event_count,
                IdsTrigger::WakeBurst,
            ),
            IdsSignal::Tap => record_recent_trigger(
                &mut self.taps_ms,
                &mut self.tap_len,
                at_ms,
                self.config.tap_window_ms,
                self.config.tap_event_count,
                IdsTrigger::TapBurst,
            ),
            IdsSignal::OrientationChange => {
                if self.config.orientation_change_tamper {
                    Some(IdsTrigger::OrientationChange)
                } else {
                    None
                }
            },
        }
    }
}

#[derive(Clone, Copy, Debug, PartialEq, Eq, Structural)]
pub struct MemsInterruptConfig {
    pub wake_up_threshold: u8,
    pub wake_up_duration: u8,
    pub sleep_mode_enabled: bool,
    pub orientation_detection_enabled: bool,
    pub orientation_threshold: MemsOrientationThreshold,
    pub tap_detection_enabled: bool,
    pub tap_threshold_x: u8,
    pub tap_threshold_y: u8,
    pub tap_threshold_z: u8,
    pub tap_quiet_time: u8,
    pub tap_shock_time: u8,
    pub double_tap_latency: u8,
}

impl MemsInterruptConfig {
    /// The shipping tuning of the accelerometer.
    pub open spec fn shipping() -> Self {
        MemsInterruptConfig {
            wake_up_threshold: 2,
            wake_up_duration: 1,
            sleep_mode_enabled: true,
            orientation_detection_enabled: true,
            orientation_threshold: MemsOrientationThreshold::Deg70,
            tap_detection_enabled: true,
            tap_threshold_x: 9,
            tap_threshold_y: 9,
            tap_threshold_z: 12,
            tap_quiet_time: 1,
            tap_shock_time: 2,
            double_tap_latency: 6,
        }
    }
}

impl Default for MemsInterruptConfig {
    fn default() -> (config: Self)
        ensures
            config == Self::shipping(),
    {
        MemsInterruptConfig {
            wake_up_threshold: 2,
            wake_up_duration: 1,
            sleep_mode_enabled: true,
            orientation_detection_enabled: true,
            orientation_threshold: MemsOrientationThreshold::Deg70,
            tap_detection_enabled: true,
            tap_threshold_x: 9,
            tap_threshold_y: 9,
            tap_threshold_z: 12,
            tap_quiet_time: 1,
            tap_shock_time: 2,
            double_tap_latency: 6,
        }
    }
}

#[derive(Clone, Copy, Debug, PartialEq, Eq, Structural)]
pub struct MemsConfig {
    pub interrupts: MemsInterruptConfig,
    pub ids: IdsConfig,
    pub button: MemsButtonConfig,
}

impl MemsConfig {
    /// The shipping configuration with the tuning of a sensitivity profile.
    pub open spec fn shipping(profile: IdsSensitivityProfile) -> Self {
        MemsConfig {
            interrupts: MemsInterruptConfig::shipping(),
            ids: IdsConfig::tuned(profile),
            button: MemsButtonConfig::shipping(),
        }
    }

    pub fn with_ids_profile(profile: IdsSensitivityProfile) -> (config: Self)
        ensures
            config == Self::shipping(profile),
    {
        MemsConfig { ids: IdsConfig::for_profile(profile), ..Self::default() }
    }
}

impl Default for MemsConfig {
    fn default() -> (config: Self)
        ensures
            config == Self::shipping(IdsSensitivityProfile::Balanced),
    {
        MemsConfig {
            interrupts: MemsInterruptConfig::default(),
            ids: IdsConfig::default(),
            button: MemsButtonConfig::default(),
        }
    }
}

/// Whether the device is in operation, so that motion counts as tampering and not as a setup
/// gesture.
pub open spec fn operational(state: SetupState) -> bool {
    state == SetupState::Ready || state == SetupState::NeedsRecalibration || state
        == SetupState::Debug
}

pub fn ids_enabled_for_setup_state(state: SetupState) -> (enabled: bool)
    ensures
        enabled == operational(state),
{
    matches!(state, SetupState::Ready | SetupState::NeedsRecalibration | SetupState::Debug)
}

pub fn setup_gestures_enabled_for_state(state: SetupState) -> (enabled: bool)
    ensures
        enabled == !operational(state),
{
    !ids_enabled_for_setup_state(state)
}

fn record_recent_trigger(
    cells: &mut [u64; IDS_EVENT_HISTORY_LEN],
    len: &mut usize,
    at_ms: u64,
    window_ms: u64,
    threshold: usize,
    trigger: IdsTrigger,
) -> (fired: Option<IdsTrigger>)
    requires
        *old(len) <= IDS_EVENT_HISTORY_LEN,
    ensures
        *final(len) <= IDS_EVENT_HISTORY_LEN,
        ({
            let (entries, complete) = burst(
                history::live(old(cells)@, *old(len) as int),
                at_ms,
                window_ms,
                threshold,
            );
            &&& history::live(final(cells)@, *final(len) as int) == entries
            &&& fired == if complete {
                Some(trigger)
            } else {
                None
            }
        }),
{
    if threshold == 0 {
        return None;
    }
    history::push_recent(cells, len, at_ms, window_ms);
    if *len >= threshold {
        *len = 0;
        assert(history::live(cells@, 0) == Seq::<u64>::empty());
        return Some(trigger);
    }
    None
}

/// How many events of a kind make up a burst.
pub open spec fn burst_count(config: IdsConfig, signal: IdsSignal) -> usize {
    if signal == IdsSignal::Wake {
        config.wake_event_count
    } else {
        config.tap_event_count
    }
}

/// How close together the events of a burst have to be.
pub open spec fn burst_window_ms(config: IdsConfig, signal: IdsSignal) -> u64 {
    if signal == IdsSignal::Wake {
        config.wake_window_ms
    } else {
        config.tap_window_ms
    }
}

/// The trigger that a burst of events of a kind sets off.
pub open spec fn burst_trigger(signal: IdsSignal) -> IdsTrigger {
    if signal == IdsSignal::Wake {
        IdsTrigger::WakeBurst
    } else {
        IdsTrigger::TapBurst
    }
}

/// What is remembered after events of one kind at `times`, in that order.
pub open spec fn after_signals(config: IdsConfig, signal: IdsSignal, times: Seq<u64>) -> IdsMemory
    decreases times.len(),
{
    if times.len() == 0 {
        IdsMemory::blank(config)
    } else {
        after_signals(config, signal, times.drop_last()).step(signal, times.last()).0
    }
}

/// As many wakes, or taps, as make up a burst, in order and within its window, set off the
/// trigger and leave nothing on record; fewer set off nothing.
pub proof fn quick_motion_sets_off_the_trigger(
    config: IdsConfig,
    signal: IdsSignal,
    times: Seq<u64>,
)
    requires
        signal == IdsSignal::Wake || signal == IdsSignal::Tap,
        history::in_order(times),
        0 < times.len() <= burst_count(config, signal) <= IDS_EVENT_HISTORY_LEN,
        times.last() - times[0] <= burst_window_ms(config, signal),
    ensures
        ({
            let (memory, trigger) = after_signals(config, signal, times.drop_last()).step(
                signal,
                times.last(),
            );
            if times.len() == burst_count(config, signal) {
                memory == IdsMemory::blank(config) && trigger == Some(burst_trigger(signal))
            } else {
                trigger is None
            }
        }),
{
    lemma_signals_are_counted(config, signal, times.drop_last());
    history::quick_events_complete_the_count(
        times,
        IDS_EVENT_HISTORY_LEN as int,
        burst_window_ms(config, signal),
        burst_count(config, signal) as int,
    );
}

/// Wakes, or taps, that lie further apart than the window never set off a trigger that takes two
/// or more of them.
pub proof fn slow_motion_sets_off_nothing(config: IdsConfig, signal: IdsSignal, times: Seq<u64>)
    requires
        signal == IdsSignal::Wake || signal == IdsSignal::Tap,
        times.len() > 0,
        burst_count(config, signal) >= 2,
        forall|i: int|
            0 < i < times.len() ==> #[trigger] times[i] - times[i - 1] > burst_window_ms(
                config,
                signal,
            ),
    ensures
        after_signals(config, signal, times.drop_last()).step(signal, times.last()).1 is None,
{
    lemma_signals_are_counted(config, signal, times.drop_last());
    history::slow_events_never_complete_the_count(
        times,
        IDS_EVENT_HISTORY_LEN as int,
        burst_window_ms(config, signal),
        burst_count(config, signal) as int,
    );
}

/// Each kind of event is counted on its own, and the configuration never changes.
pub proof fn kinds_are_counted_apart(memory: IdsMemory, signal: IdsSignal, at: u64)
    ensures
        signal != IdsSignal::Wake ==> memory.step(signal, at).0.wakes == memory.wakes,
        signal != IdsSignal::Tap ==> memory.step(signal, at).0.taps == memory.taps,
        memory.step(signal, at).0.config == memory.config,
{
}

/// A burst of more events than the record holds is never complete.
pub proof fn bursts_beyond_the_record_never_complete(memory: IdsMemory, signal: IdsSignal, at: u64)
    requires
        signal == IdsSignal::Wake || signal == IdsSignal::Tap,
        burst_count(memory.config, signal) > IDS_EVENT_HISTORY_LEN,
        memory.wakes.len() <= IDS_EVENT_HISTORY_LEN,
        memory.taps.len() <= IDS_EVENT_HISTORY_LEN,
    ensures
        memory.step(signal, at).1 is None,
        memory.step(signal, at).0.wakes.len() <= IDS_EVENT_HISTORY_LEN,
        memory.step(signal, at).0.taps.len() <= IDS_EVENT_HISTORY_LEN,
{
    let oldest = history::monus(at as int, burst_window_ms(memory.config, signal) as int);
    history::recent_keeps_a_suffix(memory.wakes, oldest);
    history::recent_keeps_a_suffix(memory.taps, oldest);
}

proof fn lemma_signals_are_counted(config: IdsConfig, signal: IdsSignal, times: Seq<u64>)
    requires
        signal == IdsSignal::Wake || signal == IdsSignal::Tap,
        burst_count(config, signal) > 0,
    ensures
        ({
            let entries = history::counted_all(
                times,
                IDS_EVENT_HISTORY_LEN as int,
                burst_window_ms(config, signal),
                burst_count(config, signal) as int,
            );
            after_signals(config, signal, times) == if signal == IdsSignal::Wake {
                IdsMemory { wakes: entries, ..IdsMemory::blank(config) }
            } else {
                IdsMemory { taps: entries, ..IdsMemory::blank(config) }
            }
        }),
    decreases times.len(),
{
    if times.len() > 0 {
        lemma_signals_are_counted(config, signal, times.drop_last());
    }
}

/// Whether one more event at `at` makes `count` events within `window`, on a record of at most
/// eight that is in order.
pub open spec fn makes_up(record: Seq<u64>, at: u64, count: int, window: int) -> bool {
    ||| count == 1
    ||| 2 <= count <= 8 && record.len() >= count - 1 && at - record[record.len() - count + 1]
        <= window
}

proof fn lemma_bursts_are_judged_by_their_span(
    record: Seq<u64>,
    at: u64,
    window: u64,
    threshold: usize,
)
    requires
        record.len() <= 8,
        history::in_order(record),
        record.len() > 0 ==> record.last() <= at,
    ensures
        ({
            let (after, complete) = burst(record, at, window, threshold);
            &&& complete <==> makes_up(record, at, threshold as int, window as int)
            &&& complete ==> after.len() == 0
            &&& threshold == 0 ==> after == record
            &&& !complete && threshold > 0 ==> after.len() > 0 && after.last() == at
        }),
{
    let dropped = history::noted_keeps_what_is_recent(record, 8, at, window);
    let n = record.len() as int;
    let count = threshold as int;
    if 2 <= count <= 8 && n >= count - 1 {
        assert(dropped <= n - count + 1 <==> at - record[n - count + 1] <= window);
    }
}

/// What one signal does, told by the times of those of its kind before it: it sets off the
/// trigger of its kind exactly if with it there are as many within the window as the
/// configuration says, and then starts that count anew. A count of zero or beyond eight is never
/// reached. A change of orientation sets off its trigger exactly if the configuration says so,
/// and is never put on record.
pub proof fn signals_are_judged_by_their_spans(memory: IdsMemory, at: u64)
    requires
        memory.wakes.len() <= 8,
        memory.taps.len() <= 8,
        history::in_order(memory.wakes),
        history::in_order(memory.taps),
        memory.wakes.len() > 0 ==> memory.wakes.last() <= at,
        memory.taps.len() > 0 ==> memory.taps.last() <= at,
    ensures
        ({
            let (after, trigger) = memory.step(IdsSignal::Wake, at);
            let count = memory.config.wake_event_count as int;
            let window = memory.config.wake_window_ms as int;
            let fires = makes_up(memory.wakes, at, count, window);
            &&& trigger == Some(IdsTrigger::WakeBurst) <==> fires
            &&& trigger is None <==> !fires
            &&& fires ==> after.wakes.len() == 0
            &&& !fires && count > 0 ==> after.wakes.len() > 0 && after.wakes.last() == at
            &&& after.taps == memory.taps && after.config == memory.config
        }),
        ({
            let (after, trigger) = memory.step(IdsSignal::Tap, at);
            let count = memory.config.tap_event_count as int;
            let window = memory.config.tap_window_ms as int;
            let fires = makes_up(memory.taps, at, count, window);
            &&& trigger == Some(IdsTrigger::TapBurst) <==> fires
            &&& trigger is None <==> !fires
            &&& fires ==> after.taps.len() == 0
            &&& !fires && count > 0 ==> after.taps.len() > 0 && after.taps.last() == at
            &&& after.wakes == memory.wakes && after.config == memory.config
        }),
        ({
            let (after, trigger) = memory.step(IdsSignal::OrientationChange, at);
            &&& after == memory
            &&& memory.config.orientation_change_tamper ==> trigger == Some(
                IdsTrigger::OrientationChange,
            )
            &&& !memory.config.orientation_change_tamper ==> trigger is None
        }),
{
    lemma_bursts_are_judged_by_their_span(
        memory.wakes,
        at,
        memory.config.wake_window_ms,
        memory.config.wake_event_count,
    );
    lemma_bursts_are_judged_by_their_span(
        memory.taps,
        at,
        memory.config.tap_window_ms,
        memory.config.tap_event_count,
    );
}

/// Each profile takes one wake and one tap less than the milder one before it, in less time, from
/// four wakes in four seconds and five taps in two downwards; a change of orientation counts in
/// all of them.
pub proof fn profiles_grow_more_sensitive(profile: IdsSensitivityProfile)
    ensures
        ({
            let level = match profile {
                IdsSensitivityProfile::Conservative => 0int,
                IdsSensitivityProfile::Balanced => 1int,
                IdsSensitivityProfile::Aggressive => 2int,
            };
            let config = IdsConfig::tuned(profile);
            &&& config.orientation_change_tamper
            &&& config.wake_event_count == 4 - level
            &&& config.tap_event_count == 5 - level
            &&& config.wake_window_ms == 4_000 - 1_500 * level + if level == 2 {
                500int
            } else {
                0int
            }
            &&& config.tap_window_ms == 2_000 - 500 * level + if level == 2 {
                200int
            } else {
                0int
            }
        }),
{
}

/// Motion counts as tampering once the device is ready, needs recalibration or is in debug mode,
/// and not while it is being set up.
pub proof fn setup_is_not_operation(state: SetupState)
    ensures
        operational(state) <==> !(state == SetupState::FactoryNew || state == SetupState::Discovery
            || state == SetupState::WaitingForClosedCalibration || state
            == SetupState::Calibrating),
{
}

/// Whatever the profile, a shipped device listens to every kind of motion: it wakes at twice the
/// smallest step, takes taps along X and Y alike and a third harder along Z, and sleeps at rest.
/// The profile decides what counts as tampering and nothing else.
pub proof fn profiles_change_only_tampering(
    profile: IdsSensitivityProfile,
    other: IdsSensitivityProfile,
)
    ensures
        ({
            let config = MemsConfig::shipping(profile);
            let interrupts = config.interrupts;
            &&& config.ids == IdsConfig::tuned(profile)
            &&& config.interrupts == MemsConfig::shipping(other).interrupts
            &&& config.button == MemsConfig::shipping(other).button
            &&& interrupts.wake_up_threshold == 2 && interrupts.wake_up_duration == 1
            &&& interrupts.sleep_mode_enabled && interrupts.orientation_detection_enabled
            &&& interrupts.tap_detection_enabled
            &&& interrupts.orientation_threshold == MemsOrientationThreshold::Deg70
            &&& interrupts.tap_threshold_x == 9 && interrupts.tap_threshold_y == 9
            &&& interrupts.tap_threshold_z == 12
            &&& interrupts.tap_quiet_time == 1 && interrupts.tap_shock_time == 2
            &&& interrupts.double_tap_latency == 6
        }),
{
}

} // verus!
