//! What the motion sensor's interrupts mean, and how the sensor is set up.

use crate::bthome::ButtonEvent;
use crate::mems;
use crate::mems::{
    ids_enabled_for_setup_state, setup_gestures_enabled_for_state, IdsDetector, IdsMemory,
    IdsSignal, IdsTrigger, MemsConfig, MemsInterruptConfig, MemsOrientationThreshold,
};
use crate::mems_button;
use crate::mems_button::{MemsButtonDetector, MemsButtonMemory, MemsButtonSignal};
use crate::setup::{
    MemsGesture, MemsGestureDetector, MemsGestureMemory, MemsInterrupt, SetupEvent, SetupState,
};
use vstd::prelude::*;

verus! {

/// The identity that a motion sensor of the right kind reports.
pub const LIS_DEVICE_ID: u8 = 0x44;

/// The pause after the motion sensor failed.
pub const RETRY_DELAY_S: u64 = 5;

/// What an interrupt of the motion sensor can lead to at most: a tamper alarm and a gesture for
/// the start of motion, one of each for a tap, two of each for a double tap, one of each for a
/// turn, and a button event.
pub const MAX_SIGNALS: usize = 11;

/// Why the motion sensor interrupted. Each cause is told twice, by the collected interrupt
/// sources and by a register of its own.
#[derive(Clone, Copy, Debug, PartialEq, Eq, Structural)]
pub struct InterruptSources {
    pub wake_up_interrupt: bool,
    pub wake_up_event: bool,
    pub single_tap_interrupt: bool,
    pub single_tap_event: bool,
    pub double_tap_interrupt: bool,
    pub double_tap_event: bool,
    pub six_d_interrupt: bool,
    pub position_change_event: bool,
    pub sleep_change_interrupt: bool,
    pub sleep_event: bool,
}

/// What to tell another task.
#[derive(Clone, Copy, Debug, PartialEq, Eq, Structural)]
pub enum MemsSignal {
    Setup(SetupEvent),
    Button(ButtonEvent),
}

/// What to tell other tasks, in this order.
#[derive(Clone, Copy, Debug)]
pub struct MemsSignals {
    items: [MemsSignal; MAX_SIGNALS],
    len: usize,
}

impl View for MemsSignals {
    type V = Seq<MemsSignal>;

    closed spec fn view(&self) -> Seq<MemsSignal> {
        self.items@.take(self.len as int)
    }
}

impl MemsSignals {
    /// The signals fit their storage.
    pub closed spec fn wf(&self) -> bool {
        self.len <= MAX_SIGNALS
    }

    pub fn len(&self) -> (len: usize)
        requires
            self.wf(),
        ensures
            len == self@.len(),
    {
        self.len
    }

    pub fn get(&self, index: usize) -> (signal: Option<MemsSignal>)
        requires
            self.wf(),
        ensures
            signal == if index < self@.len() {
                Some(self@[index as int])
            } else {
                None
            },
    {
        if index < self.len {
            Some(self.items[index])
        } else {
            None
        }
    }

    fn new() -> (signals: Self)
        ensures
            signals.wf(),
            signals@ == Seq::<MemsSignal>::empty(),
    {
        MemsSignals { items: [MemsSignal::Setup(SetupEvent::Tick);MAX_SIGNALS], len: 0 }
    }

    fn push(&mut self, signal: MemsSignal)
        requires
            old(self).wf(),
            old(self)@.len() < MAX_SIGNALS,
        ensures
            final(self).wf(),
            final(self)@ == old(self)@.push(signal),
    {
        self.items[self.len] = signal;
        self.len = self.len + 1;
    }
}

/// The signal for a tamper trigger, if there is one.
pub open spec fn tamper_signal(trigger: Option<IdsTrigger>) -> Seq<MemsSignal> {
    if trigger is Some {
        seq![MemsSignal::Setup(SetupEvent::TamperDetected)]
    } else {
        Seq::empty()
    }
}

/// The signal for a setup gesture, if there is one.
pub open spec fn gesture_signal(gesture: Option<MemsGesture>) -> Seq<MemsSignal> {
    match gesture {
        Some(gesture) => seq![MemsSignal::Setup(SetupEvent::MemsGesture(gesture))],
        None => Seq::empty(),
    }
}

/// The signal for a button event, if there is one.
pub open spec fn button_signal(event: Option<ButtonEvent>) -> Seq<MemsSignal> {
    match event {
        Some(event) => seq![MemsSignal::Button(event)],
        None => Seq::empty(),
    }
}

/// What to wait for.
#[derive(Clone, Copy, Debug, PartialEq, Eq, Structural)]
pub enum MemsWait {
    /// Nothing: a deadline is over.
    Tick,
    /// An interrupt, for at most `ms`; then a tick is due at `deadline_ms`.
    Interrupt { ms: u64, deadline_ms: u64 },
    /// An interrupt, however long it takes.
    AnyInterrupt,
}

/// Follows the interrupts of the motion sensor.
#[derive(Clone, Copy, Debug)]
pub struct MemsMonitor {
    button: MemsButtonDetector,
    gestures: MemsGestureDetector,
    ids: IdsDetector,
}

/// What a [`MemsMonitor`] goes by.
#[verifier::ext_equal]
pub struct MemsProgress {
    pub button: MemsButtonMemory,
    pub gestures: MemsGestureMemory,
    pub ids: IdsMemory,
}

impl MemsProgress {
    pub open spec fn start(config: MemsConfig) -> Self {
        MemsProgress {
            button: MemsButtonMemory::blank(config.button),
            gestures: MemsGestureMemory::blank(),
            ids: IdsMemory::blank(config.ids),
        }
    }

    /// The deadlines of the button detector can be told.
    pub open spec fn deadlines_fit(self) -> bool {
        &&& self.button.knock_deadline() matches Some(knock) ==> knock <= u64::MAX
        &&& self.button.hold_deadline() matches Some(hold) ==> hold <= u64::MAX
    }

    /// The deadlines of what happens at `at` can be told.
    pub open spec fn in_time(self, at: u64) -> bool {
        &&& at + self.button.config.finalize_quiet_ms <= u64::MAX
        &&& at + self.button.config.hold_press_ms <= u64::MAX
    }

    /// A motion signal counts towards tampering only while the device is in operation.
    pub open spec fn with_ids(self, state: SetupState, signal: IdsSignal, at: u64) -> (
        Self,
        Seq<MemsSignal>,
    ) {
        if mems::operational(state) {
            let (ids, trigger) = self.ids.step(signal, at);
            (MemsProgress { ids, ..self }, tamper_signal(trigger))
        } else {
            (self, Seq::empty())
        }
    }

    /// A motion signal counts towards a setup gesture only while the device is not in operation.
    pub open spec fn with_gesture(self, state: SetupState, interrupt: MemsInterrupt, at: u64) -> (
        Self,
        Seq<MemsSignal>,
    ) {
        if mems::operational(state) {
            (self, Seq::empty())
        } else {
            let (gestures, gesture) = self.gestures.step(interrupt, at);
            (MemsProgress { gestures, ..self }, gesture_signal(gesture))
        }
    }

    pub open spec fn with_button(self, signal: MemsButtonSignal, at: u64) -> Self {
        MemsProgress { button: self.button.after(signal, at), ..self }
    }

    /// Motion has started.
    pub open spec fn woken(self, state: SetupState, at: u64) -> (Self, Seq<MemsSignal>) {
        let (one, tamper) = self.with_ids(state, IdsSignal::Wake, at);
        let (two, gesture) = one.with_gesture(state, MemsInterrupt::Wake, at);
        (two.with_button(MemsButtonSignal::MotionStart, at), tamper + gesture)
    }

    /// There was a tap.
    pub open spec fn tapped(self, state: SetupState, at: u64) -> (Self, Seq<MemsSignal>) {
        let (one, gesture) = self.with_gesture(state, MemsInterrupt::Tap, at);
        let (two, tamper) = one.with_ids(state, IdsSignal::Tap, at);
        (two.with_button(MemsButtonSignal::Knock, at), gesture + tamper)
    }

    /// There were two taps.
    pub open spec fn tapped_twice(self, state: SetupState, at: u64) -> (Self, Seq<MemsSignal>) {
        let (one, first) = self.tapped(state, at);
        let (two, second) = one.tapped(state, at);
        (two, first + second)
    }

    /// The device was turned.
    pub open spec fn turned(self, state: SetupState, at: u64) -> (Self, Seq<MemsSignal>) {
        let (one, tamper) = self.with_ids(state, IdsSignal::OrientationChange, at);
        let (two, gesture) = one.with_gesture(state, MemsInterrupt::OrientationChange, at);
        (two, tamper + gesture)
    }

    /// Motion has ended.
    pub open spec fn rested(self, at: u64) -> (Self, Seq<MemsSignal>) {
        (
            self.with_button(MemsButtonSignal::MotionEnd, at),
            button_signal(self.button.event(MemsButtonSignal::MotionEnd, at)),
        )
    }

    /// Where an interrupt leads, and what it makes the device tell: the start of motion, a tap,
    /// a double tap, a turn and the end of motion are taken in this order.
    pub open spec fn interrupted(self, state: SetupState, sources: InterruptSources, at: u64) -> (
        Self,
        Seq<MemsSignal>,
    ) {
        let nothing = Seq::<MemsSignal>::empty();
        let (one, woken) = if sources.wake_up_interrupt || sources.wake_up_event {
            self.woken(state, at)
        } else {
            (self, nothing)
        };
        let (two, tapped) = if sources.single_tap_interrupt || sources.single_tap_event {
            one.tapped(state, at)
        } else {
            (one, nothing)
        };
        let (three, twice) = if sources.double_tap_interrupt || sources.double_tap_event {
            two.tapped_twice(state, at)
        } else {
            (two, nothing)
        };
        let (four, turned) = if sources.six_d_interrupt || sources.position_change_event {
            three.turned(state, at)
        } else {
            (three, nothing)
        };
        let (five, rested) = if sources.sleep_change_interrupt || sources.sleep_event {
            four.rested(at)
        } else {
            (four, nothing)
        };
        (five, woken + tapped + twice + turned + rested)
    }

    /// What to wait for at `now`.
    pub open spec fn wait(self, now: u64) -> MemsWait {
        match self.button.deadline() {
            None => MemsWait::AnyInterrupt,
            Some(deadline) => if deadline <= now {
                MemsWait::Tick
            } else {
                MemsWait::Interrupt { ms: (deadline - now) as u64, deadline_ms: deadline as u64 }
            },
        }
    }
}

impl View for MemsMonitor {
    type V = MemsProgress;

    closed spec fn view(&self) -> MemsProgress {
        MemsProgress { button: self.button@, gestures: self.gestures@, ids: self.ids@ }
    }
}

impl MemsMonitor {
    /// The detectors are in order, and the deadlines can be told.
    pub closed spec fn wf(&self) -> bool {
        self.button.wf() && self.gestures.wf() && self.ids.wf() && self@.deadlines_fit()
    }

    pub fn new(config: MemsConfig) -> (monitor: Self)
        ensures
            monitor.wf(),
            monitor@ == MemsProgress::start(config),
    {
        MemsMonitor {
            button: MemsButtonDetector::new(config.button),
            gestures: MemsGestureDetector::new(),
            ids: IdsDetector::new(config.ids),
        }
    }

    /// What to wait for at `now_ms`.
    pub fn next_wait(&self, now_ms: u64) -> (wait: MemsWait)
        requires
            self.wf(),
        ensures
            wait == self@.wait(now_ms),
    {
        match self.button.next_deadline_ms(now_ms) {
            None => MemsWait::AnyInterrupt,
            Some(deadline_ms) => {
                if deadline_ms <= now_ms {
                    MemsWait::Tick
                } else {
                    MemsWait::Interrupt { ms: deadline_ms - now_ms, deadline_ms }
                }
            },
        }
    }

    /// A deadline is over. Returns the button event that it completes.
    pub fn tick(&mut self, at_ms: u64) -> (event: Option<ButtonEvent>)
        requires
            old(self).wf(),
        ensures
            final(self).wf(),
            final(self)@ == old(self)@.with_button(MemsButtonSignal::Tick, at_ms),
            event == old(self)@.button.event(MemsButtonSignal::Tick, at_ms),
    {
        self.button.record(MemsButtonSignal::Tick, at_ms)
    }

    /// The motion sensor has interrupted.
    #[verifier::spinoff_prover]
    #[verifier::rlimit(30)]
    pub fn on_interrupt(
        &mut self,
        state: SetupState,
        sources: InterruptSources,
        at_ms: u64,
    ) -> (signals: MemsSignals)
        requires
            old(self).wf(),
            old(self)@.in_time(at_ms),
        ensures
            final(self).wf(),
            final(self)@ == old(self)@.interrupted(state, sources, at_ms).0,
            final(self)@.button.config == old(self)@.button.config,
            signals.wf(),
            signals@ == old(self)@.interrupted(state, sources, at_ms).1,
    {
        let mut signals = MemsSignals::new();
        if sources.wake_up_interrupt || sources.wake_up_event {
            self.wake(state, at_ms, &mut signals);
        }
        if sources.single_tap_interrupt || sources.single_tap_event {
            self.tap(state, at_ms, &mut signals);
        }
        if sources.double_tap_interrupt || sources.double_tap_event {
            self.double_tap(state, at_ms, &mut signals);
        }
        if sources.six_d_interrupt || sources.position_change_event {
            self.turn(state, at_ms, &mut signals);
        }
        if sources.sleep_change_interrupt || sources.sleep_event {
            self.rest(at_ms, &mut signals);
        }
        assert(signals@ == old(self)@.interrupted(state, sources, at_ms).1);
        signals
    }

    fn wake(&mut self, state: SetupState, at_ms: u64, signals: &mut MemsSignals)
        requires
            old(self).wf(),
            old(self)@.in_time(at_ms),
            old(signals).wf(),
            old(signals)@.len() + 2 <= MAX_SIGNALS,
        ensures
            final(self).wf(),
            final(self)@ == old(self)@.woken(state, at_ms).0,
            final(self)@.button.config == old(self)@.button.config,
            final(signals).wf(),
            final(signals)@ == old(signals)@ + old(self)@.woken(state, at_ms).1,
            final(signals)@.len() <= old(signals)@.len() + 2,
    {
        self.signal_tamper(state, IdsSignal::Wake, at_ms, signals);
        self.signal_gesture(state, MemsInterrupt::Wake, at_ms, signals);
        let _ = self.button.record(MemsButtonSignal::MotionStart, at_ms);
    }

    fn tap(&mut self, state: SetupState, at_ms: u64, signals: &mut MemsSignals)
        requires
            old(self).wf(),
            old(self)@.in_time(at_ms),
            old(signals).wf(),
            old(signals)@.len() + 2 <= MAX_SIGNALS,
        ensures
            final(self).wf(),
            final(self)@ == old(self)@.tapped(state, at_ms).0,
            final(self)@.button.config == old(self)@.button.config,
            final(signals).wf(),
            final(signals)@ == old(signals)@ + old(self)@.tapped(state, at_ms).1,
            final(signals)@.len() <= old(signals)@.len() + 2,
    {
        self.signal_gesture(state, MemsInterrupt::Tap, at_ms, signals);
        self.signal_tamper(state, IdsSignal::Tap, at_ms, signals);
        let _ = self.button.record(MemsButtonSignal::Knock, at_ms);
    }

    fn double_tap(&mut self, state: SetupState, at_ms: u64, signals: &mut MemsSignals)
        requires
            old(self).wf(),
            old(self)@.in_time(at_ms),
            old(signals).wf(),
            old(signals)@.len() + 4 <= MAX_SIGNALS,
        ensures
            final(self).wf(),
            final(self)@ == old(self)@.tapped_twice(state, at_ms).0,
            final(self)@.button.config == old(self)@.button.config,
            final(signals).wf(),
            final(signals)@ == old(signals)@ + old(self)@.tapped_twice(state, at_ms).1,
            final(signals)@.len() <= old(signals)@.len() + 4,
    {
        self.tap(state, at_ms, signals);
        self.tap(state, at_ms, signals);
    }

    fn turn(&mut self, state: SetupState, at_ms: u64, signals: &mut MemsSignals)
        requires
            old(self).wf(),
            old(signals).wf(),
            old(signals)@.len() + 2 <= MAX_SIGNALS,
        ensures
            final(self).wf(),
            final(self)@ == old(self)@.turned(state, at_ms).0,
            final(self)@.button.config == old(self)@.button.config,
            final(signals).wf(),
            final(signals)@ == old(signals)@ + old(self)@.turned(state, at_ms).1,
            final(signals)@.len() <= old(signals)@.len() + 2,
    {
        self.signal_tamper(state, IdsSignal::OrientationChange, at_ms, signals);
        self.signal_gesture(state, MemsInterrupt::OrientationChange, at_ms, signals);
    }

    fn rest(&mut self, at_ms: u64, signals: &mut MemsSignals)
        requires
            old(self).wf(),
            old(signals).wf(),
            old(signals)@.len() < MAX_SIGNALS,
        ensures
            final(self).wf(),
            final(self)@ == old(self)@.rested(at_ms).0,
            final(signals).wf(),
            final(signals)@ == old(signals)@ + old(self)@.rested(at_ms).1,
    {
        if let Some(event) = self.button.record(MemsButtonSignal::MotionEnd, at_ms) {
            signals.push(MemsSignal::Button(event));
        }
    }

    fn signal_tamper(
        &mut self,
        state: SetupState,
        signal: IdsSignal,
        at_ms: u64,
        signals: &mut MemsSignals,
    )
        requires
            old(self).wf(),
            old(signals).wf(),
            old(signals)@.len() < MAX_SIGNALS,
        ensures
            final(self).wf(),
            final(self)@ == old(self)@.with_ids(state, signal, at_ms).0,
            final(signals).wf(),
            final(signals)@ == old(signals)@ + old(self)@.with_ids(state, signal, at_ms).1,
            final(signals)@.len() <= old(signals)@.len() + 1,
    {
        if ids_enabled_for_setup_state(state) {
            if self.ids.record(signal, at_ms).is_some() {
                signals.push(MemsSignal::Setup(SetupEvent::TamperDetected));
            }
        }
    }

    fn signal_gesture(
        &mut self,
        state: SetupState,
        interrupt: MemsInterrupt,
        at_ms: u64,
        signals: &mut MemsSignals,
    )
        requires
            old(self).wf(),
            old(signals).wf(),
            old(signals)@.len() < MAX_SIGNALS,
        ensures
            final(self).wf(),
            final(self)@ == old(self)@.with_gesture(state, interrupt, at_ms).0,
            final(signals).wf(),
            final(signals)@ == old(signals)@ + old(self)@.with_gesture(state, interrupt, at_ms).1,
            final(signals)@.len() <= old(signals)@.len() + 1,
    {
        if setup_gestures_enabled_for_state(state) {
            if let Some(gesture) = self.gestures.record(interrupt, at_ms) {
                signals.push(MemsSignal::Setup(SetupEvent::MemsGesture(gesture)));
            }
        }
    }
}

/// How the causes of an interrupt are routed to the first interrupt line.
#[derive(Clone, Copy, Debug, PartialEq, Eq, Structural)]
pub struct Int1Pad {
    pub six_d: bool,
    pub single_tap: bool,
    pub wake_up: bool,
    pub double_tap: bool,
}

/// One step of setting up the motion sensor.
#[derive(Clone, Copy, Debug, PartialEq, Eq, Structural)]
pub enum LisCommand {
    ResetSettings,
    /// Continuous measurement in the first low-power mode.
    ContinuousLowPower,
    OutputDataRate25Hz,
    FullScale2G,
    /// A quarter of the output data rate.
    BandwidthQuarter,
    ContinuousUpdate(bool),
    WakeUpThreshold(u8),
    WakeUpDuration(u8),
    SleepMode(bool),
    Detect4d(bool),
    OrientationThreshold(MemsOrientationThreshold),
    /// Taps along X win over those along Y, and those over Z.
    TapPriorityXyz,
    TapDetection { x: bool, y: bool, z: bool },
    TapThresholdX(u8),
    TapThresholdY(u8),
    TapThresholdZ(u8),
    TapQuietTime(u8),
    TapShockTime(u8),
    DoubleTapLatency(u8),
    DoubleTapDetection(bool),
    Int1(Int1Pad),
    /// Only the change between motion and rest goes to the second interrupt line.
    Int2SleepChange,
    Interrupts(bool),
}

/// The number of steps of setting up the motion sensor.
pub const LIS_SETUP_LEN: usize = 23;

/// The steps of setting up the motion sensor, in this order. The interrupts are enabled last.
pub open spec fn lis_setup_steps(config: MemsInterruptConfig) -> Seq<LisCommand> {
    seq![
        LisCommand::ResetSettings,
        LisCommand::ContinuousLowPower,
        LisCommand::OutputDataRate25Hz,
        LisCommand::FullScale2G,
        LisCommand::BandwidthQuarter,
        LisCommand::ContinuousUpdate(true),
        LisCommand::WakeUpThreshold(config.wake_up_threshold),
        LisCommand::WakeUpDuration(config.wake_up_duration),
        LisCommand::SleepMode(config.sleep_mode_enabled),
        LisCommand::Detect4d(config.orientation_detection_enabled),
        LisCommand::OrientationThreshold(config.orientation_threshold),
        LisCommand::TapPriorityXyz,
        LisCommand::TapDetection {
            x: config.tap_detection_enabled,
            y: config.tap_detection_enabled,
            z: config.tap_detection_enabled,
        },
        LisCommand::TapThresholdX(config.tap_threshold_x),
        LisCommand::TapThresholdY(config.tap_threshold_y),
        LisCommand::TapThresholdZ(config.tap_threshold_z),
        LisCommand::TapQuietTime(config.tap_quiet_time),
        LisCommand::TapShockTime(config.tap_shock_time),
        LisCommand::DoubleTapLatency(config.double_tap_latency),
        LisCommand::DoubleTapDetection(config.tap_detection_enabled),
        LisCommand::Int1(
            Int1Pad {
                six_d: config.orientation_detection_enabled,
                single_tap: config.tap_detection_enabled,
                wake_up: true,
                double_tap: config.tap_detection_enabled,
            },
        ),
        LisCommand::Int2SleepChange,
        LisCommand::Interrupts(true),
    ]
}

/// The steps of setting up the motion sensor that reports `device_id`, or none if it is of
/// another kind. Setting up ends with the first step that fails.
pub fn init_lis(device_id: u8, config: MemsInterruptConfig) -> (steps: Option<
    [LisCommand; LIS_SETUP_LEN],
>)
    ensures
        steps is Some <==> device_id == LIS_DEVICE_ID,
        steps is Some <==> device_id == 0x44,
        steps matches Some(steps) ==> steps@ == lis_setup_steps(config),
{
    if device_id != LIS_DEVICE_ID {
        return None;
    }
    let tap = config.tap_detection_enabled;
    let orientation = config.orientation_detection_enabled;
    Some(
        [
            LisCommand::ResetSettings,
            LisCommand::ContinuousLowPower,
            LisCommand::OutputDataRate25Hz,
            LisCommand::FullScale2G,
            LisCommand::BandwidthQuarter,
            LisCommand::ContinuousUpdate(true),
            LisCommand::WakeUpThreshold(config.wake_up_threshold),
            LisCommand::WakeUpDuration(config.wake_up_duration),
            LisCommand::SleepMode(config.sleep_mode_enabled),
            LisCommand::Detect4d(orientation),
            LisCommand::OrientationThreshold(config.orientation_threshold),
            LisCommand::TapPriorityXyz,
            LisCommand::TapDetection { x: tap, y: tap, z: tap },
            LisCommand::TapThresholdX(config.tap_threshold_x),
            LisCommand::TapThresholdY(config.tap_threshold_y),
            LisCommand::TapThresholdZ(config.tap_threshold_z),
            LisCommand::TapQuietTime(config.tap_quiet_time),
            LisCommand::TapShockTime(config.tap_shock_time),
            LisCommand::DoubleTapLatency(config.double_tap_latency),
            LisCommand::DoubleTapDetection(tap),
            LisCommand::Int1(
                Int1Pad {
                    six_d: orientation,
                    single_tap: tap,
                    wake_up: true,
                    double_tap: tap,
                },
            ),
            LisCommand::Int2SleepChange,
            LisCommand::Interrupts(true),
        ],
    )
}

/// Whether no signal is a setup gesture.
pub open spec fn no_gesture(signals: Seq<MemsSignal>) -> bool {
    forall|i: int|
        0 <= i < signals.len() ==> !(#[trigger] signals[i] matches MemsSignal::Setup(
            SetupEvent::MemsGesture(_),
        ))
}

/// Whether no signal is a tamper alarm.
pub open spec fn no_tamper(signals: Seq<MemsSignal>) -> bool {
    forall|i: int|
        0 <= i < signals.len() ==> #[trigger] signals[i] != MemsSignal::Setup(
            SetupEvent::TamperDetected,
        )
}

/// Whether a step from `before` takes motion as tampering only in operation and as a setup
/// gesture only out of it, and leads to `limit` signals at most.
pub open spec fn keeps_apart(
    before: MemsProgress,
    state: SetupState,
    step: (MemsProgress, Seq<MemsSignal>),
    limit: int,
) -> bool {
    &&& mems::operational(state) ==> no_gesture(step.1) && step.0.gestures == before.gestures
    &&& !mems::operational(state) ==> no_tamper(step.1) && step.0.ids == before.ids
    &&& step.1.len() <= limit
}

proof fn lemma_parts_keep_apart(progress: MemsProgress, state: SetupState, at: u64)
    ensures
        keeps_apart(progress, state, progress.woken(state, at), 2),
        keeps_apart(progress, state, progress.tapped(state, at), 2),
        keeps_apart(progress, state, progress.turned(state, at), 2),
        keeps_apart(progress, state, progress.rested(at), 1),
{
}

proof fn lemma_steps_keep_apart(
    start: MemsProgress,
    state: SetupState,
    first: (MemsProgress, Seq<MemsSignal>),
    limit: int,
    second: (MemsProgress, Seq<MemsSignal>),
    more: int,
)
    requires
        keeps_apart(start, state, first, limit),
        keeps_apart(first.0, state, second, more),
    ensures
        keeps_apart(start, state, (second.0, first.1 + second.1), limit + more),
{
}

/// Motion is either tampering or a setup gesture, never both: in operation no gesture is told or
/// even counted, and out of operation no tampering is. There are never more signals than have
/// room.
pub proof fn motion_is_read_by_setup_state(
    progress: MemsProgress,
    state: SetupState,
    sources: InterruptSources,
    at: u64,
)
    ensures
        keeps_apart(
            progress,
            state,
            progress.interrupted(state, sources, at),
            MAX_SIGNALS as int,
        ),
{
    let nothing = Seq::<MemsSignal>::empty();
    let one = if sources.wake_up_interrupt || sources.wake_up_event {
        progress.woken(state, at)
    } else {
        (progress, nothing)
    };
    lemma_parts_keep_apart(progress, state, at);
    let two = if sources.single_tap_interrupt || sources.single_tap_event {
        one.0.tapped(state, at)
    } else {
        (one.0, nothing)
    };
    lemma_parts_keep_apart(one.0, state, at);
    lemma_steps_keep_apart(progress, state, one, 2, two, 2);
    let three = if sources.double_tap_interrupt || sources.double_tap_event {
        two.0.tapped_twice(state, at)
    } else {
        (two.0, nothing)
    };
    assert(keeps_apart(two.0, state, three, 4)) by {
        let tap = two.0.tapped(state, at);
        lemma_parts_keep_apart(two.0, state, at);
        lemma_parts_keep_apart(tap.0, state, at);
        lemma_steps_keep_apart(two.0, state, tap, 2, tap.0.tapped(state, at), 2);
    }
    lemma_steps_keep_apart(progress, state, (two.0, one.1 + two.1), 4, three, 4);
    let four = if sources.six_d_interrupt || sources.position_change_event {
        three.0.turned(state, at)
    } else {
        (three.0, nothing)
    };
    lemma_parts_keep_apart(three.0, state, at);
    lemma_steps_keep_apart(progress, state, (three.0, one.1 + two.1 + three.1), 8, four, 2);
    let five = if sources.sleep_change_interrupt || sources.sleep_event {
        four.0.rested(at)
    } else {
        (four.0, nothing)
    };
    lemma_parts_keep_apart(four.0, state, at);
    lemma_steps_keep_apart(
        progress,
        state,
        (four.0, one.1 + two.1 + three.1 + four.1),
        10,
        five,
        1,
    );
}

/// A double tap is two taps at the same time, and an interrupt without a cause is nothing.
pub proof fn double_tap_is_two_taps(progress: MemsProgress, state: SetupState, at: u64)
    ensures
        ({
            let none = InterruptSources {
                wake_up_interrupt: false,
                wake_up_event: false,
                single_tap_interrupt: false,
                single_tap_event: false,
                double_tap_interrupt: false,
                double_tap_event: false,
                six_d_interrupt: false,
                position_change_event: false,
                sleep_change_interrupt: false,
                sleep_event: false,
            };
            let single = InterruptSources { single_tap_interrupt: true, ..none };
            let double = InterruptSources { double_tap_interrupt: true, ..none };
            let (one, first) = progress.interrupted(state, single, at);
            let (two, second) = one.interrupted(state, single, at);
            &&& progress.interrupted(state, double, at).0 == two
            &&& progress.interrupted(state, double, at).1 == first + second
            &&& progress.interrupted(state, none, at).0 == progress
            &&& progress.interrupted(state, none, at).1.len() == 0
        }),
{
}

/// The wait ends exactly when a tick has something to tell: a tick that is due at once or at the
/// end of the wait always completes a button event, and after two ticks none is due any more.
pub proof fn waits_end_in_an_event(progress: MemsProgress, now: u64)
    requires
        progress.deadlines_fit(),
    ensures
        progress.wait(now) == MemsWait::Tick ==> progress.button.event(MemsButtonSignal::Tick, now)
            is Some,
        progress.wait(now) matches MemsWait::Interrupt { ms, deadline_ms } ==> ms > 0
            && deadline_ms == now + ms && progress.button.event(MemsButtonSignal::Tick, deadline_ms)
            is Some,
        progress.with_button(MemsButtonSignal::Tick, now).with_button(
            MemsButtonSignal::Tick,
            now,
        ).wait(now) != MemsWait::Tick,
{
    mems_button::events_come_at_their_deadline(progress.button, now);
    if let MemsWait::Interrupt { deadline_ms, .. } = progress.wait(now) {
        mems_button::events_come_at_their_deadline(progress.button, deadline_ms);
    }
}

/// The motion sensor is reset first and lets no interrupt through until everything else is set.
pub proof fn interrupts_are_enabled_last(config: MemsInterruptConfig)
    ensures
        lis_setup_steps(config).len() == LIS_SETUP_LEN,
        lis_setup_steps(config)[0] == LisCommand::ResetSettings,
        forall|i: int|
            0 <= i < LIS_SETUP_LEN ==> (#[trigger] lis_setup_steps(config)[i] is Interrupts <==> i
                == LIS_SETUP_LEN - 1),
{
}

/// A trigger, a gesture and a button event each lead to one signal that says so, and to none where
/// there is none.
pub proof fn causes_are_named(
    trigger: Option<IdsTrigger>,
    gesture: Option<MemsGesture>,
    event: Option<ButtonEvent>,
)
    ensures
        trigger is None ==> tamper_signal(trigger).len() == 0,
        trigger is Some ==> tamper_signal(trigger) == seq![
            MemsSignal::Setup(SetupEvent::TamperDetected),
        ],
        gesture is None ==> gesture_signal(gesture).len() == 0,
        gesture matches Some(made) ==> gesture_signal(gesture) == seq![
            MemsSignal::Setup(SetupEvent::MemsGesture(made)),
        ],
        event is None ==> button_signal(event).len() == 0,
        event matches Some(made) ==> button_signal(event) == seq![MemsSignal::Button(made)],
{
}

/// The button hears all motion, in whatever state setup is: its start, each tap, both taps of a
/// double tap, and its end. A turn is nothing to it.
pub proof fn button_hears_all_motion(
    progress: MemsProgress,
    state: SetupState,
    sources: InterruptSources,
    at: u64,
)
    ensures
        ({
            let start = progress.button;
            let woken = if sources.wake_up_interrupt || sources.wake_up_event {
                start.after(MemsButtonSignal::MotionStart, at)
            } else {
                start
            };
            let tapped = if sources.single_tap_interrupt || sources.single_tap_event {
                woken.after(MemsButtonSignal::Knock, at)
            } else {
                woken
            };
            let twice = if sources.double_tap_interrupt || sources.double_tap_event {
                tapped.after(MemsButtonSignal::Knock, at).after(MemsButtonSignal::Knock, at)
            } else {
                tapped
            };
            let (after, signals) = progress.interrupted(state, sources, at);
            let rests = sources.sleep_change_interrupt || sources.sleep_event;
            let event = twice.event(MemsButtonSignal::MotionEnd, at);
            &&& rests ==> after.button == twice.after(MemsButtonSignal::MotionEnd, at)
            &&& !rests ==> after.button == twice
            &&& rests && event is Some ==> signals.len() > 0 && signals.last()
                == MemsSignal::Button(event->0)
        }),
{
}

/// In operation every motion is weighed as tampering, in the order in which it comes, and each
/// trigger raises an alarm; a button event comes last.
#[verifier::rlimit(40)]
pub proof fn operation_watches_for_tampering(
    progress: MemsProgress,
    state: SetupState,
    sources: InterruptSources,
    at: u64,
)
    requires
        state == SetupState::Ready || state == SetupState::NeedsRecalibration || state
            == SetupState::Debug,
        !(sources.sleep_change_interrupt || sources.sleep_event),
    ensures
        ({
            let wake = sources.wake_up_interrupt || sources.wake_up_event;
            let tap = sources.single_tap_interrupt || sources.single_tap_event;
            let double = sources.double_tap_interrupt || sources.double_tap_event;
            let turn = sources.six_d_interrupt || sources.position_change_event;
            let none = None::<IdsTrigger>;
            let (one, woken) = if wake {
                progress.ids.step(IdsSignal::Wake, at)
            } else {
                (progress.ids, none)
            };
            let (two, tapped) = if tap {
                one.step(IdsSignal::Tap, at)
            } else {
                (one, none)
            };
            let (three, first) = if double {
                two.step(IdsSignal::Tap, at)
            } else {
                (two, none)
            };
            let (four, second) = if double {
                three.step(IdsSignal::Tap, at)
            } else {
                (three, none)
            };
            let (five, turned) = if turn {
                four.step(IdsSignal::OrientationChange, at)
            } else {
                (four, none)
            };
            let (after, signals) = progress.interrupted(state, sources, at);
            &&& after.ids == five
            &&& after.gestures == progress.gestures
            &&& signals == tamper_signal(woken) + tamper_signal(tapped) + tamper_signal(first)
                + tamper_signal(second) + tamper_signal(turned)
        }),
{
}

/// Out of operation every motion counts toward a gesture, in the order in which it comes, and each
/// gesture is told.
#[verifier::rlimit(40)]
pub proof fn setup_watches_for_gestures(
    progress: MemsProgress,
    state: SetupState,
    sources: InterruptSources,
    at: u64,
)
    requires
        state == SetupState::FactoryNew || state == SetupState::Discovery || state
            == SetupState::WaitingForClosedCalibration || state == SetupState::Calibrating,
        !(sources.sleep_change_interrupt || sources.sleep_event),
    ensures
        ({
            let wake = sources.wake_up_interrupt || sources.wake_up_event;
            let tap = sources.single_tap_interrupt || sources.single_tap_event;
            let double = sources.double_tap_interrupt || sources.double_tap_event;
            let turn = sources.six_d_interrupt || sources.position_change_event;
            let none = None::<MemsGesture>;
            let (one, woken) = if wake {
                progress.gestures.step(MemsInterrupt::Wake, at)
            } else {
                (progress.gestures, none)
            };
            let (two, tapped) = if tap {
                one.step(MemsInterrupt::Tap, at)
            } else {
                (one, none)
            };
            let (three, first) = if double {
                two.step(MemsInterrupt::Tap, at)
            } else {
                (two, none)
            };
            let (four, second) = if double {
                three.step(MemsInterrupt::Tap, at)
            } else {
                (three, none)
            };
            let (five, turned) = if turn {
                four.step(MemsInterrupt::OrientationChange, at)
            } else {
                (four, none)
            };
            let (after, signals) = progress.interrupted(state, sources, at);
            &&& after.gestures == five
            &&& after.ids == progress.ids
            &&& signals == gesture_signal(woken) + gesture_signal(tapped) + gesture_signal(first)
                + gesture_signal(second) + gesture_signal(turned)
        }),
{
}

/// The end of motion, together with other causes, adds to what those lead to the button event
/// that it completes, if it does, and nothing else.
pub proof fn rest_comes_last(
    progress: MemsProgress,
    state: SetupState,
    sources: InterruptSources,
    at: u64,
)
    ensures
        ({
            let moving = InterruptSources {
                sleep_change_interrupt: false,
                sleep_event: false,
                ..sources
            };
            let (moved, before) = progress.interrupted(state, moving, at);
            let (after, signals) = progress.interrupted(state, sources, at);
            let rests = sources.sleep_change_interrupt || sources.sleep_event;
            let event = moved.button.event(MemsButtonSignal::MotionEnd, at);
            &&& after.ids == moved.ids && after.gestures == moved.gestures
            &&& !rests || event is None ==> signals == before
            &&& rests && event is Some ==> signals == before.push(MemsSignal::Button(event->0))
        }),
{
}

/// The wait is for the earlier of the two deadlines of the button, and without one however long it
/// takes.
pub proof fn waits_are_for_the_button(progress: MemsProgress, now: u64)
    requires
        progress.deadlines_fit(),
    ensures
        ({
            let knocked = progress.button.knocks.len() > 0;
            let moving = progress.button.motion_start_ms is Some && !progress.button.hold_reported;
            let knock = progress.button.knocks.last() + progress.button.config.finalize_quiet_ms;
            let hold = progress.button.motion_start_ms->0 + progress.button.config.hold_press_ms;
            &&& progress.wait(now) == MemsWait::AnyInterrupt <==> !knocked && !moving
            &&& progress.wait(now) == MemsWait::Tick <==> (knocked && knock <= now) || (moving
                && hold <= now)
            &&& progress.wait(now) matches MemsWait::Interrupt { ms, deadline_ms } ==> {
                &&& knocked ==> deadline_ms <= knock
                &&& moving ==> deadline_ms <= hold
                &&& (knocked && deadline_ms == knock) || (moving && deadline_ms == hold)
                &&& ms == deadline_ms - now
            }
        }),
{
}

/// Each value of the configuration reaches the motion sensor by the command that is named for it,
/// taps along every axis together, and the first interrupt line gets what is enabled beside the
/// start of motion.
pub proof fn configuration_reaches_the_sensor(config: MemsInterruptConfig)
    ensures
        ({
            let steps = lis_setup_steps(config);
            let tap = config.tap_detection_enabled;
            let orientation = config.orientation_detection_enabled;
            &&& steps.contains(LisCommand::WakeUpThreshold(config.wake_up_threshold))
            &&& steps.contains(LisCommand::WakeUpDuration(config.wake_up_duration))
            &&& steps.contains(LisCommand::SleepMode(config.sleep_mode_enabled))
            &&& steps.contains(LisCommand::Detect4d(orientation))
            &&& steps.contains(LisCommand::OrientationThreshold(config.orientation_threshold))
            &&& steps.contains(LisCommand::TapDetection { x: tap, y: tap, z: tap })
            &&& steps.contains(LisCommand::TapThresholdX(config.tap_threshold_x))
            &&& steps.contains(LisCommand::TapThresholdY(config.tap_threshold_y))
            &&& steps.contains(LisCommand::TapThresholdZ(config.tap_threshold_z))
            &&& steps.contains(LisCommand::TapQuietTime(config.tap_quiet_time))
            &&& steps.contains(LisCommand::TapShockTime(config.tap_shock_time))
            &&& steps.contains(LisCommand::DoubleTapLatency(config.double_tap_latency))
            &&& steps.contains(LisCommand::DoubleTapDetection(tap))
            &&& steps.contains(LisCommand::ContinuousUpdate(true))
            &&& steps.contains(LisCommand::ContinuousLowPower)
            &&& steps.contains(LisCommand::OutputDataRate25Hz)
            &&& steps.contains(LisCommand::FullScale2G)
            &&& steps.contains(LisCommand::BandwidthQuarter)
            &&& steps.contains(LisCommand::TapPriorityXyz)
            &&& steps.contains(LisCommand::Int2SleepChange)
            &&& steps.contains(
                LisCommand::Int1(
                    Int1Pad { six_d: orientation, single_tap: tap, wake_up: true, double_tap: tap },
                ),
            )
            &&& steps.last() == LisCommand::Interrupts(true)
            &&& steps.len() == 23
        }),
{
    let steps = lis_setup_steps(config);
    assert(forall|i: int| 0 <= i < 23 ==> steps.contains(#[trigger] steps[i]));
    assert(steps[1] == LisCommand::ContinuousLowPower);
    assert(steps[2] == LisCommand::OutputDataRate25Hz);
    assert(steps[3] == LisCommand::FullScale2G);
    assert(steps[4] == LisCommand::BandwidthQuarter);
    assert(steps[5] == LisCommand::ContinuousUpdate(true));
    assert(steps[6] == LisCommand::WakeUpThreshold(config.wake_up_threshold));
    assert(steps[7] == LisCommand::WakeUpDuration(config.wake_up_duration));
    assert(steps[8] == LisCommand::SleepMode(config.sleep_mode_enabled));
    assert(steps[9] is Detect4d && steps[10] is OrientationThreshold);
    assert(steps[11] == LisCommand::TapPriorityXyz);
    assert(steps[12] is TapDetection && steps[13] is TapThresholdX && steps[14] is TapThresholdY);
    assert(steps[15] is TapThresholdZ && steps[16] is TapQuietTime && steps[17] is TapShockTime);
    assert(steps[18] is DoubleTapLatency && steps[19] is DoubleTapDetection && steps[20] is Int1);
    assert(steps[21] == LisCommand::Int2SleepChange);
}

/// A monitor that starts remembers nothing and goes by its configuration.
pub proof fn monitors_start_blank(config: MemsConfig, now: u64)
    ensures
        ({
            let start = MemsProgress::start(config);
            &&& start.button.config == config.button && start.ids.config == config.ids
            &&& start.button.knocks.len() == 0 && start.button.motion_start_ms is None
            &&& start.ids.wakes.len() == 0 && start.ids.taps.len() == 0
            &&& start.gestures.shakes.len() == 0 && start.gestures.turns.len() == 0
            &&& start.gestures.taps.len() == 0
            &&& start.wait(now) == MemsWait::AnyInterrupt
        }),
{
}

} // verus!
