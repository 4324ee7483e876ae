//! First-boot setup and recommissioning logic.

use crate::classifier::WindowState;
use crate::gesture::Gesture;
use crate::history;
use vstd::prelude::*;

verus! {

pub const FACTORY_NEW_DISCOVERY_WINDOW_MS: u32 = 300_000;

pub const USER_DISCOVERY_WINDOW_MS: u32 = 30_000;

pub const SHAKE_DISCOVERY_WINDOW_MS: u64 = 4_000;

pub const TURN_CONFIRM_WINDOW_MS: u64 = 5_000;

pub const TAP_IDENTIFY_WINDOW_MS: u64 = 1_500;

pub const SHAKE_DISCOVERY_COUNT: usize = 3;

pub const TURN_CONFIRM_COUNT: usize = 2;

pub const TAP_IDENTIFY_COUNT: usize = 2;

#[derive(Clone, Copy, Debug, PartialEq, Eq, Structural)]
pub enum SetupState {
    FactoryNew,
    Discovery,
    WaitingForClosedCalibration,
    Calibrating,
    Ready,
    NeedsRecalibration,
    Debug,
}

#[derive(Clone, Copy, Debug, PartialEq, Eq, Structural)]
pub enum LedHint {
    Silent,
    DiscoverySlowBlink,
    CalibrationConfirm,
    CalibrationOk,
    IdentifyPulse,
    Attention,
    FactoryResetAlternating,
    DebugSolid,
}

#[derive(Clone, Copy, Debug, PartialEq, Eq, Structural)]
pub enum MemsInterrupt {
    Wake,
    OrientationChange,
    Tap,
}

#[derive(Clone, Copy, Debug, PartialEq, Eq, Structural)]
pub enum MemsGesture {
    StartDiscovery,
    ConfirmMount,
    Identify,
}

#[derive(Clone, Copy, Debug, PartialEq, Eq, Structural)]
pub enum SetupEvent {
    Boot { has_calibration: bool },
    Tick,
    MagnetGesture(Gesture),
    MemsGesture(MemsGesture),
    WindowState(WindowState),
    CalibrationStored,
    TamperDetected,
    DebugRequested,
}

#[derive(Clone, Copy, Debug, PartialEq, Eq, Structural)]
pub struct SetupDecision {
    pub state: SetupState,
    pub led: LedHint,
    pub discovery_window_ms: Option<u32>,
    pub should_capture_calibration: bool,
    pub should_clear_state: bool,
    pub should_enter_debug: bool,
}

impl SetupDecision {
    /// Nothing to do in `state`, and nothing to show.
    pub open spec fn silent(state: SetupState) -> Self {
        SetupDecision {
            state,
            led: LedHint::Silent,
            discovery_window_ms: None,
            should_capture_calibration: false,
            should_clear_state: false,
            should_enter_debug: false,
        }
    }

    pub fn quiet(state: SetupState) -> (decision: Self)
        ensures
            decision == Self::silent(state),
    {
        SetupDecision {
            state,
            led: LedHint::Silent,
            discovery_window_ms: None,
            should_capture_calibration: false,
            should_clear_state: false,
            should_enter_debug: false,
        }
    }
}

#[derive(Clone, Copy, Debug, PartialEq, Eq)]
pub struct SetupController {
    state: SetupState,
    discovery_deadline_ms: Option<u64>,
    last_window_state: WindowState,
}

/// Where setup stands: the state, the end of the discovery window if one is set, and the window
/// state that was last reported.
pub struct SetupProgress {
    pub state: SetupState,
    pub discovery_deadline_ms: Option<u64>,
    pub last_window_state: WindowState,
}

/// How long the discovery window is that an event opens, if it opens one.
pub open spec fn opened_window_ms(event: SetupEvent) -> Option<u32> {
    match event {
        SetupEvent::Boot { has_calibration: false } => Some(FACTORY_NEW_DISCOVERY_WINDOW_MS),
        SetupEvent::MagnetGesture(Gesture::Pairing) => Some(USER_DISCOVERY_WINDOW_MS),
        SetupEvent::MagnetGesture(Gesture::FactoryReset) => Some(FACTORY_NEW_DISCOVERY_WINDOW_MS),
        SetupEvent::MemsGesture(MemsGesture::StartDiscovery) => Some(USER_DISCOVERY_WINDOW_MS),
        _ => None,
    }
}

/// Whether an event asks for a calibration.
pub open spec fn asks_for_calibration(event: SetupEvent) -> bool {
    event == SetupEvent::MagnetGesture(Gesture::Calibrate) || event == SetupEvent::MemsGesture(
        MemsGesture::ConfirmMount,
    )
}

impl SetupProgress {
    /// Whether a tick at `at` ends discovery.
    pub open spec fn discovery_over(self, at: u64) -> bool {
        self.state == SetupState::Discovery && (self.discovery_deadline_ms matches Some(deadline)
            && at >= deadline)
    }

    /// Where setup stands after `event` at `at`.
    pub open spec fn after(self, event: SetupEvent, at: u64) -> Self {
        let last_window_state = match event {
            SetupEvent::WindowState(state) => state,
            _ => self.last_window_state,
        };
        match opened_window_ms(event) {
            Some(window) => SetupProgress {
                state: SetupState::Discovery,
                discovery_deadline_ms: Some((at + window) as u64),
                last_window_state,
            },
            None => match event {
                SetupEvent::Boot { .. } | SetupEvent::CalibrationStored => SetupProgress {
                    state: SetupState::Ready,
                    discovery_deadline_ms: None,
                    last_window_state,
                },
                SetupEvent::Tick => if self.discovery_over(at) {
                    SetupProgress {
                        state: SetupState::FactoryNew,
                        discovery_deadline_ms: None,
                        last_window_state,
                    }
                } else {
                    self
                },
                SetupEvent::TamperDetected => SetupProgress {
                    state: SetupState::NeedsRecalibration,
                    ..self
                },
                SetupEvent::DebugRequested => SetupProgress { state: SetupState::Debug, ..self },
                SetupEvent::WindowState(state) => SetupProgress {
                    state: if self.state == SetupState::WaitingForClosedCalibration && state
                        == WindowState::Closed {
                        SetupState::Calibrating
                    } else {
                        self.state
                    },
                    last_window_state,
                    ..self
                },
                _ => if asks_for_calibration(event) {
                    SetupProgress {
                        state: if self.last_window_state == WindowState::Closed {
                            SetupState::Calibrating
                        } else {
                            SetupState::WaitingForClosedCalibration
                        },
                        ..self
                    }
                } else {
                    self
                },
            },
        }
    }

    /// Whether `event` starts the capture of a calibration.
    pub open spec fn starts_capture(self, event: SetupEvent) -> bool {
        match event {
            SetupEvent::WindowState(state) => self.state == SetupState::WaitingForClosedCalibration
                && state == WindowState::Closed,
            _ => asks_for_calibration(event) && self.last_window_state == WindowState::Closed,
        }
    }

    /// What is to be done on `event` at `at`.
    pub open spec fn decision(self, event: SetupEvent, at: u64) -> SetupDecision {
        SetupDecision {
            state: self.after(event, at).state,
            led: match event {
                SetupEvent::MagnetGesture(Gesture::FactoryReset) => LedHint::FactoryResetAlternating,
                SetupEvent::MemsGesture(MemsGesture::Identify) => LedHint::IdentifyPulse,
                SetupEvent::CalibrationStored => LedHint::CalibrationOk,
                SetupEvent::TamperDetected => LedHint::Attention,
                SetupEvent::DebugRequested => LedHint::DebugSolid,
                _ => if opened_window_ms(event) is Some {
                    LedHint::DiscoverySlowBlink
                } else if asks_for_calibration(event) || self.starts_capture(event) {
                    LedHint::CalibrationConfirm
                } else {
                    LedHint::Silent
                },
            },
            discovery_window_ms: opened_window_ms(event),
            should_capture_calibration: self.starts_capture(event),
            should_clear_state: event == SetupEvent::MagnetGesture(Gesture::FactoryReset),
            should_enter_debug: event == SetupEvent::DebugRequested,
        }
    }
}

impl View for SetupController {
    type V = SetupProgress;

    closed spec fn view(&self) -> SetupProgress {
        SetupProgress {
            state: self.state,
            discovery_deadline_ms: self.discovery_deadline_ms,
            last_window_state: self.last_window_state,
        }
    }
}

impl SetupController {
    pub fn new() -> (controller: Self)
        ensures
            controller@ == (SetupProgress {
                state: SetupState::FactoryNew,
                discovery_deadline_ms: None,
                last_window_state: WindowState::Closed,
            }),
    {
        SetupController {
            state: SetupState::FactoryNew,
            discovery_deadline_ms: None,
            last_window_state: WindowState::Closed,
        }
    }

    pub fn state(&self) -> (state: SetupState)
        ensures
            state == self@.state,
    {
        self.state
    }

    pub fn apply(&mut self, event: SetupEvent, at_ms: u64) -> (decision: SetupDecision)
        requires
            opened_window_ms(event) matches Some(window) ==> at_ms + window <= u64::MAX,
        ensures
            final(self)@ == old(self)@.after(event, at_ms),
            decision == old(self)@.decision(event, at_ms),
    {
        match event {
            SetupEvent::Boot { has_calibration } => {
                if has_calibration {
                    self.state = SetupState::Ready;
                    self.discovery_deadline_ms = None;
                    return SetupDecision::quiet(self.state);
                }
                self.enter_discovery(at_ms, FACTORY_NEW_DISCOVERY_WINDOW_MS)
            },
            SetupEvent::Tick => {
                if self.state == SetupState::Discovery {
                    if let Some(deadline) = self.discovery_deadline_ms {
                        if at_ms >= deadline {
                            self.state = SetupState::FactoryNew;
                            self.discovery_deadline_ms = None;
                        }
                    }
                }
                SetupDecision::quiet(self.state)
            },
            SetupEvent::MagnetGesture(gesture) => match gesture {
                Gesture::Calibrate => self.request_calibration(),
                Gesture::Pairing => self.enter_discovery(at_ms, USER_DISCOVERY_WINDOW_MS),
                Gesture::FactoryReset => {
                    let mut decision = self.enter_discovery(at_ms, FACTORY_NEW_DISCOVERY_WINDOW_MS);
                    decision.led = LedHint::FactoryResetAlternating;
                    decision.should_clear_state = true;
                    decision
                },
            },
            SetupEvent::MemsGesture(gesture) => match gesture {
                MemsGesture::StartDiscovery => self.enter_discovery(
                    at_ms,
                    USER_DISCOVERY_WINDOW_MS,
                ),
                MemsGesture::ConfirmMount => self.request_calibration(),
                MemsGesture::Identify => {
                    let mut decision = SetupDecision::quiet(self.state);
                    decision.led = LedHint::IdentifyPulse;
                    decision
                },
            },
            SetupEvent::WindowState(state) => {
                self.last_window_state = state;
                if self.state == SetupState::WaitingForClosedCalibration && state
                    == WindowState::Closed {
                    self.state = SetupState::Calibrating;
                    let mut decision = SetupDecision::quiet(self.state);
                    decision.led = LedHint::CalibrationConfirm;
                    decision.should_capture_calibration = true;
                    return decision;
                }
                SetupDecision::quiet(self.state)
            },
            SetupEvent::CalibrationStored => {
                self.state = SetupState::Ready;
                self.discovery_deadline_ms = None;
                let mut decision = SetupDecision::quiet(self.state);
                decision.led = LedHint::CalibrationOk;
                decision
            },
            SetupEvent::TamperDetected => {
                self.state = SetupState::NeedsRecalibration;
                let mut decision = SetupDecision::quiet(self.state);
                decision.led = LedHint::Attention;
                decision
            },
            SetupEvent::DebugRequested => {
                self.state = SetupState::Debug;
                let mut decision = SetupDecision::quiet(self.state);
                decision.led = LedHint::DebugSolid;
                decision.should_enter_debug = true;
                decision
            },
        }
    }

    fn enter_discovery(&mut self, at_ms: u64, window_ms: u32) -> (decision: SetupDecision)
        requires
            at_ms + window_ms <= u64::MAX,
        ensures
            final(self)@ == (SetupProgress {
                state: SetupState::Discovery,
                discovery_deadline_ms: Some((at_ms + window_ms) as u64),
                last_window_state: old(self)@.last_window_state,
            }),
            decision == (SetupDecision {
                led: LedHint::DiscoverySlowBlink,
                discovery_window_ms: Some(window_ms),
                ..SetupDecision::silent(SetupState::Discovery)
            }),
    {
        self.state = SetupState::Discovery;
        self.discovery_deadline_ms = Some(at_ms + window_ms as u64);
        let mut decision = SetupDecision::quiet(self.state);
        decision.led = LedHint::DiscoverySlowBlink;
        decision.discovery_window_ms = Some(window_ms);
        decision
    }

    fn request_calibration(&mut self) -> (decision: SetupDecision)
        ensures
            final(self)@ == (SetupProgress { state: decision.state, ..old(self)@ }),
            decision == if old(self)@.last_window_state == WindowState::Closed {
                SetupDecision {
                    led: LedHint::CalibrationConfirm,
                    should_capture_calibration: true,
                    ..SetupDecision::silent(SetupState::Calibrating)
                }
            } else {
                SetupDecision {
                    led: LedHint::CalibrationConfirm,
                    ..SetupDecision::silent(SetupState::WaitingForClosedCalibration)
                }
            },
    {
        if self.last_window_state == WindowState::Closed {
            self.state = SetupState::Calibrating;
            let mut decision = SetupDecision::quiet(self.state);
            decision.led = LedHint::CalibrationConfirm;
            decision.should_capture_calibration = true;
            return decision;
        }
        self.state = SetupState::WaitingForClosedCalibration;
        let mut decision = SetupDecision::quiet(self.state);
        decision.led = LedHint::CalibrationConfirm;
        decision
    }
}

impl Default for SetupController {
    fn default() -> (controller: Self)
        ensures
            controller@ == (SetupProgress {
                state: SetupState::FactoryNew,
                discovery_deadline_ms: None,
                last_window_state: WindowState::Closed,
            }),
    {
        Self::new()
    }
}

impl SetupState {
    pub fn ble_discovery_active(self) -> (active: bool)
        ensures
            active == (self == SetupState::Discovery),
    {
        matches!(self, SetupState::Discovery)
    }

    /// Whether a calibration is under way, awaited or due in this state.
    pub open spec fn needs_calibration(self) -> bool {
        self == SetupState::WaitingForClosedCalibration || self == SetupState::Calibrating || self
            == SetupState::NeedsRecalibration
    }

    pub fn calibration_required(self) -> (required: bool)
        ensures
            required == self.needs_calibration(),
    {
        matches!(
            self,
            SetupState::WaitingForClosedCalibration | SetupState::Calibrating
                | SetupState::NeedsRecalibration
        )
    }
}

#[derive(Clone, Copy, Debug, PartialEq, Eq)]
pub struct MemsGestureDetector {
    shakes_ms: [u64; SHAKE_DISCOVERY_COUNT],
    shake_len: usize,
    turns_ms: [u64; TURN_CONFIRM_COUNT],
    turn_len: usize,
    taps_ms: [u64; TAP_IDENTIFY_COUNT],
    tap_len: usize,
}

/// The interrupts that a [`MemsGestureDetector`] remembers, of each kind oldest first.
#[verifier::ext_equal]
pub struct MemsGestureMemory {
    pub shakes: Seq<u64>,
    pub turns: Seq<u64>,
    pub taps: Seq<u64>,
}

impl MemsGestureMemory {
    /// Nothing recorded.
    pub open spec fn blank() -> Self {
        MemsGestureMemory { shakes: Seq::empty(), turns: Seq::empty(), taps: Seq::empty() }
    }

    /// What is remembered after `interrupt` at `at`, and the gesture that it completes: three
    /// shakes within four seconds, two turns within five, or two taps within one and a half.
    pub open spec fn step(self, interrupt: MemsInterrupt, at: u64) -> (Self, Option<MemsGesture>) {
        match interrupt {
            MemsInterrupt::Wake => {
                let (shakes, complete) = history::counted(
                    self.shakes,
                    SHAKE_DISCOVERY_COUNT as int,
                    at,
                    SHAKE_DISCOVERY_WINDOW_MS,
                    SHAKE_DISCOVERY_COUNT as int,
                );
                (
                    MemsGestureMemory { shakes, ..self },
                    if complete {
                        Some(MemsGesture::StartDiscovery)
                    } else {
                        None
                    },
                )
            },
            MemsInterrupt::OrientationChange => {
                let (turns, complete) = history::counted(
                    self.turns,
                    TURN_CONFIRM_COUNT as int,
                    at,
                    TURN_CONFIRM_WINDOW_MS,
                    TURN_CONFIRM_COUNT as int,
                );
                (
                    MemsGestureMemory { turns, ..self },
                    if complete {
                        Some(MemsGesture::ConfirmMount)
                    } else {
                        None
                    },
                )
            },
            MemsInterrupt::Tap => {
                let (taps, complete) = history::counted(
                    self.taps,
                    TAP_IDENTIFY_COUNT as int,
                    at,
                    TAP_IDENTIFY_WINDOW_MS,
                    TAP_IDENTIFY_COUNT as int,
                );
                (
                    MemsGestureMemory { taps, ..self },
                    if complete {
                        Some(MemsGesture::Identify)
                    } else {
                        None
                    },
                )
            },
        }
    }
}

impl View for MemsGestureDetector {
    type V = MemsGestureMemory;

    closed spec fn view(&self) -> MemsGestureMemory {
        MemsGestureMemory {
            shakes: history::live(self.shakes_ms@, self.shake_len as int),
            turns: history::live(self.turns_ms@, self.turn_len as int),
            taps: history::live(self.taps_ms@, self.tap_len as int),
        }
    }
}

impl MemsGestureDetector {
    /// The records fit their storage.
    pub closed spec fn wf(self) -> bool {
        self.shake_len <= SHAKE_DISCOVERY_COUNT && self.turn_len <= TURN_CONFIRM_COUNT
            && self.tap_len <= TAP_IDENTIFY_COUNT
    }

    pub fn new() -> (detector: Self)
        ensures
            detector.wf(),
            detector@ == MemsGestureMemory::blank(),
    {
        MemsGestureDetector {
            shakes_ms: [0; SHAKE_DISCOVERY_COUNT],
            shake_len: 0,
            turns_ms: [0; TURN_CONFIRM_COUNT],
            turn_len: 0,
            taps_ms: [0; TAP_IDENTIFY_COUNT],
            tap_len: 0,
        }
    }

    pub fn record(&mut self, interrupt: MemsInterrupt, at_ms: u64) -> (gesture: Option<MemsGesture>)
        requires
            old(self).wf(),
        ensures
            final(self).wf(),
            final(self)@ == old(self)@.step(interrupt, at_ms).0,
            gesture == old(self)@.step(interrupt, at_ms).1,
    {
        match interrupt {
            MemsInterrupt::Wake => {
                history::push_recent(
                    &mut self.shakes_ms,
                    &mut self.shake_len,
                    at_ms,
                    SHAKE_DISCOVERY_WINDOW_MS,
                );
                if self.shake_len >= SHAKE_DISCOVERY_COUNT {
                    self.shake_len = 0;
                    return Some(MemsGesture::StartDiscovery);
                }
            },
            MemsInterrupt::OrientationChange => {
                history::push_recent(
                    &mut self.turns_ms,
                    &mut self.turn_len,
                    at_ms,
                    TURN_CONFIRM_WINDOW_MS,
                );
                if self.turn_len >= TURN_CONFIRM_COUNT {
                    self.turn_len = 0;
                    return Some(MemsGesture::ConfirmMount);
                }
            },
            MemsInterrupt::Tap => {
                history::push_recent(
                    &mut self.taps_ms,
                    &mut self.tap_len,
                    at_ms,
                    TAP_IDENTIFY_WINDOW_MS,
                );
                if self.tap_len >= TAP_IDENTIFY_COUNT {
                    self.tap_len = 0;
                    return Some(MemsGesture::Identify);
                }
            },
        }
        None
    }
}

impl Default for MemsGestureDetector {
    fn default() -> (detector: Self)
        ensures
            detector.wf(),
            detector@ == MemsGestureMemory::blank(),
    {
        Self::new()
    }
}

/// The decision always names the state that the controller is in afterwards.
pub proof fn decision_names_the_new_state(progress: SetupProgress, event: SetupEvent, at: u64)
    ensures
        progress.decision(event, at).state == progress.after(event, at).state,
{
}

/// Discovery never stays open without an end: while the state is discovery a deadline is set.
pub proof fn discovery_has_a_deadline(progress: SetupProgress, event: SetupEvent, at: u64)
    requires
        progress.state == SetupState::Discovery ==> progress.discovery_deadline_ms is Some,
    ensures
        progress.after(event, at).state == SetupState::Discovery ==> progress.after(
            event,
            at,
        ).discovery_deadline_ms is Some,
{
}

/// A discovery window lasts as long as announced: ticks before its end change nothing, the first
/// one at or after its end leads back to factory-new, and neither shows anything.
pub proof fn discovery_ends_on_time(
    progress: SetupProgress,
    event: SetupEvent,
    at: u64,
    tick_at: u64,
)
    requires
        opened_window_ms(event) matches Some(window) && at + window <= u64::MAX,
    ensures
        ({
            let opened = progress.after(event, at);
            let over = tick_at >= at + opened_window_ms(event).unwrap();
            let ticked = opened.after(SetupEvent::Tick, tick_at);
            &&& opened.state == SetupState::Discovery
            &&& over ==> ticked.state == SetupState::FactoryNew && ticked.discovery_deadline_ms
                is None
            &&& !over ==> ticked == opened
            &&& opened.decision(SetupEvent::Tick, tick_at) == SetupDecision::silent(ticked.state)
        }),
{
}

/// A calibration is captured only with the window closed, and the state then says so.
pub proof fn capture_needs_a_closed_window(progress: SetupProgress, event: SetupEvent, at: u64)
    requires
        progress.decision(event, at).should_capture_calibration,
    ensures
        progress.after(event, at).last_window_state == WindowState::Closed,
        progress.after(event, at).state == SetupState::Calibrating,
{
}

/// A calibration asked for with the window not closed waits, and is captured as soon as the
/// window is reported closed.
pub proof fn waiting_calibration_starts_on_close(
    progress: SetupProgress,
    request: SetupEvent,
    at: u64,
    closed_at: u64,
)
    requires
        asks_for_calibration(request),
        progress.last_window_state != WindowState::Closed,
    ensures
        ({
            let waiting = progress.after(request, at);
            let closed = SetupEvent::WindowState(WindowState::Closed);
            &&& waiting.state == SetupState::WaitingForClosedCalibration
            &&& !progress.decision(request, at).should_capture_calibration
            &&& waiting.after(closed, closed_at).state == SetupState::Calibrating
            &&& waiting.decision(closed, closed_at).should_capture_calibration
        }),
{
}

/// Stored state is cleared on a factory reset and on nothing else, and debug mode is entered on
/// request only.
pub proof fn clearing_and_debug_need_their_event(
    progress: SetupProgress,
    event: SetupEvent,
    at: u64,
)
    ensures
        progress.decision(event, at).should_clear_state <==> event == SetupEvent::MagnetGesture(
            Gesture::FactoryReset,
        ),
        progress.decision(event, at).should_enter_debug <==> event == SetupEvent::DebugRequested,
        progress.after(event, at).state == SetupState::Debug && progress.state
            != SetupState::Debug ==> event == SetupEvent::DebugRequested,
{
}

/// The device becomes ready only by a boot with a calibration or by a stored calibration.
pub proof fn ready_needs_a_calibration(progress: SetupProgress, event: SetupEvent, at: u64)
    requires
        progress.state != SetupState::Ready,
        progress.after(event, at).state == SetupState::Ready,
    ensures
        event == (SetupEvent::Boot { has_calibration: true }) || event
            == SetupEvent::CalibrationStored,
{
}

/// How many interrupts of a kind make a gesture.
pub open spec fn gesture_count(interrupt: MemsInterrupt) -> int {
    match interrupt {
        MemsInterrupt::Wake => SHAKE_DISCOVERY_COUNT as int,
        MemsInterrupt::OrientationChange => TURN_CONFIRM_COUNT as int,
        MemsInterrupt::Tap => TAP_IDENTIFY_COUNT as int,
    }
}

/// How close together the interrupts of a gesture have to be.
pub open spec fn gesture_window_ms(interrupt: MemsInterrupt) -> u64 {
    match interrupt {
        MemsInterrupt::Wake => SHAKE_DISCOVERY_WINDOW_MS,
        MemsInterrupt::OrientationChange => TURN_CONFIRM_WINDOW_MS,
        MemsInterrupt::Tap => TAP_IDENTIFY_WINDOW_MS,
    }
}

/// The gesture that interrupts of a kind make.
pub open spec fn gesture_of(interrupt: MemsInterrupt) -> MemsGesture {
    match interrupt {
        MemsInterrupt::Wake => MemsGesture::StartDiscovery,
        MemsInterrupt::OrientationChange => MemsGesture::ConfirmMount,
        MemsInterrupt::Tap => MemsGesture::Identify,
    }
}

/// What is remembered after interrupts of one kind at `times`, in that order.
pub open spec fn after_interrupts(interrupt: MemsInterrupt, times: Seq<u64>) -> MemsGestureMemory
    decreases times.len(),
{
    if times.len() == 0 {
        MemsGestureMemory::blank()
    } else {
        after_interrupts(interrupt, times.drop_last()).step(interrupt, times.last()).0
    }
}

/// As many interrupts of a kind as make a gesture, in order and within its window, complete the
/// gesture and leave nothing on record; fewer complete nothing.
pub proof fn quick_interrupts_make_a_gesture(interrupt: MemsInterrupt, times: Seq<u64>)
    requires
        history::in_order(times),
        0 < times.len() <= gesture_count(interrupt),
        times.last() - times[0] <= gesture_window_ms(interrupt),
    ensures
        ({
            let (memory, gesture) = after_interrupts(interrupt, times.drop_last()).step(
                interrupt,
                times.last(),
            );
            if times.len() == gesture_count(interrupt) {
                memory == MemsGestureMemory::blank() && gesture == Some(gesture_of(interrupt))
            } else {
                gesture is None
            }
        }),
{
    lemma_interrupts_are_counted(interrupt, times.drop_last());
    history::quick_events_complete_the_count(
        times,
        gesture_count(interrupt),
        gesture_window_ms(interrupt),
        gesture_count(interrupt),
    );
}

/// Interrupts of a kind that lie further apart than its window never make a gesture.
pub proof fn slow_interrupts_make_no_gesture(interrupt: MemsInterrupt, times: Seq<u64>)
    requires
        times.len() > 0,
        forall|i: int|
            0 < i < times.len() ==> #[trigger] times[i] - times[i - 1] > gesture_window_ms(
                interrupt,
            ),
    ensures
        after_interrupts(interrupt, times.drop_last()).step(interrupt, times.last()).1 is None,
{
    lemma_interrupts_are_counted(interrupt, times.drop_last());
    history::slow_events_never_complete_the_count(
        times,
        gesture_count(interrupt),
        gesture_window_ms(interrupt),
        gesture_count(interrupt),
    );
}

proof fn lemma_interrupts_are_counted(interrupt: MemsInterrupt, times: Seq<u64>)
    ensures
        ({
            let entries = history::counted_all(
                times,
                gesture_count(interrupt),
                gesture_window_ms(interrupt),
                gesture_count(interrupt),
            );
            let blank = MemsGestureMemory::blank();
            after_interrupts(interrupt, times) == match interrupt {
                MemsInterrupt::Wake => MemsGestureMemory { shakes: entries, ..blank },
                MemsInterrupt::OrientationChange => MemsGestureMemory { turns: entries, ..blank },
                MemsInterrupt::Tap => MemsGestureMemory { taps: entries, ..blank },
            }
        }),
    decreases times.len(),
{
    if times.len() > 0 {
        lemma_interrupts_are_counted(interrupt, times.drop_last());
    }
}

/// A boot without calibration, the pairing gesture, the factory reset gesture and the shake
/// gesture each lead from every state to discovery: for 300 seconds after the first boot and the
/// factory reset, for 30 seconds after the other two. No other event leads there.
pub proof fn four_events_open_discovery(progress: SetupProgress, event: SetupEvent, at: u64)
    requires
        at + 300_000 <= u64::MAX,
    ensures
        ({
            let after = progress.after(event, at);
            let decision = progress.decision(event, at);
            let long = event == (SetupEvent::Boot { has_calibration: false }) || event
                == SetupEvent::MagnetGesture(Gesture::FactoryReset);
            let short = event == SetupEvent::MagnetGesture(Gesture::Pairing) || event
                == SetupEvent::MemsGesture(MemsGesture::StartDiscovery);
            &&& long ==> after.discovery_deadline_ms == Some((at + 300_000) as u64)
                && decision.discovery_window_ms == Some(300_000u32)
            &&& short ==> after.discovery_deadline_ms == Some((at + 30_000) as u64)
                && decision.discovery_window_ms == Some(30_000u32)
            &&& long || short ==> after.state == SetupState::Discovery && after.last_window_state
                == progress.last_window_state && !decision.should_capture_calibration
            &&& long || short ==> decision.led == if event == SetupEvent::MagnetGesture(
                Gesture::FactoryReset,
            ) {
                LedHint::FactoryResetAlternating
            } else {
                LedHint::DiscoverySlowBlink
            }
            &&& !long && !short ==> decision.discovery_window_ms is None
            &&& !long && !short && after.state == SetupState::Discovery ==> progress.state
                == SetupState::Discovery && after.discovery_deadline_ms
                == progress.discovery_deadline_ms
        }),
{
}

/// Where every other event leads: a boot with calibration and a stored calibration to ready, a
/// tamper alarm to recalibration, a debug request to debug mode, a tick out of discovery once its
/// time is over, and a look at the device nowhere.
pub proof fn events_lead_where_they_should(progress: SetupProgress, at: u64)
    ensures
        ({
            let booted = SetupEvent::Boot { has_calibration: true };
            let stored = SetupEvent::CalibrationStored;
            let tamper = SetupEvent::TamperDetected;
            let debug = SetupEvent::DebugRequested;
            let identify = SetupEvent::MemsGesture(MemsGesture::Identify);
            let window = progress.last_window_state;
            let deadline = progress.discovery_deadline_ms;
            &&& progress.after(booted, at) == (SetupProgress {
                state: SetupState::Ready,
                discovery_deadline_ms: None,
                last_window_state: window,
            })
            &&& progress.after(stored, at) == (SetupProgress {
                state: SetupState::Ready,
                discovery_deadline_ms: None,
                last_window_state: window,
            })
            &&& progress.after(tamper, at) == (SetupProgress {
                state: SetupState::NeedsRecalibration,
                discovery_deadline_ms: deadline,
                last_window_state: window,
            })
            &&& progress.after(debug, at) == (SetupProgress {
                state: SetupState::Debug,
                discovery_deadline_ms: deadline,
                last_window_state: window,
            })
            &&& progress.after(identify, at) == progress
            &&& progress.decision(booted, at).led == LedHint::Silent
            &&& progress.decision(stored, at).led == LedHint::CalibrationOk
            &&& progress.decision(tamper, at).led == LedHint::Attention
            &&& progress.decision(debug, at).led == LedHint::DebugSolid
            &&& progress.decision(identify, at).led == LedHint::IdentifyPulse
        }),
        ({
            let ticked = progress.after(SetupEvent::Tick, at);
            let over = progress.state == SetupState::Discovery && (
            progress.discovery_deadline_ms matches Some(deadline) && deadline <= at);
            &&& progress.decision(SetupEvent::Tick, at).led == LedHint::Silent
            &&& over ==> ticked.state == SetupState::FactoryNew && ticked.discovery_deadline_ms
                is None && ticked.last_window_state == progress.last_window_state
            &&& !over ==> ticked == progress
        }),
{
}

/// The calibration gesture and the confirmed mount both ask for a calibration, from every state:
/// it starts at once if the window was last seen closed, and otherwise waits for that. A report of
/// the window is always remembered, and only starts a calibration that waits for it.
pub proof fn calibration_starts_with_the_closed_window(
    progress: SetupProgress,
    state: WindowState,
    at: u64,
)
    ensures
        ({
            let gesture = SetupEvent::MagnetGesture(Gesture::Calibrate);
            let mount = SetupEvent::MemsGesture(MemsGesture::ConfirmMount);
            let closed = progress.last_window_state == WindowState::Closed;
            let asked = progress.after(gesture, at);
            &&& progress.after(mount, at) == asked
            &&& progress.decision(mount, at) == progress.decision(gesture, at)
            &&& asked.last_window_state == progress.last_window_state
            &&& asked.discovery_deadline_ms == progress.discovery_deadline_ms
            &&& closed ==> asked.state == SetupState::Calibrating
            &&& !closed ==> asked.state == SetupState::WaitingForClosedCalibration
            &&& progress.decision(gesture, at).should_capture_calibration <==> closed
            &&& progress.decision(gesture, at).led == LedHint::CalibrationConfirm
        }),
        ({
            let report = SetupEvent::WindowState(state);
            let seen = progress.after(report, at);
            let starts = progress.state == SetupState::WaitingForClosedCalibration && state
                == WindowState::Closed;
            &&& seen.last_window_state == state
            &&& seen.discovery_deadline_ms == progress.discovery_deadline_ms
            &&& starts ==> seen.state == SetupState::Calibrating
            &&& !starts ==> seen.state == progress.state
            &&& progress.decision(report, at).should_capture_calibration <==> starts
            &&& progress.decision(report, at).led == if starts {
                LedHint::CalibrationConfirm
            } else {
                LedHint::Silent
            }
        }),
{
}

/// A calibration is called for while one is awaited, under way or due again, and at no other time.
pub proof fn three_states_need_calibration(state: SetupState)
    ensures
        state.needs_calibration() <==> !(state == SetupState::FactoryNew || state
            == SetupState::Discovery || state == SetupState::Ready || state == SetupState::Debug),
{
}

/// What one interrupt does, told by the times of those of its kind before it: the third shake
/// within four seconds starts discovery, the second turn within five seconds confirms the mount,
/// the second tap within one and a half seconds identifies the device. A gesture empties the
/// record of its kind; an interrupt that makes none is put on record. The other kinds are never
/// touched.
pub proof fn interrupts_are_judged_by_their_spans(memory: MemsGestureMemory, at: u64)
    requires
        memory.shakes.len() <= 3,
        memory.turns.len() <= 2,
        memory.taps.len() <= 2,
        history::in_order(memory.shakes),
        history::in_order(memory.turns),
        history::in_order(memory.taps),
        memory.shakes.len() > 0 ==> memory.shakes.last() <= at,
        memory.turns.len() > 0 ==> memory.turns.last() <= at,
        memory.taps.len() > 0 ==> memory.taps.last() <= at,
    ensures
        ({
            let (after, gesture) = memory.step(MemsInterrupt::Wake, at);
            let n = memory.shakes.len() as int;
            let shaken = n >= 2 && at - memory.shakes[n - 2] <= 4_000;
            &&& shaken ==> gesture == Some(MemsGesture::StartDiscovery) && after.shakes.len() == 0
            &&& !shaken ==> gesture is None && after.shakes.len() > 0 && after.shakes.last() == at
            &&& after.turns == memory.turns && after.taps == memory.taps
        }),
        ({
            let (after, gesture) = memory.step(MemsInterrupt::OrientationChange, at);
            let turned = memory.turns.len() > 0 && at - memory.turns.last() <= 5_000;
            &&& turned ==> gesture == Some(MemsGesture::ConfirmMount) && after.turns.len() == 0
            &&& !turned ==> gesture is None && after.turns == seq![at]
            &&& after.shakes == memory.shakes && after.taps == memory.taps
        }),
        ({
            let (after, gesture) = memory.step(MemsInterrupt::Tap, at);
            let tapped = memory.taps.len() > 0 && at - memory.taps.last() <= 1_500;
            &&& tapped ==> gesture == Some(MemsGesture::Identify) && after.taps.len() == 0
            &&& !tapped ==> gesture is None && after.taps == seq![at]
            &&& after.shakes == memory.shakes && after.turns == memory.turns
        }),
{
    let s = history::noted_keeps_what_is_recent(memory.shakes, 3, at, SHAKE_DISCOVERY_WINDOW_MS);
    let r = history::noted_keeps_what_is_recent(memory.turns, 2, at, TURN_CONFIRM_WINDOW_MS);
    let p = history::noted_keeps_what_is_recent(memory.taps, 2, at, TAP_IDENTIFY_WINDOW_MS);
    let n = memory.shakes.len() as int;
    if n >= 2 {
        assert(s <= n - 2 <==> at - memory.shakes[n - 2] <= 4_000);
        assert(memory.shakes[n - 2] <= memory.shakes[n - 1]);
    }
    if memory.turns.len() > 0 {
        let last = memory.turns.len() - 1;
        assert(r <= last <==> at - memory.turns[last] <= 5_000);
    }
    if memory.taps.len() > 0 {
        let last = memory.taps.len() - 1;
        assert(p <= last <==> at - memory.taps[last] <= 1_500);
    }
}

} // verus!
