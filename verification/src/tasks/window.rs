//! Window monitoring: what a change of the magnetic field means, and calibration.
//!
//! The field sensor wakes the device when the field drops. A field that is still strong means
//! that the window is closed; otherwise a burst of samples is captured and classified. The
//! strengths themselves are measured and compared by the caller.

use crate::classifier;
use crate::classifier::{classify_burst, MagSample, SampleLevel, WindowState};
use crate::gesture;
use crate::gesture::{Gesture, GestureDetector, GestureMemory};
use crate::settings::SocSettings;
use crate::setup::SetupEvent;
use crate::window_tuning::{BURST_SAMPLES, CALIBRATION_MAX_ATTEMPTS, MIN_SAMPLES_FOR_OPEN};
use vstd::prelude::*;

verus! {

/// Window event sent to BLE task
#[derive(Clone, Copy, Debug, PartialEq, Eq, Structural)]
pub struct WindowEvent {
    pub state: WindowState,
    /// Peak magnitude observed during the transition (mT × 10 as u16 for compactness)
    pub peak_mt_x10: u16,
}

/// A change of the window state, and the magnet gesture that it completes, if it does.
#[derive(Clone, Copy, Debug, PartialEq, Eq, Structural)]
pub struct Transition {
    pub state: WindowState,
    pub gesture: Option<Gesture>,
}

impl Transition {
    /// What setup is told, in this order: the gesture first, if there is one.
    pub fn setup_events(self) -> (events: (Option<SetupEvent>, SetupEvent))
        ensures
            events.0 == match self.gesture {
                Some(gesture) => Some(SetupEvent::MagnetGesture(gesture)),
                None => None,
            },
            events.1 == SetupEvent::WindowState(self.state),
    {
        let gesture = match self.gesture {
            Some(gesture) => Some(SetupEvent::MagnetGesture(gesture)),
            None => None,
        };
        (gesture, SetupEvent::WindowState(self.state))
    }
}

/// What to do after the field sensor woke the device.
#[derive(Clone, Copy, Debug, PartialEq, Eq, Structural)]
pub enum FieldAction {
    /// Report the change, if there was one, and arm the field sensor again.
    Rearm(Option<Transition>),
    /// Capture a burst.
    CaptureBurst,
}

/// Follows the window from one wake-up to the next.
#[derive(Clone, Copy, Debug, PartialEq, Eq)]
pub struct WindowMonitor {
    state: WindowState,
    gestures: GestureDetector,
}

/// What a [`WindowMonitor`] goes by.
#[verifier::ext_equal]
pub struct WindowProgress {
    pub state: WindowState,
    pub gestures: GestureMemory,
}

impl WindowProgress {
    /// A window that has not moved since the device was started is taken to be closed.
    pub open spec fn start() -> Self {
        WindowProgress { state: WindowState::Closed, gestures: GestureMemory::blank() }
    }

    /// Where things stand once the window has been found in `state`, and what there is to report.
    pub open spec fn found(self, state: WindowState, at: u64) -> (Self, Option<Transition>) {
        if state == self.state {
            (self, None)
        } else {
            let (gestures, gesture) = self.gestures.step(at);
            (WindowProgress { state, gestures }, Some(Transition { state, gesture }))
        }
    }
}

impl View for WindowMonitor {
    type V = WindowProgress;

    closed spec fn view(&self) -> WindowProgress {
        WindowProgress { state: self.state, gestures: self.gestures@ }
    }
}

impl WindowMonitor {
    /// The gesture detector is in order.
    pub closed spec fn wf(&self) -> bool {
        self.gestures.wf()
    }

    pub fn new() -> (monitor: Self)
        ensures
            monitor.wf(),
            monitor@ == WindowProgress::start(),
    {
        WindowMonitor { state: WindowState::Closed, gestures: GestureDetector::new() }
    }

    /// Judges the first sample after a wake-up. `above_closed_threshold` tells whether the field
    /// is so strong that the window must be closed.
    pub fn on_field(&mut self, above_closed_threshold: bool, at_ms: u64) -> (action: FieldAction)
        requires
            old(self).wf(),
        ensures
            final(self).wf(),
            above_closed_threshold ==> final(self)@ == old(self)@.found(
                WindowState::Closed,
                at_ms,
            ).0 && action == FieldAction::Rearm(old(self)@.found(WindowState::Closed, at_ms).1),
            !above_closed_threshold ==> final(self)@ == old(self)@ && action
                == FieldAction::CaptureBurst,
    {
        if above_closed_threshold {
            FieldAction::Rearm(self.note(WindowState::Closed, at_ms))
        } else {
            FieldAction::CaptureBurst
        }
    }

    /// Judges a burst, and returns what there is to report.
    pub fn on_burst(&mut self, burst: &[SampleLevel], at_ms: u64) -> (change: Option<Transition>)
        requires
            old(self).wf(),
        ensures
            final(self).wf(),
            ({
                let state = classifier::burst_state(burst@, 5);
                &&& final(self)@ == old(self)@.found(state, at_ms).0
                &&& change == old(self)@.found(state, at_ms).1
            }),
    {
        let state = classify_burst(burst, MIN_SAMPLES_FOR_OPEN);
        self.note(state, at_ms)
    }

    fn note(&mut self, state: WindowState, at_ms: u64) -> (change: Option<Transition>)
        requires
            old(self).wf(),
        ensures
            final(self).wf(),
            final(self)@ == old(self)@.found(state, at_ms).0,
            change == old(self)@.found(state, at_ms).1,
    {
        if state == self.state {
            return None;
        }
        self.state = state;
        let gesture = self.gestures.record_transition(at_ms);
        Some(Transition { state, gesture })
    }
}

/// A burst of samples under way. Reading stops when the burst is full or a sample cannot be read;
/// samples that were not read are zero.
#[derive(Clone, Copy, Debug, PartialEq, Eq)]
pub struct BurstCapture {
    samples: [MagSample; BURST_SAMPLES],
    len: usize,
    failed: bool,
}

/// What a [`BurstCapture`] holds.
#[verifier::ext_equal]
pub struct BurstProgress {
    /// The samples read so far.
    pub read: Seq<MagSample>,
    /// Whether a sample could not be read.
    pub failed: bool,
}

impl BurstProgress {
    /// Whether there is another sample to read.
    pub open spec fn wants_more(self) -> bool {
        !self.failed && self.read.len() < BURST_SAMPLES
    }

    /// After an attempt to read a sample.
    pub open spec fn after(self, sample: Option<MagSample>) -> Self {
        if !self.wants_more() {
            self
        } else {
            match sample {
                Some(sample) => BurstProgress { read: self.read.push(sample), ..self },
                None => BurstProgress { failed: true, ..self },
            }
        }
    }

    /// The whole burst.
    pub open spec fn burst(self) -> Seq<MagSample> {
        Seq::new(
            BURST_SAMPLES as nat,
            |i: int|
                if i < self.read.len() {
                    self.read[i]
                } else {
                    MagSample { x_raw: 0, y_raw: 0, z_raw: 0 }
                },
        )
    }
}

impl View for BurstCapture {
    type V = BurstProgress;

    closed spec fn view(&self) -> BurstProgress {
        BurstProgress { read: self.samples@.take(self.len as int), failed: self.failed }
    }
}

impl BurstCapture {
    /// There is a first sample, the burst fits its storage, and what was not read is zero.
    pub closed spec fn wf(&self) -> bool {
        &&& 1 <= self.len <= BURST_SAMPLES
        &&& forall|i: int|
            self.len <= i < BURST_SAMPLES ==> #[trigger] self.samples@[i] == (MagSample {
                x_raw: 0,
                y_raw: 0,
                z_raw: 0,
            })
    }

    /// Starts a burst with the sample that called for it.
    pub fn new(first: MagSample) -> (capture: Self)
        ensures
            capture.wf(),
            capture@ == (BurstProgress { read: seq![first], failed: false }),
    {
        let mut samples = [MagSample { x_raw: 0, y_raw: 0, z_raw: 0 };BURST_SAMPLES];
        samples[0] = first;
        BurstCapture { samples, len: 1, failed: false }
    }

    /// Whether there is another sample to read.
    pub fn wants_more(&self) -> (more: bool)
        requires
            self.wf(),
        ensures
            more == self@.wants_more(),
    {
        !self.failed && self.len < BURST_SAMPLES
    }

    /// Takes note of an attempt to read a sample.
    pub fn record(&mut self, sample: Option<MagSample>)
        requires
            old(self).wf(),
        ensures
            final(self).wf(),
            final(self)@ == old(self)@.after(sample),
    {
        if !self.wants_more() {
            return ;
        }
        match sample {
            Some(sample) => {
                self.samples[self.len] = sample;
                self.len = self.len + 1;
            },
            None => {
                self.failed = true;
            },
        }
    }

    /// The whole burst.
    pub fn burst(&self) -> (burst: [MagSample; BURST_SAMPLES])
        requires
            self.wf(),
        ensures
            burst@ == self@.burst(),
    {
        self.samples
    }
}

/// The position of the window for which the field is to be captured.
#[derive(Clone, Copy, Debug, PartialEq, Eq, Structural)]
pub enum CalibrationPhase {
    Closed,
    Tilt,
    Open,
}

/// The field strengths that a calibration goes by, in a unit of the caller's choice.
#[derive(Clone, Copy, Debug, PartialEq, Eq)]
pub struct Baselines<T> {
    pub closed: T,
    pub tilt: T,
    pub open: T,
}

impl<T> Baselines<T> {
    /// With the strength for one position replaced.
    pub open spec fn with(self, phase: CalibrationPhase, baseline: T) -> Self {
        match phase {
            CalibrationPhase::Closed => Baselines { closed: baseline, ..self },
            CalibrationPhase::Tilt => Baselines { tilt: baseline, ..self },
            CalibrationPhase::Open => Baselines { open: baseline, ..self },
        }
    }
}

/// What to do after a window of calibration samples.
#[derive(Clone, Copy, Debug, PartialEq, Eq, Structural)]
pub enum CaptureStep {
    /// The field was steady: its average is the baseline.
    Settled,
    /// It was not, and there is another attempt.
    Retry,
    /// It was not, and this was the last attempt.
    GiveUp,
}

/// Judges the window of calibration samples number `attempt`, counted from zero.
pub fn after_capture_window(attempt: usize, stable: bool) -> (step: CaptureStep)
    ensures
        step == if stable {
            CaptureStep::Settled
        } else if attempt + 1 < CALIBRATION_MAX_ATTEMPTS {
            CaptureStep::Retry
        } else {
            CaptureStep::GiveUp
        },
        step is Retry <==> !stable && attempt < 5,
        step is Settled <==> stable,
{
    if stable {
        CaptureStep::Settled
    } else if attempt < CALIBRATION_MAX_ATTEMPTS - 1 {
        CaptureStep::Retry
    } else {
        CaptureStep::GiveUp
    }
}

/// The calibration that a captured baseline would make: the one under way with that baseline
/// replaced. A capture of the closed window starts one if there is none, from `fresh`; the others
/// need one.
pub open spec fn candidate_of<T>(
    pending: Option<Baselines<T>>,
    phase: CalibrationPhase,
    baseline: T,
    fresh: Baselines<T>,
) -> Option<Baselines<T>> {
    match (pending, phase) {
        (Some(pending), _) => Some(pending.with(phase, baseline)),
        (None, CalibrationPhase::Closed) => Some(fresh.with(phase, baseline)),
        (None, _) => None,
    }
}

pub fn calibration_candidate<T: Copy>(
    pending: Option<Baselines<T>>,
    phase: CalibrationPhase,
    baseline: T,
    fresh: Baselines<T>,
) -> (candidate: Option<Baselines<T>>)
    ensures
        candidate == candidate_of(pending, phase, baseline, fresh),
{
    let base = match pending {
        Some(pending) => pending,
        None => {
            if !matches!(phase, CalibrationPhase::Closed) {
                return None;
            }
            fresh
        },
    };
    Some(
        match phase {
            CalibrationPhase::Closed => Baselines {
                closed: baseline,
                tilt: base.tilt,
                open: base.open,
            },
            CalibrationPhase::Tilt => Baselines {
                closed: base.closed,
                tilt: baseline,
                open: base.open,
            },
            CalibrationPhase::Open => Baselines {
                closed: base.closed,
                tilt: base.tilt,
                open: baseline,
            },
        },
    )
}

/// What came of a calibration request.
#[derive(Clone, Copy, Debug, PartialEq, Eq)]
pub enum CalibrationOutcome<T> {
    /// The baseline is kept for the calibration under way.
    Captured(Baselines<T>),
    /// The calibration is complete.
    Stored(Baselines<T>),
    Rejected,
}

/// Whether the field strengths of a capture can be what they are taken for.
#[derive(Clone, Copy, Debug, PartialEq, Eq, Structural)]
pub struct Plausibility {
    /// The captured strength could be that of a closed window.
    pub as_closed: bool,
    /// The three strengths together make sense.
    pub as_calibration: bool,
}

impl Plausibility {
    /// Whether a capture passes: for the closed window its own strength counts, for the open
    /// window all three, for the tilted window nothing.
    pub open spec fn passes(self, phase: CalibrationPhase) -> bool {
        match phase {
            CalibrationPhase::Closed => self.as_closed,
            CalibrationPhase::Tilt => true,
            CalibrationPhase::Open => self.as_calibration,
        }
    }
}

/// What comes of a calibration request, given the candidate, if there is one. Only a capture of
/// the open window completes a calibration.
pub open spec fn outcome_of<T>(
    phase: CalibrationPhase,
    candidate: Option<Baselines<T>>,
    plausibility: Plausibility,
) -> CalibrationOutcome<T> {
    match candidate {
        Some(next) if plausibility.passes(phase) => if phase == CalibrationPhase::Open {
            CalibrationOutcome::Stored(next)
        } else {
            CalibrationOutcome::Captured(next)
        },
        _ => CalibrationOutcome::Rejected,
    }
}

pub fn calibration_outcome<T: Copy>(
    phase: CalibrationPhase,
    candidate: Option<Baselines<T>>,
    plausibility: Plausibility,
) -> (outcome: CalibrationOutcome<T>)
    ensures
        outcome == outcome_of(phase, candidate, plausibility),
{
    let next = match candidate {
        Some(next) => next,
        None => {
            return CalibrationOutcome::Rejected;
        },
    };
    match phase {
        CalibrationPhase::Tilt => CalibrationOutcome::Captured(next),
        CalibrationPhase::Closed => {
            if plausibility.as_closed {
                CalibrationOutcome::Captured(next)
            } else {
                CalibrationOutcome::Rejected
            }
        },
        CalibrationPhase::Open => {
            if plausibility.as_calibration {
                CalibrationOutcome::Stored(next)
            } else {
                CalibrationOutcome::Rejected
            }
        },
    }
}

impl<T> CalibrationOutcome<T> {
    /// The calibration under way after this outcome.
    pub open spec fn pending(self, before: Option<Baselines<T>>) -> Option<Baselines<T>> {
        match self {
            CalibrationOutcome::Captured(next) => Some(next),
            CalibrationOutcome::Stored(next) => Some(next),
            CalibrationOutcome::Rejected => before,
        }
    }

    /// The position to capture next, once the window is moved there.
    pub open spec fn next_phase(self, phase: CalibrationPhase) -> Option<CalibrationPhase> {
        match (self, phase) {
            (CalibrationOutcome::Captured(_), CalibrationPhase::Closed) => Some(
                CalibrationPhase::Tilt,
            ),
            (CalibrationOutcome::Captured(_), CalibrationPhase::Tilt) => Some(
                CalibrationPhase::Open,
            ),
            _ => None,
        }
    }
}

/// The calibration under way after an outcome.
pub fn pending_after<T: Copy>(
    pending: Option<Baselines<T>>,
    outcome: CalibrationOutcome<T>,
) -> (after: Option<Baselines<T>>)
    ensures
        after == outcome.pending(pending),
{
    match outcome {
        CalibrationOutcome::Captured(next) => Some(next),
        CalibrationOutcome::Stored(next) => Some(next),
        CalibrationOutcome::Rejected => pending,
    }
}

/// The position to capture after an outcome, once the window is moved there: tilted after
/// closed, and open after tilted.
pub fn follow_up_phase<T: Copy>(phase: CalibrationPhase, outcome: CalibrationOutcome<T>) -> (next:
    Option<CalibrationPhase>)
    ensures
        next == outcome.next_phase(phase),
{
    match (outcome, phase) {
        (CalibrationOutcome::Captured(_), CalibrationPhase::Closed) => Some(CalibrationPhase::Tilt),
        (CalibrationOutcome::Captured(_), CalibrationPhase::Tilt) => Some(CalibrationPhase::Open),
        _ => None,
    }
}

/// The position to capture now that the window is in `state`: the one that is next, if it is
/// there.
pub fn phase_to_capture(next: Option<CalibrationPhase>, state: WindowState) -> (phase: Option<
    CalibrationPhase,
>)
    ensures
        phase == match (next, state) {
            (Some(CalibrationPhase::Closed), WindowState::Closed) => next,
            (Some(CalibrationPhase::Tilt), WindowState::Tilt) => next,
            (Some(CalibrationPhase::Open), WindowState::Open) => next,
            _ => None,
        },
{
    match (next, state) {
        (Some(CalibrationPhase::Closed), WindowState::Closed) => next,
        (Some(CalibrationPhase::Tilt), WindowState::Tilt) => next,
        (Some(CalibrationPhase::Open), WindowState::Open) => next,
        _ => None,
    }
}

/// The settings to store for a complete calibration.
pub fn calibrated_settings(stored: SocSettings, closed_baseline_mt_x10: u16) -> (settings:
    SocSettings)
    ensures
        settings == (SocSettings {
            window_calibrated: true,
            window_closed_baseline_mt_x10: closed_baseline_mt_x10,
            ..stored
        }),
{
    SocSettings {
        autocal_complete: stored.autocal_complete,
        last_battery_percent: stored.last_battery_percent,
        best_resistance_mohm: stored.best_resistance_mohm,
        window_calibrated: true,
        window_closed_baseline_mt_x10: closed_baseline_mt_x10,
    }
}

/// The window is reported exactly when its state changes, with the new state, and each change
/// counts once towards a magnet gesture; finding it where it was changes nothing at all.
pub proof fn only_changes_are_reported(progress: WindowProgress, state: WindowState, at: u64)
    ensures
        ({
            let (after, change) = progress.found(state, at);
            &&& after.state == state
            &&& change is Some <==> state != progress.state
            &&& change is Some ==> change->0.state == state && change->0.gesture
                == progress.gestures.step(at).1 && after.gestures == progress.gestures.step(at).0
            &&& change is None ==> after == progress
            &&& after.found(state, at) == (after, None::<Transition>)
        }),
{
}

/// A burst always has its full length, starts with the sample that called for it, and keeps the
/// samples in the order in which they were read.
pub proof fn burst_keeps_its_samples(progress: BurstProgress, sample: Option<MagSample>)
    requires
        1 <= progress.read.len() <= BURST_SAMPLES,
    ensures
        progress.burst().len() == BURST_SAMPLES,
        progress.read.is_prefix_of(progress.burst()),
        progress.after(sample).read.len() <= BURST_SAMPLES,
        progress.read.is_prefix_of(progress.after(sample).read),
        progress.after(None).wants_more() == false,
{
}

/// A calibration is stored only with all three baselines: without a closed baseline the other
/// positions are rejected, and what is stored is what was captured for each of them.
pub proof fn calibration_needs_every_position<T>(
    fresh: Baselines<T>,
    closed: T,
    tilt: T,
    open: T,
    plausibility: Plausibility,
)
    ensures
        outcome_of(
            CalibrationPhase::Tilt,
            candidate_of(None, CalibrationPhase::Tilt, tilt, fresh),
            plausibility,
        ) is Rejected,
        outcome_of(
            CalibrationPhase::Open,
            candidate_of(None, CalibrationPhase::Open, open, fresh),
            plausibility,
        ) is Rejected,
        plausibility.as_closed && plausibility.as_calibration ==> {
            let first = outcome_of(
                CalibrationPhase::Closed,
                candidate_of(None, CalibrationPhase::Closed, closed, fresh),
                plausibility,
            );
            let second = outcome_of(
                CalibrationPhase::Tilt,
                candidate_of(first.pending(None), CalibrationPhase::Tilt, tilt, fresh),
                plausibility,
            );
            let third = outcome_of(
                CalibrationPhase::Open,
                candidate_of(
                    second.pending(first.pending(None)),
                    CalibrationPhase::Open,
                    open,
                    fresh,
                ),
                plausibility,
            );
            &&& first.next_phase(CalibrationPhase::Closed) == Some(CalibrationPhase::Tilt)
            &&& second.next_phase(CalibrationPhase::Tilt) == Some(CalibrationPhase::Open)
            &&& third == CalibrationOutcome::Stored(Baselines { closed, tilt, open })
        },
{
}

/// A rejected capture leaves the calibration under way as it was, and asks for no other.
pub proof fn rejection_keeps_what_was_captured<T>(
    pending: Option<Baselines<T>>,
    phase: CalibrationPhase,
    candidate: Option<Baselines<T>>,
    plausibility: Plausibility,
)
    ensures
        candidate is None || !plausibility.passes(phase) ==> ({
            let outcome = outcome_of(phase, candidate, plausibility);
            &&& outcome is Rejected
            &&& outcome.pending(pending) == pending
            &&& outcome.next_phase(phase) is None
        }),
{
}

/// A burst holds twelve samples: those that were read, in their order, and zeros for the rest.
/// Reading goes on until it is full or a sample cannot be read, and takes nothing after that.
pub proof fn bursts_fill_up_with_zeros(progress: BurstProgress, sample: MagSample, i: int)
    ensures
        progress.burst().len() == 12,
        0 <= i < 12 && i < progress.read.len() ==> progress.burst()[i] == progress.read[i],
        progress.read.len() <= i < 12 ==> progress.burst()[i].x_raw == 0 && progress.burst()[i].y_raw
            == 0 && progress.burst()[i].z_raw == 0,
        progress.wants_more() <==> !progress.failed && progress.read.len() < 12,
        progress.wants_more() ==> {
            let after = progress.after(Some(sample));
            let failed = progress.after(None);
            &&& after.read.len() == progress.read.len() + 1
            &&& after.read.last() == sample && after.read.drop_last() == progress.read
            &&& !after.failed
            &&& failed.failed && failed.read == progress.read
        },
        !progress.wants_more() ==> progress.after(Some(sample)) == progress && progress.after(None)
            == progress,
{
    if progress.wants_more() {
        assert(progress.read.push(sample).drop_last() == progress.read);
    }
}

/// A captured baseline takes its own place and leaves the other two; it starts from scratch only
/// where no calibration is under way, and only for the closed window. It is kept unless it is not
/// plausible, which only a strength of the closed window by itself and all three together at the
/// open window can be; and the open window ends the calibration.
pub proof fn captures_fill_in_their_position<T>(
    pending: Option<Baselines<T>>,
    phase: CalibrationPhase,
    baseline: T,
    fresh: Baselines<T>,
    plausibility: Plausibility,
)
    ensures
        ({
            let candidate = candidate_of(pending, phase, baseline, fresh);
            let base = if pending is Some {
                pending->0
            } else {
                fresh
            };
            let outcome = outcome_of(phase, candidate, plausibility);
            &&& candidate is None <==> pending is None && phase != CalibrationPhase::Closed
            &&& candidate matches Some(made) ==> {
                &&& made.closed == if phase == CalibrationPhase::Closed {
                    baseline
                } else {
                    base.closed
                }
                &&& made.tilt == if phase == CalibrationPhase::Tilt {
                    baseline
                } else {
                    base.tilt
                }
                &&& made.open == if phase == CalibrationPhase::Open {
                    baseline
                } else {
                    base.open
                }
            }
            &&& outcome is Rejected <==> {
                ||| candidate is None
                ||| phase == CalibrationPhase::Closed && !plausibility.as_closed
                ||| phase == CalibrationPhase::Open && !plausibility.as_calibration
            }
            &&& outcome is Stored <==> outcome !is Rejected && phase == CalibrationPhase::Open
            &&& outcome matches CalibrationOutcome::Stored(made) ==> Some(made) == candidate
                && outcome.pending(pending) == candidate
            &&& outcome matches CalibrationOutcome::Captured(made) ==> Some(made) == candidate
                && outcome.pending(pending) == candidate
            &&& outcome is Rejected ==> outcome.pending(pending) == pending
            &&& outcome.next_phase(phase) == Some(CalibrationPhase::Tilt) <==> outcome !is Rejected
                && phase == CalibrationPhase::Closed
            &&& outcome.next_phase(phase) == Some(CalibrationPhase::Open) <==> outcome !is Rejected
                && phase == CalibrationPhase::Tilt
            &&& outcome.next_phase(phase) != Some(CalibrationPhase::Closed)
        }),
{
}

/// A device that starts takes the window to be closed and remembers no gesture, so that the first
/// report is that it is not closed.
pub proof fn windows_start_closed(state: WindowState, at: u64)
    ensures
        ({
            let (after, change) = WindowProgress::start().found(state, at);
            &&& change is None <==> state == WindowState::Closed
            &&& change matches Some(transition) ==> transition.state == state
                && transition.gesture is None
            &&& change is Some ==> after.gestures.transitions == seq![at]
        }),
{
    let _ = gesture::transitions_are_judged_by_their_spans(GestureMemory::blank(), at);
}

} // verus!
