//! MEMS-driven button/event detection from knock and sustained motion patterns.

use crate::bthome::ButtonEvent;
use crate::history;
use vstd::prelude::*;

verus! {

pub const MAX_KNOCKS: usize = 3;

#[derive(Clone, Copy, Debug, PartialEq, Eq, Structural)]
pub struct MemsButtonConfig {
    pub multi_knock_window_ms: u64,
    pub finalize_quiet_ms: u64,
    pub long_press_ms: u64,
    pub hold_press_ms: u64,
}

impl MemsButtonConfig {
    /// The shipping configuration.
    pub open spec fn shipping() -> Self {
        MemsButtonConfig {
            multi_knock_window_ms: 900,
            finalize_quiet_ms: 700,
            long_press_ms: 1_500,
            hold_press_ms: 2_500,
        }
    }
}

impl Default for MemsButtonConfig {
    fn default() -> (config: Self)
        ensures
            config == Self::shipping(),
    {
        MemsButtonConfig {
            multi_knock_window_ms: 900,
            finalize_quiet_ms: 700,
            long_press_ms: 1_500,
            hold_press_ms: 2_500,
        }
    }
}

#[derive(Clone, Copy, Debug, PartialEq, Eq, Structural)]
pub enum MemsButtonSignal {
    Knock,
    MotionStart,
    MotionEnd,
    Tick,
}

#[derive(Clone, Copy, Debug, PartialEq, Eq)]
pub struct MemsButtonDetector {
    config: MemsButtonConfig,
    knocks_ms: [u64; MAX_KNOCKS],
    knock_len: usize,
    motion_start_ms: Option<u64>,
    hold_reported: bool,
}

/// What a [`MemsButtonDetector`] remembers: the knocks of the current group, oldest first, the
/// start of the current motion, and whether that motion was already reported as a hold.
#[verifier::ext_equal]
pub struct MemsButtonMemory {
    pub config: MemsButtonConfig,
    pub knocks: Seq<u64>,
    pub motion_start_ms: Option<u64>,
    pub hold_reported: bool,
}

/// The press that a group of knocks stands for.
pub open spec fn press_for(knocks: nat) -> ButtonEvent {
    if knocks == 1 {
        ButtonEvent::Press
    } else if knocks == 2 {
        ButtonEvent::DoublePress
    } else {
        ButtonEvent::TriplePress
    }
}

impl MemsButtonMemory {
    /// Nothing recorded.
    pub open spec fn blank(config: MemsButtonConfig) -> Self {
        MemsButtonMemory {
            config,
            knocks: Seq::empty(),
            motion_start_ms: None,
            hold_reported: false,
        }
    }

    /// Whether the current motion is due to be reported as a hold at `at`.
    pub open spec fn hold_due(self, at: u64) -> bool {
        !self.hold_reported && (self.motion_start_ms matches Some(started) && history::monus(
            at as int,
            started as int,
        ) >= self.config.hold_press_ms)
    }

    /// Whether the current group of knocks is complete at `at`.
    pub open spec fn knocks_done(self, at: u64) -> bool {
        self.knocks.len() > 0 && history::monus(at as int, self.knocks.last() as int)
            >= self.config.finalize_quiet_ms
    }

    /// What is remembered after `signal` at `at`.
    pub open spec fn after(self, signal: MemsButtonSignal, at: u64) -> Self {
        match signal {
            MemsButtonSignal::Knock => MemsButtonMemory {
                knocks: history::noted(
                    self.knocks,
                    MAX_KNOCKS as int,
                    at,
                    self.config.multi_knock_window_ms,
                ),
                ..self
            },
            MemsButtonSignal::MotionStart => MemsButtonMemory {
                motion_start_ms: Some(at),
                hold_reported: false,
                ..self
            },
            MemsButtonSignal::MotionEnd => if self.motion_start_ms is Some {
                MemsButtonMemory { motion_start_ms: None, hold_reported: false, ..self }
            } else {
                self
            },
            MemsButtonSignal::Tick => if self.hold_due(at) {
                MemsButtonMemory { hold_reported: true, ..self }
            } else if self.knocks_done(at) {
                MemsButtonMemory { knocks: Seq::empty(), ..self }
            } else {
                self
            },
        }
    }

    /// The button event that `signal` at `at` completes.
    pub open spec fn event(self, signal: MemsButtonSignal, at: u64) -> Option<ButtonEvent> {
        match signal {
            MemsButtonSignal::MotionEnd => match self.motion_start_ms {
                Some(started) if !self.hold_reported && history::monus(
                    at as int,
                    started as int,
                ) >= self.config.long_press_ms => Some(ButtonEvent::LongPress),
                _ => None,
            },
            MemsButtonSignal::Tick => if self.hold_due(at) {
                Some(ButtonEvent::HoldPress)
            } else if self.knocks_done(at) {
                Some(press_for(self.knocks.len()))
            } else {
                None
            },
            _ => None,
        }
    }

    /// When the current group of knocks is complete, if there is one.
    pub open spec fn knock_deadline(self) -> Option<int> {
        if self.knocks.len() > 0 {
            Some(self.knocks.last() + self.config.finalize_quiet_ms)
        } else {
            None
        }
    }

    /// When the current motion becomes a hold, if it still can.
    pub open spec fn hold_deadline(self) -> Option<int> {
        match self.motion_start_ms {
            Some(started) if !self.hold_reported => Some(started + self.config.hold_press_ms),
            _ => None,
        }
    }

    /// The earlier of the two deadlines.
    pub open spec fn deadline(self) -> Option<int> {
        match (self.knock_deadline(), self.hold_deadline()) {
            (Some(knock), Some(hold)) => Some(if knock <= hold { knock } else { hold }),
            (Some(knock), None) => Some(knock),
            (None, hold) => hold,
        }
    }
}

impl View for MemsButtonDetector {
    type V = MemsButtonMemory;

    closed spec fn view(&self) -> MemsButtonMemory {
        MemsButtonMemory {
            config: self.config,
            knocks: history::live(self.knocks_ms@, self.knock_len as int),
            motion_start_ms: self.motion_start_ms,
            hold_reported: self.hold_reported,
        }
    }
}

impl MemsButtonDetector {
    /// The knocks fit their storage.
    pub closed spec fn wf(self) -> bool {
        self.knock_len <= MAX_KNOCKS
    }

    pub fn new(config: MemsButtonConfig) -> (detector: Self)
        ensures
            detector.wf(),
            detector@ == MemsButtonMemory::blank(config),
    {
        MemsButtonDetector {
            config,
            knocks_ms: [0; MAX_KNOCKS],
            knock_len: 0,
            motion_start_ms: None,
            hold_reported: false,
        }
    }

    pub fn record(&mut self, signal: MemsButtonSignal, at_ms: u64) -> (event: Option<ButtonEvent>)
        requires
            old(self).wf(),
        ensures
            final(self).wf(),
            final(self)@ == old(self)@.after(signal, at_ms),
            event == old(self)@.event(signal, at_ms),
    {
        match signal {
            MemsButtonSignal::Knock => {
                self.prune_knocks(at_ms);
                self.push_knock(at_ms);
                None
            },
            MemsButtonSignal::MotionStart => {
                self.motion_start_ms = Some(at_ms);
                self.hold_reported = false;
                None
            },
            MemsButtonSignal::MotionEnd => self.finish_motion(at_ms),
            MemsButtonSignal::Tick => {
                if let Some(event) = self.maybe_emit_hold(at_ms) {
                    return Some(event);
                }
                self.finalize_knocks(at_ms)
            },
        }
    }

    pub fn next_deadline_ms(&self, _now_ms: u64) -> (deadline: Option<u64>)
        requires
            self.wf(),
            self@.knock_deadline() matches Some(knock) ==> knock <= u64::MAX,
            self@.hold_deadline() matches Some(hold) ==> hold <= u64::MAX,
        ensures
            deadline is Some <==> self@.deadline() is Some,
            deadline matches Some(ms) ==> self@.deadline() == Some(ms as int),
    {
        let knock_deadline = if self.knock_len > 0 {
            Some(self.knocks_ms[self.knock_len - 1] + self.config.finalize_quiet_ms)
        } else {
            None
        };
        let hold_deadline = match self.motion_start_ms {
            Some(started) if !self.hold_reported => Some(started + self.config.hold_press_ms),
            _ => None,
        };
        match (knock_deadline, hold_deadline) {
            (Some(knock), Some(hold)) => Some(
                if knock <= hold {
                    knock
                } else {
                    hold
                },
            ),
            (Some(knock), None) => Some(knock),
            (None, Some(hold)) => Some(hold),
            (None, None) => None,
        }
    }

    fn push_knock(&mut self, at_ms: u64)
        requires
            old(self).wf(),
        ensures
            final(self).wf(),
            final(self)@ == (MemsButtonMemory {
                knocks: history::appended(old(self)@.knocks, MAX_KNOCKS as int, at_ms),
                ..old(self)@
            }),
    {
        history::append(&mut self.knocks_ms, &mut self.knock_len, at_ms);
    }

    fn prune_knocks(&mut self, at_ms: u64)
        requires
            old(self).wf(),
        ensures
            final(self).wf(),
            final(self)@ == (MemsButtonMemory {
                knocks: history::recent(
                    old(self)@.knocks,
                    history::monus(at_ms as int, old(self)@.config.multi_knock_window_ms as int),
                ),
                ..old(self)@
            }),
    {
        let oldest_allowed: u64 = at_ms.saturating_sub(self.config.multi_knock_window_ms);
        history::keep_recent(&mut self.knocks_ms, &mut self.knock_len, oldest_allowed);
    }

    fn finalize_knocks(&mut self, at_ms: u64) -> (event: Option<ButtonEvent>)
        requires
            old(self).wf(),
        ensures
            final(self).wf(),
            final(self)@ == if old(self)@.knocks_done(at_ms) {
                MemsButtonMemory { knocks: Seq::empty(), ..old(self)@ }
            } else {
                old(self)@
            },
            event == if old(self)@.knocks_done(at_ms) {
                Some(press_for(old(self)@.knocks.len()))
            } else {
                None
            },
    {
        if self.knock_len == 0 {
            return None;
        }
        let newest: u64 = self.knocks_ms[self.knock_len - 1];
        if at_ms.saturating_sub(newest) < self.config.finalize_quiet_ms {
            return None;
        }
        let count: usize = self.knock_len;
        self.knock_len = 0;
        match count {
            1 => Some(ButtonEvent::Press),
            2 => Some(ButtonEvent::DoublePress),
            _ => Some(ButtonEvent::TriplePress),
        }
    }

    fn maybe_emit_hold(&mut self, at_ms: u64) -> (event: Option<ButtonEvent>)
        requires
            old(self).wf(),
        ensures
            final(self).wf(),
            final(self)@ == (MemsButtonMemory {
                hold_reported: old(self)@.hold_reported || old(self)@.hold_due(at_ms),
                ..old(self)@
            }),
            event == if old(self)@.hold_due(at_ms) {
                Some(ButtonEvent::HoldPress)
            } else {
                None
            },
    {
        let started: u64 = match self.motion_start_ms {
            Some(ms) => ms,
            None => {
                return None;
            },
        };
        if self.hold_reported || at_ms.saturating_sub(started) < self.config.hold_press_ms {
            return None;
        }
        self.hold_reported = true;
        Some(ButtonEvent::HoldPress)
    }

    fn finish_motion(&mut self, at_ms: u64) -> (event: Option<ButtonEvent>)
        requires
            old(self).wf(),
        ensures
            final(self).wf(),
            final(self)@ == old(self)@.after(MemsButtonSignal::MotionEnd, at_ms),
            event == old(self)@.event(MemsButtonSignal::MotionEnd, at_ms),
    {
        let started: u64 = match self.motion_start_ms {
            Some(ms) => ms,
            None => {
                return None;
            },
        };
        self.motion_start_ms = None;
        let duration_ms: u64 = at_ms.saturating_sub(started);
        if self.hold_reported {
            self.hold_reported = false;
            return None;
        }
        if duration_ms >= self.config.long_press_ms {
            return Some(ButtonEvent::LongPress);
        }
        None
    }
}

impl Default for MemsButtonDetector {
    fn default() -> (detector: Self)
        ensures
            detector.wf(),
            detector@ == MemsButtonMemory::blank(MemsButtonConfig::shipping()),
    {
        Self::new(MemsButtonConfig::default())
    }
}

/// A tick at or after the next deadline completes an event; a tick before it completes none and
/// changes nothing. (With a quiet time or hold time of zero an event can come earlier.)
pub proof fn events_come_at_their_deadline(memory: MemsButtonMemory, at: u64)
    ensures
        memory.deadline() matches Some(deadline) && at >= deadline ==> memory.event(
            MemsButtonSignal::Tick,
            at,
        ) is Some,
        memory.config.finalize_quiet_ms > 0 && memory.config.hold_press_ms > 0 && !(
        memory.deadline() matches Some(deadline) && at >= deadline) ==> memory.event(
            MemsButtonSignal::Tick,
            at,
        ) is None && memory.after(MemsButtonSignal::Tick, at) == memory,
{
}

/// No signal leaves more than three knocks on record, nor a reported hold without a motion.
pub proof fn memory_stays_bounded(memory: MemsButtonMemory, signal: MemsButtonSignal, at: u64)
    requires
        memory.knocks.len() <= MAX_KNOCKS,
        memory.hold_reported ==> memory.motion_start_ms is Some,
    ensures
        memory.after(signal, at).knocks.len() <= MAX_KNOCKS,
        memory.after(signal, at).hold_reported ==> memory.after(signal, at).motion_start_ms is Some,
        memory.after(signal, at).config == memory.config,
{
    history::recent_keeps_a_suffix(
        memory.knocks,
        history::monus(at as int, memory.config.multi_knock_window_ms as int),
    );
}

/// A motion is reported as a hold once: after that neither a tick nor its end reports it again.
pub proof fn hold_is_reported_once(memory: MemsButtonMemory, at: u64, later: u64)
    requires
        memory.event(MemsButtonSignal::Tick, at) == Some(ButtonEvent::HoldPress),
    ensures
        ({
            let held = memory.after(MemsButtonSignal::Tick, at);
            &&& held.event(MemsButtonSignal::Tick, later) != Some(ButtonEvent::HoldPress)
            &&& held.event(MemsButtonSignal::MotionEnd, later) is None
            &&& held.after(MemsButtonSignal::Tick, later).hold_reported
            &&& held.after(MemsButtonSignal::Knock, later).hold_reported
        }),
{
}

/// What is remembered after knocks at `times`, in that order.
pub open spec fn after_knocks(memory: MemsButtonMemory, times: Seq<u64>) -> MemsButtonMemory
    decreases times.len(),
{
    if times.len() == 0 {
        memory
    } else {
        after_knocks(memory, times.drop_last()).after(MemsButtonSignal::Knock, times.last())
    }
}

/// Up to three knocks, in order and within the knock window, form one group. Once the quiet time
/// has passed, a tick turns the group into the press with that number of knocks.
pub proof fn quick_knocks_form_one_press(config: MemsButtonConfig, times: Seq<u64>, tick_at: u64)
    requires
        history::in_order(times),
        0 < times.len() <= MAX_KNOCKS,
        times.last() - times[0] <= config.multi_knock_window_ms,
        tick_at >= times.last() + config.finalize_quiet_ms,
    ensures
        ({
            let knocked = after_knocks(MemsButtonMemory::blank(config), times);
            &&& knocked == (MemsButtonMemory { knocks: times, ..MemsButtonMemory::blank(config) })
            &&& knocked.event(MemsButtonSignal::Tick, tick_at) == Some(press_for(times.len()))
            &&& knocked.after(MemsButtonSignal::Tick, tick_at) == MemsButtonMemory::blank(config)
        }),
    decreases times.len(),
{
    let earlier = times.drop_last();
    let blank = MemsButtonMemory::blank(config);
    if earlier.len() > 0 {
        quick_knocks_form_one_press(
            config,
            earlier,
            tick_at,
        );
        assert(earlier[0] >= history::monus(
            times.last() as int,
            config.multi_knock_window_ms as int,
        ));
    }
    assert(after_knocks(blank, earlier).knocks == earlier);
    assert(after_knocks(blank, times).knocks == times);
}

/// A knock that comes later than the knock window after the only one on record starts a new
/// group of its own.
pub proof fn slow_knocks_do_not_merge(memory: MemsButtonMemory, at: u64)
    requires
        memory.knocks.len() == 1,
        at - memory.knocks[0] > memory.config.multi_knock_window_ms,
    ensures
        memory.after(MemsButtonSignal::Knock, at).knocks == seq![at],
{
    let oldest = history::monus(at as int, memory.config.multi_knock_window_ms as int);
    assert(history::recent(memory.knocks.drop_first(), oldest) == Seq::<u64>::empty());
    assert(history::recent(memory.knocks, oldest) == Seq::<u64>::empty());
}

/// What each signal does, told by the times on record. A tick reports a motion that has lasted
/// the hold time as a hold, once; failing that, it reports the knocks as a press once the last of
/// them is the quiet time past, by their number, and forgets them. The end of a motion reports a
/// long press if it lasted that long and was not reported as a hold, and forgets the motion. The
/// start of a motion and a knock report nothing.
pub proof fn signals_are_judged_by_their_times(memory: MemsButtonMemory, at: u64)
    ensures
        ({
            let lasted = if memory.motion_start_ms is Some && memory.motion_start_ms->0 <= at {
                at - memory.motion_start_ms->0
            } else {
                0
            };
            let quiet = if memory.knocks.len() > 0 && memory.knocks.last() <= at {
                at - memory.knocks.last()
            } else {
                0
            };
            let holds = memory.motion_start_ms is Some && !memory.hold_reported && lasted
                >= memory.config.hold_press_ms;
            let done = memory.knocks.len() > 0 && quiet >= memory.config.finalize_quiet_ms;
            let tick = memory.event(MemsButtonSignal::Tick, at);
            let ticked = memory.after(MemsButtonSignal::Tick, at);
            let end = memory.event(MemsButtonSignal::MotionEnd, at);
            let ended = memory.after(MemsButtonSignal::MotionEnd, at);
            let started = memory.after(MemsButtonSignal::MotionStart, at);
            &&& tick == Some(ButtonEvent::HoldPress) <==> holds
            &&& tick == Some(ButtonEvent::Press) <==> !holds && done && memory.knocks.len() == 1
            &&& tick == Some(ButtonEvent::DoublePress) <==> !holds && done && memory.knocks.len()
                == 2
            &&& tick == Some(ButtonEvent::TriplePress) <==> !holds && done && memory.knocks.len()
                >= 3
            &&& tick != Some(ButtonEvent::LongPress)
            &&& holds ==> ticked == (MemsButtonMemory { hold_reported: true, ..memory })
            &&& !holds && done ==> ticked == (MemsButtonMemory { knocks: Seq::empty(), ..memory })
            &&& !holds && !done ==> ticked == memory
            &&& end is Some <==> memory.motion_start_ms is Some && !memory.hold_reported && lasted
                >= memory.config.long_press_ms
            &&& end is Some ==> end == Some(ButtonEvent::LongPress)
            &&& ended.motion_start_ms is None
            &&& ended.knocks == memory.knocks
            &&& memory.motion_start_ms is Some ==> !ended.hold_reported
            &&& started == (MemsButtonMemory {
                motion_start_ms: Some(at),
                hold_reported: false,
                ..memory
            })
            &&& memory.event(MemsButtonSignal::MotionStart, at) is None
            &&& memory.event(MemsButtonSignal::Knock, at) is None
        }),
{
}

/// A knock is put on record last; of those before it, which come in order, the last two stay as
/// far as they lie within the knock window. Nothing else changes.
pub proof fn knocks_join_those_within_the_window(memory: MemsButtonMemory, at: u64) -> (dropped:
    int)
    requires
        memory.knocks.len() <= 3,
        history::in_order(memory.knocks),
        memory.knocks.len() > 0 ==> memory.knocks.last() <= at,
    ensures
        0 <= dropped <= memory.knocks.len(),
        memory.after(MemsButtonSignal::Knock, at) == (MemsButtonMemory {
            knocks: memory.knocks.skip(dropped).push(at),
            ..memory
        }),
        forall|i: int|
            0 <= i < memory.knocks.len() ==> (dropped <= i <==> at - (#[trigger] memory.knocks[i])
                <= memory.config.multi_knock_window_ms && i >= memory.knocks.len() - 2),
{
    history::noted_keeps_what_is_recent(memory.knocks, 3, at, memory.config.multi_knock_window_ms)
}

/// The next deadline is the earlier of the two that are running: the quiet time after the last
/// knock, and the hold time after the start of a motion that was not reported yet.
pub proof fn deadlines_are_the_earliest(memory: MemsButtonMemory)
    ensures
        ({
            let knocked = memory.knocks.len() > 0;
            let moving = memory.motion_start_ms is Some && !memory.hold_reported;
            let knock = memory.knocks.last() + memory.config.finalize_quiet_ms;
            let hold = memory.motion_start_ms->0 + memory.config.hold_press_ms;
            &&& memory.deadline() is Some <==> knocked || moving
            &&& knocked ==> memory.deadline()->0 <= knock
            &&& moving ==> memory.deadline()->0 <= hold
            &&& knocked || moving ==> (knocked && memory.deadline()->0 == knock) || (moving
                && memory.deadline()->0 == hold)
        }),
{
}

/// A detector that starts has nothing to report or to wait for, and the first motion that it sees
/// can become a hold or a long press.
pub proof fn blank_detectors_are_silent(config: MemsButtonConfig, at: u64)
    ensures
        ({
            let blank = MemsButtonMemory::blank(config);
            &&& blank.event(MemsButtonSignal::Tick, at) is None
            &&& blank.event(MemsButtonSignal::MotionEnd, at) is None
            &&& blank.deadline() is None
            &&& blank.config == config
            &&& !blank.hold_reported
            &&& MemsButtonConfig::shipping().finalize_quiet_ms == 700
            &&& MemsButtonConfig::shipping().multi_knock_window_ms == 900
            &&& MemsButtonConfig::shipping().long_press_ms == 1500
            &&& MemsButtonConfig::shipping().hold_press_ms == 2500
        }),
{
}

} // verus!
