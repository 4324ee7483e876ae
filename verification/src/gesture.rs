//! Magnet gesture recognition from window state transitions.

use crate::history;
use vstd::prelude::*;

verus! {

/// User-triggered maintenance modes encoded as rapid open/close cycles.
#[derive(Clone, Copy, Debug, PartialEq, Eq, Structural)]
pub enum Gesture {
    Calibrate,
    Pairing,
    FactoryReset,
}

pub const MAX_TRANSITIONS: usize = 14;

pub const PAIRING_WINDOW_MS: u64 = 10_000;

pub const FACTORY_RESET_WINDOW_MS: u64 = 10_000;

pub const CALIBRATE_WINDOW_MS: u64 = 5_000;

pub const RETENTION_WINDOW_MS: u64 = 11_000;

pub const CALIBRATE_TRANSITIONS: usize = 6;

pub const PAIRING_TRANSITIONS: usize = 10;

pub const FACTORY_RESET_TRANSITIONS: usize = 14;

/// Tracks the most recent state transitions without heap allocation.
#[derive(Clone, Copy, Debug, PartialEq, Eq)]
pub struct GestureDetector {
    transitions_ms: [u64; MAX_TRANSITIONS],
    len: usize,
    pending: Option<Gesture>,
}

/// What a [`GestureDetector`] remembers: the transitions, oldest first, and the gesture on hold.
#[verifier::ext_equal]
pub struct GestureMemory {
    pub transitions: Seq<u64>,
    pub pending: Option<Gesture>,
}

impl GestureMemory {
    /// Nothing recorded and nothing on hold.
    pub open spec fn blank() -> Self {
        GestureMemory { transitions: Seq::empty(), pending: None }
    }

    /// The transitions on record once one at `at` has come in.
    pub open spec fn with_transition(self, at: u64) -> Seq<u64> {
        history::recent(
            history::appended(self.transitions, MAX_TRANSITIONS as int, at),
            history::monus(at as int, RETENTION_WINDOW_MS as int),
        )
    }

    /// What is remembered after a transition at `at`, and the gesture that this transition ends.
    pub open spec fn step(self, at: u64) -> (Self, Option<Gesture>) {
        let transitions = self.with_transition(at);
        if within(transitions, FACTORY_RESET_TRANSITIONS as int, FACTORY_RESET_WINDOW_MS as int) {
            (Self::blank(), Some(Gesture::FactoryReset))
        } else if within(transitions, PAIRING_TRANSITIONS as int, PAIRING_WINDOW_MS as int) {
            (GestureMemory { transitions, pending: Some(Gesture::Pairing) }, None)
        } else if within(transitions, CALIBRATE_TRANSITIONS as int, CALIBRATE_WINDOW_MS as int) {
            (GestureMemory { transitions, pending: Some(Gesture::Calibrate) }, None)
        } else {
            match self.pending {
                Some(gesture) if history::monus(
                    transitions.last() as int,
                    transitions[0] as int,
                ) > escalation_window_ms(gesture) => (Self::blank(), Some(gesture)),
                _ => (GestureMemory { transitions, pending: self.pending }, None),
            }
        }
    }
}

/// Whether there are `count` transitions of which the last `count` span at most `window` ms.
pub open spec fn within(transitions: Seq<u64>, count: int, window: int) -> bool {
    transitions.len() >= count && history::monus(
        transitions.last() as int,
        transitions[transitions.len() - count] as int,
    ) <= window
}

/// How long a gesture on hold may still grow into a larger one.
pub open spec fn escalation_window_ms(gesture: Gesture) -> int {
    match gesture {
        Gesture::Calibrate => CALIBRATE_WINDOW_MS as int,
        Gesture::Pairing => PAIRING_WINDOW_MS as int,
        Gesture::FactoryReset => FACTORY_RESET_WINDOW_MS as int,
    }
}

impl View for GestureDetector {
    type V = GestureMemory;

    closed spec fn view(&self) -> GestureMemory {
        GestureMemory {
            transitions: history::live(self.transitions_ms@, self.len as int),
            pending: self.pending,
        }
    }
}

impl GestureDetector {
    /// The record fits its storage.
    pub closed spec fn wf(self) -> bool {
        self.len <= MAX_TRANSITIONS
    }

    pub fn new() -> (detector: Self)
        ensures
            detector.wf(),
            detector@ == GestureMemory::blank(),
    {
        GestureDetector { transitions_ms: [0; MAX_TRANSITIONS], len: 0, pending: None }
    }

    /// Record a single window transition timestamp in milliseconds since boot.
    /// Smaller gestures are held as pending so they can escalate into larger
    /// ones if more transitions arrive within the allowed time window.
    pub fn record_transition(&mut self, at_ms: u64) -> (ended: Option<Gesture>)
        requires
            old(self).wf(),
        ensures
            final(self).wf(),
            final(self)@ == old(self)@.step(at_ms).0,
            ended == old(self)@.step(at_ms).1,
    {
        self.push(at_ms);
        self.prune_older_than(at_ms.saturating_sub(RETENTION_WINDOW_MS));
        proof {
            lemma_newest_is_kept(old(self)@.transitions, at_ms);
        }

        if let Some(window) = self.window_for_last(FACTORY_RESET_TRANSITIONS) {
            if window <= FACTORY_RESET_WINDOW_MS {
                self.clear();
                return Some(Gesture::FactoryReset);
            }
        }
        if let Some(window) = self.window_for_last(PAIRING_TRANSITIONS) {
            if window <= PAIRING_WINDOW_MS {
                self.pending = Some(Gesture::Pairing);
                return None;
            }
        }
        if let Some(window) = self.window_for_last(CALIBRATE_TRANSITIONS) {
            if window <= CALIBRATE_WINDOW_MS {
                self.pending = Some(Gesture::Calibrate);
                return None;
            }
        }
        let pending = match self.pending {
            Some(gesture) => gesture,
            None => {
                return None;
            },
        };
        let newest: u64 = self.transitions_ms[self.len - 1];
        let oldest: u64 = self.transitions_ms[0];
        let timeout_ms: u64 = match pending {
            Gesture::Calibrate => CALIBRATE_WINDOW_MS,
            Gesture::Pairing => PAIRING_WINDOW_MS,
            Gesture::FactoryReset => FACTORY_RESET_WINDOW_MS,
        };
        if newest.saturating_sub(oldest) > timeout_ms {
            self.clear();
            return Some(pending);
        }
        None
    }

    fn push(&mut self, at_ms: u64)
        requires
            old(self).wf(),
        ensures
            final(self).wf(),
            final(self)@.transitions == history::appended(
                old(self)@.transitions,
                MAX_TRANSITIONS as int,
                at_ms,
            ),
            final(self)@.pending == old(self)@.pending,
    {
        history::append(&mut self.transitions_ms, &mut self.len, at_ms);
    }

    fn prune_older_than(&mut self, oldest_allowed_ms: u64)
        requires
            old(self).wf(),
        ensures
            final(self).wf(),
            final(self)@.transitions == history::recent(
                old(self)@.transitions,
                oldest_allowed_ms as int,
            ),
            final(self)@.pending == if old(self)@.transitions.len() > 0
                && final(self)@.transitions.len() == 0 {
                None
            } else {
                old(self)@.pending
            },
    {
        let before: usize = self.len;
        history::keep_recent(&mut self.transitions_ms, &mut self.len, oldest_allowed_ms);
        if self.len == 0 && before > 0 {
            self.pending = None;
        }
    }

    fn window_for_last(&self, count: usize) -> (window: Option<u64>)
        requires
            self.wf(),
            count > 0,
        ensures
            window is Some <==> self@.transitions.len() >= count,
            window matches Some(ms) ==> ms == history::monus(
                self@.transitions.last() as int,
                self@.transitions[self@.transitions.len() - count] as int,
            ),
    {
        if self.len < count {
            return None;
        }
        let start: u64 = self.transitions_ms[self.len - count];
        let end: u64 = self.transitions_ms[self.len - 1];
        Some(end.saturating_sub(start))
    }

    fn clear(&mut self)
        ensures
            final(self).wf(),
            final(self)@ == GestureMemory::blank(),
    {
        self.len = 0;
        self.pending = None;
    }
}

impl Default for GestureDetector {
    fn default() -> (detector: Self)
        ensures
            detector.wf(),
            detector@ == GestureMemory::blank(),
    {
        Self::new()
    }
}

/// The transition that was just appended is never stale.
proof fn lemma_newest_is_kept(transitions: Seq<u64>, at: u64)
    ensures
        ({
            let noted = history::appended(transitions, MAX_TRANSITIONS as int, at);
            let kept = history::recent(noted, history::monus(at as int, RETENTION_WINDOW_MS as int));
            kept.len() > 0 && kept.last() == at
        }),
{
    let noted = history::appended(transitions, MAX_TRANSITIONS as int, at);
    history::recent_keeps_a_suffix(noted, history::monus(at as int, RETENTION_WINDOW_MS as int));
    assert(noted[noted.len() - 1] == at);
}

/// Every report starts the detector afresh.
pub proof fn report_clears_memory(memory: GestureMemory, at: u64)
    requires
        memory.step(at).1 is Some,
    ensures
        memory.step(at).0 == GestureMemory::blank(),
{
}

/// Only a factory reset is reported by the transition that completes it; a smaller gesture is
/// reported by a later transition, and only if it was on hold.
pub proof fn smaller_gestures_are_held_first(memory: GestureMemory, at: u64)
    ensures
        memory.step(at).1 == Some(Gesture::Calibrate) ==> memory.pending == Some(
            Gesture::Calibrate,
        ),
        memory.step(at).1 == Some(Gesture::Pairing) ==> memory.pending == Some(Gesture::Pairing),
        memory.pending != Some(Gesture::FactoryReset) ==> memory.step(at).0.pending != Some(
            Gesture::FactoryReset,
        ),
        within(
            memory.with_transition(at),
            PAIRING_TRANSITIONS as int,
            PAIRING_WINDOW_MS as int,
        ) && memory.step(at).1 is None ==> memory.step(at).0.pending == Some(Gesture::Pairing),
{
}

/// While nothing is on hold, transitions in order that are too slow for the two smaller gestures
/// report nothing and put nothing on hold.
pub proof fn slow_transitions_are_ignored(memory: GestureMemory, at: u64)
    requires
        memory.pending is None,
        memory.transitions.len() <= MAX_TRANSITIONS,
        history::in_order(memory.transitions),
        memory.transitions.len() > 0 ==> memory.transitions.last() <= at,
        !within(
            memory.with_transition(at),
            CALIBRATE_TRANSITIONS as int,
            CALIBRATE_WINDOW_MS as int,
        ),
        !within(memory.with_transition(at), PAIRING_TRANSITIONS as int, PAIRING_WINDOW_MS as int),
    ensures
        memory.step(at).1 is None,
        memory.step(at).0.pending is None,
{
    let kept = memory.with_transition(at);
    lemma_kept_transitions(memory, at);
    if kept.len() >= FACTORY_RESET_TRANSITIONS {
        assert(kept[kept.len() - FACTORY_RESET_TRANSITIONS] <= kept[kept.len()
            - PAIRING_TRANSITIONS]);
    }
}

/// With timestamps in order, the record stays in order, fits its storage and reaches back no
/// further than the retention window.
pub proof fn record_stays_in_retention_window(memory: GestureMemory, at: u64)
    requires
        memory.transitions.len() <= MAX_TRANSITIONS,
        history::in_order(memory.transitions),
        memory.transitions.len() > 0 ==> memory.transitions.last() <= at,
    ensures
        ({
            let after = memory.step(at).0.transitions;
            &&& after.len() <= MAX_TRANSITIONS
            &&& history::in_order(after)
            &&& after.len() > 0 ==> after.last() == at
            &&& forall|i: int|
                0 <= i < after.len() ==> at - RETENTION_WINDOW_MS <= #[trigger] after[i] <= at
        }),
{
    lemma_kept_transitions(memory, at);
}

/// The transitions that stay on record are in order and none is stale.
proof fn lemma_kept_transitions(memory: GestureMemory, at: u64)
    requires
        memory.transitions.len() <= MAX_TRANSITIONS,
        history::in_order(memory.transitions),
        memory.transitions.len() > 0 ==> memory.transitions.last() <= at,
    ensures
        ({
            let kept = memory.with_transition(at);
            &&& 0 < kept.len() <= MAX_TRANSITIONS
            &&& kept.last() == at
            &&& history::in_order(kept)
            &&& forall|i: int|
                0 <= i < kept.len() ==> at - RETENTION_WINDOW_MS <= #[trigger] kept[i] <= at
        }),
{
    let noted = history::appended(memory.transitions, MAX_TRANSITIONS as int, at);
    let oldest = history::monus(at as int, RETENTION_WINDOW_MS as int);
    let kept = memory.with_transition(at);
    lemma_newest_is_kept(memory.transitions, at);
    assert(history::in_order(noted));
    history::recent_keeps_a_suffix(noted, oldest);
    history::recent_starts_fresh(noted, oldest);
    let dropped = noted.len() - kept.len();
    assert forall|i: int, j: int| 0 <= i <= j < kept.len() implies kept[i] <= kept[j] by {
        assert(kept[i] == noted[dropped + i]);
        assert(kept[j] == noted[dropped + j]);
    }
    assert forall|i: int| 0 <= i < kept.len() implies oldest <= #[trigger] kept[i] <= at by {
        assert(kept[0] <= kept[i]);
        assert(kept[i] <= kept[kept.len() - 1]);
    }
}

/// Times of transitions that come in order, span no more than the factory reset window, and of
/// which any six in a row span no more than the calibration window.
pub open spec fn brisk(times: Seq<u64>) -> bool {
    &&& history::in_order(times)
    &&& times.len() > 0 ==> times.last() - times[0] <= FACTORY_RESET_WINDOW_MS
    &&& forall|i: int|
        CALIBRATE_TRANSITIONS - 1 <= i < times.len() ==> #[trigger] times[i] - times[i
            - CALIBRATE_TRANSITIONS + 1] <= CALIBRATE_WINDOW_MS
}

/// What is remembered after transitions at `times`, in that order.
pub open spec fn after_all(memory: GestureMemory, times: Seq<u64>) -> GestureMemory
    decreases times.len(),
{
    if times.len() == 0 {
        memory
    } else {
        after_all(memory, times.drop_last()).step(times.last()).0
    }
}

/// Fewer than fourteen brisk transitions from a fresh start report nothing; all of them stay on
/// record, and from the tenth on the pairing gesture is on hold, from the sixth on the
/// calibration gesture.
pub proof fn brisk_transitions_escalate(times: Seq<u64>)
    requires
        brisk(times),
        times.len() < FACTORY_RESET_TRANSITIONS,
    ensures
        after_all(GestureMemory::blank(), times) == (GestureMemory {
            transitions: times,
            pending: if times.len() >= PAIRING_TRANSITIONS {
                Some(Gesture::Pairing)
            } else if times.len() >= CALIBRATE_TRANSITIONS {
                Some(Gesture::Calibrate)
            } else {
                None
            },
        }),
        times.len() > 0 ==> after_all(GestureMemory::blank(), times.drop_last()).step(
            times.last(),
        ).1 is None,
    decreases times.len(),
{
    if times.len() > 0 {
        let earlier = times.drop_last();
        assert(brisk(earlier)) by {
            assert forall|i: int| CALIBRATE_TRANSITIONS - 1 <= i < earlier.len() implies
                #[trigger] earlier[i] - earlier[i - CALIBRATE_TRANSITIONS + 1]
                <= CALIBRATE_WINDOW_MS by {
                assert(times[i] - times[i - CALIBRATE_TRANSITIONS + 1] <= CALIBRATE_WINDOW_MS);
            }
        }
        brisk_transitions_escalate(earlier);
        lemma_brisk_step(times);
    }
}

/// Fourteen brisk transitions from a fresh start end in a factory reset.
pub proof fn fourteen_brisk_transitions_reset(times: Seq<u64>)
    requires
        brisk(times),
        times.len() == FACTORY_RESET_TRANSITIONS,
    ensures
        after_all(GestureMemory::blank(), times.drop_last()).step(times.last()) == (
            GestureMemory::blank(),
            Some(Gesture::FactoryReset),
        ),
{
    let earlier = times.drop_last();
    assert(brisk(earlier)) by {
        assert forall|i: int| CALIBRATE_TRANSITIONS - 1 <= i < earlier.len() implies
            #[trigger] earlier[i] - earlier[i - CALIBRATE_TRANSITIONS + 1]
            <= CALIBRATE_WINDOW_MS by {
            assert(times[i] - times[i - CALIBRATE_TRANSITIONS + 1] <= CALIBRATE_WINDOW_MS);
        }
    }
    brisk_transitions_escalate(earlier);
    lemma_brisk_step(times);
}

/// A brisk transition neither pushes out nor outdates the ones before it.
proof fn lemma_brisk_step(times: Seq<u64>)
    requires
        brisk(times),
        0 < times.len() <= MAX_TRANSITIONS,
    ensures
        forall|pending: Option<Gesture>|
            (#[trigger] (GestureMemory { transitions: times.drop_last(), pending })
                .with_transition(times.last())) == times,
        times.len() >= CALIBRATE_TRANSITIONS ==> within(
            times,
            CALIBRATE_TRANSITIONS as int,
            CALIBRATE_WINDOW_MS as int,
        ),
        forall|count: int| 0 < count <= times.len() ==> within(times, count, 10_000),
{
    let at = times.last();
    assert(history::appended(times.drop_last(), MAX_TRANSITIONS as int, at) == times);
    assert(times[0] >= history::monus(at as int, RETENTION_WINDOW_MS as int));
    if times.len() >= CALIBRATE_TRANSITIONS {
        assert(times[times.len() - 1] - times[times.len() - 1 - CALIBRATE_TRANSITIONS + 1]
            <= CALIBRATE_WINDOW_MS);
    }
    assert forall|count: int| 0 < count <= times.len() implies within(times, count, 10_000) by {
        assert(times[0] <= times[times.len() - count]);
    }
}

/// What one transition does, told by the times of those before it: with it, fourteen transitions
/// within ten seconds are a factory reset, reported at once; failing that, ten within ten seconds
/// put the pairing gesture on hold; failing that, six within five seconds put the calibration
/// gesture on hold. Failing all that, a gesture on hold is reported as soon as the record reaches
/// back further than five seconds for calibration and ten for pairing; otherwise nothing changes.
/// What stays on record are the last thirteen transitions before it, as far as they are no older
/// than eleven seconds, and the transition itself.
pub proof fn transitions_are_judged_by_their_spans(memory: GestureMemory, at: u64) -> (dropped: int)
    requires
        memory.transitions.len() <= 14,
        history::in_order(memory.transitions),
        memory.transitions.len() > 0 ==> memory.transitions.last() <= at,
        memory.pending != Some(Gesture::FactoryReset),
    ensures
        0 <= dropped <= memory.transitions.len(),
        forall|i: int|
            0 <= i < memory.transitions.len() ==> (dropped <= i <==> at - (
            #[trigger] memory.transitions[i]) <= 11_000 && i >= memory.transitions.len() - 13),
        ({
            let t = memory.transitions;
            let n = t.len() as int;
            let (after, report) = memory.step(at);
            let resets = n >= 13 && at - t[n - 13] <= 10_000;
            let pairs = n >= 9 && at - t[n - 9] <= 10_000;
            let calibrates = n >= 5 && at - t[n - 5] <= 5_000;
            let ends_calibration = memory.pending == Some(Gesture::Calibrate) && dropped < n && at
                - t[dropped] > 5_000;
            let ends_pairing = memory.pending == Some(Gesture::Pairing) && dropped < n && at
                - t[dropped] > 10_000;
            let on_record = t.skip(dropped).push(at);
            &&& report == Some(Gesture::FactoryReset) <==> resets
            &&& report == Some(Gesture::Pairing) <==> !resets && !pairs && !calibrates
                && ends_pairing
            &&& report == Some(Gesture::Calibrate) <==> !resets && !pairs && !calibrates
                && ends_calibration
            &&& report is Some ==> after.transitions.len() == 0 && after.pending is None
            &&& report is None ==> after.transitions == on_record
            &&& report is None && pairs ==> after.pending == Some(Gesture::Pairing)
            &&& report is None && !pairs && calibrates ==> after.pending == Some(Gesture::Calibrate)
            &&& report is None && !pairs && !calibrates ==> after.pending == memory.pending
        }),
{
    let t = memory.transitions;
    let n = t.len() as int;
    let noted = history::appended(t, MAX_TRANSITIONS as int, at);
    let full = if n < 14 {
        0
    } else {
        1int
    };
    assert(noted == t.skip(full).push(at));
    let kept = memory.with_transition(at);
    let oldest = history::monus(at as int, RETENTION_WINDOW_MS as int);
    lemma_kept_transitions(memory, at);
    history::recent_keeps_a_suffix(noted, oldest);
    let stale = noted.len() - kept.len();
    let dropped = full + stale;
    assert(kept == t.skip(dropped).push(at));
    assert forall|i: int| 0 <= i < n implies (dropped <= i <==> at - (#[trigger] t[i]) <= 11_000
        && i >= n - 13) by {
        assert(t[i] <= t[n - 1]);
        if full <= i {
            assert(noted[i - full] == t[i]);
            if dropped <= i {
                assert(kept[i - dropped] == t[i]);
            }
        }
    }
    if n >= 13 && at - t[n - 13] <= 10_000 {
        assert(dropped <= n - 13);
        assert(kept[kept.len() - 14] == t[n - 13]);
    }
    if n >= 9 && at - t[n - 9] <= 10_000 {
        assert(dropped <= n - 9);
        assert(kept[kept.len() - 10] == t[n - 9]);
    }
    if n >= 5 && at - t[n - 5] <= 5_000 {
        assert(dropped <= n - 5);
        assert(kept[kept.len() - 6] == t[n - 5]);
    }
    if kept.len() >= 14 {
        assert(kept[kept.len() - 14] == t[n - 13]);
    }
    if kept.len() >= 10 {
        assert(kept[kept.len() - 10] == t[n - 9]);
    }
    if kept.len() >= 6 {
        assert(kept[kept.len() - 6] == t[n - 5]);
    }
    if dropped < n {
        assert(kept[0] == t[dropped]);
    }
    dropped
}

/// After any transitions at all there are no more on record than there were, and no factory reset
/// is ever on hold.
proof fn lemma_record_is_no_longer_than_the_past(times: Seq<u64>)
    ensures
        after_all(GestureMemory::blank(), times).transitions.len() <= times.len(),
        after_all(GestureMemory::blank(), times).pending != Some(Gesture::FactoryReset),
    decreases times.len(),
{
    if times.len() > 0 {
        let earlier = after_all(GestureMemory::blank(), times.drop_last());
        lemma_record_is_no_longer_than_the_past(times.drop_last());
        let noted = history::appended(earlier.transitions, MAX_TRANSITIONS as int, times.last());
        history::recent_keeps_a_suffix(
            noted,
            history::monus(times.last() as int, RETENTION_WINDOW_MS as int),
        );
    }
}

/// Fewer than fourteen transitions since the start or since the last report, which starts the
/// detector afresh, never make a factory reset, at whatever pace and in whatever order they come.
pub proof fn fewer_than_fourteen_never_reset(times: Seq<u64>, at: u64)
    requires
        times.len() < 13,
    ensures
        after_all(GestureMemory::blank(), times).step(at).1 != Some(Gesture::FactoryReset),
{
    let memory = after_all(GestureMemory::blank(), times);
    lemma_record_is_no_longer_than_the_past(times);
    let noted = history::appended(memory.transitions, MAX_TRANSITIONS as int, at);
    history::recent_keeps_a_suffix(noted, history::monus(at as int, RETENTION_WINDOW_MS as int));
}

} // verus!
