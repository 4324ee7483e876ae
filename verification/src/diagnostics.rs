//! Small runtime diagnostics latch.

use vstd::prelude::*;

verus! {

pub const RESETREAS_DOG0: u32 = 1 << 1;

pub const RESETREAS_DOG1: u32 = 1 << 2;

pub const RESETREAS_LOCKUP: u32 = 1 << 7;

pub const RESETREAS_SECTAMPER: u32 = 1 << 13;

#[derive(Clone, Copy, Debug, PartialEq, Eq, Structural)]
pub struct DiagnosticsState {
    pub last_resetreas_raw: u32,
    pub unexpected_reset: bool,
    pub pofwarn_seen: bool,
}

/// Whether a reset reason register names a watchdog, a lockup or a tamper reset.
pub open spec fn names_a_problem(raw: u32) -> bool {
    ||| raw & RESETREAS_DOG0 != 0
    ||| raw & RESETREAS_DOG1 != 0
    ||| raw & RESETREAS_LOCKUP != 0
    ||| raw & RESETREAS_SECTAMPER != 0
}

impl DiagnosticsState {
    /// Nothing noted.
    pub open spec fn clear() -> Self {
        DiagnosticsState { last_resetreas_raw: 0, unexpected_reset: false, pofwarn_seen: false }
    }

    pub fn new() -> (state: Self)
        ensures
            state == Self::clear(),
    {
        DiagnosticsState { last_resetreas_raw: 0, unexpected_reset: false, pofwarn_seen: false }
    }

    pub fn note_resetreas(&mut self, raw: u32)
        ensures
            *final(self) == (DiagnosticsState {
                last_resetreas_raw: raw,
                unexpected_reset: names_a_problem(raw),
                ..*old(self)
            }),
    {
        self.last_resetreas_raw = raw;
        self.unexpected_reset = reset_reason_is_problem(raw);
    }

    pub fn note_pofwarn(&mut self)
        ensures
            *final(self) == (DiagnosticsState { pofwarn_seen: true, ..*old(self) }),
    {
        self.pofwarn_seen = true;
    }

    /// Whether there is anything to report.
    pub open spec fn problem(self) -> bool {
        self.unexpected_reset || self.pofwarn_seen
    }

    pub fn problem_active(&self) -> (active: bool)
        ensures
            active == self.problem(),
    {
        self.unexpected_reset || self.pofwarn_seen
    }
}

impl Default for DiagnosticsState {
    fn default() -> (state: Self)
        ensures
            state == Self::clear(),
    {
        Self::new()
    }
}

pub fn reset_reason_is_problem(raw: u32) -> (problem: bool)
    ensures
        problem == names_a_problem(raw),
{
    proof {
        assert((raw & (RESETREAS_DOG0 | RESETREAS_DOG1 | RESETREAS_LOCKUP
            | RESETREAS_SECTAMPER)) != 0 <==> (raw & RESETREAS_DOG0 != 0 || raw & RESETREAS_DOG1
            != 0 || raw & RESETREAS_LOCKUP != 0 || raw & RESETREAS_SECTAMPER != 0))
            by (bit_vector);
    }
    (raw & (RESETREAS_DOG0 | RESETREAS_DOG1 | RESETREAS_LOCKUP | RESETREAS_SECTAMPER)) != 0
}

/// A power-fail warning stays on record, whatever reset reason is noted afterwards.
pub proof fn pofwarn_is_never_forgotten(state: DiagnosticsState, raw: u32)
    requires
        state.pofwarn_seen,
    ensures
        (DiagnosticsState {
            last_resetreas_raw: raw,
            unexpected_reset: names_a_problem(raw),
            ..state
        }).problem(),
{
}

/// A reset reason is a problem as soon as one of its bits is: adding further reasons never hides
/// it.
pub proof fn further_reasons_hide_nothing(raw: u32, more: u32)
    requires
        names_a_problem(raw),
    ensures
        names_a_problem(raw | more),
{
    assert((raw & RESETREAS_DOG0 != 0 ==> (raw | more) & RESETREAS_DOG0 != 0) && (raw
        & RESETREAS_DOG1 != 0 ==> (raw | more) & RESETREAS_DOG1 != 0) && (raw & RESETREAS_LOCKUP
        != 0 ==> (raw | more) & RESETREAS_LOCKUP != 0) && (raw & RESETREAS_SECTAMPER != 0 ==> (raw
        | more) & RESETREAS_SECTAMPER != 0)) by (bit_vector);
}

/// A reset is a problem exactly if one of the bits 1, 2, 7 and 13 of its reason is set: the two
/// watchdogs, the lockup and the tamper detector. A problem is one of these or a power failure.
pub proof fn four_reasons_are_problems(raw: u32, state: DiagnosticsState)
    ensures
        names_a_problem(raw) <==> raw & 0x2086 != 0,
        state.problem() <==> state.unexpected_reset || state.pofwarn_seen,
{
    assert(RESETREAS_DOG0 == 2 && RESETREAS_DOG1 == 4 && RESETREAS_LOCKUP == 128
        && RESETREAS_SECTAMPER == 8192) by (bit_vector);
    assert((raw & 2 != 0 || raw & 4 != 0 || raw & 128 != 0 || raw & 8192 != 0) <==> raw & 0x2086
        != 0) by (bit_vector);
}

/// A problem is active as soon as there is one of the two kinds, and none is while nothing was
/// noted.
pub proof fn problems_come_from_what_was_noted(state: DiagnosticsState)
    ensures
        state.problem() <==> state.unexpected_reset || state.pofwarn_seen,
        !DiagnosticsState::clear().problem(),
        !(DiagnosticsState { pofwarn_seen: true, ..DiagnosticsState::clear() }).unexpected_reset,
        DiagnosticsState::clear().last_resetreas_raw == 0,
{
}

} // verus!
