//! BLE advertising policy independent of the actual radio backend.

use crate::classifier::WindowState;
use crate::telemetry;
use crate::telemetry::{EnvReading, PacketCounter, WindowStatus};
use vstd::prelude::*;

verus! {

pub const STATE_BURST_COUNT: u8 = 10;

pub const STATE_BURST_INTERVAL_MS: u32 = 100;

pub const HEARTBEAT_INTERVAL_S: u32 = 300;

#[derive(Clone, Copy, Debug, PartialEq, Eq, Structural)]
pub enum AdvertisingEvent {
    StateBurst { packet_id: u8, repeats: u8, interval_ms: u32, status: WindowStatus },
    Heartbeat { packet_id: u8, env: EnvReading, status: WindowStatus },
}

impl AdvertisingEvent {
    /// The identifier under which the event is sent.
    pub open spec fn id(self) -> u8 {
        match self {
            AdvertisingEvent::StateBurst { packet_id, .. } => packet_id,
            AdvertisingEvent::Heartbeat { packet_id, .. } => packet_id,
        }
    }
}

/// High-level BLE scheduler state.
#[derive(Clone, Copy, Debug, PartialEq, Eq)]
pub struct AdvertisingScheduler {
    packet_counter: PacketCounter,
    status: WindowStatus,
    heartbeat_interval_s: u32,
    next_heartbeat_at_ms: u64,
}

/// What an [`AdvertisingScheduler`] keeps in mind.
pub struct AdvertisingPlan {
    /// The identifier of the next packet.
    pub packet_id: u8,
    /// The status that goes into the next packet.
    pub status: WindowStatus,
    /// The time between two heartbeats.
    pub heartbeat_step_ms: int,
    /// When the next heartbeat is due.
    pub next_heartbeat_at_ms: int,
}

/// The time between two heartbeats for a requested one: between a minute and an hour.
pub open spec fn heartbeat_step_ms(interval_s: int) -> int {
    1000 * if interval_s < 60 {
        60
    } else if interval_s > 3600 {
        3600
    } else {
        interval_s
    }
}

/// The first of the times `due`, `due + step`, `due + 2 * step`, ... that lies after `now`, where
/// `due` does not.
pub open spec fn first_after(due: int, step: int, now: int) -> int {
    due + ((now - due) / step + 1) * step
}

impl AdvertisingPlan {
    /// The burst that tells the status now in mind.
    pub open spec fn burst(self) -> AdvertisingEvent {
        AdvertisingEvent::StateBurst {
            packet_id: self.packet_id,
            repeats: STATE_BURST_COUNT,
            interval_ms: STATE_BURST_INTERVAL_MS,
            status: self.status,
        }
    }

    /// The plan with another status in mind.
    pub open spec fn telling(self, status: WindowStatus) -> AdvertisingPlan {
        AdvertisingPlan { status, ..self }
    }

    /// The plan after a packet has been handed out.
    pub open spec fn sent(self) -> AdvertisingPlan {
        AdvertisingPlan { packet_id: telemetry::following(self.packet_id), ..self }
    }

    /// The plan once a tamper alarm has been raised.
    pub open spec fn tampered(self) -> AdvertisingPlan {
        self.telling(WindowStatus { tampered: true, ..self.status })
    }

    /// The plan once a tamper alarm may be dropped: it is if the window is closed.
    pub open spec fn settled(self) -> AdvertisingPlan {
        if self.status.state == WindowState::Closed {
            self.telling(WindowStatus { tampered: false, ..self.status })
        } else {
            self
        }
    }

    /// Whether a heartbeat is due.
    pub open spec fn is_due(self, now_ms: int) -> bool {
        now_ms >= self.next_heartbeat_at_ms
    }

    /// The time of the heartbeat after the one that is due.
    pub open spec fn rescheduled(self, now_ms: int) -> int {
        first_after(self.next_heartbeat_at_ms, self.heartbeat_step_ms, now_ms)
    }

    /// The plan after the heartbeat that is due has been handed out.
    pub open spec fn beaten(self, now_ms: int) -> AdvertisingPlan {
        AdvertisingPlan { next_heartbeat_at_ms: self.rescheduled(now_ms), ..self.sent() }
    }
}

impl View for AdvertisingScheduler {
    type V = AdvertisingPlan;

    closed spec fn view(&self) -> AdvertisingPlan {
        AdvertisingPlan {
            packet_id: self.packet_counter@,
            status: self.status,
            heartbeat_step_ms: 1000 * self.heartbeat_interval_s,
            next_heartbeat_at_ms: self.next_heartbeat_at_ms as int,
        }
    }
}

impl AdvertisingScheduler {
    /// The interval between heartbeats is between a minute and an hour.
    pub open spec fn wf(&self) -> bool {
        60_000 <= self@.heartbeat_step_ms <= 3_600_000
    }

    pub fn new(now_ms: u64, heartbeat_interval_s: u32) -> (scheduler: Self)
        requires
            now_ms + heartbeat_step_ms(heartbeat_interval_s as int) <= u64::MAX,
        ensures
            scheduler.wf(),
            scheduler@ == (AdvertisingPlan {
                packet_id: 0,
                status: WindowStatus {
                    state: WindowState::Closed,
                    tampered: false,
                    problem: false,
                },
                heartbeat_step_ms: heartbeat_step_ms(heartbeat_interval_s as int),
                next_heartbeat_at_ms: now_ms + heartbeat_step_ms(heartbeat_interval_s as int),
            }),
    {
        let interval_s: u32 = heartbeat_interval_s.max(60).min(3600);
        AdvertisingScheduler {
            packet_counter: PacketCounter::new(),
            status: WindowStatus { state: WindowState::Closed, tampered: false, problem: false },
            heartbeat_interval_s: interval_s,
            next_heartbeat_at_ms: now_ms + interval_s as u64 * 1000,
        }
    }

    pub fn on_state_changed(&mut self, status: WindowStatus) -> (event: AdvertisingEvent)
        requires
            old(self).wf(),
        ensures
            final(self).wf(),
            final(self)@ == old(self)@.telling(status).sent(),
            event == old(self)@.telling(status).burst(),
    {
        self.status = status;
        AdvertisingEvent::StateBurst {
            packet_id: self.packet_counter.next_packet_id(),
            repeats: STATE_BURST_COUNT,
            interval_ms: STATE_BURST_INTERVAL_MS,
            status,
        }
    }

    pub fn on_tamper(&mut self) -> (event: AdvertisingEvent)
        requires
            old(self).wf(),
        ensures
            final(self).wf(),
            final(self)@ == old(self)@.tampered().sent(),
            event == old(self)@.tampered().burst(),
    {
        self.status.tampered = true;
        AdvertisingEvent::StateBurst {
            packet_id: self.packet_counter.next_packet_id(),
            repeats: STATE_BURST_COUNT,
            interval_ms: STATE_BURST_INTERVAL_MS,
            status: self.status,
        }
    }

    pub fn clear_tamper_if_closed(&mut self)
        requires
            old(self).wf(),
        ensures
            final(self).wf(),
            final(self)@ == old(self)@.settled(),
    {
        if self.status.state == WindowState::Closed {
            self.status.tampered = false;
        }
    }

    /// Hands out the heartbeat if one is due, and skips those that were missed.
    pub fn due_heartbeat(&mut self, now_ms: u64, env: EnvReading) -> (event: Option<
        AdvertisingEvent,
    >)
        requires
            old(self).wf(),
            old(self)@.is_due(now_ms as int) ==> old(self)@.rescheduled(now_ms as int)
                <= u64::MAX,
        ensures
            final(self).wf(),
            old(self)@.is_due(now_ms as int) ==> final(self)@ == old(self)@.beaten(now_ms as int)
                && event == Some(
                AdvertisingEvent::Heartbeat {
                    packet_id: old(self)@.packet_id,
                    env,
                    status: old(self)@.status,
                },
            ),
            !old(self)@.is_due(now_ms as int) ==> final(self)@ == old(self)@ && event is None,
    {
        if now_ms < self.next_heartbeat_at_ms {
            return None;
        }
        let packet_id: u8 = self.packet_counter.next_packet_id();
        let step: u64 = self.heartbeat_interval_s as u64 * 1000;
        let missed: u64 = (now_ms - self.next_heartbeat_at_ms) / step;
        proof {
            assert((missed + 1) * step <= u64::MAX && missed < u64::MAX) by (nonlinear_arith)
                requires
                    self.next_heartbeat_at_ms + (missed + 1) * step <= u64::MAX,
                    step >= 1,
                    self.next_heartbeat_at_ms >= 0,
            ;
        }
        self.next_heartbeat_at_ms = self.next_heartbeat_at_ms + (missed + 1) * step;
        Some(AdvertisingEvent::Heartbeat { packet_id, env, status: self.status })
    }

    pub fn status(&self) -> (status: WindowStatus)
        ensures
            status == self@.status,
    {
        self.status
    }
}

/// After a heartbeat the next one lies in the future, at most one step away, and on the same
/// grid of times: however long the scheduler was not asked, one heartbeat makes up for all that
/// were missed.
pub proof fn heartbeats_keep_their_rhythm(plan: AdvertisingPlan, now_ms: int)
    requires
        plan.heartbeat_step_ms > 0,
        plan.is_due(now_ms),
    ensures
        now_ms < plan.beaten(now_ms).next_heartbeat_at_ms <= now_ms + plan.heartbeat_step_ms,
        (plan.beaten(now_ms).next_heartbeat_at_ms - plan.next_heartbeat_at_ms)
            % plan.heartbeat_step_ms == 0,
        !plan.beaten(now_ms).is_due(now_ms),
{
    let due = plan.next_heartbeat_at_ms;
    let step = plan.heartbeat_step_ms;
    let missed = (now_ms - due) / step;
    vstd::arithmetic::div_mod::lemma_fundamental_div_mod(now_ms - due, step);
    vstd::arithmetic::div_mod::lemma_mod_bound(now_ms - due, step);
    vstd::arithmetic::div_mod::lemma_mod_multiples_basic(missed + 1, step);
    assert((missed + 1) * step == step * missed + step) by (nonlinear_arith);
}

/// A tamper alarm stays in the status until the window is closed and the alarm is dropped, or
/// until a new status without it comes; asking for heartbeats never touches it.
pub proof fn tamper_stays_until_closed(plan: AdvertisingPlan, status: WindowStatus, now_ms: int)
    ensures
        plan.tampered().status.tampered,
        plan.tampered().status.state == plan.status.state,
        plan.sent().status == plan.status,
        plan.beaten(now_ms).status == plan.status,
        plan.settled().status.tampered <==> plan.status.tampered && plan.status.state
            != WindowState::Closed,
        plan.telling(status).status.tampered == status.tampered,
{
}

/// Packets that are handed out one after the other carry identifiers that follow each other,
/// whatever kind they are of.
pub proof fn packets_are_numbered_in_order(
    plan: AdvertisingPlan,
    first: WindowStatus,
    now_ms: int,
)
    ensures
        ({
            let one = plan.telling(first);
            let two = one.sent().tampered();
            let three = two.sent();
            &&& one.burst().id() == plan.packet_id
            &&& two.burst().id() == telemetry::following(one.burst().id())
            &&& three.packet_id == telemetry::following(two.burst().id())
            &&& three.beaten(now_ms).packet_id == telemetry::following(three.packet_id)
            &&& three.settled().packet_id == three.packet_id
        }),
{
}

/// A heartbeat comes as often as asked for, but at least once an hour and at most once a minute.
pub proof fn heartbeat_interval_is_held(interval_s: int)
    ensures
        60 <= interval_s <= 3600 ==> heartbeat_step_ms(interval_s) == 1000 * interval_s,
        interval_s <= 60 ==> heartbeat_step_ms(interval_s) == 60_000,
        interval_s >= 3600 ==> heartbeat_step_ms(interval_s) == 3_600_000,
{
}

/// A burst is ten transmissions a tenth of a second apart, under the next identifier and with the
/// status that is told. A tamper alarm changes nothing else in the status, nor does its end.
pub proof fn bursts_tell_the_status(plan: AdvertisingPlan, status: WindowStatus)
    ensures
        plan.telling(status).burst() == (AdvertisingEvent::StateBurst {
            packet_id: plan.packet_id,
            repeats: 10,
            interval_ms: 100,
            status,
        }),
        plan.telling(status).status == status,
        plan.tampered().status.problem == plan.status.problem,
        plan.settled().status.problem == plan.status.problem,
        plan.settled().status.state == plan.status.state,
        plan.telling(status).sent().next_heartbeat_at_ms == plan.next_heartbeat_at_ms,
        plan.telling(status).sent().heartbeat_step_ms == plan.heartbeat_step_ms,
        plan.sent().packet_id as int == (plan.packet_id + 1) % 256,
{
}

/// A heartbeat is due from its time on.
pub proof fn heartbeats_are_due_in_time(plan: AdvertisingPlan, now_ms: int)
    ensures
        plan.is_due(now_ms) <==> plan.next_heartbeat_at_ms <= now_ms,
        plan.beaten(now_ms).heartbeat_step_ms == plan.heartbeat_step_ms,
        plan.beaten(now_ms).packet_id as int == (plan.packet_id + 1) % 256,
{
}

} // verus!
