//! OTA control and policy.

use crate::setup::SetupState;
use vstd::prelude::*;

verus! {

#[derive(Clone, Copy, Debug, PartialEq, Eq, Structural)]
pub struct OtaLayout {
    pub slot_size_bytes: u32,
    pub scratch_size_bytes: u32,
}

impl Default for OtaLayout {
    fn default() -> (layout: Self)
        ensures
            layout.slot_size_bytes == 512 * 1024,
            layout.scratch_size_bytes == 64 * 1024,
    {
        OtaLayout { slot_size_bytes: 512 * 1024, scratch_size_bytes: 64 * 1024 }
    }
}

#[derive(Clone, Copy, Debug, PartialEq, Eq, Structural)]
pub struct OtaPolicy {
    pub min_battery_pct: u8,
    pub max_image_size_bytes: u32,
    pub allow_debug_override: bool,
}

impl Default for OtaPolicy {
    fn default() -> (policy: Self)
        ensures
            policy.min_battery_pct == 50,
            policy.max_image_size_bytes == 512 * 1024,
            policy.allow_debug_override,
    {
        OtaPolicy {
            min_battery_pct: 50,
            max_image_size_bytes: OtaLayout::default().slot_size_bytes,
            allow_debug_override: true,
        }
    }
}

#[derive(Clone, Copy, Debug, PartialEq, Eq, Structural)]
pub struct OtaPrerequisites {
    pub battery_pct: u8,
    pub setup_state: SetupState,
}

#[derive(Clone, Copy, Debug, PartialEq, Eq, Structural)]
pub enum OtaBlockReason {
    BatteryTooLow,
    SetupIncomplete,
    ImageTooLarge,
    SecondarySlotTooSmall,
    NotReady,
    VerificationFailed,
}

#[derive(Clone, Copy, Debug, PartialEq, Eq, Structural)]
pub enum OtaSlot {
    Primary,
    Secondary,
}

#[derive(Clone, Copy, Debug, PartialEq, Eq, Structural)]
pub enum BootOutcome {
    TrialBoot,
    Confirmed,
    Reverted,
}

#[derive(Clone, Copy, Debug, PartialEq, Eq, Structural)]
pub enum OtaState {
    Idle,
    Advertised,
    Downloading,
    Verifying,
    ReadyToSwap,
    PendingReboot,
    AwaitingConfirmation,
    Completed,
    Blocked(OtaBlockReason),
    Failed(OtaBlockReason),
}

#[derive(Clone, Copy, Debug, PartialEq, Eq, Structural)]
pub enum OtaCommand {
    Evaluate(OtaPrerequisites),
    StartTransfer { image_size_bytes: u32 },
    ChunkReceived { bytes: u32 },
    VerifyOk,
    VerifyFailed,
    RequestSwap,
    Booted(BootOutcome),
    ConfirmRunningImage,
    Abort,
}

#[derive(Clone, Copy, Debug, PartialEq, Eq, Structural)]
pub struct OtaStatus {
    pub state: OtaState,
    pub target_slot: Option<OtaSlot>,
    pub bytes_received: u32,
    pub bytes_total: u32,
    pub advertise_ota: bool,
    pub accept_transfer: bool,
    pub reboot_to_swap: bool,
    pub confirm_running_image: bool,
}

/// The state that a boot outcome leads to.
pub open spec fn booted_state(outcome: BootOutcome) -> OtaState {
    match outcome {
        BootOutcome::TrialBoot => OtaState::AwaitingConfirmation,
        BootOutcome::Confirmed => OtaState::Completed,
        BootOutcome::Reverted => OtaState::Failed(OtaBlockReason::VerificationFailed),
    }
}

impl OtaStatus {
    fn new(
        state: OtaState,
        target_slot: Option<OtaSlot>,
        bytes_received: u32,
        bytes_total: u32,
    ) -> (status: Self)
        ensures
            status == (OtaStatus {
                state,
                target_slot,
                bytes_received,
                bytes_total,
                advertise_ota: state == OtaState::Advertised,
                accept_transfer: state == OtaState::Downloading,
                reboot_to_swap: state == OtaState::PendingReboot,
                confirm_running_image: state == OtaState::AwaitingConfirmation,
            }),
    {
        let advertise_ota = matches!(state, OtaState::Advertised);
        let accept_transfer = matches!(state, OtaState::Downloading);
        let reboot_to_swap = matches!(state, OtaState::PendingReboot);
        let confirm_running_image = matches!(state, OtaState::AwaitingConfirmation);
        OtaStatus {
            state,
            target_slot,
            bytes_received,
            bytes_total,
            advertise_ota,
            accept_transfer,
            reboot_to_swap,
            confirm_running_image,
        }
    }
}

#[derive(Clone, Copy, Debug, PartialEq, Eq)]
pub struct OtaController {
    policy: OtaPolicy,
    layout: OtaLayout,
    state: OtaState,
    target_slot: Option<OtaSlot>,
    bytes_received: u32,
    bytes_total: u32,
}

/// Where an update stands, and the limits that it is held to.
pub struct OtaProgress {
    pub policy: OtaPolicy,
    pub layout: OtaLayout,
    pub state: OtaState,
    pub target_slot: Option<OtaSlot>,
    pub bytes_received: u32,
    pub bytes_total: u32,
}

impl OtaProgress {
    /// No update under way.
    pub open spec fn idle(policy: OtaPolicy, layout: OtaLayout) -> Self {
        OtaProgress {
            policy,
            layout,
            state: OtaState::Idle,
            target_slot: None,
            bytes_received: 0,
            bytes_total: 0,
        }
    }

    /// Why an update may not be offered, if it may not.
    pub open spec fn obstacle(self, prereq: OtaPrerequisites) -> Option<OtaBlockReason> {
        if prereq.battery_pct < self.policy.min_battery_pct {
            Some(OtaBlockReason::BatteryTooLow)
        } else if prereq.setup_state == SetupState::Ready || (self.policy.allow_debug_override
            && prereq.setup_state == SetupState::Debug) {
            None
        } else {
            Some(OtaBlockReason::SetupIncomplete)
        }
    }

    /// Why a transfer of an image may not start, if it may not.
    pub open spec fn refusal(self, image_size_bytes: u32) -> Option<OtaBlockReason> {
        if self.state != OtaState::Advertised {
            Some(OtaBlockReason::NotReady)
        } else if image_size_bytes > self.policy.max_image_size_bytes {
            Some(OtaBlockReason::ImageTooLarge)
        } else if image_size_bytes > self.layout.slot_size_bytes {
            Some(OtaBlockReason::SecondarySlotTooSmall)
        } else {
            None
        }
    }

    /// Where the update stands with `bytes` more of the image received. An empty image is never
    /// complete.
    pub open spec fn with_chunk(self, bytes: u32) -> Self {
        let received = self.bytes_received + bytes;
        if self.bytes_total != 0 && received >= self.bytes_total {
            OtaProgress {
                state: OtaState::Verifying,
                bytes_received: self.bytes_total,
                ..self
            }
        } else {
            OtaProgress {
                bytes_received: if received <= u32::MAX {
                    received as u32
                } else {
                    u32::MAX
                },
                ..self
            }
        }
    }

    /// Where the update stands after `command`. A command that the state does not admit changes
    /// nothing.
    pub open spec fn after(self, command: OtaCommand) -> Self {
        match command {
            OtaCommand::Evaluate(prereq) => OtaProgress {
                state: match self.obstacle(prereq) {
                    Some(reason) => OtaState::Blocked(reason),
                    None => OtaState::Advertised,
                },
                ..self
            },
            OtaCommand::StartTransfer { image_size_bytes } => match self.refusal(
                image_size_bytes,
            ) {
                Some(reason) => OtaProgress { state: OtaState::Blocked(reason), ..self },
                None => OtaProgress {
                    state: OtaState::Downloading,
                    target_slot: Some(OtaSlot::Secondary),
                    bytes_received: 0,
                    bytes_total: image_size_bytes,
                    ..self
                },
            },
            OtaCommand::ChunkReceived { bytes } => if self.state == OtaState::Downloading {
                self.with_chunk(bytes)
            } else {
                self
            },
            OtaCommand::VerifyOk => if self.state == OtaState::Verifying {
                OtaProgress { state: OtaState::ReadyToSwap, ..self }
            } else {
                self
            },
            OtaCommand::VerifyFailed => OtaProgress {
                state: OtaState::Failed(OtaBlockReason::VerificationFailed),
                ..self
            },
            OtaCommand::RequestSwap => if self.state == OtaState::ReadyToSwap {
                OtaProgress { state: OtaState::PendingReboot, ..self }
            } else {
                self
            },
            OtaCommand::Booted(outcome) => OtaProgress { state: booted_state(outcome), ..self },
            OtaCommand::ConfirmRunningImage => if self.state == OtaState::AwaitingConfirmation {
                OtaProgress {
                    state: OtaState::Completed,
                    target_slot: Some(OtaSlot::Primary),
                    ..self
                }
            } else {
                self
            },
            OtaCommand::Abort => Self::idle(self.policy, self.layout),
        }
    }

    /// The status that is reported where the update stands.
    pub open spec fn status(self) -> OtaStatus {
        OtaStatus {
            state: self.state,
            target_slot: self.target_slot,
            bytes_received: self.bytes_received,
            bytes_total: self.bytes_total,
            advertise_ota: self.state == OtaState::Advertised,
            accept_transfer: self.state == OtaState::Downloading,
            reboot_to_swap: self.state == OtaState::PendingReboot,
            confirm_running_image: self.state == OtaState::AwaitingConfirmation,
        }
    }

    /// The counters agree with each other and with the limits.
    pub open spec fn consistent(self) -> bool {
        &&& self.bytes_total != 0 ==> self.bytes_received <= self.bytes_total
        &&& self.bytes_total <= self.policy.max_image_size_bytes
        &&& self.bytes_total <= self.layout.slot_size_bytes
        &&& self.state == OtaState::Downloading ==> self.target_slot == Some(OtaSlot::Secondary)
        &&& self.state == OtaState::Verifying || self.state == OtaState::ReadyToSwap || self.state
            == OtaState::PendingReboot ==> self.target_slot == Some(OtaSlot::Secondary)
            && self.bytes_total > 0 && self.bytes_received == self.bytes_total
    }
}

impl View for OtaController {
    type V = OtaProgress;

    closed spec fn view(&self) -> OtaProgress {
        OtaProgress {
            policy: self.policy,
            layout: self.layout,
            state: self.state,
            target_slot: self.target_slot,
            bytes_received: self.bytes_received,
            bytes_total: self.bytes_total,
        }
    }
}

impl OtaController {
    pub fn new(policy: OtaPolicy, layout: OtaLayout) -> (controller: Self)
        ensures
            controller@ == OtaProgress::idle(policy, layout),
    {
        OtaController {
            policy,
            layout,
            state: OtaState::Idle,
            target_slot: None,
            bytes_received: 0,
            bytes_total: 0,
        }
    }

    pub fn state(&self) -> (state: OtaState)
        ensures
            state == self@.state,
    {
        self.state
    }

    pub fn apply(&mut self, command: OtaCommand) -> (status: OtaStatus)
        ensures
            final(self)@ == old(self)@.after(command),
            status == old(self)@.after(command).status(),
    {
        match command {
            OtaCommand::Evaluate(prereq) => {
                self.state = match self.block_reason(prereq) {
                    Some(reason) => OtaState::Blocked(reason),
                    None => OtaState::Advertised,
                };
            },
            OtaCommand::StartTransfer { image_size_bytes } => {
                if !matches!(self.state, OtaState::Advertised) {
                    self.state = OtaState::Blocked(OtaBlockReason::NotReady);
                } else if image_size_bytes > self.policy.max_image_size_bytes {
                    self.state = OtaState::Blocked(OtaBlockReason::ImageTooLarge);
                } else if image_size_bytes > self.layout.slot_size_bytes {
                    self.state = OtaState::Blocked(OtaBlockReason::SecondarySlotTooSmall);
                } else {
                    self.state = OtaState::Downloading;
                    self.target_slot = Some(OtaSlot::Secondary);
                    self.bytes_total = image_size_bytes;
                    self.bytes_received = 0;
                }
            },
            OtaCommand::ChunkReceived { bytes } => {
                if matches!(self.state, OtaState::Downloading) {
                    self.bytes_received = self.bytes_received.saturating_add(bytes);
                    if self.bytes_received >= self.bytes_total && self.bytes_total != 0 {
                        self.bytes_received = self.bytes_total;
                        self.state = OtaState::Verifying;
                    }
                }
            },
            OtaCommand::VerifyOk => {
                if matches!(self.state, OtaState::Verifying) {
                    self.state = OtaState::ReadyToSwap;
                }
            },
            OtaCommand::VerifyFailed => {
                self.state = OtaState::Failed(OtaBlockReason::VerificationFailed);
            },
            OtaCommand::RequestSwap => {
                if matches!(self.state, OtaState::ReadyToSwap) {
                    self.state = OtaState::PendingReboot;
                }
            },
            OtaCommand::Booted(outcome) => {
                self.state = match outcome {
                    BootOutcome::TrialBoot => OtaState::AwaitingConfirmation,
                    BootOutcome::Confirmed => OtaState::Completed,
                    BootOutcome::Reverted => OtaState::Failed(OtaBlockReason::VerificationFailed),
                };
            },
            OtaCommand::ConfirmRunningImage => {
                if matches!(self.state, OtaState::AwaitingConfirmation) {
                    self.state = OtaState::Completed;
                    self.target_slot = Some(OtaSlot::Primary);
                }
            },
            OtaCommand::Abort => {
                self.state = OtaState::Idle;
                self.target_slot = None;
                self.bytes_received = 0;
                self.bytes_total = 0;
            },
        }
        OtaStatus::new(self.state, self.target_slot, self.bytes_received, self.bytes_total)
    }

    fn block_reason(&self, prereq: OtaPrerequisites) -> (reason: Option<OtaBlockReason>)
        ensures
            reason == self@.obstacle(prereq),
    {
        if prereq.battery_pct < self.policy.min_battery_pct {
            return Some(OtaBlockReason::BatteryTooLow);
        }
        if prereq.setup_state != SetupState::Ready && !(self.policy.allow_debug_override
            && prereq.setup_state == SetupState::Debug) {
            return Some(OtaBlockReason::SetupIncomplete);
        }
        None
    }
}

impl Default for OtaController {
    fn default() -> (controller: Self)
        ensures
            controller@ == OtaProgress::idle(
                OtaPolicy {
                    min_battery_pct: 50,
                    max_image_size_bytes: 524_288,
                    allow_debug_override: true,
                },
                OtaLayout { slot_size_bytes: 524_288, scratch_size_bytes: 65_536 },
            ),
    {
        Self::new(OtaPolicy::default(), OtaLayout::default())
    }
}

/// A fresh controller is consistent, and every command keeps it so: never more bytes than
/// announced, never an image beyond a limit, and nothing verified or swapped that is not whole.
pub proof fn updates_stay_consistent(progress: OtaProgress, command: OtaCommand)
    ensures
        OtaProgress::idle(progress.policy, progress.layout).consistent(),
        progress.consistent() ==> progress.after(command).consistent(),
        progress.after(command).policy == progress.policy,
        progress.after(command).layout == progress.layout,
{
}

/// A reboot into a new image is prepared only by a swap request on an image that passed
/// verification, and that one only after its last byte came in.
pub proof fn swap_needs_a_verified_image(progress: OtaProgress, command: OtaCommand)
    ensures
        progress.after(command).state == OtaState::PendingReboot && progress.state
            != OtaState::PendingReboot ==> progress.state == OtaState::ReadyToSwap && command
            == OtaCommand::RequestSwap,
        progress.after(command).state == OtaState::ReadyToSwap && progress.state
            != OtaState::ReadyToSwap ==> progress.state == OtaState::Verifying && command
            == OtaCommand::VerifyOk,
        progress.after(command).state == OtaState::Verifying && progress.state
            != OtaState::Verifying ==> progress.state == OtaState::Downloading
            && progress.after(command).bytes_received == progress.bytes_total
            && progress.bytes_total > 0,
        progress.after(command).state == OtaState::Downloading && progress.state
            != OtaState::Downloading ==> progress.state == OtaState::Advertised,
{
}

/// Chunks add up: two in a row leave the same counters and state as one of their combined size.
pub proof fn chunks_add_up(progress: OtaProgress, first: u32, second: u32)
    requires
        first + second <= u32::MAX,
    ensures
        progress.after(OtaCommand::ChunkReceived { bytes: first }).after(
            OtaCommand::ChunkReceived { bytes: second },
        ) == progress.after(OtaCommand::ChunkReceived { bytes: (first + second) as u32 }),
{
}

/// Abort gives back a fresh controller, whatever was under way.
pub proof fn abort_starts_over(progress: OtaProgress)
    ensures
        progress.after(OtaCommand::Abort) == OtaProgress::idle(progress.policy, progress.layout),
        progress.after(OtaCommand::Abort).status().target_slot is None,
{
}

/// A status asks for at most one thing at a time.
pub proof fn status_asks_for_one_thing(progress: OtaProgress)
    ensures
        ({
            let status = progress.status();
            &&& !(status.advertise_ota && status.accept_transfer)
            &&& !(status.advertise_ota && status.reboot_to_swap)
            &&& !(status.advertise_ota && status.confirm_running_image)
            &&& !(status.accept_transfer && status.reboot_to_swap)
            &&& !(status.accept_transfer && status.confirm_running_image)
            &&& !(status.reboot_to_swap && status.confirm_running_image)
        }),
{
}

/// An update is offered exactly when the battery has at least the charge that the policy asks for
/// and setup is done, or in debug mode with the override allowed. A battery below that is the
/// first thing to be named, unfinished setup the second.
pub proof fn offers_follow_the_policy(progress: OtaProgress, prereq: OtaPrerequisites)
    ensures
        ({
            let after = progress.after(OtaCommand::Evaluate(prereq));
            let charged = prereq.battery_pct >= progress.policy.min_battery_pct;
            let set_up = prereq.setup_state == SetupState::Ready || (prereq.setup_state
                == SetupState::Debug && progress.policy.allow_debug_override);
            &&& after.state == OtaState::Advertised <==> charged && set_up
            &&& after.state == OtaState::Blocked(OtaBlockReason::BatteryTooLow) <==> !charged
            &&& after.state == OtaState::Blocked(OtaBlockReason::SetupIncomplete) <==> charged
                && !set_up
            &&& after.status().advertise_ota <==> charged && set_up
            &&& after.target_slot == progress.target_slot
            &&& after.bytes_received == progress.bytes_received
            &&& after.bytes_total == progress.bytes_total
        }),
{
}

/// A transfer starts exactly when an update is on offer and the image fits both the policy and
/// the slot; it then goes to the secondary slot and starts at zero. Otherwise the first of these
/// that fails is named, and nothing but the state changes.
pub proof fn transfers_start_only_if_they_fit(progress: OtaProgress, image_size_bytes: u32)
    ensures
        ({
            let after = progress.after(OtaCommand::StartTransfer { image_size_bytes });
            let offered = progress.state == OtaState::Advertised;
            let allowed = image_size_bytes <= progress.policy.max_image_size_bytes;
            let fits = image_size_bytes <= progress.layout.slot_size_bytes;
            &&& offered && allowed && fits ==> after.state == OtaState::Downloading
                && after.target_slot == Some(OtaSlot::Secondary) && after.bytes_received == 0
                && after.bytes_total == image_size_bytes
            &&& !offered ==> after.state == OtaState::Blocked(OtaBlockReason::NotReady)
            &&& offered && !allowed ==> after.state == OtaState::Blocked(
                OtaBlockReason::ImageTooLarge,
            )
            &&& offered && allowed && !fits ==> after.state == OtaState::Blocked(
                OtaBlockReason::SecondarySlotTooSmall,
            )
            &&& !(offered && allowed && fits) ==> after.target_slot == progress.target_slot
                && after.bytes_received == progress.bytes_received && after.bytes_total
                == progress.bytes_total
        }),
{
}

/// While an image comes in, each chunk counts in full up to the size of the image; when that is
/// reached, and not before, the image is to be verified. At any other time chunks count nothing.
pub proof fn chunks_count_up_to_the_image(progress: OtaProgress, bytes: u32)
    ensures
        ({
            let after = progress.after(OtaCommand::ChunkReceived { bytes });
            let sum = progress.bytes_received + bytes;
            let complete = 0 < progress.bytes_total <= sum;
            &&& progress.state != OtaState::Downloading ==> after == progress
            &&& progress.state == OtaState::Downloading ==> {
                &&& after.bytes_total == progress.bytes_total
                &&& after.target_slot == progress.target_slot
                &&& complete ==> after.state == OtaState::Verifying && after.bytes_received
                    == progress.bytes_total
                &&& !complete ==> after.state == OtaState::Downloading
                &&& !complete && sum <= u32::MAX ==> after.bytes_received == sum
                &&& !complete && sum > u32::MAX ==> after.bytes_received == u32::MAX
            }
        }),
{
}

/// The commands that end an update each have one state that they act on and one that they lead
/// to; elsewhere they change nothing. A failed verification and a boot act on every state, and
/// only a confirmed image moves to the primary slot.
pub proof fn commands_act_on_their_state(progress: OtaProgress, outcome: BootOutcome)
    ensures
        ({
            let verified = progress.after(OtaCommand::VerifyOk);
            let swapped = progress.after(OtaCommand::RequestSwap);
            let confirmed = progress.after(OtaCommand::ConfirmRunningImage);
            let failed = progress.after(OtaCommand::VerifyFailed);
            let booted = progress.after(OtaCommand::Booted(outcome));
            &&& progress.state == OtaState::Verifying ==> verified == (OtaProgress {
                state: OtaState::ReadyToSwap,
                ..progress
            })
            &&& progress.state != OtaState::Verifying ==> verified == progress
            &&& progress.state == OtaState::ReadyToSwap ==> swapped == (OtaProgress {
                state: OtaState::PendingReboot,
                ..progress
            })
            &&& progress.state != OtaState::ReadyToSwap ==> swapped == progress
            &&& progress.state == OtaState::AwaitingConfirmation ==> confirmed == (OtaProgress {
                state: OtaState::Completed,
                target_slot: Some(OtaSlot::Primary),
                ..progress
            })
            &&& progress.state != OtaState::AwaitingConfirmation ==> confirmed == progress
            &&& failed == (OtaProgress {
                state: OtaState::Failed(OtaBlockReason::VerificationFailed),
                ..progress
            })
            &&& outcome == BootOutcome::TrialBoot ==> booted.state
                == OtaState::AwaitingConfirmation
            &&& outcome == BootOutcome::Confirmed ==> booted.state == OtaState::Completed
            &&& outcome == BootOutcome::Reverted ==> booted.state == OtaState::Failed(
                OtaBlockReason::VerificationFailed,
            )
            &&& booted == (OtaProgress { state: booted.state, ..progress })
        }),
{
}

/// An aborted update leaves nothing behind but the limits, and a status tells where the update
/// stands and asks for what that state calls for.
pub proof fn status_tells_where_the_update_stands(progress: OtaProgress)
    ensures
        ({
            let aborted = progress.after(OtaCommand::Abort);
            &&& aborted.state == OtaState::Idle
            &&& aborted.target_slot is None
            &&& aborted.bytes_received == 0
            &&& aborted.bytes_total == 0
            &&& aborted.policy == progress.policy
            &&& aborted.layout == progress.layout
        }),
        ({
            let status = progress.status();
            &&& status.state == progress.state
            &&& status.target_slot == progress.target_slot
            &&& status.bytes_received == progress.bytes_received
            &&& status.bytes_total == progress.bytes_total
            &&& status.advertise_ota <==> progress.state is Advertised
            &&& status.accept_transfer <==> progress.state is Downloading
            &&& status.reboot_to_swap <==> progress.state is PendingReboot
            &&& status.confirm_running_image <==> progress.state is AwaitingConfirmation
        }),
{
}

} // verus!
