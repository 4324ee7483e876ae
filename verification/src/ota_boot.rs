//! OTA bootloader-facing contract.

use crate::ota;
use crate::ota::{BootOutcome, OtaBlockReason, OtaLayout, OtaState, OtaStatus};
use crate::partition::PartitionLayout;
use vstd::prelude::*;

verus! {

impl PartitionLayout {
    pub fn ota_layout(&self) -> (layout: OtaLayout)
        ensures
            layout.slot_size_bytes == self.secondary_slot_size,
            layout.scratch_size_bytes == self.scratch_size,
    {
        OtaLayout {
            slot_size_bytes: self.secondary_slot_size,
            scratch_size_bytes: self.scratch_size,
        }
    }
}

#[derive(Clone, Copy, Debug, PartialEq, Eq, Structural)]
pub enum BootAction {
    NoAction,
    MarkPendingSwap,
    ConfirmRunningImage,
    RecordFailure,
}

/// What the bootloader is asked to do at a given status.
pub open spec fn boot_action(status: OtaStatus) -> BootAction {
    if status.state == OtaState::PendingReboot {
        BootAction::MarkPendingSwap
    } else if status.state == OtaState::AwaitingConfirmation && status.confirm_running_image {
        BootAction::ConfirmRunningImage
    } else if status.state is Failed {
        BootAction::RecordFailure
    } else {
        BootAction::NoAction
    }
}

pub fn action_for_status(status: OtaStatus) -> (action: BootAction)
    ensures
        action == boot_action(status),
{
    match status.state {
        OtaState::PendingReboot => BootAction::MarkPendingSwap,
        OtaState::AwaitingConfirmation if status.confirm_running_image => {
            BootAction::ConfirmRunningImage
        },
        OtaState::Failed(_) => BootAction::RecordFailure,
        _ => BootAction::NoAction,
    }
}

pub fn status_from_boot_outcome(outcome: BootOutcome) -> (state: OtaState)
    ensures
        state == ota::booted_state(outcome),
{
    match outcome {
        BootOutcome::TrialBoot => OtaState::AwaitingConfirmation,
        BootOutcome::Confirmed => OtaState::Completed,
        BootOutcome::Reverted => OtaState::Failed(OtaBlockReason::VerificationFailed),
    }
}

/// The bootloader hears what the controller asks for: a swap is marked exactly when a reboot is
/// due, and the running image is confirmed exactly when the status asks for it.
pub proof fn boot_action_follows_status(progress: ota::OtaProgress)
    ensures
        boot_action(progress.status()) == BootAction::MarkPendingSwap
            <==> progress.status().reboot_to_swap,
        boot_action(progress.status()) == BootAction::ConfirmRunningImage
            <==> progress.status().confirm_running_image,
        boot_action(progress.status()) == BootAction::RecordFailure <==> progress.state is Failed,
{
}

/// A controller told of a boot is in the state that the boot outcome stands for.
pub proof fn booted_controller_agrees(progress: ota::OtaProgress, outcome: BootOutcome)
    ensures
        progress.after(ota::OtaCommand::Booted(outcome)).state == ota::booted_state(outcome),
{
}

/// Whatever a status says otherwise, a pending reboot has the swap marked, a failure is recorded,
/// a running image is confirmed if that is both awaited and asked for, and nothing else is done.
pub proof fn boot_actions_follow_the_state(status: OtaStatus)
    ensures
        boot_action(status) == BootAction::MarkPendingSwap <==> status.state is PendingReboot,
        boot_action(status) == BootAction::RecordFailure <==> status.state is Failed,
        boot_action(status) == BootAction::ConfirmRunningImage <==> status.state
            is AwaitingConfirmation && status.confirm_running_image,
        ota::booted_state(BootOutcome::TrialBoot) is AwaitingConfirmation,
        ota::booted_state(BootOutcome::Confirmed) is Completed,
        ota::booted_state(BootOutcome::Reverted) is Failed,
{
}

} // verus!
