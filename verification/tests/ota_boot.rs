use window_sensor::ota::{
    BootOutcome, OtaBlockReason, OtaCommand, OtaController, OtaSlot, OtaState, OtaStatus,
};
use window_sensor::ota_boot::{action_for_status, status_from_boot_outcome, BootAction};
use window_sensor::partition::{LayoutError, PartitionLayout};

#[test]
fn default_layout_is_valid() {
    let layout = PartitionLayout::mcuboot_default();

    assert_eq!(layout.validate(), Ok(()));
    assert_eq!(layout.app_link_origin(), 0x0001_0000);
    assert_eq!(layout.app_link_length(), 384 * 1024);
    assert_eq!(layout.ota_layout().slot_size_bytes, 384 * 1024);
}

#[test]
fn layout_rejects_slot_size_mismatch() {
    let mut layout = PartitionLayout::mcuboot_default();
    layout.secondary_slot_size = 320 * 1024;

    assert_eq!(layout.validate(), Err(LayoutError::SlotSizeMismatch));
}

#[test]
fn layout_rejects_invalid_region_order() {
    let mut layout = PartitionLayout::mcuboot_default();
    layout.secondary_slot_start = layout.primary_slot_start - 4;

    assert_eq!(layout.validate(), Err(LayoutError::RegionOverlap));
}

#[test]
fn pending_reboot_requests_mark_swap() {
    let status = OtaStatus {
        state: OtaState::PendingReboot,
        target_slot: Some(OtaSlot::Secondary),
        bytes_received: 100,
        bytes_total: 100,
        advertise_ota: false,
        accept_transfer: false,
        reboot_to_swap: true,
        confirm_running_image: false,
    };

    assert_eq!(action_for_status(status), BootAction::MarkPendingSwap);
}

#[test]
fn awaiting_confirmation_requests_image_confirm() {
    let status = OtaStatus {
        state: OtaState::AwaitingConfirmation,
        target_slot: Some(OtaSlot::Primary),
        bytes_received: 100,
        bytes_total: 100,
        advertise_ota: false,
        accept_transfer: false,
        reboot_to_swap: false,
        confirm_running_image: true,
    };

    assert_eq!(action_for_status(status), BootAction::ConfirmRunningImage);
}

#[test]
fn a_failure_is_recorded_and_the_rest_asks_for_nothing() {
    let mut status = OtaStatus {
        state: OtaState::Failed(OtaBlockReason::VerificationFailed),
        target_slot: None,
        bytes_received: 0,
        bytes_total: 0,
        advertise_ota: false,
        accept_transfer: false,
        reboot_to_swap: false,
        confirm_running_image: false,
    };
    assert_eq!(action_for_status(status), BootAction::RecordFailure);
    status.state = OtaState::AwaitingConfirmation;
    assert_eq!(action_for_status(status), BootAction::NoAction);
    status.state = OtaState::Advertised;
    assert_eq!(action_for_status(status), BootAction::NoAction);
}

#[test]
fn a_booted_controller_agrees_with_the_boot_outcome() {
    for outcome in [
        BootOutcome::TrialBoot,
        BootOutcome::Confirmed,
        BootOutcome::Reverted,
    ] {
        let mut ota = OtaController::default();
        assert_eq!(
            ota.apply(OtaCommand::Booted(outcome)).state,
            status_from_boot_outcome(outcome)
        );
    }
}
