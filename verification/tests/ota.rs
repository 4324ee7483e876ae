use window_sensor::ota::{
    BootOutcome, OtaBlockReason, OtaCommand, OtaController, OtaLayout, OtaPolicy, OtaPrerequisites,
    OtaSlot, OtaState,
};
use window_sensor::setup::SetupState;

#[test]
fn ready_device_with_good_battery_advertises_ota() {
    let mut ota = OtaController::default();

    let status = ota.apply(OtaCommand::Evaluate(OtaPrerequisites {
        battery_pct: 82,
        setup_state: SetupState::Ready,
    }));

    assert_eq!(status.state, OtaState::Advertised);
    assert!(status.advertise_ota);
    assert_eq!(status.target_slot, None);
}

#[test]
fn low_battery_blocks_ota() {
    let mut ota = OtaController::default();

    let status = ota.apply(OtaCommand::Evaluate(OtaPrerequisites {
        battery_pct: 20,
        setup_state: SetupState::Ready,
    }));

    assert_eq!(
        status.state,
        OtaState::Blocked(OtaBlockReason::BatteryTooLow)
    );
    assert!(!status.advertise_ota);
}

#[test]
fn incomplete_setup_blocks_ota() {
    let mut ota = OtaController::default();

    let status = ota.apply(OtaCommand::Evaluate(OtaPrerequisites {
        battery_pct: 82,
        setup_state: SetupState::Discovery,
    }));

    assert_eq!(
        status.state,
        OtaState::Blocked(OtaBlockReason::SetupIncomplete)
    );
}

#[test]
fn debug_mode_can_override_setup_gate() {
    let mut ota = OtaController::default();

    let status = ota.apply(OtaCommand::Evaluate(OtaPrerequisites {
        battery_pct: 82,
        setup_state: SetupState::Debug,
    }));

    assert_eq!(status.state, OtaState::Advertised);
}

#[test]
fn oversized_image_is_rejected() {
    let mut ota = OtaController::default();
    let _ = ota.apply(OtaCommand::Evaluate(OtaPrerequisites {
        battery_pct: 82,
        setup_state: SetupState::Ready,
    }));

    let status = ota.apply(OtaCommand::StartTransfer {
        image_size_bytes: 1024 * 1024,
    });

    assert_eq!(
        status.state,
        OtaState::Blocked(OtaBlockReason::ImageTooLarge)
    );
}

#[test]
fn image_larger_than_secondary_slot_is_rejected() {
    let policy = OtaPolicy {
        max_image_size_bytes: 700 * 1024,
        ..OtaPolicy::default()
    };
    let layout = OtaLayout {
        slot_size_bytes: 512 * 1024,
        scratch_size_bytes: 64 * 1024,
    };
    let mut ota = OtaController::new(policy, layout);
    let _ = ota.apply(OtaCommand::Evaluate(OtaPrerequisites {
        battery_pct: 82,
        setup_state: SetupState::Ready,
    }));

    let status = ota.apply(OtaCommand::StartTransfer {
        image_size_bytes: 600 * 1024,
    });

    assert_eq!(
        status.state,
        OtaState::Blocked(OtaBlockReason::SecondarySlotTooSmall)
    );
}

#[test]
fn ota_progresses_from_download_to_confirmed_boot() {
    let mut ota = OtaController::default();
    let _ = ota.apply(OtaCommand::Evaluate(OtaPrerequisites {
        battery_pct: 82,
        setup_state: SetupState::Ready,
    }));

    let downloading = ota.apply(OtaCommand::StartTransfer {
        image_size_bytes: 1024,
    });
    assert_eq!(downloading.state, OtaState::Downloading);
    assert!(downloading.accept_transfer);
    assert_eq!(downloading.target_slot, Some(OtaSlot::Secondary));

    let verifying = ota.apply(OtaCommand::ChunkReceived { bytes: 1024 });
    assert_eq!(verifying.state, OtaState::Verifying);
    assert_eq!(verifying.bytes_received, 1024);

    let ready = ota.apply(OtaCommand::VerifyOk);
    assert_eq!(ready.state, OtaState::ReadyToSwap);

    let rebooting = ota.apply(OtaCommand::RequestSwap);
    assert_eq!(rebooting.state, OtaState::PendingReboot);
    assert!(rebooting.reboot_to_swap);

    let trial_boot = ota.apply(OtaCommand::Booted(BootOutcome::TrialBoot));
    assert_eq!(trial_boot.state, OtaState::AwaitingConfirmation);
    assert!(trial_boot.confirm_running_image);

    let done = ota.apply(OtaCommand::ConfirmRunningImage);
    assert_eq!(done.state, OtaState::Completed);
    assert_eq!(done.target_slot, Some(OtaSlot::Primary));
}

#[test]
fn verification_failure_moves_to_failed_state() {
    let mut ota = OtaController::default();
    let _ = ota.apply(OtaCommand::Evaluate(OtaPrerequisites {
        battery_pct: 82,
        setup_state: SetupState::Ready,
    }));
    let _ = ota.apply(OtaCommand::StartTransfer {
        image_size_bytes: 512,
    });
    let _ = ota.apply(OtaCommand::ChunkReceived { bytes: 512 });

    let failed = ota.apply(OtaCommand::VerifyFailed);
    assert_eq!(
        failed.state,
        OtaState::Failed(OtaBlockReason::VerificationFailed)
    );
}

#[test]
fn reverted_trial_boot_is_reported_as_failed() {
    let mut ota = OtaController::default();

    let failed = ota.apply(OtaCommand::Booted(BootOutcome::Reverted));
    assert_eq!(
        failed.state,
        OtaState::Failed(OtaBlockReason::VerificationFailed)
    );
}

fn evaluated(battery_pct: u8, setup_state: SetupState) -> OtaController {
    let mut ota = OtaController::default();
    ota.apply(OtaCommand::Evaluate(OtaPrerequisites {
        battery_pct,
        setup_state,
    }));
    ota
}

#[test]
fn a_transfer_without_an_offer_is_not_ready() {
    let mut ota = OtaController::default();
    let status = ota.apply(OtaCommand::StartTransfer {
        image_size_bytes: 1,
    });
    assert_eq!(status.state, OtaState::Blocked(OtaBlockReason::NotReady));
}

#[test]
fn chunks_add_up_and_never_exceed_the_image() {
    let mut ota = evaluated(82, SetupState::Ready);
    ota.apply(OtaCommand::StartTransfer {
        image_size_bytes: 100,
    });
    let first = ota.apply(OtaCommand::ChunkReceived { bytes: 60 });
    assert_eq!((first.bytes_received, first.state), (60, OtaState::Downloading));
    let second = ota.apply(OtaCommand::ChunkReceived { bytes: u32::MAX });
    assert_eq!((second.bytes_received, second.state), (100, OtaState::Verifying));
}

#[test]
fn a_swap_needs_a_verified_image() {
    let mut ota = evaluated(82, SetupState::Ready);
    ota.apply(OtaCommand::StartTransfer {
        image_size_bytes: 100,
    });
    assert_eq!(ota.apply(OtaCommand::VerifyOk).state, OtaState::Downloading);
    assert_eq!(ota.apply(OtaCommand::RequestSwap).state, OtaState::Downloading);
    assert_eq!(
        ota.apply(OtaCommand::ConfirmRunningImage).state,
        OtaState::Downloading
    );
}

#[test]
fn an_abort_starts_over() {
    let mut ota = evaluated(82, SetupState::Ready);
    ota.apply(OtaCommand::StartTransfer {
        image_size_bytes: 100,
    });
    let status = ota.apply(OtaCommand::Abort);
    assert_eq!(status.state, OtaState::Idle);
    assert_eq!(status.target_slot, None);
    assert_eq!((status.bytes_received, status.bytes_total), (0, 0));
    assert_eq!(ota, OtaController::default());
}
