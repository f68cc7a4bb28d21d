use true_tick::decisions::{
    another_instance_decision, another_instance_notify_decision, single_instance_decision,
    SingleInstanceDecision, class_registration_result, common_controls_initialization_contract,
    message_box_decision, module_path_growth_decision, quit_decision_for,
    quit_decision_for_handoff, quit_warning_result, quit_warning_text, taskbar_created_decision,
    AnotherInstanceDecision, InitCommonControlsEx, ModulePathGrowthDecision, NativeResult,
    QuitDecision, QuitDialogDecision, QuitSafetyReason, TaskbarCreatedDecision,
    ANOTHER_INSTANCE_MESSAGE_NAME, ERROR_CLASS_ALREADY_EXISTS, ICC_BAR_CLASSES,
    ICC_LISTVIEW_CLASSES, IDYES, MODULE_PATH_MAX_ATTEMPTS, TASKBAR_CREATED_MESSAGE_NAME,
};
use true_tick::surface::TrayStatus;
use true_tick::text::wide;
use true_tick::timing::OwnershipState;

#[test]
fn common_controls_initialization_uses_list_view_and_tooltip_classes() {
    let init = common_controls_initialization_contract();
    assert_eq!(init.size as usize, std::mem::size_of::<InitCommonControlsEx>());
    assert_eq!(init.classes, ICC_LISTVIEW_CLASSES | ICC_BAR_CLASSES);
    assert_ne!(init.classes & ICC_LISTVIEW_CLASSES, 0);
    assert_ne!(init.classes & ICC_BAR_CLASSES, 0);
}

#[test]
fn class_registration_accepts_existing_class_and_rejects_other_failures() {
    assert_eq!(class_registration_result(1, 0), NativeResult::Succeeded);
    assert_eq!(
        class_registration_result(0, ERROR_CLASS_ALREADY_EXISTS),
        NativeResult::Succeeded
    );
    assert_eq!(
        class_registration_result(0, 5),
        NativeResult::Failed { raw_error: 5 }
    );
}

#[test]
fn built_in_quit_warning_uses_concise_active_and_uncertain_messages() {
    assert_eq!(
        quit_warning_text(QuitSafetyReason::OwnedActive),
        "True™ Tick is currently controlling timer resolution. Stop timing and quit?"
    );
    assert_eq!(
        quit_warning_text(QuitSafetyReason::OwnershipUncertain),
        "True™ Tick could not verify that timing is fully released. Keep the app open and retry cleanup?"
    );
}

#[test]
fn message_box_maps_only_yes_to_stop_and_quit_and_close_to_cancel() {
    assert_eq!(message_box_decision(IDYES), QuitDialogDecision::StopAndQuit);
    for result in [7, 0, 1, -1, 9999] {
        assert_eq!(message_box_decision(result), QuitDialogDecision::Cancel);
    }
    let failed = quit_warning_result(Some(0));
    assert_eq!(failed.decision, QuitDialogDecision::Cancel);
    assert!(!failed.dialog_shown);
    let accepted = quit_warning_result(Some(IDYES));
    assert_eq!(accepted.decision, QuitDialogDecision::StopAndQuit);
    assert!(accepted.dialog_shown);
}

#[test]
fn quit_decision_allows_only_settled_released_state_to_exit() {
    assert_eq!(
        quit_decision_for(TrayStatus::Stopped, OwnershipState::Released),
        QuitDecision::ExitNormally
    );
    assert_eq!(
        quit_decision_for_handoff(TrayStatus::Stopping, OwnershipState::Released, true),
        QuitDecision::ExitNormally
    );
    assert_eq!(
        quit_decision_for_handoff(TrayStatus::Stopping, OwnershipState::Owned, true),
        QuitDecision::RequireSafetyDialog {
            reason: QuitSafetyReason::TimingNotSettled
        }
    );
    assert_eq!(
        quit_decision_for(TrayStatus::Blocked, OwnershipState::Released),
        QuitDecision::ExitNormally
    );
    assert_eq!(
        quit_decision_for(TrayStatus::Running, OwnershipState::Owned),
        QuitDecision::RequireSafetyDialog {
            reason: QuitSafetyReason::OwnedActive
        }
    );
}

#[test]
fn quit_decision_requires_safety_for_running_transition_and_unverified_states() {
    for status in [
        TrayStatus::Running,
        TrayStatus::Starting,
        TrayStatus::Stopping,
    ] {
        assert_eq!(
            quit_decision_for(status, OwnershipState::Released),
            QuitDecision::RequireSafetyDialog {
                reason: QuitSafetyReason::TimingNotSettled
            }
        );
    }
    for status in [
        TrayStatus::Unverified,
        TrayStatus::Degraded,
        TrayStatus::Pending,
    ] {
        assert_eq!(
            quit_decision_for(status, OwnershipState::Released),
            QuitDecision::RequireSafetyDialog {
                reason: QuitSafetyReason::TimingNotSettled
            }
        );
    }
}

#[test]
fn quit_decision_requires_safety_when_ownership_is_uncertain() {
    for status in [TrayStatus::Stopped, TrayStatus::Error] {
        assert_eq!(
            quit_decision_for(status, OwnershipState::Uncertain),
            QuitDecision::RequireSafetyDialog {
                reason: QuitSafetyReason::OwnershipUncertain
            }
        );
    }
}

#[test]
fn module_path_growth_decision_handles_adequate_insufficient_and_give_up() {
    assert_eq!(
        module_path_growth_decision(100, 260, 0),
        ModulePathGrowthDecision::Accept(100)
    );
    assert_eq!(
        module_path_growth_decision(259, 260, 0),
        ModulePathGrowthDecision::Accept(259)
    );
    assert_eq!(
        module_path_growth_decision(260, 260, 0),
        ModulePathGrowthDecision::Grow(520)
    );
    assert_eq!(
        module_path_growth_decision(300, 260, 0),
        ModulePathGrowthDecision::Grow(520)
    );
    assert_eq!(
        module_path_growth_decision(0, 260, 0),
        ModulePathGrowthDecision::GiveUp
    );
    assert_eq!(
        module_path_growth_decision(260, 260, MODULE_PATH_MAX_ATTEMPTS),
        ModulePathGrowthDecision::GiveUp
    );
    assert_eq!(
        module_path_growth_decision(32_768, 32_768, 0),
        ModulePathGrowthDecision::GiveUp
    );
}

#[test]
fn taskbar_created_decision_matches_registered_message_only_when_valid() {
    assert_eq!(
        taskbar_created_decision(0xC000, 0xC000),
        TaskbarCreatedDecision::RestoreTrayIcon
    );
    assert_eq!(
        taskbar_created_decision(0xC000, 0xC001),
        TaskbarCreatedDecision::Ignore
    );
    assert_eq!(
        taskbar_created_decision(0, 0),
        TaskbarCreatedDecision::Ignore
    );
    assert_eq!(
        taskbar_created_decision(0x0001, 0),
        TaskbarCreatedDecision::Ignore
    );
}

#[test]
fn taskbar_created_registered_message_name_is_exact() {
    assert_eq!(TASKBAR_CREATED_MESSAGE_NAME, "TaskbarCreated");
    let wide_name = wide(TASKBAR_CREATED_MESSAGE_NAME);
    assert_eq!(wide_name.last(), Some(&0));
    assert_eq!(wide_name.len(), "TaskbarCreated".len() + 1);
}

#[test]
fn another_instance_decision_matches_registered_message_only_when_valid() {
    assert_eq!(
        another_instance_decision(0xC000, 0xC000),
        AnotherInstanceDecision::Record
    );
    assert_eq!(
        another_instance_decision(0xC000, 0xC001),
        AnotherInstanceDecision::Ignore
    );
    assert_eq!(
        another_instance_decision(0, 0),
        AnotherInstanceDecision::Ignore
    );
    assert_eq!(
        another_instance_decision(0x0001, 0),
        AnotherInstanceDecision::Ignore
    );
}

#[test]
fn another_instance_registered_message_name_is_exact() {
    assert_eq!(ANOTHER_INSTANCE_MESSAGE_NAME, "TrueTickAnotherInstance");
    let wide_name = wide(ANOTHER_INSTANCE_MESSAGE_NAME);
    assert_eq!(wide_name.last(), Some(&0));
    assert_eq!(wide_name.len(), "TrueTickAnotherInstance".len() + 1);
}

#[test]
fn wide_encodes_supplementary_characters_as_surrogate_pairs() {
    assert_eq!(wide("a\u{1F600}"), vec![0x61, 0xD83D, 0xDE00, 0]);
    assert_eq!(wide("™"), vec![0x2122, 0]);
    assert_eq!(wide(""), vec![0]);
}

#[test]
fn single_instance_decision_maps_create_result_and_last_error() {
    assert_eq!(
        single_instance_decision(0, 5),
        SingleInstanceDecision::Failure { raw_error: 5 }
    );
    let existing_handle = 0x40usize;
    assert_eq!(
        single_instance_decision(existing_handle, 183),
        SingleInstanceDecision::ExistingInstance
    );
    assert_eq!(
        single_instance_decision(existing_handle, 0),
        SingleInstanceDecision::Proceed {
            handle: existing_handle
        }
    );
}

#[test]
fn another_instance_notify_decision_maps_found_window_and_null() {
    assert_eq!(
        another_instance_notify_decision(0),
        AnotherInstanceDecision::Ignore
    );
    let found = 0x40usize;
    assert_eq!(
        another_instance_notify_decision(found),
        AnotherInstanceDecision::Notify
    );
}
