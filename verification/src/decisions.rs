//! Decisions the tray controller takes on the results of native calls and on its own state:
//! window-class registration, registered shell messages, module-path buffer growth, startup
//! rollback, quitting safely, the status it publishes and what a scheduled deadline does.
use vstd::prelude::*;

use crate::pause::DurationAction;
use crate::surface::TrayStatus;
use crate::timing::{OwnershipState, PowerState};

verus! {

/// The result of a native call: success, or failure with the raw error code.
#[derive(Clone, Copy, Debug, PartialEq, Eq, Structural)]
pub enum NativeResult {
    Succeeded,
    Failed { raw_error: u32 },
}

/// The error a class registration reports when the class already exists.
pub const ERROR_CLASS_ALREADY_EXISTS: u32 = 1410;
/// The error a named-object creation reports when the object already exists.
pub const ERROR_ALREADY_EXISTS: u32 = 183;
/// The registered message the shell broadcasts when the taskbar is recreated.
pub const TASKBAR_CREATED_MESSAGE_NAME: &'static str = "TaskbarCreated";
/// The registered message a second instance sends to the running one.
pub const ANOTHER_INSTANCE_MESSAGE_NAME: &'static str = "TrueTickAnotherInstance";
/// The message-box result of the Yes button.
pub const IDYES: i32 = 6;

/// A BOOL-returning call succeeded unless it returned zero.
pub fn native_bool_result(result: i32, raw_error: u32) -> (r: NativeResult)
    ensures
        r == (if result == 0 {
            NativeResult::Failed { raw_error }
        } else {
            NativeResult::Succeeded
        }),
{
    if result == 0 {
        NativeResult::Failed { raw_error }
    } else {
        NativeResult::Succeeded
    }
}

/// A handle-returning call succeeded unless the handle is null.
pub fn native_handle_result(is_null: bool, raw_error: u32) -> (r: NativeResult)
    ensures
        r == (if is_null {
            NativeResult::Failed { raw_error }
        } else {
            NativeResult::Succeeded
        }),
{
    if is_null {
        NativeResult::Failed { raw_error }
    } else {
        NativeResult::Succeeded
    }
}

/// A window class registration succeeded when it returned an atom or the class already exists.
pub fn class_registration_result(atom: u16, raw_error: u32) -> (r: NativeResult)
    ensures
        r == (if atom != 0 || raw_error == ERROR_CLASS_ALREADY_EXISTS {
            NativeResult::Succeeded
        } else {
            NativeResult::Failed { raw_error }
        }),
{
    if atom != 0 || raw_error == ERROR_CLASS_ALREADY_EXISTS {
        NativeResult::Succeeded
    } else {
        NativeResult::Failed { raw_error }
    }
}

/// What to do after creating the single-instance mutex.
#[derive(Clone, Copy, Debug, PartialEq, Eq, Structural)]
pub enum SingleInstanceDecision {
    /// This is the only instance; the mutex handle (an address) is kept for its lifetime.
    Proceed { handle: usize },
    ExistingInstance,
    Failure { raw_error: u32 },
}

/// A null mutex handle is a failure; a handle with "already exists" means another instance
/// runs; any other handle lets this instance proceed.
pub fn single_instance_decision(handle: usize, raw_error: u32) -> (d: SingleInstanceDecision)
    ensures
        d == (if handle == 0 {
            SingleInstanceDecision::Failure { raw_error }
        } else if raw_error == ERROR_ALREADY_EXISTS {
            SingleInstanceDecision::ExistingInstance
        } else {
            SingleInstanceDecision::Proceed { handle }
        }),
{
    if handle == 0 {
        SingleInstanceDecision::Failure { raw_error }
    } else if raw_error == ERROR_ALREADY_EXISTS {
        SingleInstanceDecision::ExistingInstance
    } else {
        SingleInstanceDecision::Proceed { handle }
    }
}

/// What the tray window does with a message that may be the taskbar-created broadcast.
#[derive(Clone, Copy, Debug, PartialEq, Eq, Structural)]
pub enum TaskbarCreatedDecision {
    RestoreTrayIcon,
    Ignore,
}

/// Whether `message` is the registered message, which registration failure (zero) never is.
pub open spec fn is_registered(message: u32, registered_message: u32) -> bool {
    registered_message != 0 && message == registered_message
}

/// The taskbar-created broadcast restores the tray icon; every other message is ignored.
pub fn taskbar_created_decision(message: u32, registered_message: u32) -> (d:
    TaskbarCreatedDecision)
    ensures
        d == (if is_registered(message, registered_message) {
            TaskbarCreatedDecision::RestoreTrayIcon
        } else {
            TaskbarCreatedDecision::Ignore
        }),
{
    if registered_message != 0 && message == registered_message {
        TaskbarCreatedDecision::RestoreTrayIcon
    } else {
        TaskbarCreatedDecision::Ignore
    }
}

/// What the running instance does when a second instance announces itself.
#[derive(Clone, Copy, Debug, PartialEq, Eq, Structural)]
pub enum AnotherInstanceDecision {
    Notify,
    Record,
    Ignore,
}

/// The another-instance message is recorded; every other message is ignored.
pub fn another_instance_decision(message: u32, registered_message: u32) -> (d:
    AnotherInstanceDecision)
    ensures
        d == (if is_registered(message, registered_message) {
            AnotherInstanceDecision::Record
        } else {
            AnotherInstanceDecision::Ignore
        }),
{
    if registered_message != 0 && message == registered_message {
        AnotherInstanceDecision::Record
    } else {
        AnotherInstanceDecision::Ignore
    }
}

/// A second instance notifies the running one only when it found its window (a nonzero
/// handle address).
pub fn another_instance_notify_decision(window: usize) -> (d: AnotherInstanceDecision)
    ensures
        d == (if window == 0 {
            AnotherInstanceDecision::Ignore
        } else {
            AnotherInstanceDecision::Notify
        }),
{
    if window == 0 {
        AnotherInstanceDecision::Ignore
    } else {
        AnotherInstanceDecision::Notify
    }
}

/// The common-control class bit for list views.
pub const ICC_LISTVIEW_CLASSES: u32 = 0x0000_0001;
/// The common-control class bit for the bar classes, which include the tooltip control.
pub const ICC_BAR_CLASSES: u32 = 0x0000_0004;

/// The parameter block of the common-controls initialization.
#[derive(Clone, Copy, Debug, PartialEq, Eq, Structural)]
pub struct InitCommonControlsEx {
    pub size: u32,
    pub classes: u32,
}

/// The initialization the tray needs: its own size and the list-view and tooltip classes.
pub fn common_controls_initialization_contract() -> (init: InitCommonControlsEx)
    ensures
        init.size == vstd::layout::size_of::<InitCommonControlsEx>() as u32,
        init.classes == ICC_LISTVIEW_CLASSES | ICC_BAR_CLASSES,
{
    let size = core::mem::size_of::<InitCommonControlsEx>();
    #[verifier::truncate]
    let size32 = size as u32;
    InitCommonControlsEx { size: size32, classes: ICC_LISTVIEW_CLASSES | ICC_BAR_CLASSES }
}

/// What to do after asking for the module path into a buffer of some capacity.
#[derive(Clone, Copy, Debug, PartialEq, Eq, Structural)]
pub enum ModulePathGrowthDecision {
    Accept(usize),
    Grow(usize),
    GiveUp,
}

/// The first buffer capacity for the module path, in UTF-16 units.
pub const MODULE_PATH_INITIAL_CAPACITY: usize = 260;
/// The number of attempts before giving up.
pub const MODULE_PATH_MAX_ATTEMPTS: usize = 8;
/// The largest capacity a module path may need.
pub const MODULE_PATH_MAX_CAPACITY: usize = 32_768;

/// Zero length is a failure; a length below the capacity is the path; otherwise the capacity
/// doubles up to the maximum, unless the attempts or the capacity are used up.
pub open spec fn module_path_spec(
    length: u32,
    buffer_capacity: usize,
    attempts: usize,
) -> ModulePathGrowthDecision {
    if length == 0 {
        ModulePathGrowthDecision::GiveUp
    } else if length < buffer_capacity {
        ModulePathGrowthDecision::Accept(length as usize)
    } else if attempts >= MODULE_PATH_MAX_ATTEMPTS || buffer_capacity >= MODULE_PATH_MAX_CAPACITY {
        ModulePathGrowthDecision::GiveUp
    } else {
        let doubled = if buffer_capacity * 2 > usize::MAX {
            usize::MAX as int
        } else {
            buffer_capacity * 2
        };
        let next = if doubled < MODULE_PATH_MAX_CAPACITY {
            doubled
        } else {
            MODULE_PATH_MAX_CAPACITY as int
        };
        if next > buffer_capacity {
            ModulePathGrowthDecision::Grow(next as usize)
        } else {
            ModulePathGrowthDecision::GiveUp
        }
    }
}

/// Decides whether a module-path result is complete, needs a larger buffer, or cannot be had.
pub fn module_path_growth_decision(length: u32, buffer_capacity: usize, attempts: usize) -> (d:
    ModulePathGrowthDecision)
    ensures
        d == module_path_spec(length, buffer_capacity, attempts),
{
    if length == 0 {
        return ModulePathGrowthDecision::GiveUp;
    }
    let length_usize = length as usize;
    if length_usize < buffer_capacity {
        ModulePathGrowthDecision::Accept(length_usize)
    } else if attempts >= MODULE_PATH_MAX_ATTEMPTS || buffer_capacity >= MODULE_PATH_MAX_CAPACITY {
        ModulePathGrowthDecision::GiveUp
    } else {
        let doubled = if buffer_capacity > usize::MAX / 2 {
            usize::MAX
        } else {
            buffer_capacity * 2
        };
        let next_capacity = if doubled < MODULE_PATH_MAX_CAPACITY {
            doubled
        } else {
            MODULE_PATH_MAX_CAPACITY
        };
        if next_capacity > buffer_capacity {
            ModulePathGrowthDecision::Grow(next_capacity)
        } else {
            ModulePathGrowthDecision::GiveUp
        }
    }
}

/// How a failed startup-setting change is undone.
#[derive(Clone, Copy, Debug, PartialEq, Eq, Structural)]
pub enum StartupRollback {
    /// Leaving the written value in place is the only non-destructive inverse after an enable.
    SkipDestructiveInverse,
    /// Re-registering restores the state the persisted configuration still describes.
    RestoreRegistration,
}

/// A rollback never deletes a startup value: after an enable it leaves the value, after a
/// disable it registers again.
pub fn startup_rollback(enabled: bool) -> (r: StartupRollback)
    ensures
        r == (if enabled {
            StartupRollback::SkipDestructiveInverse
        } else {
            StartupRollback::RestoreRegistration
        }),
{
    if enabled {
        StartupRollback::SkipDestructiveInverse
    } else {
        StartupRollback::RestoreRegistration
    }
}

/// The program that the startup entry launches.
#[derive(Clone, Copy, Debug, PartialEq, Eq, Structural)]
pub enum StartupTargetKind {
    /// The portable launcher beside the installed slots.
    PortableLauncher,
    /// A development build run from its own directory.
    DevelopmentExecutable,
}

/// How a startup target is described in the status text.
pub open spec fn startup_target_text(kind: StartupTargetKind) -> Seq<char> {
    match kind {
        StartupTargetKind::PortableLauncher => "portable Launcher.exe entry point"@,
        StartupTargetKind::DevelopmentExecutable => "debug true-tick.exe development fallback"@,
    }
}

impl StartupTargetKind {
    /// How the target is described in the status text.
    pub fn description(self) -> (s: &'static str)
        ensures
            s@ == startup_target_text(self),
    {
        match self {
            StartupTargetKind::PortableLauncher => "portable Launcher.exe entry point",
            StartupTargetKind::DevelopmentExecutable => "debug true-tick.exe development fallback",
        }
    }
}

/// Where a change of the auto-start setting ends.
#[derive(Clone, Copy, Debug, PartialEq, Eq, Structural)]
pub enum StartupToggleStatus {
    /// No target could be registered and saving the setting failed too.
    UnavailableAndPersistFailed,
    /// The setting is saved as on, but no current-user entry could be registered.
    EnabledWithoutRegistration,
    /// Writing or removing the startup entry failed.
    RegistrationError,
    /// The entry was written, saving the setting failed, and the entry stays.
    PersistFailedRegistryLeftEnabled,
    /// The entry was removed, saving the setting failed, and registering again restored it.
    PersistFailedRolledBack,
    /// The entry was removed, saving the setting failed, and restoring it failed too.
    PersistFailedRepairRequired,
    /// The entry is registered for this target and the setting is saved as on.
    Registered { target: StartupTargetKind },
    /// The entry is removed and the setting is saved as off.
    Disabled,
}

/// The auto-start setting after a change to `enabled` from `current`, and where the change
/// ends. The outside steps run in order, each only where the one before lets it: finding the
/// target (only when enabling; `None` when there is none), writing or removing the entry,
/// saving the setting, and, when saving fails after a disable, registering the entry again.
pub open spec fn startup_toggle_spec(
    enabled: bool,
    current: bool,
    target: Option<StartupTargetKind>,
    registration_ok: bool,
    save_ok: bool,
    restore_ok: bool,
) -> (bool, StartupToggleStatus) {
    if enabled && target is None {
        if save_ok {
            (true, StartupToggleStatus::EnabledWithoutRegistration)
        } else {
            (current, StartupToggleStatus::UnavailableAndPersistFailed)
        }
    } else if !registration_ok {
        (current, StartupToggleStatus::RegistrationError)
    } else if !save_ok {
        (
            current,
            if enabled {
                StartupToggleStatus::PersistFailedRegistryLeftEnabled
            } else if restore_ok {
                StartupToggleStatus::PersistFailedRolledBack
            } else {
                StartupToggleStatus::PersistFailedRepairRequired
            },
        )
    } else if enabled {
        (true, StartupToggleStatus::Registered { target: target->0 })
    } else {
        (false, StartupToggleStatus::Disabled)
    }
}

/// The auto-start setting after a change and where the change ends, from the results of the
/// outside steps; a result the flow never reaches is not read.
pub fn startup_toggle_outcome(
    enabled: bool,
    current: bool,
    target: Option<StartupTargetKind>,
    registration_ok: bool,
    save_ok: bool,
    restore_ok: bool,
) -> (r: (bool, StartupToggleStatus))
    ensures
        r == startup_toggle_spec(enabled, current, target, registration_ok, save_ok, restore_ok),
{
    if enabled && target.is_none() {
        if save_ok {
            (true, StartupToggleStatus::EnabledWithoutRegistration)
        } else {
            (current, StartupToggleStatus::UnavailableAndPersistFailed)
        }
    } else if !registration_ok {
        (current, StartupToggleStatus::RegistrationError)
    } else if !save_ok {
        let status = match startup_rollback(enabled) {
            StartupRollback::SkipDestructiveInverse => {
                StartupToggleStatus::PersistFailedRegistryLeftEnabled
            },
            StartupRollback::RestoreRegistration => {
                if restore_ok {
                    StartupToggleStatus::PersistFailedRolledBack
                } else {
                    StartupToggleStatus::PersistFailedRepairRequired
                }
            },
        };
        (current, status)
    } else {
        match target {
            Some(kind) if enabled => (true, StartupToggleStatus::Registered { target: kind }),
            _ => (false, StartupToggleStatus::Disabled),
        }
    }
}

/// The saved auto-start setting changes only when saving it succeeded, and then to the
/// requested value; every failure leaves it as it was.
pub proof fn lemma_startup_setting_changes_only_when_saved(
    enabled: bool,
    current: bool,
    target: Option<StartupTargetKind>,
    registration_ok: bool,
    save_ok: bool,
    restore_ok: bool,
)
    ensures
        startup_toggle_spec(enabled, current, target, registration_ok, save_ok, restore_ok).0
            != current ==> save_ok && startup_toggle_spec(
            enabled,
            current,
            target,
            registration_ok,
            save_ok,
            restore_ok,
        ).0 == enabled,
        !save_ok ==> startup_toggle_spec(
            enabled,
            current,
            target,
            registration_ok,
            save_ok,
            restore_ok,
        ).0 == current,
{
}

/// The status text of where a startup change ended; `unavailable_reason` says why no target
/// could be found, for the one status that reports it.
pub open spec fn startup_status_text(status: StartupToggleStatus, unavailable_reason: Seq<char>) -> Seq<
    char,
> {
    match status {
        StartupToggleStatus::UnavailableAndPersistFailed =>
            "startup registration unavailable and config persistence failed"@,
        StartupToggleStatus::EnabledWithoutRegistration =>
            "auto-start enabled in config, current-user registration unavailable: "@
            + unavailable_reason,
        StartupToggleStatus::RegistrationError => "startup registration error"@,
        StartupToggleStatus::PersistFailedRegistryLeftEnabled =>
            "startup config persistence failed, registry left enabled and repair is required"@,
        StartupToggleStatus::PersistFailedRolledBack =>
            "startup config persistence failed, registry change rolled back"@,
        StartupToggleStatus::PersistFailedRepairRequired =>
            "startup config persistence failed, repair required"@,
        StartupToggleStatus::Registered { target } => "boot startup registered for current-user "@
            + startup_target_text(target),
        StartupToggleStatus::Disabled => "boot startup registration disabled by config"@,
    }
}

impl StartupToggleStatus {
    /// The status text shown for where the change ended.
    pub fn text(self, unavailable_reason: &str) -> (s: String)
        ensures
            s@ == startup_status_text(self, unavailable_reason@),
    {
        let mut out = String::new();
        match self {
            StartupToggleStatus::UnavailableAndPersistFailed => {
                out.append("startup registration unavailable and config persistence failed");
            },
            StartupToggleStatus::EnabledWithoutRegistration => {
                out.append("auto-start enabled in config, current-user registration unavailable: ");
                out.append(unavailable_reason);
            },
            StartupToggleStatus::RegistrationError => {
                out.append("startup registration error");
            },
            StartupToggleStatus::PersistFailedRegistryLeftEnabled => {
                out.append(
                    "startup config persistence failed, registry left enabled and repair is required",
                );
            },
            StartupToggleStatus::PersistFailedRolledBack => {
                out.append("startup config persistence failed, registry change rolled back");
            },
            StartupToggleStatus::PersistFailedRepairRequired => {
                out.append("startup config persistence failed, repair required");
            },
            StartupToggleStatus::Registered { target } => {
                out.append("boot startup registered for current-user ");
                out.append(target.description());
            },
            StartupToggleStatus::Disabled => {
                out.append("boot startup registration disabled by config");
            },
        }
        out
    }
}

/// Why quitting needs the safety dialog.
#[derive(Clone, Copy, Debug, PartialEq, Eq, Structural)]
pub enum QuitSafetyReason {
    OwnedActive,
    OwnershipUncertain,
    TimingNotSettled,
}

/// Whether Quit exits at once or asks first.
#[derive(Clone, Copy, Debug, PartialEq, Eq, Structural)]
pub enum QuitDecision {
    ExitNormally,
    RequireSafetyDialog { reason: QuitSafetyReason },
}

/// The answer taken from the safety dialog.
#[derive(Clone, Copy, Debug, PartialEq, Eq, Structural)]
pub enum QuitDialogDecision {
    StopAndQuit,
    Cancel,
}

/// The decision from a safety dialog and the raw result it came from.
#[derive(Clone, Copy, Debug, PartialEq, Eq, Structural)]
pub struct QuitWarningResult {
    pub decision: QuitDialogDecision,
    pub message_box_result: Option<i32>,
    pub dialog_shown: bool,
}

/// Whether a status still has timing in flight: running, a transition, or unverified.
pub open spec fn timing_unsettled(status: TrayStatus) -> bool {
    status == TrayStatus::Running || status == TrayStatus::Starting || status
        == TrayStatus::Stopping || status == TrayStatus::Pending || status == TrayStatus::Degraded
        || status == TrayStatus::Unverified
}

/// Owned timing asks because it is active, uncertain ownership asks because it is uncertain,
/// and released timing asks only while the status is unsettled.
pub open spec fn quit_spec(status: TrayStatus, ownership: OwnershipState) -> QuitDecision {
    match ownership {
        OwnershipState::Owned => QuitDecision::RequireSafetyDialog {
            reason: QuitSafetyReason::OwnedActive,
        },
        OwnershipState::Uncertain => QuitDecision::RequireSafetyDialog {
            reason: QuitSafetyReason::OwnershipUncertain,
        },
        OwnershipState::Released => if timing_unsettled(status) {
            QuitDecision::RequireSafetyDialog { reason: QuitSafetyReason::TimingNotSettled }
        } else {
            QuitDecision::ExitNormally
        },
    }
}

/// During a handoff, released ownership exits and anything else waits for timing to settle.
pub open spec fn quit_handoff_spec(
    status: TrayStatus,
    ownership: OwnershipState,
    handoff_active: bool,
) -> QuitDecision {
    if handoff_active {
        if ownership == OwnershipState::Released {
            QuitDecision::ExitNormally
        } else {
            QuitDecision::RequireSafetyDialog { reason: QuitSafetyReason::TimingNotSettled }
        }
    } else {
        quit_spec(status, ownership)
    }
}

/// Whether Quit may exit at once for this status and ownership.
pub fn quit_decision_for(status: TrayStatus, ownership: OwnershipState) -> (d: QuitDecision)
    ensures
        d == quit_spec(status, ownership),
{
    match ownership {
        OwnershipState::Owned => {
            return QuitDecision::RequireSafetyDialog { reason: QuitSafetyReason::OwnedActive };
        },
        OwnershipState::Uncertain => {
            return QuitDecision::RequireSafetyDialog {
                reason: QuitSafetyReason::OwnershipUncertain,
            };
        },
        OwnershipState::Released => {},
    }
    if matches!(
        status,
        TrayStatus::Running
            | TrayStatus::Starting
            | TrayStatus::Stopping
            | TrayStatus::Pending
            | TrayStatus::Degraded
            | TrayStatus::Unverified
    ) {
        return QuitDecision::RequireSafetyDialog { reason: QuitSafetyReason::TimingNotSettled };
    }
    QuitDecision::ExitNormally
}

/// Whether Quit may exit at once, taking an active release handoff into account.
pub fn quit_decision_for_handoff(
    status: TrayStatus,
    ownership: OwnershipState,
    handoff_active: bool,
) -> (d: QuitDecision)
    ensures
        d == quit_handoff_spec(status, ownership, handoff_active),
{
    if handoff_active && ownership == OwnershipState::Released {
        return QuitDecision::ExitNormally;
    }
    if handoff_active {
        return QuitDecision::RequireSafetyDialog { reason: QuitSafetyReason::TimingNotSettled };
    }
    quit_decision_for(status, ownership)
}

/// The question the safety dialog asks for each reason.
pub open spec fn quit_warning_spec(reason: QuitSafetyReason) -> Seq<char> {
    match reason {
        QuitSafetyReason::OwnershipUncertain => "True™ Tick could not verify that timing is fully released. Keep the app open and retry cleanup?"@,
        _ => "True™ Tick is currently controlling timer resolution. Stop timing and quit?"@,
    }
}

/// The safety dialog text.
pub fn quit_warning_text(reason: QuitSafetyReason) -> (s: &'static str)
    ensures
        s@ == quit_warning_spec(reason),
{
    match reason {
        QuitSafetyReason::OwnershipUncertain => "True™ Tick could not verify that timing is fully released. Keep the app open and retry cleanup?",
        QuitSafetyReason::OwnedActive | QuitSafetyReason::TimingNotSettled => "True™ Tick is currently controlling timer resolution. Stop timing and quit?",
    }
}

/// Only the Yes button stops and quits; every other result, closing included, cancels.
pub fn message_box_decision(result: i32) -> (d: QuitDialogDecision)
    ensures
        d == (if result == IDYES {
            QuitDialogDecision::StopAndQuit
        } else {
            QuitDialogDecision::Cancel
        }),
{
    if result == IDYES {
        QuitDialogDecision::StopAndQuit
    } else {
        QuitDialogDecision::Cancel
    }
}

/// The outcome of a safety dialog: a missing result counts as zero, zero means the dialog was
/// not shown, and the decision follows the result.
pub fn quit_warning_result(message_box_result: Option<i32>) -> (r: QuitWarningResult)
    ensures
        r.message_box_result == message_box_result,
        r.decision == (if message_box_result == Some(IDYES) {
            QuitDialogDecision::StopAndQuit
        } else {
            QuitDialogDecision::Cancel
        }),
        r.dialog_shown == (message_box_result is Some && message_box_result->0 != 0),
{
    let result = match message_box_result {
        Some(value) => value,
        None => 0,
    };
    QuitWarningResult {
        decision: message_box_decision(result),
        message_box_result,
        dialog_shown: result != 0,
    }
}

/// A slow but healthy message pump shows degraded only over running, stopped or paused, so a
/// block, an error or a transition is never masked.
pub open spec fn published_spec(base: TrayStatus, responsiveness_degraded: bool) -> TrayStatus {
    if responsiveness_degraded && (base == TrayStatus::Running || base == TrayStatus::Stopped
        || base == TrayStatus::Paused) {
        TrayStatus::Degraded
    } else {
        base
    }
}

/// The status the tray publishes given the pump responsiveness.
pub fn published_status(base: TrayStatus, responsiveness_degraded: bool) -> (s: TrayStatus)
    ensures
        s == published_spec(base, responsiveness_degraded),
{
    if responsiveness_degraded && matches!(
        base,
        TrayStatus::Running | TrayStatus::Stopped | TrayStatus::Paused
    ) {
        TrayStatus::Degraded
    } else {
        base
    }
}

/// Timing resumes on AC only when auto-resume is on, a resume is pending, the power is AC and
/// nothing is owned or uncertain.
pub fn resume_on_ac_applies(
    auto_resume: bool,
    pending: bool,
    power: PowerState,
    ownership: OwnershipState,
) -> (b: bool)
    ensures
        b == (auto_resume && pending && power == PowerState::Ac && ownership
            == OwnershipState::Released),
{
    auto_resume && pending && power == PowerState::Ac && ownership == OwnershipState::Released
}

/// What the tray does when a scheduled action's deadline passes.
#[derive(Clone, Copy, Debug, PartialEq, Eq, Structural)]
pub enum ScheduledStep {
    /// Queue an acquire intent.
    QueueAcquire,
    /// Change nothing and show the tray as stopped.
    ShowStopped,
    /// Release for the reason the power policy blocks timing.
    ReleaseForPolicy,
    /// Release the owned request, guarded, ending in the stopped state.
    GuardedRelease,
    /// The pause is over: refresh the power state and reconcile.
    ReconcileAfterPause,
}

/// The step a deadline takes. A start acquires when the power policy allows timing and nothing
/// is held, shows the tray as stopped when the policy allows it but ownership is not released,
/// and releases for the policy when the policy blocks it. A stop does nothing more than show
/// the tray as stopped when ownership is already released, and releases otherwise. The end of a
/// pause reconciles.
pub open spec fn scheduled_step_spec(
    action: DurationAction,
    policy_allows: bool,
    ownership: OwnershipState,
) -> ScheduledStep {
    match action {
        DurationAction::Start => if !policy_allows {
            ScheduledStep::ReleaseForPolicy
        } else if ownership == OwnershipState::Released {
            ScheduledStep::QueueAcquire
        } else {
            ScheduledStep::ShowStopped
        },
        DurationAction::Stop => if ownership == OwnershipState::Released {
            ScheduledStep::ShowStopped
        } else {
            ScheduledStep::GuardedRelease
        },
        DurationAction::Pause => ScheduledStep::ReconcileAfterPause,
    }
}

/// The step a scheduled deadline takes, given whether the power policy allows timing now and
/// the current ownership.
pub fn scheduled_action_step(
    action: DurationAction,
    policy_allows: bool,
    ownership: OwnershipState,
) -> (step: ScheduledStep)
    ensures
        step == scheduled_step_spec(action, policy_allows, ownership),
{
    match action {
        DurationAction::Start => {
            if !policy_allows {
                ScheduledStep::ReleaseForPolicy
            } else if ownership == OwnershipState::Released {
                ScheduledStep::QueueAcquire
            } else {
                ScheduledStep::ShowStopped
            }
        },
        DurationAction::Stop => {
            if ownership == OwnershipState::Released {
                ScheduledStep::ShowStopped
            } else {
                ScheduledStep::GuardedRelease
            }
        },
        DurationAction::Pause => ScheduledStep::ReconcileAfterPause,
    }
}

/// A deadline acquires only when the policy allows timing and nothing is held, and it releases
/// only when something may be held: a start releases only because the policy blocks it, and a
/// stop releases only when ownership is not already released.
pub proof fn lemma_deadlines_touch_only_what_they_must(
    action: DurationAction,
    policy_allows: bool,
    ownership: OwnershipState,
)
    ensures
        scheduled_step_spec(action, policy_allows, ownership) == ScheduledStep::QueueAcquire
            ==> action == DurationAction::Start && policy_allows && ownership
            == OwnershipState::Released,
        scheduled_step_spec(action, policy_allows, ownership) == ScheduledStep::GuardedRelease
            ==> action == DurationAction::Stop && ownership != OwnershipState::Released,
        scheduled_step_spec(action, policy_allows, ownership) == ScheduledStep::ReleaseForPolicy
            ==> action == DurationAction::Start && !policy_allows,
{
}

/// Whether the timing after a deadline's step counts as verified: after a start, the request
/// is owned and its verification succeeded (verified or finer than requested); after a stop,
/// ownership is released and no hand-off is running. The end of a pause verifies nothing.
pub fn scheduled_action_verified(
    action: DurationAction,
    ownership: OwnershipState,
    verification_ok: bool,
    handoff_active: bool,
) -> (b: bool)
    ensures
        b == match action {
            DurationAction::Start => ownership == OwnershipState::Owned && verification_ok,
            DurationAction::Stop => ownership == OwnershipState::Released && !handoff_active,
            DurationAction::Pause => false,
        },
{
    match action {
        DurationAction::Start => ownership == OwnershipState::Owned && verification_ok,
        DurationAction::Stop => ownership == OwnershipState::Released && !handoff_active,
        DurationAction::Pause => false,
    }
}

/// Timer ids and intervals of the tray window.
pub const HANDOFF_TIMER_ID: usize = 0x5449;
pub const DURATION_TIMER_ID_BASE: usize = 0x6000;
pub const SURFACE_RECOVERY_TIMER_ID: usize = 0x6A00;
pub const POPUP_REFRESH_TIMER_ID: usize = 0x7000;
pub const POPUP_REFRESH_INTERVAL_MS: u32 = 500;
pub const SCHEDULE_DISPLAY_TIMER_ID: usize = 0x7100;
pub const SCHEDULE_DISPLAY_INTERVAL_MS: u32 = 1_000;
pub const POWER_DEBOUNCE_TIMER_ID: usize = 0x7200;
pub const POWER_DEBOUNCE_INTERVAL_MS: u64 = 2_000;
pub const HEARTBEAT_TIMER_ID: usize = 0x7300;
pub const SURFACE_RECOVERY_ATTEMPTS: u32 = 3;
pub const SURFACE_RECOVERY_SPACING_MS: u64 = 2000;

/// The timer id of a schedule generation: the duration base plus the generation (truncated to
/// the word size), saturating.
pub fn duration_timer_id(generation: u64) -> (id: usize)
    ensures
        id == (if DURATION_TIMER_ID_BASE + (generation as usize) > usize::MAX {
            usize::MAX as int
        } else {
            DURATION_TIMER_ID_BASE + (generation as usize)
        }),
{
    #[verifier::truncate]
    let g = generation as usize;
    DURATION_TIMER_ID_BASE.saturating_add(g)
}

/// The value a window procedure returns when creating the diagnostic window failed.
pub fn diagnostic_create_failure_result() -> (r: isize)
    ensures
        r == -1,
{
    -1
}

/// Quit exits at once only when nothing is owned or uncertain: during a handoff released
/// ownership suffices, and otherwise the status must also be settled. Owned timing always asks
/// first, and uncertain ownership asks first unless a handoff is running.
pub proof fn lemma_quit_exits_only_when_released(
    status: TrayStatus,
    ownership: OwnershipState,
    handoff_active: bool,
)
    ensures
        quit_handoff_spec(status, ownership, handoff_active) == QuitDecision::ExitNormally
            ==> ownership == OwnershipState::Released,
        (!handoff_active && quit_handoff_spec(status, ownership, handoff_active)
            == QuitDecision::ExitNormally) ==> !timing_unsettled(status),
        ownership == OwnershipState::Owned ==> quit_handoff_spec(status, ownership, handoff_active)
            != QuitDecision::ExitNormally,
        (ownership == OwnershipState::Released && !timing_unsettled(status)) ==> quit_handoff_spec(
            status,
            ownership,
            handoff_active,
        ) == QuitDecision::ExitNormally,
{
}

/// The published status differs from the lifecycle status only by showing degraded over
/// running, stopped or paused; a block, an error, an unsupported platform or a transition is
/// never masked.
pub proof fn lemma_published_status_never_masks(base: TrayStatus, responsiveness_degraded: bool)
    ensures
        published_spec(base, responsiveness_degraded) == base || (responsiveness_degraded && (
        base == TrayStatus::Running || base == TrayStatus::Stopped || base == TrayStatus::Paused)
            && published_spec(base, responsiveness_degraded) == TrayStatus::Degraded),
        !(base == TrayStatus::Running || base == TrayStatus::Stopped || base == TrayStatus::Paused)
            ==> published_spec(base, responsiveness_degraded) == base,
        !responsiveness_degraded ==> published_spec(base, responsiveness_degraded) == base,
{
}

/// A module-path buffer only grows, never beyond the maximum capacity, an accepted length is a
/// nonzero length that fit, and once the attempts are used up the buffer never grows again.
pub proof fn lemma_module_path_growth_is_bounded(length: u32, capacity: usize, attempts: usize)
    ensures
        match module_path_spec(length, capacity, attempts) {
            ModulePathGrowthDecision::Grow(next) => capacity < next <= MODULE_PATH_MAX_CAPACITY
                && length >= capacity,
            ModulePathGrowthDecision::Accept(n) => 0 < n < capacity && n == length,
            ModulePathGrowthDecision::GiveUp => length == 0 || length >= capacity,
        },
        attempts >= MODULE_PATH_MAX_ATTEMPTS ==> !(module_path_spec(
            length,
            capacity,
            attempts,
        ) is Grow),
{
}

/// A registered message id of zero, which means registration failed, never matches.
pub proof fn lemma_failed_registration_matches_nothing(message: u32)
    ensures
        !is_registered(message, 0),
{
}

/// Stop-and-quit comes only from a shown dialog whose answer was Yes.
pub proof fn lemma_stop_and_quit_needs_a_shown_yes(message_box_result: Option<i32>)
    ensures
        (if message_box_result == Some(IDYES) {
            QuitDialogDecision::StopAndQuit
        } else {
            QuitDialogDecision::Cancel
        }) == QuitDialogDecision::StopAndQuit ==> (message_box_result is Some
            && message_box_result->0 != 0),
{
}

} // verus!
