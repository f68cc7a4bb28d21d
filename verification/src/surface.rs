//! The tray surface: lifecycle status and its icon color, the hover text, the popup menus and
//! which commands they accept, and the release handoff tracker.
use vstd::prelude::*;

use crate::pause::{
    action_label, all_choices, choice_label, pause_choice_seq, remaining_spec, DurationAction,
    DurationChoice, ScheduledAction,
};
use crate::text::{decimal, push_decimal};
use crate::timing::{detailed_text, milliseconds_text, Hns, OwnershipState, PowerState, TimingValues};

verus! {

/// The lifecycle status shown by the tray icon.
#[derive(Clone, Copy, Debug, PartialEq, Eq, Structural)]
pub enum TrayStatus {
    Running,
    Starting,
    ScheduledStart,
    Pausing,
    Stopping,
    ScheduledStop,
    Paused,
    Pending,
    Degraded,
    Unverified,
    Stopped,
    Blocked,
    Unsupported,
    Error,
}

/// The color of the tray icon.
#[derive(Clone, Copy, Debug, PartialEq, Eq, Structural)]
pub enum IconColor {
    Green,
    Yellow,
    Red,
}

/// One popup menu entry.
#[derive(Clone, Debug, PartialEq, Eq)]
pub struct MenuItem {
    pub label: String,
    pub enabled: bool,
    pub command_id: Option<usize>,
}

/// Whether a menu item has exactly this label, enabled state and command id.
pub open spec fn item_is(
    item: MenuItem,
    label: Seq<char>,
    enabled: bool,
    command_id: Option<usize>,
) -> bool {
    item.label@ == label && item.enabled == enabled && item.command_id == command_id
}

/// What to do with the timer request when the power source or the automatic setting changes.
#[derive(Clone, Copy, Debug, PartialEq, Eq, Structural)]
pub enum PowerReconciliation {
    Acquire,
    ReleaseBlocked,
    ShowStopped,
    PreserveOwned,
    PreserveUncertain,
}

/// On AC power a released request is acquired when timing is automatic, an owned or uncertain
/// one is preserved, and otherwise the tray shows stopped; any other power state releases.
pub open spec fn power_reconciliation_spec(
    automatic: bool,
    power: PowerState,
    ownership: OwnershipState,
) -> PowerReconciliation {
    if power == PowerState::Ac {
        if automatic && ownership == OwnershipState::Released {
            PowerReconciliation::Acquire
        } else if ownership == OwnershipState::Owned {
            PowerReconciliation::PreserveOwned
        } else if ownership == OwnershipState::Uncertain {
            PowerReconciliation::PreserveUncertain
        } else {
            PowerReconciliation::ShowStopped
        }
    } else {
        PowerReconciliation::ReleaseBlocked
    }
}

/// Decides what a power or setting change does to the timer request.
pub fn power_reconciliation(
    automatic: bool,
    power: PowerState,
    ownership: OwnershipState,
) -> (r: PowerReconciliation)
    ensures
        r == power_reconciliation_spec(automatic, power, ownership),
{
    match power {
        PowerState::Ac => {
            if automatic && ownership == OwnershipState::Released {
                PowerReconciliation::Acquire
            } else if ownership == OwnershipState::Owned {
                PowerReconciliation::PreserveOwned
            } else if ownership == OwnershipState::Uncertain {
                PowerReconciliation::PreserveUncertain
            } else {
                PowerReconciliation::ShowStopped
            }
        },
        PowerState::Battery | PowerState::BatterySaver | PowerState::Unknown => {
            PowerReconciliation::ReleaseBlocked
        },
    }
}

/// An active handoff, or a pause being applied, shows as stopping; otherwise the status stays.
pub open spec fn lifecycle_spec(status: TrayStatus, handoff_active: bool) -> TrayStatus {
    if handoff_active || status == TrayStatus::Pausing {
        TrayStatus::Stopping
    } else {
        status
    }
}

/// The status the tray shows while a release handoff may be in progress.
pub fn lifecycle_status(status: TrayStatus, handoff_active: bool) -> (r: TrayStatus)
    ensures
        r == lifecycle_spec(status, handoff_active),
{
    if handoff_active || status == TrayStatus::Pausing {
        TrayStatus::Stopping
    } else {
        status
    }
}

/// The lifecycle status, where a scheduled start shows on a stopped tray and a scheduled stop on
/// a running one, unless a handoff is active.
pub open spec fn scheduled_lifecycle_spec(
    status: TrayStatus,
    handoff_active: bool,
    scheduled: Option<DurationAction>,
) -> TrayStatus {
    let base = lifecycle_spec(status, handoff_active);
    if handoff_active {
        base
    } else if base == TrayStatus::Stopped && scheduled == Some(DurationAction::Start) {
        TrayStatus::ScheduledStart
    } else if base == TrayStatus::Running && scheduled == Some(DurationAction::Stop) {
        TrayStatus::ScheduledStop
    } else {
        base
    }
}

/// The lifecycle status with the pending scheduled action folded in.
pub fn scheduled_lifecycle_status(
    status: TrayStatus,
    handoff_active: bool,
    scheduled: Option<DurationAction>,
) -> (r: TrayStatus)
    ensures
        r == scheduled_lifecycle_spec(status, handoff_active, scheduled),
{
    let status = lifecycle_status(status, handoff_active);
    if handoff_active {
        return status;
    }
    match (status, scheduled) {
        (TrayStatus::Stopped, Some(DurationAction::Start)) => TrayStatus::ScheduledStart,
        (TrayStatus::Running, Some(DurationAction::Stop)) => TrayStatus::ScheduledStop,
        _ => status,
    }
}

/// Verified running is green; stopped, blocked, unsupported and error are red; every
/// transition, schedule and unverified state is yellow.
pub open spec fn status_color(status: TrayStatus) -> IconColor {
    match status {
        TrayStatus::Running => IconColor::Green,
        TrayStatus::Stopped | TrayStatus::Blocked | TrayStatus::Unsupported | TrayStatus::Error => {
            IconColor::Red
        },
        _ => IconColor::Yellow,
    }
}

impl TrayStatus {
    /// The icon color of the status.
    pub fn icon_color(self) -> (c: IconColor)
        ensures
            c == status_color(self),
    {
        match self {
            TrayStatus::Running => IconColor::Green,
            TrayStatus::Starting
            | TrayStatus::ScheduledStart
            | TrayStatus::Pausing
            | TrayStatus::Stopping
            | TrayStatus::ScheduledStop
            | TrayStatus::Paused
            | TrayStatus::Pending
            | TrayStatus::Degraded
            | TrayStatus::Unverified => IconColor::Yellow,
            TrayStatus::Stopped
            | TrayStatus::Blocked
            | TrayStatus::Unsupported
            | TrayStatus::Error => IconColor::Red,
        }
    }
}

/// The label of the sign-in startup setting.
pub open spec fn auto_start_text(enabled: bool) -> Seq<char> {
    if enabled {
        "Auto-start: On"@
    } else {
        "Auto-start: Off"@
    }
}

/// The label of the automatic-timing setting.
pub open spec fn automatic_text(enabled: bool) -> Seq<char> {
    if enabled {
        "Auto-time: On"@
    } else {
        "Auto-time: Off"@
    }
}

/// The label of the sign-in startup setting.
pub fn auto_start_label(enabled: bool) -> (s: &'static str)
    ensures
        s@ == auto_start_text(enabled),
{
    if enabled {
        "Auto-start: On"
    } else {
        "Auto-start: Off"
    }
}

/// The label of the automatic-timing setting.
pub fn automatic_label(enabled: bool) -> (s: &'static str)
    ensures
        s@ == automatic_text(enabled),
{
    if enabled {
        "Auto-time: On"
    } else {
        "Auto-time: Off"
    }
}

/// The package version shown in the menu header.
pub const PACKAGE_VERSION: &'static str = "0.1.0";

/// The branded menu header with the package version.
pub fn version_header() -> (s: String)
    ensures
        s@ == "True™ Tick v"@ + PACKAGE_VERSION@,
{
    let mut s = String::from_str("True™ Tick v");
    s.append(PACKAGE_VERSION);
    s
}

/// The effective timing, shown only when the observation is valid; otherwise "Timing unknown".
pub open spec fn shown_effective(timing: TimingValues) -> Option<Hns> {
    if timing.valid && !timing.invalid_interval {
        timing.effective
    } else {
        None
    }
}

/// The timing part of the hover text.
pub open spec fn timing_suffix_text(timing: TimingValues) -> Seq<char> {
    match shown_effective(timing) {
        Some(value) => milliseconds_text(value.value) + " ms"@,
        None => "Timing unknown"@,
    }
}

/// The timing line of the status menu.
pub open spec fn timing_label_text(timing: TimingValues) -> Seq<char> {
    match shown_effective(timing) {
        Some(value) => detailed_text(value.value),
        None => "Timing unknown"@,
    }
}

fn effective_timing_suffix(timing: TimingValues) -> (s: String)
    ensures
        s@ == timing_suffix_text(timing),
{
    if timing.valid && !timing.invalid_interval {
        match timing.effective {
            Some(value) => {
                let mut s = value.format_milliseconds();
                s.append(" ms");
                s
            },
            None => String::from_str("Timing unknown"),
        }
    } else {
        String::from_str("Timing unknown")
    }
}

fn effective_timing_label(timing: TimingValues) -> (s: String)
    ensures
        s@ == timing_label_text(timing),
{
    if timing.valid && !timing.invalid_interval {
        match timing.effective {
            Some(value) => value.format_detailed(),
            None => String::from_str("Timing unknown"),
        }
    } else {
        String::from_str("Timing unknown")
    }
}

/// A whole number of seconds as hours and minutes, minutes and seconds, or seconds alone.
pub open spec fn duration_text(seconds: u64) -> Seq<char> {
    let hours = seconds / 3_600;
    let minutes = (seconds % 3_600) / 60;
    let secs = seconds % 60;
    if hours > 0 {
        decimal(hours as nat) + "h "@ + decimal(minutes as nat) + "m"@
    } else if minutes > 0 {
        decimal(minutes as nat) + "m "@ + decimal(secs as nat) + "s"@
    } else {
        decimal(secs as nat) + "s"@
    }
}

/// Whole seconds of a nanosecond span, rounded up: a positive fraction counts as a second.
pub open spec fn display_seconds(nanos: u64) -> u64 {
    (nanos / 1_000_000_000 + if nanos % 1_000_000_000 != 0 {
        1int
    } else {
        0int
    }) as u64
}

/// Formats a whole number of seconds.
pub fn format_duration_seconds(seconds: u64) -> (s: String)
    ensures
        s@ == duration_text(seconds),
{
    let hours = seconds / 3_600;
    let minutes = (seconds % 3_600) / 60;
    let secs = seconds % 60;
    let mut s = String::new();
    if hours > 0 {
        push_decimal(&mut s, hours);
        s.append("h ");
        push_decimal(&mut s, minutes);
        s.append("m");
    } else if minutes > 0 {
        push_decimal(&mut s, minutes);
        s.append("m ");
        push_decimal(&mut s, secs);
        s.append("s");
    } else {
        push_decimal(&mut s, secs);
        s.append("s");
    }
    assert(s@ =~= duration_text(seconds));
    s
}

/// Formats an elapsed span of nanoseconds by its whole seconds.
pub fn format_duration(nanos: u64) -> (s: String)
    ensures
        s@ == duration_text(nanos / 1_000_000_000),
{
    format_duration_seconds(nanos / 1_000_000_000)
}

/// The seconds shown for a remaining span: a positive fraction rounds up.
pub fn remaining_display_seconds(nanos: u64) -> (r: u64)
    ensures
        r == display_seconds(nanos),
{
    let whole = nanos / 1_000_000_000;
    if nanos % 1_000_000_000 != 0 {
        whole + 1
    } else {
        whole
    }
}

/// Formats a remaining span with its seconds rounded up.
pub fn format_remaining_duration(nanos: u64) -> (s: String)
    ensures
        s@ == duration_text(display_seconds(nanos)),
{
    format_duration_seconds(remaining_display_seconds(nanos))
}

/// The key under which a scheduled action is published: its action, its generation and the
/// shown remaining seconds. A new value of the key means the display must refresh.
pub fn scheduled_display_key(action: ScheduledAction, now: u64) -> (k: (DurationAction, u64, u64))
    ensures
        k == (action.action, action.generation, display_seconds(
            remaining_spec(action.deadline, now),
        )),
{
    (action.action, action.generation, remaining_display_seconds(action.remaining(now)))
}

/// The live schedule phrase for a scheduled start, a scheduled stop or a timed pause.
pub open spec fn schedule_phrase(
    status: TrayStatus,
    scheduled: Option<ScheduledAction>,
    now: u64,
) -> Option<Seq<char>> {
    match scheduled {
        Some(action) => {
            let left = duration_text(display_seconds(remaining_spec(action.deadline, now)));
            if status == TrayStatus::ScheduledStart {
                Some("Starting in "@ + left)
            } else if status == TrayStatus::ScheduledStop {
                Some("Stopping in "@ + left)
            } else if status == TrayStatus::Paused && action.action == DurationAction::Pause {
                Some("Paused for "@ + left)
            } else {
                None
            }
        },
        None => None,
    }
}

fn schedule_phrase_text(status: TrayStatus, scheduled: Option<ScheduledAction>, now: u64) -> (p:
    Option<String>)
    ensures
        match p {
            Some(s) => schedule_phrase(status, scheduled, now) == Some(s@),
            None => schedule_phrase(status, scheduled, now) == None::<Seq<char>>,
        },
{
    match scheduled {
        Some(action) => {
            let prefix = if status == TrayStatus::ScheduledStart {
                "Starting in "
            } else if status == TrayStatus::ScheduledStop {
                "Stopping in "
            } else if status == TrayStatus::Paused && action.action == DurationAction::Pause {
                "Paused for "
            } else {
                return None;
            };
            let left = format_remaining_duration(action.remaining(now));
            let mut s = String::from_str(prefix);
            s.append(left.as_str());
            Some(s)
        },
        None => None,
    }
}

/// The hover text: the branded state and timing, or a short branded word for error, warning
/// and unverified states.
pub open spec fn tooltip_text(
    status: TrayStatus,
    timing: TimingValues,
    scheduled: Option<ScheduledAction>,
    now: u64,
) -> Seq<char> {
    let head = "True™ Tick: "@;
    let tail = " · "@ + timing_suffix_text(timing);
    match schedule_phrase(status, scheduled, now) {
        Some(phrase) => head + phrase + tail,
        None => match status {
            TrayStatus::Running => head + "Running"@ + tail,
            TrayStatus::Starting | TrayStatus::ScheduledStart => head + "Starting"@ + tail,
            TrayStatus::Stopping => if timing.handoff_pending {
                head + "Stopping, handoff"@ + tail
            } else {
                head + "Stopping"@ + tail
            },
            TrayStatus::Pausing | TrayStatus::ScheduledStop => head + "Stopping"@ + tail,
            TrayStatus::Paused => head + "Paused"@ + tail,
            TrayStatus::Stopped => head + "Stopped"@ + tail,
            TrayStatus::Error => "True™ Tick: Error"@,
            TrayStatus::Pending
            | TrayStatus::Degraded
            | TrayStatus::Blocked
            | TrayStatus::Unsupported => "True™ Tick: Warning"@,
            TrayStatus::Unverified => "True™ Tick: Timing unknown"@,
        },
    }
}

fn state_summary(
    status: TrayStatus,
    timing: TimingValues,
    scheduled: Option<ScheduledAction>,
    now: u64,
) -> (s: String)
    ensures
        s@ == tooltip_text(status, timing, scheduled, now),
{
    let timing_suffix = effective_timing_suffix(timing);
    let state = match schedule_phrase_text(status, scheduled, now) {
        Some(summary) => summary,
        None => match status {
            TrayStatus::Running => String::from_str("Running"),
            TrayStatus::Starting => String::from_str("Starting"),
            TrayStatus::ScheduledStart => String::from_str("Starting"),
            TrayStatus::Pausing => String::from_str("Stopping"),
            TrayStatus::Stopping => if timing.handoff_pending {
                String::from_str("Stopping, handoff")
            } else {
                String::from_str("Stopping")
            },
            TrayStatus::ScheduledStop => String::from_str("Stopping"),
            TrayStatus::Paused => String::from_str("Paused"),
            TrayStatus::Stopped => String::from_str("Stopped"),
            TrayStatus::Error => {
                return String::from_str("True™ Tick: Error");
            },
            TrayStatus::Pending
            | TrayStatus::Degraded
            | TrayStatus::Blocked
            | TrayStatus::Unsupported => {
                return String::from_str("True™ Tick: Warning");
            },
            TrayStatus::Unverified => {
                return String::from_str("True™ Tick: Timing unknown");
            },
        },
    };
    let mut s = String::from_str("True™ Tick: ");
    s.append(state.as_str());
    s.append(" · ");
    s.append(timing_suffix.as_str());
    assert(s@ =~= tooltip_text(status, timing, scheduled, now));
    s
}

/// The hover text of the tray icon at the monotonic instant `now` (in nanoseconds).
pub fn tooltip_at(
    status: TrayStatus,
    timing: TimingValues,
    scheduled: Option<ScheduledAction>,
    now: u64,
) -> (s: String)
    ensures
        s@ == tooltip_text(status, timing, scheduled, now),
{
    state_summary(status, timing, scheduled, now)
}

/// The hover text of the tray icon when nothing is scheduled.
pub fn tooltip(status: TrayStatus, timing: TimingValues) -> (s: String)
    ensures
        s@ == tooltip_text(status, timing, None, 0),
{
    tooltip_at(status, timing, None, 0)
}

pub const START_COMMAND_ID: usize = 1001;
pub const STOP_COMMAND_ID: usize = 1002;
pub const QUIT_COMMAND_ID: usize = 1004;
pub const STARTUP_ON_COMMAND_ID: usize = 1005;
pub const STARTUP_OFF_COMMAND_ID: usize = 1006;
pub const AUTOMATIC_ON_COMMAND_ID: usize = 1007;
pub const AUTOMATIC_OFF_COMMAND_ID: usize = 1008;
pub const LOGS_COMMAND_ID: usize = 1009;
pub const GITHUB_COMMAND_ID: usize = 1010;
pub const STATUS_STATE_COMMAND_ID: usize = 1030;
pub const STATUS_TIMING_COMMAND_ID: usize = 1031;
pub const STATUS_RUNNING_FOR_COMMAND_ID: usize = 1032;
pub const STATUS_NEXT_ACTION_COMMAND_ID: usize = 1033;
pub const STATUS_OWNERSHIP_COMMAND_ID: usize = 1034;
pub const START_IN_1_COMMAND_ID: usize = 1011;
pub const START_IN_5_COMMAND_ID: usize = 1012;
pub const START_IN_15_COMMAND_ID: usize = 1013;
pub const START_IN_30_COMMAND_ID: usize = 1014;
pub const START_IN_60_COMMAND_ID: usize = 1015;
pub const STOP_IN_1_COMMAND_ID: usize = 1016;
pub const STOP_IN_5_COMMAND_ID: usize = 1017;
pub const STOP_IN_15_COMMAND_ID: usize = 1018;
pub const STOP_IN_30_COMMAND_ID: usize = 1019;
pub const STOP_IN_60_COMMAND_ID: usize = 1020;
pub const PAUSE_FOR_5_COMMAND_ID: usize = 1021;
pub const PAUSE_FOR_15_COMMAND_ID: usize = 1022;
pub const PAUSE_FOR_30_COMMAND_ID: usize = 1023;
pub const PAUSE_FOR_60_COMMAND_ID: usize = 1024;
pub const CANCEL_SCHEDULED_COMMAND_ID: usize = 1025;
pub const CANCEL_PAUSE_COMMAND_ID: usize = 1026;
pub const DURATION_MENU_COMMAND_ID: usize = 1101;
pub const START_IN_MENU_COMMAND_ID: usize = 1102;
pub const STOP_IN_MENU_COMMAND_ID: usize = 1103;
pub const PAUSE_FOR_MENU_COMMAND_ID: usize = 1104;
pub const STATUS_MENU_COMMAND_ID: usize = 1105;
pub const GITHUB_URL: &'static str = "https://github.com/kaiiuen/true-tick";

/// Whether a command id is one of the schedule commands (start in, stop in, pause for).
pub open spec fn is_schedule_command(command_id: usize) -> bool {
    START_IN_1_COMMAND_ID <= command_id <= PAUSE_FOR_60_COMMAND_ID
}

/// The action and duration of a schedule command.
pub open spec fn duration_command_spec(command_id: usize) -> Option<(DurationAction, DurationChoice)> {
    if command_id == START_IN_1_COMMAND_ID {
        Some((DurationAction::Start, DurationChoice::OneMinute))
    } else if command_id == START_IN_5_COMMAND_ID {
        Some((DurationAction::Start, DurationChoice::FiveMinutes))
    } else if command_id == START_IN_15_COMMAND_ID {
        Some((DurationAction::Start, DurationChoice::FifteenMinutes))
    } else if command_id == START_IN_30_COMMAND_ID {
        Some((DurationAction::Start, DurationChoice::ThirtyMinutes))
    } else if command_id == START_IN_60_COMMAND_ID {
        Some((DurationAction::Start, DurationChoice::OneHour))
    } else if command_id == STOP_IN_1_COMMAND_ID {
        Some((DurationAction::Stop, DurationChoice::OneMinute))
    } else if command_id == STOP_IN_5_COMMAND_ID {
        Some((DurationAction::Stop, DurationChoice::FiveMinutes))
    } else if command_id == STOP_IN_15_COMMAND_ID {
        Some((DurationAction::Stop, DurationChoice::FifteenMinutes))
    } else if command_id == STOP_IN_30_COMMAND_ID {
        Some((DurationAction::Stop, DurationChoice::ThirtyMinutes))
    } else if command_id == STOP_IN_60_COMMAND_ID {
        Some((DurationAction::Stop, DurationChoice::OneHour))
    } else if command_id == PAUSE_FOR_5_COMMAND_ID {
        Some((DurationAction::Pause, DurationChoice::FiveMinutes))
    } else if command_id == PAUSE_FOR_15_COMMAND_ID {
        Some((DurationAction::Pause, DurationChoice::FifteenMinutes))
    } else if command_id == PAUSE_FOR_30_COMMAND_ID {
        Some((DurationAction::Pause, DurationChoice::ThirtyMinutes))
    } else if command_id == PAUSE_FOR_60_COMMAND_ID {
        Some((DurationAction::Pause, DurationChoice::OneHour))
    } else {
        None
    }
}

/// The action and duration a schedule command asks for.
pub fn duration_command(command_id: usize) -> (r: Option<(DurationAction, DurationChoice)>)
    ensures
        r == duration_command_spec(command_id),
{
    match command_id {
        START_IN_1_COMMAND_ID => Some((DurationAction::Start, DurationChoice::OneMinute)),
        START_IN_5_COMMAND_ID => Some((DurationAction::Start, DurationChoice::FiveMinutes)),
        START_IN_15_COMMAND_ID => Some((DurationAction::Start, DurationChoice::FifteenMinutes)),
        START_IN_30_COMMAND_ID => Some((DurationAction::Start, DurationChoice::ThirtyMinutes)),
        START_IN_60_COMMAND_ID => Some((DurationAction::Start, DurationChoice::OneHour)),
        STOP_IN_1_COMMAND_ID => Some((DurationAction::Stop, DurationChoice::OneMinute)),
        STOP_IN_5_COMMAND_ID => Some((DurationAction::Stop, DurationChoice::FiveMinutes)),
        STOP_IN_15_COMMAND_ID => Some((DurationAction::Stop, DurationChoice::FifteenMinutes)),
        STOP_IN_30_COMMAND_ID => Some((DurationAction::Stop, DurationChoice::ThirtyMinutes)),
        STOP_IN_60_COMMAND_ID => Some((DurationAction::Stop, DurationChoice::OneHour)),
        PAUSE_FOR_5_COMMAND_ID => Some((DurationAction::Pause, DurationChoice::FiveMinutes)),
        PAUSE_FOR_15_COMMAND_ID => Some((DurationAction::Pause, DurationChoice::FifteenMinutes)),
        PAUSE_FOR_30_COMMAND_ID => Some((DurationAction::Pause, DurationChoice::ThirtyMinutes)),
        PAUSE_FOR_60_COMMAND_ID => Some((DurationAction::Pause, DurationChoice::OneHour)),
        _ => None,
    }
}

/// The durations offered for an action: every duration for start and stop, all but one minute
/// for pause.
pub open spec fn choices_for(action: DurationAction) -> Seq<DurationChoice> {
    match action {
        DurationAction::Pause => pause_choice_seq(),
        _ => all_choices(),
    }
}

/// The enabled, command-less menu items that label the durations offered for an action.
pub fn duration_choices(action: DurationAction) -> (items: Vec<MenuItem>)
    ensures
        items@.len() == choices_for(action).len(),
        forall|i: int|
            0 <= i < items@.len() ==> item_is(
                #[trigger] items@[i],
                choice_label(choices_for(action)[i]),
                true,
                None,
            ),
{
    let choices = match action {
        DurationAction::Start | DurationAction::Stop => DurationChoice::all(),
        DurationAction::Pause => DurationChoice::pause_choices(),
    };
    let mut items: Vec<MenuItem> = Vec::new();
    let mut i: usize = 0;
    while i < choices.len()
        invariant
            choices@ == choices_for(action),
            0 <= i <= choices@.len(),
            items@.len() == i,
            forall|j: int|
                0 <= j < i ==> item_is(#[trigger] items@[j], choice_label(choices@[j]), true, None),
        decreases choices@.len() - i,
    {
        let label = choices[i].label();
        items.push(MenuItem { label: String::from_str(label), enabled: true, command_id: None });
        i = i + 1;
    }
    items
}

/// The schedule submenu: three duration submenus, then cancel (enabled for a scheduled start or
/// stop) and resume (enabled for a pause).
pub fn duration_menu_items(scheduled: Option<ScheduledAction>) -> (items: Vec<MenuItem>)
    ensures
        items@.len() == 5,
        item_is(items@[0], "Start in >"@, true, None),
        item_is(items@[1], "Stop in >"@, true, None),
        item_is(items@[2], "Pause for >"@, true, None),
        item_is(
            items@[3],
            "Cancel scheduled action"@,
            scheduled is Some && scheduled->0.action != DurationAction::Pause,
            Some(CANCEL_SCHEDULED_COMMAND_ID),
        ),
        item_is(
            items@[4],
            "Resume now"@,
            scheduled is Some && scheduled->0.action == DurationAction::Pause,
            Some(CANCEL_PAUSE_COMMAND_ID),
        ),
{
    let (cancel_enabled, resume_enabled) = match scheduled {
        Some(action) => (
            action.action != DurationAction::Pause,
            action.action == DurationAction::Pause,
        ),
        None => (false, false),
    };
    vec![
        MenuItem { label: String::from_str("Start in >"), enabled: true, command_id: None },
        MenuItem { label: String::from_str("Stop in >"), enabled: true, command_id: None },
        MenuItem { label: String::from_str("Pause for >"), enabled: true, command_id: None },
        MenuItem {
            label: String::from_str("Cancel scheduled action"),
            enabled: cancel_enabled,
            command_id: Some(CANCEL_SCHEDULED_COMMAND_ID),
        },
        MenuItem {
            label: String::from_str("Resume now"),
            enabled: resume_enabled,
            command_id: Some(CANCEL_PAUSE_COMMAND_ID),
        },
    ]
}

/// The hover description of each menu command.
pub open spec fn menu_description_spec(command_id: usize) -> Option<Seq<char>> {
    if command_id == START_COMMAND_ID {
        Some("Request the best supported timing"@)
    } else if command_id == STOP_COMMAND_ID {
        Some("Release True™ Tick timing"@)
    } else if command_id == STARTUP_ON_COMMAND_ID || command_id == STARTUP_OFF_COMMAND_ID {
        Some("Launch True™ Tick when you sign in"@)
    } else if command_id == AUTOMATIC_ON_COMMAND_ID || command_id == AUTOMATIC_OFF_COMMAND_ID {
        Some("Request timing automatically on AC power"@)
    } else if command_id == LOGS_COMMAND_ID {
        Some("Open status and session logs"@)
    } else if command_id == GITHUB_COMMAND_ID {
        Some("Open True™ Tick on GitHub"@)
    } else if command_id == DURATION_MENU_COMMAND_ID {
        Some("Schedule a bounded timing action"@)
    } else if command_id == START_IN_MENU_COMMAND_ID {
        Some("Schedule a future guarded acquire"@)
    } else if command_id == STOP_IN_MENU_COMMAND_ID {
        Some("Schedule a future guarded release"@)
    } else if command_id == PAUSE_FOR_MENU_COMMAND_ID {
        Some("Suppress acquisition for a fixed duration"@)
    } else if command_id == CANCEL_SCHEDULED_COMMAND_ID {
        Some("Clear the current scheduled action"@)
    } else if command_id == CANCEL_PAUSE_COMMAND_ID {
        Some("Resume timing and cancel the pause"@)
    } else if command_id == STATUS_MENU_COMMAND_ID {
        Some("View read-only lifecycle details"@)
    } else if command_id == STATUS_STATE_COMMAND_ID {
        Some("Current True Tick lifecycle state"@)
    } else if command_id == STATUS_TIMING_COMMAND_ID {
        Some("Latest verified effective timing observation"@)
    } else if command_id == STATUS_RUNNING_FOR_COMMAND_ID {
        Some("Elapsed time since verified running"@)
    } else if command_id == STATUS_NEXT_ACTION_COMMAND_ID {
        Some("Scheduled action and remaining time"@)
    } else if command_id == STATUS_OWNERSHIP_COMMAND_ID {
        Some("True Tick ownership versus external timing"@)
    } else if command_id == START_IN_1_COMMAND_ID {
        Some("Start in 1 minute"@)
    } else if command_id == START_IN_5_COMMAND_ID {
        Some("Start in 5 minutes"@)
    } else if command_id == START_IN_15_COMMAND_ID {
        Some("Start in 15 minutes"@)
    } else if command_id == START_IN_30_COMMAND_ID {
        Some("Start in 30 minutes"@)
    } else if command_id == START_IN_60_COMMAND_ID {
        Some("Start in 1 hour"@)
    } else if command_id == STOP_IN_1_COMMAND_ID {
        Some("Stop in 1 minute"@)
    } else if command_id == STOP_IN_5_COMMAND_ID {
        Some("Stop in 5 minutes"@)
    } else if command_id == STOP_IN_15_COMMAND_ID {
        Some("Stop in 15 minutes"@)
    } else if command_id == STOP_IN_30_COMMAND_ID {
        Some("Stop in 30 minutes"@)
    } else if command_id == STOP_IN_60_COMMAND_ID {
        Some("Stop in 1 hour"@)
    } else if command_id == PAUSE_FOR_5_COMMAND_ID {
        Some("Pause for 5 minutes"@)
    } else if command_id == PAUSE_FOR_15_COMMAND_ID {
        Some("Pause for 15 minutes"@)
    } else if command_id == PAUSE_FOR_30_COMMAND_ID {
        Some("Pause for 30 minutes"@)
    } else if command_id == PAUSE_FOR_60_COMMAND_ID {
        Some("Pause for 1 hour"@)
    } else if command_id == QUIT_COMMAND_ID {
        Some("Stop safely and quit"@)
    } else {
        None
    }
}

/// The short hover description of a menu command, if it has one.
pub fn menu_description(command_id: usize) -> (d: Option<&'static str>)
    ensures
        match d {
            Some(s) => menu_description_spec(command_id) == Some(s@),
            None => menu_description_spec(command_id) == None::<Seq<char>>,
        },
{
    match command_id {
        START_COMMAND_ID => Some("Request the best supported timing"),
        STOP_COMMAND_ID => Some("Release True™ Tick timing"),
        STARTUP_ON_COMMAND_ID | STARTUP_OFF_COMMAND_ID => Some("Launch True™ Tick when you sign in"),
        AUTOMATIC_ON_COMMAND_ID | AUTOMATIC_OFF_COMMAND_ID => Some(
            "Request timing automatically on AC power",
        ),
        LOGS_COMMAND_ID => Some("Open status and session logs"),
        GITHUB_COMMAND_ID => Some("Open True™ Tick on GitHub"),
        DURATION_MENU_COMMAND_ID => Some("Schedule a bounded timing action"),
        START_IN_MENU_COMMAND_ID => Some("Schedule a future guarded acquire"),
        STOP_IN_MENU_COMMAND_ID => Some("Schedule a future guarded release"),
        PAUSE_FOR_MENU_COMMAND_ID => Some("Suppress acquisition for a fixed duration"),
        CANCEL_SCHEDULED_COMMAND_ID => Some("Clear the current scheduled action"),
        CANCEL_PAUSE_COMMAND_ID => Some("Resume timing and cancel the pause"),
        STATUS_MENU_COMMAND_ID => Some("View read-only lifecycle details"),
        STATUS_STATE_COMMAND_ID => Some("Current True Tick lifecycle state"),
        STATUS_TIMING_COMMAND_ID => Some("Latest verified effective timing observation"),
        STATUS_RUNNING_FOR_COMMAND_ID => Some("Elapsed time since verified running"),
        STATUS_NEXT_ACTION_COMMAND_ID => Some("Scheduled action and remaining time"),
        STATUS_OWNERSHIP_COMMAND_ID => Some("True Tick ownership versus external timing"),
        START_IN_1_COMMAND_ID => Some("Start in 1 minute"),
        START_IN_5_COMMAND_ID => Some("Start in 5 minutes"),
        START_IN_15_COMMAND_ID => Some("Start in 15 minutes"),
        START_IN_30_COMMAND_ID => Some("Start in 30 minutes"),
        START_IN_60_COMMAND_ID => Some("Start in 1 hour"),
        STOP_IN_1_COMMAND_ID => Some("Stop in 1 minute"),
        STOP_IN_5_COMMAND_ID => Some("Stop in 5 minutes"),
        STOP_IN_15_COMMAND_ID => Some("Stop in 15 minutes"),
        STOP_IN_30_COMMAND_ID => Some("Stop in 30 minutes"),
        STOP_IN_60_COMMAND_ID => Some("Stop in 1 hour"),
        PAUSE_FOR_5_COMMAND_ID => Some("Pause for 5 minutes"),
        PAUSE_FOR_15_COMMAND_ID => Some("Pause for 15 minutes"),
        PAUSE_FOR_30_COMMAND_ID => Some("Pause for 30 minutes"),
        PAUSE_FOR_60_COMMAND_ID => Some("Pause for 1 hour"),
        QUIT_COMMAND_ID => Some("Stop safely and quit"),
        _ => None,
    }
}

/// The icon canvas in pixels for a DPI: 16 up to 107 DPI, 20 up to 132, 24 up to 168, 32 up to
/// 288 and 64 above; a DPI of zero counts as 96.
pub open spec fn icon_canvas_spec(dpi: u32) -> i32 {
    let dpi = if dpi == 0 {
        96
    } else {
        dpi
    };
    if dpi <= 107 {
        16
    } else if dpi <= 132 {
        20
    } else if dpi <= 168 {
        24
    } else if dpi <= 288 {
        32
    } else {
        64
    }
}

/// The tray icon canvas size for a DPI.
pub fn dpi_to_icon_canvas(dpi: u32) -> (c: i32)
    ensures
        c == icon_canvas_spec(dpi),
{
    let dpi = if dpi == 0 {
        96
    } else {
        dpi
    };
    if dpi <= 107 {
        16
    } else if dpi <= 132 {
        20
    } else if dpi <= 168 {
        24
    } else if dpi <= 288 {
        32
    } else {
        64
    }
}

/// The pixel value of each icon color.
pub open spec fn color_pixel(color: IconColor) -> u32 {
    match color {
        IconColor::Green => 0x0000b000,
        IconColor::Yellow => 0x00d0d000,
        IconColor::Red => 0x00d00000,
    }
}

/// The pixel value the icon of a status is filled with.
pub fn icon_pixel_color(status: TrayStatus) -> (p: u32)
    ensures
        p == color_pixel(status_color(status)),
{
    match status.icon_color() {
        IconColor::Green => 0x0000b000,
        IconColor::Yellow => 0x00d0d000,
        IconColor::Red => 0x00d00000,
    }
}

/// What a tray notification asks for.
#[derive(Clone, Copy, Debug, PartialEq, Eq, Structural)]
pub enum TrayClickAction {
    OpenMenu,
}

/// Left-button and right-button releases open the menu.
pub open spec fn opens_menu(notification: usize) -> bool {
    notification == 0x0202 || notification == 0x0205
}

/// The action of a tray notification: a left or right button release opens the menu.
pub fn tray_click_action(notification: usize) -> (a: Option<TrayClickAction>)
    ensures
        a == (if opens_menu(notification) {
            Some(TrayClickAction::OpenMenu)
        } else {
            None::<TrayClickAction>
        }),
{
    if notification == 0x0202 || notification == 0x0205 {
        Some(TrayClickAction::OpenMenu)
    } else {
        None
    }
}

/// Start, stop, the two setting toggles, every schedule command and both cancellations keep the
/// popup menu open.
pub open spec fn keeps_menu_open(command_id: usize) -> bool {
    command_id == START_COMMAND_ID || command_id == STOP_COMMAND_ID || (STARTUP_ON_COMMAND_ID
        <= command_id <= AUTOMATIC_OFF_COMMAND_ID) || is_schedule_command(command_id)
        || command_id == CANCEL_SCHEDULED_COMMAND_ID || command_id == CANCEL_PAUSE_COMMAND_ID
}

/// Whether a command leaves the popup menu open after it runs.
pub fn menu_action_keeps_open(command_id: usize) -> (b: bool)
    ensures
        b == keeps_menu_open(command_id),
{
    command_id == START_COMMAND_ID || command_id == STOP_COMMAND_ID || (STARTUP_ON_COMMAND_ID
        <= command_id && command_id <= AUTOMATIC_OFF_COMMAND_ID) || (START_IN_1_COMMAND_ID
        <= command_id && command_id <= PAUSE_FOR_60_COMMAND_ID) || command_id
        == CANCEL_SCHEDULED_COMMAND_ID || command_id == CANCEL_PAUSE_COMMAND_ID
}

/// A notification opens the menu only when it is a click and no menu is active.
pub fn tray_notification_opens_menu(notification: usize, menu_active: bool) -> (b: bool)
    ensures
        b == (!menu_active && opens_menu(notification)),
{
    !menu_active && match tray_click_action(notification) {
        Some(TrayClickAction::OpenMenu) => true,
        None => false,
    }
}

/// While a menu is active only the command the popup returned is dispatched.
pub fn menu_command_dispatch_allowed(menu_active: bool, from_popup_return: bool) -> (b: bool)
    ensures
        b == (from_popup_return || !menu_active),
{
    from_popup_return || !menu_active
}

/// Why the tray refused a menu command.
#[derive(Clone, Copy, Debug, PartialEq, Eq, Structural)]
pub enum CommandRejection {
    /// Start was chosen while a pause runs.
    StartDisabledWhilePaused,
    /// The command is disabled in the current state, or no command has that id.
    DisabledOrUnknown,
}

impl CommandRejection {
    /// The reason as the diagnostics record it.
    pub fn label(self) -> (s: &'static str)
        ensures
            s@ == match self {
                CommandRejection::StartDisabledWhilePaused => "start_disabled_while_paused"@,
                CommandRejection::DisabledOrUnknown => "disabled_or_unknown"@,
            },
    {
        match self {
            CommandRejection::StartDisabledWhilePaused => "start_disabled_while_paused",
            CommandRejection::DisabledOrUnknown => "disabled_or_unknown",
        }
    }
}

/// The reason a refused command is recorded with: Start during a pause is refused because of
/// the pause; anything else because it is disabled or unknown.
pub fn command_rejection_reason(command_id: usize, pause_active: bool) -> (r: CommandRejection)
    ensures
        r == (if command_id == START_COMMAND_ID && pause_active {
            CommandRejection::StartDisabledWhilePaused
        } else {
            CommandRejection::DisabledOrUnknown
        }),
{
    if command_id == START_COMMAND_ID && pause_active {
        CommandRejection::StartDisabledWhilePaused
    } else {
        CommandRejection::DisabledOrUnknown
    }
}

/// The ids the tray dispatches: Start, Stop and Quit, the startup and automatic toggles, Logs
/// and GitHub (whose ids the auto-resume toggles share), and every schedule, pause and cancel
/// command.
pub open spec fn known_command(command_id: usize) -> bool {
    command_id == START_COMMAND_ID || command_id == STOP_COMMAND_ID || command_id
        == QUIT_COMMAND_ID || (STARTUP_ON_COMMAND_ID <= command_id && command_id
        <= GITHUB_COMMAND_ID) || (START_IN_1_COMMAND_ID <= command_id && command_id
        <= CANCEL_PAUSE_COMMAND_ID)
}

/// Whether a dispatched command is valid: a known id, or one of the schedule presets (which
/// the caller recognises).
pub fn menu_command_is_valid(command_id: usize, is_preset: bool) -> (b: bool)
    ensures
        b == (known_command(command_id) || is_preset),
{
    command_id == START_COMMAND_ID || command_id == STOP_COMMAND_ID || command_id
        == QUIT_COMMAND_ID || (STARTUP_ON_COMMAND_ID <= command_id && command_id
        <= GITHUB_COMMAND_ID) || (START_IN_1_COMMAND_ID <= command_id && command_id
        <= CANCEL_PAUSE_COMMAND_ID) || is_preset
}

/// Which commands the current state accepts.
pub open spec fn command_enabled_spec(
    command_id: usize,
    status: TrayStatus,
    startup_enabled: bool,
    automatic: bool,
    schedule_active: bool,
) -> bool {
    if command_id == START_COMMAND_ID {
        !(status == TrayStatus::Running || status == TrayStatus::Starting || status
            == TrayStatus::Stopping || status == TrayStatus::Paused)
    } else if command_id == STOP_COMMAND_ID {
        !(status == TrayStatus::Stopped || status == TrayStatus::Pausing || status
            == TrayStatus::Stopping || status == TrayStatus::Paused)
    } else if command_id == STARTUP_ON_COMMAND_ID {
        !startup_enabled
    } else if command_id == STARTUP_OFF_COMMAND_ID {
        startup_enabled
    } else if command_id == AUTOMATIC_ON_COMMAND_ID {
        !automatic
    } else if command_id == AUTOMATIC_OFF_COMMAND_ID {
        automatic
    } else if command_id == LOGS_COMMAND_ID || command_id == GITHUB_COMMAND_ID || command_id
        == QUIT_COMMAND_ID {
        true
    } else if is_schedule_command(command_id) {
        true
    } else if command_id == CANCEL_SCHEDULED_COMMAND_ID || command_id == CANCEL_PAUSE_COMMAND_ID {
        schedule_active
    } else {
        false
    }
}

/// Whether a command may run in the current state, with nothing scheduled.
pub fn menu_command_is_enabled(
    command_id: usize,
    status: TrayStatus,
    startup_enabled: bool,
    automatic: bool,
) -> (b: bool)
    ensures
        b == command_enabled_spec(command_id, status, startup_enabled, automatic, false),
{
    menu_command_is_enabled_with_pause(command_id, status, startup_enabled, automatic, false)
}

/// Whether a command may run in the current state; cancellation needs an active schedule.
pub fn menu_command_is_enabled_with_pause(
    command_id: usize,
    status: TrayStatus,
    startup_enabled: bool,
    automatic: bool,
    schedule_active: bool,
) -> (b: bool)
    ensures
        b == command_enabled_spec(command_id, status, startup_enabled, automatic, schedule_active),
{
    match command_id {
        START_COMMAND_ID => !matches!(
            status,
            TrayStatus::Running | TrayStatus::Starting | TrayStatus::Stopping | TrayStatus::Paused
        ),
        STOP_COMMAND_ID => !matches!(
            status,
            TrayStatus::Stopped | TrayStatus::Pausing | TrayStatus::Stopping | TrayStatus::Paused
        ),
        STARTUP_ON_COMMAND_ID => !startup_enabled,
        STARTUP_OFF_COMMAND_ID => startup_enabled,
        AUTOMATIC_ON_COMMAND_ID => !automatic,
        AUTOMATIC_OFF_COMMAND_ID => automatic,
        LOGS_COMMAND_ID | GITHUB_COMMAND_ID | QUIT_COMMAND_ID => true,
        START_IN_1_COMMAND_ID
        | START_IN_5_COMMAND_ID
        | START_IN_15_COMMAND_ID
        | START_IN_30_COMMAND_ID
        | START_IN_60_COMMAND_ID
        | STOP_IN_1_COMMAND_ID
        | STOP_IN_5_COMMAND_ID
        | STOP_IN_15_COMMAND_ID
        | STOP_IN_30_COMMAND_ID
        | STOP_IN_60_COMMAND_ID
        | PAUSE_FOR_5_COMMAND_ID
        | PAUSE_FOR_15_COMMAND_ID
        | PAUSE_FOR_30_COMMAND_ID
        | PAUSE_FOR_60_COMMAND_ID => true,
        CANCEL_SCHEDULED_COMMAND_ID | CANCEL_PAUSE_COMMAND_ID => schedule_active,
        _ => false,
    }
}

/// The short state word of the status menu.
pub open spec fn state_label_text(status: TrayStatus, timing: TimingValues) -> Seq<char> {
    match status {
        TrayStatus::Running => "Running"@,
        TrayStatus::Stopped => "Stopped"@,
        TrayStatus::Starting | TrayStatus::ScheduledStart => "Starting"@,
        TrayStatus::Stopping | TrayStatus::Pausing | TrayStatus::ScheduledStop => {
            if timing.handoff_pending {
                "Stopping, handoff"@
            } else {
                "Stopping"@
            }
        },
        TrayStatus::Paused => "Paused"@,
        TrayStatus::Error => "Error"@,
        TrayStatus::Blocked
        | TrayStatus::Unsupported
        | TrayStatus::Pending
        | TrayStatus::Degraded => "Warning"@,
        TrayStatus::Unverified => "Timing unknown"@,
    }
}

fn state_label(status: TrayStatus, timing: TimingValues) -> (s: &'static str)
    ensures
        s@ == state_label_text(status, timing),
{
    match status {
        TrayStatus::Running => "Running",
        TrayStatus::Stopped => "Stopped",
        TrayStatus::Starting | TrayStatus::ScheduledStart => "Starting",
        TrayStatus::Stopping | TrayStatus::Pausing | TrayStatus::ScheduledStop => {
            if timing.handoff_pending {
                "Stopping, handoff"
            } else {
                "Stopping"
            }
        },
        TrayStatus::Paused => "Paused",
        TrayStatus::Blocked => "Warning",
        TrayStatus::Error => "Error",
        TrayStatus::Unsupported | TrayStatus::Pending | TrayStatus::Degraded => "Warning",
        TrayStatus::Unverified => "Timing unknown",
    }
}

/// The state line of the status menu: the live schedule phrase, or the short state word.
pub open spec fn state_menu_text(
    status: TrayStatus,
    timing: TimingValues,
    scheduled: Option<ScheduledAction>,
    now: u64,
) -> Seq<char> {
    match schedule_phrase(status, scheduled, now) {
        Some(phrase) => phrase,
        None => state_label_text(status, timing),
    }
}

fn state_menu_label(
    status: TrayStatus,
    timing: TimingValues,
    scheduled: Option<ScheduledAction>,
    now: u64,
) -> (s: String)
    ensures
        s@ == state_menu_text(status, timing, scheduled, now),
{
    match schedule_phrase_text(status, scheduled, now) {
        Some(phrase) => phrase,
        None => String::from_str(state_label(status, timing)),
    }
}

/// How long timing has been verified running, or "Not running".
pub open spec fn running_for_text(running_for: Option<u64>) -> Seq<char> {
    match running_for {
        Some(nanos) => duration_text(nanos / 1_000_000_000),
        None => "Not running"@,
    }
}

fn running_for_label(running_for: Option<u64>) -> (s: String)
    ensures
        s@ == running_for_text(running_for),
{
    match running_for {
        Some(nanos) => format_duration(nanos),
        None => String::from_str("Not running"),
    }
}

/// The next scheduled action and the time left, or "none".
pub open spec fn next_action_text(scheduled: Option<ScheduledAction>, now: u64) -> Seq<char> {
    match scheduled {
        Some(action) => action_label(action.action) + " in "@ + duration_text(
            display_seconds(remaining_spec(action.deadline, now)),
        ),
        None => "none"@,
    }
}

fn next_action_label(scheduled: Option<ScheduledAction>, now: u64) -> (s: String)
    ensures
        s@ == next_action_text(scheduled, now),
{
    match scheduled {
        Some(action) => {
            let mut s = String::from_str(action.action.label());
            s.append(" in ");
            let left = format_remaining_duration(action.remaining(now));
            s.append(left.as_str());
            s
        },
        None => String::from_str("none"),
    }
}

/// Who holds the timing: this application, nobody certain, an external client, or nobody.
pub open spec fn ownership_text(ownership: OwnershipState, timing: TimingValues) -> Seq<char> {
    match ownership {
        OwnershipState::Owned => "True™ Tick"@,
        OwnershipState::Uncertain => "Uncertain"@,
        OwnershipState::Released => if timing.external {
            "External timing"@
        } else {
            "Released"@
        },
    }
}

fn ownership_label(ownership: OwnershipState, timing: TimingValues) -> (s: &'static str)
    ensures
        s@ == ownership_text(ownership, timing),
{
    match ownership {
        OwnershipState::Owned => "True™ Tick",
        OwnershipState::Uncertain => "Uncertain",
        OwnershipState::Released => if timing.external {
            "External timing"
        } else {
            "Released"
        },
    }
}

fn prefixed(prefix: &str, text: String) -> (s: String)
    ensures
        s@ == prefix@ + text@,
{
    let mut s = String::from_str(prefix);
    s.append(text.as_str());
    s
}

/// The read-only status submenu: state, timing, running time, next action and ownership, each
/// disabled and carrying its own command id. `running_for` and `now` are nanoseconds.
pub fn status_menu_items(
    status: TrayStatus,
    timing: TimingValues,
    ownership: OwnershipState,
    scheduled: Option<ScheduledAction>,
    running_for: Option<u64>,
    now: u64,
) -> (items: Vec<MenuItem>)
    ensures
        items@.len() == 5,
        item_is(
            items@[0],
            "State: "@ + state_menu_text(status, timing, scheduled, now),
            false,
            Some(STATUS_STATE_COMMAND_ID),
        ),
        item_is(
            items@[1],
            "Timing: "@ + timing_label_text(timing),
            false,
            Some(STATUS_TIMING_COMMAND_ID),
        ),
        item_is(
            items@[2],
            "Running for: "@ + running_for_text(running_for),
            false,
            Some(STATUS_RUNNING_FOR_COMMAND_ID),
        ),
        item_is(
            items@[3],
            "Next action: "@ + next_action_text(scheduled, now),
            false,
            Some(STATUS_NEXT_ACTION_COMMAND_ID),
        ),
        item_is(
            items@[4],
            "Ownership: "@ + ownership_text(ownership, timing),
            false,
            Some(STATUS_OWNERSHIP_COMMAND_ID),
        ),
{
    let state = prefixed("State: ", state_menu_label(status, timing, scheduled, now));
    let timing_line = prefixed("Timing: ", effective_timing_label(timing));
    let running = prefixed("Running for: ", running_for_label(running_for));
    let next = prefixed("Next action: ", next_action_label(scheduled, now));
    let owner = prefixed("Ownership: ", String::from_str(ownership_label(ownership, timing)));
    vec![
        MenuItem { label: state, enabled: false, command_id: Some(STATUS_STATE_COMMAND_ID) },
        MenuItem { label: timing_line, enabled: false, command_id: Some(STATUS_TIMING_COMMAND_ID) },
        MenuItem {
            label: running,
            enabled: false,
            command_id: Some(STATUS_RUNNING_FOR_COMMAND_ID),
        },
        MenuItem { label: next, enabled: false, command_id: Some(STATUS_NEXT_ACTION_COMMAND_ID) },
        MenuItem { label: owner, enabled: false, command_id: Some(STATUS_OWNERSHIP_COMMAND_ID) },
    ]
}

/// The root menu when nothing is paused.
pub fn menu_items(
    status: TrayStatus,
    startup_enabled: bool,
    automatic: bool,
    timing: TimingValues,
) -> (items: Vec<MenuItem>)
    ensures
        root_menu_is(items@, status, startup_enabled, automatic, false),
{
    menu_items_with_duration(status, startup_enabled, automatic, timing, false)
}

/// The nine root entries: the version header, Start (off while paused, running or starting),
/// Stop (off while paused, stopped or stopping), the schedule submenu, the two settings, the
/// status submenu, Logs and Quit.
pub open spec fn root_menu_is(
    items: Seq<MenuItem>,
    status: TrayStatus,
    startup_enabled: bool,
    automatic: bool,
    paused: bool,
) -> bool {
    &&& items.len() == 9
    &&& item_is(items[0], "True™ Tick v"@ + PACKAGE_VERSION@, true, None)
    &&& item_is(
        items[1],
        "Start"@,
        !paused && !(status == TrayStatus::Running || status == TrayStatus::Starting),
        None,
    )
    &&& item_is(
        items[2],
        "Stop"@,
        !paused && !(status == TrayStatus::Stopped || status == TrayStatus::Pausing || status
            == TrayStatus::Stopping),
        None,
    )
    &&& item_is(items[3], "Schedule >"@, true, None)
    &&& item_is(items[4], auto_start_text(startup_enabled), true, None)
    &&& item_is(items[5], automatic_text(automatic), true, None)
    &&& item_is(items[6], "Status >"@, true, None)
    &&& item_is(items[7], "Logs"@, true, None)
    &&& item_is(items[8], "Quit"@, true, None)
}

/// The root popup menu.
pub fn menu_items_with_duration(
    status: TrayStatus,
    startup_enabled: bool,
    automatic: bool,
    timing: TimingValues,
    paused: bool,
) -> (items: Vec<MenuItem>)
    ensures
        root_menu_is(items@, status, startup_enabled, automatic, paused),
{
    let start_enabled = !paused && !matches!(status, TrayStatus::Running | TrayStatus::Starting);
    let stop_enabled = !paused && !matches!(
        status,
        TrayStatus::Stopped | TrayStatus::Pausing | TrayStatus::Stopping
    );
    vec![
        MenuItem { label: version_header(), enabled: true, command_id: None },
        MenuItem { label: String::from_str("Start"), enabled: start_enabled, command_id: None },
        MenuItem { label: String::from_str("Stop"), enabled: stop_enabled, command_id: None },
        MenuItem { label: String::from_str("Schedule >"), enabled: true, command_id: None },
        MenuItem {
            label: String::from_str(auto_start_label(startup_enabled)),
            enabled: true,
            command_id: None,
        },
        MenuItem {
            label: String::from_str(automatic_label(automatic)),
            enabled: true,
            command_id: None,
        },
        MenuItem { label: String::from_str("Status >"), enabled: true, command_id: None },
        MenuItem { label: String::from_str("Logs"), enabled: true, command_id: None },
        MenuItem { label: String::from_str("Quit"), enabled: true, command_id: None },
    ]
}

/// How often a release handoff polls the effective timing, in milliseconds.
pub const HANDOFF_POLL_INTERVAL_MS: u32 = 250;
/// How many polls a release handoff waits before it gives up.
pub const HANDOFF_MAX_POLLS: u8 = 12;

/// The outcome of one handoff observation.
#[derive(Clone, Copy, Debug, PartialEq, Eq, Structural)]
pub enum HandoffProgress {
    Pending,
    Completed,
    TimedOut,
}

/// Tracks a release that waits for an external client's finer timing to reach the boundary.
#[derive(Clone, Copy, Debug, PartialEq, Eq, Structural)]
pub struct HandoffTracker {
    boundary: Hns,
    released_status: TrayStatus,
    polls: u8,
    max_polls: u8,
}

/// Whether an observed effective timing has reached the boundary.
pub open spec fn reached_boundary(boundary: Hns, effective: Option<Hns>) -> bool {
    match effective {
        Some(value) => value.value >= boundary.value,
        None => false,
    }
}

impl HandoffTracker {
    /// The boundary the effective timing must reach.
    pub closed spec fn boundary_spec(self) -> Hns {
        self.boundary
    }

    /// The status shown once the handoff ends.
    pub closed spec fn released_status_spec(self) -> TrayStatus {
        self.released_status
    }

    /// The polls made so far.
    pub closed spec fn polls_spec(self) -> u8 {
        self.polls
    }

    /// The poll budget.
    pub closed spec fn max_polls_spec(self) -> u8 {
        self.max_polls
    }

    /// A tracker with no polls made and the standard budget.
    pub closed spec fn fresh(boundary: Hns, released_status: TrayStatus) -> HandoffTracker {
        HandoffTracker { boundary, released_status, polls: 0, max_polls: HANDOFF_MAX_POLLS }
    }

    /// The tracker and the progress after one observation.
    pub closed spec fn observed(self, effective: Option<Hns>) -> (HandoffTracker, HandoffProgress) {
        if reached_boundary(self.boundary, effective) {
            (self, HandoffProgress::Completed)
        } else {
            let polls = if self.polls < u8::MAX {
                (self.polls + 1) as u8
            } else {
                u8::MAX
            };
            (
                HandoffTracker { polls, ..self },
                if polls >= self.max_polls {
                    HandoffProgress::TimedOut
                } else {
                    HandoffProgress::Pending
                },
            )
        }
    }

    /// The tracker after `k` observations of the same effective timing.
    pub closed spec fn observed_times(self, k: nat, effective: Option<Hns>) -> HandoffTracker
        decreases k,
    {
        if k == 0 {
            self
        } else {
            self.observed_times((k - 1) as nat, effective).observed(effective).0
        }
    }

    /// A tracker with no polls made and the standard budget.
    pub fn new(boundary: Hns, released_status: TrayStatus) -> (t: HandoffTracker)
        ensures
            t == HandoffTracker::fresh(boundary, released_status),
            t.boundary_spec() == boundary,
            t.released_status_spec() == released_status,
            t.polls_spec() == 0,
            t.max_polls_spec() == HANDOFF_MAX_POLLS,
    {
        HandoffTracker { boundary, released_status, polls: 0, max_polls: HANDOFF_MAX_POLLS }
    }

    /// The boundary the effective timing must reach.
    pub fn boundary(self) -> (b: Hns)
        ensures
            b == self.boundary_spec(),
    {
        self.boundary
    }

    /// The status shown once the handoff ends.
    pub fn released_status(self) -> (s: TrayStatus)
        ensures
            s == self.released_status_spec(),
    {
        self.released_status
    }

    /// The polls made so far.
    pub fn polls(self) -> (p: u8)
        ensures
            p == self.polls_spec(),
    {
        self.polls
    }

    /// Records one observation: the handoff completes when the effective timing reached the
    /// boundary (no poll is counted); otherwise one poll is counted, saturating, and the handoff
    /// times out once the budget is used up.
    pub fn observe(&mut self, effective: Option<Hns>) -> (p: HandoffProgress)
        ensures
            (*final(self), p) == old(self).observed(effective),
            final(self).boundary_spec() == old(self).boundary_spec(),
            final(self).released_status_spec() == old(self).released_status_spec(),
            final(self).max_polls_spec() == old(self).max_polls_spec(),
            reached_boundary(old(self).boundary_spec(), effective) ==> {
                &&& p == HandoffProgress::Completed
                &&& final(self).polls_spec() == old(self).polls_spec()
            },
            !reached_boundary(old(self).boundary_spec(), effective) ==> {
                &&& final(self).polls_spec() == (if old(self).polls_spec() < u8::MAX {
                    old(self).polls_spec() + 1
                } else {
                    u8::MAX as int
                })
                &&& p == (if final(self).polls_spec() >= old(self).max_polls_spec() {
                    HandoffProgress::TimedOut
                } else {
                    HandoffProgress::Pending
                })
            },
    {
        let reached = match effective {
            Some(value) => value.value >= self.boundary.value,
            None => false,
        };
        if reached {
            return HandoffProgress::Completed;
        }
        self.polls = if self.polls < u8::MAX {
            self.polls + 1
        } else {
            u8::MAX
        };
        if self.polls >= self.max_polls {
            HandoffProgress::TimedOut
        } else {
            HandoffProgress::Pending
        }
    }
}

/// A release needs a handoff when the effective timing is finer than the boundary.
pub fn release_needs_handoff(boundary: Hns, effective: Option<Hns>) -> (b: bool)
    ensures
        b == (effective is Some && effective->0.value < boundary.value),
{
    match effective {
        Some(value) => value.value < boundary.value,
        None => false,
    }
}

/// Observing a timing below the boundary never completes a fresh handoff: the observations
/// before the budget is used up are pending, the one that uses it up times out, and each counts
/// one poll.
pub proof fn lemma_handoff_times_out_after_budget(
    boundary: Hns,
    released_status: TrayStatus,
    effective: Option<Hns>,
    k: nat,
)
    requires
        !reached_boundary(boundary, effective),
        1 <= k <= HANDOFF_MAX_POLLS,
    ensures
        HandoffTracker::fresh(boundary, released_status).observed_times(k, effective).polls_spec()
            == k,
        HandoffTracker::fresh(boundary, released_status).observed_times(
            (k - 1) as nat,
            effective,
        ).observed(effective).1 == (if k < HANDOFF_MAX_POLLS {
            HandoffProgress::Pending
        } else {
            HandoffProgress::TimedOut
        }),
    decreases k,
{
    let t = HandoffTracker::fresh(boundary, released_status);
    if k > 1 {
        lemma_handoff_times_out_after_budget(boundary, released_status, effective, (k - 1) as nat);
    }
    lemma_handoff_keeps_boundary(t, (k - 1) as nat, effective);
    assert(t.observed_times(0, effective) == t);
}

/// Observations never change the boundary or the poll budget.
pub proof fn lemma_handoff_keeps_boundary(t: HandoffTracker, k: nat, effective: Option<Hns>)
    ensures
        t.observed_times(k, effective).boundary_spec() == t.boundary_spec(),
        t.observed_times(k, effective).max_polls_spec() == t.max_polls_spec(),
        t.observed_times(k, effective).released_status_spec() == t.released_status_spec(),
    decreases k,
{
    if k > 0 {
        lemma_handoff_keeps_boundary(t, (k - 1) as nat, effective);
    }
}

/// A release that needs no handoff completes on its first observation without counting a poll.
pub proof fn lemma_release_without_handoff_completes(
    boundary: Hns,
    released_status: TrayStatus,
    value: Hns,
)
    requires
        !(value.value < boundary.value),
    ensures
        HandoffTracker::fresh(boundary, released_status).observed(Some(value)) == (
            HandoffTracker::fresh(boundary, released_status),
            HandoffProgress::Completed,
        ),
{
}

/// An active handoff always shows as a yellow stopping state, whatever the base status or the
/// schedule, and the lifecycle mapping is idempotent.
pub proof fn lemma_handoff_is_stopping_and_yellow(
    status: TrayStatus,
    scheduled: Option<DurationAction>,
    handoff_active: bool,
)
    ensures
        scheduled_lifecycle_spec(status, true, scheduled) == TrayStatus::Stopping,
        status_color(scheduled_lifecycle_spec(status, true, scheduled)) == IconColor::Yellow,
        lifecycle_spec(lifecycle_spec(status, handoff_active), handoff_active) == lifecycle_spec(
            status,
            handoff_active,
        ),
{
}

/// Two statuses share an icon pixel exactly when they share an icon color.
pub proof fn lemma_icon_pixel_tracks_color(a: TrayStatus, b: TrayStatus)
    ensures
        (color_pixel(status_color(a)) == color_pixel(status_color(b))) == (status_color(a)
            == status_color(b)),
{
}

/// While a menu is open no tray notification opens another one.
pub proof fn lemma_open_menu_absorbs_notifications(notification: usize)
    ensures
        !(!true && opens_menu(notification)),
        opens_menu(notification) ==> (notification == 0x0202 || notification == 0x0205),
{
}

/// The shown seconds of a remaining span round it up to whole seconds: they cover the span,
/// and one second fewer would not.
pub proof fn lemma_display_seconds_round_up(nanos: u64)
    ensures
        display_seconds(nanos) * 1_000_000_000 >= nanos,
        display_seconds(nanos) > 0 ==> (display_seconds(nanos) - 1) * 1_000_000_000 < nanos,
        nanos % 1_000_000_000 == 0 ==> display_seconds(nanos) * 1_000_000_000 == nanos,
{
}

/// Schedule commands are exactly the commands with a duration, a pause never lasts one minute,
/// every schedule command is always enabled and keeps the menu open, and every command that
/// keeps the menu open has a hover description.
pub proof fn lemma_schedule_commands_consistent(
    command_id: usize,
    status: TrayStatus,
    startup_enabled: bool,
    automatic: bool,
    schedule_active: bool,
)
    ensures
        duration_command_spec(command_id) is Some <==> is_schedule_command(command_id),
        match duration_command_spec(command_id) {
            Some((action, choice)) => action == DurationAction::Pause ==> pause_choice_seq().contains(
                choice,
            ),
            None => true,
        },
        is_schedule_command(command_id) ==> command_enabled_spec(
            command_id,
            status,
            startup_enabled,
            automatic,
            schedule_active,
        ),
        is_schedule_command(command_id) ==> keeps_menu_open(command_id),
        keeps_menu_open(command_id) ==> menu_description_spec(command_id) is Some,
{
    if let Some((action, d)) = duration_command_spec(command_id) {
        if action != DurationAction::Pause {
        } else if d == DurationChoice::FiveMinutes {
            assert(pause_choice_seq()[0] == d);
        } else if d == DurationChoice::FifteenMinutes {
            assert(pause_choice_seq()[1] == d);
        } else if d == DurationChoice::ThirtyMinutes {
            assert(pause_choice_seq()[2] == d);
        } else {
            assert(pause_choice_seq()[3] == d);
        }
    }
}

/// The read-only status entries are never enabled as commands.
pub proof fn lemma_status_entries_are_read_only(
    status: TrayStatus,
    startup_enabled: bool,
    automatic: bool,
    schedule_active: bool,
)
    ensures
        !command_enabled_spec(
            STATUS_STATE_COMMAND_ID,
            status,
            startup_enabled,
            automatic,
            schedule_active,
        ),
        !command_enabled_spec(
            STATUS_TIMING_COMMAND_ID,
            status,
            startup_enabled,
            automatic,
            schedule_active,
        ),
        !command_enabled_spec(
            STATUS_RUNNING_FOR_COMMAND_ID,
            status,
            startup_enabled,
            automatic,
            schedule_active,
        ),
        !command_enabled_spec(
            STATUS_NEXT_ACTION_COMMAND_ID,
            status,
            startup_enabled,
            automatic,
            schedule_active,
        ),
        !command_enabled_spec(
            STATUS_OWNERSHIP_COMMAND_ID,
            status,
            startup_enabled,
            automatic,
            schedule_active,
        ),
{
}

/// Start and Stop are never both refused in a settled state, and a transition refuses both: a
/// command is never accepted twice for the same effect.
pub proof fn lemma_start_stop_follow_state(status: TrayStatus, a: bool, b: bool, p: bool)
    ensures
        status == TrayStatus::Running ==> !command_enabled_spec(START_COMMAND_ID, status, a, b, p)
            && command_enabled_spec(STOP_COMMAND_ID, status, a, b, p),
        status == TrayStatus::Stopped ==> command_enabled_spec(START_COMMAND_ID, status, a, b, p)
            && !command_enabled_spec(STOP_COMMAND_ID, status, a, b, p),
        (status == TrayStatus::Stopping || status == TrayStatus::Paused) ==> !command_enabled_spec(
            START_COMMAND_ID,
            status,
            a,
            b,
            p,
        ) && !command_enabled_spec(STOP_COMMAND_ID, status, a, b, p),
        command_enabled_spec(STARTUP_ON_COMMAND_ID, status, a, b, p) != command_enabled_spec(
            STARTUP_OFF_COMMAND_ID,
            status,
            a,
            b,
            p,
        ),
        command_enabled_spec(AUTOMATIC_ON_COMMAND_ID, status, a, b, p) != command_enabled_spec(
            AUTOMATIC_OFF_COMMAND_ID,
            status,
            a,
            b,
            p,
        ),
{
}

/// Away from AC power the request is always released, whatever the automatic setting and the
/// ownership: only AC power ever acquires or keeps timing.
pub proof fn lemma_only_ac_power_keeps_timing(
    automatic: bool,
    power: PowerState,
    ownership: OwnershipState,
)
    ensures
        power != PowerState::Ac ==> power_reconciliation_spec(automatic, power, ownership)
            == PowerReconciliation::ReleaseBlocked,
        power_reconciliation_spec(automatic, power, ownership) != PowerReconciliation::ReleaseBlocked
            ==> power == PowerState::Ac,
        power_reconciliation_spec(automatic, power, ownership) == PowerReconciliation::Acquire
            ==> power == PowerState::Ac && automatic && ownership == OwnershipState::Released,
{
}

/// A span of at least an hour reads as whole hours and the minutes left over, below sixty: for
/// any `h` and `m < 60` with `3600 h + 60 m` seconds the span's whole minutes, the text is
/// `h` "h " `m` "m". A shorter span of at least a minute reads as minutes and leftover seconds,
/// and a span under a minute as its seconds.
pub proof fn lemma_duration_text_splits_the_span(seconds: u64, h: nat, m: nat)
    requires
        m < 60,
        3_600 * h + 60 * m <= seconds < 3_600 * h + 60 * m + 60,
    ensures
        h > 0 ==> duration_text(seconds) == decimal(h) + "h "@ + decimal(m) + "m"@,
        h == 0 && m > 0 ==> duration_text(seconds) == decimal(m) + "m "@ + decimal(
            (seconds - 60 * m) as nat,
        ) + "s"@,
        h == 0 && m == 0 ==> duration_text(seconds) == decimal(seconds as nat) + "s"@,
{
    assert(seconds / 3_600 == h && (seconds % 3_600) / 60 == m && seconds % 60 == seconds - 3_600
        * h - 60 * m) by (nonlinear_arith)
        requires
            m < 60,
            3_600 * h + 60 * m <= seconds < 3_600 * h + 60 * m + 60,
    ;
}

/// Each schedule command asks for the duration its menu entry shows: the `k`-th "Start in" and
/// "Stop in" commands ask for the `k`-th duration offered for starting and stopping, and the
/// `k`-th "Pause for" command for the `k`-th duration offered for pausing.
pub proof fn lemma_schedule_command_matches_its_entry(k: int)
    ensures
        0 <= k < choices_for(DurationAction::Start).len() ==> duration_command_spec(
            (START_IN_1_COMMAND_ID + k) as usize,
        ) == Some((DurationAction::Start, choices_for(DurationAction::Start)[k])),
        0 <= k < choices_for(DurationAction::Stop).len() ==> duration_command_spec(
            (STOP_IN_1_COMMAND_ID + k) as usize,
        ) == Some((DurationAction::Stop, choices_for(DurationAction::Stop)[k])),
        0 <= k < choices_for(DurationAction::Pause).len() ==> duration_command_spec(
            (PAUSE_FOR_5_COMMAND_ID + k) as usize,
        ) == Some((DurationAction::Pause, choices_for(DurationAction::Pause)[k])),
{
}

} // verus!
