//! Positions and command ids of the entries of the tray popup menus.
use vstd::prelude::*;

use crate::decisions::{QuitDecision, QuitDialogDecision, QuitWarningResult};
use crate::surface::{keeps_menu_open, menu_action_keeps_open, menu_description, menu_description_spec};
use crate::text::chars_of;

verus! {

/// Zero-based positions of entries in the root menu and its submenus.
pub const ROOT_MENU_START_POSITION: usize = 2;
pub const ROOT_MENU_STOP_POSITION: usize = 3;
pub const ROOT_MENU_SETTINGS_POSITION: usize = 5;
pub const SCHEDULE_MENU_PRESETS_POSITION: usize = 4;
pub const SCHEDULE_MENU_CANCEL_POSITION: usize = 6;
pub const SCHEDULE_MENU_RESUME_POSITION: usize = 7;
pub const SETTINGS_MENU_AUTO_START_POSITION: usize = 0;
pub const SETTINGS_MENU_AUTO_TIME_POSITION: usize = 1;
pub const SETTINGS_MENU_AUTO_RESUME_POSITION: usize = 2;

/// Command ids of the root menu and the settings submenu.
pub const ID_START: usize = 1001;
pub const ID_STOP: usize = 1002;
pub const ID_QUIT: usize = 1004;
pub const ID_STARTUP_ON: usize = 1005;
pub const ID_STARTUP_OFF: usize = 1006;
pub const ID_AUTOMATIC_ON: usize = 1007;
pub const ID_AUTOMATIC_OFF: usize = 1008;
pub const ID_AUTO_RESUME_ON: usize = 1009;
pub const ID_AUTO_RESUME_OFF: usize = 1010;
pub const ID_RESET: usize = 1060;

/// The menu-item flag of an entry that opens a submenu.
pub const MF_POPUP: u32 = 0x0010;

/// A menu label without its trailing '&' accelerator markers.
pub open spec fn trim_ampersands(label: Seq<char>) -> Seq<char>
    decreases label.len(),
{
    if label.len() > 0 && label.last() == '&' {
        trim_ampersands(label.drop_last())
    } else {
        label
    }
}

/// The hover description of a submenu entry, by its label.
pub open spec fn submenu_label_text(label: Seq<char>) -> Option<Seq<char>> {
    let l = trim_ampersands(label);
    if l == "Schedule >"@ {
        Some("Schedule a bounded timing action"@)
    } else if l == "Start in >"@ {
        Some("Schedule a future guarded acquire"@)
    } else if l == "Stop in >"@ {
        Some("Schedule a future guarded release"@)
    } else if l == "Pause for >"@ {
        Some("Suppress acquisition for a fixed duration"@)
    } else if l == "Resume now"@ {
        Some("Resume timing and cancel the pause"@)
    } else if l == "Settings >"@ {
        Some("Configure startup and automation settings"@)
    } else if l == "Status >"@ {
        Some("View read-only lifecycle details"@)
    } else {
        None
    }
}

/// Whether two character sequences are equal.
fn chars_equal(a: &Vec<char>, len: usize, b: &str) -> (eq: bool)
    requires
        len <= a@.len(),
    ensures
        eq == (a@.subrange(0, len as int) == b@),
{
    let bc = chars_of(b);
    if len != bc.len() {
        return false;
    }
    let mut i: usize = 0;
    while i < len
        invariant
            len <= a@.len(),
            bc@ == b@,
            len == bc@.len(),
            0 <= i <= len,
            forall|k: int| 0 <= k < i ==> a@[k] == bc@[k],
        decreases len - i,
    {
        if a[i] != bc[i] {
            assert(a@.subrange(0, len as int)[i as int] != b@[i as int]);
            return false;
        }
        i = i + 1;
    }
    assert(a@.subrange(0, len as int) =~= b@);
    true
}

/// The hover description of a submenu entry with this label, if it has one.
pub fn submenu_label_description(label: &str) -> (d: Option<&'static str>)
    ensures
        match d {
            Some(s) => submenu_label_text(label@) == Some(s@),
            None => submenu_label_text(label@) == None::<Seq<char>>,
        },
{
    let chars = chars_of(label);
    let mut len = chars.len();
    assert(chars@.subrange(0, len as int) =~= label@);
    while len > 0 && chars[len - 1] == '&'
        invariant
            chars@ == label@,
            0 <= len <= chars@.len(),
            trim_ampersands(label@) == trim_ampersands(chars@.subrange(0, len as int)),
        decreases len,
    {
        proof {
            assert(chars@.subrange(0, len as int).drop_last() =~= chars@.subrange(0, len - 1));
        }
        len = len - 1;
    }
    if chars_equal(&chars, len, "Schedule >") {
        Some("Schedule a bounded timing action")
    } else if chars_equal(&chars, len, "Start in >") {
        Some("Schedule a future guarded acquire")
    } else if chars_equal(&chars, len, "Stop in >") {
        Some("Schedule a future guarded release")
    } else if chars_equal(&chars, len, "Pause for >") {
        Some("Suppress acquisition for a fixed duration")
    } else if chars_equal(&chars, len, "Resume now") {
        Some("Resume timing and cancel the pause")
    } else if chars_equal(&chars, len, "Settings >") {
        Some("Configure startup and automation settings")
    } else if chars_equal(&chars, len, "Status >") {
        Some("View read-only lifecycle details")
    } else {
        None
    }
}

/// The description of the first entry of a submenu that has one, given the entry labels read
/// from the menu (`None` where a label could not be read).
pub open spec fn submenu_description_spec(labels: Seq<Option<String>>, k: nat) -> Option<Seq<char>>
    decreases labels.len() - k,
{
    if k >= labels.len() {
        None
    } else {
        match labels[k as int] {
            Some(label) => match submenu_label_text(label@) {
                Some(d) => Some(d),
                None => submenu_description_spec(labels, k + 1),
            },
            None => submenu_description_spec(labels, k + 1),
        }
    }
}

/// The hover description of a submenu: that of its first entry that has one.
pub fn submenu_description(labels: &Vec<Option<String>>) -> (d: Option<&'static str>)
    ensures
        match d {
            Some(s) => submenu_description_spec(labels@, 0) == Some(s@),
            None => submenu_description_spec(labels@, 0) == None::<Seq<char>>,
        },
{
    let mut k: usize = 0;
    while k < labels.len()
        invariant
            0 <= k <= labels@.len(),
            submenu_description_spec(labels@, 0) == submenu_description_spec(labels@, k as nat),
        decreases labels@.len() - k,
    {
        match &labels[k] {
            Some(label) => {
                let d = submenu_label_description(label.as_str());
                if d.is_some() {
                    return d;
                }
            },
            None => {},
        }
        k = k + 1;
    }
    None
}

/// The hover help of the highlighted menu entry: the command's own description, or for a
/// submenu entry the submenu's description.
pub open spec fn menu_help_spec(
    command: usize,
    flags: u32,
    submenu: Option<Seq<char>>,
) -> Option<Seq<char>> {
    match menu_description_spec(command) {
        Some(d) => Some(d),
        None => if flags & MF_POPUP != 0 {
            submenu
        } else {
            None
        },
    }
}

/// The hover help of the highlighted entry, given the description of the submenu it opens.
pub fn menu_help_description(command: usize, flags: u32, submenu: Option<&'static str>) -> (d:
    Option<&'static str>)
    ensures
        match d {
            Some(s) => menu_help_spec(
                command,
                flags,
                match submenu {
                    Some(t) => Some(t@),
                    None => None,
                },
            ) == Some(s@),
            None => menu_help_spec(
                command,
                flags,
                match submenu {
                    Some(t) => Some(t@),
                    None => None,
                },
            ) == None::<Seq<char>>,
        },
{
    match menu_description(command) {
        Some(d) => Some(d),
        None => if flags & MF_POPUP != 0 {
            submenu
        } else {
            None
        },
    }
}

/// Whether a command belongs to the settings submenu, which the popup reopens after it: the
/// auto-start, automatic-timing and auto-resume toggles.
pub open spec fn is_settings_command(command_id: usize) -> bool {
    ID_STARTUP_ON <= command_id && command_id <= ID_AUTO_RESUME_OFF
}

/// What the popup menu loop does after a dispatched command.
#[derive(Clone, Copy, Debug, PartialEq, Eq, Structural)]
pub enum PopupLoopStep {
    /// Leave the loop and tear the popup down.
    Close,
    /// Show the menu again, with the settings submenu open or not.
    Reopen { settings_submenu_open: bool },
}

/// The popup loop closes when the command does not keep the menu open; otherwise it shows the
/// menu again, reopening the settings submenu when the command came from it.
pub fn popup_after_command(command_id: usize, keeps_open: bool) -> (step: PopupLoopStep)
    ensures
        step == (if keeps_open {
            PopupLoopStep::Reopen { settings_submenu_open: is_settings_command(command_id) }
        } else {
            PopupLoopStep::Close
        }),
{
    if keeps_open {
        PopupLoopStep::Reopen {
            settings_submenu_open: ID_STARTUP_ON <= command_id && command_id <= ID_AUTO_RESUME_OFF,
        }
    } else {
        PopupLoopStep::Close
    }
}

/// What a dispatched menu command leaves behind: whether the tray posts the quit message, and
/// whether the popup menu stays open.
#[derive(Clone, Copy, Debug, PartialEq, Eq, Structural)]
pub struct MenuCommandOutcome {
    pub exits: bool,
    pub keeps_menu_open: bool,
}

/// Whether Quit runs the normal shutdown cleanup: at once when quitting is safe, otherwise only
/// when the safety dialog answered "stop and quit".
pub open spec fn quit_runs_cleanup(decision: QuitDecision, warning: QuitWarningResult) -> bool {
    decision == QuitDecision::ExitNormally || warning.decision == QuitDialogDecision::StopAndQuit
}

/// The outcome of Quit: a verified cleanup exits and closes the menu; a cleanup that could not
/// be verified keeps the app and its menu open after the warning; a cancelled dialog exits
/// nothing and keeps the menu open only when the dialog was really shown.
pub open spec fn quit_outcome_spec(
    decision: QuitDecision,
    warning: QuitWarningResult,
    cleanup_ok: bool,
) -> MenuCommandOutcome {
    if quit_runs_cleanup(decision, warning) {
        if cleanup_ok {
            MenuCommandOutcome { exits: true, keeps_menu_open: false }
        } else {
            MenuCommandOutcome { exits: false, keeps_menu_open: true }
        }
    } else {
        MenuCommandOutcome { exits: false, keeps_menu_open: warning.dialog_shown }
    }
}

/// Whether Quit runs the normal shutdown cleanup. The dialog's answer is read only when the
/// decision asked for the dialog.
pub fn quit_cleanup_runs(decision: QuitDecision, warning: QuitWarningResult) -> (b: bool)
    ensures
        b == quit_runs_cleanup(decision, warning),
{
    match decision {
        QuitDecision::ExitNormally => true,
        QuitDecision::RequireSafetyDialog { .. } => match warning.decision {
            QuitDialogDecision::StopAndQuit => true,
            QuitDialogDecision::Cancel => false,
        },
    }
}

/// The outcome of Quit from the quit decision, the safety dialog's result (read only when the
/// decision asked for it) and whether the cleanup (run only when `quit_cleanup_runs` says so)
/// was verified.
pub fn quit_outcome(decision: QuitDecision, warning: QuitWarningResult, cleanup_ok: bool) -> (o:
    MenuCommandOutcome)
    ensures
        o == quit_outcome_spec(decision, warning, cleanup_ok),
{
    if quit_cleanup_runs(decision, warning) {
        if cleanup_ok {
            MenuCommandOutcome { exits: true, keeps_menu_open: false }
        } else {
            MenuCommandOutcome { exits: false, keeps_menu_open: true }
        }
    } else {
        MenuCommandOutcome { exits: false, keeps_menu_open: warning.dialog_shown }
    }
}

/// The outcome of a dispatched menu command: a refused command does nothing and closes the
/// menu; Quit gives its own outcome; every other command closes or keeps the menu as its id
/// says, without exiting.
pub fn menu_command_outcome(command_id: usize, enabled: bool, quit: MenuCommandOutcome) -> (o:
    MenuCommandOutcome)
    ensures
        o == (if !enabled {
            MenuCommandOutcome { exits: false, keeps_menu_open: false }
        } else if command_id == ID_QUIT {
            quit
        } else {
            MenuCommandOutcome { exits: false, keeps_menu_open: keeps_menu_open(command_id) }
        }),
{
    if !enabled {
        MenuCommandOutcome { exits: false, keeps_menu_open: false }
    } else if command_id == ID_QUIT {
        quit
    } else {
        MenuCommandOutcome { exits: false, keeps_menu_open: menu_action_keeps_open(command_id) }
    }
}

} // verus!
