//! Decisions and texts of the diagnostic window: native action outcomes, window styles, event
//! search, export format and transfer source, the HUD text, and refresh coalescing.
use vstd::prelude::*;

use crate::classify::DiagnosticOutcome;
use crate::pause::ScheduledAction;
use crate::surface::{status_menu_items, state_menu_text, TrayStatus, GITHUB_URL, PACKAGE_VERSION};
use crate::timing::{OwnershipState, TimingValues};
use crate::text::{
    ascii_lower_seq, ascii_lowercase, chars_of, contains_seq, decimal, push_decimal,
    push_signed_decimal, str_contains, to_lowercase, trim, trimmed, unicode_lowercase,
};
use crate::timing::PowerState;

verus! {

/// Window and control style bits.
pub const WS_OVERLAPPEDWINDOW: u32 = 0x00cf_0000;
pub const WS_CHILD: u32 = 0x4000_0000;
pub const WS_VISIBLE: u32 = 0x1000_0000;
pub const WS_CLIPSIBLINGS: u32 = 0x0400_0000;
pub const WS_CLIPCHILDREN: u32 = 0x0200_0000;
pub const WS_BORDER: u32 = 0x0080_0000;
pub const WS_HSCROLL: u32 = 0x0010_0000;
pub const WS_EX_TOOLWINDOW: u32 = 0x0000_0080;
pub const WS_EX_APPWINDOW: u32 = 0x0004_0000;
pub const SS_LEFT: u32 = 0x0000_0000;
pub const SS_NOPREFIX: u32 = 0x0000_0080;
pub const SS_ETCHEDHORZ: u32 = 0x0000_0010;
pub const LVS_REPORT: u32 = 0x0001;
pub const LVS_SINGLESEL: u32 = 0x0004;
pub const LVS_SHOWSELALWAYS: u32 = 0x0008;
pub const LVS_EX_GRIDLINES: usize = 0x0000_0001;
pub const LVS_EX_FULLROWSELECT: usize = 0x0000_0020;
pub const LVS_EX_DOUBLEBUFFER: usize = 0x0001_0000;
/// List-view and window messages the diagnostic window sends or handles.
pub const LVM_FIRST: u32 = 0x1000;
pub const LVM_SETBKCOLOR: u32 = 0x1001;
pub const LVM_SETTEXTCOLOR: u32 = 0x1024;
pub const LVM_SETTEXTBKCOLOR: u32 = 0x1026;
pub const LVM_INSERTITEMW: u32 = 0x104D;
pub const LVM_SETITEMTEXTW: u32 = 0x1074;
pub const WM_APP: u32 = 0x8000;
pub const WM_DIAGNOSTIC_REFRESH: u32 = 0x8002;
pub const WM_SIZE: u32 = 0x0005;
pub const WM_SETREDRAW: u32 = 0x000B;
pub const WM_SYSCOLORCHANGE: u32 = 0x0015;
pub const WM_SETTINGCHANGE: u32 = 0x001A;
pub const WM_TIMER: u32 = 0x0113;
pub const WM_COMMAND: u32 = 0x0111;
pub const WM_DPICHANGED: u32 = 0x02E0;
pub const WM_THEMECHANGED: u32 = 0x031A;
pub const SWP_NOZORDER: u32 = 0x0004;
pub const SWP_NOACTIVATE: u32 = 0x0010;
pub const SWP_NOSENDCHANGING: u32 = 0x0400;
/// The window title and the summary shown before the first render.
pub const DIAGNOSTIC_WINDOW_TITLE: &'static str = "True™ Tick Status and Diagnostics";
pub const DIAGNOSTIC_LOADING_SUMMARY: &'static str = "Loading True™ Tick diagnostics...";

/// The outcome of a clipboard or save-dialog step.
#[derive(Clone, Copy, Debug, PartialEq, Eq, Structural)]
pub enum DiagnosticNativeAction {
    Completed,
    Cancelled,
    Failed { raw_error: u32 },
}

/// A native step completed when it succeeded and failed with its error otherwise.
pub fn map_native_action(success: bool, raw_error: u32) -> (a: DiagnosticNativeAction)
    ensures
        a == (if success {
            DiagnosticNativeAction::Completed
        } else {
            DiagnosticNativeAction::Failed { raw_error }
        }),
{
    if success {
        DiagnosticNativeAction::Completed
    } else {
        DiagnosticNativeAction::Failed { raw_error }
    }
}

/// A save dialog completed when it returned nonzero, was cancelled when it returned zero
/// without an extended error, and failed with the extended error otherwise.
pub fn map_save_dialog_result(result: i32, extended_error: u32) -> (a: DiagnosticNativeAction)
    ensures
        a == (if result != 0 {
            DiagnosticNativeAction::Completed
        } else if extended_error == 0 {
            DiagnosticNativeAction::Cancelled
        } else {
            DiagnosticNativeAction::Failed { raw_error: extended_error }
        }),
{
    if result != 0 {
        DiagnosticNativeAction::Completed
    } else if extended_error == 0 {
        DiagnosticNativeAction::Cancelled
    } else {
        DiagnosticNativeAction::Failed { raw_error: extended_error }
    }
}

/// A normal overlapped top-level window that clips its children and siblings.
pub fn diagnostic_window_style() -> (s: u32)
    ensures
        s == WS_OVERLAPPEDWINDOW | WS_CLIPCHILDREN | WS_CLIPSIBLINGS,
{
    WS_OVERLAPPEDWINDOW | WS_CLIPCHILDREN | WS_CLIPSIBLINGS
}

/// The diagnostic window shows on the taskbar.
pub fn diagnostic_window_extended_style() -> (s: u32)
    ensures
        s == WS_EX_APPWINDOW,
{
    WS_EX_APPWINDOW
}

/// The summary is a visible, non-scrolling static child that shows ampersands literally.
pub fn diagnostic_summary_style() -> (s: u32)
    ensures
        s == WS_CHILD | WS_VISIBLE | SS_LEFT | SS_NOPREFIX,
{
    WS_CHILD | WS_VISIBLE | SS_LEFT | SS_NOPREFIX
}

/// The grid is a bordered report list that keeps its selection visible and allows selecting
/// many rows.
pub fn diagnostic_list_style() -> (s: u32)
    ensures
        s == (WS_CHILD | WS_VISIBLE | WS_CLIPCHILDREN | WS_BORDER | WS_HSCROLL | LVS_REPORT
            | LVS_SHOWSELALWAYS) & !LVS_SINGLESEL,
{
    (WS_CHILD | WS_VISIBLE | WS_CLIPCHILDREN | WS_BORDER | WS_HSCROLL | LVS_REPORT
        | LVS_SHOWSELALWAYS) & !LVS_SINGLESEL
}

/// The grid draws grid lines, selects full rows and double-buffers its painting.
pub fn diagnostic_list_extended_style() -> (s: usize)
    ensures
        s == LVS_EX_GRIDLINES | LVS_EX_FULLROWSELECT | LVS_EX_DOUBLEBUFFER,
{
    LVS_EX_GRIDLINES | LVS_EX_FULLROWSELECT | LVS_EX_DOUBLEBUFFER
}

/// Theme, system-color and setting changes refresh the presentation; nothing else does.
pub fn diagnostic_presentation_message(message: u32) -> (b: bool)
    ensures
        b == (message == WM_THEMECHANGED || message == WM_SYSCOLORCHANGE || message
            == WM_SETTINGCHANGE),
{
    message == WM_THEMECHANGED || message == WM_SYSCOLORCHANGE || message == WM_SETTINGCHANGE
}

/// The label of a power state.
pub open spec fn power_text(power: PowerState) -> Seq<char> {
    match power {
        PowerState::Ac => "AC"@,
        PowerState::Battery => "Battery"@,
        PowerState::BatterySaver => "Battery Saver"@,
        PowerState::Unknown => "Unknown"@,
    }
}

/// The HUD label of a power state.
pub fn power_state_label(power: PowerState) -> (s: &'static str)
    ensures
        s@ == power_text(power),
{
    match power {
        PowerState::Ac => "AC",
        PowerState::Battery => "Battery",
        PowerState::BatterySaver => "Battery Saver",
        PowerState::Unknown => "Unknown",
    }
}

/// Whether an already lower-cased needle occurs in the lower-cased event name or details.
pub fn search_matches_lowered(needle: &str, event_name: &str, details: &str) -> (b: bool)
    ensures
        b == (contains_seq(event_name@, needle@) || contains_seq(details@, needle@)),
{
    str_contains(event_name, needle) || str_contains(details, needle)
}

/// Whether an event matches the search box: a blank search matches everything; otherwise the
/// trimmed search occurs, ignoring case, in the event name or its details.
pub fn search_matches(search: &str, event_name: &str, details: &str) -> (b: bool)
    ensures
        b == (trimmed(search@).len() == 0 || contains_seq(
            unicode_lowercase(event_name@),
            unicode_lowercase(trimmed(search@)),
        ) || contains_seq(unicode_lowercase(details@), unicode_lowercase(trimmed(search@)))),
{
    let needle = trim(search);
    if needle.unicode_len() == 0 {
        return true;
    }
    let needle = to_lowercase(needle);
    let name = to_lowercase(event_name);
    let details = to_lowercase(details);
    search_matches_lowered(needle.as_str(), name.as_str(), details.as_str())
}

/// What to do with the text of the "Show rows" box.
#[derive(Clone, Copy, Debug, PartialEq, Eq, Structural)]
pub enum DisplayLimitInputDecision {
    /// Show this many rows.
    Apply(usize),
    /// The box is blank: keep the previous limit.
    PreserveEmpty,
    /// The text is not a row count.
    Invalid,
}

/// Classifies the "Show rows" text before anything changes. Blank text keeps the previous limit,
/// so that an edit that passes through an empty box never fails an operation; other text is
/// applied as the row count that parsing it gave, or refused where parsing found none.
pub fn display_limit_input_decision(input: &str, parsed: Option<usize>) -> (d:
    DisplayLimitInputDecision)
    ensures
        trimmed(input@).len() == 0 ==> d == DisplayLimitInputDecision::PreserveEmpty,
        trimmed(input@).len() != 0 ==> d == match parsed {
            Some(limit) => DisplayLimitInputDecision::Apply(limit),
            None => DisplayLimitInputDecision::Invalid,
        },
{
    if trim(input).unicode_len() == 0 {
        DisplayLimitInputDecision::PreserveEmpty
    } else {
        match parsed {
            Some(limit) => DisplayLimitInputDecision::Apply(limit),
            None => DisplayLimitInputDecision::Invalid,
        }
    }
}

/// The format of an export file.
#[derive(Clone, Copy, Debug, PartialEq, Eq, Structural)]
pub enum DiagnosticExportFormat {
    Csv,
    Tsv,
}

impl DiagnosticExportFormat {
    /// The upper-case name of the format.
    pub fn label(self) -> (s: &'static str)
        ensures
            s@ == (match self {
                DiagnosticExportFormat::Csv => "CSV"@,
                DiagnosticExportFormat::Tsv => "TSV"@,
            }),
    {
        match self {
            DiagnosticExportFormat::Csv => "CSV",
            DiagnosticExportFormat::Tsv => "TSV",
        }
    }
}

/// Whether a character separates path components on Windows.
pub open spec fn is_path_separator(c: char) -> bool {
    c == '\\' || c == '/'
}

/// Whether a character separates components: in a verbatim (`\\?\`) path only the backslash
/// does.
pub open spec fn is_component_separator(c: char, verbatim: bool) -> bool {
    c == '\\' || (!verbatim && c == '/')
}

/// Whether a character is an ASCII letter.
pub open spec fn is_ascii_letter(c: char) -> bool {
    ('a' <= c && c <= 'z') || ('A' <= c && c <= 'Z')
}

/// The index of the first separator of `s` at or after `i`, or the length of `s`.
pub open spec fn separator_from(s: Seq<char>, i: int, verbatim: bool) -> int
    decreases s.len() - i,
{
    if i < 0 || i >= s.len() {
        s.len() as int
    } else if is_component_separator(s[i], verbatim) {
        i
    } else {
        separator_from(s, i + 1, verbatim)
    }
}

/// The length of a drive prefix such as `C:` at the start of `s`, or 0.
pub open spec fn drive_prefix_len(s: Seq<char>) -> int {
    if s.len() >= 2 && is_ascii_letter(s[0]) && s[1] == ':' {
        2
    } else {
        0
    }
}

/// Whether `s` begins with the verbatim marker `\\?\`, written with backslashes only.
pub open spec fn is_verbatim_path(s: Seq<char>) -> bool {
    s.len() >= 4 && s[0] == '\\' && s[1] == '\\' && s[2] == '?' && s[3] == '\\'
}

/// The length of the prefix of a Windows path: a verbatim prefix (`\\?\UNC\server\share`,
/// `\\?\C:`, or `\\?\` and its first component), a device prefix (`\\.\` and its first
/// component), a share (`\\server\share`, both names non-empty), or a drive (`C:`); 0 when the
/// path has none.
pub open spec fn path_prefix_len(s: Seq<char>) -> int {
    if is_verbatim_path(s) {
        if s.len() >= 8 && s[4] == 'U' && s[5] == 'N' && s[6] == 'C' && is_path_separator(s[7]) {
            let server_end = separator_from(s, 8, true);
            if server_end < s.len() {
                let share_end = separator_from(s, server_end + 1, true);
                if share_end > server_end + 1 {
                    share_end
                } else {
                    server_end
                }
            } else {
                server_end
            }
        } else if s.len() >= 6 && is_ascii_letter(s[4]) && s[5] == ':' && (s.len() == 6 || s[6]
            == '\\') {
            6
        } else {
            separator_from(s, 4, true)
        }
    } else if s.len() >= 2 && is_path_separator(s[0]) && is_path_separator(s[1]) {
        if s.len() >= 4 && s[2] == '.' && is_path_separator(s[3]) {
            separator_from(s, 4, false)
        } else {
            let server_end = separator_from(s, 2, false);
            if server_end > 2 && server_end < s.len() {
                let share_end = separator_from(s, server_end + 1, false);
                if share_end > server_end + 1 {
                    share_end
                } else {
                    0
                }
            } else {
                0
            }
        }
    } else {
        drive_prefix_len(s)
    }
}

/// Where the last segment of `t` starts: just after the last separator.
pub open spec fn file_name_start(t: Seq<char>, verbatim: bool) -> int
    decreases t.len(),
{
    if t.len() == 0 {
        0
    } else if is_component_separator(t.last(), verbatim) {
        t.len() as int
    } else {
        file_name_start(t.drop_last(), verbatim)
    }
}

/// The file name of a path without its prefix: its last component, where separators at the
/// end are skipped and so are "." components outside verbatim paths; a path that ends in "..",
/// or in "." when verbatim, or has no component, has none.
pub open spec fn file_name_of(t: Seq<char>, verbatim: bool) -> Option<Seq<char>>
    decreases t.len(),
{
    if t.len() == 0 {
        None
    } else if is_component_separator(t.last(), verbatim) {
        file_name_of(t.drop_last(), verbatim)
    } else {
        let start = file_name_start(t, verbatim);
        let segment = t.subrange(start, t.len() as int);
        if segment == "."@ {
            if !verbatim && 0 <= start < t.len() {
                file_name_of(t.subrange(0, start), verbatim)
            } else {
                None
            }
        } else if segment == ".."@ {
            None
        } else {
            Some(segment)
        }
    }
}

/// The index of the last '.' of `s` at or after `lo`, or -1.
pub open spec fn last_dot_from(s: Seq<char>, lo: int) -> int
    decreases s.len(),
{
    if s.len() <= lo || s.len() == 0 {
        -1
    } else if s.last() == '.' {
        s.len() - 1
    } else {
        last_dot_from(s.drop_last(), lo)
    }
}

/// The extension of a file name: the text after its last '.', when that '.' is not the
/// name's first character.
pub open spec fn name_extension(name: Seq<char>) -> Option<Seq<char>> {
    let dot = last_dot_from(name, 0);
    if dot > 0 {
        Some(name.subrange(dot + 1, name.len() as int))
    } else {
        None
    }
}

/// The extension of a path's file name, if it has one.
pub open spec fn path_extension(s: Seq<char>) -> Option<Seq<char>> {
    match file_name_of(s.subrange(path_prefix_len(s), s.len() as int), is_verbatim_path(s)) {
        Some(name) => name_extension(name),
        None => None,
    }
}

/// TSV for a ".tsv" extension in any letter case, CSV for anything else.
pub open spec fn export_format_spec(path: Seq<char>) -> DiagnosticExportFormat {
    match path_extension(path) {
        Some(ext) => if ascii_lower_seq(ext) == "tsv"@ {
            DiagnosticExportFormat::Tsv
        } else {
            DiagnosticExportFormat::Csv
        },
        None => DiagnosticExportFormat::Csv,
    }
}

/// The characters `v[lo..hi]`.
fn copy_range(v: &Vec<char>, lo: usize, hi: usize) -> (r: Vec<char>)
    requires
        lo <= hi <= v.len(),
    ensures
        r@ == v@.subrange(lo as int, hi as int),
{
    let mut r: Vec<char> = Vec::new();
    let mut k: usize = lo;
    while k < hi
        invariant
            lo <= k <= hi <= v.len(),
            r@ == v@.subrange(lo as int, k as int),
        decreases hi - k,
    {
        r.push(v[k]);
        k = k + 1;
        assert(r@ =~= v@.subrange(lo as int, k as int));
    }
    r
}

/// Whether `c` separates components.
fn component_separator(c: char, verbatim: bool) -> (b: bool)
    ensures
        b == is_component_separator(c, verbatim),
{
    c == '\\' || (!verbatim && c == '/')
}

/// The index of the first separator of `v` at or after `i`, or the length of `v`.
fn find_separator(v: &Vec<char>, i: usize, verbatim: bool) -> (r: usize)
    requires
        i <= v@.len(),
    ensures
        r == separator_from(v@, i as int, verbatim),
        i <= r <= v@.len(),
{
    let mut k = i;
    while k < v.len() && !component_separator(v[k], verbatim)
        invariant
            i <= k <= v@.len(),
            separator_from(v@, i as int, verbatim) == separator_from(v@, k as int, verbatim),
        decreases v@.len() - k,
    {
        k = k + 1;
    }
    k
}

/// The length of the prefix of the Windows path `v`.
fn prefix_length(v: &Vec<char>) -> (r: usize)
    ensures
        r == path_prefix_len(v@),
        r <= v@.len(),
{
    let n = v.len();
    if n >= 4 && v[0] == '\\' && v[1] == '\\' && v[2] == '?' && v[3] == '\\' {
        if n >= 8 && v[4] == 'U' && v[5] == 'N' && v[6] == 'C' && (v[7] == '\\' || v[7] == '/') {
            let server_end = find_separator(v, 8, true);
            if server_end < n {
                let share_end = find_separator(v, server_end + 1, true);
                if share_end > server_end + 1 {
                    share_end
                } else {
                    server_end
                }
            } else {
                server_end
            }
        } else if n >= 6 && (('a' <= v[4] && v[4] <= 'z') || ('A' <= v[4] && v[4] <= 'Z'))
            && v[5] == ':' && (n == 6 || v[6] == '\\') {
            6
        } else {
            find_separator(v, 4, true)
        }
    } else if n >= 2 && (v[0] == '\\' || v[0] == '/') && (v[1] == '\\' || v[1] == '/') {
        if n >= 4 && v[2] == '.' && (v[3] == '\\' || v[3] == '/') {
            find_separator(v, 4, false)
        } else {
            let server_end = find_separator(v, 2, false);
            if server_end > 2 && server_end < n {
                let share_end = find_separator(v, server_end + 1, false);
                if share_end > server_end + 1 {
                    share_end
                } else {
                    0
                }
            } else {
                0
            }
        }
    } else if n >= 2 && (('a' <= v[0] && v[0] <= 'z') || ('A' <= v[0] && v[0] <= 'Z')) && v[1]
        == ':' {
        2
    } else {
        0
    }
}

/// The bounds of the file name of `b`, a path without its prefix.
fn file_name_bounds(b: &Vec<char>, verbatim: bool) -> (r: Option<(usize, usize)>)
    ensures
        match r {
            Some((i, j)) => i < j <= b@.len() && file_name_of(b@, verbatim) == Some(
                b@.subrange(i as int, j as int),
            ),
            None => file_name_of(b@, verbatim) is None,
        },
{
    let mut j: usize = b.len();
    assert(b@.subrange(0, j as int) =~= b@);
    loop
        invariant
            j <= b@.len(),
            file_name_of(b@, verbatim) == file_name_of(b@.subrange(0, j as int), verbatim),
        decreases j,
    {
        if j == 0 {
            return None;
        }
        let ghost t = b@.subrange(0, j as int);
        if component_separator(b[j - 1], verbatim) {
            proof {
                assert(t.drop_last() =~= b@.subrange(0, j - 1));
            }
            j = j - 1;
        } else {
            let mut i: usize = j - 1;
            proof {
                assert(t.drop_last() =~= b@.subrange(0, j - 1));
            }
            while i > 0 && !component_separator(b[i - 1], verbatim)
                invariant
                    i < j <= b@.len(),
                    t == b@.subrange(0, j as int),
                    file_name_start(t, verbatim) == file_name_start(
                        b@.subrange(0, i as int),
                        verbatim,
                    ),
                decreases i,
            {
                proof {
                    assert(b@.subrange(0, i as int).drop_last() =~= b@.subrange(0, i - 1));
                }
                i = i - 1;
            }
            assert(file_name_start(t, verbatim) == i);
            let ghost segment = t.subrange(i as int, j as int);
            assert(segment =~= b@.subrange(i as int, j as int));
            let is_dot = j - i == 1 && b[i] == '.';
            let is_dot_dot = j - i == 2 && b[i] == '.' && b[i + 1] == '.';
            proof {
                reveal_strlit(".");
                reveal_strlit("..");
                if is_dot {
                    assert(segment =~= "."@);
                } else if segment.len() == 1 {
                    assert(segment[0] != '.');
                    assert(segment != "."@);
                } else {
                    assert(segment.len() != "."@.len());
                }
                if is_dot_dot {
                    assert(segment =~= ".."@);
                } else if segment.len() == 2 {
                    assert(segment[0] != '.' || segment[1] != '.');
                    assert(segment != ".."@);
                } else {
                    assert(segment.len() != ".."@.len());
                }
            }
            if is_dot {
                if verbatim {
                    return None;
                }
                proof {
                    assert(t.subrange(0, i as int) =~= b@.subrange(0, i as int));
                }
                j = i;
            } else if is_dot_dot {
                return None;
            } else {
                return Some((i, j));
            }
        }
    }
}

/// The export format a chosen file path asks for.
pub fn export_format_for_path(path: &str) -> (f: DiagnosticExportFormat)
    ensures
        f == export_format_spec(path@),
{
    let chars = chars_of(path);
    let n = chars.len();
    let p = prefix_length(&chars);
    let verbatim = n >= 4 && chars[0] == '\\' && chars[1] == '\\' && chars[2] == '?' && chars[3]
        == '\\';
    let body = copy_range(&chars, p, n);
    let bounds = file_name_bounds(&body, verbatim);
    let (i, j) = match bounds {
        Some(range) => range,
        None => {
            assert(path_extension(path@) is None);
            return DiagnosticExportFormat::Csv;
        },
    };
    let name = copy_range(&body, i, j);
    let m = name.len();
    let mut dot: usize = m;
    let mut found = false;
    assert(name@.subrange(0, m as int) =~= name@);
    while dot > 0 && !found
        invariant
            m == name@.len(),
            0 <= dot <= m,
            !found ==> last_dot_from(name@, 0) == last_dot_from(name@.subrange(0, dot as int), 0),
            found ==> dot < m && last_dot_from(name@, 0) == dot && name@[dot as int] == '.',
        decreases dot + (if found {
            0int
        } else {
            1int
        }),
    {
        if name[dot - 1] == '.' {
            dot = dot - 1;
            found = true;
        } else {
            proof {
                assert(name@.subrange(0, dot as int).drop_last() =~= name@.subrange(0, dot - 1));
            }
            dot = dot - 1;
        }
    }
    if !found || dot == 0 {
        assert(path_extension(path@) is None);
        return DiagnosticExportFormat::Csv;
    }
    let ext = copy_range(&name, dot + 1, m);
    assert(path_extension(path@) == Some(ext@));
    let lower = ascii_lowercase(&ext);
    let is_tsv = lower.len() == 3 && lower[0] == 't' && lower[1] == 's' && lower[2] == 'v';
    proof {
        reveal_strlit("tsv");
        if is_tsv {
            assert(lower@ =~= "tsv"@);
        } else if lower@.len() == 3 {
            assert(lower@[0] != 't' || lower@[1] != 's' || lower@[2] != 'v');
            assert(lower@ != "tsv"@);
        }
    }
    if is_tsv {
        DiagnosticExportFormat::Tsv
    } else {
        DiagnosticExportFormat::Csv
    }
}

/// Which rows a copy or export takes.
#[derive(Clone, Copy, Debug, PartialEq, Eq, Structural)]
pub enum DiagnosticTransferSource {
    GridSelection,
    RangeSelection,
}

impl DiagnosticTransferSource {
    /// The name of the source in diagnostic details.
    pub fn label(self) -> (s: &'static str)
        ensures
            s@ == (match self {
                DiagnosticTransferSource::GridSelection => "grid-selection"@,
                DiagnosticTransferSource::RangeSelection => "range-selection"@,
            }),
    {
        match self {
            DiagnosticTransferSource::GridSelection => "grid-selection",
            DiagnosticTransferSource::RangeSelection => "range-selection",
        }
    }
}

/// A grid selection wins over a typed range; with neither there is nothing to transfer.
pub fn diagnostic_transfer_source(grid_selection_count: usize, range_selection_count: usize) -> (s:
    Option<DiagnosticTransferSource>)
    ensures
        s == (if grid_selection_count > 0 {
            Some(DiagnosticTransferSource::GridSelection)
        } else if range_selection_count > 0 {
            Some(DiagnosticTransferSource::RangeSelection)
        } else {
            None::<DiagnosticTransferSource>
        }),
{
    if grid_selection_count > 0 {
        Some(DiagnosticTransferSource::GridSelection)
    } else if range_selection_count > 0 {
        Some(DiagnosticTransferSource::RangeSelection)
    } else {
        None
    }
}

/// The counts a grid refresh records.
pub open spec fn grid_refresh_text(
    snapshot_rows: usize,
    inserted_rows: usize,
    item_count: isize,
    insert_failures: usize,
    set_text_failures: usize,
) -> Seq<char> {
    "snapshot_rows="@ + decimal(snapshot_rows as nat) + " inserted_rows="@ + decimal(
        inserted_rows as nat,
    ) + " item_count="@ + (if item_count < 0 {
        seq!['-'] + decimal((-item_count) as nat)
    } else {
        decimal(item_count as nat)
    }) + " insert_failures="@ + decimal(insert_failures as nat) + " set_text_failures="@
        + decimal(set_text_failures as nat)
}

/// The diagnostic details of one grid refresh.
pub fn diagnostic_grid_refresh_message(
    snapshot_rows: usize,
    inserted_rows: usize,
    item_count: isize,
    insert_failures: usize,
    set_text_failures: usize,
) -> (s: String)
    ensures
        s@ == grid_refresh_text(
            snapshot_rows,
            inserted_rows,
            item_count,
            insert_failures,
            set_text_failures,
        ),
{
    let mut s = String::from_str("snapshot_rows=");
    push_decimal(&mut s, snapshot_rows as u64);
    s.append(" inserted_rows=");
    push_decimal(&mut s, inserted_rows as u64);
    s.append(" item_count=");
    push_signed_decimal(&mut s, item_count);
    s.append(" insert_failures=");
    push_decimal(&mut s, insert_failures as u64);
    s.append(" set_text_failures=");
    push_decimal(&mut s, set_text_failures as u64);
    assert(s@ =~= grid_refresh_text(
        snapshot_rows,
        inserted_rows,
        item_count,
        insert_failures,
        set_text_failures,
    ));
    s
}

/// The values shown in the HUD.
pub struct DiagnosticHudFields<'a> {
    pub effective: &'a str,
    pub ownership: &'a str,
    pub power: &'a str,
    pub startup: &'a str,
    pub running_duration: &'a str,
    pub next_action: &'a str,
    pub history: &'a str,
    pub visible: usize,
    pub retained: usize,
    pub chain_status: &'a str,
    pub slot: &'a str,
    pub root: &'a str,
}

/// The five HUD lines, each ended by CR LF.
pub open spec fn hud_text(f: DiagnosticHudFields) -> Seq<char> {
    "Effective: "@ + f.effective@ + "  |  Ownership: "@ + f.ownership@ + "  |  Power: "@ + f.power@
        + "\r\nStartup: "@ + f.startup@ + "  |  Running: "@ + f.running_duration@ + "  |  Next: "@
        + f.next_action@ + "\r\nHistory: "@ + f.history@ + "  |  Showing "@ + decimal(
        f.visible as nat,
    ) + " of "@ + decimal(f.retained as nat) + " retained rows  |  Chain: "@ + f.chain_status@
        + "\r\nSlot: "@ + f.slot@ + "  |  Root: "@ + f.root@ + "\r\nTrue™ Tick v"@
        + PACKAGE_VERSION@ + " by kaiiuen  |  "@ + GITHUB_URL@ + "\r\n"@
}

/// The HUD text: effective timing, ownership and power; startup, running time and next action;
/// history and the visible row count; slot and root; then the version and project link.
pub fn diagnostic_hud_field_text(fields: DiagnosticHudFields) -> (s: String)
    ensures
        s@ == hud_text(fields),
{
    let mut s = String::from_str("Effective: ");
    s.append(fields.effective);
    s.append("  |  Ownership: ");
    s.append(fields.ownership);
    s.append("  |  Power: ");
    s.append(fields.power);
    s.append("\r\nStartup: ");
    s.append(fields.startup);
    s.append("  |  Running: ");
    s.append(fields.running_duration);
    s.append("  |  Next: ");
    s.append(fields.next_action);
    s.append("\r\nHistory: ");
    s.append(fields.history);
    s.append("  |  Showing ");
    push_decimal(&mut s, fields.visible as u64);
    s.append(" of ");
    push_decimal(&mut s, fields.retained as u64);
    s.append(" retained rows  |  Chain: ");
    s.append(fields.chain_status);
    s.append("\r\nSlot: ");
    s.append(fields.slot);
    s.append("  |  Root: ");
    s.append(fields.root);
    s.append("\r\nTrue™ Tick v");
    s.append(PACKAGE_VERSION);
    s.append(" by kaiiuen  |  ");
    s.append(GITHUB_URL);
    s.append("\r\n");
    assert(s@ =~= hud_text(fields));
    s
}

/// Whether the event snapshot differs from the one the grid shows.
pub fn diagnostic_data_snapshot_changed(
    previous: Option<(usize, u64)>,
    current: Option<(usize, u64)>,
) -> (b: bool)
    ensures
        b == (previous != current),
{
    match (previous, current) {
        (Some(p), Some(c)) => p.0 != c.0 || p.1 != c.1,
        (None, None) => false,
        _ => true,
    }
}

/// Columns auto-fit when the layout is not yet stable, or once for each new snapshot
/// generation.
pub fn diagnostic_auto_fit_once(
    layout_stable: bool,
    snapshot_changed: bool,
    generation: u64,
    fitted_generation: Option<u64>,
) -> (b: bool)
    ensures
        b == (!layout_stable || (snapshot_changed && fitted_generation != Some(generation))),
{
    let already_fitted = match fitted_generation {
        Some(g) => g == generation,
        None => false,
    };
    !layout_stable || (snapshot_changed && !already_fitted)
}

/// A refresh request is absorbed while one is pending or running.
pub fn diagnostic_refresh_is_coalesced(pending: bool, refreshing: bool) -> (b: bool)
    ensures
        b == (pending || refreshing),
{
    pending || refreshing
}

/// A refresh that recorded events of its own asks for one more pass, but a follow-up pass never
/// asks for another.
pub fn diagnostic_follow_up_needed(generated_direct_records: bool, follow_up_refresh: bool) -> (b:
    bool)
    ensures
        b == (generated_direct_records && !follow_up_refresh),
{
    generated_direct_records && !follow_up_refresh
}

/// Why the grid refreshes.
#[derive(Clone, Copy, Debug, PartialEq, Eq, Structural)]
pub enum DiagnosticRefreshReason {
    Initial,
    Data,
    View,
    Resize,
    Scroll,
}

/// Only the first render and new data may auto-fit columns; view changes, resizing and
/// scrolling keep the user's widths.
pub fn diagnostic_auto_fit_reason_allows(reason: DiagnosticRefreshReason) -> (b: bool)
    ensures
        b == (reason == DiagnosticRefreshReason::Initial || reason == DiagnosticRefreshReason::Data),
{
    matches!(reason, DiagnosticRefreshReason::Initial | DiagnosticRefreshReason::Data)
}

/// Whether the loading summary has visible text.
pub fn diagnostic_loading_summary_is_nonblank() -> (b: bool)
    ensures
        b == (trimmed(DIAGNOSTIC_LOADING_SUMMARY@).len() > 0),
{
    trim(DIAGNOSTIC_LOADING_SUMMARY).unicode_len() > 0
}

/// Whether a summary shows real data: not blank and not the loading text.
pub fn diagnostic_summary_is_non_loading(summary: &str) -> (b: bool)
    ensures
        b == (trimmed(summary@).len() > 0 && trimmed(summary@) != DIAGNOSTIC_LOADING_SUMMARY@),
{
    let t = trim(summary);
    if t.unicode_len() == 0 {
        return false;
    }
    let a = chars_of(t);
    let b = chars_of(DIAGNOSTIC_LOADING_SUMMARY);
    if a.len() != b.len() {
        return true;
    }
    let mut i: usize = 0;
    while i < a.len()
        invariant
            a@ == t@,
            t@ == trimmed(summary@),
            t@.len() > 0,
            b@ == DIAGNOSTIC_LOADING_SUMMARY@,
            a@.len() == b@.len(),
            0 <= i <= a@.len(),
            forall|k: int| 0 <= k < i ==> a@[k] == b@[k],
        decreases a@.len() - i,
    {
        if a[i] != b[i] {
            assert(a@[i as int] != b@[i as int]);
            assert(a@ != b@);
            return true;
        }
        i = i + 1;
    }
    assert(a@ =~= b@);
    false
}

/// The child controls invalidated after a batched redraw.
#[derive(Clone, Copy, Debug, PartialEq, Eq, Structural)]
pub enum DiagnosticChildRedrawTarget {
    HudState,
    Summary,
    HudSeparator,
    ToolbarSeparator,
    DisplayLabel,
    DisplayInput,
    ShowAllButton,
    CategoryFilter,
    SearchLabel,
    SearchInput,
    ToolbarLabel,
    SelectionSummary,
    RangeInput,
    CopyButton,
    ExportButton,
    ExportAllButton,
    Message,
    List,
}

/// Every child control, in creation order.
pub open spec fn redraw_targets_spec() -> Seq<DiagnosticChildRedrawTarget> {
    seq![
        DiagnosticChildRedrawTarget::HudState,
        DiagnosticChildRedrawTarget::Summary,
        DiagnosticChildRedrawTarget::HudSeparator,
        DiagnosticChildRedrawTarget::ToolbarSeparator,
        DiagnosticChildRedrawTarget::DisplayLabel,
        DiagnosticChildRedrawTarget::DisplayInput,
        DiagnosticChildRedrawTarget::ShowAllButton,
        DiagnosticChildRedrawTarget::CategoryFilter,
        DiagnosticChildRedrawTarget::SearchLabel,
        DiagnosticChildRedrawTarget::SearchInput,
        DiagnosticChildRedrawTarget::ToolbarLabel,
        DiagnosticChildRedrawTarget::SelectionSummary,
        DiagnosticChildRedrawTarget::RangeInput,
        DiagnosticChildRedrawTarget::CopyButton,
        DiagnosticChildRedrawTarget::ExportButton,
        DiagnosticChildRedrawTarget::ExportAllButton,
        DiagnosticChildRedrawTarget::Message,
        DiagnosticChildRedrawTarget::List,
    ]
}

/// The child controls a finished batched redraw invalidates: every one of them.
pub fn diagnostic_post_redraw_child_targets() -> (v: Vec<DiagnosticChildRedrawTarget>)
    ensures
        v@ == redraw_targets_spec(),
{
    let v = vec![
        DiagnosticChildRedrawTarget::HudState,
        DiagnosticChildRedrawTarget::Summary,
        DiagnosticChildRedrawTarget::HudSeparator,
        DiagnosticChildRedrawTarget::ToolbarSeparator,
        DiagnosticChildRedrawTarget::DisplayLabel,
        DiagnosticChildRedrawTarget::DisplayInput,
        DiagnosticChildRedrawTarget::ShowAllButton,
        DiagnosticChildRedrawTarget::CategoryFilter,
        DiagnosticChildRedrawTarget::SearchLabel,
        DiagnosticChildRedrawTarget::SearchInput,
        DiagnosticChildRedrawTarget::ToolbarLabel,
        DiagnosticChildRedrawTarget::SelectionSummary,
        DiagnosticChildRedrawTarget::RangeInput,
        DiagnosticChildRedrawTarget::CopyButton,
        DiagnosticChildRedrawTarget::ExportButton,
        DiagnosticChildRedrawTarget::ExportAllButton,
        DiagnosticChildRedrawTarget::Message,
        DiagnosticChildRedrawTarget::List,
    ];
    assert(v@ =~= redraw_targets_spec());
    v
}

/// Opening the logs or the diagnostic window completed when it opened and failed otherwise.
pub fn diagnostic_open_operation_outcome(opened: bool) -> (o: DiagnosticOutcome)
    ensures
        o == (if opened {
            DiagnosticOutcome::Completed
        } else {
            DiagnosticOutcome::Failed
        }),
{
    if opened {
        DiagnosticOutcome::Completed
    } else {
        DiagnosticOutcome::Failed
    }
}

/// The chain line of the HUD: verified, or the first row where the event chain broke.
pub open spec fn chain_status_spec(first_failure: Option<usize>) -> Seq<char> {
    match first_failure {
        Some(index) => "TAMPER/ERROR at row "@ + decimal(index as nat),
        None => "Verified (SHA-256)"@,
    }
}

/// The chain line of the HUD for the result of verifying the event chain: the index of the
/// first row that failed, or none.
pub fn diagnostic_chain_status_text(first_failure: Option<usize>) -> (s: String)
    ensures
        s@ == chain_status_spec(first_failure),
{
    match first_failure {
        Some(index) => {
            let mut s = String::from_str("TAMPER/ERROR at row ");
            push_decimal(&mut s, index as u64);
            s
        },
        None => String::from_str("Verified (SHA-256)"),
    }
}

/// The state line of the diagnostic window: the status menu's state line without its
/// "State: " prefix.
pub fn diagnostic_state_text(
    status: TrayStatus,
    timing: TimingValues,
    ownership: OwnershipState,
    scheduled: Option<ScheduledAction>,
    running_for: Option<u64>,
    now: u64,
) -> (s: String)
    ensures
        s@ == state_menu_text(status, timing, scheduled, now),
{
    let items = status_menu_items(status, timing, ownership, scheduled, running_for, now);
    let label = items[0].label.as_str();
    let prefix_len: usize = 7;
    proof {
        reveal_strlit("State: ");
        assert("State: "@.len() == 7);
    }
    let n = label.unicode_len();
    let rest = label.substring_char(prefix_len, n);
    assert(rest@ =~= state_menu_text(status, timing, scheduled, now));
    String::from_str(rest)
}

} // verus!
