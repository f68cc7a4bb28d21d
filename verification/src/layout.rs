//! Layout of the diagnostic window: the HUD, the one-row toolbar, the separators and the grid,
//! all derived from the client size and the DPI.
use vstd::prelude::*;

use crate::arith::{div_toward_zero, clamp_i32, max_int, min_int, sat_add, sat_sub, scale_logical, scale_logical_spec, max_i32, min_i32};
use crate::geometry::{Point, Rect};

verus! {

/// Logical (96 DPI) heights and widths of the diagnostic window parts.
pub const DIAGNOSTIC_SUMMARY_HEIGHT: i32 = 140;
pub const DIAGNOSTIC_HUD_STATE_HEIGHT: i32 = 32;
pub const DIAGNOSTIC_SEPARATOR_HEIGHT: i32 = 2;
pub const DIAGNOSTIC_TOOLBAR_HEIGHT: i32 = 36;
pub const DIAGNOSTIC_GRID_MIN_HEIGHT: i32 = 96;
pub const DIAGNOSTIC_TOOLBAR_MARGIN: i32 = 8;
pub const DIAGNOSTIC_TOOLBAR_GAP: i32 = 8;
pub const DIAGNOSTIC_TOOLBAR_MIN_MESSAGE_WIDTH: i32 = 140;
pub const DIAGNOSTIC_TOOLBAR_CONTROL_COUNT: usize = 12;
pub const DIAGNOSTIC_DEFAULT_WIDTH: i32 = 1_280;
pub const DIAGNOSTIC_DEFAULT_HEIGHT: i32 = 520;
/// The height of one toolbar row at 96 DPI.
pub const DIAGNOSTIC_TOOLBAR_ROW_HEIGHT: i32 = 24;

/// The logical width of each toolbar control, left to right: the display label and input, Show
/// all, the category filter, the search label and input, the transfer label, the range input, the
/// selection summary, Copy, Export and Export all.
pub open spec fn control_width_spec(index: int) -> int {
    if index == 0 {
        64
    } else if index == 1 {
        52
    } else if index == 2 {
        64
    } else if index == 3 {
        100
    } else if index == 4 {
        54
    } else if index == 5 {
        104
    } else if index == 6 {
        128
    } else if index == 7 {
        66
    } else if index == 8 {
        124
    } else if index == 9 {
        56
    } else if index == 10 {
        56
    } else {
        70
    }
}

/// The logical width of toolbar control `index`.
pub fn toolbar_control_width(index: usize) -> (w: i32)
    requires
        index < DIAGNOSTIC_TOOLBAR_CONTROL_COUNT,
    ensures
        w == control_width_spec(index as int),
{
    match index {
        0 => 64,
        1 => 52,
        2 => 64,
        3 => 100,
        4 => 54,
        5 => 104,
        6 => 128,
        7 => 66,
        8 => 124,
        9 => 56,
        10 => 56,
        _ => 70,
    }
}

/// A child control rectangle given by its left and top edges and its size.
#[derive(Clone, Copy, Debug, PartialEq, Eq, Structural)]
pub struct DiagnosticLayoutRect {
    pub left: i32,
    pub top: i32,
    pub width: i32,
    pub height: i32,
}

impl DiagnosticLayoutRect {
    /// The right edge, saturating.
    pub fn right(self) -> (r: i32)
        ensures
            r == clamp_i32(self.left + self.width),
    {
        sat_add(self.left, self.width)
    }

    /// The bottom edge, saturating.
    pub fn bottom(self) -> (b: i32)
        ensures
            b == clamp_i32(self.top + self.height),
    {
        sat_add(self.top, self.height)
    }
}

/// The toolbar controls in their left-to-right order, and the message area after them.
#[derive(Clone, Copy, Debug, PartialEq, Eq, Structural)]
pub struct DiagnosticToolbarLayout {
    pub display_label: DiagnosticLayoutRect,
    pub display_input: DiagnosticLayoutRect,
    pub show_all: DiagnosticLayoutRect,
    pub category_filter: DiagnosticLayoutRect,
    pub search_label: DiagnosticLayoutRect,
    pub search_input: DiagnosticLayoutRect,
    pub transfer_label: DiagnosticLayoutRect,
    pub range_input: DiagnosticLayoutRect,
    pub selection_summary: DiagnosticLayoutRect,
    pub copy: DiagnosticLayoutRect,
    pub export: DiagnosticLayoutRect,
    pub export_all: DiagnosticLayoutRect,
    pub message: DiagnosticLayoutRect,
}

/// The whole diagnostic window layout, top to bottom.
#[derive(Clone, Copy, Debug, PartialEq, Eq, Structural)]
pub struct DiagnosticLayout {
    pub hud_state: DiagnosticLayoutRect,
    pub summary: DiagnosticLayoutRect,
    pub hud_separator: DiagnosticLayoutRect,
    pub toolbar: DiagnosticToolbarLayout,
    pub toolbar_separator: DiagnosticLayoutRect,
    pub list: DiagnosticLayoutRect,
}

/// The DPI the layout uses: at least 96.
pub open spec fn effective_dpi(dpi: u32) -> int {
    if dpi < 96 {
        96
    } else {
        dpi as int
    }
}

/// A logical length at the layout DPI.
pub open spec fn scaled(value: int, dpi: u32) -> int {
    scale_logical_spec(value, effective_dpi(dpi))
}

/// The left edge of toolbar control `k`: the margin, then each earlier control's width and one
/// gap, all added with saturation.
pub open spec fn toolbar_cursor(dpi: u32, k: nat) -> int
    decreases k,
{
    if k == 0 {
        scaled(DIAGNOSTIC_TOOLBAR_MARGIN as int, dpi)
    } else {
        clamp_i32(
            clamp_i32(
                toolbar_cursor(dpi, (k - 1) as nat) + scaled(control_width_spec(k - 1), dpi),
            ) + scaled(DIAGNOSTIC_TOOLBAR_GAP as int, dpi),
        )
    }
}

/// The height of the toolbar row: 24 logical pixels, at most the toolbar height.
pub open spec fn toolbar_row_height(height: int, dpi: u32) -> int {
    min_int(scaled(DIAGNOSTIC_TOOLBAR_ROW_HEIGHT as int, dpi), max_int(height, 0))
}

/// The top of the toolbar row, centered in the toolbar band.
pub open spec fn toolbar_row_top(top: int, height: int, dpi: u32) -> int {
    clamp_i32(top + div_toward_zero(clamp_i32(height - toolbar_row_height(height, dpi)), 2))
}

/// The rectangle of toolbar control `k`.
pub open spec fn toolbar_control_rect(top: int, height: int, dpi: u32, k: nat) -> DiagnosticLayoutRect {
    DiagnosticLayoutRect {
        left: toolbar_cursor(dpi, k) as i32,
        top: toolbar_row_top(top, height, dpi) as i32,
        width: scaled(control_width_spec(k as int), dpi) as i32,
        height: toolbar_row_height(height, dpi) as i32,
    }
}

/// The message area: after the last control, to the right margin, but never narrower than its
/// minimum width.
pub open spec fn toolbar_message_rect(width: int, top: int, height: int, dpi: u32) -> DiagnosticLayoutRect {
    let left = toolbar_cursor(dpi, 12);
    DiagnosticLayoutRect {
        left: left as i32,
        top: toolbar_row_top(top, height, dpi) as i32,
        width: max_int(
            clamp_i32(clamp_i32(width - left) - scaled(DIAGNOSTIC_TOOLBAR_MARGIN as int, dpi)),
            scaled(DIAGNOSTIC_TOOLBAR_MIN_MESSAGE_WIDTH as int, dpi),
        ) as i32,
        height: toolbar_row_height(height, dpi) as i32,
    }
}

/// The toolbar laid out in one row from the left margin.
pub open spec fn toolbar_layout_spec(width: int, top: int, height: int, dpi: u32) -> DiagnosticToolbarLayout {
    DiagnosticToolbarLayout {
        display_label: toolbar_control_rect(top, height, dpi, 0),
        display_input: toolbar_control_rect(top, height, dpi, 1),
        show_all: toolbar_control_rect(top, height, dpi, 2),
        category_filter: toolbar_control_rect(top, height, dpi, 3),
        search_label: toolbar_control_rect(top, height, dpi, 4),
        search_input: toolbar_control_rect(top, height, dpi, 5),
        transfer_label: toolbar_control_rect(top, height, dpi, 6),
        range_input: toolbar_control_rect(top, height, dpi, 7),
        selection_summary: toolbar_control_rect(top, height, dpi, 8),
        copy: toolbar_control_rect(top, height, dpi, 9),
        export: toolbar_control_rect(top, height, dpi, 10),
        export_all: toolbar_control_rect(top, height, dpi, 11),
        message: toolbar_message_rect(width, top, height, dpi),
    }
}

fn layout_dpi(dpi: u32) -> (d: u32)
    ensures
        d == effective_dpi(dpi),
{
    if dpi < 96 {
        96
    } else {
        dpi
    }
}

/// Places the next toolbar control at `cursor` and advances the cursor past it and one gap.
fn place_control(
    cursor: &mut i32,
    dpi: u32,
    index: usize,
    row_top: i32,
    row_height: i32,
    gap: i32,
) -> (rect: DiagnosticLayoutRect)
    requires
        index < DIAGNOSTIC_TOOLBAR_CONTROL_COUNT,
        *old(cursor) == toolbar_cursor(dpi, index as nat),
        gap == scaled(DIAGNOSTIC_TOOLBAR_GAP as int, dpi),
    ensures
        *final(cursor) == toolbar_cursor(dpi, (index + 1) as nat),
        rect == (DiagnosticLayoutRect {
            left: *old(cursor),
            top: row_top,
            width: scaled(control_width_spec(index as int), dpi) as i32,
            height: row_height,
        }),
{
    let width = scale_logical(toolbar_control_width(index), layout_dpi(dpi));
    let rect = DiagnosticLayoutRect { left: *cursor, top: row_top, width, height: row_height };
    *cursor = sat_add(sat_add(*cursor, width), gap);
    rect
}

/// Lays out the toolbar band of width `width` starting at `top` with height `height`.
pub fn diagnostic_toolbar_layout(width: i32, top: i32, height: i32, dpi: u32) -> (layout:
    DiagnosticToolbarLayout)
    ensures
        layout == toolbar_layout_spec(width as int, top as int, height as int, dpi),
{
    let d = layout_dpi(dpi);
    let row_height = min_i32(scale_logical(DIAGNOSTIC_TOOLBAR_ROW_HEIGHT, d), max_i32(height, 0));
    let row_top = sat_add(top, sat_sub(height, row_height) / 2);
    let gap = scale_logical(DIAGNOSTIC_TOOLBAR_GAP, d);
    let margin = scale_logical(DIAGNOSTIC_TOOLBAR_MARGIN, d);
    let mut cursor = margin;
    let display_label = place_control(&mut cursor, dpi, 0, row_top, row_height, gap);
    let display_input = place_control(&mut cursor, dpi, 1, row_top, row_height, gap);
    let show_all = place_control(&mut cursor, dpi, 2, row_top, row_height, gap);
    let category_filter = place_control(&mut cursor, dpi, 3, row_top, row_height, gap);
    let search_label = place_control(&mut cursor, dpi, 4, row_top, row_height, gap);
    let search_input = place_control(&mut cursor, dpi, 5, row_top, row_height, gap);
    let transfer_label = place_control(&mut cursor, dpi, 6, row_top, row_height, gap);
    let range_input = place_control(&mut cursor, dpi, 7, row_top, row_height, gap);
    let selection_summary = place_control(&mut cursor, dpi, 8, row_top, row_height, gap);
    let copy = place_control(&mut cursor, dpi, 9, row_top, row_height, gap);
    let export = place_control(&mut cursor, dpi, 10, row_top, row_height, gap);
    let export_all = place_control(&mut cursor, dpi, 11, row_top, row_height, gap);
    let message_left = cursor;
    let message_width = max_i32(
        sat_sub(sat_sub(width, message_left), margin),
        scale_logical(DIAGNOSTIC_TOOLBAR_MIN_MESSAGE_WIDTH, d),
    );
    let message = DiagnosticLayoutRect {
        left: message_left,
        top: row_top,
        width: message_width,
        height: row_height,
    };
    DiagnosticToolbarLayout {
        display_label,
        display_input,
        show_all,
        category_filter,
        search_label,
        search_input,
        transfer_label,
        range_input,
        selection_summary,
        copy,
        export,
        export_all,
        message,
    }
}

/// The sum of the logical toolbar control widths.
pub open spec fn control_widths_total() -> int {
    938int
}

/// The narrowest client width that fits the toolbar in one row: both margins, every control
/// with its gap, and the minimum message width, scaled to the DPI.
pub fn diagnostic_toolbar_min_width(dpi: u32) -> (w: i32)
    ensures
        w == scaled(
            DIAGNOSTIC_TOOLBAR_MARGIN * 2 + control_widths_total() + 12 * DIAGNOSTIC_TOOLBAR_GAP
                + DIAGNOSTIC_TOOLBAR_MIN_MESSAGE_WIDTH,
            dpi,
        ),
{
    let mut fixed_width: i32 = 0;
    let mut i: usize = 0;
    while i < DIAGNOSTIC_TOOLBAR_CONTROL_COUNT
        invariant
            0 <= i <= DIAGNOSTIC_TOOLBAR_CONTROL_COUNT,
            fixed_width == widths_prefix(i as nat),
            0 <= fixed_width <= 128 * i,
        decreases DIAGNOSTIC_TOOLBAR_CONTROL_COUNT - i,
    {
        fixed_width = fixed_width + toolbar_control_width(i);
        i = i + 1;
    }
    assert(widths_prefix(12) == control_widths_total()) by {
        assert(widths_prefix(0) == 0);
        assert(widths_prefix(1) == 64);
        assert(widths_prefix(2) == 116);
        assert(widths_prefix(3) == 180);
        assert(widths_prefix(4) == 280);
        assert(widths_prefix(5) == 334);
        assert(widths_prefix(6) == 438);
        assert(widths_prefix(7) == 566);
        assert(widths_prefix(8) == 632);
        assert(widths_prefix(9) == 756);
        assert(widths_prefix(10) == 812);
        assert(widths_prefix(11) == 868);
        assert(widths_prefix(12) == 938);
    }
    let gaps: i32 = 12 * DIAGNOSTIC_TOOLBAR_GAP;
    scale_logical(
        DIAGNOSTIC_TOOLBAR_MARGIN * 2 + fixed_width + gaps + DIAGNOSTIC_TOOLBAR_MIN_MESSAGE_WIDTH,
        layout_dpi(dpi),
    )
}

/// The sum of the first `k` logical control widths.
pub open spec fn widths_prefix(k: nat) -> int
    decreases k,
{
    if k == 0 {
        0
    } else {
        widths_prefix((k - 1) as nat) + control_width_spec(k - 1)
    }
}

/// The shortest client height that keeps the summary, the toolbar, both separators and the
/// minimum grid visible, scaled to the DPI.
pub fn diagnostic_min_client_height(dpi: u32) -> (h: i32)
    ensures
        h == scaled(
            DIAGNOSTIC_SUMMARY_HEIGHT + DIAGNOSTIC_SEPARATOR_HEIGHT + DIAGNOSTIC_TOOLBAR_HEIGHT
                + DIAGNOSTIC_SEPARATOR_HEIGHT + DIAGNOSTIC_GRID_MIN_HEIGHT,
            dpi,
        ),
{
    scale_logical(
        DIAGNOSTIC_SUMMARY_HEIGHT + DIAGNOSTIC_SEPARATOR_HEIGHT + DIAGNOSTIC_TOOLBAR_HEIGHT
            + DIAGNOSTIC_SEPARATOR_HEIGHT + DIAGNOSTIC_GRID_MIN_HEIGHT,
        layout_dpi(dpi),
    )
}

/// The outer window size of an adjusted frame, which already contains the client area; negative
/// extents count as zero.
pub fn outer_size_from_client(client_width: i32, client_height: i32, frame: Rect) -> (p: Point)
    requires
        i32::MIN <= frame.right - frame.left <= i32::MAX,
        i32::MIN <= frame.bottom - frame.top <= i32::MAX,
    ensures
        p.x == max_int(frame.right - frame.left, 0),
        p.y == max_int(frame.bottom - frame.top, 0),
{
    Point { x: max_i32(frame.right - frame.left, 0), y: max_i32(frame.bottom - frame.top, 0) }
}

/// The outer size limited to the work area, but never below 320 by 240.
pub fn clamp_outer_to_work_area(outer: Point, work_width: i32, work_height: i32) -> (p: Point)
    ensures
        p.x == max_int(min_int(outer.x as int, max_int(work_width as int, 320)), 320),
        p.y == max_int(min_int(outer.y as int, max_int(work_height as int, 240)), 240),
{
    let safe_width = max_i32(work_width, 320);
    let safe_height = max_i32(work_height, 240);
    Point { x: max_i32(min_i32(outer.x, safe_width), 320), y: max_i32(min_i32(outer.y, safe_height), 240) }
}

/// The HUD height actually used: the scaled summary height, reduced so that both separators,
/// the toolbar and the minimum grid still fit in `height`.
pub open spec fn hud_height_spec(height: int, dpi: u32) -> int {
    let sep = scaled(DIAGNOSTIC_SEPARATOR_HEIGHT as int, dpi);
    let available = max_int(
        clamp_i32(
            clamp_i32(
                clamp_i32(clamp_i32(height - sep) - scaled(DIAGNOSTIC_TOOLBAR_HEIGHT as int, dpi))
                    - sep,
            ) - scaled(DIAGNOSTIC_GRID_MIN_HEIGHT as int, dpi),
        ),
        0,
    );
    min_int(scaled(DIAGNOSTIC_SUMMARY_HEIGHT as int, dpi), available)
}

/// The diagnostic window layout for a client of `width` by `height` at `dpi`.
pub open spec fn layout_spec(width: int, height: int, dpi: u32) -> DiagnosticLayout {
    let margin = scaled(DIAGNOSTIC_TOOLBAR_MARGIN as int, dpi);
    let double_margin = scaled((DIAGNOSTIC_TOOLBAR_MARGIN * 2) as int, dpi);
    let state_height = scaled(DIAGNOSTIC_HUD_STATE_HEIGHT as int, dpi);
    let sep = scaled(DIAGNOSTIC_SEPARATOR_HEIGHT as int, dpi);
    let toolbar_height = scaled(DIAGNOSTIC_TOOLBAR_HEIGHT as int, dpi);
    let hud_height = hud_height_spec(height, dpi);
    let toolbar_top = clamp_i32(hud_height + sep);
    let toolbar_separator_top = clamp_i32(toolbar_top + toolbar_height);
    let list_top = clamp_i32(toolbar_separator_top + sep);
    let inner_width = max_int(clamp_i32(width - double_margin), 0);
    DiagnosticLayout {
        hud_state: DiagnosticLayoutRect {
            left: margin as i32,
            top: margin as i32,
            width: inner_width as i32,
            height: state_height as i32,
        },
        summary: DiagnosticLayoutRect {
            left: margin as i32,
            top: clamp_i32(state_height + margin) as i32,
            width: inner_width as i32,
            height: max_int(clamp_i32(clamp_i32(hud_height - state_height) - double_margin), 0)
                as i32,
        },
        hud_separator: DiagnosticLayoutRect {
            left: 0,
            top: hud_height as i32,
            width: max_int(width, 0) as i32,
            height: sep as i32,
        },
        toolbar: toolbar_layout_spec(width, toolbar_top, toolbar_height, dpi),
        toolbar_separator: DiagnosticLayoutRect {
            left: 0,
            top: toolbar_separator_top as i32,
            width: max_int(width, 0) as i32,
            height: sep as i32,
        },
        list: DiagnosticLayoutRect {
            left: 0,
            top: list_top as i32,
            width: max_int(width, 0) as i32,
            height: max_int(clamp_i32(height - list_top), 0) as i32,
        },
    }
}

/// Lays out the diagnostic window client area.
pub fn diagnostic_layout(width: i32, height: i32, dpi: u32) -> (layout: DiagnosticLayout)
    ensures
        layout == layout_spec(width as int, height as int, dpi),
{
    let d = layout_dpi(dpi);
    let hud_height = scale_logical(DIAGNOSTIC_SUMMARY_HEIGHT, d);
    let state_height = scale_logical(DIAGNOSTIC_HUD_STATE_HEIGHT, d);
    let separator_height = scale_logical(DIAGNOSTIC_SEPARATOR_HEIGHT, d);
    let toolbar_height = scale_logical(DIAGNOSTIC_TOOLBAR_HEIGHT, d);
    let grid_minimum = scale_logical(DIAGNOSTIC_GRID_MIN_HEIGHT, d);
    let available_hud = max_i32(
        sat_sub(
            sat_sub(sat_sub(sat_sub(height, separator_height), toolbar_height), separator_height),
            grid_minimum,
        ),
        0,
    );
    let hud_height = min_i32(hud_height, available_hud);
    let hud_separator_top = hud_height;
    let toolbar_top = sat_add(hud_separator_top, separator_height);
    let toolbar_separator_top = sat_add(toolbar_top, toolbar_height);
    let list_top = sat_add(toolbar_separator_top, separator_height);
    let margin = scale_logical(DIAGNOSTIC_TOOLBAR_MARGIN, d);
    let double_margin = scale_logical(DIAGNOSTIC_TOOLBAR_MARGIN * 2, d);
    let inner_width = max_i32(sat_sub(width, double_margin), 0);
    let full_width = max_i32(width, 0);
    DiagnosticLayout {
        hud_state: DiagnosticLayoutRect {
            left: margin,
            top: margin,
            width: inner_width,
            height: state_height,
        },
        summary: DiagnosticLayoutRect {
            left: margin,
            top: sat_add(state_height, margin),
            width: inner_width,
            height: max_i32(sat_sub(sat_sub(hud_height, state_height), double_margin), 0),
        },
        hud_separator: DiagnosticLayoutRect {
            left: 0,
            top: hud_separator_top,
            width: full_width,
            height: separator_height,
        },
        toolbar: diagnostic_toolbar_layout(width, toolbar_top, toolbar_height, dpi),
        toolbar_separator: DiagnosticLayoutRect {
            left: 0,
            top: toolbar_separator_top,
            width: full_width,
            height: separator_height,
        },
        list: DiagnosticLayoutRect {
            left: 0,
            top: list_top,
            width: full_width,
            height: max_i32(sat_sub(height, list_top), 0),
        },
    }
}

/// A layout step may position a child only when the child window exists and its rectangle has
/// area.
pub fn diagnostic_layout_guard_allows(rect: DiagnosticLayoutRect, is_window: bool) -> (b: bool)
    ensures
        b == (is_window && rect.width > 0 && rect.height > 0),
{
    is_window && rect.width > 0 && rect.height > 0
}

/// Applies positioning results in order and stops at the first failure: the number applied
/// before it, and whether all succeeded.
pub fn diagnostic_layout_stops_on_first_failure(position_ok: &[bool]) -> (r: (usize, bool))
    ensures
        r.1 == (forall|i: int| 0 <= i < position_ok@.len() ==> position_ok@[i]),
        r.1 ==> r.0 == position_ok@.len(),
        !r.1 ==> {
            &&& r.0 < position_ok@.len()
            &&& !position_ok@[r.0 as int]
            &&& forall|i: int| 0 <= i < r.0 ==> position_ok@[i]
        },
{
    let mut applied: usize = 0;
    while applied < position_ok.len()
        invariant
            0 <= applied <= position_ok@.len(),
            forall|i: int| 0 <= i < applied ==> position_ok@[i],
        decreases position_ok@.len() - applied,
    {
        if !position_ok[applied] {
            return (applied, false);
        }
        applied = applied + 1;
    }
    (applied, true)
}

/// A nonnegative logical length stays nonnegative and within `i32` when scaled to a DPI that an
/// `i32` can hold.
pub proof fn lemma_scaled_nonnegative(value: int, dpi: u32)
    requires
        0 <= value <= i32::MAX,
        dpi <= i32::MAX,
    ensures
        0 <= scaled(value, dpi) <= i32::MAX,
{
    let d = effective_dpi(dpi);
    assert((d as i32) == d);
    assert(0 <= value * d) by (nonlinear_arith)
        requires
            0 <= value,
            0 <= d,
    ;
}

/// Every toolbar control starts at or after the right edge of the one before it, the message
/// area starts at or after the last control, every control shares one row, and the message area
/// is never narrower than its scaled minimum.
pub proof fn lemma_toolbar_flows_left_to_right(width: int, top: int, height: int, dpi: u32)
    requires
        dpi <= i32::MAX,
    ensures
        forall|k: nat|
            k < 11 ==> clamp_i32(
                (#[trigger] toolbar_control_rect(top, height, dpi, k)).left as int + toolbar_control_rect(
                    top,
                    height,
                    dpi,
                    k,
                ).width as int,
            ) <= toolbar_control_rect(top, height, dpi, k + 1).left,
        clamp_i32(
            toolbar_control_rect(top, height, dpi, 11).left as int + toolbar_control_rect(
                top,
                height,
                dpi,
                11,
            ).width as int,
        ) <= toolbar_message_rect(width, top, height, dpi).left,
        forall|k: nat|
            k < 12 ==> (#[trigger] toolbar_control_rect(top, height, dpi, k)).top
                == toolbar_message_rect(width, top, height, dpi).top && toolbar_control_rect(
                top,
                height,
                dpi,
                k,
            ).height == toolbar_message_rect(width, top, height, dpi).height,
        toolbar_message_rect(width, top, height, dpi).width >= scaled(
            DIAGNOSTIC_TOOLBAR_MIN_MESSAGE_WIDTH as int,
            dpi,
        ),
{
    assert forall|k: nat| k < 12 implies i32::MIN <= #[trigger] toolbar_cursor(dpi, k)
        <= i32::MAX && 0 <= scaled(control_width_spec(k as int), dpi) <= i32::MAX by {
        lemma_cursor_in_range(dpi, k);
        lemma_scaled_nonnegative(control_width_spec(k as int), dpi);
    }
    lemma_cursor_in_range(dpi, 12);
    lemma_scaled_nonnegative(DIAGNOSTIC_TOOLBAR_GAP as int, dpi);
    lemma_scaled_nonnegative(DIAGNOSTIC_TOOLBAR_MIN_MESSAGE_WIDTH as int, dpi);
    assert forall|k: nat| k < 11 implies clamp_i32(
        (#[trigger] toolbar_control_rect(top, height, dpi, k)).left as int + toolbar_control_rect(
            top,
            height,
            dpi,
            k,
        ).width as int,
    ) <= toolbar_control_rect(top, height, dpi, k + 1).left by {
        lemma_cursor_in_range(dpi, k);
        lemma_cursor_in_range(dpi, k + 1);
        lemma_scaled_nonnegative(control_width_spec(k as int), dpi);
    }
    lemma_cursor_in_range(dpi, 11);
    lemma_scaled_nonnegative(control_width_spec(11), dpi);
}

/// Every toolbar cursor is an `i32` value.
pub proof fn lemma_cursor_in_range(dpi: u32, k: nat)
    requires
        dpi <= i32::MAX,
    ensures
        i32::MIN <= toolbar_cursor(dpi, k) <= i32::MAX,
    decreases k,
{
    if k == 0 {
        lemma_scaled_nonnegative(DIAGNOSTIC_TOOLBAR_MARGIN as int, dpi);
    } else {
        lemma_cursor_in_range(dpi, (k - 1) as nat);
    }
}

/// A logical length of at most 140 pixels scaled to a DPI of at most 4800: the rounded-up
/// scale, between 0 and 50 times the length plus one.
pub proof fn lemma_scaled_small(value: int, dpi: u32)
    requires
        0 <= value <= 140,
        dpi <= 4_800,
    ensures
        scaled(value, dpi) == (value * effective_dpi(dpi) + 95) / 96,
        0 <= scaled(value, dpi) <= 50 * value + 1,
{
    let d = effective_dpi(dpi);
    assert((d as i32) == d);
    assert(0 <= value * d <= 50 * value * 96) by (nonlinear_arith)
        requires
            0 <= value <= 140,
            96 <= d <= 4_800,
    ;
    assert(value * d <= 672_000) by (nonlinear_arith)
        requires
            0 <= value <= 140,
            96 <= d <= 4_800,
    ;
    assert((value * d + 95) / 96 <= 50 * value + 1) by (nonlinear_arith)
        requires
            0 <= value * d <= 50 * value * 96,
    ;
}

/// The left edge of toolbar control `k` in closed form: the margin, then each earlier control's
/// scaled width and one scaled gap.
pub open spec fn toolbar_left_sum(dpi: u32, k: nat) -> int
    decreases k,
{
    if k == 0 {
        scaled(DIAGNOSTIC_TOOLBAR_MARGIN as int, dpi)
    } else {
        toolbar_left_sum(dpi, (k - 1) as nat) + scaled(control_width_spec(k - 1), dpi) + scaled(
            DIAGNOSTIC_TOOLBAR_GAP as int,
            dpi,
        )
    }
}

/// Below 4800 DPI no toolbar cursor saturates: each is the closed-form sum, at most 401 plus
/// 6802 per earlier control.
pub proof fn lemma_toolbar_cursor_is_sum(dpi: u32, k: nat)
    requires
        dpi <= 4_800,
        k <= 12,
    ensures
        toolbar_cursor(dpi, k) == toolbar_left_sum(dpi, k),
        0 <= toolbar_left_sum(dpi, k) <= 401 + 6_802 * k,
    decreases k,
{
    lemma_scaled_small(DIAGNOSTIC_TOOLBAR_MARGIN as int, dpi);
    if k > 0 {
        lemma_toolbar_cursor_is_sum(dpi, (k - 1) as nat);
        lemma_scaled_small(control_width_spec(k - 1), dpi);
        lemma_scaled_small(DIAGNOSTIC_TOOLBAR_GAP as int, dpi);
    }
}

/// For every toolbar band of up to 100 000 pixels at up to 4800 DPI: every control and the
/// message area have the row height (24 scaled pixels, at most the band height) and are centred
/// in the band; each of the twelve controls has its scaled width and starts at the margin plus
/// the scaled widths and gaps of the controls before it; the message area starts after the last
/// control and takes the remaining width up to the right margin, never less than its scaled
/// minimum.
pub proof fn lemma_toolbar_layout_closed_form(width: int, top: int, height: int, dpi: u32)
    requires
        0 <= width <= 100_000,
        0 <= top <= 100_000,
        0 <= height <= 100_000,
        dpi <= 4_800,
    ensures
        ({
            let h = min_int(scaled(DIAGNOSTIC_TOOLBAR_ROW_HEIGHT as int, dpi), height);
            &&& forall|k: nat|
                k < 12 ==> {
                    &&& (#[trigger] toolbar_control_rect(top, height, dpi, k)).height == h
                    &&& toolbar_control_rect(top, height, dpi, k).top == top + (height - h) / 2
                    &&& toolbar_control_rect(top, height, dpi, k).width == scaled(
                        control_width_spec(k as int),
                        dpi,
                    )
                    &&& toolbar_control_rect(top, height, dpi, k).left == toolbar_left_sum(dpi, k)
                }
            &&& toolbar_message_rect(width, top, height, dpi).height == h
            &&& toolbar_message_rect(width, top, height, dpi).top == top + (height - h) / 2
            &&& toolbar_message_rect(width, top, height, dpi).left == toolbar_left_sum(dpi, 12)
            &&& toolbar_message_rect(width, top, height, dpi).width == max_int(
                width - toolbar_left_sum(dpi, 12) - scaled(DIAGNOSTIC_TOOLBAR_MARGIN as int, dpi),
                scaled(DIAGNOSTIC_TOOLBAR_MIN_MESSAGE_WIDTH as int, dpi),
            )
        }),
{
    lemma_scaled_small(DIAGNOSTIC_TOOLBAR_ROW_HEIGHT as int, dpi);
    lemma_scaled_small(DIAGNOSTIC_TOOLBAR_MARGIN as int, dpi);
    lemma_scaled_small(DIAGNOSTIC_TOOLBAR_MIN_MESSAGE_WIDTH as int, dpi);
    lemma_toolbar_cursor_is_sum(dpi, 12);
    assert forall|k: nat| k < 12 implies {
        &&& (#[trigger] toolbar_control_rect(top, height, dpi, k)).width == scaled(
            control_width_spec(k as int),
            dpi,
        )
        &&& toolbar_control_rect(top, height, dpi, k).left == toolbar_left_sum(dpi, k)
    } by {
        lemma_toolbar_cursor_is_sum(dpi, k);
        lemma_scaled_small(control_width_spec(k as int), dpi);
    }
}

/// For every client of up to 100 000 by 100 000 pixels at up to 4800 DPI: the HUD separator is
/// no lower than the scaled summary height, the toolbar separator follows it by one scaled
/// separator and the scaled toolbar height, the grid starts one scaled separator lower and
/// spans the full width, and when the client is tall enough for both separators, the toolbar
/// and the minimum grid, the grid reaches the bottom and is at least the scaled minimum tall.
pub proof fn lemma_layout_stacks_top_to_bottom(width: int, height: int, dpi: u32)
    requires
        0 <= width <= 100_000,
        0 <= height <= 100_000,
        dpi <= 4_800,
    ensures
        ({
            let l = layout_spec(width, height, dpi);
            let sep = scaled(DIAGNOSTIC_SEPARATOR_HEIGHT as int, dpi);
            let toolbar = scaled(DIAGNOSTIC_TOOLBAR_HEIGHT as int, dpi);
            let grid = scaled(DIAGNOSTIC_GRID_MIN_HEIGHT as int, dpi);
            &&& 0 <= l.hud_separator.top <= scaled(DIAGNOSTIC_SUMMARY_HEIGHT as int, dpi)
            &&& l.toolbar_separator.top == l.hud_separator.top + sep + toolbar
            &&& l.list.top == l.toolbar_separator.top + sep
            &&& l.list.width == width
            &&& height >= 2 * sep + toolbar + grid ==> {
                &&& l.list.top + l.list.height == height
                &&& l.list.height >= grid
            }
        }),
{
    lemma_scaled_small(DIAGNOSTIC_SUMMARY_HEIGHT as int, dpi);
    lemma_scaled_small(DIAGNOSTIC_SEPARATOR_HEIGHT as int, dpi);
    lemma_scaled_small(DIAGNOSTIC_TOOLBAR_HEIGHT as int, dpi);
    lemma_scaled_small(DIAGNOSTIC_GRID_MIN_HEIGHT as int, dpi);
    let hud = hud_height_spec(height, dpi);
    assert(0 <= hud <= scaled(DIAGNOSTIC_SUMMARY_HEIGHT as int, dpi));
}

/// The number of grid columns; the last one holds the event details.
pub const DIAGNOSTIC_COLUMN_COUNT: usize = 11;

/// The logical minimum width of each grid column.
pub open spec fn column_min_spec(index: int) -> int {
    if index == 0 {
        36
    } else if index == 1 {
        52
    } else if index == 2 {
        64
    } else if index == 3 {
        64
    } else if index == 4 {
        52
    } else if index == 5 {
        64
    } else if index == 6 {
        60
    } else if index == 7 {
        68
    } else if index == 8 {
        64
    } else if index == 9 {
        84
    } else {
        240
    }
}

/// The logical maximum width of each grid column.
pub open spec fn column_max_spec(index: int) -> int {
    if index == 0 {
        84
    } else if index == 1 {
        120
    } else if index == 2 {
        140
    } else if index == 3 {
        144
    } else if index == 4 {
        120
    } else if index == 5 {
        144
    } else if index == 6 {
        112
    } else if index == 7 {
        124
    } else if index == 8 {
        124
    } else if index == 9 {
        260
    } else {
        640
    }
}

/// The logical minimum width of grid column `index`.
pub fn diagnostic_column_min_width(index: usize) -> (w: i32)
    requires
        index < DIAGNOSTIC_COLUMN_COUNT,
    ensures
        w == column_min_spec(index as int),
{
    match index {
        0 => 36,
        1 => 52,
        2 => 64,
        3 => 64,
        4 => 52,
        5 => 64,
        6 => 60,
        7 => 68,
        8 => 64,
        9 => 84,
        _ => 240,
    }
}

/// The logical maximum width of grid column `index`.
pub fn diagnostic_column_max_width(index: usize) -> (w: i32)
    requires
        index < DIAGNOSTIC_COLUMN_COUNT,
    ensures
        w == column_max_spec(index as int),
{
    match index {
        0 => 84,
        1 => 120,
        2 => 140,
        3 => 144,
        4 => 120,
        5 => 144,
        6 => 112,
        7 => 124,
        8 => 124,
        9 => 260,
        _ => 640,
    }
}

/// Whether each column's scaled minimum is at most its scaled maximum at `dpi`, so that
/// clamping a width between them is defined.
pub open spec fn column_bounds_ordered(dpi: u32) -> bool {
    forall|i: int|
        0 <= i < DIAGNOSTIC_COLUMN_COUNT ==> scale_logical_spec(column_min_spec(i), dpi as int)
            <= scale_logical_spec(column_max_spec(i), dpi as int)
}

/// A width kept between the scaled bounds of column `index`.
pub open spec fn clamped_column(width: int, index: int, dpi: u32) -> int {
    min_int(
        max_int(width, scale_logical_spec(column_min_spec(index), dpi as int)),
        scale_logical_spec(column_max_spec(index), dpi as int),
    )
}

/// The sum, saturating, of the first `k` clamped fixed-column widths.
pub open spec fn fixed_columns_total(widths: Seq<i32>, dpi: u32, k: nat) -> int
    decreases k,
{
    if k == 0 {
        0
    } else {
        clamp_i32(
            fixed_columns_total(widths, dpi, (k - 1) as nat) + clamped_column(
                widths[k - 1] as int,
                k - 1,
                dpi,
            ),
        )
    }
}

/// The width a column shows after it was sized to its content and to its header: the larger,
/// each read negative counting as zero and kept to the low 32 bits.
pub fn measured_column_width(content: isize, header: isize) -> (w: i32)
    ensures
        w == max_int(
            (max_int(content as int, 0) as i32) as int,
            (max_int(header as int, 0) as i32) as int,
        ),
{
    #[verifier::truncate]
    let c: i32 = (if content > 0 {
        content
    } else {
        0
    }) as i32;
    #[verifier::truncate]
    let h: i32 = (if header > 0 {
        header
    } else {
        0
    }) as i32;
    max_i32(c, h)
}

/// Keeps a width between the scaled bounds of a column.
fn clamp_column(width: i32, index: usize, dpi: u32) -> (w: i32)
    requires
        index < DIAGNOSTIC_COLUMN_COUNT,
        column_bounds_ordered(dpi),
    ensures
        w == clamped_column(width as int, index as int, dpi),
{
    let minimum = scale_logical(diagnostic_column_min_width(index), dpi);
    let maximum = scale_logical(diagnostic_column_max_width(index), dpi);
    assert(minimum <= maximum);
    min_i32(max_i32(width, minimum), maximum)
}

/// The widths the fixed columns get from their current or measured widths: each clamped to its
/// scaled bounds. Also returns their saturating sum.
fn fixed_column_widths(widths: &[i32], dpi: u32) -> (r: (Vec<i32>, i32))
    requires
        widths@.len() == DIAGNOSTIC_COLUMN_COUNT,
        column_bounds_ordered(dpi),
    ensures
        r.0@.len() == DIAGNOSTIC_COLUMN_COUNT - 1,
        forall|i: int|
            0 <= i < DIAGNOSTIC_COLUMN_COUNT - 1 ==> r.0@[i] == clamped_column(
                widths@[i] as int,
                i,
                dpi,
            ),
        r.1 == fixed_columns_total(widths@, dpi, (DIAGNOSTIC_COLUMN_COUNT - 1) as nat),
{
    let mut out: Vec<i32> = Vec::new();
    let mut total: i32 = 0;
    let mut index: usize = 0;
    while index < DIAGNOSTIC_COLUMN_COUNT - 1
        invariant
            widths@.len() == DIAGNOSTIC_COLUMN_COUNT,
            column_bounds_ordered(dpi),
            0 <= index <= DIAGNOSTIC_COLUMN_COUNT - 1,
            out@.len() == index,
            forall|i: int| 0 <= i < index ==> out@[i] == clamped_column(widths@[i] as int, i, dpi),
            total == fixed_columns_total(widths@, dpi, index as nat),
        decreases DIAGNOSTIC_COLUMN_COUNT - 1 - index,
    {
        let width = clamp_column(widths[index], index, dpi);
        out.push(width);
        total = sat_add(total, width);
        index = index + 1;
    }
    (out, total)
}

/// Column widths after an auto-fit: every fixed column clamped to its bounds, then the details
/// column at least its measured width (clamped to its bounds) and at least the room left in the
/// client width.
pub fn auto_fit_column_widths(measured: &[i32], client_width: i32, dpi: u32) -> (widths: Vec<i32>)
    requires
        measured@.len() == DIAGNOSTIC_COLUMN_COUNT,
        column_bounds_ordered(dpi),
    ensures
        widths@.len() == DIAGNOSTIC_COLUMN_COUNT,
        forall|i: int|
            0 <= i < DIAGNOSTIC_COLUMN_COUNT - 1 ==> widths@[i] == clamped_column(
                measured@[i] as int,
                i,
                dpi,
            ),
        widths@[DIAGNOSTIC_COLUMN_COUNT - 1] == max_int(
            max_int(
                clamped_column(
                    measured@[DIAGNOSTIC_COLUMN_COUNT - 1] as int,
                    DIAGNOSTIC_COLUMN_COUNT - 1,
                    dpi,
                ),
                scale_logical_spec(column_min_spec(DIAGNOSTIC_COLUMN_COUNT - 1), dpi as int),
            ),
            clamp_i32(
                client_width - fixed_columns_total(
                    measured@,
                    dpi,
                    (DIAGNOSTIC_COLUMN_COUNT - 1) as nat,
                ),
            ),
        ),
{
    let (mut widths, fixed_width) = fixed_column_widths(measured, dpi);
    let details = DIAGNOSTIC_COLUMN_COUNT - 1;
    let details_minimum = scale_logical(diagnostic_column_min_width(details), dpi);
    let measured_details = clamp_column(measured[details], details, dpi);
    let remaining_width = sat_sub(client_width, fixed_width);
    widths.push(max_i32(max_i32(measured_details, details_minimum), remaining_width));
    widths
}

/// Column widths after a resize: every fixed column keeps its current width within its
/// bounds, and the details column takes the room left in the client width, but at least its
/// minimum.
pub fn viewport_column_widths(current: &[i32], client_width: i32, dpi: u32) -> (widths: Vec<i32>)
    requires
        current@.len() == DIAGNOSTIC_COLUMN_COUNT,
        column_bounds_ordered(dpi),
    ensures
        widths@.len() == DIAGNOSTIC_COLUMN_COUNT,
        forall|i: int|
            0 <= i < DIAGNOSTIC_COLUMN_COUNT - 1 ==> widths@[i] == clamped_column(
                current@[i] as int,
                i,
                dpi,
            ),
        widths@[DIAGNOSTIC_COLUMN_COUNT - 1] == max_int(
            clamp_i32(
                client_width - fixed_columns_total(
                    current@,
                    dpi,
                    (DIAGNOSTIC_COLUMN_COUNT - 1) as nat,
                ),
            ),
            scale_logical_spec(column_min_spec(DIAGNOSTIC_COLUMN_COUNT - 1), dpi as int),
        ),
{
    let (mut widths, fixed_width) = fixed_column_widths(current, dpi);
    let details = DIAGNOSTIC_COLUMN_COUNT - 1;
    let details_minimum = scale_logical(diagnostic_column_min_width(details), dpi);
    widths.push(max_i32(sat_sub(client_width, fixed_width), details_minimum));
    widths
}

} // verus!
