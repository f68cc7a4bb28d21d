//! Screen geometry: points and rectangles, the marquee band of the diagnostic grid, and the
//! placement of the tray popup menu.
use vstd::prelude::*;

use crate::arith::{max_int, min_int, sat_sub, clamp_i32, max_i32, min_i32};

verus! {

/// A point in screen or client coordinates.
#[derive(Clone, Copy, Debug, Default, PartialEq, Eq, Structural)]
pub struct Point {
    pub x: i32,
    pub y: i32,
}

/// A rectangle given by its four edges.
#[derive(Clone, Copy, Debug, Default, PartialEq, Eq, Structural)]
pub struct Rect {
    pub left: i32,
    pub top: i32,
    pub right: i32,
    pub bottom: i32,
}

/// Mouse-message key state flag for a held left button.
pub const MK_LBUTTON: usize = 0x0001;
/// Taskbar edge codes reported by the shell.
pub const ABE_LEFT: u32 = 0;
pub const ABE_TOP: u32 = 1;
pub const ABE_RIGHT: u32 = 2;
pub const ABE_BOTTOM: u32 = 3;
/// Popup menu alignment flags.
pub const TPM_LEFTALIGN: u32 = 0x0000;
pub const TPM_TOPALIGN: u32 = 0x0000;
pub const TPM_RIGHTALIGN: u32 = 0x0008;
pub const TPM_BOTTOMALIGN: u32 = 0x0020;

/// Whether the closed rectangles `r1` and `r2` share at least one point.
pub open spec fn rects_meet(r1: Rect, r2: Rect) -> bool {
    &&& r1.left <= r2.right
    &&& r1.right >= r2.left
    &&& r1.top <= r2.bottom
    &&& r1.bottom >= r2.top
}

/// The normalized rectangle spanned by two corner points.
pub open spec fn span_rect(p1: Point, p2: Point) -> Rect {
    Rect {
        left: min_int(p1.x as int, p2.x as int) as i32,
        top: min_int(p1.y as int, p2.y as int) as i32,
        right: max_int(p1.x as int, p2.x as int) as i32,
        bottom: max_int(p1.y as int, p2.y as int) as i32,
    }
}

/// The rectangle with corners `pt1` and `pt2`, left not right of right and top not below bottom.
pub fn points_to_rect(pt1: Point, pt2: Point) -> (r: Rect)
    ensures
        r == span_rect(pt1, pt2),
        r.left <= r.right,
        r.top <= r.bottom,
{
    Rect {
        left: min_i32(pt1.x, pt2.x),
        top: min_i32(pt1.y, pt2.y),
        right: max_i32(pt1.x, pt2.x),
        bottom: max_i32(pt1.y, pt2.y),
    }
}

/// Whether two rectangles, edges included, intersect.
pub fn rects_intersect(r1: &Rect, r2: &Rect) -> (b: bool)
    ensures
        b == rects_meet(*r1, *r2),
{
    r1.left <= r2.right && r1.right >= r2.left && r1.top <= r2.bottom && r1.bottom >= r2.top
}

/// The absolute value of an integer.
pub open spec fn abs_int(v: int) -> int {
    if v < 0 {
        -v
    } else {
        v
    }
}

/// Whether `v` is a difference whose absolute value an `i32` can hold.
pub open spec fn abs_fits_i32(v: int) -> bool {
    i32::MIN < v <= i32::MAX
}

/// Whether the pointer moved from `anchor` to `current` by at least the drag threshold on
/// either axis.
pub fn marquee_drag_exceeded(anchor: Point, current: Point, cx_drag: i32, cy_drag: i32) -> (b: bool)
    requires
        abs_fits_i32(current.x - anchor.x),
        abs_int(current.x - anchor.x) < cx_drag ==> abs_fits_i32(current.y - anchor.y),
    ensures
        b == (abs_int(current.x - anchor.x) >= cx_drag || abs_int(current.y - anchor.y)
            >= cy_drag),
{
    let dx: i32 = current.x - anchor.x;
    let adx: i32 = if dx < 0 {
        -dx
    } else {
        dx
    };
    if adx >= cx_drag {
        return true;
    }
    let dy: i32 = current.y - anchor.y;
    let ady: i32 = if dy < 0 {
        -dy
    } else {
        dy
    };
    ady >= cy_drag
}

/// A plain click arms the marquee; Shift or Ctrl keeps the native click selection.
pub fn should_use_native_click_selection(shift_held: bool, ctrl_held: bool) -> (b: bool)
    ensures
        b == (shift_held || ctrl_held),
{
    shift_held || ctrl_held
}

/// Whether the key-state flags of a mouse message report the left button held.
pub fn marquee_requires_left_mouse_button_pressed_flag(w_param: usize) -> (b: bool)
    ensures
        b == (w_param % 2 == 1),
{
    let bit = w_param & MK_LBUTTON;
    assert(bit == w_param % 2) by (bit_vector)
        requires
            bit == w_param & 1usize,
    ;
    bit != 0
}

/// The sign-extended value of a 16-bit word.
pub open spec fn signed_word(v: int) -> int {
    if v >= 0x8000 {
        v - 0x1_0000
    } else {
        v
    }
}

/// The point packed into a mouse message: the low word is x and the next word is y, both
/// signed 16-bit values.
pub fn point_from_lparam(l_param: isize) -> (p: Point)
    ensures
        p.x == signed_word(l_param as int % 0x1_0000),
        p.y == signed_word((l_param as int / 0x1_0000) % 0x1_0000),
{
    let low: u16 = l_param as u16;
    let high: u16 = (l_param >> 16) as u16;
    assert(low as int == l_param as int % 0x1_0000 && high as int == (l_param as int / 0x1_0000)
        % 0x1_0000)
        by (bit_vector)
        requires
            low == l_param as u16,
            high == (l_param >> 16) as u16,
    ;
    let x16: i16 = low as i16;
    let y16: i16 = high as i16;
    assert(x16 as int == signed_word(low as int) && y16 as int == signed_word(high as int))
        by (bit_vector)
        requires
            x16 == low as i16,
            y16 == high as i16,
    ;
    Point { x: x16 as i32, y: y16 as i32 }
}

/// Whether index `i` belongs to the marquee selection.
pub open spec fn marquee_selects(
    band: Rect,
    rows: Seq<Rect>,
    initial: Seq<usize>,
    is_additive: bool,
    i: int,
) -> bool {
    rects_meet(band, rows[i]) || (is_additive && initial.contains(i as usize))
}

/// The selected indices below `k`, in increasing order.
pub open spec fn marquee_selection_upto(
    band: Rect,
    rows: Seq<Rect>,
    initial: Seq<usize>,
    is_additive: bool,
    k: nat,
) -> Seq<usize>
    decreases k,
{
    if k == 0 {
        Seq::empty()
    } else {
        let before = marquee_selection_upto(band, rows, initial, is_additive, (k - 1) as nat);
        if marquee_selects(band, rows, initial, is_additive, k - 1) {
            before.push((k - 1) as usize)
        } else {
            before
        }
    }
}

/// Whether `v` holds a value.
pub fn slice_contains(values: &[usize], v: usize) -> (b: bool)
    ensures
        b == values@.contains(v),
{
    let mut i: usize = 0;
    while i < values.len()
        invariant
            0 <= i <= values@.len(),
            forall|j: int| 0 <= j < i ==> values@[j] != v,
        decreases values@.len() - i,
    {
        if values[i] == v {
            assert(values@[i as int] == v);
            return true;
        }
        i = i + 1;
    }
    false
}

/// The rows that a marquee band selects: those it intersects and, when the selection is
/// additive, those that were selected when the drag began.
#[verifier::spinoff_prover]
pub fn marquee_selected_indices(
    band: &Rect,
    row_rects: &[Rect],
    initial_selected: &[usize],
    is_additive: bool,
) -> (selected: Vec<usize>)
    ensures
        selected@ == marquee_selection_upto(
            *band,
            row_rects@,
            initial_selected@,
            is_additive,
            row_rects@.len(),
        ),
        forall|a: int, b: int|
            0 <= a < b < selected@.len() ==> #[trigger] selected@[a] < #[trigger] selected@[b],
        forall|j: int| 0 <= j < selected@.len() ==> #[trigger] selected@[j] < row_rects@.len(),
        forall|i: int|
            0 <= i < row_rects@.len() ==> (#[trigger] selected@.contains(i as usize) <==> (
            rects_meet(*band, row_rects@[i]) || (is_additive && initial_selected@.contains(
                i as usize,
            )))),
{
    let mut selected: Vec<usize> = Vec::new();
    let mut index: usize = 0;
    while index < row_rects.len()
        invariant
            0 <= index <= row_rects@.len(),
            selected@ == marquee_selection_upto(
                *band,
                row_rects@,
                initial_selected@,
                is_additive,
                index as nat,
            ),
        decreases row_rects@.len() - index,
    {
        let in_band = rects_intersect(band, &row_rects[index]);
        let should_be_selected = if is_additive {
            in_band || slice_contains(initial_selected, index)
        } else {
            in_band
        };
        if should_be_selected {
            selected.push(index);
        }
        index = index + 1;
    }
    proof {
        lemma_marquee_selection_exact(
            *band,
            row_rects@,
            initial_selected@,
            is_additive,
            row_rects@.len(),
        );
        let whole = marquee_selection_upto(
            *band,
            row_rects@,
            initial_selected@,
            is_additive,
            row_rects@.len(),
        );
        assert(selected@ =~= whole);
        assert forall|i: int| 0 <= i < row_rects@.len() implies (#[trigger] selected@.contains(
            i as usize,
        ) <==> (rects_meet(*band, row_rects@[i]) || (is_additive
            && initial_selected@.contains(i as usize)))) by {
            assert(whole.contains(i as usize) == marquee_selects(
                *band,
                row_rects@,
                initial_selected@,
                is_additive,
                i,
            ));
        }
    }
    selected
}

/// The point moved into the work area, at most one pixel inside its right and bottom edges.
pub open spec fn clamped_anchor(point: Point, work: Rect) -> Point {
    let max_x = max_int(clamp_i32(work.right - 1), work.left as int);
    let max_y = max_int(clamp_i32(work.bottom - 1), work.top as int);
    Point {
        x: min_int(max_int(point.x as int, work.left as int), max_x) as i32,
        y: min_int(max_int(point.y as int, work.top as int), max_y) as i32,
    }
}

/// Keeps the popup menu anchor inside the monitor work area.
pub fn clamp_menu_anchor(point: Point, work: Rect) -> (p: Point)
    ensures
        p == clamped_anchor(point, work),
{
    let max_x = max_i32(sat_sub(work.right, 1), work.left);
    let max_y = max_i32(sat_sub(work.bottom, 1), work.top);
    Point { x: min_i32(max_i32(point.x, work.left), max_x), y: min_i32(max_i32(point.y, work.top), max_y) }
}

/// Packs screen coordinates into a tooltip tracking position: the low 16 bits of `x` in the
/// low word and the low 16 bits of `y` in the high word.
pub fn track_position_lparam(x: i32, y: i32) -> (l: isize)
    ensures
        l == (((x as int % 0x1_0000) + 0x1_0000 * (y as int % 0x1_0000)) as usize) as isize,
{
    let xl: u32 = (x as u32) & 0xffff;
    let yl: u32 = (y as u32) & 0xffff;
    let packed: u32 = xl | (yl << 16);
    assert(xl as int == x as int % 0x1_0000 && yl as int == y as int % 0x1_0000) by (bit_vector)
        requires
            xl == (x as u32) & 0xffff,
            yl == (y as u32) & 0xffff,
    ;
    assert(packed as int == xl as int + 0x1_0000 * (yl as int)) by (bit_vector)
        requires
            xl < 0x1_0000,
            yl < 0x1_0000,
            packed == xl | (yl << 16),
    ;
    packed as usize as isize
}

/// The command a `TPM_RETURNCMD` popup returned: a positive result is a command id, anything
/// else means no command.
pub fn returned_menu_command(result: i32) -> (c: Option<usize>)
    ensures
        c == (if result > 0 {
            Some(result as usize)
        } else {
            None::<usize>
        }),
{
    if result > 0 {
        Some(result as usize)
    } else {
        None
    }
}

/// The popup alignment for a taskbar edge: a right taskbar aligns the menu right, a bottom
/// taskbar aligns it bottom, and otherwise the given alignment stays.
pub open spec fn popup_flags_spec(edge: Option<u32>, horizontal: u32, vertical: u32) -> u32 {
    let h = if edge == Some(ABE_RIGHT) {
        TPM_RIGHTALIGN
    } else {
        horizontal
    };
    let v = if edge == Some(ABE_BOTTOM) {
        TPM_BOTTOMALIGN
    } else {
        vertical
    };
    h | v
}

/// Popup menu alignment flags for the taskbar edge that holds the tray icon.
pub fn popup_track_flags(edge: Option<u32>, horizontal: u32, vertical: u32) -> (f: u32)
    ensures
        f == popup_flags_spec(edge, horizontal, vertical),
{
    let h = match edge {
        Some(e) => if e == ABE_RIGHT {
            TPM_RIGHTALIGN
        } else {
            horizontal
        },
        None => horizontal,
    };
    let v = match edge {
        Some(e) => if e == ABE_BOTTOM {
            TPM_BOTTOMALIGN
        } else {
            vertical
        },
        None => vertical,
    };
    h | v
}

/// Intersection of rectangles does not depend on the order of the two rectangles.
pub proof fn lemma_rects_meet_symmetric(r1: Rect, r2: Rect)
    ensures
        rects_meet(r1, r2) == rects_meet(r2, r1),
{
}

/// The band between two points is the same whichever point is the anchor, it is normalized, and
/// both points lie on or inside it.
pub proof fn lemma_span_rect_symmetric_and_covering(p1: Point, p2: Point)
    ensures
        span_rect(p1, p2) == span_rect(p2, p1),
        span_rect(p1, p2).left <= span_rect(p1, p2).right,
        span_rect(p1, p2).top <= span_rect(p1, p2).bottom,
        span_rect(p1, p2).left <= p1.x <= span_rect(p1, p2).right,
        span_rect(p1, p2).top <= p1.y <= span_rect(p1, p2).bottom,
        span_rect(p1, p2).left <= p2.x <= span_rect(p1, p2).right,
        span_rect(p1, p2).top <= p2.y <= span_rect(p1, p2).bottom,
{
}

/// The marquee selection lists, in strictly increasing order, exactly the row indices below `k`
/// that the band selects.
pub proof fn lemma_marquee_selection_exact(
    band: Rect,
    rows: Seq<Rect>,
    initial: Seq<usize>,
    is_additive: bool,
    k: nat,
)
    requires
        k <= rows.len(),
        rows.len() <= usize::MAX,
    ensures
        forall|a: int, b: int|
            0 <= a < b < marquee_selection_upto(band, rows, initial, is_additive, k).len() ==> (
            #[trigger] marquee_selection_upto(band, rows, initial, is_additive, k)[a])
                < #[trigger] marquee_selection_upto(band, rows, initial, is_additive, k)[b],
        forall|i: int|
            0 <= i < k ==> (marquee_selection_upto(band, rows, initial, is_additive, k).contains(
                i as usize,
            ) <==> marquee_selects(band, rows, initial, is_additive, i)),
        forall|j: int|
            0 <= j < marquee_selection_upto(band, rows, initial, is_additive, k).len() ==> (
            #[trigger] marquee_selection_upto(band, rows, initial, is_additive, k)[j]) < k,
    decreases k,
{
    if k > 0 {
        lemma_marquee_selection_exact(band, rows, initial, is_additive, (k - 1) as nat);
        let before = marquee_selection_upto(band, rows, initial, is_additive, (k - 1) as nat);
        let after = marquee_selection_upto(band, rows, initial, is_additive, k);
        assert forall|i: int| 0 <= i < k implies (after.contains(i as usize) <==> marquee_selects(
            band,
            rows,
            initial,
            is_additive,
            i,
        )) by {
            if i < k - 1 {
                if marquee_selects(band, rows, initial, is_additive, k - 1) {
                    if after.contains(i as usize) {
                        let w = choose|w: int| 0 <= w < after.len() && after[w] == i as usize;
                        if w < before.len() {
                            assert(before[w] == i as usize);
                        }
                    }
                    if before.contains(i as usize) {
                        let w = choose|w: int| 0 <= w < before.len() && before[w] == i as usize;
                        assert(after[w] == i as usize);
                    }
                }
            } else {
                if marquee_selects(band, rows, initial, is_additive, k - 1) {
                    assert(after[after.len() - 1] == i as usize);
                } else {
                    if after.contains(i as usize) {
                        let w = choose|w: int| 0 <= w < after.len() && after[w] == i as usize;
                        assert(before[w] < k - 1);
                    }
                }
            }
        }
    }
}

/// A drag that began with some rows selected keeps them in an additive marquee, and an additive
/// marquee selects every row the plain marquee selects.
pub proof fn lemma_additive_marquee_keeps_initial_rows(
    band: Rect,
    rows: Seq<Rect>,
    initial: Seq<usize>,
    i: int,
)
    requires
        0 <= i < rows.len(),
        rows.len() <= usize::MAX,
    ensures
        initial.contains(i as usize) ==> marquee_selection_upto(
            band,
            rows,
            initial,
            true,
            rows.len(),
        ).contains(i as usize),
        marquee_selection_upto(band, rows, initial, false, rows.len()).contains(i as usize)
            ==> marquee_selection_upto(band, rows, initial, true, rows.len()).contains(i as usize),
{
    lemma_marquee_selection_exact(band, rows, initial, true, rows.len());
    lemma_marquee_selection_exact(band, rows, initial, false, rows.len());
    assert(marquee_selects(band, rows, initial, true, i) == (rects_meet(band, rows[i])
        || initial.contains(i as usize)));
    assert(marquee_selects(band, rows, initial, false, i) == rects_meet(band, rows[i]));
}

/// The clamped menu anchor lies inside the work area (at most one pixel inside its right and
/// bottom edges) and clamping it again changes nothing.
pub proof fn lemma_clamped_anchor_inside_and_stable(point: Point, work: Rect)
    ensures
        work.left <= clamped_anchor(point, work).x <= max_int(
            clamp_i32(work.right - 1),
            work.left as int,
        ),
        work.top <= clamped_anchor(point, work).y <= max_int(
            clamp_i32(work.bottom - 1),
            work.top as int,
        ),
        clamped_anchor(clamped_anchor(point, work), work) == clamped_anchor(point, work),
        (work.left <= point.x < work.right && work.top <= point.y < work.bottom)
            ==> clamped_anchor(point, work) == point,
{
}

} // verus!
