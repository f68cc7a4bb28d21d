//! The rubber-band marquee of the diagnostic grid as a state machine: each mouse or capture
//! event moves the marquee state and tells the window which band to select and which focus
//! rectangle to erase or draw.
use vstd::prelude::*;

use crate::arith::max_i32;
use crate::geometry::{
    abs_int, marquee_drag_exceeded, points_to_rect, span_rect, Point, Rect,
};

verus! {

/// Whether a coordinate came from a signed 16-bit mouse-message word.
pub open spec fn word_coordinate(v: i32) -> bool {
    -0x8000 <= v <= 0x7fff
}

/// Whether a point came from a mouse message.
pub open spec fn word_point(p: Point) -> bool {
    word_coordinate(p.x) && word_coordinate(p.y)
}

/// A system drag metric, taken as at least one pixel.
pub open spec fn drag_metric(v: i32) -> int {
    if v < 1 {
        1
    } else {
        v as int
    }
}

/// Whether the pointer at `point` has left the drag rectangle around `anchor`.
pub open spec fn drag_left_rectangle(anchor: Point, point: Point, cx_drag: i32, cy_drag: i32) -> bool {
    abs_int(point.x - anchor.x) >= drag_metric(cx_drag) || abs_int(point.y - anchor.y)
        >= drag_metric(cy_drag)
}

/// The marquee of the diagnostic grid: armed by a plain click (pending), dragging (active), the
/// point the drag started at, the point it reached, and the rows selected when it started.
pub struct MarqueeState {
    pub pending: bool,
    pub active: bool,
    pub anchor: Point,
    pub current: Point,
    pub initial_selected: Vec<usize>,
}

impl MarqueeState {
    /// Whether both points came from mouse messages.
    pub open spec fn well_formed(&self) -> bool {
        word_point(self.anchor) && word_point(self.current)
    }

    /// No marquee: not armed, not dragging, nothing remembered.
    pub fn new() -> (m: MarqueeState)
        ensures
            !m.pending,
            !m.active,
            m.anchor == (Point { x: 0, y: 0 }),
            m.current == (Point { x: 0, y: 0 }),
            m.initial_selected@.len() == 0,
            m.well_formed(),
    {
        MarqueeState {
            pending: false,
            active: false,
            anchor: Point { x: 0, y: 0 },
            current: Point { x: 0, y: 0 },
            initial_selected: Vec::new(),
        }
    }

    /// A plain left-button press arms the marquee at the pressed point, but only while the left
    /// button is really down.
    pub fn press(&mut self, point: Point, left_button_down: bool)
        requires
            old(self).well_formed(),
            word_point(point),
        ensures
            final(self).well_formed(),
            final(self).active == old(self).active,
            final(self).initial_selected@ == old(self).initial_selected@,
            left_button_down ==> final(self).pending && final(self).anchor == point
                && final(self).current == point,
            !left_button_down ==> final(self).pending == old(self).pending && final(self).anchor
                == old(self).anchor && final(self).current == old(self).current,
    {
        if !left_button_down {
            return;
        }
        self.pending = true;
        self.anchor = point;
        self.current = point;
    }

    /// A move while armed starts the drag once the pointer left the drag rectangle (each system
    /// metric taken as at least one pixel). Starting remembers the rows selected so far and
    /// returns the band to select; otherwise nothing changes.
    pub fn begin_drag(
        &mut self,
        point: Point,
        cx_drag: i32,
        cy_drag: i32,
        selected_now: Vec<usize>,
    ) -> (band: Option<Rect>)
        requires
            old(self).well_formed(),
            word_point(point),
        ensures
            final(self).well_formed(),
            (band is Some) == (old(self).pending && !old(self).active && drag_left_rectangle(
                old(self).anchor,
                point,
                cx_drag,
                cy_drag,
            )),
            band is Some ==> {
                &&& band == Some(span_rect(old(self).anchor, point))
                &&& !final(self).pending
                &&& final(self).active
                &&& final(self).anchor == old(self).anchor
                &&& final(self).current == point
                &&& final(self).initial_selected@ == selected_now@
            },
            band is None ==> {
                &&& final(self).pending == old(self).pending
                &&& final(self).active == old(self).active
                &&& final(self).anchor == old(self).anchor
                &&& final(self).current == old(self).current
                &&& final(self).initial_selected@ == old(self).initial_selected@
            },
    {
        if !self.pending || self.active {
            return None;
        }
        let cx = max_i32(cx_drag, 1);
        let cy = max_i32(cy_drag, 1);
        if !marquee_drag_exceeded(self.anchor, point, cx, cy) {
            return None;
        }
        self.pending = false;
        self.active = true;
        self.current = point;
        self.initial_selected = selected_now;
        Some(points_to_rect(self.anchor, point))
    }

    /// A move while dragging moves the band's free corner. It returns the corner the previous
    /// focus rectangle used, to erase it, and the new band, to draw and select.
    pub fn drag_to(&mut self, point: Point) -> (moved: Option<(Point, Rect)>)
        requires
            old(self).well_formed(),
            word_point(point),
        ensures
            final(self).well_formed(),
            final(self).pending == old(self).pending,
            final(self).active == old(self).active,
            final(self).anchor == old(self).anchor,
            final(self).initial_selected@ == old(self).initial_selected@,
            old(self).active ==> {
                &&& moved == Some((old(self).current, span_rect(old(self).anchor, point)))
                &&& final(self).current == point
            },
            !old(self).active ==> moved is None && final(self).current == old(self).current,
    {
        if !self.active {
            return None;
        }
        let previous = self.current;
        self.current = point;
        Some((previous, points_to_rect(self.anchor, point)))
    }

    /// Ends a drag: the marquee stops and forgets the initial rows. It returns the corner of the
    /// focus rectangle to erase, or nothing when no drag was active.
    pub fn finish(&mut self) -> (erase: Option<Point>)
        requires
            old(self).well_formed(),
        ensures
            final(self).well_formed(),
            !final(self).active,
            final(self).pending == old(self).pending,
            final(self).anchor == old(self).anchor,
            final(self).current == old(self).current,
            old(self).active ==> erase == Some(old(self).current) && final(self).initial_selected@.len() == 0,
            !old(self).active ==> erase is None && final(self).initial_selected@
                == old(self).initial_selected@,
    {
        if !self.active {
            return None;
        }
        self.active = false;
        self.initial_selected.clear();
        Some(self.current)
    }

    /// A left-button release ends an active drag; without one it only disarms the marquee.
    pub fn release(&mut self) -> (erase: Option<Point>)
        requires
            old(self).well_formed(),
        ensures
            final(self).well_formed(),
            !final(self).active,
            final(self).anchor == old(self).anchor,
            final(self).current == old(self).current,
            old(self).active ==> erase == Some(old(self).current) && final(self).pending == old(
                self,
            ).pending && final(self).initial_selected@.len() == 0,
            !old(self).active ==> erase is None && !final(self).pending
                && final(self).initial_selected@ == old(self).initial_selected@,
    {
        if self.active {
            self.finish()
        } else {
            self.pending = false;
            None
        }
    }

    /// Escape, a right or middle press, or a move without the left button disarms the marquee
    /// and ends any drag.
    pub fn cancel(&mut self) -> (erase: Option<Point>)
        requires
            old(self).well_formed(),
        ensures
            final(self).well_formed(),
            !final(self).pending,
            !final(self).active,
            final(self).anchor == old(self).anchor,
            final(self).current == old(self).current,
            old(self).active ==> erase == Some(old(self).current)
                && final(self).initial_selected@.len() == 0,
            !old(self).active ==> erase is None && final(self).initial_selected@
                == old(self).initial_selected@,
    {
        self.pending = false;
        self.finish()
    }
}

/// The focus rectangle drawn for a band, or nothing when the band has no area.
pub fn marquee_band_to_draw(anchor: Point, current: Point) -> (r: Option<Rect>)
    ensures
        r == (if span_rect(anchor, current).left == span_rect(anchor, current).right || span_rect(
            anchor,
            current,
        ).top == span_rect(anchor, current).bottom {
            None::<Rect>
        } else {
            Some(span_rect(anchor, current))
        }),
{
    let rect = points_to_rect(anchor, current);
    if rect.left == rect.right || rect.top == rect.bottom {
        None
    } else {
        Some(rect)
    }
}

/// The rectangle of a grid row: the fetched bounds, or an empty rectangle above every band
/// when the row's bounds could not be read.
pub fn marquee_row_rect(fetched: bool, bounds: Rect) -> (r: Rect)
    ensures
        r == (if fetched {
            bounds
        } else {
            Rect { left: 0, top: -1i32, right: 0, bottom: -1i32 }
        }),
{
    if fetched {
        bounds
    } else {
        Rect { left: 0, top: -1, right: 0, bottom: -1 }
    }
}

/// For each of `count` rows, whether it is among the selected indices.
pub fn marquee_selection_flags(selected: &[usize], count: usize) -> (flags: Vec<bool>)
    ensures
        flags@.len() == count,
        forall|i: int| 0 <= i < count ==> flags@[i] == selected@.contains(i as usize),
{
    let mut flags: Vec<bool> = Vec::new();
    let mut index: usize = 0;
    while index < count
        invariant
            0 <= index <= count,
            flags@.len() == index,
            forall|i: int| 0 <= i < index ==> flags@[i] == selected@.contains(i as usize),
        decreases count - index,
    {
        flags.push(crate::geometry::slice_contains(selected, index));
        index = index + 1;
    }
    flags
}

} // verus!
