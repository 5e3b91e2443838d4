use crate::coord::Coord;
use std::ops::Range;
use vstd::prelude::*;

verus! {

/// How many fractional subunits a cell is divided into along each axis.
pub const CELL_FRACTION: u8 = 100;

/// A pointer position in world units: the cell under the pointer and the
/// fractional position inside it, in hundredths of a cell.
#[derive(Clone, Copy, PartialEq, Eq, Structural, Debug)]
pub struct WorldPoint {
    pub cell: Coord,
    pub fx: u8,
    pub fy: u8,
}

impl WorldPoint {
    /// The fractions are proper, and the cell leaves room for the exclusive
    /// upper bound of a one-cell range.
    pub open spec fn wf(self) -> bool {
        self.fx < CELL_FRACTION && self.fy < CELL_FRACTION && self.cell.x < i16::MAX && self.cell.y
            < i16::MAX
    }

    pub fn new(cell: Coord, fx: u8, fy: u8) -> (p: WorldPoint)
        requires
            fx < CELL_FRACTION,
            fy < CELL_FRACTION,
            cell.x < i16::MAX,
            cell.y < i16::MAX,
        ensures
            p == (WorldPoint { cell, fx, fy }),
            p.wf(),
    {
        WorldPoint { cell, fx, fy }
    }
}

/// One rectangular drag: the press point alone, or the press point with the
/// live pointer point once the drag has moved.
#[derive(Clone, Copy, PartialEq, Debug)]
pub enum ButtonSelection {
    Start(WorldPoint),
    Select((WorldPoint, WorldPoint)),
}

impl ButtonSelection {
    pub open spec fn wf(self) -> bool {
        match self {
            ButtonSelection::Start(p) => p.wf(),
            ButtonSelection::Select((a, b)) => a.wf() && b.wf(),
        }
    }

    /// The press point of the drag.
    pub open spec fn spec_start(self) -> WorldPoint {
        match self {
            ButtonSelection::Start(p) => p,
            ButtonSelection::Select((a, _)) => a,
        }
    }

    /// The live end point of the drag; the press point if it never moved.
    pub open spec fn spec_end(self) -> WorldPoint {
        match self {
            ButtonSelection::Start(p) => p,
            ButtonSelection::Select((_, b)) => b,
        }
    }

    /// The selected cells as normalized half-open intervals over x and y:
    /// lower bound the smaller endpoint, upper bound one past the larger,
    /// whatever direction the drag went.
    pub open spec fn spec_ranges(self) -> ((int, int), (int, int)) {
        let sx = self.spec_start().cell.x as int;
        let sy = self.spec_start().cell.y as int;
        let ex = self.spec_end().cell.x as int;
        let ey = self.spec_end().cell.y as int;
        (
            (
                if sx <= ex {
                    sx
                } else {
                    ex
                },
                (if sx <= ex {
                    ex
                } else {
                    sx
                }) + 1,
            ),
            (
                if sy <= ey {
                    sy
                } else {
                    ey
                },
                (if sy <= ey {
                    ey
                } else {
                    sy
                }) + 1,
            ),
        )
    }

    /// The horizontal projection: the normalized column range, but only the
    /// row the drag started on.
    pub open spec fn spec_horizontal(self) -> ((int, int), (int, int)) {
        let sy = self.spec_start().cell.y as int;
        (self.spec_ranges().0, (sy, sy + 1))
    }

    /// The vertical projection: the normalized row range, but only the
    /// column the drag started on.
    pub open spec fn spec_vertical(self) -> ((int, int), (int, int)) {
        let sx = self.spec_start().cell.x as int;
        ((sx, sx + 1), self.spec_ranges().1)
    }

    /// Whether the drag has not moved off its press cell yet.
    pub fn is_start(&self) -> (b: bool)
        ensures
            b == (self is Start),
    {
        match self {
            ButtonSelection::Start(_) => true,
            _ => false,
        }
    }

    pub fn start(&self) -> (p: WorldPoint)
        ensures
            p == self.spec_start(),
    {
        match *self {
            ButtonSelection::Start(start) => start,
            ButtonSelection::Select((start, _)) => start,
        }
    }

    /// Extend the drag to a new pointer position.
    fn select(&mut self, position: WorldPoint)
        ensures
            *final(self) == ButtonSelection::Select((old(self).spec_start(), position)),
    {
        *self = ButtonSelection::Select((self.start(), position));
    }

    pub fn ranges(&self) -> (r: (Range<i16>, Range<i16>))
        requires
            self.wf(),
        ensures
            ({
                let ((xl, xh), (yl, yh)) = self.spec_ranges();
                r.0.start == xl && r.0.end == xh && r.1.start == yl && r.1.end == yh
            }),
    {
        match *self {
            ButtonSelection::Start(p) => (
                Range { start: p.cell.x, end: p.cell.x + 1 },
                Range { start: p.cell.y, end: p.cell.y + 1 },
            ),
            ButtonSelection::Select((a, b)) => (
                if a.cell.x <= b.cell.x {
                    Range { start: a.cell.x, end: b.cell.x + 1 }
                } else {
                    Range { start: b.cell.x, end: a.cell.x + 1 }
                },
                if a.cell.y <= b.cell.y {
                    Range { start: a.cell.y, end: b.cell.y + 1 }
                } else {
                    Range { start: b.cell.y, end: a.cell.y + 1 }
                },
            ),
        }
    }

    pub fn horizontal(&self) -> (r: (Range<i16>, Range<i16>))
        requires
            self.wf(),
        ensures
            ({
                let ((xl, xh), (yl, yh)) = self.spec_horizontal();
                r.0.start == xl && r.0.end == xh && r.1.start == yl && r.1.end == yh
            }),
    {
        match *self {
            ButtonSelection::Start(p) => (
                Range { start: p.cell.x, end: p.cell.x + 1 },
                Range { start: p.cell.y, end: p.cell.y + 1 },
            ),
            ButtonSelection::Select((a, b)) => (
                if a.cell.x <= b.cell.x {
                    Range { start: a.cell.x, end: b.cell.x + 1 }
                } else {
                    Range { start: b.cell.x, end: a.cell.x + 1 }
                },
                Range { start: a.cell.y, end: a.cell.y + 1 },
            ),
        }
    }

    pub fn vertical(&self) -> (r: (Range<i16>, Range<i16>))
        requires
            self.wf(),
        ensures
            ({
                let ((xl, xh), (yl, yh)) = self.spec_vertical();
                r.0.start == xl && r.0.end == xh && r.1.start == yl && r.1.end == yh
            }),
    {
        match *self {
            ButtonSelection::Start(p) => (
                Range { start: p.cell.x, end: p.cell.x + 1 },
                Range { start: p.cell.y, end: p.cell.y + 1 },
            ),
            ButtonSelection::Select((a, b)) => (
                Range { start: a.cell.x, end: a.cell.x + 1 },
                if a.cell.y <= b.cell.y {
                    Range { start: a.cell.y, end: b.cell.y + 1 }
                } else {
                    Range { start: b.cell.y, end: a.cell.y + 1 }
                },
            ),
        }
    }
}

/// Range normalization is symmetric in the two drag endpoints: a drag from
/// `a` to `b` selects the same rectangle as a drag from `b` to `a`.
pub proof fn lemma_ranges_symmetric(a: WorldPoint, b: WorldPoint)
    ensures
        ButtonSelection::Select((a, b)).spec_ranges() == ButtonSelection::Select(
            (b, a),
        ).spec_ranges(),
{
}

/// The two-phase selection state machine: idle, dragging, or committed.
#[derive(Clone, Copy, PartialEq, Debug)]
pub enum Selection {
    Selecting(ButtonSelection),
    Selected(ButtonSelection),
    Idle,
}

impl Selection {
    pub open spec fn wf(self) -> bool {
        match self {
            Selection::Selecting(sel) => sel.wf(),
            Selection::Selected(sel) => sel.wf(),
            Selection::Idle => true,
        }
    }

    /// One frame of the state machine. A held left button starts or extends
    /// a drag; releasing it commits the drag when `persist` holds and drops
    /// it otherwise; a committed selection stays until the right button, or
    /// the end of persistence, clears it.
    pub open spec fn spec_events(
        self,
        position: WorldPoint,
        left: bool,
        right: bool,
        persist: bool,
    ) -> Selection {
        match self {
            Selection::Selecting(sel) => if left {
                Selection::Selecting(ButtonSelection::Select((sel.spec_start(), position)))
            } else if persist {
                Selection::Selected(sel)
            } else {
                Selection::Idle
            },
            Selection::Selected(sel) => if persist {
                if right {
                    Selection::Idle
                } else {
                    self
                }
            } else {
                Selection::Idle
            },
            Selection::Idle => if left {
                Selection::Selecting(ButtonSelection::Start(position))
            } else {
                Selection::Idle
            },
        }
    }

    /// A drag freshly begun at `position`.
    pub fn start(position: WorldPoint) -> (s: Selection)
        ensures
            s == Selection::Selecting(ButtonSelection::Start(position)),
    {
        Selection::Selecting(ButtonSelection::Start(position))
    }

    /// Drive the state machine with one frame of mouse input: the pointer
    /// position in world units and the two button states.
    pub fn events(&mut self, position: WorldPoint, left: bool, right: bool, persist: bool)
        ensures
            *final(self) == old(self).spec_events(position, left, right, persist),
            old(self).wf() && position.wf() ==> final(self).wf(),
    {
        match self {
            Selection::Selecting(sel) => {
                if left {
                    sel.select(position);
                } else if persist {
                    *self = Selection::Selected(*sel);
                } else {
                    self.clear();
                }
            },
            Selection::Selected(_) => {
                if persist {
                    if right {
                        self.clear();
                    }
                } else {
                    self.clear();
                }
            },
            Selection::Idle => {
                if left {
                    *self = Selection::start(position);
                }
            },
        }
    }

    pub fn clear(&mut self)
        ensures
            *final(self) == Selection::Idle,
    {
        *self = Selection::Idle;
    }

    /// The drag rectangle in progress or committed, if any.
    pub fn selection(&self) -> (r: Option<ButtonSelection>)
        ensures
            r == (match *self {
                Selection::Selecting(sel) => Some(sel),
                Selection::Selected(sel) => Some(sel),
                Selection::Idle => None,
            }),
    {
        match *self {
            Selection::Selecting(sel) => Some(sel),
            Selection::Selected(sel) => Some(sel),
            Selection::Idle => None,
        }
    }
}

} // verus!
