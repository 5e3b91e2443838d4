use crate::coord::Coord;
use crate::selection::WorldPoint;
use vstd::prelude::*;

verus! {

/// One mouse button while it is held: the press point alone, or the press
/// point together with the pointer's current position once it has moved.
#[derive(Clone, Copy, Debug)]
enum Button {
    Click(WorldPoint),
    Drag((WorldPoint, WorldPoint)),
}

/// Per-frame mouse state: the pointer position in world units, and what each
/// of the two buttons is doing.
#[derive(Clone, Copy, Debug)]
pub struct Mouse {
    position: WorldPoint,
    left: Option<Button>,
    right: Option<Button>,
}

impl Mouse {
    /// The pointer position of the last frame.
    pub closed spec fn spec_position(self) -> WorldPoint {
        self.position
    }

    /// The left button's press point and, while dragging, the current point.
    pub closed spec fn spec_left_button(self) -> Option<(WorldPoint, Option<WorldPoint>)> {
        match self.left {
            Some(Button::Click(p)) => Some((p, None)),
            Some(Button::Drag((f, t))) => Some((f, Some(t))),
            None => None,
        }
    }

    /// The right button's press point and, while dragging, the current point.
    pub closed spec fn spec_right_button(self) -> Option<(WorldPoint, Option<WorldPoint>)> {
        match self.right {
            Some(Button::Click(p)) => Some((p, None)),
            Some(Button::Drag((f, t))) => Some((f, Some(t))),
            None => None,
        }
    }

    pub fn new() -> (m: Mouse)
        ensures
            m.spec_left_button() == None::<(WorldPoint, Option<WorldPoint>)>,
            m.spec_right_button() == None::<(WorldPoint, Option<WorldPoint>)>,
            m.spec_position() == (WorldPoint { cell: Coord { x: 0, y: 0 }, fx: 0, fy: 0 }),
    {
        Mouse {
            position: WorldPoint { cell: Coord { x: 0, y: 0 }, fx: 0, fy: 0 },
            left: None,
            right: None,
        }
    }

    /// Absorb one frame of raw input: the pointer position and whether each
    /// button is physically down. A button that stays down turns its click
    /// into a drag that follows the pointer; a released button forgets its
    /// state.
    pub fn update(&mut self, position: WorldPoint, left_down: bool, right_down: bool)
        ensures
            final(self).spec_position() == position,
            final(self).spec_left_button() == (if left_down {
                match old(self).spec_left_button() {
                    Some((origin, _)) => Some((origin, Some(position))),
                    None => Some((position, None::<WorldPoint>)),
                }
            } else {
                None::<(WorldPoint, Option<WorldPoint>)>
            }),
            final(self).spec_right_button() == (if right_down {
                match old(self).spec_right_button() {
                    Some((origin, _)) => Some((origin, Some(position))),
                    None => Some((position, None::<WorldPoint>)),
                }
            } else {
                None::<(WorldPoint, Option<WorldPoint>)>
            }),
    {
        self.position = position;
        self.left = if left_down {
            match self.left {
                Some(Button::Click(p)) => Some(Button::Drag((p, position))),
                Some(Button::Drag((f, _))) => Some(Button::Drag((f, position))),
                None => Some(Button::Click(position)),
            }
        } else {
            None
        };
        self.right = if right_down {
            match self.right {
                Some(Button::Click(p)) => Some(Button::Drag((p, position))),
                Some(Button::Drag((f, _))) => Some(Button::Drag((f, position))),
                None => Some(Button::Click(position)),
            }
        } else {
            None
        };
    }

    pub fn position(&self) -> (p: WorldPoint)
        ensures
            p == self.spec_position(),
    {
        self.position
    }

    /// Whether the left button is held.
    pub fn left(&self) -> (b: bool)
        ensures
            b == (self.spec_left_button() is Some),
    {
        self.left.is_some()
    }

    /// Whether the right button is held.
    pub fn right(&self) -> (b: bool)
        ensures
            b == (self.spec_right_button() is Some),
    {
        self.right.is_some()
    }

    /// The left press point, while the button is down but has not moved.
    pub fn left_click(&self) -> (r: Option<WorldPoint>)
        ensures
            r == (match self.spec_left_button() {
                Some((origin, None)) => Some(origin),
                _ => None::<WorldPoint>,
            }),
    {
        match self.left {
            Some(Button::Click(p)) => Some(p),
            _ => None,
        }
    }

    /// The left drag, from press point to current point, once it has moved.
    pub fn left_drag(&self) -> (r: Option<(WorldPoint, WorldPoint)>)
        ensures
            r == (match self.spec_left_button() {
                Some((origin, Some(current))) => Some((origin, current)),
                _ => None::<(WorldPoint, WorldPoint)>,
            }),
    {
        match self.left {
            Some(Button::Drag(d)) => Some(d),
            _ => None,
        }
    }

    /// The right press point, while the button is down but has not moved.
    pub fn right_click(&self) -> (r: Option<WorldPoint>)
        ensures
            r == (match self.spec_right_button() {
                Some((origin, None)) => Some(origin),
                _ => None::<WorldPoint>,
            }),
    {
        match self.right {
            Some(Button::Click(p)) => Some(p),
            _ => None,
        }
    }

    /// The right drag, from press point to current point, once it has moved.
    pub fn right_drag(&self) -> (r: Option<(WorldPoint, WorldPoint)>)
        ensures
            r == (match self.spec_right_button() {
                Some((origin, Some(current))) => Some((origin, current)),
                _ => None::<(WorldPoint, WorldPoint)>,
            }),
    {
        match self.right {
            Some(Button::Drag(d)) => Some(d),
            _ => None,
        }
    }
}

} // verus!
