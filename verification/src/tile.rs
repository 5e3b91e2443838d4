use vstd::prelude::*;

verus! {

/// A rectangle of the sprite atlas, in texel units. The renderer divides the
/// fields by the atlas size to obtain texture coordinates.
#[derive(Clone, Copy, PartialEq, Eq, Structural, Debug)]
pub struct Tile {
    pub x: u16,
    pub y: u16,
    pub w: u16,
    pub h: u16,
}

impl Tile {
    pub fn new(x: u16, y: u16, w: u16, h: u16) -> (t: Tile)
        ensures
            t == (Tile { x, y, w, h }),
    {
        Tile { x, y, w, h }
    }
}

/// The atlas rectangle of a wall segment seen from its right side.
pub open spec fn wall_side_mid_right() -> Tile {
    Tile { x: 16, y: 128, w: 16, h: 16 }
}

/// The atlas rectangle of a wall segment seen from its left side.
pub open spec fn wall_side_mid_left() -> Tile {
    Tile { x: 0, y: 128, w: 16, h: 16 }
}

} // verus!
