use crate::tile::{wall_side_mid_left, wall_side_mid_right, Tile};
use vstd::prelude::*;

verus! {

/// Relies on rand's `Rng::gen_range` over `0..n`: the sample lies in the
/// half-open range; the call panics only on an empty range, which the
/// precondition rules out.
#[verifier::external_body]
fn sample_below(n: usize) -> (r: usize)
    requires
        n > 0,
    ensures
        r < n,
{
    rand::Rng::gen_range(&mut rand::thread_rng(), 0..n)
}

/// The kinds of floor tile that can be painted on a cell.
#[derive(Clone, Copy, PartialEq, Eq, Structural, Debug)]
pub enum FloorEnum {
    Floor,
    Cracks1,
    Cracks2,
    Cracks3,
    Cracks4,
    Cracks5,
    Cracks6,
    Cracks7,
    Ladder,
    Spikes,
    Hole,
    Edge,
}

impl FloorEnum {
    /// Every floor kind, in declaration order.
    pub open spec fn all_spec() -> Seq<FloorEnum> {
        seq![
            FloorEnum::Floor,
            FloorEnum::Cracks1,
            FloorEnum::Cracks2,
            FloorEnum::Cracks3,
            FloorEnum::Cracks4,
            FloorEnum::Cracks5,
            FloorEnum::Cracks6,
            FloorEnum::Cracks7,
            FloorEnum::Ladder,
            FloorEnum::Spikes,
            FloorEnum::Hole,
            FloorEnum::Edge,
        ]
    }

    pub fn all() -> (r: [FloorEnum; 12])
        ensures
            r@ == FloorEnum::all_spec(),
    {
        let r = [
            FloorEnum::Floor,
            FloorEnum::Cracks1,
            FloorEnum::Cracks2,
            FloorEnum::Cracks3,
            FloorEnum::Cracks4,
            FloorEnum::Cracks5,
            FloorEnum::Cracks6,
            FloorEnum::Cracks7,
            FloorEnum::Ladder,
            FloorEnum::Spikes,
            FloorEnum::Hole,
            FloorEnum::Edge,
        ];
        proof {
            assert(r@ =~= FloorEnum::all_spec());
        }
        r
    }

    pub fn from_usize(u: usize) -> (r: FloorEnum)
        ensures
            r == FloorEnum::all_spec()[(u % 12) as int],
    {
        let all = FloorEnum::all();
        all[u % 12]
    }

    /// A floor kind drawn at random; any of the twelve may come back.
    pub fn random() -> (r: FloorEnum)
        ensures
            FloorEnum::all_spec().contains(r),
    {
        let u = sample_below(12);
        let r = FloorEnum::from_usize(u);
        proof {
            assert(FloorEnum::all_spec()[u as int] == r);
        }
        r
    }

    /// The atlas rectangle that draws this floor kind.
    pub open spec fn spec_tile(self) -> Tile {
        match self {
            FloorEnum::Floor => Tile { x: 16, y: 64, w: 16, h: 16 },
            FloorEnum::Cracks1 => Tile { x: 32, y: 64, w: 16, h: 16 },
            FloorEnum::Cracks2 => Tile { x: 48, y: 64, w: 16, h: 16 },
            FloorEnum::Cracks3 => Tile { x: 16, y: 80, w: 16, h: 16 },
            FloorEnum::Cracks4 => Tile { x: 32, y: 80, w: 16, h: 16 },
            FloorEnum::Cracks5 => Tile { x: 48, y: 80, w: 16, h: 16 },
            FloorEnum::Cracks6 => Tile { x: 16, y: 96, w: 16, h: 16 },
            FloorEnum::Cracks7 => Tile { x: 32, y: 96, w: 16, h: 16 },
            FloorEnum::Ladder => Tile { x: 48, y: 96, w: 16, h: 16 },
            FloorEnum::Spikes => Tile { x: 16, y: 176, w: 16, h: 16 },
            FloorEnum::Hole => Tile { x: 96, y: 144, w: 16, h: 16 },
            FloorEnum::Edge => Tile { x: 96, y: 128, w: 16, h: 16 },
        }
    }

    pub fn tile(&self) -> (t: Tile)
        ensures
            t == self.spec_tile(),
    {
        match self {
            FloorEnum::Floor => Tile::new(16, 64, 16, 16),
            FloorEnum::Cracks1 => Tile::new(32, 64, 16, 16),
            FloorEnum::Cracks2 => Tile::new(48, 64, 16, 16),
            FloorEnum::Cracks3 => Tile::new(16, 80, 16, 16),
            FloorEnum::Cracks4 => Tile::new(32, 80, 16, 16),
            FloorEnum::Cracks5 => Tile::new(48, 80, 16, 16),
            FloorEnum::Cracks6 => Tile::new(16, 96, 16, 16),
            FloorEnum::Cracks7 => Tile::new(32, 96, 16, 16),
            FloorEnum::Ladder => Tile::new(48, 96, 16, 16),
            FloorEnum::Spikes => Tile::new(16, 176, 16, 16),
            FloorEnum::Hole => Tile::new(96, 144, 16, 16),
            FloorEnum::Edge => Tile::new(96, 128, 16, 16),
        }
    }
}

/// The kinds of wall face that can be placed at the bottom of a cell.
#[derive(Clone, Copy, PartialEq, Eq, Structural, Debug)]
pub enum WallEnum {
    Wall,
    SmallHole,
    BigHole,
    RedBanner,
    GreenBanner,
    BlueBanner,
    YellowBanner,
    LavaFountain,
    WaterFountain,
    Goo,
}

impl WallEnum {
    /// Every wall kind, in declaration order.
    pub open spec fn all_spec() -> Seq<WallEnum> {
        seq![
            WallEnum::Wall,
            WallEnum::SmallHole,
            WallEnum::BigHole,
            WallEnum::RedBanner,
            WallEnum::GreenBanner,
            WallEnum::BlueBanner,
            WallEnum::YellowBanner,
            WallEnum::LavaFountain,
            WallEnum::WaterFountain,
            WallEnum::Goo,
        ]
    }

    pub fn all() -> (r: [WallEnum; 10])
        ensures
            r@ == WallEnum::all_spec(),
    {
        let r = [
            WallEnum::Wall,
            WallEnum::SmallHole,
            WallEnum::BigHole,
            WallEnum::RedBanner,
            WallEnum::GreenBanner,
            WallEnum::BlueBanner,
            WallEnum::YellowBanner,
            WallEnum::LavaFountain,
            WallEnum::WaterFountain,
            WallEnum::Goo,
        ];
        proof {
            assert(r@ =~= WallEnum::all_spec());
        }
        r
    }

    pub fn from_usize(u: usize) -> (r: WallEnum)
        ensures
            r == WallEnum::all_spec()[(u % 10) as int],
    {
        let all = WallEnum::all();
        all[u % 10]
    }

    /// A wall kind drawn at random; any of the ten may come back.
    pub fn random() -> (r: WallEnum)
        ensures
            WallEnum::all_spec().contains(r),
    {
        let u = sample_below(10);
        let r = WallEnum::from_usize(u);
        proof {
            assert(WallEnum::all_spec()[u as int] == r);
        }
        r
    }

    /// The atlas rectangle that draws this wall kind.
    pub open spec fn spec_tile(self) -> Tile {
        match self {
            WallEnum::Wall => Tile { x: 32, y: 16, w: 16, h: 16 },
            WallEnum::SmallHole => Tile { x: 48, y: 32, w: 16, h: 16 },
            WallEnum::BigHole => Tile { x: 48, y: 48, w: 16, h: 16 },
            WallEnum::RedBanner => Tile { x: 16, y: 32, w: 16, h: 16 },
            WallEnum::GreenBanner => Tile { x: 16, y: 48, w: 16, h: 16 },
            WallEnum::BlueBanner => Tile { x: 32, y: 32, w: 16, h: 16 },
            WallEnum::YellowBanner => Tile { x: 32, y: 48, w: 16, h: 16 },
            WallEnum::LavaFountain => Tile { x: 64, y: 16, w: 16, h: 16 },
            WallEnum::WaterFountain => Tile { x: 64, y: 48, w: 16, h: 16 },
            WallEnum::Goo => Tile { x: 64, y: 80, w: 16, h: 16 },
        }
    }

    pub fn tile(&self) -> (t: Tile)
        ensures
            t == self.spec_tile(),
    {
        match self {
            WallEnum::Wall => Tile::new(32, 16, 16, 16),
            WallEnum::SmallHole => Tile::new(48, 32, 16, 16),
            WallEnum::BigHole => Tile::new(48, 48, 16, 16),
            WallEnum::RedBanner => Tile::new(16, 32, 16, 16),
            WallEnum::GreenBanner => Tile::new(16, 48, 16, 16),
            WallEnum::BlueBanner => Tile::new(32, 32, 16, 16),
            WallEnum::YellowBanner => Tile::new(32, 48, 16, 16),
            WallEnum::LavaFountain => Tile::new(64, 16, 16, 16),
            WallEnum::WaterFountain => Tile::new(64, 48, 16, 16),
            WallEnum::Goo => Tile::new(64, 80, 16, 16),
        }
    }
}

impl Default for WallEnum {
    fn default() -> (r: WallEnum)
        ensures
            r == WallEnum::Wall,
    {
        WallEnum::Wall
    }
}

/// An entry of the tile palette: either a floor kind or a wall kind.
#[derive(Clone, Copy, PartialEq, Eq, Structural, Debug)]
pub enum Element {
    Floor(FloorEnum),
    Wall(WallEnum),
}

impl Element {
    /// The atlas rectangle of the wrapped kind.
    pub open spec fn spec_tile(self) -> Tile {
        match self {
            Element::Floor(floor) => floor.spec_tile(),
            Element::Wall(wall) => wall.spec_tile(),
        }
    }

    pub fn tile(&self) -> (t: Tile)
        ensures
            t == self.spec_tile(),
    {
        match self {
            Element::Floor(floor) => floor.tile(),
            Element::Wall(wall) => wall.tile(),
        }
    }
}

/// The rotation applied to a floor tile at render time. It never alters the
/// identity of the cell's floor entry.
#[derive(Clone, Copy, PartialEq, Eq, Structural, Debug)]
pub enum Orientation {
    North,
    East,
    South,
    West,
}

impl Orientation {
    /// One quarter turn clockwise.
    pub open spec fn spec_rotate_right(self) -> Orientation {
        match self {
            Orientation::North => Orientation::East,
            Orientation::East => Orientation::South,
            Orientation::South => Orientation::West,
            Orientation::West => Orientation::North,
        }
    }

    /// One quarter turn counter-clockwise.
    pub open spec fn spec_rotate_left(self) -> Orientation {
        match self {
            Orientation::North => Orientation::West,
            Orientation::East => Orientation::North,
            Orientation::South => Orientation::East,
            Orientation::West => Orientation::South,
        }
    }

    pub fn rotate_right(&mut self)
        ensures
            *final(self) == old(self).spec_rotate_right(),
    {
        *self = match *self {
            Orientation::North => Orientation::East,
            Orientation::East => Orientation::South,
            Orientation::South => Orientation::West,
            Orientation::West => Orientation::North,
        };
    }

    pub fn rotate_left(&mut self)
        ensures
            *final(self) == old(self).spec_rotate_left(),
    {
        *self = match *self {
            Orientation::North => Orientation::West,
            Orientation::East => Orientation::North,
            Orientation::South => Orientation::East,
            Orientation::West => Orientation::South,
        };
    }
}

/// The wall record of one cell: an optional bottom face and two side flags.
/// A record whose three parts are all absent carries no information.
#[derive(Clone, Copy, PartialEq, Eq, Structural, Debug)]
pub struct Walls {
    pub bottom: Option<WallEnum>,
    pub left: bool,
    pub right: bool,
}

impl Walls {
    /// The record with nothing placed; what a cell outside the wall layer
    /// stands for.
    pub open spec fn absent() -> Walls {
        Walls { bottom: None, left: false, right: false }
    }

    pub fn new(bottom: Option<WallEnum>, left: bool, right: bool) -> (w: Walls)
        ensures
            w == (Walls { bottom, left, right }),
    {
        Walls { bottom, left, right }
    }

    pub fn with_bottom(bottom: Option<WallEnum>) -> (w: Walls)
        ensures
            w == (Walls { bottom, left: false, right: false }),
    {
        Walls { bottom, left: false, right: false }
    }

    pub fn with_left(left: bool) -> (w: Walls)
        ensures
            w == (Walls { bottom: None::<WallEnum>, left, right: false }),
    {
        Walls { bottom: None, left, right: false }
    }

    pub fn with_right(right: bool) -> (w: Walls)
        ensures
            w == (Walls { bottom: None::<WallEnum>, left: false, right }),
    {
        Walls { bottom: None, left: false, right }
    }

    /// The up-to-three atlas rectangles that draw the centre cell of a 3 by 3
    /// neighbourhood: its bottom face, then its left and right side flags.
    pub fn tile(grid: [[Walls; 3]; 3]) -> (r: [Option<Tile>; 3])
        ensures
            r@ == (seq![
                match grid[1][1].bottom {
                    Some(wall) => Some(wall.spec_tile()),
                    None => None,
                },
                if grid[1][1].left {
                    Some(wall_side_mid_right())
                } else {
                    None
                },
                if grid[1][1].right {
                    Some(wall_side_mid_left())
                } else {
                    None
                },
            ]),
    {
        let m = grid[1][1];
        let r = [
            match m.bottom {
                Some(wall) => Some(wall.tile()),
                None => None,
            },
            if m.left {
                Some(Tile::new(16, 128, 16, 16))
            } else {
                None
            },
            if m.right {
                Some(Tile::new(0, 128, 16, 16))
            } else {
                None
            },
        ];
        proof {
            assert(r@ =~= seq![r[0], r[1], r[2]]);
        }
        r
    }
}

impl Default for Walls {
    fn default() -> (w: Walls)
        ensures
            w == Walls::absent(),
    {
        Walls { bottom: None, left: false, right: false }
    }
}

} // verus!
