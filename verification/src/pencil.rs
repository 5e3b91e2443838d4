use crate::elements::{FloorEnum, Orientation, WallEnum};
use crate::keyboard::{Key, Keyboard};
use crate::scene_view::{spec_thirds, WallThird};
use crate::tile::{wall_side_mid_left, wall_side_mid_right, Tile};
use vstd::prelude::*;

verus! {

/// The active drawing tool: a floor kind with its render orientation, or a
/// wall kind.
#[derive(Clone, Copy, PartialEq, Debug)]
pub enum Pencil {
    Floor((FloorEnum, Orientation)),
    Wall(WallEnum),
}

impl Pencil {
    /// On a fresh R press, turn a floor tool's orientation one quarter;
    /// shift turns the other way. A wall tool is unaffected.
    pub fn events(&mut self, keyboard: &Keyboard)
        ensures
            *final(self) == (if keyboard.spec_pressed(Key::R) {
                match *old(self) {
                    Pencil::Floor((f, o)) => Pencil::Floor(
                        (
                            f,
                            if keyboard.spec_mods().shift {
                                o.spec_rotate_left()
                            } else {
                                o.spec_rotate_right()
                            },
                        ),
                    ),
                    Pencil::Wall(w) => Pencil::Wall(w),
                }
            } else {
                *old(self)
            }),
    {
        let shift = keyboard.shift();
        if keyboard.is_pressed(Key::R) {
            match self {
                Pencil::Floor((_, orientation)) => {
                    if shift {
                        orientation.rotate_left();
                    } else {
                        orientation.rotate_right();
                    }
                },
                Pencil::Wall(_) => {},
            }
        }
    }

    /// The atlas rectangle a tool preview shows under the pointer: a floor
    /// tool shows its tile; a wall tool shows the wall face that the
    /// pointer's third of its cell addresses, `fx` being the fractional x
    /// in hundredths of a cell.
    pub fn preview_tile(&self, fx: u8) -> (t: Tile)
        ensures
            t == (match *self {
                Pencil::Floor((f, _)) => f.spec_tile(),
                Pencil::Wall(w) => match spec_thirds(fx as int) {
                    WallThird::Left => wall_side_mid_right(),
                    WallThird::Bottom => w.spec_tile(),
                    WallThird::Right => wall_side_mid_left(),
                },
            }),
    {
        match self {
            Pencil::Floor((floor, _)) => floor.tile(),
            Pencil::Wall(wall) => {
                if fx < 33 {
                    Tile::new(16, 128, 16, 16)
                } else if fx <= 67 {
                    wall.tile()
                } else {
                    Tile::new(0, 128, 16, 16)
                }
            },
        }
    }
}

} // verus!
