use crate::elements::{Element, FloorEnum, Orientation, WallEnum};
use crate::pencil::Pencil;
use vstd::prelude::*;

verus! {

/// How many entries the tile palette has: twelve floors, then ten walls.
pub const PALETTE_LEN: usize = 22;

/// The palette entry at one index.
pub open spec fn palette_spec(i: int) -> Element {
    if i < 12 {
        Element::Floor(FloorEnum::all_spec()[i])
    } else {
        Element::Wall(WallEnum::all_spec()[i - 12])
    }
}

/// The palette entry at one index.
pub fn palette_element(i: usize) -> (e: Element)
    requires
        i < PALETTE_LEN,
    ensures
        e == palette_spec(i as int),
{
    if i < 12 {
        Element::Floor(FloorEnum::from_usize(i))
    } else {
        Element::Wall(WallEnum::from_usize(i - 12))
    }
}

/// The tile palette screen: which entry is selected, if any.
#[derive(Clone, Copy, Debug)]
pub struct TilesView {
    selected: Option<usize>,
}

impl TilesView {
    pub closed spec fn spec_selected(self) -> Option<usize> {
        self.selected
    }

    /// A selected index points into the palette.
    pub open spec fn wf(self) -> bool {
        self.spec_selected() matches Some(i) ==> i < PALETTE_LEN
    }

    pub fn new() -> (t: TilesView)
        ensures
            t.spec_selected() == None::<usize>,
            t.wf(),
    {
        TilesView { selected: None }
    }

    /// Record which palette entry the pointer press hit, if any.
    pub fn events(&mut self, hit: Option<usize>)
        requires
            hit matches Some(i) ==> i < PALETTE_LEN,
        ensures
            final(self).spec_selected() == hit,
            final(self).wf(),
    {
        self.selected = hit;
    }

    /// Hand the selected element to the pencil; a floor tool starts facing
    /// north. With nothing selected the pencil is put down.
    pub fn update(&mut self, pencil: &mut Option<Pencil>)
        requires
            old(self).wf(),
        ensures
            *final(self) == *old(self),
            *final(pencil) == (match old(self).spec_selected() {
                Some(i) => Some(
                    match palette_spec(i as int) {
                        Element::Floor(f) => Pencil::Floor((f, Orientation::North)),
                        Element::Wall(w) => Pencil::Wall(w),
                    },
                ),
                None => None::<Pencil>,
            }),
    {
        match self.selected {
            Some(i) => {
                match palette_element(i) {
                    Element::Floor(f) => {
                        *pencil = Some(Pencil::Floor((f, Orientation::North)));
                    },
                    Element::Wall(w) => {
                        *pencil = Some(Pencil::Wall(w));
                    },
                }
            },
            None => {
                *pencil = None;
            },
        }
    }
}

} // verus!
