use vstd::prelude::*;

verus! {

/// Which screen of the editor is active: the scene being authored, or the
/// tile palette picker.
#[derive(Clone, Copy, PartialEq, Eq, Structural, Debug)]
pub enum Views {
    Scene,
    Tiles,
}

impl Views {
    /// Toggle between the scene and the tile palette.
    pub fn switch(&mut self)
        ensures
            *final(self) == (match *old(self) {
                Views::Scene => Views::Tiles,
                Views::Tiles => Views::Scene,
            }),
    {
        *self = match *self {
            Views::Scene => Views::Tiles,
            Views::Tiles => Views::Scene,
        };
    }
}

} // verus!
