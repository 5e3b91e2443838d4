use crate::coord::{
    in_rect, rect_fill, rect_set, translate, translate_map, translate_ok, Coord,
    lemma_translate_map_empty, lemma_translate_map_insert,
};
use crate::elements::{FloorEnum, Orientation, WallEnum, Walls};
use crate::gridmap::{assoc_map, lemma_assoc_map_push, GridMap};
use crate::scene_view::Show;
use std::ops::Range;
use vstd::prelude::*;

verus! {

/// The floor layer: each occupied cell holds a kind and a render orientation.
pub type SceneFloors = GridMap<(FloorEnum, Orientation)>;

/// The wall layer: each occupied cell holds a wall record.
pub type SceneWalls = GridMap<Walls>;

/// A floor entry with its orientation turned one quarter.
pub open spec fn spec_rotated(e: (FloorEnum, Orientation), clockwise: bool) -> (
    FloorEnum,
    Orientation,
) {
    (
        e.0,
        if clockwise {
            e.1.spec_rotate_right()
        } else {
            e.1.spec_rotate_left()
        },
    )
}

/// The floor map with every occupied cell of the rectangle rotated in place;
/// cells outside the rectangle, and unoccupied cells, are untouched.
pub open spec fn rotate_in_rect(
    m: Map<Coord, (FloorEnum, Orientation)>,
    x0: int,
    x1: int,
    y0: int,
    y1: int,
    clockwise: bool,
) -> Map<Coord, (FloorEnum, Orientation)> {
    Map::new(
        |c: Coord| m.dom().contains(c),
        |c: Coord|
            if in_rect(x0, x1, y0, y1, c) {
                spec_rotated(m[c], clockwise)
            } else {
                m[c]
            },
    )
}

/// The wall map with the bottom face of every cell of the rectangle set to
/// `wall`, creating blank records where none existed.
pub open spec fn set_bottom_in_rect(
    m: Map<Coord, Walls>,
    x0: int,
    x1: int,
    y0: int,
    y1: int,
    wall: Option<WallEnum>,
) -> Map<Coord, Walls> {
    Map::new(
        |c: Coord| m.dom().contains(c) || in_rect(x0, x1, y0, y1, c),
        |c: Coord|
            if in_rect(x0, x1, y0, y1, c) {
                let w = if m.dom().contains(c) {
                    m[c]
                } else {
                    Walls::absent()
                };
                Walls { bottom: wall, left: w.left, right: w.right }
            } else {
                m[c]
            },
    )
}

/// The wall map with the left flag of every cell of the rectangle set.
pub open spec fn set_left_in_rect(
    m: Map<Coord, Walls>,
    x0: int,
    x1: int,
    y0: int,
    y1: int,
    flag: bool,
) -> Map<Coord, Walls> {
    Map::new(
        |c: Coord| m.dom().contains(c) || in_rect(x0, x1, y0, y1, c),
        |c: Coord|
            if in_rect(x0, x1, y0, y1, c) {
                let w = if m.dom().contains(c) {
                    m[c]
                } else {
                    Walls::absent()
                };
                Walls { bottom: w.bottom, left: flag, right: w.right }
            } else {
                m[c]
            },
    )
}

/// The wall map with the right flag of every cell of the rectangle set.
pub open spec fn set_right_in_rect(
    m: Map<Coord, Walls>,
    x0: int,
    x1: int,
    y0: int,
    y1: int,
    flag: bool,
) -> Map<Coord, Walls> {
    Map::new(
        |c: Coord| m.dom().contains(c) || in_rect(x0, x1, y0, y1, c),
        |c: Coord|
            if in_rect(x0, x1, y0, y1, c) {
                let w = if m.dom().contains(c) {
                    m[c]
                } else {
                    Walls::absent()
                };
                Walls { bottom: w.bottom, left: w.left, right: flag }
            } else {
                m[c]
            },
    )
}

/// The sparse document: two independent layers over the same infinite grid.
/// A cell may carry a floor entry, a wall entry, both, or neither.
#[derive(Debug)]
pub struct Scene {
    pub floors: SceneFloors,
    pub walls: SceneWalls,
}

impl Scene {
    /// Both layers are well-formed stores.
    pub open spec fn wf(self) -> bool {
        self.floors.wf() && self.walls.wf()
    }

    pub fn new() -> (s: Scene)
        ensures
            s.wf(),
            s.floors@ == Map::<Coord, (FloorEnum, Orientation)>::empty(),
            s.walls@ == Map::<Coord, Walls>::empty(),
    {
        Scene { floors: GridMap::new(), walls: GridMap::new() }
    }

    /// Insert or overwrite the floor entry of every cell in the range.
    pub fn add_floor(
        &mut self,
        floor: FloorEnum,
        orientation: Orientation,
        ranges: (Range<i16>, Range<i16>),
    )
        requires
            old(self).wf(),
        ensures
            final(self).wf(),
            final(self).floors@ == old(self).floors@.union_prefer_right(
                rect_fill(
                    ranges.0.start as int,
                    ranges.0.end as int,
                    ranges.1.start as int,
                    ranges.1.end as int,
                    (floor, orientation),
                ),
            ),
            final(self).walls@ == old(self).walls@,
    {
        let (x, y) = ranges;
        let (x0, x1) = (x.start, x.end);
        let (y0, y1) = (y.start, y.end);
        let ghost v = (floor, orientation);
        let mut i: i16 = x0;
        proof {
            assert(self.floors@ =~= old(self).floors@.union_prefer_right(
                rect_fill(x0 as int, i as int, y0 as int, y1 as int, v),
            ));
        }
        while i < x1
            invariant
                x0 <= i,
                i <= x1 || i == x0,
                v == (floor, orientation),
                self.wf(),
                self.walls@ == old(self).walls@,
                self.floors@ == old(self).floors@.union_prefer_right(
                    rect_fill(x0 as int, i as int, y0 as int, y1 as int, v),
                ),
            decreases x1 - i,
        {
            let mut j: i16 = y0;
            proof {
                assert(self.floors@ =~= old(self).floors@.union_prefer_right(
                    rect_fill(x0 as int, i as int, y0 as int, y1 as int, v),
                ).union_prefer_right(
                    rect_fill(i as int, i + 1, y0 as int, j as int, v),
                ));
            }
            while j < y1
                invariant
                    y0 <= j,
                    j <= y1 || j == y0,
                    x0 <= i < x1,
                    v == (floor, orientation),
                    self.wf(),
                    self.walls@ == old(self).walls@,
                    self.floors@ == old(self).floors@.union_prefer_right(
                        rect_fill(x0 as int, i as int, y0 as int, y1 as int, v),
                    ).union_prefer_right(
                        rect_fill(i as int, i + 1, y0 as int, j as int, v),
                    ),
                decreases y1 - j,
            {
                self.floors.insert(Coord { x: i, y: j }, (floor, orientation));
                proof {
                    assert(self.floors@ =~= old(self).floors@.union_prefer_right(
                        rect_fill(x0 as int, i as int, y0 as int, y1 as int, v),
                    ).union_prefer_right(
                        rect_fill(i as int, i + 1, y0 as int, j + 1, v),
                    ));
                }
                j = j + 1;
            }
            proof {
                assert(self.floors@ =~= old(self).floors@.union_prefer_right(
                    rect_fill(x0 as int, i + 1, y0 as int, y1 as int, v),
                ));
            }
            i = i + 1;
        }
        proof {
            assert(self.floors@ =~= old(self).floors@.union_prefer_right(
                rect_fill(
                    ranges.0.start as int,
                    ranges.0.end as int,
                    ranges.1.start as int,
                    ranges.1.end as int,
                    v,
                ),
            ));
        }
    }

    /// Delete the floor entry of every cell in the range; cells without one
    /// are left alone.
    pub fn remove_floor(&mut self, ranges: (Range<i16>, Range<i16>))
        requires
            old(self).wf(),
        ensures
            final(self).wf(),
            final(self).floors@ == old(self).floors@.remove_keys(
                rect_set(
                    ranges.0.start as int,
                    ranges.0.end as int,
                    ranges.1.start as int,
                    ranges.1.end as int,
                ),
            ),
            final(self).walls@ == old(self).walls@,
    {
        let (x, y) = ranges;
        let (x0, x1) = (x.start, x.end);
        let (y0, y1) = (y.start, y.end);
        let mut i: i16 = x0;
        proof {
            assert(self.floors@ =~= old(self).floors@.remove_keys(
                rect_set(x0 as int, i as int, y0 as int, y1 as int),
            ));
        }
        while i < x1
            invariant
                x0 <= i,
                i <= x1 || i == x0,
                self.wf(),
                self.walls@ == old(self).walls@,
                self.floors@ == old(self).floors@.remove_keys(
                    rect_set(x0 as int, i as int, y0 as int, y1 as int),
                ),
            decreases x1 - i,
        {
            let mut j: i16 = y0;
            proof {
                assert(self.floors@ =~= old(self).floors@.remove_keys(
                    rect_set(x0 as int, i as int, y0 as int, y1 as int),
                ).remove_keys(rect_set(i as int, i + 1, y0 as int, j as int)));
            }
            while j < y1
                invariant
                    y0 <= j,
                    j <= y1 || j == y0,
                    x0 <= i < x1,
                    self.wf(),
                    self.walls@ == old(self).walls@,
                    self.floors@ == old(self).floors@.remove_keys(
                        rect_set(x0 as int, i as int, y0 as int, y1 as int),
                    ).remove_keys(rect_set(i as int, i + 1, y0 as int, j as int)),
                decreases y1 - j,
            {
                self.floors.remove(Coord { x: i, y: j });
                proof {
                    assert(self.floors@ =~= old(self).floors@.remove_keys(
                        rect_set(x0 as int, i as int, y0 as int, y1 as int),
                    ).remove_keys(rect_set(i as int, i + 1, y0 as int, j + 1)));
                }
                j = j + 1;
            }
            proof {
                assert(self.floors@ =~= old(self).floors@.remove_keys(
                    rect_set(x0 as int, i + 1, y0 as int, y1 as int),
                ));
            }
            i = i + 1;
        }
        proof {
            assert(self.floors@ =~= old(self).floors@.remove_keys(
                rect_set(
                    ranges.0.start as int,
                    ranges.0.end as int,
                    ranges.1.start as int,
                    ranges.1.end as int,
                ),
            ));
        }
    }

    /// Turn the orientation of every floor entry in the range one quarter;
    /// cells without a floor entry are skipped, never created.
    pub fn rotate_floor(&mut self, ranges: (Range<i16>, Range<i16>), clockwise: bool)
        requires
            old(self).wf(),
        ensures
            final(self).wf(),
            final(self).floors@ == rotate_in_rect(
                old(self).floors@,
                ranges.0.start as int,
                ranges.0.end as int,
                ranges.1.start as int,
                ranges.1.end as int,
                clockwise,
            ),
            final(self).floors@.dom() == old(self).floors@.dom(),
            final(self).walls@ == old(self).walls@,
    {
        let (x, y) = ranges;
        let (x0, x1) = (x.start, x.end);
        let (y0, y1) = (y.start, y.end);
        let mut i: i16 = x0;
        proof {
            assert(self.floors@ =~= rotate_in_rect(
                old(self).floors@,
                x0 as int,
                i as int,
                y0 as int,
                y1 as int,
                clockwise,
            ));
        }
        while i < x1
            invariant
                x0 <= i,
                i <= x1 || i == x0,
                self.wf(),
                self.walls@ == old(self).walls@,
                self.floors@ == rotate_in_rect(
                    old(self).floors@,
                    x0 as int,
                    i as int,
                    y0 as int,
                    y1 as int,
                    clockwise,
                ),
            decreases x1 - i,
        {
            let mut j: i16 = y0;
            proof {
                assert(self.floors@ =~= rotate_in_rect(
                    rotate_in_rect(
                        old(self).floors@,
                        x0 as int,
                        i as int,
                        y0 as int,
                        y1 as int,
                        clockwise,
                    ),
                    i as int,
                    i + 1,
                    y0 as int,
                    j as int,
                    clockwise,
                ));
            }
            while j < y1
                invariant
                    y0 <= j,
                    j <= y1 || j == y0,
                    x0 <= i < x1,
                    self.wf(),
                    self.walls@ == old(self).walls@,
                    self.floors@ == rotate_in_rect(
                        rotate_in_rect(
                            old(self).floors@,
                            x0 as int,
                            i as int,
                            y0 as int,
                            y1 as int,
                            clockwise,
                        ),
                        i as int,
                        i + 1,
                        y0 as int,
                        j as int,
                        clockwise,
                    ),
                decreases y1 - j,
            {
                let c = Coord { x: i, y: j };
                let ghost before = self.floors@;
                match self.floors.get(c) {
                    Some(e) => {
                        let mut o = e.1;
                        if clockwise {
                            o.rotate_right();
                        } else {
                            o.rotate_left();
                        }
                        self.floors.insert(c, (e.0, o));
                        proof {
                            assert(self.floors@ == before.insert(c, spec_rotated(before[c], clockwise)));
                        }
                    },
                    None => {},
                }
                proof {
                    assert(self.floors@ =~= rotate_in_rect(
                        rotate_in_rect(
                            old(self).floors@,
                            x0 as int,
                            i as int,
                            y0 as int,
                            y1 as int,
                            clockwise,
                        ),
                        i as int,
                        i + 1,
                        y0 as int,
                        j + 1,
                        clockwise,
                    ));
                }
                j = j + 1;
            }
            proof {
                assert(self.floors@ =~= rotate_in_rect(
                    old(self).floors@,
                    x0 as int,
                    i + 1,
                    y0 as int,
                    y1 as int,
                    clockwise,
                ));
            }
            i = i + 1;
        }
        proof {
            assert(self.floors@ =~= rotate_in_rect(
                old(self).floors@,
                ranges.0.start as int,
                ranges.0.end as int,
                ranges.1.start as int,
                ranges.1.end as int,
                clockwise,
            ));
            assert(self.floors@.dom() =~= old(self).floors@.dom());
        }
    }
}

impl Scene {
    /// Extract the floor entries of the range as a detached fragment.
    pub fn copy_floors(&self, ranges: (Range<i16>, Range<i16>)) -> (r: SceneFloors)
        requires
            self.wf(),
        ensures
            r.wf(),
            r@ == self.floors@.restrict(
                rect_set(
                    ranges.0.start as int,
                    ranges.0.end as int,
                    ranges.1.start as int,
                    ranges.1.end as int,
                ),
            ),
    {
        let (x, y) = ranges;
        let (x0, x1) = (x.start, x.end);
        let (y0, y1) = (y.start, y.end);
        let mut copy: SceneFloors = GridMap::new();
        let mut i: i16 = x0;
        proof {
            assert(copy@ =~= self.floors@.restrict(
                rect_set(x0 as int, i as int, y0 as int, y1 as int),
            ));
        }
        while i < x1
            invariant
                x0 <= i,
                i <= x1 || i == x0,
                self.wf(),
                copy.wf(),
                copy@ == self.floors@.restrict(rect_set(x0 as int, i as int, y0 as int, y1 as int)),
            decreases x1 - i,
        {
            let mut j: i16 = y0;
            proof {
                assert(copy@ =~= self.floors@.restrict(
                    rect_set(x0 as int, i as int, y0 as int, y1 as int),
                ).union_prefer_right(
                    self.floors@.restrict(rect_set(i as int, i + 1, y0 as int, j as int)),
                ));
            }
            while j < y1
                invariant
                    y0 <= j,
                    j <= y1 || j == y0,
                    x0 <= i < x1,
                    self.wf(),
                    copy.wf(),
                    copy@ == self.floors@.restrict(
                        rect_set(x0 as int, i as int, y0 as int, y1 as int),
                    ).union_prefer_right(
                        self.floors@.restrict(rect_set(i as int, i + 1, y0 as int, j as int)),
                    ),
                decreases y1 - j,
            {
                let c = Coord { x: i, y: j };
                match self.floors.get(c) {
                    Some(e) => copy.insert(c, e),
                    None => {},
                }
                proof {
                    assert(copy@ =~= self.floors@.restrict(
                        rect_set(x0 as int, i as int, y0 as int, y1 as int),
                    ).union_prefer_right(
                        self.floors@.restrict(rect_set(i as int, i + 1, y0 as int, j + 1)),
                    ));
                }
                j = j + 1;
            }
            proof {
                assert(copy@ =~= self.floors@.restrict(
                    rect_set(x0 as int, i + 1, y0 as int, y1 as int),
                ));
            }
            i = i + 1;
        }
        proof {
            assert(copy@ =~= self.floors@.restrict(
                rect_set(
                    ranges.0.start as int,
                    ranges.0.end as int,
                    ranges.1.start as int,
                    ranges.1.end as int,
                ),
            ));
        }
        copy
    }

    /// Write a floor fragment into the document, each entry translated by
    /// `delta`, overwriting what was at the destination cells.
    pub fn paste_floors(&mut self, floors: SceneFloors, delta: Coord)
        requires
            old(self).wf(),
            floors.wf(),
            forall|c: Coord|
                floors@.dom().contains(c) ==> translate_ok(c, delta.x as int, delta.y as int),
        ensures
            final(self).wf(),
            final(self).floors@ == old(self).floors@.union_prefer_right(
                translate_map(floors@, delta.x as int, delta.y as int),
            ),
            final(self).walls@ == old(self).walls@,
    {
        let n = floors.len();
        let mut k: usize = 0;
        proof {
            lemma_translate_map_empty::<(FloorEnum, Orientation)>(delta.x as int, delta.y as int);
            assert(self.floors@ =~= old(self).floors@.union_prefer_right(
                translate_map(
                    assoc_map(floors.kv_seq().take(k as int)),
                    delta.x as int,
                    delta.y as int,
                ),
            ));
        }
        while k < n
            invariant
                k <= n,
                n == floors.kv_seq().len(),
                floors.wf(),
                forall|c: Coord|
                    floors@.dom().contains(c) ==> translate_ok(c, delta.x as int, delta.y as int),
                self.wf(),
                self.walls@ == old(self).walls@,
                self.floors@ == old(self).floors@.union_prefer_right(
                    translate_map(
                        assoc_map(floors.kv_seq().take(k as int)),
                        delta.x as int,
                        delta.y as int,
                    ),
                ),
            decreases n - k,
        {
            let e = floors.entry_at(k);
            proof {
                floors.lemma_entry_in_view(k as int);
            }
            let c = Coord { x: e.0.x + delta.x, y: e.0.y + delta.y };
            self.floors.insert(c, e.1);
            proof {
                let s = floors.kv_seq();
                let dx = delta.x as int;
                let dy = delta.y as int;
                assert(s.take(k + 1) =~= s.take(k as int).push(s[k as int]));
                lemma_assoc_map_push(s.take(k as int), e.0, e.1);
                lemma_translate_map_insert(assoc_map(s.take(k as int)), e.0, e.1, dx, dy);
                assert(c == translate(e.0, dx, dy));
                assert(self.floors@ =~= old(self).floors@.union_prefer_right(
                    translate_map(assoc_map(s.take(k + 1)), dx, dy),
                ));
            }
            k = k + 1;
        }
        proof {
            assert(floors.kv_seq().take(n as int) =~= floors.kv_seq());
            floors.lemma_view_is_assoc();
        }
    }

    /// Extract the wall entries of the range as a detached fragment.
    pub fn copy_walls(&self, ranges: (Range<i16>, Range<i16>)) -> (r: SceneWalls)
        requires
            self.wf(),
        ensures
            r.wf(),
            r@ == self.walls@.restrict(
                rect_set(
                    ranges.0.start as int,
                    ranges.0.end as int,
                    ranges.1.start as int,
                    ranges.1.end as int,
                ),
            ),
    {
        let (x, y) = ranges;
        let (x0, x1) = (x.start, x.end);
        let (y0, y1) = (y.start, y.end);
        let mut copy: SceneWalls = GridMap::new();
        let mut i: i16 = x0;
        proof {
            assert(copy@ =~= self.walls@.restrict(
                rect_set(x0 as int, i as int, y0 as int, y1 as int),
            ));
        }
        while i < x1
            invariant
                x0 <= i,
                i <= x1 || i == x0,
                self.wf(),
                copy.wf(),
                copy@ == self.walls@.restrict(rect_set(x0 as int, i as int, y0 as int, y1 as int)),
            decreases x1 - i,
        {
            let mut j: i16 = y0;
            proof {
                assert(copy@ =~= self.walls@.restrict(
                    rect_set(x0 as int, i as int, y0 as int, y1 as int),
                ).union_prefer_right(
                    self.walls@.restrict(rect_set(i as int, i + 1, y0 as int, j as int)),
                ));
            }
            while j < y1
                invariant
                    y0 <= j,
                    j <= y1 || j == y0,
                    x0 <= i < x1,
                    self.wf(),
                    copy.wf(),
                    copy@ == self.walls@.restrict(
                        rect_set(x0 as int, i as int, y0 as int, y1 as int),
                    ).union_prefer_right(
                        self.walls@.restrict(rect_set(i as int, i + 1, y0 as int, j as int)),
                    ),
                decreases y1 - j,
            {
                let c = Coord { x: i, y: j };
                match self.walls.get(c) {
                    Some(w) => copy.insert(c, w),
                    None => {},
                }
                proof {
                    assert(copy@ =~= self.walls@.restrict(
                        rect_set(x0 as int, i as int, y0 as int, y1 as int),
                    ).union_prefer_right(
                        self.walls@.restrict(rect_set(i as int, i + 1, y0 as int, j + 1)),
                    ));
                }
                j = j + 1;
            }
            proof {
                assert(copy@ =~= self.walls@.restrict(
                    rect_set(x0 as int, i + 1, y0 as int, y1 as int),
                ));
            }
            i = i + 1;
        }
        proof {
            assert(copy@ =~= self.walls@.restrict(
                rect_set(
                    ranges.0.start as int,
                    ranges.0.end as int,
                    ranges.1.start as int,
                    ranges.1.end as int,
                ),
            ));
        }
        copy
    }

    /// Write a wall fragment into the document, each entry translated by
    /// `delta`, overwriting what was at the destination cells.
    pub fn paste_walls(&mut self, walls: SceneWalls, delta: Coord)
        requires
            old(self).wf(),
            walls.wf(),
            forall|c: Coord|
                walls@.dom().contains(c) ==> translate_ok(c, delta.x as int, delta.y as int),
        ensures
            final(self).wf(),
            final(self).walls@ == old(self).walls@.union_prefer_right(
                translate_map(walls@, delta.x as int, delta.y as int),
            ),
            final(self).floors@ == old(self).floors@,
    {
        let n = walls.len();
        let mut k: usize = 0;
        proof {
            lemma_translate_map_empty::<Walls>(delta.x as int, delta.y as int);
            assert(self.walls@ =~= old(self).walls@.union_prefer_right(
                translate_map(
                    assoc_map(walls.kv_seq().take(k as int)),
                    delta.x as int,
                    delta.y as int,
                ),
            ));
        }
        while k < n
            invariant
                k <= n,
                n == walls.kv_seq().len(),
                walls.wf(),
                forall|c: Coord|
                    walls@.dom().contains(c) ==> translate_ok(c, delta.x as int, delta.y as int),
                self.wf(),
                self.floors@ == old(self).floors@,
                self.walls@ == old(self).walls@.union_prefer_right(
                    translate_map(
                        assoc_map(walls.kv_seq().take(k as int)),
                        delta.x as int,
                        delta.y as int,
                    ),
                ),
            decreases n - k,
        {
            let e = walls.entry_at(k);
            proof {
                walls.lemma_entry_in_view(k as int);
            }
            let c = Coord { x: e.0.x + delta.x, y: e.0.y + delta.y };
            self.walls.insert(c, e.1);
            proof {
                let s = walls.kv_seq();
                let dx = delta.x as int;
                let dy = delta.y as int;
                assert(s.take(k + 1) =~= s.take(k as int).push(s[k as int]));
                lemma_assoc_map_push(s.take(k as int), e.0, e.1);
                lemma_translate_map_insert(assoc_map(s.take(k as int)), e.0, e.1, dx, dy);
                assert(c == translate(e.0, dx, dy));
                assert(self.walls@ =~= old(self).walls@.union_prefer_right(
                    translate_map(assoc_map(s.take(k + 1)), dx, dy),
                ));
            }
            k = k + 1;
        }
        proof {
            assert(walls.kv_seq().take(n as int) =~= walls.kv_seq());
            walls.lemma_view_is_assoc();
        }
    }

    /// Insert or overwrite the whole wall record of every cell in the range.
    pub fn walls(&mut self, walls: Walls, ranges: (Range<i16>, Range<i16>))
        requires
            old(self).wf(),
        ensures
            final(self).wf(),
            final(self).walls@ == old(self).walls@.union_prefer_right(
                rect_fill(
                    ranges.0.start as int,
                    ranges.0.end as int,
                    ranges.1.start as int,
                    ranges.1.end as int,
                    walls,
                ),
            ),
            final(self).floors@ == old(self).floors@,
    {
        let (x, y) = ranges;
        let (x0, x1) = (x.start, x.end);
        let (y0, y1) = (y.start, y.end);
        let mut i: i16 = x0;
        proof {
            assert(self.walls@ =~= old(self).walls@.union_prefer_right(
                rect_fill(x0 as int, i as int, y0 as int, y1 as int, walls),
            ));
        }
        while i < x1
            invariant
                x0 <= i,
                i <= x1 || i == x0,
                self.wf(),
                self.floors@ == old(self).floors@,
                self.walls@ == old(self).walls@.union_prefer_right(
                    rect_fill(x0 as int, i as int, y0 as int, y1 as int, walls),
                ),
            decreases x1 - i,
        {
            let mut j: i16 = y0;
            proof {
                assert(self.walls@ =~= old(self).walls@.union_prefer_right(
                    rect_fill(x0 as int, i as int, y0 as int, y1 as int, walls),
                ).union_prefer_right(
                    rect_fill(i as int, i + 1, y0 as int, j as int, walls),
                ));
            }
            while j < y1
                invariant
                    y0 <= j,
                    j <= y1 || j == y0,
                    x0 <= i < x1,
                    self.wf(),
                    self.floors@ == old(self).floors@,
                    self.walls@ == old(self).walls@.union_prefer_right(
                        rect_fill(x0 as int, i as int, y0 as int, y1 as int, walls),
                    ).union_prefer_right(
                        rect_fill(i as int, i + 1, y0 as int, j as int, walls),
                    ),
                decreases y1 - j,
            {
                self.walls.insert(Coord { x: i, y: j }, walls);
                proof {
                    assert(self.walls@ =~= old(self).walls@.union_prefer_right(
                        rect_fill(x0 as int, i as int, y0 as int, y1 as int, walls),
                    ).union_prefer_right(
                        rect_fill(i as int, i + 1, y0 as int, j + 1, walls),
                    ));
                }
                j = j + 1;
            }
            proof {
                assert(self.walls@ =~= old(self).walls@.union_prefer_right(
                    rect_fill(x0 as int, i + 1, y0 as int, y1 as int, walls),
                ));
            }
            i = i + 1;
        }
        proof {
            assert(self.walls@ =~= old(self).walls@.union_prefer_right(
                rect_fill(
                    ranges.0.start as int,
                    ranges.0.end as int,
                    ranges.1.start as int,
                    ranges.1.end as int,
                    walls,
                ),
            ));
        }
    }

    /// Set the bottom face of every cell in the range, creating blank wall
    /// records where none existed.
    pub fn bottom_wall(&mut self, wall: Option<WallEnum>, ranges: (Range<i16>, Range<i16>))
        requires
            old(self).wf(),
        ensures
            final(self).wf(),
            final(self).walls@ == set_bottom_in_rect(
                old(self).walls@,
                ranges.0.start as int,
                ranges.0.end as int,
                ranges.1.start as int,
                ranges.1.end as int,
                wall,
            ),
            final(self).floors@ == old(self).floors@,
    {
        let (x, y) = ranges;
        let (x0, x1) = (x.start, x.end);
        let (y0, y1) = (y.start, y.end);
        let mut i: i16 = x0;
        proof {
            assert(self.walls@ =~= set_bottom_in_rect(
                old(self).walls@,
                x0 as int,
                i as int,
                y0 as int,
                y1 as int,
                wall,
            ));
        }
        while i < x1
            invariant
                x0 <= i,
                i <= x1 || i == x0,
                self.wf(),
                self.floors@ == old(self).floors@,
                self.walls@ == set_bottom_in_rect(
                    old(self).walls@,
                    x0 as int,
                    i as int,
                    y0 as int,
                    y1 as int,
                    wall,
                ),
            decreases x1 - i,
        {
            let mut j: i16 = y0;
            proof {
                assert(self.walls@ =~= set_bottom_in_rect(
                    set_bottom_in_rect(
                        old(self).walls@,
                        x0 as int,
                        i as int,
                        y0 as int,
                        y1 as int,
                        wall,
                    ),
                    i as int,
                    i + 1,
                    y0 as int,
                    j as int,
                    wall,
                ));
            }
            while j < y1
                invariant
                    y0 <= j,
                    j <= y1 || j == y0,
                    x0 <= i < x1,
                    self.wf(),
                    self.floors@ == old(self).floors@,
                    self.walls@ == set_bottom_in_rect(
                        set_bottom_in_rect(
                            old(self).walls@,
                            x0 as int,
                            i as int,
                            y0 as int,
                            y1 as int,
                            wall,
                        ),
                        i as int,
                        i + 1,
                        y0 as int,
                        j as int,
                        wall,
                    ),
                decreases y1 - j,
            {
                let c = Coord { x: i, y: j };
                let w = match self.walls.get(c) {
                    Some(w0) => Walls { bottom: wall, left: w0.left, right: w0.right },
                    None => Walls::with_bottom(wall),
                };
                self.walls.insert(c, w);
                proof {
                    assert(self.walls@ =~= set_bottom_in_rect(
                        set_bottom_in_rect(
                            old(self).walls@,
                            x0 as int,
                            i as int,
                            y0 as int,
                            y1 as int,
                            wall,
                        ),
                        i as int,
                        i + 1,
                        y0 as int,
                        j + 1,
                        wall,
                    ));
                }
                j = j + 1;
            }
            proof {
                assert(self.walls@ =~= set_bottom_in_rect(
                    old(self).walls@,
                    x0 as int,
                    i + 1,
                    y0 as int,
                    y1 as int,
                    wall,
                ));
            }
            i = i + 1;
        }
        proof {
            assert(self.walls@ =~= set_bottom_in_rect(
                old(self).walls@,
                ranges.0.start as int,
                ranges.0.end as int,
                ranges.1.start as int,
                ranges.1.end as int,
                wall,
            ));
        }
    }

    /// Set or clear the left side flag of every cell in the range, creating
    /// blank wall records where none existed.
    pub fn left_wall(&mut self, flag: bool, ranges: (Range<i16>, Range<i16>))
        requires
            old(self).wf(),
        ensures
            final(self).wf(),
            final(self).walls@ == set_left_in_rect(
                old(self).walls@,
                ranges.0.start as int,
                ranges.0.end as int,
                ranges.1.start as int,
                ranges.1.end as int,
                flag,
            ),
            final(self).floors@ == old(self).floors@,
    {
        let (x, y) = ranges;
        let (x0, x1) = (x.start, x.end);
        let (y0, y1) = (y.start, y.end);
        let mut i: i16 = x0;
        proof {
            assert(self.walls@ =~= set_left_in_rect(
                old(self).walls@,
                x0 as int,
                i as int,
                y0 as int,
                y1 as int,
                flag,
            ));
        }
        while i < x1
            invariant
                x0 <= i,
                i <= x1 || i == x0,
                self.wf(),
                self.floors@ == old(self).floors@,
                self.walls@ == set_left_in_rect(
                    old(self).walls@,
                    x0 as int,
                    i as int,
                    y0 as int,
                    y1 as int,
                    flag,
                ),
            decreases x1 - i,
        {
            let mut j: i16 = y0;
            proof {
                assert(self.walls@ =~= set_left_in_rect(
                    set_left_in_rect(
                        old(self).walls@,
                        x0 as int,
                        i as int,
                        y0 as int,
                        y1 as int,
                        flag,
                    ),
                    i as int,
                    i + 1,
                    y0 as int,
                    j as int,
                    flag,
                ));
            }
            while j < y1
                invariant
                    y0 <= j,
                    j <= y1 || j == y0,
                    x0 <= i < x1,
                    self.wf(),
                    self.floors@ == old(self).floors@,
                    self.walls@ == set_left_in_rect(
                        set_left_in_rect(
                            old(self).walls@,
                            x0 as int,
                            i as int,
                            y0 as int,
                            y1 as int,
                            flag,
                        ),
                        i as int,
                        i + 1,
                        y0 as int,
                        j as int,
                        flag,
                    ),
                decreases y1 - j,
            {
                let c = Coord { x: i, y: j };
                let w = match self.walls.get(c) {
                    Some(w0) => Walls { bottom: w0.bottom, left: flag, right: w0.right },
                    None => Walls::with_left(flag),
                };
                self.walls.insert(c, w);
                proof {
                    assert(self.walls@ =~= set_left_in_rect(
                        set_left_in_rect(
                            old(self).walls@,
                            x0 as int,
                            i as int,
                            y0 as int,
                            y1 as int,
                            flag,
                        ),
                        i as int,
                        i + 1,
                        y0 as int,
                        j + 1,
                        flag,
                    ));
                }
                j = j + 1;
            }
            proof {
                assert(self.walls@ =~= set_left_in_rect(
                    old(self).walls@,
                    x0 as int,
                    i + 1,
                    y0 as int,
                    y1 as int,
                    flag,
                ));
            }
            i = i + 1;
        }
        proof {
            assert(self.walls@ =~= set_left_in_rect(
                old(self).walls@,
                ranges.0.start as int,
                ranges.0.end as int,
                ranges.1.start as int,
                ranges.1.end as int,
                flag,
            ));
        }
    }

    /// Set or clear the right side flag of every cell in the range, creating
    /// blank wall records where none existed.
    pub fn right_wall(&mut self, flag: bool, ranges: (Range<i16>, Range<i16>))
        requires
            old(self).wf(),
        ensures
            final(self).wf(),
            final(self).walls@ == set_right_in_rect(
                old(self).walls@,
                ranges.0.start as int,
                ranges.0.end as int,
                ranges.1.start as int,
                ranges.1.end as int,
                flag,
            ),
            final(self).floors@ == old(self).floors@,
    {
        let (x, y) = ranges;
        let (x0, x1) = (x.start, x.end);
        let (y0, y1) = (y.start, y.end);
        let mut i: i16 = x0;
        proof {
            assert(self.walls@ =~= set_right_in_rect(
                old(self).walls@,
                x0 as int,
                i as int,
                y0 as int,
                y1 as int,
                flag,
            ));
        }
        while i < x1
            invariant
                x0 <= i,
                i <= x1 || i == x0,
                self.wf(),
                self.floors@ == old(self).floors@,
                self.walls@ == set_right_in_rect(
                    old(self).walls@,
                    x0 as int,
                    i as int,
                    y0 as int,
                    y1 as int,
                    flag,
                ),
            decreases x1 - i,
        {
            let mut j: i16 = y0;
            proof {
                assert(self.walls@ =~= set_right_in_rect(
                    set_right_in_rect(
                        old(self).walls@,
                        x0 as int,
                        i as int,
                        y0 as int,
                        y1 as int,
                        flag,
                    ),
                    i as int,
                    i + 1,
                    y0 as int,
                    j as int,
                    flag,
                ));
            }
            while j < y1
                invariant
                    y0 <= j,
                    j <= y1 || j == y0,
                    x0 <= i < x1,
                    self.wf(),
                    self.floors@ == old(self).floors@,
                    self.walls@ == set_right_in_rect(
                        set_right_in_rect(
                            old(self).walls@,
                            x0 as int,
                            i as int,
                            y0 as int,
                            y1 as int,
                            flag,
                        ),
                        i as int,
                        i + 1,
                        y0 as int,
                        j as int,
                        flag,
                    ),
                decreases y1 - j,
            {
                let c = Coord { x: i, y: j };
                let w = match self.walls.get(c) {
                    Some(w0) => Walls { bottom: w0.bottom, left: w0.left, right: flag },
                    None => Walls::with_right(flag),
                };
                self.walls.insert(c, w);
                proof {
                    assert(self.walls@ =~= set_right_in_rect(
                        set_right_in_rect(
                            old(self).walls@,
                            x0 as int,
                            i as int,
                            y0 as int,
                            y1 as int,
                            flag,
                        ),
                        i as int,
                        i + 1,
                        y0 as int,
                        j + 1,
                        flag,
                    ));
                }
                j = j + 1;
            }
            proof {
                assert(self.walls@ =~= set_right_in_rect(
                    old(self).walls@,
                    x0 as int,
                    i + 1,
                    y0 as int,
                    y1 as int,
                    flag,
                ));
            }
            i = i + 1;
        }
        proof {
            assert(self.walls@ =~= set_right_in_rect(
                old(self).walls@,
                ranges.0.start as int,
                ranges.0.end as int,
                ranges.1.start as int,
                ranges.1.end as int,
                flag,
            ));
        }
    }
}

/// The wall map after clearing the bottom face and both side flags of every
/// cell in the rectangle, in that order.
pub open spec fn clear_walls_in_rect(m: Map<Coord, Walls>, x0: int, x1: int, y0: int, y1: int) -> Map<
    Coord,
    Walls,
> {
    set_right_in_rect(
        set_left_in_rect(set_bottom_in_rect(m, x0, x1, y0, y1, None), x0, x1, y0, y1, false),
        x0,
        x1,
        y0,
        y1,
        false,
    )
}

impl Scene {
    /// Clear the shown layers of the range: floor entries are deleted, wall
    /// records have all three parts cleared.
    pub fn remove(&mut self, ranges: (Range<i16>, Range<i16>), show: Show)
        requires
            old(self).wf(),
        ensures
            final(self).wf(),
            final(self).floors@ == (if show.spec_floors() {
                old(self).floors@.remove_keys(
                    rect_set(
                        ranges.0.start as int,
                        ranges.0.end as int,
                        ranges.1.start as int,
                        ranges.1.end as int,
                    ),
                )
            } else {
                old(self).floors@
            }),
            final(self).walls@ == (if show.spec_walls() {
                clear_walls_in_rect(
                    old(self).walls@,
                    ranges.0.start as int,
                    ranges.0.end as int,
                    ranges.1.start as int,
                    ranges.1.end as int,
                )
            } else {
                old(self).walls@
            }),
    {
        let (x, y) = ranges;
        if show.floors() {
            self.remove_floor(
                (Range { start: x.start, end: x.end }, Range { start: y.start, end: y.end }),
            );
        }
        if show.walls() {
            self.bottom_wall(
                None,
                (Range { start: x.start, end: x.end }, Range { start: y.start, end: y.end }),
            );
            self.left_wall(
                false,
                (Range { start: x.start, end: x.end }, Range { start: y.start, end: y.end }),
            );
            self.right_wall(
                false,
                (Range { start: x.start, end: x.end }, Range { start: y.start, end: y.end }),
            );
        }
    }

    /// Extract the shown layers of the range as a detached document; a layer
    /// that is not shown comes back empty.
    pub fn copy(&self, ranges: (Range<i16>, Range<i16>), show: Show) -> (r: Scene)
        requires
            self.wf(),
        ensures
            r.wf(),
            r.floors@ == (if show.spec_floors() {
                self.floors@.restrict(
                    rect_set(
                        ranges.0.start as int,
                        ranges.0.end as int,
                        ranges.1.start as int,
                        ranges.1.end as int,
                    ),
                )
            } else {
                Map::<Coord, (FloorEnum, Orientation)>::empty()
            }),
            r.walls@ == (if show.spec_walls() {
                self.walls@.restrict(
                    rect_set(
                        ranges.0.start as int,
                        ranges.0.end as int,
                        ranges.1.start as int,
                        ranges.1.end as int,
                    ),
                )
            } else {
                Map::<Coord, Walls>::empty()
            }),
    {
        let (x, y) = ranges;
        let mut copy = Scene::new();
        if show.floors() {
            copy.floors = self.copy_floors(
                (Range { start: x.start, end: x.end }, Range { start: y.start, end: y.end }),
            );
        }
        if show.walls() {
            copy.walls = self.copy_walls(
                (Range { start: x.start, end: x.end }, Range { start: y.start, end: y.end }),
            );
        }
        copy
    }

    /// Copy the shown layers of the range out, then clear them in place.
    pub fn cut(&mut self, ranges: (Range<i16>, Range<i16>), show: Show) -> (r: Scene)
        requires
            old(self).wf(),
        ensures
            final(self).wf(),
            r.wf(),
            r.floors@ == (if show.spec_floors() {
                old(self).floors@.restrict(
                    rect_set(
                        ranges.0.start as int,
                        ranges.0.end as int,
                        ranges.1.start as int,
                        ranges.1.end as int,
                    ),
                )
            } else {
                Map::<Coord, (FloorEnum, Orientation)>::empty()
            }),
            r.walls@ == (if show.spec_walls() {
                old(self).walls@.restrict(
                    rect_set(
                        ranges.0.start as int,
                        ranges.0.end as int,
                        ranges.1.start as int,
                        ranges.1.end as int,
                    ),
                )
            } else {
                Map::<Coord, Walls>::empty()
            }),
            final(self).floors@ == (if show.spec_floors() {
                old(self).floors@.remove_keys(
                    rect_set(
                        ranges.0.start as int,
                        ranges.0.end as int,
                        ranges.1.start as int,
                        ranges.1.end as int,
                    ),
                )
            } else {
                old(self).floors@
            }),
            final(self).walls@ == (if show.spec_walls() {
                clear_walls_in_rect(
                    old(self).walls@,
                    ranges.0.start as int,
                    ranges.0.end as int,
                    ranges.1.start as int,
                    ranges.1.end as int,
                )
            } else {
                old(self).walls@
            }),
    {
        let (x, y) = ranges;
        let copy = self.copy(
            (Range { start: x.start, end: x.end }, Range { start: y.start, end: y.end }),
            show,
        );
        self.remove(
            (Range { start: x.start, end: x.end }, Range { start: y.start, end: y.end }),
            show,
        );
        copy
    }

    /// Write a detached document into this one, each entry translated by
    /// `delta`, overwriting what was at the destination cells.
    pub fn paste(&mut self, scene: Scene, delta: Coord)
        requires
            old(self).wf(),
            scene.wf(),
            forall|c: Coord|
                scene.floors@.dom().contains(c) ==> translate_ok(c, delta.x as int, delta.y as int),
            forall|c: Coord|
                scene.walls@.dom().contains(c) ==> translate_ok(c, delta.x as int, delta.y as int),
        ensures
            final(self).wf(),
            final(self).floors@ == old(self).floors@.union_prefer_right(
                translate_map(scene.floors@, delta.x as int, delta.y as int),
            ),
            final(self).walls@ == old(self).walls@.union_prefer_right(
                translate_map(scene.walls@, delta.x as int, delta.y as int),
            ),
    {
        let Scene { floors, walls } = scene;
        self.paste_floors(floors, delta);
        self.paste_walls(walls, delta);
    }

    /// Seed the document with a small arrangement of floors and walls, as a
    /// fresh editing session starts from.
    pub fn make_rects(&mut self)
        requires
            old(self).wf(),
        ensures
            final(self).wf(),
            final(self).floors@ == old(self).floors@.union_prefer_right(
                rect_fill(0, 5, 0, 5, (FloorEnum::Floor, Orientation::North)),
            ),
            final(self).walls@ == make_rects_walls(old(self).walls@),
    {
        self.add_floor(
            FloorEnum::Floor,
            Orientation::North,
            (Range { start: 0, end: 5 }, Range { start: 0, end: 5 }),
        );
        self.walls(
            Walls::new(None, true, true),
            (Range { start: 5, end: 10 }, Range { start: 5, end: 10 }),
        );
        self.left_wall(true, (Range { start: 10, end: 11 }, Range { start: 0, end: 5 }));
        self.right_wall(true, (Range { start: 15, end: 16 }, Range { start: 0, end: 5 }));
        self.bottom_wall(
            Some(WallEnum::RedBanner),
            (Range { start: 10, end: 16 }, Range { start: 10, end: 11 }),
        );
        self.walls(
            Walls::new(Some(WallEnum::RedBanner), true, true),
            (Range { start: 10, end: 16 }, Range { start: 5, end: 6 }),
        );
    }
}

/// Floor round-trip: paint a rectangle on an empty document, copy that
/// rectangle out, and paste the fragment back with no offset — the floor
/// layer is exactly what painting alone left.
pub proof fn lemma_floor_round_trip(
    x0: int,
    x1: int,
    y0: int,
    y1: int,
    v: (FloorEnum, Orientation),
)
    ensures
        ({
            let painted = Map::<Coord, (FloorEnum, Orientation)>::empty().union_prefer_right(
                rect_fill(x0, x1, y0, y1, v),
            );
            let fragment = painted.restrict(rect_set(x0, x1, y0, y1));
            painted.union_prefer_right(translate_map(fragment, 0, 0)) == painted
        }),
{
    let painted = Map::<Coord, (FloorEnum, Orientation)>::empty().union_prefer_right(
        rect_fill(x0, x1, y0, y1, v),
    );
    let fragment = painted.restrict(rect_set(x0, x1, y0, y1));
    assert(translate_map(fragment, 0, 0) =~= fragment);
    assert(painted.union_prefer_right(translate_map(fragment, 0, 0)) =~= painted);
}

/// The wall layer that `make_rects` builds on top of `m`.
pub open spec fn make_rects_walls(m: Map<Coord, Walls>) -> Map<Coord, Walls> {
    let w1 = m.union_prefer_right(
        rect_fill(5, 10, 5, 10, Walls { bottom: None, left: true, right: true }),
    );
    let w2 = set_left_in_rect(w1, 10, 11, 0, 5, true);
    let w3 = set_right_in_rect(w2, 15, 16, 0, 5, true);
    let w4 = set_bottom_in_rect(w3, 10, 16, 10, 11, Some(WallEnum::RedBanner));
    w4.union_prefer_right(
        rect_fill(
            10,
            16,
            5,
            6,
            Walls { bottom: Some(WallEnum::RedBanner), left: true, right: true },
        ),
    )
}

impl Scene {
    /// The wall record of a cell, blank where the layer has none; what the
    /// wall renderer reads around each occupied cell.
    pub open spec fn wall_or_absent(self, c: Coord) -> Walls {
        if self.walls@.dom().contains(c) {
            self.walls@[c]
        } else {
            Walls::absent()
        }
    }

    /// The wall record of a cell, blank where the layer has none.
    pub fn wall_at(&self, c: Coord) -> (w: Walls)
        requires
            self.wf(),
        ensures
            w == self.wall_or_absent(c),
    {
        match self.walls.get(c) {
            Some(w) => w,
            None => Walls::new(None, false, false),
        }
    }

    /// The three-by-three block of wall records around a cell, row by row
    /// from the top, blank where the layer has no record: what the wall
    /// renderer hands to the tile lookup for the centre cell.
    pub fn wall_neighbourhood(&self, c: Coord) -> (g: [[Walls; 3]; 3])
        requires
            self.wf(),
            i16::MIN < c.x < i16::MAX,
            i16::MIN < c.y < i16::MAX,
        ensures
            forall|dy: int, dx: int|
                0 <= dy < 3 && 0 <= dx < 3 ==> #[trigger] g[dy][dx] == self.wall_or_absent(
                    translate(c, dx - 1, dy - 1),
                ),
    {
        let g = [
            [
                self.wall_at(top_left(c)),
                self.wall_at(top(c)),
                self.wall_at(top_right(c)),
            ],
            [self.wall_at(left(c)), self.wall_at(c), self.wall_at(right(c))],
            [
                self.wall_at(bottom_left(c)),
                self.wall_at(bottom(c)),
                self.wall_at(bottom_right(c)),
            ],
        ];
        proof {
            assert forall|dy: int, dx: int| 0 <= dy < 3 && 0 <= dx < 3 implies #[trigger] g[dy][dx]
                == self.wall_or_absent(translate(c, dx - 1, dy - 1)) by {
                assert(translate(c, 0, 0) == c);
            }
        }
        g
    }
}

/// The cell one row up from `c`.
pub fn top(c: Coord) -> (r: Coord)
    requires
        c.y > i16::MIN,
    ensures
        r == (Coord { x: c.x, y: (c.y - 1) as i16 }),
{
    Coord { x: c.x, y: c.y - 1 }
}

/// The cell one row down from `c`.
pub fn bottom(c: Coord) -> (r: Coord)
    requires
        c.y < i16::MAX,
    ensures
        r == (Coord { x: c.x, y: (c.y + 1) as i16 }),
{
    Coord { x: c.x, y: c.y + 1 }
}

/// The cell one column left of `c`.
pub fn left(c: Coord) -> (r: Coord)
    requires
        c.x > i16::MIN,
    ensures
        r == (Coord { x: (c.x - 1) as i16, y: c.y }),
{
    Coord { x: c.x - 1, y: c.y }
}

/// The cell one column right of `c`.
pub fn right(c: Coord) -> (r: Coord)
    requires
        c.x < i16::MAX,
    ensures
        r == (Coord { x: (c.x + 1) as i16, y: c.y }),
{
    Coord { x: c.x + 1, y: c.y }
}

/// The upper-left diagonal neighbour of `c`.
pub fn top_left(c: Coord) -> (r: Coord)
    requires
        c.x > i16::MIN,
        c.y > i16::MIN,
    ensures
        r == (Coord { x: (c.x - 1) as i16, y: (c.y - 1) as i16 }),
{
    top(left(c))
}

/// The upper-right diagonal neighbour of `c`.
pub fn top_right(c: Coord) -> (r: Coord)
    requires
        c.x < i16::MAX,
        c.y > i16::MIN,
    ensures
        r == (Coord { x: (c.x + 1) as i16, y: (c.y - 1) as i16 }),
{
    top(right(c))
}

/// The lower-left diagonal neighbour of `c`.
pub fn bottom_left(c: Coord) -> (r: Coord)
    requires
        c.x > i16::MIN,
        c.y < i16::MAX,
    ensures
        r == (Coord { x: (c.x - 1) as i16, y: (c.y + 1) as i16 }),
{
    bottom(left(c))
}

/// The lower-right diagonal neighbour of `c`.
pub fn bottom_right(c: Coord) -> (r: Coord)
    requires
        c.x < i16::MAX,
        c.y < i16::MAX,
    ensures
        r == (Coord { x: (c.x + 1) as i16, y: (c.y + 1) as i16 }),
{
    bottom(right(c))
}

impl Clone for Scene {
    /// A deep copy: the same two layer views, and well-formedness carries
    /// over.
    fn clone(&self) -> (s: Self)
        ensures
            s.floors@ == self.floors@,
            s.walls@ == self.walls@,
            s.floors.kv_seq() == self.floors.kv_seq(),
            s.walls.kv_seq() == self.walls.kv_seq(),
            self.wf() ==> s.wf(),
    {
        Scene { floors: self.floors.clone(), walls: self.walls.clone() }
    }
}

} // verus!
