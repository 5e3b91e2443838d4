use vstd::prelude::*;

verus! {

/// One cell of the infinite grid, addressed by signed 16-bit coordinates.
#[derive(Clone, Copy, PartialEq, Eq, Structural, Hash, Debug)]
pub struct Coord {
    pub x: i16,
    pub y: i16,
}

impl Coord {
    pub fn new(x: i16, y: i16) -> (c: Coord)
        ensures
            c == (Coord { x, y }),
    {
        Coord { x, y }
    }
}

/// Whether a cell lies in the rectangle given by half-open x and y intervals.
pub open spec fn in_rect(x0: int, x1: int, y0: int, y1: int, c: Coord) -> bool {
    x0 <= c.x < x1 && y0 <= c.y < y1
}

/// The map that fills every cell of a rectangle with one value.
pub open spec fn rect_fill<V>(x0: int, x1: int, y0: int, y1: int, v: V) -> Map<Coord, V> {
    Map::new(|c: Coord| in_rect(x0, x1, y0, y1, c), |c: Coord| v)
}

/// The set of cells of a rectangle.
pub open spec fn rect_set(x0: int, x1: int, y0: int, y1: int) -> Set<Coord> {
    Set::new(|c: Coord| in_rect(x0, x1, y0, y1, c))
}

/// The cell reached from `c` by the offset `(dx, dy)`.
pub open spec fn translate(c: Coord, dx: int, dy: int) -> Coord {
    Coord { x: (c.x + dx) as i16, y: (c.y + dy) as i16 }
}

/// Whether translating `c` by `(dx, dy)` stays within 16-bit coordinates.
pub open spec fn translate_ok(c: Coord, dx: int, dy: int) -> bool {
    i16::MIN <= c.x + dx <= i16::MAX && i16::MIN <= c.y + dy <= i16::MAX
}

/// The map `m` with every key translated by `(dx, dy)`. A key whose
/// translation leaves the 16-bit range contributes nothing.
pub open spec fn translate_map<V>(m: Map<Coord, V>, dx: int, dy: int) -> Map<Coord, V> {
    Map::new(
        |c: Coord|
            m.dom().contains(translate(c, -dx, -dy)) && translate_ok(translate(c, -dx, -dy), dx, dy)
                && translate(translate(c, -dx, -dy), dx, dy) == c,
        |c: Coord| m[translate(c, -dx, -dy)],
    )
}

pub proof fn lemma_translate_map_empty<V>(dx: int, dy: int)
    ensures
        translate_map(Map::<Coord, V>::empty(), dx, dy) == Map::<Coord, V>::empty(),
{
    assert(translate_map(Map::<Coord, V>::empty(), dx, dy) =~= Map::<Coord, V>::empty());
}

/// Inserting a translatable key and then shifting the map is the same as
/// shifting first and inserting the translated key.
pub proof fn lemma_translate_map_insert<V>(m: Map<Coord, V>, b: Coord, v: V, dx: int, dy: int)
    requires
        translate_ok(b, dx, dy),
    ensures
        translate_map(m.insert(b, v), dx, dy) == translate_map(m, dx, dy).insert(
            translate(b, dx, dy),
            v,
        ),
{
    assert(translate(translate(b, dx, dy), -dx, -dy) == b);
    assert(translate_map(m.insert(b, v), dx, dy) =~= translate_map(m, dx, dy).insert(
        translate(b, dx, dy),
        v,
    ));
}

} // verus!
