use tile_editor::coord::Coord;
use tile_editor::elements::{FloorEnum, Orientation, WallEnum, Walls};
use tile_editor::scene::{bottom, bottom_left, bottom_right, left, right, top, top_left, top_right};
use tile_editor::scene::Scene;
use tile_editor::scene_view::Show;

fn floor_at(s: &Scene, x: i16, y: i16) -> Option<(FloorEnum, Orientation)> {
    s.floors.get(Coord { x, y })
}

fn wall_at(s: &Scene, x: i16, y: i16) -> Option<Walls> {
    s.walls.get(Coord { x, y })
}

#[test]
fn add_floor_fills_the_rectangle() {
    let mut s = Scene::new();
    s.add_floor(FloorEnum::Ladder, Orientation::East, (2..5, -1..1));
    assert_eq!(s.floors.len(), 6);
    assert_eq!(floor_at(&s, 2, -1), Some((FloorEnum::Ladder, Orientation::East)));
    assert_eq!(floor_at(&s, 4, 0), Some((FloorEnum::Ladder, Orientation::East)));
    assert_eq!(floor_at(&s, 5, 0), None);
    assert_eq!(floor_at(&s, 2, 1), None);
    assert_eq!(s.walls.len(), 0);
}

#[test]
fn add_floor_overwrites_and_empty_range_is_a_no_op() {
    let mut s = Scene::new();
    s.add_floor(FloorEnum::Hole, Orientation::North, (0..2, 0..2));
    s.add_floor(FloorEnum::Edge, Orientation::West, (1..2, 1..2));
    assert_eq!(floor_at(&s, 0, 0), Some((FloorEnum::Hole, Orientation::North)));
    assert_eq!(floor_at(&s, 1, 1), Some((FloorEnum::Edge, Orientation::West)));
    s.add_floor(FloorEnum::Spikes, Orientation::South, (5..5, 0..9));
    s.add_floor(FloorEnum::Spikes, Orientation::South, (7..3, 0..9));
    assert_eq!(s.floors.len(), 4);
}

#[test]
fn remove_floor_deletes_only_the_rectangle() {
    let mut s = Scene::new();
    s.add_floor(FloorEnum::Floor, Orientation::North, (0..4, 0..4));
    s.remove_floor((1..3, 1..3));
    assert_eq!(s.floors.len(), 12);
    assert_eq!(floor_at(&s, 1, 1), None);
    assert_eq!(floor_at(&s, 2, 2), None);
    assert_eq!(floor_at(&s, 0, 0), Some((FloorEnum::Floor, Orientation::North)));
    assert_eq!(floor_at(&s, 3, 3), Some((FloorEnum::Floor, Orientation::North)));
}

#[test]
fn rotate_floor_turns_in_place_and_skips_empty_cells() {
    // Three populated cells and two empty ones inside the range: the
    // populated ones turn, the empty ones stay absent.
    let mut s = Scene::new();
    s.add_floor(FloorEnum::Floor, Orientation::North, (0..1, 0..1));
    s.add_floor(FloorEnum::Ladder, Orientation::East, (1..2, 0..1));
    s.add_floor(FloorEnum::Hole, Orientation::West, (2..3, 0..1));
    assert_eq!(s.floors.len(), 3);

    s.rotate_floor((0..5, 0..1), true);
    assert_eq!(s.floors.len(), 3);
    assert_eq!(floor_at(&s, 0, 0), Some((FloorEnum::Floor, Orientation::East)));
    assert_eq!(floor_at(&s, 1, 0), Some((FloorEnum::Ladder, Orientation::South)));
    assert_eq!(floor_at(&s, 2, 0), Some((FloorEnum::Hole, Orientation::North)));
    assert_eq!(floor_at(&s, 3, 0), None);
    assert_eq!(floor_at(&s, 4, 0), None);

    s.rotate_floor((0..1, 0..1), false);
    assert_eq!(floor_at(&s, 0, 0), Some((FloorEnum::Floor, Orientation::North)));
}

#[test]
fn floor_round_trip_paste_changes_nothing() {
    // Paint, copy the painted rectangle, paste it back with no offset: the
    // floor layer is exactly what painting alone left.
    let mut s = Scene::new();
    s.add_floor(FloorEnum::Cracks3, Orientation::South, (0..3, 0..2));
    let fragment = s.copy_floors((0..3, 0..2));
    assert_eq!(fragment.len(), 6);
    s.paste_floors(fragment, Coord { x: 0, y: 0 });
    assert_eq!(s.floors.len(), 6);
    for x in 0..3i16 {
        for y in 0..2i16 {
            assert_eq!(floor_at(&s, x, y), Some((FloorEnum::Cracks3, Orientation::South)));
        }
    }
}

#[test]
fn paste_floors_translates_by_the_offset() {
    let mut s = Scene::new();
    s.add_floor(FloorEnum::Floor, Orientation::North, (0..2, 0..1));
    let fragment = s.copy_floors((0..2, 0..1));
    s.paste_floors(fragment, Coord { x: 10, y: -4 });
    assert_eq!(s.floors.len(), 4);
    assert_eq!(floor_at(&s, 10, -4), Some((FloorEnum::Floor, Orientation::North)));
    assert_eq!(floor_at(&s, 11, -4), Some((FloorEnum::Floor, Orientation::North)));
}

#[test]
fn bottom_wall_keeps_side_flags() {
    let mut s = Scene::new();
    s.walls(Walls::new(None, true, false), (0..1, 0..1));
    s.bottom_wall(Some(WallEnum::Goo), (0..2, 0..1));
    assert_eq!(wall_at(&s, 0, 0), Some(Walls::new(Some(WallEnum::Goo), true, false)));
    assert_eq!(wall_at(&s, 1, 0), Some(Walls::new(Some(WallEnum::Goo), false, false)));
}

#[test]
fn side_flags_keep_bottom_wall() {
    let mut s = Scene::new();
    s.bottom_wall(Some(WallEnum::Wall), (0..1, 0..1));
    s.left_wall(true, (0..1, 0..2));
    s.right_wall(true, (0..1, 1..2));
    assert_eq!(wall_at(&s, 0, 0), Some(Walls::new(Some(WallEnum::Wall), true, false)));
    assert_eq!(wall_at(&s, 0, 1), Some(Walls::new(None, true, true)));
    assert_eq!(s.floors.len(), 0);
}

#[test]
fn copy_and_paste_walls() {
    let mut s = Scene::new();
    s.walls(Walls::new(Some(WallEnum::RedBanner), false, true), (0..2, 0..2));
    let fragment = s.copy_walls((0..1, 0..2));
    assert_eq!(fragment.len(), 2);
    let mut t = Scene::new();
    t.paste_walls(fragment, Coord { x: 5, y: 5 });
    assert_eq!(wall_at(&t, 5, 5), Some(Walls::new(Some(WallEnum::RedBanner), false, true)));
    assert_eq!(wall_at(&t, 5, 6), Some(Walls::new(Some(WallEnum::RedBanner), false, true)));
    assert_eq!(t.walls.len(), 2);
}

#[test]
fn remove_respects_the_shown_layers() {
    let mut s = Scene::new();
    s.add_floor(FloorEnum::Floor, Orientation::North, (0..2, 0..2));
    s.walls(Walls::new(Some(WallEnum::Wall), true, true), (0..2, 0..2));

    let show = Show::new();
    s.remove((0..1, 0..2), show);
    assert_eq!(floor_at(&s, 0, 0), None);
    assert_eq!(floor_at(&s, 1, 0), Some((FloorEnum::Floor, Orientation::North)));
    // wall records in the range are cleared in every part, not deleted
    assert_eq!(wall_at(&s, 0, 0), Some(Walls::new(None, false, false)));
    assert_eq!(wall_at(&s, 1, 1), Some(Walls::new(Some(WallEnum::Wall), true, true)));
}

#[test]
fn cut_returns_the_fragment_and_clears_in_place() {
    let mut s = Scene::new();
    s.add_floor(FloorEnum::Ladder, Orientation::North, (0..2, 0..1));
    let show = Show::new();
    let fragment = s.cut((0..1, 0..1), show);
    assert_eq!(fragment.floors.get(Coord { x: 0, y: 0 }), Some((FloorEnum::Ladder, Orientation::North)));
    assert_eq!(fragment.walls.len(), 0);
    assert_eq!(floor_at(&s, 0, 0), None);
    assert_eq!(floor_at(&s, 1, 0), Some((FloorEnum::Ladder, Orientation::North)));
}

#[test]
fn paste_scene_writes_both_layers() {
    let mut s = Scene::new();
    s.add_floor(FloorEnum::Floor, Orientation::North, (0..1, 0..1));
    s.walls(Walls::new(None, true, false), (0..1, 0..1));
    let show = Show::new();
    let fragment = s.copy((0..1, 0..1), show);
    let mut t = Scene::new();
    t.paste(fragment, Coord { x: 3, y: 3 });
    assert_eq!(floor_at(&t, 3, 3), Some((FloorEnum::Floor, Orientation::North)));
    assert_eq!(wall_at(&t, 3, 3), Some(Walls::new(None, true, false)));
}

#[test]
fn make_rects_seeds_the_expected_content() {
    let mut s = Scene::new();
    s.make_rects();
    assert_eq!(s.floors.len(), 25);
    assert_eq!(floor_at(&s, 0, 0), Some((FloorEnum::Floor, Orientation::North)));
    assert_eq!(floor_at(&s, 4, 4), Some((FloorEnum::Floor, Orientation::North)));
    assert_eq!(wall_at(&s, 5, 5), Some(Walls::new(None, true, true)));
    assert_eq!(wall_at(&s, 10, 0), Some(Walls::new(None, true, false)));
    assert_eq!(wall_at(&s, 15, 0), Some(Walls::new(None, false, true)));
    assert_eq!(wall_at(&s, 10, 10), Some(Walls::new(Some(WallEnum::RedBanner), false, false)));
    assert_eq!(wall_at(&s, 10, 5), Some(Walls::new(Some(WallEnum::RedBanner), true, true)));
}

#[test]
fn wall_neighbourhood_reads_the_three_by_three_block() {
    let mut s = Scene::new();
    s.walls(Walls::new(Some(WallEnum::Wall), false, false), (0..1, 0..1));
    s.walls(Walls::new(None, true, false), (1..2, 0..1));
    s.walls(Walls::new(None, false, true), (0..1, 1..2));

    let g = s.wall_neighbourhood(Coord { x: 0, y: 0 });
    assert_eq!(g[1][1], Walls::new(Some(WallEnum::Wall), false, false));
    assert_eq!(g[1][2], Walls::new(None, true, false));
    assert_eq!(g[2][1], Walls::new(None, false, true));
    assert_eq!(g[0][0], Walls::new(None, false, false));
    assert_eq!(g[0][1], Walls::new(None, false, false));
    assert_eq!(g[1][0], Walls::new(None, false, false));
}

#[test]
fn neighbour_cells() {
    let c = Coord { x: 3, y: -2 };
    assert_eq!(top(c), Coord { x: 3, y: -3 });
    assert_eq!(bottom(c), Coord { x: 3, y: -1 });
    assert_eq!(left(c), Coord { x: 2, y: -2 });
    assert_eq!(right(c), Coord { x: 4, y: -2 });
    assert_eq!(top_left(c), Coord { x: 2, y: -3 });
    assert_eq!(top_right(c), Coord { x: 4, y: -3 });
    assert_eq!(bottom_left(c), Coord { x: 2, y: -1 });
    assert_eq!(bottom_right(c), Coord { x: 4, y: -1 });
}
