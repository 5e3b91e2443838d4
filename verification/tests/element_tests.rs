use tile_editor::elements::{Element, FloorEnum, Orientation, WallEnum, Walls};
use tile_editor::tile::Tile;

#[test]
fn floor_tiles_point_into_the_atlas() {
    assert_eq!(FloorEnum::Floor.tile(), Tile::new(16, 64, 16, 16));
    assert_eq!(FloorEnum::Ladder.tile(), Tile::new(48, 96, 16, 16));
    assert_eq!(FloorEnum::Spikes.tile(), Tile::new(16, 176, 16, 16));
    assert_eq!(FloorEnum::Hole.tile(), Tile::new(96, 144, 16, 16));
    assert_eq!(FloorEnum::Edge.tile(), Tile::new(96, 128, 16, 16));
}

#[test]
fn wall_tiles_point_into_the_atlas() {
    assert_eq!(WallEnum::Wall.tile(), Tile::new(32, 16, 16, 16));
    assert_eq!(WallEnum::RedBanner.tile(), Tile::new(16, 32, 16, 16));
    assert_eq!(WallEnum::Goo.tile(), Tile::new(64, 80, 16, 16));
}

#[test]
fn element_tile_delegates_to_the_wrapped_kind() {
    assert_eq!(Element::Floor(FloorEnum::Floor).tile(), FloorEnum::Floor.tile());
    assert_eq!(Element::Wall(WallEnum::Goo).tile(), WallEnum::Goo.tile());
}

#[test]
fn from_usize_wraps_around() {
    assert_eq!(FloorEnum::from_usize(0), FloorEnum::Floor);
    assert_eq!(FloorEnum::from_usize(11), FloorEnum::Edge);
    assert_eq!(FloorEnum::from_usize(14), FloorEnum::Cracks2);
    assert_eq!(WallEnum::from_usize(3), WallEnum::RedBanner);
    assert_eq!(WallEnum::from_usize(10), WallEnum::Wall);
}

#[test]
fn random_elements_are_always_valid_kinds() {
    let floors = FloorEnum::all();
    let walls = WallEnum::all();
    for _ in 0..32 {
        let f = FloorEnum::random();
        assert!(floors.contains(&f));
        let w = WallEnum::random();
        assert!(walls.contains(&w));
    }
}

#[test]
fn orientation_rotations_are_inverse() {
    let mut o = Orientation::North;
    o.rotate_right();
    assert_eq!(o, Orientation::East);
    o.rotate_right();
    assert_eq!(o, Orientation::South);
    o.rotate_left();
    o.rotate_left();
    assert_eq!(o, Orientation::North);
}

#[test]
fn walls_builders_set_one_part_each() {
    assert_eq!(Walls::default(), Walls::new(None, false, false));
    assert_eq!(Walls::with_bottom(Some(WallEnum::Goo)).bottom, Some(WallEnum::Goo));
    assert_eq!(Walls::with_left(true), Walls::new(None, true, false));
    assert_eq!(Walls::with_right(true), Walls::new(None, false, true));
    assert_eq!(WallEnum::default(), WallEnum::Wall);
}

#[test]
fn walls_tile_reads_the_centre_cell() {
    let blank = Walls::new(None, false, false);
    let centre = Walls::new(Some(WallEnum::RedBanner), true, true);
    let grid = [[blank; 3], [blank, centre, blank], [blank; 3]];
    let tiles = Walls::tile(grid);
    assert_eq!(tiles[0], Some(WallEnum::RedBanner.tile()));
    assert_eq!(tiles[1], Some(Tile::new(16, 128, 16, 16)));
    assert_eq!(tiles[2], Some(Tile::new(0, 128, 16, 16)));

    let bare = Walls::tile([[blank; 3]; 3]);
    assert_eq!(bare, [None, None, None]);
}
