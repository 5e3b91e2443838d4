use tile_editor::coord::Coord;
use tile_editor::elements::{FloorEnum, Orientation, WallEnum, Walls};
use tile_editor::keyboard::{Key, Keyboard, Mods};
use tile_editor::pencil::Pencil;
use tile_editor::scene_view::SceneView;
use tile_editor::selection::{Selection, WorldPoint};
use tile_editor::tiles_view::TilesView;
use tile_editor::tile::Tile;
use tile_editor::views::Views;

fn wp(x: i16, y: i16) -> WorldPoint {
    WorldPoint { cell: Coord { x, y }, fx: 0, fy: 0 }
}

fn key_frame(key: Key, mods: Mods) -> Keyboard {
    let mut kb = Keyboard::new();
    kb.update(0, &vec![key], mods);
    kb
}

fn ctrl() -> Mods {
    Mods { ctrl: true, shift: false, alt: false, logo: false }
}

#[test]
fn views_switch_toggles() {
    let mut v = Views::Scene;
    v.switch();
    assert!(matches!(v, Views::Tiles));
    v.switch();
    assert!(matches!(v, Views::Scene));
}

#[test]
fn palette_click_picks_the_pencil() {
    let mut tiles = TilesView::new();
    let mut pencil: Option<Pencil> = None;

    tiles.update(&mut pencil);
    assert!(pencil.is_none());

    tiles.events(Some(8));
    tiles.update(&mut pencil);
    assert_eq!(pencil, Some(Pencil::Floor((FloorEnum::Ladder, Orientation::North))));

    tiles.events(Some(12));
    tiles.update(&mut pencil);
    assert_eq!(pencil, Some(Pencil::Wall(WallEnum::Wall)));

    tiles.events(None);
    tiles.update(&mut pencil);
    assert!(pencil.is_none());
}

#[test]
fn pencil_r_key_rotates_the_floor_tool() {
    let mut pencil = Pencil::Floor((FloorEnum::Floor, Orientation::North));
    pencil.events(&key_frame(Key::R, Mods::empty()));
    assert_eq!(pencil, Pencil::Floor((FloorEnum::Floor, Orientation::East)));

    let shift = Mods { ctrl: false, shift: true, alt: false, logo: false };
    pencil.events(&key_frame(Key::R, shift));
    assert_eq!(pencil, Pencil::Floor((FloorEnum::Floor, Orientation::North)));

    let mut wall = Pencil::Wall(WallEnum::Goo);
    wall.events(&key_frame(Key::R, Mods::empty()));
    assert_eq!(wall, Pencil::Wall(WallEnum::Goo));
}

#[test]
fn pencil_preview_follows_the_cell_third() {
    let floor = Pencil::Floor((FloorEnum::Ladder, Orientation::East));
    assert_eq!(floor.preview_tile(10), FloorEnum::Ladder.tile());
    assert_eq!(floor.preview_tile(90), FloorEnum::Ladder.tile());

    let wall = Pencil::Wall(WallEnum::Goo);
    assert_eq!(wall.preview_tile(10), Tile::new(16, 128, 16, 16));
    assert_eq!(wall.preview_tile(50), WallEnum::Goo.tile());
    assert_eq!(wall.preview_tile(33), WallEnum::Goo.tile());
    assert_eq!(wall.preview_tile(67), WallEnum::Goo.tile());
    assert_eq!(wall.preview_tile(90), Tile::new(0, 128, 16, 16));
}

#[test]
fn scene_view_starts_with_the_seeded_document() {
    let sv = SceneView::new();
    assert_eq!(sv.scene().floors.len(), 25);
    assert!(sv.pencil.is_none());
    assert_eq!(sv.selection, Selection::Idle);
}

#[test]
fn three_frame_drag_keeps_one_history_entry() {
    // A drag repainted over three frames must leave exactly one commit:
    // one undo returns to the seeded document, a second one does nothing.
    let mut sv = SceneView::new();
    let kb = Keyboard::new();
    sv.pencil = Some(Pencil::Floor((FloorEnum::Ladder, Orientation::North)));

    sv.events(&kb, wp(20, 20), true, false);
    sv.update(&kb);
    assert_eq!(sv.scene().floors.len(), 26);

    sv.events(&kb, wp(21, 20), true, false);
    sv.update(&kb);
    assert_eq!(sv.scene().floors.len(), 27);

    sv.events(&kb, wp(22, 21), true, false);
    sv.update(&kb);
    assert_eq!(sv.scene().floors.len(), 31);
    for x in 20..23i16 {
        for y in 20..22i16 {
            assert_eq!(
                sv.scene().floors.get(Coord { x, y }),
                Some((FloorEnum::Ladder, Orientation::North))
            );
        }
    }

    // release: with a tool active the selection does not persist
    sv.events(&kb, wp(22, 21), false, false);
    assert_eq!(sv.selection, Selection::Idle);

    sv.events(&key_frame(Key::Z, ctrl()), wp(0, 0), false, false);
    assert_eq!(sv.scene().floors.len(), 25);

    sv.events(&key_frame(Key::Z, ctrl()), wp(0, 0), false, false);
    assert_eq!(sv.scene().floors.len(), 25);

    // redo restores the whole gesture at once
    let shift_ctrl = Mods { ctrl: true, shift: true, alt: false, logo: false };
    sv.events(&key_frame(Key::Z, shift_ctrl), wp(0, 0), false, false);
    assert_eq!(sv.scene().floors.len(), 31);
}

#[test]
fn wall_drag_in_the_left_third_sets_left_flags() {
    let mut sv = SceneView::new();
    let kb = Keyboard::new();
    sv.pencil = Some(Pencil::Wall(WallEnum::Wall));

    // press in the left third of cell (30, 2), drag down the column
    let press = WorldPoint { cell: Coord { x: 30, y: 2 }, fx: 10, fy: 0 };
    sv.events(&kb, press, true, false);
    sv.update(&kb);
    let drag = WorldPoint { cell: Coord { x: 34, y: 4 }, fx: 10, fy: 0 };
    sv.events(&kb, drag, true, false);
    sv.update(&kb);
    sv.events(&kb, drag, false, false);

    // the vertical projection fixes the starting column
    for y in 2..5i16 {
        assert_eq!(sv.scene().walls.get(Coord { x: 30, y }), Some(Walls::new(None, true, false)));
    }
    assert_eq!(sv.scene().walls.get(Coord { x: 31, y: 2 }), None);
}

#[test]
fn wall_press_in_the_middle_band_sets_bottom_faces() {
    let mut sv = SceneView::new();
    let kb = Keyboard::new();
    sv.pencil = Some(Pencil::Wall(WallEnum::RedBanner));

    let press = WorldPoint { cell: Coord { x: 40, y: 7 }, fx: 50, fy: 0 };
    sv.events(&kb, press, true, false);
    sv.update(&kb);
    let drag = WorldPoint { cell: Coord { x: 43, y: 9 }, fx: 50, fy: 0 };
    sv.events(&kb, drag, true, false);
    sv.update(&kb);

    // the horizontal projection fixes the starting row
    for x in 40..44i16 {
        assert_eq!(
            sv.scene().walls.get(Coord { x, y: 7 }),
            Some(Walls::new(Some(WallEnum::RedBanner), false, false))
        );
    }
    assert_eq!(sv.scene().walls.get(Coord { x: 40, y: 8 }), None);
}

#[test]
fn selected_region_rotates_with_r() {
    let mut sv = SceneView::new();
    let kb = Keyboard::new();

    // no tool: drag over part of the seeded block and release to commit
    sv.events(&kb, wp(0, 0), true, false);
    sv.events(&kb, wp(1, 0), true, false);
    sv.events(&kb, wp(1, 0), false, false);
    assert!(matches!(sv.selection, Selection::Selected(_)));

    sv.update(&key_frame(Key::R, Mods::empty()));
    assert_eq!(
        sv.scene().floors.get(Coord { x: 0, y: 0 }),
        Some((FloorEnum::Floor, Orientation::East))
    );
    assert_eq!(
        sv.scene().floors.get(Coord { x: 2, y: 0 }),
        Some((FloorEnum::Floor, Orientation::North))
    );
}

#[test]
fn selected_region_deletes_and_clears_the_selection() {
    let mut sv = SceneView::new();
    let kb = Keyboard::new();

    sv.events(&kb, wp(0, 0), true, false);
    sv.events(&kb, wp(4, 4), true, false);
    sv.events(&kb, wp(4, 4), false, false);

    sv.update(&key_frame(Key::Delete, Mods::empty()));
    assert_eq!(sv.scene().floors.len(), 0);
    assert_eq!(sv.selection, Selection::Idle);

    // the deletion is one undoable commit
    sv.events(&key_frame(Key::Z, ctrl()), wp(0, 0), false, false);
    assert_eq!(sv.scene().floors.len(), 25);
}

#[test]
fn copy_fills_the_buffer_without_touching_the_scene() {
    let mut sv = SceneView::new();
    let kb = Keyboard::new();

    sv.events(&kb, wp(0, 0), true, false);
    sv.events(&kb, wp(1, 1), true, false);
    sv.events(&kb, wp(1, 1), false, false);

    assert!(sv.buffer().is_none());
    sv.update(&key_frame(Key::C, ctrl()));
    assert_eq!(sv.scene().floors.len(), 25);
    assert_eq!(sv.selection, Selection::Idle);
    let (_, fragment) = sv.buffer().as_ref().unwrap();
    assert_eq!(fragment.floors.len(), 4);
}

#[test]
fn cut_fills_the_buffer_and_clears_the_region() {
    let mut sv = SceneView::new();
    let kb = Keyboard::new();

    sv.events(&kb, wp(0, 0), true, false);
    sv.events(&kb, wp(0, 4), true, false);
    sv.events(&kb, wp(0, 4), false, false);

    sv.update(&key_frame(Key::X, ctrl()));
    assert_eq!(sv.scene().floors.len(), 20);
    let (_, fragment) = sv.buffer().as_ref().unwrap();
    assert_eq!(fragment.floors.len(), 5);
    assert_eq!(sv.selection, Selection::Idle);
}
