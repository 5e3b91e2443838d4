use tile_editor::coord::Coord;
use tile_editor::elements::{FloorEnum, Orientation};
use tile_editor::history::History;
use tile_editor::scene::Scene;

#[test]
fn new_history_has_only_the_seed() {
    let mut h: History<u32> = History::new(7);
    assert_eq!(*h.get(), 7);
    assert!(!h.undo());
    assert!(!h.redo());
    assert_eq!(*h.get(), 7);
}

#[test]
fn history_keeps_at_most_ten_snapshots() {
    // After far more edits than the bound, only the bound's worth of
    // snapshots remain: nine undos from the newest, and no more.
    let mut h: History<u32> = History::new(0);
    for i in 1..=25u32 {
        h.edit(i);
    }
    let mut undos = 0;
    while h.undo() {
        undos += 1;
    }
    assert_eq!(undos, 9);
    assert_eq!(*h.get(), 16);
}

#[test]
fn undo_redo_duality() {
    let mut h: History<u32> = History::new(1);
    h.edit(2);
    assert!(h.undo());
    assert_eq!(*h.get(), 1);
    assert!(h.redo());
    assert_eq!(*h.get(), 2);
}

#[test]
fn redo_branch_discarded_on_new_edit() {
    let mut h: History<u32> = History::new(1);
    h.edit(2);
    assert!(h.undo());
    h.edit(3);
    assert!(!h.redo());
    assert_eq!(*h.get(), 3);
    assert!(h.undo());
    assert_eq!(*h.get(), 1);
}

#[test]
fn edit_in_the_middle_drops_newer_snapshots() {
    let mut h: History<u32> = History::new(1);
    h.edit(2);
    h.edit(3);
    assert!(h.undo());
    assert!(h.undo());
    assert_eq!(*h.get(), 1);
    h.edit(9);
    assert!(!h.redo());
    assert!(h.undo());
    assert_eq!(*h.get(), 1);
    assert!(!h.undo());
}

#[test]
fn end_to_end_paint_undo_redo() {
    // An empty document, one edit painting a five-by-five block, one undo,
    // one redo: the twenty-five cells vanish and come back unchanged.
    let empty = Scene::new();
    let mut h: History<Scene> = History::new(empty);

    let mut doc = h.get().clone();
    doc.add_floor(FloorEnum::Floor, Orientation::North, (0..5, 0..5));
    h.edit(doc);
    assert_eq!(h.get().floors.len(), 25);

    assert!(h.undo());
    assert_eq!(h.get().floors.len(), 0);

    assert!(h.redo());
    assert_eq!(h.get().floors.len(), 25);
    for x in 0..5i16 {
        for y in 0..5i16 {
            let got = h.get().floors.get(Coord { x, y });
            assert_eq!(got, Some((FloorEnum::Floor, Orientation::North)));
        }
    }
}
