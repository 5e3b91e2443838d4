use tile_editor::coord::Coord;
use tile_editor::scene_view::{thirds, WallThird};
use tile_editor::selection::{ButtonSelection, Selection, WorldPoint};

fn wp(x: i16, y: i16) -> WorldPoint {
    WorldPoint { cell: Coord { x, y }, fx: 0, fy: 0 }
}

fn wp_frac(x: i16, y: i16, fx: u8, fy: u8) -> WorldPoint {
    WorldPoint { cell: Coord { x, y }, fx, fy }
}

#[test]
fn click_selects_a_single_cell() {
    let sel = ButtonSelection::Start(wp(4, -7));
    assert!(sel.is_start());
    let (x, y) = sel.ranges();
    assert_eq!((x.start, x.end), (4, 5));
    assert_eq!((y.start, y.end), (-7, -6));
}

#[test]
fn ranges_normalize_any_drag_direction() {
    let down_right = ButtonSelection::Select((wp(1, 2), wp(5, 9)));
    let up_left = ButtonSelection::Select((wp(5, 9), wp(1, 2)));
    assert!(!down_right.is_start());
    let a = down_right.ranges();
    let b = up_left.ranges();
    assert_eq!((a.0.start, a.0.end, a.1.start, a.1.end), (1, 6, 2, 10));
    assert_eq!((b.0.start, b.0.end, b.1.start, b.1.end), (1, 6, 2, 10));
}

#[test]
fn mixed_direction_drag_normalizes_each_axis() {
    let sel = ButtonSelection::Select((wp(5, 2), wp(1, 9)));
    let (x, y) = sel.ranges();
    assert_eq!((x.start, x.end), (1, 6));
    assert_eq!((y.start, y.end), (2, 10));
}

#[test]
fn horizontal_projection_fixes_the_starting_row() {
    let sel = ButtonSelection::Select((wp(3, 4), wp(7, 8)));
    let (x, y) = sel.horizontal();
    assert_eq!((x.start, x.end), (3, 8));
    assert_eq!((y.start, y.end), (4, 5));
}

#[test]
fn vertical_projection_fixes_the_starting_column() {
    let sel = ButtonSelection::Select((wp(3, 8), wp(7, 4)));
    let (x, y) = sel.vertical();
    assert_eq!((x.start, x.end), (3, 4));
    assert_eq!((y.start, y.end), (4, 9));
}

#[test]
fn selection_state_machine_press_drag_release() {
    let mut s = Selection::Idle;

    // press starts a drag at the pointer cell
    s.events(wp(2, 2), true, false, true);
    assert_eq!(s, Selection::Selecting(ButtonSelection::Start(wp(2, 2))));

    // holding extends the drag to the live pointer cell
    s.events(wp(4, 5), true, false, true);
    assert_eq!(s, Selection::Selecting(ButtonSelection::Select((wp(2, 2), wp(4, 5)))));

    // releasing commits it while persistence is on
    s.events(wp(4, 5), false, false, true);
    assert_eq!(s, Selection::Selected(ButtonSelection::Select((wp(2, 2), wp(4, 5)))));

    // the right button clears a committed selection
    s.events(wp(0, 0), false, true, true);
    assert_eq!(s, Selection::Idle);
}

#[test]
fn selection_without_persistence_clears_on_release() {
    let mut s = Selection::Idle;
    s.events(wp(1, 1), true, false, false);
    s.events(wp(2, 1), true, false, false);
    s.events(wp(2, 1), false, false, false);
    assert_eq!(s, Selection::Idle);
}

#[test]
fn committed_selection_reports_its_rectangle() {
    let mut s = Selection::start(wp(0, 0));
    s.events(wp(2, 3), true, false, true);
    let sel = s.selection().unwrap();
    let (x, y) = sel.ranges();
    assert_eq!((x.start, x.end, y.start, y.end), (0, 3, 0, 4));
    s.clear();
    assert!(s.selection().is_none());
}

#[test]
fn thirds_split_the_cell_with_inclusive_middle_band() {
    // fractional x of the press point, in hundredths of a cell
    let at = |fx: u8| thirds(&ButtonSelection::Start(wp_frac(0, 0, fx, 0)));
    assert_eq!(at(10), WallThird::Left);
    assert_eq!(at(50), WallThird::Bottom);
    assert_eq!(at(90), WallThird::Right);
    // both band boundaries belong to the bottom band
    assert_eq!(at(33), WallThird::Bottom);
    assert_eq!(at(67), WallThird::Bottom);
    assert_eq!(at(0), WallThird::Left);
    assert_eq!(at(32), WallThird::Left);
    assert_eq!(at(68), WallThird::Right);
    assert_eq!(at(99), WallThird::Right);
}

#[test]
fn thirds_use_the_press_point_not_the_drag_end() {
    let sel = ButtonSelection::Select((wp_frac(0, 0, 10, 0), wp_frac(9, 9, 90, 0)));
    assert_eq!(thirds(&sel), WallThird::Left);
}
