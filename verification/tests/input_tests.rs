use tile_editor::coord::Coord;
use tile_editor::keyboard::{Key, Keyboard, Mods};
use tile_editor::mouse::Mouse;
use tile_editor::selection::WorldPoint;

fn wp(x: i16, y: i16) -> WorldPoint {
    WorldPoint { cell: Coord { x, y }, fx: 0, fy: 0 }
}

fn ctrl_mods() -> Mods {
    Mods { ctrl: true, shift: false, alt: false, logo: false }
}

#[test]
fn fresh_key_press_is_reported_once() {
    let mut kb = Keyboard::new();
    assert!(!kb.is_pressed(Key::Z));

    kb.update(0, &vec![Key::Z], Mods::empty());
    assert!(kb.is_pressed(Key::Z));

    // still held inside the debounce window: no longer fresh
    kb.update(50, &vec![Key::Z], Mods::empty());
    assert!(!kb.is_pressed(Key::Z));
}

#[test]
fn key_held_past_the_debounce_window_fires_again() {
    let mut kb = Keyboard::new();
    kb.update(0, &vec![Key::R], Mods::empty());
    assert!(kb.is_pressed(Key::R));
    kb.update(99, &vec![Key::R], Mods::empty());
    assert!(!kb.is_pressed(Key::R));
    // the old entry expired; the held key counts as freshly pressed again
    kb.update(199, &vec![Key::R], Mods::empty());
    assert!(kb.is_pressed(Key::R));
}

#[test]
fn released_key_is_forgotten() {
    let mut kb = Keyboard::new();
    kb.update(0, &vec![Key::F], Mods::empty());
    kb.update(10, &vec![], Mods::empty());
    assert!(!kb.is_pressed(Key::F));
    kb.update(20, &vec![Key::F], Mods::empty());
    assert!(!kb.is_pressed(Key::F));
    kb.update(200, &vec![Key::F], Mods::empty());
    assert!(kb.is_pressed(Key::F));
}

#[test]
fn keys_are_tracked_independently() {
    let mut kb = Keyboard::new();
    kb.update(0, &vec![Key::Z, Key::X], Mods::empty());
    assert!(kb.is_pressed(Key::Z));
    assert!(kb.is_pressed(Key::X));
    assert!(!kb.is_pressed(Key::C));
}

#[test]
fn modifiers_and_containment() {
    let mut kb = Keyboard::new();
    kb.update(0, &vec![], Mods { ctrl: true, shift: true, alt: false, logo: false });
    assert!(kb.ctrl());
    assert!(kb.shift());
    assert!(kb.is_active(ctrl_mods()));
    assert!(kb.is_active(Mods { ctrl: true, shift: true, alt: false, logo: false }));
    assert!(!kb.is_active(Mods { ctrl: true, shift: false, alt: true, logo: false }));
    assert!(kb.is_active(Mods::empty()));
}

#[test]
fn mouse_click_becomes_drag_when_held() {
    let mut m = Mouse::new();
    assert!(!m.left());
    assert!(!m.right());

    m.update(wp(3, 3), true, false);
    assert!(m.left());
    assert_eq!(m.left_click(), Some(wp(3, 3)));
    assert_eq!(m.left_drag(), None);

    m.update(wp(5, 4), true, false);
    assert_eq!(m.left_click(), None);
    assert_eq!(m.left_drag(), Some((wp(3, 3), wp(5, 4))));

    // the drag keeps its origin while the pointer moves on
    m.update(wp(7, 9), true, false);
    assert_eq!(m.left_drag(), Some((wp(3, 3), wp(7, 9))));

    m.update(wp(7, 9), false, false);
    assert!(!m.left());
    assert_eq!(m.left_drag(), None);
}

#[test]
fn mouse_buttons_are_independent() {
    let mut m = Mouse::new();
    m.update(wp(1, 1), true, true);
    assert_eq!(m.left_click(), Some(wp(1, 1)));
    assert_eq!(m.right_click(), Some(wp(1, 1)));
    m.update(wp(2, 2), false, true);
    assert!(!m.left());
    assert_eq!(m.right_drag(), Some((wp(1, 1), wp(2, 2))));
    assert_eq!(m.position(), wp(2, 2));
}
