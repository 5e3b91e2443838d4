use crate::coord::Coord;
use crate::coord::{rect_fill, rect_set};
use crate::elements::{FloorEnum, Orientation, WallEnum, Walls};
use crate::history::{edit_tail, edit_snapshots, lemma_edit_snapshots_decompose, History};
use crate::keyboard::{Key, Keyboard};
use crate::pencil::Pencil;
use crate::scene::{
    clear_walls_in_rect, make_rects_walls, rotate_in_rect, set_bottom_in_rect, set_left_in_rect,
    set_right_in_rect, Scene,
};
use crate::selection::{ButtonSelection, Selection, WorldPoint};
use vstd::prelude::*;

verus! {

/// Which layers the scene view draws and which layers bulk operations touch.
#[derive(Clone, Copy, PartialEq, Eq, Structural, Debug)]
pub struct Show {
    floors: bool,
    walls: bool,
    grid: bool,
}

impl Show {
    pub closed spec fn spec_floors(self) -> bool {
        self.floors
    }

    pub closed spec fn spec_walls(self) -> bool {
        self.walls
    }

    pub closed spec fn spec_grid(self) -> bool {
        self.grid
    }

    pub fn new() -> (s: Show)
        ensures
            s.spec_floors(),
            s.spec_walls(),
            !s.spec_grid(),
    {
        Show { floors: true, walls: true, grid: false }
    }

    pub fn floors(&self) -> (b: bool)
        ensures
            b == self.spec_floors(),
    {
        self.floors
    }

    pub fn walls(&self) -> (b: bool)
        ensures
            b == self.spec_walls(),
    {
        self.walls
    }

    pub fn grid(&self) -> (b: bool)
        ensures
            b == self.spec_grid(),
    {
        self.grid
    }

    pub fn show_floors(&mut self)
        ensures
            final(self).spec_floors(),
            final(self).spec_walls() == old(self).spec_walls(),
            final(self).spec_grid() == old(self).spec_grid(),
    {
        self.floors = true;
    }

    pub fn show_walls(&mut self)
        ensures
            final(self).spec_walls(),
            final(self).spec_floors() == old(self).spec_floors(),
            final(self).spec_grid() == old(self).spec_grid(),
    {
        self.walls = true;
    }

    /// Toggle the shown layers from this frame's fresh key presses.
    pub fn events(&mut self, keyboard: &Keyboard)
        ensures
            final(self).spec_floors() == (if keyboard.spec_pressed(crate::keyboard::Key::F) {
                !old(self).spec_floors()
            } else {
                old(self).spec_floors()
            }),
            final(self).spec_walls() == (if keyboard.spec_pressed(crate::keyboard::Key::W) {
                !old(self).spec_walls()
            } else {
                old(self).spec_walls()
            }),
            final(self).spec_grid() == (if keyboard.spec_pressed(crate::keyboard::Key::G) {
                !old(self).spec_grid()
            } else {
                old(self).spec_grid()
            }),
    {
        if keyboard.is_pressed(crate::keyboard::Key::F) {
            self.floors = !self.floors;
        }
        if keyboard.is_pressed(crate::keyboard::Key::W) {
            self.walls = !self.walls;
        }
        if keyboard.is_pressed(crate::keyboard::Key::G) {
            self.grid = !self.grid;
        }
    }
}

/// Which wall feature a wall-tool gesture addresses, named after the third
/// of the cell where the press landed.
#[derive(Clone, Copy, PartialEq, Eq, Structural, Debug)]
pub enum WallThird {
    Left,
    Bottom,
    Right,
}

/// The three-way split of a cell by the fractional x of the press point, in
/// hundredths of a cell: the first third addresses the left wall flag, the
/// middle band — both boundaries included — the bottom wall face, and the
/// last third the right wall flag.
pub open spec fn spec_thirds(fx: int) -> WallThird {
    if fx < 33 {
        WallThird::Left
    } else if fx <= 67 {
        WallThird::Bottom
    } else {
        WallThird::Right
    }
}

/// Which wall feature the gesture that began this selection addresses.
pub fn thirds(selection: &ButtonSelection) -> (t: WallThird)
    ensures
        t == spec_thirds(selection.spec_start().fx as int),
{
    let fx = selection.start().fx;
    if fx < 33 {
        WallThird::Left
    } else if fx <= 67 {
        WallThird::Bottom
    } else {
        WallThird::Right
    }
}

/// The history `h1` is `(snaps, cursor)` after one commit whose document has
/// the given layer views.
pub open spec fn history_edited(
    h1: History<Scene>,
    snaps: Seq<Scene>,
    cursor: int,
    floors: Map<Coord, (FloorEnum, Orientation)>,
    walls: Map<Coord, Walls>,
) -> bool {
    &&& h1.cursor() == 0
    &&& h1.snapshots().len() == 1 + edit_tail(snaps, cursor).len()
    &&& h1.snapshots()[0].floors@ == floors
    &&& h1.snapshots()[0].walls@ == walls
    &&& h1.snapshots().skip(1) == edit_tail(snaps, cursor)
}

/// The cursor after the undo that precedes every non-first frame of a drag
/// gesture: one step older if an older snapshot exists.
pub open spec fn gesture_cursor(sel: ButtonSelection, snaps: Seq<Scene>, cursor: int) -> int {
    if sel is Start {
        cursor
    } else if cursor + 1 < snaps.len() {
        cursor + 1
    } else {
        cursor
    }
}

/// What one frame of a floor-tool drag does to the scene view: on the first
/// frame of a drag it commits the painted (or, with control, erased)
/// rectangle; on a later frame it first undoes the previous frame's
/// provisional commit, so the gesture keeps exactly one history entry.
pub open spec fn floor_gesture_post(
    v0: SceneView,
    v1: SceneView,
    floor: FloorEnum,
    orientation: Orientation,
    ctrl: bool,
) -> bool {
    match v0.spec_selection() {
        Selection::Selecting(sel) => {
            let snaps = v0.spec_scene().snapshots();
            let cur = gesture_cursor(sel, snaps, v0.spec_scene().cursor());
            let base = snaps[cur];
            let r = sel.spec_ranges();
            let floors = if ctrl {
                base.floors@.remove_keys(rect_set(r.0.0, r.0.1, r.1.0, r.1.1))
            } else {
                base.floors@.union_prefer_right(
                    rect_fill(r.0.0, r.0.1, r.1.0, r.1.1, (floor, orientation)),
                )
            };
            history_edited(v1.spec_scene(), snaps, cur, floors, base.walls@)
        },
        _ => v1.spec_scene() == v0.spec_scene(),
    }
}

/// What one frame of a wall-tool drag does to the scene view: as with the
/// floor tool, but the press point's third of its cell decides whether the
/// left flags, the bottom faces, or the right flags of the projected range
/// are set — or cleared, with control held.
pub open spec fn wall_gesture_post(v0: SceneView, v1: SceneView, wall: WallEnum, ctrl: bool) -> bool {
    match v0.spec_selection() {
        Selection::Selecting(sel) => {
            let snaps = v0.spec_scene().snapshots();
            let cur = gesture_cursor(sel, snaps, v0.spec_scene().cursor());
            let base = snaps[cur];
            let v = sel.spec_vertical();
            let h = sel.spec_horizontal();
            let walls = match spec_thirds(sel.spec_start().fx as int) {
                WallThird::Left => set_left_in_rect(
                    base.walls@,
                    v.0.0,
                    v.0.1,
                    v.1.0,
                    v.1.1,
                    !ctrl,
                ),
                WallThird::Bottom => set_bottom_in_rect(
                    base.walls@,
                    h.0.0,
                    h.0.1,
                    h.1.0,
                    h.1.1,
                    if ctrl {
                        None
                    } else {
                        Some(wall)
                    },
                ),
                WallThird::Right => set_right_in_rect(
                    base.walls@,
                    v.0.0,
                    v.0.1,
                    v.1.0,
                    v.1.1,
                    !ctrl,
                ),
            };
            history_edited(v1.spec_scene(), snaps, cur, base.floors@, walls)
        },
        _ => v1.spec_scene() == v0.spec_scene(),
    }
}

/// What one update frame does to the scene view, by the active tool. With a
/// floor or wall tool the matching layer is forced visible and the drag
/// gesture applies; with no tool, a committed selection answers the rotate,
/// delete, cut and copy keys.
pub open spec fn scene_update_post(v0: SceneView, v1: SceneView, kb: Keyboard) -> bool {
    match v0.spec_pencil() {
        Some(Pencil::Floor((f, o))) => {
            &&& v1.spec_show().spec_floors()
            &&& v1.spec_show().spec_walls() == v0.spec_show().spec_walls()
            &&& v1.spec_show().spec_grid() == v0.spec_show().spec_grid()
            &&& v1.spec_pencil() == v0.spec_pencil()
            &&& v1.spec_selection() == v0.spec_selection()
            &&& v1.spec_buffer() == v0.spec_buffer()
            &&& floor_gesture_post(v0, v1, f, o, kb.spec_mods().ctrl)
        },
        Some(Pencil::Wall(w)) => {
            &&& v1.spec_show().spec_walls()
            &&& v1.spec_show().spec_floors() == v0.spec_show().spec_floors()
            &&& v1.spec_show().spec_grid() == v0.spec_show().spec_grid()
            &&& v1.spec_pencil() == v0.spec_pencil()
            &&& v1.spec_selection() == v0.spec_selection()
            &&& v1.spec_buffer() == v0.spec_buffer()
            &&& wall_gesture_post(v0, v1, w, kb.spec_mods().ctrl)
        },
        None => match v0.spec_selection() {
            Selection::Selected(sel) => {
                let snaps = v0.spec_scene().snapshots();
                let cur = v0.spec_scene().cursor();
                let base = snaps[cur];
                let r = sel.spec_ranges();
                let unchanged_rest = v1.spec_show() == v0.spec_show() && v1.spec_pencil()
                    == v0.spec_pencil();
                if kb.spec_pressed(Key::R) {
                    &&& unchanged_rest
                    &&& v1.spec_selection() == v0.spec_selection()
                    &&& v1.spec_buffer() == v0.spec_buffer()
                    &&& history_edited(
                        v1.spec_scene(),
                        snaps,
                        cur,
                        rotate_in_rect(
                            base.floors@,
                            r.0.0,
                            r.0.1,
                            r.1.0,
                            r.1.1,
                            !kb.spec_mods().shift,
                        ),
                        base.walls@,
                    )
                } else if kb.spec_pressed(Key::Delete) {
                    &&& unchanged_rest
                    &&& v1.spec_selection() == Selection::Idle
                    &&& v1.spec_buffer() == v0.spec_buffer()
                    &&& history_edited(
                        v1.spec_scene(),
                        snaps,
                        cur,
                        if v0.spec_show().spec_floors() {
                            base.floors@.remove_keys(rect_set(r.0.0, r.0.1, r.1.0, r.1.1))
                        } else {
                            base.floors@
                        },
                        if v0.spec_show().spec_walls() {
                            clear_walls_in_rect(base.walls@, r.0.0, r.0.1, r.1.0, r.1.1)
                        } else {
                            base.walls@
                        },
                    )
                } else if kb.spec_mods().ctrl && kb.spec_pressed(Key::X) {
                    &&& unchanged_rest
                    &&& v1.spec_selection() == Selection::Idle
                    &&& buffer_holds_copy(v1.spec_buffer(), sel, v0, base, r)
                    &&& history_edited(
                        v1.spec_scene(),
                        snaps,
                        cur,
                        if v0.spec_show().spec_floors() {
                            base.floors@.remove_keys(rect_set(r.0.0, r.0.1, r.1.0, r.1.1))
                        } else {
                            base.floors@
                        },
                        if v0.spec_show().spec_walls() {
                            clear_walls_in_rect(base.walls@, r.0.0, r.0.1, r.1.0, r.1.1)
                        } else {
                            base.walls@
                        },
                    )
                } else if kb.spec_mods().ctrl && kb.spec_pressed(Key::C) {
                    &&& unchanged_rest
                    &&& v1.spec_selection() == Selection::Idle
                    &&& buffer_holds_copy(v1.spec_buffer(), sel, v0, base, r)
                    &&& v1.spec_scene() == v0.spec_scene()
                } else {
                    v1 == v0
                }
            },
            _ => v1 == v0,
        },
    }
}

/// The buffer holds the selection together with a fragment whose layers are
/// the shown layers of `base` restricted to the selected rectangle.
pub open spec fn buffer_holds_copy(
    buffer: Option<(ButtonSelection, Scene)>,
    sel: ButtonSelection,
    v0: SceneView,
    base: Scene,
    r: ((int, int), (int, int)),
) -> bool {
    &&& buffer matches Some(b)
    &&& buffer matches Some(b) ==> {
        &&& b.0 == sel
        &&& b.1.floors@ == (if v0.spec_show().spec_floors() {
            base.floors@.restrict(rect_set(r.0.0, r.0.1, r.1.0, r.1.1))
        } else {
            Map::<Coord, (FloorEnum, Orientation)>::empty()
        })
        &&& b.1.walls@ == (if v0.spec_show().spec_walls() {
            base.walls@.restrict(rect_set(r.0.0, r.0.1, r.1.0, r.1.1))
        } else {
            Map::<Coord, Walls>::empty()
        })
    }
}

/// The scene authoring screen: the document history, the selection, the
/// active tool, the shown layers, and the cut/copy buffer.
#[derive(Debug)]
pub struct SceneView {
    scene: History<Scene>,
    buffer: Option<(ButtonSelection, Scene)>,
    show: Show,
    pub selection: Selection,
    pub pencil: Option<Pencil>,
}

impl SceneView {
    pub closed spec fn spec_scene(self) -> History<Scene> {
        self.scene
    }

    pub closed spec fn spec_selection(self) -> Selection {
        self.selection
    }

    pub closed spec fn spec_pencil(self) -> Option<Pencil> {
        self.pencil
    }

    pub closed spec fn spec_buffer(self) -> Option<(ButtonSelection, Scene)> {
        self.buffer
    }

    pub closed spec fn spec_show(self) -> Show {
        self.show
    }

    /// The history is well formed and all its snapshots are, as are the
    /// selection points and any buffered fragment.
    pub open spec fn wf(self) -> bool {
        &&& self.spec_scene().wf()
        &&& forall|i: int|
            0 <= i < self.spec_scene().snapshots().len() ==> (#[trigger] self.spec_scene().snapshots()[i]).wf()
        &&& self.spec_selection().wf()
        &&& (self.spec_buffer() matches Some(b) ==> b.1.wf())
    }

    /// The document currently shown: the snapshot under the history cursor.
    pub open spec fn doc(self) -> Scene {
        self.spec_scene().spec_get()
    }

    /// A fresh authoring session: the seeded document as the one history
    /// entry, nothing selected, no tool, floors and walls shown.
    pub fn new() -> (v: SceneView)
        ensures
            v.wf(),
            v.spec_selection() == Selection::Idle,
            v.spec_pencil() == None::<Pencil>,
            v.spec_buffer() == None::<(ButtonSelection, Scene)>,
            v.spec_show().spec_floors() && v.spec_show().spec_walls() && !v.spec_show().spec_grid(),
            v.spec_scene().cursor() == 0,
            v.spec_scene().snapshots().len() == 1,
            v.doc().floors@ == rect_fill(0, 5, 0, 5, (FloorEnum::Floor, Orientation::North)),
            v.doc().walls@ == make_rects_walls(Map::<Coord, Walls>::empty()),
    {
        let mut scene = Scene::new();
        scene.make_rects();
        proof {
            assert(scene.floors@ =~= rect_fill(
                0,
                5,
                0,
                5,
                (FloorEnum::Floor, Orientation::North),
            ));
        }
        let scene = History::new(scene);
        SceneView { scene, buffer: None, show: Show::new(), selection: Selection::Idle, pencil: None }
    }

    /// The document currently shown.
    pub fn scene(&self) -> (s: &Scene)
        requires
            self.wf(),
        ensures
            *s == self.doc(),
    {
        self.scene.get()
    }

    /// The shown layers.
    pub fn show(&self) -> (s: Show)
        ensures
            s == self.spec_show(),
    {
        self.show
    }

    /// The cut/copy buffer: the selection it was taken from, and the
    /// detached fragment.
    pub fn buffer(&self) -> (b: &Option<(ButtonSelection, Scene)>)
        ensures
            *b == self.spec_buffer(),
    {
        &self.buffer
    }

    /// Feed one frame of input through every part: layer toggles, undo/redo
    /// keys, the tool's rotation key, and the selection state machine. The
    /// selection persists past release only while no tool is active.
    pub fn events(&mut self, keyboard: &Keyboard, position: WorldPoint, left: bool, right: bool)
        requires
            old(self).wf(),
            position.wf(),
        ensures
            final(self).wf(),
            final(self).spec_show().spec_floors() == (if keyboard.spec_pressed(Key::F) {
                !old(self).spec_show().spec_floors()
            } else {
                old(self).spec_show().spec_floors()
            }),
            final(self).spec_show().spec_walls() == (if keyboard.spec_pressed(Key::W) {
                !old(self).spec_show().spec_walls()
            } else {
                old(self).spec_show().spec_walls()
            }),
            final(self).spec_show().spec_grid() == (if keyboard.spec_pressed(Key::G) {
                !old(self).spec_show().spec_grid()
            } else {
                old(self).spec_show().spec_grid()
            }),
            final(self).spec_scene().snapshots() == old(self).spec_scene().snapshots(),
            final(self).spec_scene().cursor() == (if keyboard.spec_mods().ctrl
                && keyboard.spec_pressed(Key::Z) {
                if keyboard.spec_mods().shift {
                    if old(self).spec_scene().cursor() > 0 {
                        old(self).spec_scene().cursor() - 1
                    } else {
                        old(self).spec_scene().cursor()
                    }
                } else {
                    if old(self).spec_scene().cursor() + 1 < old(
                        self,
                    ).spec_scene().snapshots().len() {
                        old(self).spec_scene().cursor() + 1
                    } else {
                        old(self).spec_scene().cursor()
                    }
                }
            } else {
                old(self).spec_scene().cursor()
            }),
            final(self).spec_pencil() == (match old(self).spec_pencil() {
                Some(p) => Some(
                    if keyboard.spec_pressed(Key::R) {
                        match p {
                            Pencil::Floor((f, o)) => Pencil::Floor(
                                (
                                    f,
                                    if keyboard.spec_mods().shift {
                                        o.spec_rotate_left()
                                    } else {
                                        o.spec_rotate_right()
                                    },
                                ),
                            ),
                            Pencil::Wall(w) => Pencil::Wall(w),
                        }
                    } else {
                        p
                    },
                ),
                None => None::<Pencil>,
            }),
            final(self).spec_selection() == old(self).spec_selection().spec_events(
                position,
                left,
                right,
                old(self).spec_pencil() is None,
            ),
            final(self).spec_buffer() == old(self).spec_buffer(),
    {
        self.show.events(keyboard);
        self.scene.events(keyboard);
        let persist = match &mut self.pencil {
            Some(pencil) => {
                pencil.events(keyboard);
                false
            },
            None => true,
        };
        self.selection.events(position, left, right, persist);
    }

    /// Apply one update frame: an active tool paints through the drag in
    /// progress, while without one a committed selection answers the rotate,
    /// delete, cut and copy keys.
    pub fn update(&mut self, keyboard: &Keyboard)
        requires
            old(self).wf(),
        ensures
            final(self).wf(),
            scene_update_post(*old(self), *final(self), *keyboard),
    {
        match self.pencil {
            Some(Pencil::Floor((floor, orientation))) => {
                self.show.show_floors();
                let ctrl = keyboard.ctrl();
                self.update_floor(floor, orientation, ctrl);
            },
            Some(Pencil::Wall(wall)) => {
                self.show.show_walls();
                let ctrl = keyboard.ctrl();
                self.update_walls(wall, ctrl);
            },
            None => {
                match self.selection {
                    Selection::Selected(sel) => {
                        let show = self.show;
                        if keyboard.is_pressed(Key::R) {
                            let ghost snaps0 = self.scene.snapshots();
                            let ghost cur0 = self.scene.cursor();
                            let mut doc = self.scene.get().clone();
                            doc.rotate_floor(sel.ranges(), !keyboard.shift());
                            let ghost d = doc;
                            self.scene.edit(doc);
                            proof {
                                self.lemma_after_edit(snaps0, cur0, d);
                            }
                        } else if keyboard.is_pressed(Key::Delete) {
                            let ghost snaps0 = self.scene.snapshots();
                            let ghost cur0 = self.scene.cursor();
                            let mut doc = self.scene.get().clone();
                            doc.remove(sel.ranges(), show);
                            let ghost d = doc;
                            self.scene.edit(doc);
                            self.selection.clear();
                            proof {
                                self.lemma_after_edit(snaps0, cur0, d);
                            }
                        } else if keyboard.ctrl() && keyboard.is_pressed(Key::X) {
                            let ghost snaps0 = self.scene.snapshots();
                            let ghost cur0 = self.scene.cursor();
                            let mut doc = self.scene.get().clone();
                            let frag = doc.cut(sel.ranges(), show);
                            let ghost d = doc;
                            self.scene.edit(doc);
                            self.buffer = Some((sel, frag));
                            self.selection.clear();
                            proof {
                                self.lemma_after_edit(snaps0, cur0, d);
                            }
                        } else if keyboard.ctrl() && keyboard.is_pressed(Key::C) {
                            let frag = self.scene.get().copy(sel.ranges(), show);
                            self.buffer = Some((sel, frag));
                            self.selection.clear();
                        }
                    },
                    _ => {},
                }
            },
        }
    }

    /// One frame of a floor-tool drag; see `floor_gesture_post`.
    pub fn update_floor(&mut self, floor: FloorEnum, orientation: Orientation, ctrl: bool)
        requires
            old(self).wf(),
        ensures
            final(self).wf(),
            final(self).spec_pencil() == old(self).spec_pencil(),
            final(self).spec_selection() == old(self).spec_selection(),
            final(self).spec_show() == old(self).spec_show(),
            final(self).spec_buffer() == old(self).spec_buffer(),
            floor_gesture_post(*old(self), *final(self), floor, orientation, ctrl),
    {
        match self.selection {
            Selection::Selecting(sel) => {
                let ghost snaps0 = self.scene.snapshots();
                let ghost cur0 = self.scene.cursor();
                if !sel.is_start() {
                    self.scene.undo();
                }
                let mut doc = self.scene.get().clone();
                let ranges = sel.ranges();
                if ctrl {
                    doc.remove_floor(ranges);
                } else {
                    doc.add_floor(floor, orientation, ranges);
                }
                let ghost d = doc;
                self.scene.edit(doc);
                proof {
                    self.lemma_after_edit(snaps0, gesture_cursor(sel, snaps0, cur0), d);
                }
            },
            _ => {},
        }
    }

    /// One frame of a wall-tool drag; see `wall_gesture_post`.
    pub fn update_walls(&mut self, wall: WallEnum, ctrl: bool)
        requires
            old(self).wf(),
        ensures
            final(self).wf(),
            final(self).spec_pencil() == old(self).spec_pencil(),
            final(self).spec_selection() == old(self).spec_selection(),
            final(self).spec_show() == old(self).spec_show(),
            final(self).spec_buffer() == old(self).spec_buffer(),
            wall_gesture_post(*old(self), *final(self), wall, ctrl),
    {
        match self.selection {
            Selection::Selecting(sel) => {
                let ghost snaps0 = self.scene.snapshots();
                let ghost cur0 = self.scene.cursor();
                if !sel.is_start() {
                    self.scene.undo();
                }
                let mut doc = self.scene.get().clone();
                match thirds(&sel) {
                    WallThird::Left => doc.left_wall(!ctrl, sel.vertical()),
                    WallThird::Bottom => doc.bottom_wall(
                        if ctrl {
                            None
                        } else {
                            Some(wall)
                        },
                        sel.horizontal(),
                    ),
                    WallThird::Right => doc.right_wall(!ctrl, sel.vertical()),
                }
                let ghost d = doc;
                self.scene.edit(doc);
                proof {
                    self.lemma_after_edit(snaps0, gesture_cursor(sel, snaps0, cur0), d);
                }
            },
            _ => {},
        }
    }

    /// After a commit of `d` on the history model `(snaps, cursor)`, the new
    /// snapshot sequence decomposes into `d` and the kept tail, and every
    /// snapshot is well formed when the old ones and `d` are.
    proof fn lemma_after_edit(self, snaps: Seq<Scene>, cursor: int, d: Scene)
        requires
            0 <= cursor <= snaps.len(),
            self.spec_scene().snapshots() == edit_snapshots(snaps, cursor, d),
            forall|i: int| 0 <= i < snaps.len() ==> (#[trigger] snaps[i]).wf(),
            d.wf(),
        ensures
            self.spec_scene().snapshots()[0] == d,
            self.spec_scene().snapshots().len() == 1 + edit_tail(snaps, cursor).len(),
            self.spec_scene().snapshots().skip(1) == edit_tail(snaps, cursor),
            forall|i: int|
                0 <= i < self.spec_scene().snapshots().len() ==> (
                #[trigger] self.spec_scene().snapshots()[i]).wf(),
    {
        lemma_edit_snapshots_decompose(snaps, cursor, d);
        let tail = edit_tail(snaps, cursor);
        assert(self.spec_scene().snapshots().skip(1) =~= tail);
        assert forall|i: int|
            0 <= i < self.spec_scene().snapshots().len() implies (
        #[trigger] self.spec_scene().snapshots()[i]).wf() by {
            if i >= 1 {
                assert(self.spec_scene().snapshots()[i] == tail[i - 1]);
                assert(tail[i - 1] == snaps[cursor + i - 1]);
            }
        }
    }
}

} // verus!
