use crate::keyboard::{Key, Keyboard};
use vstd::prelude::*;

verus! {

/// The most snapshots a history keeps.
pub const HISTORY_MAX: usize = 10;

/// The snapshot sequence after a commit: the new document in front, then the
/// old sequence from the cursor on (the newer part, the redo branch, is
/// discarded), trimmed at the back to the bound.
pub open spec fn edit_snapshots<T>(snaps: Seq<T>, cursor: int, t: T) -> Seq<T> {
    let kept = seq![t] + snaps.skip(cursor);
    if kept.len() <= HISTORY_MAX {
        kept
    } else {
        kept.take(HISTORY_MAX as int)
    }
}

/// Bounded linear undo/redo over immutable snapshots of a document, stored
/// newest first, with a cursor naming the current one.
#[derive(Debug)]
pub struct History<T> {
    history: Vec<T>,
    current: usize,
}

impl<T> History<T> {
    /// The stored snapshots, newest first.
    pub closed spec fn snapshots(self) -> Seq<T> {
        self.history@
    }

    /// The index of the current snapshot; 0 is the newest.
    pub closed spec fn cursor(self) -> int {
        self.current as int
    }

    /// At least one snapshot, at most the bound, and the cursor inside.
    pub open spec fn wf(self) -> bool {
        1 <= self.snapshots().len() <= HISTORY_MAX && 0 <= self.cursor() < self.snapshots().len()
    }

    /// The snapshot the cursor rests on.
    pub open spec fn spec_get(self) -> T
        recommends
            self.wf(),
    {
        self.snapshots()[self.cursor()]
    }

    pub fn new(t: T) -> (h: History<T>)
        ensures
            h.wf(),
            h.snapshots() == seq![t],
            h.cursor() == 0,
    {
        let mut history = Vec::with_capacity(HISTORY_MAX);
        history.push(t);
        proof {
            assert(history@ =~= seq![t]);
        }
        History { history, current: 0 }
    }

    pub fn get(&self) -> (t: &T)
        requires
            self.wf(),
        ensures
            *t == self.spec_get(),
    {
        &self.history[self.current]
    }

    /// Commit a new snapshot: the redo branch is discarded, the new document
    /// goes in front, and the oldest entries fall off past the bound.
    pub fn edit(&mut self, t: T)
        requires
            old(self).wf(),
        ensures
            final(self).wf(),
            final(self).cursor() == 0,
            final(self).snapshots() == edit_snapshots(
                old(self).snapshots(),
                old(self).cursor(),
                t,
            ),
    {
        self.add(t);
    }

    /// Step the cursor to the next older snapshot, if there is one.
    pub fn undo(&mut self) -> (moved: bool)
        requires
            old(self).wf(),
        ensures
            final(self).wf(),
            final(self).snapshots() == old(self).snapshots(),
            moved == (old(self).cursor() + 1 < old(self).snapshots().len()),
            final(self).cursor() == (if moved {
                old(self).cursor() + 1
            } else {
                old(self).cursor()
            }),
    {
        let bound = if self.history.len() < HISTORY_MAX {
            self.history.len()
        } else {
            HISTORY_MAX
        };
        if self.current + 1 < bound {
            self.current = self.current + 1;
            true
        } else {
            false
        }
    }

    /// Step the cursor back to the next newer snapshot, if there is one.
    pub fn redo(&mut self) -> (moved: bool)
        requires
            old(self).wf(),
        ensures
            final(self).wf(),
            final(self).snapshots() == old(self).snapshots(),
            moved == (old(self).cursor() > 0),
            final(self).cursor() == (if moved {
                old(self).cursor() - 1
            } else {
                old(self).cursor()
            }),
    {
        if self.current > 0 {
            self.current = self.current - 1;
            true
        } else {
            false
        }
    }

    /// Undo on a fresh control-Z, redo when shift is held too.
    pub fn events(&mut self, keyboard: &Keyboard)
        requires
            old(self).wf(),
        ensures
            final(self).wf(),
            final(self).snapshots() == old(self).snapshots(),
            final(self).cursor() == (if keyboard.spec_mods().ctrl && keyboard.spec_pressed(Key::Z) {
                if keyboard.spec_mods().shift {
                    if old(self).cursor() > 0 {
                        old(self).cursor() - 1
                    } else {
                        old(self).cursor()
                    }
                } else {
                    if old(self).cursor() + 1 < old(self).snapshots().len() {
                        old(self).cursor() + 1
                    } else {
                        old(self).cursor()
                    }
                }
            } else {
                old(self).cursor()
            }),
    {
        let ctrl = keyboard.ctrl();
        let shift = keyboard.shift();
        let z = keyboard.is_pressed(Key::Z);
        if ctrl && z {
            if shift {
                self.redo();
            } else {
                self.undo();
            }
        }
    }

    fn add(&mut self, t: T)
        requires
            old(self).wf(),
        ensures
            final(self).wf(),
            final(self).cursor() == 0,
            final(self).snapshots() == edit_snapshots(
                old(self).snapshots(),
                old(self).cursor(),
                t,
            ),
    {
        // drop the undone entries in front of the cursor
        while self.current > 0
            invariant
                self.current <= old(self).current,
                old(self).wf(),
                self.history@ == old(self).history@.skip(
                    old(self).current - self.current,
                ),
            decreases self.current,
        {
            let ghost before = self.history@;
            self.history.remove(0);
            self.current = self.current - 1;
            proof {
                assert(before.remove(0) =~= old(self).history@.skip(
                    old(self).current - self.current,
                ));
            }
        }
        // the new snapshot goes in front
        self.history.insert(0, t);
        proof {
            assert(self.history@ =~= seq![t] + old(self).history@.skip(
                old(self).current as int,
            ));
        }
        // the oldest entries fall off past the bound
        self.history.truncate(HISTORY_MAX);
        proof {
            let kept = seq![t] + old(self).snapshots().skip(old(self).cursor());
            if kept.len() > HISTORY_MAX {
                assert(self.history@ =~= kept.take(HISTORY_MAX as int));
            }
        }
    }
}

/// The part of the snapshot sequence a commit keeps behind the new document:
/// everything from the cursor on, trimmed so that the bound holds with the
/// new document in front.
pub open spec fn edit_tail<T>(snaps: Seq<T>, cursor: int) -> Seq<T> {
    let kept = snaps.skip(cursor);
    if 1 + kept.len() <= HISTORY_MAX {
        kept
    } else {
        kept.take(HISTORY_MAX - 1)
    }
}

/// A commit is the new document followed by the kept tail.
pub proof fn lemma_edit_snapshots_decompose<T>(snaps: Seq<T>, cursor: int, t: T)
    requires
        0 <= cursor <= snaps.len(),
    ensures
        edit_snapshots(snaps, cursor, t) == seq![t] + edit_tail(snaps, cursor),
{
    let kept = seq![t] + snaps.skip(cursor);
    if kept.len() > HISTORY_MAX {
        assert(kept.take(HISTORY_MAX as int) =~= seq![t] + snaps.skip(cursor).take(
            HISTORY_MAX - 1,
        ));
    }
}

/// The history model after a run of commits, one per document in `docs`.
pub open spec fn edits_fold<T>(snaps: Seq<T>, cursor: int, docs: Seq<T>) -> (Seq<T>, int)
    decreases docs.len(),
{
    if docs.len() == 0 {
        (snaps, cursor)
    } else {
        edits_fold(edit_snapshots(snaps, cursor, docs[0]), 0, docs.skip(1))
    }
}

/// A run of commits grows the history one snapshot at a time until the bound,
/// and never past it.
pub proof fn lemma_edits_fold_len<T>(snaps: Seq<T>, cursor: int, docs: Seq<T>)
    requires
        1 <= snaps.len() <= HISTORY_MAX,
        0 <= cursor < snaps.len(),
        docs.len() >= 1,
    ensures
        edits_fold(snaps, cursor, docs).1 == 0,
        edits_fold(snaps, cursor, docs).0.len() == (if snaps.len() - cursor + docs.len()
            <= HISTORY_MAX {
            snaps.len() - cursor + docs.len()
        } else {
            HISTORY_MAX as int
        }),
    decreases docs.len(),
{
    let first = edit_snapshots(snaps, cursor, docs[0]);
    assert(first.len() == (if snaps.len() - cursor + 1 <= HISTORY_MAX {
        snaps.len() - cursor + 1
    } else {
        HISTORY_MAX as int
    }));
    assert(edits_fold(snaps, cursor, docs) == edits_fold(first, 0, docs.skip(1)));
    if docs.len() == 1 {
        assert(docs.skip(1).len() == 0);
        assert(edits_fold(first, 0, docs.skip(1)) == (first, 0int));
    } else {
        lemma_edits_fold_len(first, 0, docs.skip(1));
    }
}

/// History bound: after any run of more than `HISTORY_MAX` consecutive
/// commits, exactly `HISTORY_MAX` snapshots remain.
pub proof fn lemma_history_bound<T>(snaps: Seq<T>, cursor: int, docs: Seq<T>)
    requires
        1 <= snaps.len() <= HISTORY_MAX,
        0 <= cursor < snaps.len(),
        docs.len() > HISTORY_MAX,
    ensures
        edits_fold(snaps, cursor, docs).0.len() == HISTORY_MAX,
{
    lemma_edits_fold_len(snaps, cursor, docs);
}

/// Undo/redo duality: committing `d1` on a history freshly seeded with `d0`
/// leaves the two snapshots `[d1, d0]`. Undo therefore moves (the cursor goes
/// to 1) and reads back `d0`; redo then moves (the cursor returns to 0) and
/// reads back `d1`.
pub proof fn lemma_undo_redo_duality<T>(d0: T, d1: T)
    ensures
        edit_snapshots(seq![d0], 0, d1) == seq![d1, d0],
{
    assert(seq![d0].skip(0) =~= seq![d0]);
    assert(seq![d1] + seq![d0] =~= seq![d1, d0]);
}

/// A commit after an undo discards the redo branch: committing `d1`, undoing
/// (the cursor moves to 1), then committing `d2` leaves `[d2, d0]` with the
/// cursor at 0 — `d1` is gone, and redo at cursor 0 reports no movement.
pub proof fn lemma_redo_discarded<T>(d0: T, d1: T, d2: T)
    ensures
        edit_snapshots(edit_snapshots(seq![d0], 0, d1), 1, d2) == seq![d2, d0],
{
    lemma_undo_redo_duality(d0, d1);
    assert(seq![d1, d0].skip(1) =~= seq![d0]);
    assert(seq![d2] + seq![d0] =~= seq![d2, d0]);
}

} // verus!
