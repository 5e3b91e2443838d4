use vstd::prelude::*;

verus! {

/// Debounce window in milliseconds: a key that stays down this long counts as
/// held, not as freshly pressed again.
pub const KEYBOARD_DEBOUNCE: u64 = 100;

/// How many keys the editor tracks.
pub const KEY_SLOTS: usize = 20;

/// The keys the editor reacts to.
#[derive(Clone, Copy, PartialEq, Eq, Structural, Hash, Debug)]
pub enum Key {
    Tab,
    R,
    F,
    W,
    G,
    Z,
    X,
    C,
    B,
    Delete,
    Up,
    Down,
    Left,
    Right,
    Plus,
    Minus,
    PageUp,
    PageDown,
    Key0,
    Equals,
}

/// The slot a key's state is stored in.
pub open spec fn key_slot_spec(k: Key) -> int {
    match k {
        Key::Tab => 0,
        Key::R => 1,
        Key::F => 2,
        Key::W => 3,
        Key::G => 4,
        Key::Z => 5,
        Key::X => 6,
        Key::C => 7,
        Key::B => 8,
        Key::Delete => 9,
        Key::Up => 10,
        Key::Down => 11,
        Key::Left => 12,
        Key::Right => 13,
        Key::Plus => 14,
        Key::Minus => 15,
        Key::PageUp => 16,
        Key::PageDown => 17,
        Key::Key0 => 18,
        Key::Equals => 19,
    }
}

fn key_slot(k: Key) -> (i: usize)
    ensures
        i == key_slot_spec(k),
        i < KEY_SLOTS,
{
    match k {
        Key::Tab => 0,
        Key::R => 1,
        Key::F => 2,
        Key::W => 3,
        Key::G => 4,
        Key::Z => 5,
        Key::X => 6,
        Key::C => 7,
        Key::B => 8,
        Key::Delete => 9,
        Key::Up => 10,
        Key::Down => 11,
        Key::Left => 12,
        Key::Right => 13,
        Key::Plus => 14,
        Key::Minus => 15,
        Key::PageUp => 16,
        Key::PageDown => 17,
        Key::Key0 => 18,
        Key::Equals => 19,
    }
}

proof fn lemma_key_slot_injective(a: Key, b: Key)
    requires
        a != b,
    ensures
        key_slot_spec(a) != key_slot_spec(b),
{
}

/// The modifier keys held during a frame.
#[derive(Clone, Copy, PartialEq, Eq, Structural, Debug)]
pub struct Mods {
    pub ctrl: bool,
    pub shift: bool,
    pub alt: bool,
    pub logo: bool,
}

impl Mods {
    /// No modifier held.
    pub fn empty() -> (m: Mods)
        ensures
            m == (Mods { ctrl: false, shift: false, alt: false, logo: false }),
    {
        Mods { ctrl: false, shift: false, alt: false, logo: false }
    }
}

/// What one key slot holds after a frame: expired entries leave, surviving
/// entries go stale, and a pressed key without a live entry enters fresh.
pub open spec fn updated_slot(prev: Option<(bool, u64)>, now: u64, is_down: bool) -> Option<
    (bool, u64),
> {
    match prev {
        Some(p) => if now - p.1 < KEYBOARD_DEBOUNCE {
            Some((false, p.1))
        } else if is_down {
            Some((true, now))
        } else {
            None
        },
        None => if is_down {
            Some((true, now))
        } else {
            None
        },
    }
}

/// Per-frame keyboard state: for each tracked key, whether it was freshly
/// pressed this frame and when it went down; plus the active modifiers.
#[derive(Debug)]
pub struct Keyboard {
    slots: Vec<Option<(bool, u64)>>,
    mods: Mods,
}

impl Keyboard {
    /// The stored state of one key.
    pub closed spec fn spec_slot(self, k: Key) -> Option<(bool, u64)> {
        if key_slot_spec(k) < self.slots@.len() {
            self.slots@[key_slot_spec(k)]
        } else {
            None
        }
    }

    /// Whether a key was freshly pressed this frame.
    pub open spec fn spec_pressed(self, k: Key) -> bool {
        self.spec_slot(k) matches Some(p) && p.0
    }

    /// Whether a key's entry is still inside the debounce window at `now`.
    pub open spec fn spec_alive(self, k: Key, now: u64) -> bool {
        self.spec_slot(k) matches Some(p) && now - p.1 < KEYBOARD_DEBOUNCE
    }

    pub closed spec fn spec_mods(self) -> Mods {
        self.mods
    }

    /// Every stored press time is at or before `now`.
    pub closed spec fn times_bounded(self, now: u64) -> bool {
        forall|i: int|
            0 <= i < self.slots@.len() ==> ((#[trigger] self.slots@[i]) matches Some(p) ==> p.1
                <= now)
    }

    pub fn new() -> (kb: Keyboard)
        ensures
            forall|k: Key| (#[trigger] kb.spec_slot(k)) == None::<(bool, u64)>,
            kb.spec_mods() == (Mods { ctrl: false, shift: false, alt: false, logo: false }),
            forall|n: u64| kb.times_bounded(n),
    {
        let mut slots: Vec<Option<(bool, u64)>> = Vec::new();
        let mut i: usize = 0;
        while i < KEY_SLOTS
            invariant
                i <= KEY_SLOTS,
                slots@.len() == i,
                forall|j: int| 0 <= j < i ==> slots@[j] == None::<(bool, u64)>,
            decreases KEY_SLOTS - i,
        {
            slots.push(None);
            i = i + 1;
        }
        Keyboard { slots, mods: Mods::empty() }
    }

    /// Absorb one frame of raw input: `pressed` lists the keys physically
    /// down, `now` is the frame time in milliseconds.
    pub fn update(&mut self, now: u64, pressed: &Vec<Key>, mods: Mods)
        requires
            old(self).times_bounded(now),
        ensures
            final(self).spec_mods() == mods,
            forall|k: Key|
                (#[trigger] final(self).spec_slot(k)) == updated_slot(
                    old(self).spec_slot(k),
                    now,
                    pressed@.contains(k),
                ),
            final(self).times_bounded(now),
    {
        self.mods = mods;
        let mut slots: Vec<Option<(bool, u64)>> = Vec::new();
        let mut i: usize = 0;
        while i < KEY_SLOTS
            invariant
                i <= KEY_SLOTS,
                slots@.len() == i,
                self.slots@ == old(self).slots@,
                old(self).times_bounded(now),
                forall|j: int|
                    0 <= j < i ==> (#[trigger] slots@[j]) == updated_slot(
                        (if j < old(self).slots@.len() {
                            old(self).slots@[j]
                        } else {
                            None
                        }),
                        now,
                        false,
                    ),
                forall|j: int|
                    0 <= j < i ==> ((#[trigger] slots@[j]) matches Some(p) ==> p.1 <= now),
            decreases KEY_SLOTS - i,
        {
            let prev: Option<(bool, u64)> = if i < self.slots.len() {
                self.slots[i]
            } else {
                None
            };
            let next: Option<(bool, u64)> = match prev {
                Some(p) => {
                    if now - p.1 < KEYBOARD_DEBOUNCE {
                        Some((false, p.1))
                    } else {
                        None
                    }
                },
                None => None,
            };
            slots.push(next);
            i = i + 1;
        }
        self.slots = slots;
        let n = pressed.len();
        let mut q: usize = 0;
        while q < n
            invariant
                q <= n,
                n == pressed@.len(),
                self.slots@.len() == KEY_SLOTS,
                self.mods == mods,
                self.times_bounded(now),
                forall|r: int|
                    0 <= r < q ==> (#[trigger] self.spec_slot(pressed@[r])) == updated_slot(
                        old(self).spec_slot(pressed@[r]),
                        now,
                        true,
                    ),
                forall|k: Key|
                    (#[trigger] self.spec_slot(k)) == updated_slot(
                        old(self).spec_slot(k),
                        now,
                        false,
                    ) || (pressed@.contains(k) && self.spec_slot(k) == updated_slot(
                        old(self).spec_slot(k),
                        now,
                        true,
                    )),
            decreases n - q,
        {
            let k = pressed[q];
            let idx = key_slot(k);
            let ghost prev_self = *self;
            proof {
                assert(pressed@.contains(k)) by {
                    assert(pressed@[q as int] == k);
                }
            }
            if self.slots[idx].is_none() {
                self.slots.set(idx, Some((true, now)));
                proof {
                    assert(self.spec_slot(k) == Some((true, now)));
                    assert(prev_self.spec_slot(k) == None::<(bool, u64)>);
                    assert(self.spec_slot(k) == updated_slot(old(self).spec_slot(k), now, true));
                    assert forall|k2: Key| k2 != k implies #[trigger] self.spec_slot(k2)
                        == prev_self.spec_slot(k2) by {
                        lemma_key_slot_injective(k, k2);
                    }
                    assert forall|r: int| 0 <= r < q + 1 implies (#[trigger] self.spec_slot(
                        pressed@[r],
                    )) == updated_slot(old(self).spec_slot(pressed@[r]), now, true) by {
                        if pressed@[r] != k {
                            lemma_key_slot_injective(k, pressed@[r]);
                        }
                    }
                }
            } else {
                proof {
                    // the entry is either still alive from before the frame, or was
                    // set fresh by an earlier occurrence of the same key
                    if self.spec_slot(k) == updated_slot(old(self).spec_slot(k), now, false) {
                        assert(old(self).spec_alive(k, now));
                        assert(self.spec_slot(k) == updated_slot(
                            old(self).spec_slot(k),
                            now,
                            true,
                        ));
                    }
                }
            }
            q = q + 1;
        }
        proof {
            assert forall|k: Key| (#[trigger] self.spec_slot(k)) == updated_slot(
                old(self).spec_slot(k),
                now,
                pressed@.contains(k),
            ) by {
                if pressed@.contains(k) {
                    let r = choose|r: int| 0 <= r < pressed@.len() && pressed@[r] == k;
                    assert(self.spec_slot(pressed@[r]) == updated_slot(
                        old(self).spec_slot(pressed@[r]),
                        now,
                        true,
                    ));
                }
            }
        }
    }

    /// Whether a key was freshly pressed this frame.
    pub fn is_pressed(&self, key: Key) -> (b: bool)
        ensures
            b == self.spec_pressed(key),
    {
        let idx = key_slot(key);
        if idx < self.slots.len() {
            match self.slots[idx] {
                Some((fresh, _)) => fresh,
                None => false,
            }
        } else {
            false
        }
    }

    /// Whether every modifier of `mods` is currently held.
    pub fn is_active(&self, mods: Mods) -> (b: bool)
        ensures
            b == ((mods.ctrl ==> self.spec_mods().ctrl) && (mods.shift ==> self.spec_mods().shift)
                && (mods.alt ==> self.spec_mods().alt) && (mods.logo ==> self.spec_mods().logo)),
    {
        (!mods.ctrl || self.mods.ctrl) && (!mods.shift || self.mods.shift) && (!mods.alt
            || self.mods.alt) && (!mods.logo || self.mods.logo)
    }

    /// Whether the control modifier is held.
    pub fn ctrl(&self) -> (b: bool)
        ensures
            b == self.spec_mods().ctrl,
    {
        self.mods.ctrl
    }

    /// Whether the shift modifier is held.
    pub fn shift(&self) -> (b: bool)
        ensures
            b == self.spec_mods().shift,
    {
        self.mods.shift
    }
}

} // verus!
