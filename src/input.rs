//! The directional keys and a snapshot of which of them are held.
use vstd::prelude::*;

verus! {

/// One of the four directional keys that move the entity.
#[derive(Clone, Copy, Debug, PartialEq, Eq, Structural)]
pub enum Key {
    Left,
    Right,
    Up,
    Down,
}

/// Which directional keys are held during one tick.
#[derive(Clone, Copy, Debug, PartialEq, Eq, Structural)]
pub struct HeldKeys {
    pub left: bool,
    pub right: bool,
    pub up: bool,
    pub down: bool,
}

impl HeldKeys {
    /// Whether `k` is held.
    pub open spec fn holds(self, k: Key) -> bool {
        match k {
            Key::Left => self.left,
            Key::Right => self.right,
            Key::Up => self.up,
            Key::Down => self.down,
        }
    }

    /// The held keys, as a set.
    pub open spec fn view(self) -> Set<Key> {
        Set::new(|k: Key| self.holds(k))
    }

    /// How many keys are held.
    pub open spec fn count(self) -> nat {
        (if self.left { 1nat } else { 0nat }) + (if self.right { 1nat } else { 0nat })
            + (if self.up { 1nat } else { 0nat }) + (if self.down { 1nat } else { 0nat })
    }

    /// The snapshot in which only `k` is held.
    pub open spec fn only(k: Key) -> HeldKeys {
        HeldKeys {
            left: k == Key::Left,
            right: k == Key::Right,
            up: k == Key::Up,
            down: k == Key::Down,
        }
    }

    /// A snapshot with no key held.
    pub fn none() -> (r: HeldKeys)
        ensures
            r@ == Set::<Key>::empty(),
            r.count() == 0,
    {
        let r = HeldKeys { left: false, right: false, up: false, down: false };
        assert(r@ =~= Set::<Key>::empty());
        r
    }

    /// The snapshot with `k` held too.
    pub fn with(self, k: Key) -> (r: HeldKeys)
        ensures
            r@ == self@.insert(k),
    {
        let r = match k {
            Key::Left => HeldKeys { left: true, ..self },
            Key::Right => HeldKeys { right: true, ..self },
            Key::Up => HeldKeys { up: true, ..self },
            Key::Down => HeldKeys { down: true, ..self },
        };
        assert(r@ =~= self@.insert(k));
        r
    }
}

/// `k` is in the set of held keys exactly when it is held.
pub proof fn lemma_view_contains(h: HeldKeys, k: Key)
    ensures
        h@.contains(k) == h.holds(k),
{
}

/// Two snapshots with the same set of held keys are the same snapshot.
pub proof fn lemma_view_determines_keys(a: HeldKeys, b: HeldKeys)
    requires
        a@ == b@,
    ensures
        a == b,
{
    lemma_view_contains(a, Key::Left);
    lemma_view_contains(b, Key::Left);
    lemma_view_contains(a, Key::Right);
    lemma_view_contains(b, Key::Right);
    lemma_view_contains(a, Key::Up);
    lemma_view_contains(b, Key::Up);
    lemma_view_contains(a, Key::Down);
    lemma_view_contains(b, Key::Down);
}

/// The held keys, added one at a time.
spec fn held_set(h: HeldKeys) -> Set<Key> {
    let s1 = if h.left { Set::empty().insert(Key::Left) } else { Set::empty() };
    let s2 = if h.right { s1.insert(Key::Right) } else { s1 };
    let s3 = if h.up { s2.insert(Key::Up) } else { s2 };
    if h.down { s3.insert(Key::Down) } else { s3 }
}

/// The set of held keys is finite and has `count` elements.
pub proof fn lemma_view_len_is_count(h: HeldKeys)
    ensures
        h@.finite(),
        h@.len() == h.count(),
{
    let s1 = if h.left { Set::empty().insert(Key::Left) } else { Set::<Key>::empty() };
    let s2 = if h.right { s1.insert(Key::Right) } else { s1 };
    let s3 = if h.up { s2.insert(Key::Up) } else { s2 };
    assert(s1.finite() && s1.len() == (if h.left { 1nat } else { 0nat }));
    assert(!s1.contains(Key::Right));
    assert(s2.finite());
    assert(!s2.contains(Key::Up));
    assert(s3.finite());
    assert(!s3.contains(Key::Down));
    assert(h@ =~= held_set(h));
}

} // verus!
