//! The movement reducer: from held keys to a displacement, and its
//! application to the entity's position.
use vstd::prelude::*;
use crate::input::{HeldKeys, Key};

verus! {

/// Integer units in one world unit.
pub const UNITS_PER_METRE: i64 = 1000;

/// How far one held key moves the entity in one tick (0.05 world units).
pub const STEP: i64 = 50;

/// Numerator of the factor applied when more than one key is held.
pub const PENALTY_NUM: i64 = 1;

/// Denominator of the factor applied when more than one key is held.
pub const PENALTY_DEN: i64 = 2;

/// A movement on the ground plane during one tick.
#[derive(Clone, Copy, Debug, PartialEq, Eq, Structural)]
pub struct Displacement {
    pub dx: i64,
    pub dz: i64,
}

/// Where the entity stands.
#[derive(Clone, Copy, Debug, PartialEq, Eq, Structural)]
pub struct Position {
    pub x: i64,
    pub y: i64,
    pub z: i64,
}

/// The move that `k` alone asks for, as `(dx, dz)`.
pub open spec fn key_step(k: Key) -> (int, int) {
    match k {
        Key::Left => (-STEP as int, 0),
        Key::Right => (STEP as int, 0),
        Key::Up => (0, -STEP as int),
        Key::Down => (0, STEP as int),
    }
}

/// The sum of the steps of the held keys along x, before any penalty.
pub open spec fn summed_dx(h: HeldKeys) -> int {
    (if h.left { key_step(Key::Left).0 } else { 0 }) + (if h.right { key_step(Key::Right).0 } else { 0 })
        + (if h.up { key_step(Key::Up).0 } else { 0 }) + (if h.down { key_step(Key::Down).0 } else { 0 })
}

/// The sum of the steps of the held keys along z, before any penalty.
pub open spec fn summed_dz(h: HeldKeys) -> int {
    (if h.left { key_step(Key::Left).1 } else { 0 }) + (if h.right { key_step(Key::Right).1 } else { 0 })
        + (if h.up { key_step(Key::Up).1 } else { 0 }) + (if h.down { key_step(Key::Down).1 } else { 0 })
}

/// A summed component, scaled by the penalty when `n` keys are held and `n > 1`.
pub open spec fn penalized(v: int, n: nat) -> int {
    if n > 1 {
        v * PENALTY_NUM / (PENALTY_DEN as int)
    } else {
        v
    }
}

/// The displacement for the held keys, as `(dx, dz)`.
pub open spec fn displacement_of(h: HeldKeys) -> (int, int) {
    if h.count() == 0 {
        (0, 0)
    } else {
        (penalized(summed_dx(h), h.count()), penalized(summed_dz(h), h.count()))
    }
}

/// Maps the held keys to this tick's displacement: each held key adds its
/// step, and when more than one is held both components are scaled by the
/// penalty. Opposite keys cancel before scaling.
pub fn compute_displacement(held: &HeldKeys) -> (r: Displacement)
    ensures
        (r.dx as int, r.dz as int) == displacement_of(*held),
        -STEP <= r.dx <= STEP,
        -STEP <= r.dz <= STEP,
{
    let mut dx: i64 = 0;
    let mut dz: i64 = 0;
    let mut count: u8 = 0;
    if held.left {
        dx = dx - STEP;
        count = count + 1;
    }
    if held.right {
        dx = dx + STEP;
        count = count + 1;
    }
    if held.up {
        dz = dz - STEP;
        count = count + 1;
    }
    if held.down {
        dz = dz + STEP;
        count = count + 1;
    }
    assert(count == held.count());
    assert(dx == summed_dx(*held) && dz == summed_dz(*held));
    if count == 0 {
        return Displacement { dx: 0, dz: 0 };
    }
    if count > 1 {
        dx = dx * PENALTY_NUM / PENALTY_DEN;
        dz = dz * PENALTY_NUM / PENALTY_DEN;
    }
    Displacement { dx, dz }
}

impl Position {
    /// Whether any displacement of at most `STEP` per component can be added
    /// to `x` and `z` without leaving the range of `i64`.
    pub open spec fn can_move(self) -> bool {
        &&& i64::MIN + STEP <= self.x <= i64::MAX - STEP
        &&& i64::MIN + STEP <= self.z <= i64::MAX - STEP
    }

    /// Tests `can_move`.
    pub fn is_movable(&self) -> (r: bool)
        ensures
            r == self.can_move(),
    {
        i64::MIN + STEP <= self.x && self.x <= i64::MAX - STEP && i64::MIN + STEP <= self.z
            && self.z <= i64::MAX - STEP
    }

    /// Adds `d` to the ground-plane components; the height is kept.
    pub fn translate(&mut self, d: Displacement)
        requires
            i64::MIN <= old(self).x + d.dx <= i64::MAX,
            i64::MIN <= old(self).z + d.dz <= i64::MAX,
        ensures
            final(self).x == old(self).x + d.dx,
            final(self).y == old(self).y,
            final(self).z == old(self).z + d.dz,
    {
        self.x = self.x + d.dx;
        self.z = self.z + d.dz;
    }
}

/// One tick: moves the entity at `pos` by the displacement that `held` asks
/// for. With no key held the position is left as it is.
pub fn tick(pos: &mut Position, held: &HeldKeys)
    requires
        old(pos).can_move(),
    ensures
        final(pos).x == old(pos).x + displacement_of(*held).0,
        final(pos).y == old(pos).y,
        final(pos).z == old(pos).z + displacement_of(*held).1,
        held.count() == 0 ==> *final(pos) == *old(pos),
{
    let d = compute_displacement(held);
    pos.translate(d);
}

} // verus!
