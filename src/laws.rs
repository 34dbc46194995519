//! What holds of the movement reducer over all key sets.
use vstd::prelude::*;
use crate::input::{lemma_view_determines_keys, lemma_view_len_is_count, HeldKeys, Key};
use crate::motion::{displacement_of, key_step, PENALTY_DEN, PENALTY_NUM, STEP};

verus! {

/// The sum, over the held keys, of the displacement each would give if it
/// were the only key held.
pub open spec fn sum_of_single_moves(h: HeldKeys) -> (int, int) {
    let l = if h.left { displacement_of(HeldKeys::only(Key::Left)) } else { (0int, 0int) };
    let r = if h.right { displacement_of(HeldKeys::only(Key::Right)) } else { (0int, 0int) };
    let u = if h.up { displacement_of(HeldKeys::only(Key::Up)) } else { (0int, 0int) };
    let d = if h.down { displacement_of(HeldKeys::only(Key::Down)) } else { (0int, 0int) };
    (l.0 + r.0 + u.0 + d.0, l.1 + r.1 + u.1 + d.1)
}

/// With no key held there is no movement.
pub proof fn no_keys_no_move(h: HeldKeys)
    requires
        h@ == Set::<Key>::empty(),
    ensures
        displacement_of(h) == (0int, 0int),
{
    let none = HeldKeys { left: false, right: false, up: false, down: false };
    assert(none@ =~= Set::<Key>::empty());
    lemma_view_determines_keys(h, none);
}

/// A single held key moves the entity by exactly one step along its own
/// axis, negative for Left and Up, and not at all along the other axis.
pub proof fn single_key_moves_one_step(h: HeldKeys, k: Key)
    requires
        h@ == set![k],
    ensures
        displacement_of(h) == key_step(k),
        k == Key::Left ==> displacement_of(h) == (-STEP as int, 0int),
        k == Key::Right ==> displacement_of(h) == (STEP as int, 0int),
        k == Key::Up ==> displacement_of(h) == (0int, -STEP as int),
        k == Key::Down ==> displacement_of(h) == (0int, STEP as int),
{
    assert(HeldKeys::only(k)@ =~= set![k]);
    lemma_view_determines_keys(h, HeldKeys::only(k));
}

/// With exactly two keys held, each component is the penalty times the sum
/// of the two single-key displacements.
pub proof fn two_keys_are_penalized(h: HeldKeys)
    requires
        h@.len() == 2,
    ensures
        displacement_of(h).0 * PENALTY_DEN == PENALTY_NUM * sum_of_single_moves(h).0,
        displacement_of(h).1 * PENALTY_DEN == PENALTY_NUM * sum_of_single_moves(h).1,
{
    lemma_view_len_is_count(h);
}

/// Left and Right held together cancel: no movement.
pub proof fn left_right_cancel(h: HeldKeys)
    requires
        h@ == set![Key::Left, Key::Right],
    ensures
        displacement_of(h) == (0int, 0int),
{
    let both = HeldKeys { left: true, right: true, up: false, down: false };
    assert(both@ =~= set![Key::Left, Key::Right]);
    lemma_view_determines_keys(h, both);
}

/// The displacement depends on the set of held keys alone: the same set
/// always gives the same displacement.
pub proof fn displacement_is_determined(a: HeldKeys, b: HeldKeys)
    requires
        a@ == b@,
    ensures
        displacement_of(a) == displacement_of(b),
{
    lemma_view_determines_keys(a, b);
}

} // verus!
