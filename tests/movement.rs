use cube_walk::input::{HeldKeys, Key};
use cube_walk::motion::{compute_displacement, tick, Displacement, Position, STEP, UNITS_PER_METRE};

fn keys(list: &[Key]) -> HeldKeys {
    let mut h = HeldKeys::none();
    for k in list {
        h = h.with(*k);
    }
    h
}

fn d(dx: i64, dz: i64) -> Displacement {
    Displacement { dx, dz }
}

#[test]
fn no_keys_no_displacement() {
    assert_eq!(compute_displacement(&HeldKeys::none()), d(0, 0));
}

#[test]
fn single_keys_move_one_step() {
    assert_eq!(STEP, 50);
    assert_eq!(compute_displacement(&keys(&[Key::Left])), d(-50, 0));
    assert_eq!(compute_displacement(&keys(&[Key::Right])), d(50, 0));
    assert_eq!(compute_displacement(&keys(&[Key::Up])), d(0, -50));
    assert_eq!(compute_displacement(&keys(&[Key::Down])), d(0, 50));
}

#[test]
fn left_up_is_penalized() {
    assert_eq!(compute_displacement(&keys(&[Key::Left, Key::Up])), d(-25, -25));
}

#[test]
fn right_down_is_penalized() {
    assert_eq!(compute_displacement(&keys(&[Key::Right, Key::Down])), d(25, 25));
}

#[test]
fn left_right_cancel() {
    assert_eq!(compute_displacement(&keys(&[Key::Left, Key::Right])), d(0, 0));
}

#[test]
fn up_down_cancel() {
    assert_eq!(compute_displacement(&keys(&[Key::Up, Key::Down])), d(0, 0));
}

#[test]
fn three_keys_cancel_then_scale() {
    assert_eq!(compute_displacement(&keys(&[Key::Left, Key::Right, Key::Up])), d(0, -25));
    assert_eq!(compute_displacement(&keys(&[Key::Right, Key::Up, Key::Down])), d(25, 0));
}

#[test]
fn all_keys_cancel() {
    let all = keys(&[Key::Left, Key::Right, Key::Up, Key::Down]);
    assert_eq!(compute_displacement(&all), d(0, 0));
}

#[test]
fn same_keys_same_displacement() {
    let h = keys(&[Key::Down, Key::Left]);
    let first = compute_displacement(&h);
    let second = compute_displacement(&h);
    assert_eq!(first, second);
    assert_eq!(first, d(-25, 25));
}

#[test]
fn key_order_does_not_matter() {
    assert_eq!(keys(&[Key::Up, Key::Left]), keys(&[Key::Left, Key::Up]));
    assert_eq!(keys(&[Key::Up, Key::Up]), keys(&[Key::Up]));
}

#[test]
fn holding_down_for_one_tick() {
    assert_eq!(UNITS_PER_METRE, 1000);
    let mut pos = Position { x: 0, y: 500, z: 0 };
    tick(&mut pos, &keys(&[Key::Down]));
    assert_eq!(pos, Position { x: 0, y: 500, z: 50 });
}

#[test]
fn tick_without_keys_keeps_position() {
    let mut pos = Position { x: 7, y: 500, z: -3 };
    tick(&mut pos, &HeldKeys::none());
    assert_eq!(pos, Position { x: 7, y: 500, z: -3 });
}

#[test]
fn ticks_accumulate() {
    let mut pos = Position { x: 0, y: 500, z: 0 };
    let h = keys(&[Key::Right, Key::Up]);
    tick(&mut pos, &h);
    tick(&mut pos, &h);
    assert_eq!(pos, Position { x: 50, y: 500, z: -50 });
}

#[test]
fn translate_keeps_height() {
    let mut pos = Position { x: 1, y: 2, z: 3 };
    pos.translate(d(-10, 20));
    assert_eq!(pos, Position { x: -9, y: 2, z: 23 });
}

#[test]
fn movable_only_away_from_the_edge() {
    assert!(Position { x: i64::MAX - 50, y: 0, z: i64::MIN + 50 }.is_movable());
    assert!(!Position { x: i64::MAX - 49, y: 0, z: 0 }.is_movable());
    assert!(!Position { x: 0, y: 0, z: i64::MIN + 49 }.is_movable());
    assert!(Position { x: 0, y: i64::MAX, z: 0 }.is_movable());
}
