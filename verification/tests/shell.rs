use tilepipe::axis::Axis;
use tilepipe::shell::{Shell, ShellTransform};
use tilepipe::sides::Side;

#[test]
fn flip() {
    let s = Shell::new()
        .flip(Axis::X)
        .flip(Axis::X)
        .flip(Axis::Y)
        .flip(Axis::Z);

    assert_eq!(s.front, Side::Back);
    assert_eq!(s.back, Side::Front);
    assert_eq!(s.up, Side::Down);
    assert_eq!(s.down, Side::Up);
    assert_eq!(s.left, Side::Left);
    assert_eq!(s.right, Side::Right);

    let s = Shell::new()
        .flip(Axis::X)
        .flip(Axis::Y)
        .flip(Axis::Z);

    assert_eq!(s.front, Side::Back);
    assert_eq!(s.back, Side::Front);
    assert_eq!(s.up, Side::Down);
    assert_eq!(s.down, Side::Up);
    assert_eq!(s.left, Side::Right);
    assert_eq!(s.right, Side::Left);

    let s = Shell::new()
        .flip(Axis::X)
        .flip(Axis::Y)
        .flip(Axis::Z)
        .flip(Axis::X)
        .flip(Axis::Y)
        .flip(Axis::Z);

    assert_eq!(s, Shell::new());
}

#[test]
fn turn() {
    let s = Shell::new()
        .turn_counter_clockwise(Axis::X)
        .turn_clockwise(Axis::X);

    assert_eq!(s, Shell::new());

    let s = Shell::new()
        .turn_clockwise(Axis::X)
        .turn_clockwise(Axis::X)
        .turn_clockwise(Axis::X)
        .turn_clockwise(Axis::X);

    assert_eq!(s, Shell::new());

    let s = Shell::new()
        .turn_counter_clockwise(Axis::Y)
        .turn_counter_clockwise(Axis::X);

    assert_eq!(s.front, Side::Up);
    assert_eq!(s.back, Side::Down);
    assert_eq!(s.up, Side::Left);
    assert_eq!(s.down, Side::Right);
    assert_eq!(s.left, Side::Front);
    assert_eq!(s.right, Side::Back);

    let s = Shell::new()
        .turn_counter_clockwise(Axis::X)
        .turn_counter_clockwise(Axis::Z);

    assert_eq!(s.front, Side::Up);
    assert_eq!(s.back, Side::Down);
    assert_eq!(s.up, Side::Left);
    assert_eq!(s.down, Side::Right);
    assert_eq!(s.left, Side::Front);
    assert_eq!(s.right, Side::Back);

    let s = Shell::new()
        .turn_counter_clockwise(Axis::Z)
        .turn_counter_clockwise(Axis::Z)
        .turn_counter_clockwise(Axis::Z);

    assert_eq!(s, Shell::new().turn_clockwise(Axis::Z));
}

#[test]
fn flip_shell() {
    let mut s = Shell::new();
    s = s.flip(Axis::X).flip(Axis::X).flip(Axis::Y).flip(Axis::Z);

    assert_eq!(s.front, Side::Back);
    assert_eq!(s.back, Side::Front);
    assert_eq!(s.up, Side::Down);
    assert_eq!(s.down, Side::Up);
    assert_eq!(s.left, Side::Left);
    assert_eq!(s.right, Side::Right);

    let mut s = Shell::new();
    s = s.flip(Axis::X).flip(Axis::Y).flip(Axis::Z);

    assert_eq!(s.front, Side::Back);
    assert_eq!(s.back, Side::Front);
    assert_eq!(s.up, Side::Down);
    assert_eq!(s.down, Side::Up);
    assert_eq!(s.left, Side::Right);
    assert_eq!(s.right, Side::Left);

    let mut s = Shell::new();
    s = s.flip(Axis::X).flip(Axis::Y).flip(Axis::Z).flip(Axis::X).flip(Axis::Y).flip(Axis::Z);

    assert_eq!(s, Shell::new());
}

#[test]
fn turn_shell() {
    let mut s = Shell::new();
    s = s.turn_counter_clockwise(Axis::X).turn_clockwise(Axis::X);

    assert_eq!(s, Shell::new());

    let mut s = Shell::new();
    s = s
        .turn_clockwise(Axis::X)
        .turn_clockwise(Axis::X)
        .turn_clockwise(Axis::X)
        .turn_clockwise(Axis::X);

    assert_eq!(s, Shell::new());

    let mut s = Shell::new();
    s = s.turn_counter_clockwise(Axis::Y).turn_counter_clockwise(Axis::X);

    assert_eq!(s.front, Side::Up);
    assert_eq!(s.back, Side::Down);
    assert_eq!(s.up, Side::Left);
    assert_eq!(s.down, Side::Right);
    assert_eq!(s.left, Side::Front);
    assert_eq!(s.right, Side::Back);

    let mut s = Shell::new();
    s = s.turn_counter_clockwise(Axis::X).turn_counter_clockwise(Axis::Z);

    assert_eq!(s.front, Side::Up);
    assert_eq!(s.back, Side::Down);
    assert_eq!(s.up, Side::Left);
    assert_eq!(s.down, Side::Right);
    assert_eq!(s.left, Side::Front);
    assert_eq!(s.right, Side::Back);

    let mut s = Shell::new();
    s = s
        .turn_counter_clockwise(Axis::Z)
        .turn_counter_clockwise(Axis::Z)
        .turn_counter_clockwise(Axis::Z);

    assert_eq!(s, Shell::new().turn_clockwise(Axis::Z));
}

#[test]
fn turn_flag() {
    let ccw = Shell::new().turn(Axis::Y, true);
    assert_eq!(ccw, Shell::new().turn_counter_clockwise(Axis::Y));
    let cw = Shell::new().turn(Axis::Y, false);
    assert_eq!(cw, Shell::new().turn_clockwise(Axis::Y));
}

#[test]
fn local_sides() {
    let s = Shell::new().turn_clockwise(Axis::Z);
    assert_eq!(s.local_side(Side::Up), s.local_up());
    assert_eq!(s.local_front(), Side::Front);
    assert_eq!(s.local_up(), Side::Right);
    assert_eq!(s.local_right(), Side::Down);
    assert_eq!(s.local_down(), Side::Left);
    assert_eq!(s.local_left(), Side::Up);
    assert_eq!(s.local_back(), Side::Back);
}
