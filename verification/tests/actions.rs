use tilepipe::axis::Axis;
use tilepipe::shell::{apply_action, apply_actions, Shell, ShellTransform, ShellTransformAction};

#[test]
fn display() {
    let a = ShellTransformAction::Flip(Axis::X).to_text();
    assert_eq!(a, "flip_x");

    let a = ShellTransformAction::TurnCounterClockwise(Axis::Y).to_text();
    assert_eq!(a, "turn_y");

    let a = ShellTransformAction::TurnClockwise(Axis::Z).to_text();
    assert_eq!(a, "turn_-z");
}

#[test]
fn try_from() {
    let a = ShellTransformAction::from_text(".");
    assert_eq!(a, Err(()));

    let a = ShellTransformAction::from_text("wwww_x");
    assert_eq!(a, Err(()));

    let a = ShellTransformAction::from_text("flip_x");
    assert_eq!(a, Ok(ShellTransformAction::Flip(Axis::X)));

    let a = ShellTransformAction::from_text("turn_y");
    assert_eq!(a, Ok(ShellTransformAction::TurnCounterClockwise(Axis::Y)));

    let a = ShellTransformAction::from_text("turn_-z");
    assert_eq!(a, Ok(ShellTransformAction::TurnClockwise(Axis::Z)));
}

#[test]
fn text_round_trip() {
    for axis in [Axis::X, Axis::Y, Axis::Z] {
        for a in [
            ShellTransformAction::Flip(axis),
            ShellTransformAction::TurnCounterClockwise(axis),
            ShellTransformAction::TurnClockwise(axis),
        ] {
            let token = a.to_text();
            assert_eq!(ShellTransformAction::from_text(token.as_str()), Ok(a));
        }
    }
}

#[test]
fn rejected_tokens() {
    for bad in ["flip_-x", "turn_xz", "flip_w", "turn_", "turn_-", "FLIP_X", "flip_x "] {
        assert_eq!(ShellTransformAction::from_text(bad), Err(()));
    }
}

#[test]
fn apply_action_folds() {
    let s = apply_action(Shell::new(), ShellTransformAction::Flip(Axis::Y));
    assert_eq!(s, Shell::new().flip(Axis::Y));

    let acts = vec![
        ShellTransformAction::Flip(Axis::X),
        ShellTransformAction::TurnCounterClockwise(Axis::Y),
        ShellTransformAction::TurnClockwise(Axis::Z),
    ];
    let folded = apply_actions(Shell::new(), &acts);
    let by_hand = Shell::new()
        .flip(Axis::X)
        .turn_counter_clockwise(Axis::Y)
        .turn_clockwise(Axis::Z);
    assert_eq!(folded, by_hand);

    let none: Vec<ShellTransformAction> = Vec::new();
    assert_eq!(apply_actions(Shell::new(), &none), Shell::new());
}
