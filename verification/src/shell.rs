//! The orientation algebra of a cube tile.
//!
//! A `Shell` maps each local cube direction to the world direction it
//! currently faces. It starts as the identity mapping and is transformed by
//! flips and quarter-turns about an axis; these generate every orientation a
//! state can declare. The mapping is always a permutation of the six
//! directions.

use vstd::prelude::*;
use vstd::string::StrSliceExecFns;
use crate::axis::Axis;
use crate::sides::Side;

verus! {

/// A value that can be flipped and quarter-turned about an axis.
///
/// The three spec functions fix what each transform means for the
/// implementing type; the executable methods are bound to them.
pub trait ShellTransform where Self: Sized {
    spec fn flip_spec(self, axis: Axis) -> Self;

    spec fn turn_counter_clockwise_spec(self, axis: Axis) -> Self;

    spec fn turn_clockwise_spec(self, axis: Axis) -> Self;

    fn flip(self, axis: Axis) -> (r: Self)
        ensures
            r == self.flip_spec(axis),
    ;

    fn turn_counter_clockwise(self, axis: Axis) -> (r: Self)
        ensures
            r == self.turn_counter_clockwise_spec(axis),
    ;

    fn turn_clockwise(self, axis: Axis) -> (r: Self)
        ensures
            r == self.turn_clockwise_spec(axis),
    ;

    /// One quarter-turn, with a flag choosing the direction.
    fn turn(self, axis: Axis, counter_clockwise: bool) -> (r: Self)
        ensures
            r == if counter_clockwise {
                self.turn_counter_clockwise_spec(axis)
            } else {
                self.turn_clockwise_spec(axis)
            },
    {
        if counter_clockwise {
            self.turn_counter_clockwise(axis)
        } else {
            self.turn_clockwise(axis)
        }
    }
}

/// A bijection from the six local cube directions to world directions.
#[derive(Copy, Clone, Debug, Eq, PartialEq, Structural)]
pub struct Shell {
    pub front: Side,
    pub back: Side,
    pub up: Side,
    pub down: Side,
    pub left: Side,
    pub right: Side,
}

impl Shell {
    /// The identity mapping: every local direction faces its own name.
    pub open spec fn identity_spec() -> Shell {
        Shell {
            front: Side::Front,
            back: Side::Back,
            up: Side::Up,
            down: Side::Down,
            left: Side::Left,
            right: Side::Right,
        }
    }

    /// The mapping is a permutation: no two local directions face the same
    /// world direction.
    pub open spec fn wf(self) -> bool {
        self.front != self.back && self.front != self.up && self.front != self.down
            && self.front != self.left && self.front != self.right && self.back != self.up
            && self.back != self.down && self.back != self.left && self.back != self.right
            && self.up != self.down && self.up != self.left && self.up != self.right && self.down
            != self.left && self.down != self.right && self.left != self.right
    }

    pub open spec fn local_side_spec(self, side: Side) -> Side {
        match side {
            Side::Front => self.front,
            Side::Back => self.back,
            Side::Up => self.up,
            Side::Down => self.down,
            Side::Left => self.left,
            Side::Right => self.right,
        }
    }

    pub fn new() -> (r: Shell)
        ensures
            r == Shell::identity_spec(),
    {
        Shell {
            front: Side::Front,
            back: Side::Back,
            up: Side::Up,
            down: Side::Down,
            left: Side::Left,
            right: Side::Right,
        }
    }

    pub fn local_front(&self) -> (r: Side)
        ensures
            r == self.front,
    {
        self.front
    }

    pub fn local_back(&self) -> (r: Side)
        ensures
            r == self.back,
    {
        self.back
    }

    pub fn local_up(&self) -> (r: Side)
        ensures
            r == self.up,
    {
        self.up
    }

    pub fn local_down(&self) -> (r: Side)
        ensures
            r == self.down,
    {
        self.down
    }

    pub fn local_left(&self) -> (r: Side)
        ensures
            r == self.left,
    {
        self.left
    }

    pub fn local_right(&self) -> (r: Side)
        ensures
            r == self.right,
    {
        self.right
    }

    /// The world direction the given local direction currently faces.
    pub fn local_side(&self, side: Side) -> (r: Side)
        ensures
            r == self.local_side_spec(side),
    {
        match side {
            Side::Front => self.front,
            Side::Back => self.back,
            Side::Up => self.up,
            Side::Down => self.down,
            Side::Left => self.left,
            Side::Right => self.right,
        }
    }
}

impl ShellTransform for Shell {
    /// Swaps the pair of opposite directions aligned with the axis.
    open spec fn flip_spec(self, axis: Axis) -> Shell {
        match axis {
            Axis::X => Shell { right: self.left, left: self.right, ..self },
            Axis::Y => Shell { up: self.down, down: self.up, ..self },
            Axis::Z => Shell { back: self.front, front: self.back, ..self },
        }
    }

    /// Cycles the four directions perpendicular to the axis one quarter-turn
    /// counter-clockwise, leaving the axis-aligned pair fixed.
    open spec fn turn_counter_clockwise_spec(self, axis: Axis) -> Shell {
        match axis {
            Axis::X => Shell {
                front: self.up,
                down: self.front,
                back: self.down,
                up: self.back,
                ..self
            },
            Axis::Y => Shell {
                left: self.front,
                back: self.left,
                right: self.back,
                front: self.right,
                ..self
            },
            Axis::Z => Shell {
                right: self.up,
                down: self.right,
                left: self.down,
                up: self.left,
                ..self
            },
        }
    }

    /// Cycles the four directions perpendicular to the axis one quarter-turn
    /// clockwise, leaving the axis-aligned pair fixed.
    open spec fn turn_clockwise_spec(self, axis: Axis) -> Shell {
        match axis {
            Axis::X => Shell {
                front: self.down,
                down: self.back,
                back: self.up,
                up: self.front,
                ..self
            },
            Axis::Y => Shell {
                left: self.back,
                back: self.right,
                right: self.front,
                front: self.left,
                ..self
            },
            Axis::Z => Shell {
                right: self.down,
                down: self.left,
                left: self.up,
                up: self.right,
                ..self
            },
        }
    }

    fn flip(self, axis: Axis) -> (r: Shell) {
        match axis {
            Axis::X => Shell { right: self.left, left: self.right, ..self },
            Axis::Y => Shell { up: self.down, down: self.up, ..self },
            Axis::Z => Shell { back: self.front, front: self.back, ..self },
        }
    }

    fn turn_counter_clockwise(self, axis: Axis) -> (r: Shell) {
        match axis {
            Axis::X => Shell {
                front: self.up,
                down: self.front,
                back: self.down,
                up: self.back,
                ..self
            },
            Axis::Y => Shell {
                left: self.front,
                back: self.left,
                right: self.back,
                front: self.right,
                ..self
            },
            Axis::Z => Shell {
                right: self.up,
                down: self.right,
                left: self.down,
                up: self.left,
                ..self
            },
        }
    }

    fn turn_clockwise(self, axis: Axis) -> (r: Shell) {
        match axis {
            Axis::X => Shell {
                front: self.down,
                down: self.back,
                back: self.up,
                up: self.front,
                ..self
            },
            Axis::Y => Shell {
                left: self.back,
                back: self.right,
                right: self.front,
                front: self.left,
                ..self
            },
            Axis::Z => Shell {
                right: self.down,
                down: self.left,
                left: self.up,
                up: self.right,
                ..self
            },
        }
    }
}

impl Default for Shell {
    fn default() -> (r: Shell)
        ensures
            r == Shell::identity_spec(),
    {
        Shell::new()
    }
}

/// The identity mapping is a permutation.
pub proof fn lemma_identity_wf()
    ensures
        Shell::identity_spec().wf(),
{
}

/// Flips and turns preserve the permutation invariant.
pub proof fn lemma_transforms_preserve_wf(s: Shell, a: Axis)
    ensures
        s.wf() ==> s.flip_spec(a).wf(),
        s.wf() ==> s.turn_counter_clockwise_spec(a).wf(),
        s.wf() ==> s.turn_clockwise_spec(a).wf(),
{
}

/// A flip is an involution: flipping twice about one axis returns to the
/// starting shell.
pub proof fn lemma_flip_involutive(s: Shell, a: Axis)
    ensures
        s.flip_spec(a).flip_spec(a) == s,
{
}

/// Four clockwise quarter-turns about one axis return to the starting shell.
pub proof fn lemma_turn_clockwise_four_times(s: Shell, a: Axis)
    ensures
        s.turn_clockwise_spec(a).turn_clockwise_spec(a).turn_clockwise_spec(
            a,
        ).turn_clockwise_spec(a) == s,
{
}

/// The two turn directions about one axis undo each other.
pub proof fn lemma_turn_inverse(s: Shell, a: Axis)
    ensures
        s.turn_clockwise_spec(a).turn_counter_clockwise_spec(a) == s,
        s.turn_counter_clockwise_spec(a).turn_clockwise_spec(a) == s,
{
}

/// One step of a transform-action sequence: a flip or a quarter-turn about
/// an axis. The textual form is `flip_<axis>`, `turn_<axis>` or
/// `turn_-<axis>`.
#[derive(Copy, Clone, Debug, Eq, PartialEq, Structural)]
pub enum ShellTransformAction {
    Flip(Axis),
    TurnCounterClockwise(Axis),
    TurnClockwise(Axis),
}

/// What one action does to a transformable value.
pub open spec fn apply_action_spec<S: ShellTransform>(
    shell: S,
    action: ShellTransformAction,
) -> S {
    match action {
        ShellTransformAction::Flip(ax) => shell.flip_spec(ax),
        ShellTransformAction::TurnCounterClockwise(ax) => shell.turn_counter_clockwise_spec(ax),
        ShellTransformAction::TurnClockwise(ax) => shell.turn_clockwise_spec(ax),
    }
}

pub fn apply_action<S: ShellTransform>(shell: S, action: ShellTransformAction) -> (r: S)
    ensures
        r == apply_action_spec(shell, action),
{
    match action {
        ShellTransformAction::Flip(ax) => shell.flip(ax),
        ShellTransformAction::TurnCounterClockwise(ax) => shell.turn_counter_clockwise(ax),
        ShellTransformAction::TurnClockwise(ax) => shell.turn_clockwise(ax),
    }
}

/// A sequence of actions folded left to right; order matters.
pub open spec fn apply_actions_spec<S: ShellTransform>(
    shell: S,
    actions: Seq<ShellTransformAction>,
) -> S
    decreases actions.len(),
{
    if actions.len() == 0 {
        shell
    } else {
        apply_actions_spec(apply_action_spec(shell, actions[0]), actions.skip(1))
    }
}

pub fn apply_actions<S: ShellTransform>(shell: S, actions: &Vec<ShellTransformAction>) -> (r: S)
    ensures
        r == apply_actions_spec(shell, actions@),
{
    let ghost all = actions@;
    let mut acc = shell;
    let mut i: usize = 0;
    proof {
        assert(all.skip(0) =~= all);
    }
    while i < actions.len()
        invariant
            i <= actions.len(),
            all == actions@,
            apply_actions_spec(acc, all.skip(i as int)) == apply_actions_spec(shell, all),
        decreases actions.len() - i,
    {
        proof {
            assert(all.skip(i as int)[0] == all[i as int]);
            assert(all.skip(i as int).skip(1) =~= all.skip(i + 1));
        }
        acc = apply_action(acc, actions[i]);
        i += 1;
    }
    proof {
        assert(all.skip(actions@.len() as int).len() == 0);
    }
    acc
}

impl ShellTransformAction {
    /// The canonical textual form of this action.
    pub open spec fn text_spec(self) -> Seq<char> {
        match self {
            ShellTransformAction::Flip(ax) => seq!['f', 'l', 'i', 'p', '_', ax.to_char_spec()],
            ShellTransformAction::TurnCounterClockwise(ax) => seq![
                't',
                'u',
                'r',
                'n',
                '_',
                ax.to_char_spec(),
            ],
            ShellTransformAction::TurnClockwise(ax) => seq![
                't',
                'u',
                'r',
                'n',
                '_',
                '-',
                ax.to_char_spec(),
            ],
        }
    }

    /// The action a token stands for: exactly `flip_<axis>`, `turn_<axis>`
    /// or `turn_-<axis>`; every other shape is refused.
    pub open spec fn parse_spec(t: Seq<char>) -> Result<ShellTransformAction, ()> {
        if t.len() == 6 && t[0] == 'f' && t[1] == 'l' && t[2] == 'i' && t[3] == 'p' && t[4] == '_'
            && Axis::from_char_spec(t[5]) is Some {
            Ok(ShellTransformAction::Flip(Axis::from_char_spec(t[5]).unwrap()))
        } else if t.len() == 6 && t[0] == 't' && t[1] == 'u' && t[2] == 'r' && t[3] == 'n' && t[4]
            == '_' && Axis::from_char_spec(t[5]) is Some {
            Ok(ShellTransformAction::TurnCounterClockwise(Axis::from_char_spec(t[5]).unwrap()))
        } else if t.len() == 7 && t[0] == 't' && t[1] == 'u' && t[2] == 'r' && t[3] == 'n' && t[4]
            == '_' && t[5] == '-' && Axis::from_char_spec(t[6]) is Some {
            Ok(ShellTransformAction::TurnClockwise(Axis::from_char_spec(t[6]).unwrap()))
        } else {
            Err(())
        }
    }

    /// Renders the canonical token for this action.
    pub fn to_text(self) -> (r: String)
        ensures
            r@ == self.text_spec(),
    {
        proof {
            reveal_strlit("flip_x");
            reveal_strlit("flip_y");
            reveal_strlit("flip_z");
            reveal_strlit("turn_x");
            reveal_strlit("turn_y");
            reveal_strlit("turn_z");
            reveal_strlit("turn_-x");
            reveal_strlit("turn_-y");
            reveal_strlit("turn_-z");
        }
        let r = match self {
            ShellTransformAction::Flip(Axis::X) => String::from_str("flip_x"),
            ShellTransformAction::Flip(Axis::Y) => String::from_str("flip_y"),
            ShellTransformAction::Flip(Axis::Z) => String::from_str("flip_z"),
            ShellTransformAction::TurnCounterClockwise(Axis::X) => String::from_str("turn_x"),
            ShellTransformAction::TurnCounterClockwise(Axis::Y) => String::from_str("turn_y"),
            ShellTransformAction::TurnCounterClockwise(Axis::Z) => String::from_str("turn_z"),
            ShellTransformAction::TurnClockwise(Axis::X) => String::from_str("turn_-x"),
            ShellTransformAction::TurnClockwise(Axis::Y) => String::from_str("turn_-y"),
            ShellTransformAction::TurnClockwise(Axis::Z) => String::from_str("turn_-z"),
        };
        proof {
            assert(r@ =~= self.text_spec());
        }
        r
    }

    /// Parses a token; fails on any shape but the three canonical forms.
    pub fn from_text(s: &str) -> (r: Result<ShellTransformAction, ()>)
        ensures
            r == ShellTransformAction::parse_spec(s@),
    {
        let n = s.unicode_len();
        if n != 6 && n != 7 {
            return Err(());
        }
        let c0 = s.get_char(0);
        let c1 = s.get_char(1);
        let c2 = s.get_char(2);
        let c3 = s.get_char(3);
        let c4 = s.get_char(4);
        if n == 6 && c0 == 'f' && c1 == 'l' && c2 == 'i' && c3 == 'p' && c4 == '_' {
            match Axis::from_char(s.get_char(5)) {
                Some(ax) => Ok(ShellTransformAction::Flip(ax)),
                None => Err(()),
            }
        } else if n == 6 && c0 == 't' && c1 == 'u' && c2 == 'r' && c3 == 'n' && c4 == '_' {
            match Axis::from_char(s.get_char(5)) {
                Some(ax) => Ok(ShellTransformAction::TurnCounterClockwise(ax)),
                None => Err(()),
            }
        } else if n == 7 && c0 == 't' && c1 == 'u' && c2 == 'r' && c3 == 'n' && c4 == '_'
            && s.get_char(5) == '-' {
            match Axis::from_char(s.get_char(6)) {
                Some(ax) => Ok(ShellTransformAction::TurnClockwise(ax)),
                None => Err(()),
            }
        } else {
            Err(())
        }
    }
}

/// The actions a token list denotes: every token must parse, else the
/// whole list is refused.
pub open spec fn parse_actions_spec(ts: Seq<Seq<char>>) -> Result<Seq<ShellTransformAction>, ()>
    decreases ts.len(),
{
    if ts.len() == 0 {
        Ok(Seq::empty())
    } else {
        match ShellTransformAction::parse_spec(ts[0]) {
            Err(_) => Err(()),
            Ok(a) => match parse_actions_spec(ts.skip(1)) {
                Err(e) => Err(e),
                Ok(rest) => Ok(seq![a] + rest),
            },
        }
    }
}

/// Composes parsed tokens with the outcome of the remaining ones.
pub open spec fn actions_comp(
    prefix: Seq<ShellTransformAction>,
    rest: Result<Seq<ShellTransformAction>, ()>,
) -> Result<Seq<ShellTransformAction>, ()> {
    match rest {
        Ok(r) => Ok(prefix + r),
        Err(e) => Err(e),
    }
}

/// Parses a whole token list; fails if any token is not a canonical form.
pub fn parse_actions(tokens: &Vec<String>) -> (r: Result<Vec<ShellTransformAction>, ()>)
    ensures
        r matches Ok(v) ==> parse_actions_spec(tokens.deep_view()) matches Ok(s) && v@ == s,
        r is Err <==> parse_actions_spec(tokens.deep_view()) is Err,
{
    let ghost dv = tokens.deep_view();
    let n = tokens.len();
    let mut out: Vec<ShellTransformAction> = Vec::new();
    let mut i: usize = 0;
    proof {
        assert(dv.skip(0) =~= dv);
        assert(out@ =~= Seq::<ShellTransformAction>::empty());
        match parse_actions_spec(dv) {
            Ok(s) => {
                assert(Seq::<ShellTransformAction>::empty() + s =~= s);
            },
            Err(_) => {},
        }
    }
    while i < n
        invariant
            dv == tokens.deep_view(),
            n == tokens@.len(),
            n == dv.len(),
            i <= n,
            out@.len() == i,
            parse_actions_spec(dv) == actions_comp(out@, parse_actions_spec(dv.skip(i as int))),
        decreases n - i,
    {
        proof {
            assert(dv[i as int] == tokens@[i as int]@);
            assert(dv.skip(i as int)[0] == dv[i as int]);
            assert(dv.skip(i as int).skip(1) =~= dv.skip(i + 1));
        }
        match ShellTransformAction::from_text(tokens[i].as_str()) {
            Ok(a) => {
                proof {
                    assert(parse_actions_spec(dv.skip(i as int)) == (match parse_actions_spec(
                        dv.skip(i + 1),
                    ) {
                        Ok(rest) => Ok::<Seq<ShellTransformAction>, ()>(seq![a] + rest),
                        Err(e) => Err::<Seq<ShellTransformAction>, ()>(e),
                    }));
                }
                let ghost out_old = out@;
                out.push(a);
                proof {
                    match parse_actions_spec(dv.skip(i + 1)) {
                        Ok(rest) => {
                            assert(out_old + (seq![a] + rest) =~= out@ + rest);
                        },
                        Err(_) => {},
                    }
                }
            },
            Err(_) => {
                return Err(());
            },
        }
        i += 1;
    }
    proof {
        assert(dv.skip(n as int).len() == 0);
        match parse_actions_spec(dv) {
            Ok(s) => {
                assert(out@ + Seq::<ShellTransformAction>::empty() =~= out@);
            },
            Err(_) => {},
        }
    }
    Ok(out)
}

/// Formatting an action and parsing the token back yields the action: the
/// textual form is a faithful round trip, for every variant and axis.
pub proof fn lemma_action_text_round_trip(a: ShellTransformAction)
    ensures
        ShellTransformAction::parse_spec(a.text_spec()) == Ok::<ShellTransformAction, ()>(a),
{
    match a {
        ShellTransformAction::Flip(ax) => {
            assert(Axis::from_char_spec(ax.to_char_spec()) == Some(ax));
        },
        ShellTransformAction::TurnCounterClockwise(ax) => {
            assert(Axis::from_char_spec(ax.to_char_spec()) == Some(ax));
        },
        ShellTransformAction::TurnClockwise(ax) => {
            assert(Axis::from_char_spec(ax.to_char_spec()) == Some(ax));
        },
    }
}

} // verus!
