//! The three coordinate axes of the cube, used to parameterise flips and
//! quarter-turns of a shell.

use vstd::prelude::*;

verus! {

#[derive(Copy, Clone, Debug, Eq, PartialEq, Structural)]
pub enum Axis {
    X,
    Y,
    Z,
}

impl Axis {
    /// The axis named by a lower-case letter, if any.
    pub open spec fn from_char_spec(c: char) -> Option<Axis> {
        match c {
            'x' => Some(Axis::X),
            'y' => Some(Axis::Y),
            'z' => Some(Axis::Z),
            _ => None,
        }
    }

    pub fn from_char(c: char) -> (r: Option<Axis>)
        ensures
            r == Axis::from_char_spec(c),
    {
        match c {
            'x' => Some(Axis::X),
            'y' => Some(Axis::Y),
            'z' => Some(Axis::Z),
            _ => None,
        }
    }

    /// The lower-case letter naming this axis.
    pub open spec fn to_char_spec(self) -> char {
        match self {
            Axis::X => 'x',
            Axis::Y => 'y',
            Axis::Z => 'z',
        }
    }

    pub fn to_char(self) -> (r: char)
        ensures
            r == self.to_char_spec(),
    {
        match self {
            Axis::X => 'x',
            Axis::Y => 'y',
            Axis::Z => 'z',
        }
    }
}

/// Reading an axis letter back gives the axis: the textual form is lossless.
pub proof fn lemma_axis_char_round_trip(a: Axis)
    ensures
        Axis::from_char_spec(a.to_char_spec()) == Some(a),
{
}

} // verus!
