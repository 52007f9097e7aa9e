//! Integer grid positions: where a tile stands in the world, and unit steps
//! toward each of the six sides.

use vstd::prelude::*;
use crate::node::Node;
use crate::parse::Parse;
use crate::sides::Side;

verus! {

#[derive(Copy, Clone, Eq, PartialEq, Debug, Structural)]
pub struct Point(pub i32, pub i32, pub i32);

impl Point {
    /// Wraps each component into `[0, m)`, also for negative components.
    pub fn modulo(self, m: i32) -> (r: Point)
        requires
            m > 0,
        ensures
            r.0 == self.0 as int % m as int,
            r.1 == self.1 as int % m as int,
            r.2 == self.2 as int % m as int,
    {
        proof {
            vstd::arithmetic::div_mod::lemma_mod_bound(self.0 as int, m as int);
            vstd::arithmetic::div_mod::lemma_mod_bound(self.1 as int, m as int);
            vstd::arithmetic::div_mod::lemma_mod_bound(self.2 as int, m as int);
        }
        let x = match self.0.checked_rem_euclid(m) {
            Some(v) => v,
            None => {
                proof {
                    assert(false);
                }
                0
            },
        };
        let y = match self.1.checked_rem_euclid(m) {
            Some(v) => v,
            None => {
                proof {
                    assert(false);
                }
                0
            },
        };
        let z = match self.2.checked_rem_euclid(m) {
            Some(v) => v,
            None => {
                proof {
                    assert(false);
                }
                0
            },
        };
        Point(x, y, z)
    }

    pub fn zero() -> (r: Point)
        ensures
            r == Point(0i32, 0i32, 0i32),
    {
        Point(0, 0, 0)
    }

    pub fn front() -> (r: Point)
        ensures
            r == Point(0i32, 0i32, 1i32),
    {
        Point(0, 0, 1)
    }

    pub fn back() -> (r: Point)
        ensures
            r == Point(0i32, 0i32, -1i32),
    {
        Point(0, 0, -1)
    }

    pub fn up() -> (r: Point)
        ensures
            r == Point(0i32, 1i32, 0i32),
    {
        Point(0, 1, 0)
    }

    pub fn down() -> (r: Point)
        ensures
            r == Point(0i32, -1i32, 0i32),
    {
        Point(0, -1, 0)
    }

    pub fn left() -> (r: Point)
        ensures
            r == Point(1i32, 0i32, 0i32),
    {
        Point(1, 0, 0)
    }

    pub fn right() -> (r: Point)
        ensures
            r == Point(-1i32, 0i32, 0i32),
    {
        Point(-1, 0, 0)
    }

    /// The unit step toward a side.
    pub open spec fn step_spec(side: Side) -> Point {
        match side {
            Side::Front => Point(0i32, 0i32, 1i32),
            Side::Back => Point(0i32, 0i32, -1i32),
            Side::Up => Point(0i32, 1i32, 0i32),
            Side::Down => Point(0i32, -1i32, 0i32),
            Side::Left => Point(1i32, 0i32, 0i32),
            Side::Right => Point(-1i32, 0i32, 0i32),
        }
    }

    /// This point moved one step toward a side.
    pub open spec fn to_spec(self, side: Side) -> Point {
        Point(
            (self.0 + Point::step_spec(side).0) as i32,
            (self.1 + Point::step_spec(side).1) as i32,
            (self.2 + Point::step_spec(side).2) as i32,
        )
    }

    pub fn to_front(self) -> (r: Point)
        requires
            self.2 < i32::MAX,
        ensures
            r == self.to_spec(Side::Front),
    {
        Point(self.0, self.1, self.2 + 1)
    }

    pub fn to_back(self) -> (r: Point)
        requires
            self.2 > i32::MIN,
        ensures
            r == self.to_spec(Side::Back),
    {
        Point(self.0, self.1, self.2 - 1)
    }

    pub fn to_up(self) -> (r: Point)
        requires
            self.1 < i32::MAX,
        ensures
            r == self.to_spec(Side::Up),
    {
        Point(self.0, self.1 + 1, self.2)
    }

    pub fn to_down(self) -> (r: Point)
        requires
            self.1 > i32::MIN,
        ensures
            r == self.to_spec(Side::Down),
    {
        Point(self.0, self.1 - 1, self.2)
    }

    pub fn to_left(self) -> (r: Point)
        requires
            self.0 < i32::MAX,
        ensures
            r == self.to_spec(Side::Left),
    {
        Point(self.0 + 1, self.1, self.2)
    }

    pub fn to_right(self) -> (r: Point)
        requires
            self.0 > i32::MIN,
        ensures
            r == self.to_spec(Side::Right),
    {
        Point(self.0 - 1, self.1, self.2)
    }

    /// One step toward any side.
    pub fn to(self, side: Side) -> (r: Point)
        requires
            match side {
                Side::Front => self.2 < i32::MAX,
                Side::Back => self.2 > i32::MIN,
                Side::Up => self.1 < i32::MAX,
                Side::Down => self.1 > i32::MIN,
                Side::Left => self.0 < i32::MAX,
                Side::Right => self.0 > i32::MIN,
            },
        ensures
            r == self.to_spec(side),
    {
        match side {
            Side::Front => self.to_front(),
            Side::Back => self.to_back(),
            Side::Up => self.to_up(),
            Side::Down => self.to_down(),
            Side::Left => self.to_left(),
            Side::Right => self.to_right(),
        }
    }
}

impl Default for Point {
    fn default() -> (r: Point)
        ensures
            r == Point(0i32, 0i32, 0i32),
    {
        Point(0, 0, 0)
    }
}

impl From<Side> for Point {
    fn from(side: Side) -> (r: Point) {
        match side {
            Side::Front => Point(0, 0, 1),
            Side::Back => Point(0, 0, -1),
            Side::Up => Point(0, 1, 0),
            Side::Down => Point(0, -1, 0),
            Side::Left => Point(1, 0, 0),
            Side::Right => Point(-1, 0, 0),
        }
    }
}

impl vstd::std_specs::convert::FromSpecImpl<Side> for Point {
    open spec fn obeys_from_spec() -> bool {
        true
    }

    open spec fn from_spec(side: Side) -> Point {
        Point::step_spec(side)
    }
}

/// The integer a node holds, for the strict point parse.
pub open spec fn int_of_node(node: Node) -> i64 {
    match node {
        Node::Int(n) => n,
        _ => 0,
    }
}

impl Parse for Point {
    type DataError = ();

    /// Strict: a sequence of exactly three integer nodes.
    open spec fn parse_ok_spec(node: Node, p: Point) -> bool {
        &&& node matches Node::List(items)
        &&& items@.len() == 3
        &&& forall|i: int| 0 <= i < 3 ==> #[trigger] items@[i] is Int
        &&& p == Point(
            int_of_node(items@[0]) as i32,
            int_of_node(items@[1]) as i32,
            int_of_node(items@[2]) as i32,
        )
    }

    open spec fn parse_err_spec(node: Node, e: ()) -> bool {
        !(node matches Node::List(items) && items@.len() == 3 && (forall|i: int|
            0 <= i < 3 ==> #[trigger] items@[i] is Int))
    }

    proof fn lemma_parse_exclusive(node: Node, p: Point, e: ()) {
    }

    fn parse(node: &Node) -> (r: Result<Point, ()>) {
        match node {
            Node::List(items) => {
                if items.len() != 3 {
                    return Err(());
                }
                let x = match &items[0] {
                    Node::Int(n) => #[verifier::truncate] (*n as i32),
                    _ => {
                        return Err(());
                    },
                };
                let y = match &items[1] {
                    Node::Int(n) => #[verifier::truncate] (*n as i32),
                    _ => {
                        return Err(());
                    },
                };
                let z = match &items[2] {
                    Node::Int(n) => #[verifier::truncate] (*n as i32),
                    _ => {
                        return Err(());
                    },
                };
                Ok(Point(x, y, z))
            },
            _ => Err(()),
        }
    }
}

} // verus!
