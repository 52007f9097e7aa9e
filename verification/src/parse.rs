//! Typed conversion out of the document model.
//!
//! A type that implements [`Parse`] can be produced from a [`Node`],
//! yielding either a value or a typed data error. Container impls compose:
//! a sequence parse succeeds only if every element parses, and reports the
//! first failing element's error as its optional inner error; an optional
//! parse treats an absent or null node as a clean `None`. Numeric scalars
//! are lenient — a wrong-shaped node coerces to zero — while structural
//! shapes (sequences, fixed lengths of one to four) are strict.

use vstd::prelude::*;
use crate::coerce::{int_real_bits, real_bits_of_int};
use crate::node::{load_code, node_of, scan_of, Node, YamlError};
use crate::shell::ShellTransformAction;
use crate::sides::{sides_from_text_spec, Sides};
use crate::vertex::{Real, Vec1r, Vec2r, Vec3r, Vec4r};

verus! {

/// Production of a value from a generic semi-structured node.
///
/// `parse_ok_spec` fixes which value a node denotes, `parse_err_spec` which
/// error it provokes; `parse` answers one of the two accordingly.
pub trait Parse where Self: Sized {
    type DataError;

    spec fn parse_ok_spec(node: Node, v: Self) -> bool;

    spec fn parse_err_spec(node: Node, e: Self::DataError) -> bool;

    /// A node cannot both denote a value and provoke an error: each impl
    /// proves its two predicates exclusive.
    proof fn lemma_parse_exclusive(node: Node, v: Self, e: Self::DataError)
        requires
            Self::parse_ok_spec(node, v),
        ensures
            !Self::parse_err_spec(node, e),
    ;

    fn parse(node: &Node) -> (r: Result<Self, Self::DataError>)
        ensures
            match r {
                Ok(v) => Self::parse_ok_spec(*node, v),
                Err(e) => Self::parse_err_spec(*node, e),
            },
    ;
}

/// The lenient integer reading of a node: an integer's value, zero for any
/// other shape.
pub open spec fn u32_node_spec(node: Node) -> u32 {
    match node {
        Node::Int(n) => n as u32,
        _ => 0,
    }
}

impl Parse for u32 {
    type DataError = ();

    open spec fn parse_ok_spec(node: Node, v: u32) -> bool {
        v == u32_node_spec(node)
    }

    open spec fn parse_err_spec(node: Node, e: ()) -> bool {
        false
    }

    proof fn lemma_parse_exclusive(node: Node, v: u32, e: ()) {
    }

    fn parse(node: &Node) -> (r: Result<u32, ()>) {
        match node {
            Node::Int(n) => Ok(#[verifier::truncate] (*n as u32)),
            _ => Ok(0),
        }
    }
}

/// The lenient scalar reading of a node: a real's own pattern, the pattern
/// an integer denotes, and the zero pattern for any other shape.
pub open spec fn real_node_spec(node: Node) -> Real {
    match node {
        Node::Real(b) => Real(b),
        Node::Int(n) => Real(real_bits_of_int(n)),
        _ => Real(0),
    }
}

/// Reads a scalar leniently; never fails.
pub fn real_value(node: &Node) -> (r: Real)
    ensures
        r == real_node_spec(*node),
{
    match node {
        Node::Real(b) => Real(*b),
        Node::Int(n) => Real(int_real_bits(*n)),
        _ => Real(0),
    }
}

impl Parse for Real {
    type DataError = ();

    open spec fn parse_ok_spec(node: Node, v: Real) -> bool {
        v == real_node_spec(node)
    }

    open spec fn parse_err_spec(node: Node, e: ()) -> bool {
        false
    }

    proof fn lemma_parse_exclusive(node: Node, v: Real, e: ()) {
    }

    fn parse(node: &Node) -> (r: Result<Real, ()>) {
        Ok(real_value(node))
    }
}

impl Parse for String {
    type DataError = ();

    open spec fn parse_ok_spec(node: Node, v: String) -> bool {
        node matches Node::Text(s) && v == s
    }

    open spec fn parse_err_spec(node: Node, e: ()) -> bool {
        !(node matches Node::Text(_))
    }

    proof fn lemma_parse_exclusive(node: Node, v: String, e: ()) {
    }

    fn parse(node: &Node) -> (r: Result<String, ()>) {
        match node {
            Node::Text(s) => Ok(s.clone()),
            _ => Err(()),
        }
    }
}

/// Element-wise success: the parsed values line up with the nodes.
pub open spec fn seq_parse_ok<T: Parse>(items: Seq<Node>, v: Seq<T>) -> bool {
    v.len() == items.len() && (forall|i: int|
        0 <= i < items.len() ==> T::parse_ok_spec(items[i], #[trigger] v[i]))
}

/// Whether a node provokes any error of the element type.
pub open spec fn elem_errs<T: Parse>(n: Node) -> bool {
    exists|e: T::DataError| #[trigger] T::parse_err_spec(n, e)
}

/// The error arose at position `k`: that element provokes it, and no
/// earlier element provokes any error.
pub open spec fn first_err_at<T: Parse>(items: Seq<Node>, k: int, inner: T::DataError) -> bool {
    &&& 0 <= k < items.len()
    &&& T::parse_err_spec(items[k], inner)
    &&& forall|j: int| 0 <= j < k ==> !elem_errs::<T>(#[trigger] items[j])
}

/// Element-wise failure: the first failing element provokes this inner
/// error.
pub open spec fn seq_parse_err<T: Parse>(items: Seq<Node>, inner: T::DataError) -> bool {
    exists|k: int| #[trigger] first_err_at::<T>(items, k, inner)
}

impl<T: Parse> Parse for Vec<T> {
    type DataError = Option<T::DataError>;

    /// Every element parses, in order.
    open spec fn parse_ok_spec(node: Node, v: Vec<T>) -> bool {
        node matches Node::List(items) && seq_parse_ok::<T>(items@, v@)
    }

    /// `None` when the node is not a sequence at all; `Some` carries the
    /// first failing element's error.
    open spec fn parse_err_spec(node: Node, e: Option<T::DataError>) -> bool {
        match node {
            Node::List(items) => match e {
                Some(inner) => seq_parse_err::<T>(items@, inner),
                None => false,
            },
            _ => e is None,
        }
    }

    proof fn lemma_parse_exclusive(node: Node, v: Vec<T>, e: Option<T::DataError>) {
        match node {
            Node::List(items) => match e {
                Some(inner) => {
                    if seq_parse_err::<T>(items@, inner) {
                        let k = choose|k: int| #[trigger] first_err_at::<T>(items@, k, inner);
                        assert(first_err_at::<T>(items@, k, inner));
                        assert(T::parse_ok_spec(items@[k], v@[k]));
                        T::lemma_parse_exclusive(items@[k], v@[k], inner);
                    }
                },
                None => {},
            },
            _ => {},
        }
    }

    fn parse(node: &Node) -> (r: Result<Vec<T>, Option<T::DataError>>) {
        match node {
            Node::List(items) => {
                let n = items.len();
                let mut out: Vec<T> = Vec::new();
                let mut i: usize = 0;
                while i < n
                    invariant
                        *node == Node::List(*items),
                        n == items@.len(),
                        i <= n,
                        out@.len() == i,
                        forall|j: int| 0 <= j < i ==> T::parse_ok_spec(items@[j], #[trigger] out@[j]),
                    decreases n - i,
                {
                    match T::parse(&items[i]) {
                        Ok(v) => {
                            out.push(v);
                        },
                        Err(inner) => {
                            proof {
                                assert forall|j: int| 0 <= j < i implies !elem_errs::<T>(
                                    #[trigger] items@[j],
                                ) by {
                                    if elem_errs::<T>(items@[j]) {
                                        let e2 = choose|e2: T::DataError|
                                            #[trigger] T::parse_err_spec(items@[j], e2);
                                        T::lemma_parse_exclusive(items@[j], out@[j], e2);
                                    }
                                }
                                assert(seq_parse_err::<T>(items@, inner)) by {
                                    assert(first_err_at::<T>(items@, i as int, inner));
                                }
                            }
                            return Err(Some(inner));
                        },
                    }
                    i += 1;
                }
                proof {
                    assert(seq_parse_ok::<T>(items@, out@));
                }
                Ok(out)
            },
            _ => Err(None),
        }
    }
}

impl<T: Parse> Parse for Option<T> {
    type DataError = T::DataError;

    /// An absent or null node is a clean `None`, not an error.
    open spec fn parse_ok_spec(node: Node, v: Option<T>) -> bool {
        match v {
            None => node is Bad || node is Null,
            Some(x) => !(node is Bad || node is Null) && T::parse_ok_spec(node, x),
        }
    }

    open spec fn parse_err_spec(node: Node, e: T::DataError) -> bool {
        !(node is Bad || node is Null) && T::parse_err_spec(node, e)
    }

    proof fn lemma_parse_exclusive(node: Node, v: Option<T>, e: T::DataError) {
        match v {
            Some(x) => {
                T::lemma_parse_exclusive(node, x, e);
            },
            None => {},
        }
    }

    fn parse(node: &Node) -> (r: Result<Option<T>, T::DataError>) {
        match node {
            Node::Bad => Ok(None),
            Node::Null => Ok(None),
            _ => match T::parse(node) {
                Ok(v) => Ok(Some(v)),
                Err(e) => Err(e),
            },
        }
    }
}

/// Which fixed-length vector shape a node failed to match.
#[derive(Copy, Clone, Debug, Eq, PartialEq, Structural)]
pub enum VecError {
    Vec4,
    Vec3,
    Vec2,
    Vec1,
}

/// A three-scalar node: a sequence of exactly three lenient scalars.
pub open spec fn vec3_node_ok(node: Node, v: Vec3r) -> bool {
    node matches Node::List(items) && items@.len() == 3 && v == Vec3r {
        x: real_node_spec(items@[0]),
        y: real_node_spec(items@[1]),
        z: real_node_spec(items@[2]),
    }
}

impl Parse for Vec3r {
    type DataError = VecError;

    open spec fn parse_ok_spec(node: Node, v: Vec3r) -> bool {
        vec3_node_ok(node, v)
    }

    open spec fn parse_err_spec(node: Node, e: VecError) -> bool {
        e == VecError::Vec3 && !(node matches Node::List(items) && items@.len() == 3)
    }

    proof fn lemma_parse_exclusive(node: Node, v: Vec3r, e: VecError) {
    }

    fn parse(node: &Node) -> (r: Result<Vec3r, VecError>) {
        match node {
            Node::List(items) => {
                if items.len() == 3 {
                    Ok(
                        Vec3r {
                            x: real_value(&items[0]),
                            y: real_value(&items[1]),
                            z: real_value(&items[2]),
                        },
                    )
                } else {
                    Err(VecError::Vec3)
                }
            },
            _ => Err(VecError::Vec3),
        }
    }
}

/// A two-scalar node: a sequence of exactly two lenient scalars.
pub open spec fn vec2_node_ok(node: Node, v: Vec2r) -> bool {
    node matches Node::List(items) && items@.len() == 2 && v == Vec2r {
        s: real_node_spec(items@[0]),
        t: real_node_spec(items@[1]),
    }
}

impl Parse for Vec2r {
    type DataError = VecError;

    open spec fn parse_ok_spec(node: Node, v: Vec2r) -> bool {
        vec2_node_ok(node, v)
    }

    open spec fn parse_err_spec(node: Node, e: VecError) -> bool {
        e == VecError::Vec2 && !(node matches Node::List(items) && items@.len() == 2)
    }

    proof fn lemma_parse_exclusive(node: Node, v: Vec2r, e: VecError) {
    }

    fn parse(node: &Node) -> (r: Result<Vec2r, VecError>) {
        match node {
            Node::List(items) => {
                if items.len() == 2 {
                    Ok(Vec2r { s: real_value(&items[0]), t: real_value(&items[1]) })
                } else {
                    Err(VecError::Vec2)
                }
            },
            _ => Err(VecError::Vec2),
        }
    }
}

/// A single-scalar node: a sequence of exactly one lenient scalar.
pub open spec fn vec1_node_ok(node: Node, v: Vec1r) -> bool {
    node matches Node::List(items) && items@.len() == 1 && v == Vec1r {
        v: real_node_spec(items@[0]),
    }
}

impl Parse for Vec1r {
    type DataError = VecError;

    open spec fn parse_ok_spec(node: Node, v: Vec1r) -> bool {
        vec1_node_ok(node, v)
    }

    open spec fn parse_err_spec(node: Node, e: VecError) -> bool {
        e == VecError::Vec1 && !(node matches Node::List(items) && items@.len() == 1)
    }

    proof fn lemma_parse_exclusive(node: Node, v: Vec1r, e: VecError) {
    }

    fn parse(node: &Node) -> (r: Result<Vec1r, VecError>) {
        match node {
            Node::List(items) => {
                if items.len() == 1 {
                    Ok(Vec1r { v: real_value(&items[0]) })
                } else {
                    Err(VecError::Vec1)
                }
            },
            _ => Err(VecError::Vec1),
        }
    }
}

/// A four-scalar node: a sequence of exactly four lenient scalars.
pub open spec fn vec4_node_ok(node: Node, v: Vec4r) -> bool {
    node matches Node::List(items) && items@.len() == 4 && v == Vec4r {
        x: real_node_spec(items@[0]),
        y: real_node_spec(items@[1]),
        z: real_node_spec(items@[2]),
        w: real_node_spec(items@[3]),
    }
}

impl Parse for Vec4r {
    type DataError = VecError;

    open spec fn parse_ok_spec(node: Node, v: Vec4r) -> bool {
        vec4_node_ok(node, v)
    }

    open spec fn parse_err_spec(node: Node, e: VecError) -> bool {
        e == VecError::Vec4 && !(node matches Node::List(items) && items@.len() == 4)
    }

    proof fn lemma_parse_exclusive(node: Node, v: Vec4r, e: VecError) {
    }

    fn parse(node: &Node) -> (r: Result<Vec4r, VecError>) {
        match node {
            Node::List(items) => {
                if items.len() == 4 {
                    Ok(
                        Vec4r {
                            x: real_value(&items[0]),
                            y: real_value(&items[1]),
                            z: real_value(&items[2]),
                            w: real_value(&items[3]),
                        },
                    )
                } else {
                    Err(VecError::Vec4)
                }
            },
            _ => Err(VecError::Vec4),
        }
    }
}

/// The set of sides a node denotes: the textual encoding of a text node,
/// the empty set for any other shape.
pub open spec fn sides_node_spec(node: Node) -> Sides {
    match node {
        Node::Text(s) => sides_from_text_spec(s@),
        _ => sides_from_text_spec(Seq::<char>::empty()),
    }
}

impl Parse for Sides {
    type DataError = ();

    open spec fn parse_ok_spec(node: Node, v: Sides) -> bool {
        v == sides_node_spec(node)
    }

    open spec fn parse_err_spec(node: Node, e: ()) -> bool {
        false
    }

    proof fn lemma_parse_exclusive(node: Node, v: Sides, e: ()) {
    }

    fn parse(node: &Node) -> (r: Result<Sides, ()>) {
        match node {
            Node::Text(s) => Ok(Sides::from_text(s.as_str())),
            _ => Ok(Sides::empty()),
        }
    }
}

impl Parse for ShellTransformAction {
    type DataError = ();

    open spec fn parse_ok_spec(node: Node, a: ShellTransformAction) -> bool {
        node matches Node::Text(s) && ShellTransformAction::parse_spec(s@) == Ok::<
            ShellTransformAction,
            (),
        >(a)
    }

    open spec fn parse_err_spec(node: Node, e: ()) -> bool {
        match node {
            Node::Text(s) => ShellTransformAction::parse_spec(s@) is Err,
            _ => true,
        }
    }

    proof fn lemma_parse_exclusive(node: Node, a: ShellTransformAction, e: ()) {
    }

    fn parse(node: &Node) -> (r: Result<ShellTransformAction, ()>) {
        match node {
            Node::Text(s) => ShellTransformAction::from_text(s.as_str()),
            _ => Err(()),
        }
    }
}

/// Loads one document from text and runs the typed conversion, wrapping
/// scan and shape failures in the same envelope as the data error: a scan
/// failure carries the scanner's message, a document count other than one
/// is the format error, and the one document's node is converted exactly as
/// [`Parse::parse`] states.
pub fn parse_code<T: Parse>(code: &str) -> (r: Result<T, YamlError<T::DataError>>)
    ensures
        match scan_of(code@) {
            Err(ms) => r matches Err(YamlError::ScanError(m)) && m@ == ms,
            Ok(ds) => if ds.len() == 1 {
                match r {
                    Ok(v) => T::parse_ok_spec(node_of(ds[0]), v),
                    Err(YamlError::DataError(e)) => T::parse_err_spec(node_of(ds[0]), e),
                    _ => false,
                }
            } else {
                r == Err::<T, YamlError<T::DataError>>(YamlError::FormatError)
            },
        },
{
    match load_code::<T::DataError>(code) {
        Ok(n) => match T::parse(&n) {
            Ok(v) => Ok(v),
            Err(e) => Err(YamlError::DataError(e)),
        },
        Err(e) => Err(e),
    }
}

} // verus!

