//! Models: document records, conversion into renderable geometry, and mesh
//! flattening.
//!
//! A model document carries shared position / texture-coordinate / normal
//! arrays and a list of face records; each face either spells its vertices
//! out or references the shared arrays by index. Converting a document
//! resolves and bounds-checks every reference and infers a missing face
//! normal from the first three positions. The normal computation itself is
//! numeric work outside this library's scope: the caller supplies it as a
//! function, required to be total and deterministic, and every contract
//! pins the result in terms of that function's values.

use vstd::prelude::*;
use crate::face::{Face, FaceError, FaceField, FaceVertexes};
use crate::node::Node;
use crate::parse::{real_node_spec, real_value, u32_node_spec, Parse};
use crate::sides::{sides_from_text_spec, Sides};
use crate::vertex::{Real, Vec2r, Vec3r, Vertex};

verus! {

/// What can go wrong converting a model document.
#[derive(Copy, Clone, Debug, Eq, PartialEq, Structural)]
pub enum ModelError {
    /// The faces field is not a sequence at all.
    FacesError,
    /// One face failed; carries its error.
    FaceError(FaceError),
    /// A shared vertex array field did not have the expected shape.
    ArrayError,
}

impl From<FaceError> for ModelError {
    fn from(err: FaceError) -> (r: ModelError) {
        ModelError::FaceError(err)
    }
}

impl vstd::std_specs::convert::FromSpecImpl<FaceError> for ModelError {
    open spec fn obeys_from_spec() -> bool {
        true
    }

    open spec fn from_spec(err: FaceError) -> ModelError {
        ModelError::FaceError(err)
    }
}


impl crate::error::Error for ModelError {
    open spec fn title_spec() -> Seq<char> {
        "Model Error"@
    }

    open spec fn case_spec(&self) -> Seq<char> {
        match self {
            ModelError::FacesError => "Faces Error"@,
            ModelError::FaceError(fe) => fe.case_spec(),
            ModelError::ArrayError => "Array Error"@,
        }
    }

    open spec fn clarification_spec(&self) -> Option<Seq<char>> {
        match self {
            ModelError::FaceError(fe) => fe.clarification_spec(),
            _ => None,
        }
    }

    open spec fn advice_spec(&self) -> Option<Seq<char>> {
        None
    }

    fn title() -> (r: &'static str) {
        "Model Error"
    }

    fn case(&self) -> (r: &'static str) {
        match self {
            ModelError::FacesError => "Faces Error",
            ModelError::FaceError(fe) => fe.case(),
            ModelError::ArrayError => "Array Error",
        }
    }

    fn clarification(&self) -> (r: Option<String>) {
        match self {
            ModelError::FaceError(fe) => fe.clarification(),
            _ => None,
        }
    }

    fn advice(&self) -> (r: Option<String>) {
        None
    }
}

/// A model: its faces in order, plus the directions on which it presents a
/// fully opaque, tile-filling face (used by neighbour culling).
#[derive(Debug, PartialEq)]
pub struct Model {
    pub faces: Vec<Face>,
    pub full_sides: Sides,
}

/// The vertex and index buffers after expanding a list of faces onto the
/// given buffer tails: each face's fan indices are based at the position
/// its vertices land in the vertex buffer.
pub open spec fn mesh_spec(faces: Seq<Face>, verts: Seq<Vertex>, idx: Seq<u32>) -> (
    Seq<Vertex>,
    Seq<u32>,
)
    decreases faces.len(),
{
    if faces.len() == 0 {
        (verts, idx)
    } else {
        mesh_spec(
            faces.skip(1),
            verts + faces[0].vertexes.vertex_seq(),
            idx + faces[0].vertexes.fan_indexes_spec(verts.len() as u32),
        )
    }
}

/// Every index of the expanded mesh references a vertex: the fan bases
/// advance with the vertex buffer, so no index escapes it.
pub proof fn lemma_mesh_indexes_in_range(faces: Seq<Face>, verts: Seq<Vertex>, idx: Seq<u32>)
    requires
        verts.len() + 4 * faces.len() <= u32::MAX,
        forall|j: int| 0 <= j < idx.len() ==> (#[trigger] idx[j]) < verts.len(),
    ensures
        forall|j: int|
            0 <= j < mesh_spec(faces, verts, idx).1.len() ==> (#[trigger] mesh_spec(
                faces,
                verts,
                idx,
            ).1[j]) < mesh_spec(faces, verts, idx).0.len(),
    decreases faces.len(),
{
    let m = mesh_spec(faces, verts, idx);
    if faces.len() == 0 {
        assert forall|j: int| 0 <= j < m.1.len() implies (#[trigger] m.1[j]) < m.0.len() by {
            assert(m.1[j] == idx[j]);
        }
    } else {
        let verts2 = verts + faces[0].vertexes.vertex_seq();
        let idx2 = idx + faces[0].vertexes.fan_indexes_spec(verts.len() as u32);
        assert forall|j: int| 0 <= j < idx2.len() implies (#[trigger] idx2[j])
            < verts2.len() by {
            if j < idx.len() {
                assert(idx2[j] == idx[j]);
            } else {
                assert(idx2[j] == faces[0].vertexes.fan_indexes_spec(verts.len() as u32)[j
                    - idx.len()]);
            }
        }
        lemma_mesh_indexes_in_range(faces.skip(1), verts2, idx2);
        assert(m == mesh_spec(faces.skip(1), verts2, idx2));
        assert forall|j: int| 0 <= j < m.1.len() implies (#[trigger] m.1[j]) < m.0.len() by {
            assert(m.1[j] == mesh_spec(faces.skip(1), verts2, idx2).1[j]);
        }
    }
}

impl Model {
    /// Expands every face into one deduplicated-per-face vertex buffer and
    /// one triangle index buffer, in face order.
    pub fn get_indexed_vertexes(&self) -> (r: (Vec<Vertex>, Vec<u32>))
        requires
            self.faces@.len() * 4 <= u32::MAX,
        ensures
            (r.0@, r.1@) == mesh_spec(self.faces@, Seq::<Vertex>::empty(), Seq::<u32>::empty()),
    {
        let ghost all = self.faces@;
        let mut vertexes: Vec<Vertex> = Vec::new();
        let mut indexes: Vec<u32> = Vec::new();
        let n = self.faces.len();
        let mut i: usize = 0;
        proof {
            assert(all.skip(0) =~= all);
            assert(vertexes@ =~= Seq::<Vertex>::empty());
            assert(indexes@ =~= Seq::<u32>::empty());
        }
        while i < n
            invariant
                n == all.len(),
                all == self.faces@,
                all.len() * 4 <= u32::MAX,
                i <= n,
                vertexes@.len() <= i * 4,
                mesh_spec(all.skip(i as int), vertexes@, indexes@) == mesh_spec(
                    all,
                    Seq::<Vertex>::empty(),
                    Seq::<u32>::empty(),
                ),
            decreases n - i,
        {
            proof {
                assert(all.skip(i as int)[0] == all[i as int]);
                assert(all.skip(i as int).skip(1) =~= all.skip(i + 1));
            }
            self.faces[i].vertexes.extend_vertexes(&mut vertexes, &mut indexes);
            i += 1;
        }
        proof {
            assert(all.skip(n as int).len() == 0);
        }
        (vertexes, indexes)
    }
}

// ---------------------------------------------------------------------------
// Document records.
// ---------------------------------------------------------------------------

/// The index-reference form of one face: positions, texture coordinates and
/// optionally a normal, all given as indices into the model's shared arrays.
#[derive(Debug, PartialEq)]
pub struct DataDoc {
    pub pos: Option<Vec<u32>>,
    pub st: Option<Vec<u32>>,
    pub norm: Option<u32>,
}

/// One face record: either explicit vertex data (`pos`/`st`/`norm`) or an
/// index-reference record (`data`), never both.
#[derive(Debug, PartialEq)]
pub struct FaceDoc {
    pub pos: Option<Vec<Vec3r>>,
    pub st: Option<Vec<Vec2r>>,
    pub norm: Option<Vec3r>,
    pub layer: Option<u32>,
    pub contact: Option<String>,
    pub data: Option<DataDoc>,
}

/// A model document: shared arrays, face records and the full-sides tag.
#[derive(Debug, PartialEq)]
pub struct ModelDoc {
    pub pos: Option<Vec<Vec3r>>,
    pub st: Option<Vec<Vec2r>>,
    pub norm: Option<Vec<Vec3r>>,
    pub faces: Option<Vec<FaceDoc>>,
    pub full_sides: Option<String>,
}

// ---------------------------------------------------------------------------
// Shapes and readings of document fields.
// ---------------------------------------------------------------------------

/// An absent field: explicitly null or not there at all.
pub open spec fn absent(n: Node) -> bool {
    n is Bad || n is Null
}

pub(crate) fn is_absent(n: &Node) -> (r: bool)
    ensures
        r == absent(*n),
{
    match n {
        Node::Bad => true,
        Node::Null => true,
        _ => false,
    }
}

/// The three-scalar reading of a node (zeros for any other shape).
pub open spec fn vec3_of_node(n: Node) -> Vec3r {
    match n {
        Node::List(items) => Vec3r {
            x: real_node_spec(items@[0]),
            y: real_node_spec(items@[1]),
            z: real_node_spec(items@[2]),
        },
        _ => Vec3r { x: Real(0), y: Real(0), z: Real(0) },
    }
}

/// The two-scalar reading of a node.
pub open spec fn vec2_of_node(n: Node) -> Vec2r {
    match n {
        Node::List(items) => Vec2r { s: real_node_spec(items@[0]), t: real_node_spec(items@[1]) },
        _ => Vec2r { s: Real(0), t: Real(0) },
    }
}

/// A sequence node of exactly `k` elements.
pub open spec fn is_len_list(n: Node, k: int) -> bool {
    n matches Node::List(items) && items@.len() == k
}

/// Every element is a sequence of exactly `k` nodes.
pub open spec fn all_len_lists(items: Seq<Node>, k: int) -> bool {
    forall|i: int| 0 <= i < items.len() ==> is_len_list(#[trigger] items[i], k)
}

/// A sequence node whose every element is a sequence of exactly `k` nodes.
pub open spec fn is_list_of_len_lists(n: Node, k: int) -> bool {
    n matches Node::List(items) && all_len_lists(items@, k)
}

/// Any sequence node.
pub open spec fn is_list(n: Node) -> bool {
    n matches Node::List(_)
}

/// A text node.
pub open spec fn is_text(n: Node) -> bool {
    n matches Node::Text(_)
}

/// The three-scalar vectors a list node holds.
pub open spec fn vec3s_of_list(n: Node) -> Seq<Vec3r> {
    match n {
        Node::List(items) => Seq::new(items@.len(), |i: int| vec3_of_node(items@[i])),
        _ => Seq::empty(),
    }
}

/// The two-scalar vectors a list node holds.
pub open spec fn vec2s_of_list(n: Node) -> Seq<Vec2r> {
    match n {
        Node::List(items) => Seq::new(items@.len(), |i: int| vec2_of_node(items@[i])),
        _ => Seq::empty(),
    }
}

/// The lenient integers a list node holds.
pub open spec fn u32s_of_list(n: Node) -> Seq<u32> {
    match n {
        Node::List(items) => Seq::new(items@.len(), |i: int| u32_node_spec(items@[i])),
        _ => Seq::empty(),
    }
}

/// An optional field of three-scalar vectors.
pub open spec fn opt_vec3_list_ok(n: Node, v: Option<Vec<Vec3r>>) -> bool {
    match v {
        None => absent(n),
        Some(vec) => is_list_of_len_lists(n, 3) && vec@ == vec3s_of_list(n),
    }
}

/// An optional field of two-scalar vectors.
pub open spec fn opt_vec2_list_ok(n: Node, v: Option<Vec<Vec2r>>) -> bool {
    match v {
        None => absent(n),
        Some(vec) => is_list_of_len_lists(n, 2) && vec@ == vec2s_of_list(n),
    }
}

/// An optional field of lenient integers.
pub open spec fn opt_u32_list_ok(n: Node, v: Option<Vec<u32>>) -> bool {
    match v {
        None => absent(n),
        Some(vec) => is_list(n) && vec@ == u32s_of_list(n),
    }
}

/// An optional single three-scalar vector.
pub open spec fn opt_vec3_ok(n: Node, v: Option<Vec3r>) -> bool {
    match v {
        None => absent(n),
        Some(x) => is_len_list(n, 3) && x == vec3_of_node(n),
    }
}

/// An optional lenient integer scalar.
pub open spec fn opt_u32_ok(n: Node, v: Option<u32>) -> bool {
    match v {
        None => absent(n),
        Some(x) => !absent(n) && x == u32_node_spec(n),
    }
}

/// An optional text field.
pub open spec fn opt_text_ok(n: Node, v: Option<String>) -> bool {
    match v {
        None => absent(n),
        Some(s) => n matches Node::Text(t) && s@ == t@,
    }
}

// ---------------------------------------------------------------------------
// Field parsers.
// ---------------------------------------------------------------------------

fn parse_vec3(n: &Node) -> (r: Result<Vec3r, ()>)
    ensures
        r == if is_len_list(*n, 3) {
            Ok::<Vec3r, ()>(vec3_of_node(*n))
        } else {
            Err::<Vec3r, ()>(())
        },
{
    match n {
        Node::List(items) => {
            if items.len() == 3 {
                Ok(
                    Vec3r {
                        x: real_value(&items[0]),
                        y: real_value(&items[1]),
                        z: real_value(&items[2]),
                    },
                )
            } else {
                Err(())
            }
        },
        _ => Err(()),
    }
}

fn parse_vec3_list(n: &Node) -> (r: Result<Vec<Vec3r>, ()>)
    ensures
        r matches Ok(v) ==> is_list_of_len_lists(*n, 3) && v@ == vec3s_of_list(*n),
        r is Err <==> !is_list_of_len_lists(*n, 3),
{
    match n {
        Node::List(items) => {
            let m = items.len();
            let mut out: Vec<Vec3r> = Vec::new();
            let mut i: usize = 0;
            while i < m
                invariant
                    *n == Node::List(*items),
                    m == items@.len(),
                    i <= m,
                    out@.len() == i,
                    forall|j: int| 0 <= j < i ==> is_len_list(#[trigger] items@[j], 3),
                    forall|j: int| 0 <= j < i ==> #[trigger] out@[j] == vec3_of_node(items@[j]),
                decreases m - i,
            {
                match parse_vec3(&items[i]) {
                    Ok(v) => {
                        out.push(v);
                    },
                    Err(_) => {
                        proof {
                            assert(!all_len_lists(items@, 3)) by {
                                if all_len_lists(items@, 3) {
                                    assert(is_len_list(items@[i as int], 3));
                                }
                            }
                        }
                        return Err(());
                    },
                }
                i += 1;
            }
            proof {
                assert(all_len_lists(items@, 3));
                assert(out@ =~= vec3s_of_list(*n));
            }
            Ok(out)
        },
        _ => Err(()),
    }
}

fn parse_vec2_list(n: &Node) -> (r: Result<Vec<Vec2r>, ()>)
    ensures
        r matches Ok(v) ==> is_list_of_len_lists(*n, 2) && v@ == vec2s_of_list(*n),
        r is Err <==> !is_list_of_len_lists(*n, 2),
{
    match n {
        Node::List(items) => {
            let m = items.len();
            let mut out: Vec<Vec2r> = Vec::new();
            let mut i: usize = 0;
            while i < m
                invariant
                    *n == Node::List(*items),
                    m == items@.len(),
                    i <= m,
                    out@.len() == i,
                    forall|j: int| 0 <= j < i ==> is_len_list(#[trigger] items@[j], 2),
                    forall|j: int| 0 <= j < i ==> #[trigger] out@[j] == vec2_of_node(items@[j]),
                decreases m - i,
            {
                match &items[i] {
                    Node::List(elems) => {
                        if elems.len() == 2 {
                            out.push(Vec2r { s: real_value(&elems[0]), t: real_value(&elems[1]) });
                        } else {
                            proof {
                                assert(!all_len_lists(items@, 2)) by {
                                    if all_len_lists(items@, 2) {
                                        assert(is_len_list(items@[i as int], 2));
                                    }
                                }
                            }
                            return Err(());
                        }
                    },
                    _ => {
                        proof {
                            assert(!all_len_lists(items@, 2)) by {
                                if all_len_lists(items@, 2) {
                                    assert(is_len_list(items@[i as int], 2));
                                }
                            }
                        }
                        return Err(());
                    },
                }
                i += 1;
            }
            proof {
                assert(all_len_lists(items@, 2));
                assert(out@ =~= vec2s_of_list(*n));
            }
            Ok(out)
        },
        _ => Err(()),
    }
}

pub(crate) fn parse_u32_list(n: &Node) -> (r: Result<Vec<u32>, ()>)
    ensures
        r matches Ok(v) ==> is_list(*n) && v@ == u32s_of_list(*n),
        r is Err <==> !is_list(*n),
{
    match n {
        Node::List(items) => {
            let m = items.len();
            let mut out: Vec<u32> = Vec::new();
            let mut i: usize = 0;
            while i < m
                invariant
                    *n == Node::List(*items),
                    m == items@.len(),
                    i <= m,
                    out@.len() == i,
                    forall|j: int| 0 <= j < i ==> #[trigger] out@[j] == u32_node_spec(items@[j]),
                decreases m - i,
            {
                let v = match &items[i] {
                    Node::Int(x) => #[verifier::truncate] (*x as u32),
                    _ => 0,
                };
                out.push(v);
                i += 1;
            }
            proof {
                assert(out@ =~= u32s_of_list(*n));
            }
            Ok(out)
        },
        _ => Err(()),
    }
}

/// Field access that stands in for the `Bad` node when the key is absent.
pub(crate) fn field<'a>(node: &'a Node, key: &str) -> (r: Option<&'a Node>)
    ensures
        match r {
            Some(v) => node.field_spec(key@) == *v,
            None => node.field_spec(key@) == Node::Bad,
        },
{
    node.get(key)
}

// ---------------------------------------------------------------------------
// Record parsing.
// ---------------------------------------------------------------------------

/// The shape a data record must have: a map whose `pos` and `st` fields, if
/// present, are sequences (scalars inside are lenient).
pub open spec fn data_doc_shape(node: Node) -> bool {
    &&& node matches Node::Hash(_)
    &&& absent(node.field_spec("pos"@)) || is_list(node.field_spec("pos"@))
    &&& absent(node.field_spec("st"@)) || is_list(node.field_spec("st"@))
}

/// The record a well-shaped data node denotes.
pub open spec fn data_doc_ok(node: Node, v: DataDoc) -> bool {
    &&& data_doc_shape(node)
    &&& opt_u32_list_ok(node.field_spec("pos"@), v.pos)
    &&& opt_u32_list_ok(node.field_spec("st"@), v.st)
    &&& opt_u32_ok(node.field_spec("norm"@), v.norm)
}

impl Parse for DataDoc {
    type DataError = FaceError;

    open spec fn parse_ok_spec(node: Node, v: DataDoc) -> bool {
        data_doc_ok(node, v)
    }

    open spec fn parse_err_spec(node: Node, e: FaceError) -> bool {
        e == FaceError::ArrayError && !data_doc_shape(node)
    }

    proof fn lemma_parse_exclusive(node: Node, v: DataDoc, e: FaceError) {
    }

    fn parse(node: &Node) -> (r: Result<DataDoc, FaceError>) {
        if !(matches!(node, Node::Hash(_))) {
            return Err(FaceError::ArrayError);
        }
        let pos = match field(node, "pos") {
            Some(nd) if !is_absent(nd) => match parse_u32_list(nd) {
                Ok(v) => Some(v),
                Err(_) => {
                    return Err(FaceError::ArrayError);
                },
            },
            _ => None,
        };
        let st = match field(node, "st") {
            Some(nd) if !is_absent(nd) => match parse_u32_list(nd) {
                Ok(v) => Some(v),
                Err(_) => {
                    return Err(FaceError::ArrayError);
                },
            },
            _ => None,
        };
        let norm = match field(node, "norm") {
            Some(nd) if !is_absent(nd) => match nd {
                Node::Int(x) => Some(#[verifier::truncate] (*x as u32)),
                _ => Some(0),
            },
            _ => None,
        };
        Ok(DataDoc { pos, st, norm })
    }
}

/// The shape a face record must have: a map whose present fields have their
/// expected shapes.
pub open spec fn face_doc_shape(node: Node) -> bool {
    &&& node matches Node::Hash(_)
    &&& absent(node.field_spec("pos"@)) || is_list_of_len_lists(node.field_spec("pos"@), 3)
    &&& absent(node.field_spec("st"@)) || is_list_of_len_lists(node.field_spec("st"@), 2)
    &&& absent(node.field_spec("norm"@)) || is_len_list(node.field_spec("norm"@), 3)
    &&& absent(node.field_spec("contact"@)) || is_text(node.field_spec("contact"@))
    &&& absent(node.field_spec("data"@)) || data_doc_shape(node.field_spec("data"@))
}

/// The record a well-shaped face node denotes.
pub open spec fn face_doc_ok(node: Node, v: FaceDoc) -> bool {
    &&& face_doc_shape(node)
    &&& opt_vec3_list_ok(node.field_spec("pos"@), v.pos)
    &&& opt_vec2_list_ok(node.field_spec("st"@), v.st)
    &&& opt_vec3_ok(node.field_spec("norm"@), v.norm)
    &&& opt_u32_ok(node.field_spec("layer"@), v.layer)
    &&& opt_text_ok(node.field_spec("contact"@), v.contact)
    &&& match v.data {
        None => absent(node.field_spec("data"@)),
        Some(d) => data_doc_ok(node.field_spec("data"@), d),
    }
}

impl Parse for FaceDoc {
    type DataError = FaceError;

    open spec fn parse_ok_spec(node: Node, v: FaceDoc) -> bool {
        face_doc_ok(node, v)
    }

    open spec fn parse_err_spec(node: Node, e: FaceError) -> bool {
        e == FaceError::ArrayError && !face_doc_shape(node)
    }

    proof fn lemma_parse_exclusive(node: Node, v: FaceDoc, e: FaceError) {
    }

    fn parse(node: &Node) -> (r: Result<FaceDoc, FaceError>) {
        if !(matches!(node, Node::Hash(_))) {
            return Err(FaceError::ArrayError);
        }
        let pos = match field(node, "pos") {
            Some(nd) if !is_absent(nd) => match parse_vec3_list(nd) {
                Ok(v) => Some(v),
                Err(_) => {
                    return Err(FaceError::ArrayError);
                },
            },
            _ => None,
        };
        let st = match field(node, "st") {
            Some(nd) if !is_absent(nd) => match parse_vec2_list(nd) {
                Ok(v) => Some(v),
                Err(_) => {
                    return Err(FaceError::ArrayError);
                },
            },
            _ => None,
        };
        let norm = match field(node, "norm") {
            Some(nd) if !is_absent(nd) => match parse_vec3(nd) {
                Ok(v) => Some(v),
                Err(_) => {
                    return Err(FaceError::ArrayError);
                },
            },
            _ => None,
        };
        let layer = match field(node, "layer") {
            Some(nd) if !is_absent(nd) => match nd {
                Node::Int(x) => Some(#[verifier::truncate] (*x as u32)),
                _ => Some(0),
            },
            _ => None,
        };
        let contact = match field(node, "contact") {
            Some(nd) if !is_absent(nd) => match nd {
                Node::Text(s) => Some(s.clone()),
                _ => {
                    return Err(FaceError::ArrayError);
                },
            },
            _ => None,
        };
        let data = match field(node, "data") {
            Some(nd) if !is_absent(nd) => match DataDoc::parse(nd) {
                Ok(d) => Some(d),
                Err(_) => {
                    return Err(FaceError::ArrayError);
                },
            },
            _ => None,
        };
        Ok(FaceDoc { pos, st, norm, layer, contact, data })
    }
}

/// The shape a model document must have.
pub open spec fn model_doc_shape(node: Node) -> bool {
    &&& node matches Node::Hash(_)
    &&& absent(node.field_spec("pos"@)) || is_list_of_len_lists(node.field_spec("pos"@), 3)
    &&& absent(node.field_spec("st"@)) || is_list_of_len_lists(node.field_spec("st"@), 2)
    &&& absent(node.field_spec("norm"@)) || is_list_of_len_lists(node.field_spec("norm"@), 3)
    &&& absent(node.field_spec("full_sides"@)) || is_text(node.field_spec("full_sides"@))
}

/// Every element is a well-shaped face record.
pub open spec fn all_face_shapes(items: Seq<Node>) -> bool {
    forall|i: int| 0 <= i < items.len() ==> face_doc_shape(#[trigger] items[i])
}

/// The face records a sequence of face nodes denotes.
pub open spec fn faces_ok_seq(items: Seq<Node>, fs: Seq<FaceDoc>) -> bool {
    fs.len() == items.len() && (forall|i: int|
        0 <= i < items.len() ==> face_doc_ok(items[i], #[trigger] fs[i]))
}

/// The faces field parses when it is absent or a sequence of well-shaped
/// face records.
pub open spec fn model_faces_shape(node: Node) -> bool {
    match node.field_spec("faces"@) {
        Node::List(items) => all_face_shapes(items@),
        other => absent(other),
    }
}

/// The record a well-shaped model node denotes.
pub open spec fn model_doc_ok(node: Node, v: ModelDoc) -> bool {
    &&& model_doc_shape(node)
    &&& model_faces_shape(node)
    &&& opt_vec3_list_ok(node.field_spec("pos"@), v.pos)
    &&& opt_vec2_list_ok(node.field_spec("st"@), v.st)
    &&& opt_vec3_list_ok(node.field_spec("norm"@), v.norm)
    &&& opt_text_ok(node.field_spec("full_sides"@), v.full_sides)
    &&& match v.faces {
        None => absent(node.field_spec("faces"@)),
        Some(fs) => node.field_spec("faces"@) matches Node::List(items) && faces_ok_seq(
            items@,
            fs@,
        ),
    }
}

/// The error a model node provokes: shared-array and tag shapes are array
/// errors, a non-sequence faces field is the faces error, and a bad face
/// record carries that face's error.
pub open spec fn model_doc_err(node: Node, e: ModelError) -> bool {
    if !model_doc_shape(node) {
        e == ModelError::ArrayError
    } else if !(absent(node.field_spec("faces"@)) || is_list(node.field_spec("faces"@))) {
        e == ModelError::FacesError
    } else {
        !model_faces_shape(node) && e == ModelError::FaceError(FaceError::ArrayError)
    }
}

impl Parse for ModelDoc {
    type DataError = ModelError;

    open spec fn parse_ok_spec(node: Node, v: ModelDoc) -> bool {
        model_doc_ok(node, v)
    }

    open spec fn parse_err_spec(node: Node, e: ModelError) -> bool {
        model_doc_err(node, e)
    }

    proof fn lemma_parse_exclusive(node: Node, v: ModelDoc, e: ModelError) {
    }

    fn parse(node: &Node) -> (r: Result<ModelDoc, ModelError>) {
        if !(matches!(node, Node::Hash(_))) {
            return Err(ModelError::ArrayError);
        }
        let pos = match field(node, "pos") {
            Some(nd) if !is_absent(nd) => match parse_vec3_list(nd) {
                Ok(v) => Some(v),
                Err(_) => {
                    return Err(ModelError::ArrayError);
                },
            },
            _ => None,
        };
        let st = match field(node, "st") {
            Some(nd) if !is_absent(nd) => match parse_vec2_list(nd) {
                Ok(v) => Some(v),
                Err(_) => {
                    return Err(ModelError::ArrayError);
                },
            },
            _ => None,
        };
        let norm = match field(node, "norm") {
            Some(nd) if !is_absent(nd) => match parse_vec3_list(nd) {
                Ok(v) => Some(v),
                Err(_) => {
                    return Err(ModelError::ArrayError);
                },
            },
            _ => None,
        };
        let full_sides = match field(node, "full_sides") {
            Some(nd) if !is_absent(nd) => match nd {
                Node::Text(s) => Some(s.clone()),
                _ => {
                    return Err(ModelError::ArrayError);
                },
            },
            _ => None,
        };
        let faces = match field(node, "faces") {
            Some(nd) if !is_absent(nd) => match nd {
                Node::List(items) => {
                    proof {
                        assert(model_doc_shape(*node));
                    }
                    let m = items.len();
                    let mut out: Vec<FaceDoc> = Vec::new();
                    let mut i: usize = 0;
                    while i < m
                        invariant
                            model_doc_shape(*node),
                            node.field_spec("faces"@) == Node::List(*items),
                            m == items@.len(),
                            i <= m,
                            out@.len() == i,
                            forall|j: int| 0 <= j < i ==> face_doc_shape(#[trigger] items@[j]),
                            forall|j: int|
                                0 <= j < i ==> face_doc_ok(items@[j], #[trigger] out@[j]),
                        decreases m - i,
                    {
                        match FaceDoc::parse(&items[i]) {
                            Ok(d) => {
                                out.push(d);
                            },
                            Err(_) => {
                                proof {
                                    assert(!all_face_shapes(items@)) by {
                                        if all_face_shapes(items@) {
                                            assert(face_doc_shape(items@[i as int]));
                                        }
                                    }
                                }
                                return Err(ModelError::FaceError(FaceError::ArrayError));
                            },
                        }
                        i += 1;
                    }
                    proof {
                        assert(all_face_shapes(items@));
                        assert(faces_ok_seq(items@, out@));
                    }
                    Some(out)
                },
                _ => {
                    return Err(ModelError::FacesError);
                },
            },
            _ => None,
        };
        Ok(ModelDoc { pos, st, norm, faces, full_sides })
    }
}

// ---------------------------------------------------------------------------
// Conversion into geometry.
// ---------------------------------------------------------------------------

/// What the conversion requires of the caller-supplied normal function:
/// callable on any three positions, and deterministic — equal inputs give
/// equal outputs, so the inferred normal is a function of the positions.
pub open spec fn normal_fn_ok<F: Fn(Vec3r, Vec3r, Vec3r) -> Vec3r>(nf: F) -> bool {
    &&& forall|a: Vec3r, b: Vec3r, c: Vec3r| #[trigger] call_requires(nf, (a, b, c))
    &&& forall|a: Vec3r, b: Vec3r, c: Vec3r, n1: Vec3r, n2: Vec3r|
        #![trigger call_ensures(nf, (a, b, c), n1), call_ensures(nf, (a, b, c), n2)]
        call_ensures(nf, (a, b, c), n1) && call_ensures(nf, (a, b, c), n2) ==> n1 == n2
}

/// The value a deterministic normal function gives for three positions.
pub open spec fn normal_fn_val<F: Fn(Vec3r, Vec3r, Vec3r) -> Vec3r>(
    nf: F,
    a: Vec3r,
    b: Vec3r,
    c: Vec3r,
) -> Vec3r {
    choose|nv: Vec3r| call_ensures(nf, (a, b, c), nv)
}

proof fn lemma_normal_fn_val<F: Fn(Vec3r, Vec3r, Vec3r) -> Vec3r>(
    nf: F,
    a: Vec3r,
    b: Vec3r,
    c: Vec3r,
    nv: Vec3r,
)
    requires
        normal_fn_ok(nf),
        call_ensures(nf, (a, b, c), nv),
    ensures
        normal_fn_val(nf, a, b, c) == nv,
{
    let cv = normal_fn_val(nf, a, b, c);
    assert(call_ensures(nf, (a, b, c), cv));
}

/// How many vertices a pair of index columns yields: the shorter length.
pub open spec fn zip_len(pos_ids: Seq<u32>, st_ids: Seq<u32>) -> int {
    if pos_ids.len() <= st_ids.len() {
        pos_ids.len() as int
    } else {
        st_ids.len() as int
    }
}

/// The first out-of-range reference among the vertex index pairs from
/// position `k` on: positions are checked before texture coordinates at
/// each pair.
pub open spec fn first_vertex_fault(
    pos_ids: Seq<u32>,
    st_ids: Seq<u32>,
    np: int,
    ns: int,
    k: int,
) -> Option<FaceError>
    decreases zip_len(pos_ids, st_ids) - k when 0 <= k
{
    if k >= zip_len(pos_ids, st_ids) {
        None
    } else if pos_ids[k] as int >= np {
        Some(FaceError::OutOfRange(FaceField::Pos, pos_ids[k] as usize))
    } else if st_ids[k] as int >= ns {
        Some(FaceError::OutOfRange(FaceField::St, st_ids[k] as usize))
    } else {
        first_vertex_fault(pos_ids, st_ids, np, ns, k + 1)
    }
}

/// The vertices an index-referencing face resolves to.
pub open spec fn data_vertices(
    pos_ids: Seq<u32>,
    st_ids: Seq<u32>,
    pos_arr: Seq<Vec3r>,
    st_arr: Seq<Vec2r>,
    nrm: Vec3r,
) -> Seq<Vertex> {
    Seq::new(
        zip_len(pos_ids, st_ids) as nat,
        |k: int| Vertex { pos: pos_arr[pos_ids[k] as int], st: st_arr[st_ids[k] as int], norm: nrm },
    )
}

/// The shared normal a data record names: the indexed entry when the index
/// is in range, the out-of-range error naming the field and index when it
/// is not, and nothing when the record leaves the normal to inference.
pub open spec fn data_given_norm(d: DataDoc, norm_arr: Seq<Vec3r>) -> Option<Result<
    Vec3r,
    FaceError,
>> {
    match d.norm {
        Some(idx) => if (idx as int) < norm_arr.len() {
            Some(Ok(norm_arr[idx as int]))
        } else {
            Some(Err(FaceError::OutOfRange(FaceField::DataNorm, idx as usize)))
        },
        None => None,
    }
}

/// The first out-of-range reference among the three positions a normal is
/// inferred from.
pub open spec fn infer_fault(ids: Seq<u32>, np: int) -> Option<FaceError> {
    if ids[0] as int >= np {
        Some(FaceError::OutOfRange(FaceField::Pos, ids[0] as usize))
    } else if ids[1] as int >= np {
        Some(FaceError::OutOfRange(FaceField::Pos, ids[1] as usize))
    } else if ids[2] as int >= np {
        Some(FaceError::OutOfRange(FaceField::Pos, ids[2] as usize))
    } else {
        None
    }
}

pub open spec fn len34(n: int) -> bool {
    n == 3 || n == 4
}

/// The contact set a face record declares; absent means empty.
pub open spec fn face_contact(doc: FaceDoc) -> Sides {
    match doc.contact {
        Some(s) => sides_from_text_spec(s@),
        None => sides_from_text_spec(Seq::<char>::empty()),
    }
}

/// The texture layer a face record declares; absent means zero.
pub open spec fn face_layer(doc: FaceDoc) -> u32 {
    match doc.layer {
        Some(l) => l,
        None => 0,
    }
}

/// A face value from a resolved vertex list (always three or four long by
/// the time this is reached).
pub open spec fn face_from_vertices(vs: Seq<Vertex>, contact: Sides, layer: u32) -> Result<
    Face,
    FaceError,
> {
    match FaceVertexes::from_slice_spec(vs) {
        Some(fv) => Ok(Face { vertexes: fv, contact, layer }),
        None => Err(FaceError::ArrayError),
    }
}

/// The outcome of converting one face record against the model's shared
/// arrays: explicit and index-referencing forms are mutually exclusive,
/// every index is bounds-checked, and a missing normal is inferred from the
/// first three positions via the supplied function.
pub open spec fn face_outcome<F: Fn(Vec3r, Vec3r, Vec3r) -> Vec3r>(
    doc: FaceDoc,
    pos_arr: Seq<Vec3r>,
    st_arr: Seq<Vec2r>,
    norm_arr: Seq<Vec3r>,
    nf: F,
) -> Result<Face, FaceError> {
    match doc.data {
        Some(d) => {
            if doc.pos is Some || doc.st is Some || doc.norm is Some {
                Err(FaceError::IncorrectDataFormat)
            } else {
                match d.pos {
                    None => Err(FaceError::WrongVertexNumber(FaceField::DataPos)),
                    Some(pos_ids) => match d.st {
                        None => Err(FaceError::WrongVertexNumber(FaceField::DataSt)),
                        Some(st_ids) => {
                            if !len34(pos_ids@.len() as int) {
                                Err(FaceError::WrongVertexNumber(FaceField::DataPos))
                            } else if !len34(st_ids@.len() as int) {
                                Err(FaceError::WrongVertexNumber(FaceField::DataSt))
                            } else {
                                let nrm_or = match data_given_norm(d, norm_arr) {
                                    Some(given) => given,
                                    None => match infer_fault(pos_ids@, pos_arr.len() as int) {
                                        Some(e) => Err(e),
                                        None => Ok(
                                            normal_fn_val(
                                                nf,
                                                pos_arr[pos_ids@[0] as int],
                                                pos_arr[pos_ids@[1] as int],
                                                pos_arr[pos_ids@[2] as int],
                                            ),
                                        ),
                                    },
                                };
                                match nrm_or {
                                    Err(e) => Err(e),
                                    Ok(nrm) => match first_vertex_fault(
                                        pos_ids@,
                                        st_ids@,
                                        pos_arr.len() as int,
                                        st_arr.len() as int,
                                        0,
                                    ) {
                                        Some(e) => Err(e),
                                        None => face_from_vertices(
                                            data_vertices(pos_ids@, st_ids@, pos_arr, st_arr, nrm),
                                            face_contact(doc),
                                            face_layer(doc),
                                        ),
                                    },
                                }
                            }
                        },
                    },
                }
            }
        },
        None => {
            match doc.pos {
                None => Err(FaceError::WrongVertexNumber(FaceField::Pos)),
                Some(pos) => match doc.st {
                    None => Err(FaceError::WrongVertexNumber(FaceField::St)),
                    Some(st) => {
                        let n = if pos@.len() <= st@.len() {
                            pos@.len() as int
                        } else {
                            st@.len() as int
                        };
                        if !len34(n) {
                            Err(FaceError::WrongVertexNumber(FaceField::Pos))
                        } else {
                            let nrm = match doc.norm {
                                Some(v) => v,
                                None => normal_fn_val(nf, pos@[0], pos@[1], pos@[2]),
                            };
                            face_from_vertices(
                                Seq::new(
                                    n as nat,
                                    |k: int| Vertex { pos: pos@[k], st: st@[k], norm: nrm },
                                ),
                                face_contact(doc),
                                face_layer(doc),
                            )
                        }
                    },
                },
            }
        },
    }
}

/// Converts one face record; see [`face_outcome`] for the exact behaviour.
pub fn convert_face<F: Fn(Vec3r, Vec3r, Vec3r) -> Vec3r + Copy>(
    doc: &FaceDoc,
    pos_arr: &Vec<Vec3r>,
    st_arr: &Vec<Vec2r>,
    norm_arr: &Vec<Vec3r>,
    nf: F,
) -> (r: Result<Face, FaceError>)
    requires
        normal_fn_ok(nf),
    ensures
        r == face_outcome(*doc, pos_arr@, st_arr@, norm_arr@, nf),
{
    let contact = match &doc.contact {
        Some(s) => Sides::from_text(s.as_str()),
        None => Sides::empty(),
    };
    proof {
        assert(sides_from_text_spec(Seq::<char>::empty()) == Sides::empty_spec());
        assert(contact == face_contact(*doc));
    }
    let layer = match &doc.layer {
        Some(l) => *l,
        None => 0,
    };
    match &doc.data {
        Some(d) => {
            if doc.pos.is_some() || doc.st.is_some() || doc.norm.is_some() {
                return Err(FaceError::IncorrectDataFormat);
            }
            let pos_ids = match &d.pos {
                Some(v) => v,
                None => {
                    return Err(FaceError::WrongVertexNumber(FaceField::DataPos));
                },
            };
            let st_ids = match &d.st {
                Some(v) => v,
                None => {
                    return Err(FaceError::WrongVertexNumber(FaceField::DataSt));
                },
            };
            if !(pos_ids.len() == 3 || pos_ids.len() == 4) {
                return Err(FaceError::WrongVertexNumber(FaceField::DataPos));
            }
            if !(st_ids.len() == 3 || st_ids.len() == 4) {
                return Err(FaceError::WrongVertexNumber(FaceField::DataSt));
            }
            let nrm = match &d.norm {
                Some(idx) => {
                    let iu = *idx as usize;
                    if iu < norm_arr.len() {
                        norm_arr[iu]
                    } else {
                        return Err(FaceError::OutOfRange(FaceField::DataNorm, iu));
                    }
                },
                None => {
                    let i0 = pos_ids[0] as usize;
                    if i0 >= pos_arr.len() {
                        return Err(FaceError::OutOfRange(FaceField::Pos, i0));
                    }
                    let i1 = pos_ids[1] as usize;
                    if i1 >= pos_arr.len() {
                        return Err(FaceError::OutOfRange(FaceField::Pos, i1));
                    }
                    let i2 = pos_ids[2] as usize;
                    if i2 >= pos_arr.len() {
                        return Err(FaceError::OutOfRange(FaceField::Pos, i2));
                    }
                    let nv = nf(pos_arr[i0], pos_arr[i1], pos_arr[i2]);
                    proof {
                        lemma_normal_fn_val(nf, pos_arr@[i0 as int], pos_arr@[i1 as int], pos_arr@[i2 as int], nv);
                    }
                    nv
                },
            };
            let count = if pos_ids.len() <= st_ids.len() {
                pos_ids.len()
            } else {
                st_ids.len()
            };
            let mut vs: Vec<Vertex> = Vec::new();
            let mut k: usize = 0;
            proof {
                assert(face_outcome(*doc, pos_arr@, st_arr@, norm_arr@, nf) == (match first_vertex_fault(
                    pos_ids@,
                    st_ids@,
                    pos_arr@.len() as int,
                    st_arr@.len() as int,
                    0,
                ) {
                    Some(e) => Err::<Face, FaceError>(e),
                    None => face_from_vertices(
                        data_vertices(pos_ids@, st_ids@, pos_arr@, st_arr@, nrm),
                        contact,
                        layer,
                    ),
                }));
            }
            while k < count
                invariant
                    face_outcome(*doc, pos_arr@, st_arr@, norm_arr@, nf) == (match first_vertex_fault(
                        pos_ids@,
                        st_ids@,
                        pos_arr@.len() as int,
                        st_arr@.len() as int,
                        0,
                    ) {
                        Some(e) => Err::<Face, FaceError>(e),
                        None => face_from_vertices(
                            data_vertices(pos_ids@, st_ids@, pos_arr@, st_arr@, nrm),
                            contact,
                            layer,
                        ),
                    }),
                    count == zip_len(pos_ids@, st_ids@),
                    k <= count,
                    vs@.len() == k,
                    forall|j: int|
                        0 <= j < k ==> #[trigger] vs@[j] == (Vertex {
                            pos: pos_arr@[pos_ids@[j] as int],
                            st: st_arr@[st_ids@[j] as int],
                            norm: nrm,
                        }),
                    first_vertex_fault(
                        pos_ids@,
                        st_ids@,
                        pos_arr@.len() as int,
                        st_arr@.len() as int,
                        k as int,
                    ) == first_vertex_fault(
                        pos_ids@,
                        st_ids@,
                        pos_arr@.len() as int,
                        st_arr@.len() as int,
                        0,
                    ),
                decreases count - k,
            {
                let pid = pos_ids[k] as usize;
                if pid >= pos_arr.len() {
                    return Err(FaceError::OutOfRange(FaceField::Pos, pid));
                }
                let sid = st_ids[k] as usize;
                if sid >= st_arr.len() {
                    return Err(FaceError::OutOfRange(FaceField::St, sid));
                }
                vs.push(Vertex { pos: pos_arr[pid], st: st_arr[sid], norm: nrm });
                k += 1;
            }
            proof {
                assert(vs@ =~= data_vertices(pos_ids@, st_ids@, pos_arr@, st_arr@, nrm));
            }
            match FaceVertexes::from_slice(vs.as_slice()) {
                Some(fv) => Ok(Face { vertexes: fv, contact, layer }),
                None => {
                    proof {
                        assert(false);
                    }
                    Err(FaceError::ArrayError)
                },
            }
        },
        None => {
            let pos = match &doc.pos {
                Some(v) => v,
                None => {
                    return Err(FaceError::WrongVertexNumber(FaceField::Pos));
                },
            };
            let st = match &doc.st {
                Some(v) => v,
                None => {
                    return Err(FaceError::WrongVertexNumber(FaceField::St));
                },
            };
            let count = if pos.len() <= st.len() {
                pos.len()
            } else {
                st.len()
            };
            if !(count == 3 || count == 4) {
                return Err(FaceError::WrongVertexNumber(FaceField::Pos));
            }
            let nrm = match &doc.norm {
                Some(v) => *v,
                None => {
                    let nv = nf(pos[0], pos[1], pos[2]);
                    proof {
                        lemma_normal_fn_val(nf, pos@[0], pos@[1], pos@[2], nv);
                    }
                    nv
                },
            };
            let mut vs: Vec<Vertex> = Vec::new();
            let mut k: usize = 0;
            proof {
                assert(face_outcome(*doc, pos_arr@, st_arr@, norm_arr@, nf) == face_from_vertices(
                    Seq::new(count as nat, |j: int| Vertex { pos: pos@[j], st: st@[j], norm: nrm }),
                    contact,
                    layer,
                ));
            }
            while k < count
                invariant
                    face_outcome(*doc, pos_arr@, st_arr@, norm_arr@, nf) == face_from_vertices(
                        Seq::new(
                            count as nat,
                            |j: int| Vertex { pos: pos@[j], st: st@[j], norm: nrm },
                        ),
                        contact,
                        layer,
                    ),
                    count <= pos@.len(),
                    count <= st@.len(),
                    k <= count,
                    vs@.len() == k,
                    forall|j: int|
                        0 <= j < k ==> #[trigger] vs@[j] == (Vertex {
                            pos: pos@[j],
                            st: st@[j],
                            norm: nrm,
                        }),
                decreases count - k,
            {
                vs.push(Vertex { pos: pos[k], st: st[k], norm: nrm });
                k += 1;
            }
            proof {
                assert(vs@ =~= Seq::new(
                    count as nat,
                    |j: int| Vertex { pos: pos@[j], st: st@[j], norm: nrm },
                ));
            }
            match FaceVertexes::from_slice(vs.as_slice()) {
                Some(fv) => Ok(Face { vertexes: fv, contact, layer }),
                None => {
                    proof {
                        assert(false);
                    }
                    Err(FaceError::ArrayError)
                },
            }
        },
    }
}

/// The outcome of converting a list of face records in order: the first
/// failing face's error, or all the faces.
pub open spec fn faces_outcome<F: Fn(Vec3r, Vec3r, Vec3r) -> Vec3r>(
    docs: Seq<FaceDoc>,
    pos_arr: Seq<Vec3r>,
    st_arr: Seq<Vec2r>,
    norm_arr: Seq<Vec3r>,
    nf: F,
) -> Result<Seq<Face>, FaceError>
    decreases docs.len(),
{
    if docs.len() == 0 {
        Ok(Seq::empty())
    } else {
        match face_outcome(docs[0], pos_arr, st_arr, norm_arr, nf) {
            Err(e) => Err(e),
            Ok(f) => match faces_outcome(docs.skip(1), pos_arr, st_arr, norm_arr, nf) {
                Err(e) => Err(e),
                Ok(rest) => Ok(seq![f] + rest),
            },
        }
    }
}

/// The shared position array a model document declares; absent means empty.
pub open spec fn doc_pos(doc: ModelDoc) -> Seq<Vec3r> {
    match doc.pos {
        Some(v) => v@,
        None => Seq::empty(),
    }
}

pub open spec fn doc_st(doc: ModelDoc) -> Seq<Vec2r> {
    match doc.st {
        Some(v) => v@,
        None => Seq::empty(),
    }
}

pub open spec fn doc_norm(doc: ModelDoc) -> Seq<Vec3r> {
    match doc.norm {
        Some(v) => v@,
        None => Seq::empty(),
    }
}

pub open spec fn doc_faces(doc: ModelDoc) -> Seq<FaceDoc> {
    match doc.faces {
        Some(v) => v@,
        None => Seq::empty(),
    }
}

/// The full-sides tag a model document declares; absent means empty.
pub open spec fn model_full_sides(doc: ModelDoc) -> Sides {
    match doc.full_sides {
        Some(s) => sides_from_text_spec(s@),
        None => sides_from_text_spec(Seq::<char>::empty()),
    }
}

/// Composes a converted prefix with the outcome of the remaining faces.
pub open spec fn faces_comp(prefix: Seq<Face>, rest: Result<Seq<Face>, FaceError>) -> Result<
    Seq<Face>,
    FaceError,
> {
    match rest {
        Ok(r) => Ok(prefix + r),
        Err(e) => Err(e),
    }
}

/// Converts a model document: every face against the shared arrays, plus
/// the full-sides tag. The first failing face aborts the whole model with
/// that face's error.
pub fn convert_model<F: Fn(Vec3r, Vec3r, Vec3r) -> Vec3r + Copy>(doc: ModelDoc, nf: F) -> (r:
    Result<Model, ModelError>)
    requires
        normal_fn_ok(nf),
    ensures
        match r {
            Ok(m) => faces_outcome(doc_faces(doc), doc_pos(doc), doc_st(doc), doc_norm(doc), nf)
                matches Ok(fs) && m.faces@ == fs && m.full_sides == model_full_sides(doc),
            Err(e) => faces_outcome(doc_faces(doc), doc_pos(doc), doc_st(doc), doc_norm(doc), nf)
                matches Err(fe) && e == ModelError::FaceError(fe),
        },
{
    let empty_v3: Vec<Vec3r> = Vec::new();
    let empty_v2: Vec<Vec2r> = Vec::new();
    let empty_fd: Vec<FaceDoc> = Vec::new();
    let pos_arr = match &doc.pos {
        Some(v) => v,
        None => &empty_v3,
    };
    let st_arr = match &doc.st {
        Some(v) => v,
        None => &empty_v2,
    };
    let norm_arr = match &doc.norm {
        Some(v) => v,
        None => &empty_v3,
    };
    let face_docs = match &doc.faces {
        Some(v) => v,
        None => &empty_fd,
    };
    proof {
        assert(pos_arr@ =~= doc_pos(doc));
        assert(st_arr@ =~= doc_st(doc));
        assert(norm_arr@ =~= doc_norm(doc));
        assert(face_docs@ =~= doc_faces(doc));
    }
    let ghost all = face_docs@;
    let n = face_docs.len();
    let mut out: Vec<Face> = Vec::new();
    let mut i: usize = 0;
    proof {
        assert(all.skip(0) =~= all);
        assert(out@ =~= Seq::<Face>::empty());
        match faces_outcome(all, pos_arr@, st_arr@, norm_arr@, nf) {
            Ok(fs) => {
                assert(Seq::<Face>::empty() + fs =~= fs);
            },
            Err(_) => {},
        }
    }
    while i < n
        invariant
            normal_fn_ok(nf),
            n == all.len(),
            all == face_docs@,
            all == doc_faces(doc),
            pos_arr@ == doc_pos(doc),
            st_arr@ == doc_st(doc),
            norm_arr@ == doc_norm(doc),
            i <= n,
            out@.len() == i,
            faces_outcome(all, pos_arr@, st_arr@, norm_arr@, nf) == faces_comp(
                out@,
                faces_outcome(all.skip(i as int), pos_arr@, st_arr@, norm_arr@, nf),
            ),
        decreases n - i,
    {
        proof {
            assert(all.skip(i as int)[0] == all[i as int]);
            assert(all.skip(i as int).skip(1) =~= all.skip(i + 1));
        }
        match convert_face(&face_docs[i], pos_arr, st_arr, norm_arr, nf) {
            Ok(f) => {
                proof {
                    assert(faces_outcome(all.skip(i as int), pos_arr@, st_arr@, norm_arr@, nf)
                        == (match faces_outcome(all.skip(i + 1), pos_arr@, st_arr@, norm_arr@, nf) {
                        Ok(rest) => Ok::<Seq<Face>, FaceError>(seq![f] + rest),
                        Err(e) => Err::<Seq<Face>, FaceError>(e),
                    }));
                }
                let ghost out_old = out@;
                out.push(f);
                proof {
                    assert(out@ =~= out_old.push(f));
                    match faces_outcome(all.skip(i + 1), pos_arr@, st_arr@, norm_arr@, nf) {
                        Ok(rest) => {
                            assert(out_old + (seq![f] + rest) =~= out@ + rest);
                        },
                        Err(_) => {},
                    }
                    assert(faces_outcome(all, pos_arr@, st_arr@, norm_arr@, nf) == faces_comp(
                        out@,
                        faces_outcome(all.skip(i + 1), pos_arr@, st_arr@, norm_arr@, nf),
                    ));
                }
            },
            Err(e) => {
                proof {
                    assert(faces_outcome(all.skip(i as int), pos_arr@, st_arr@, norm_arr@, nf)
                        == Err::<Seq<Face>, FaceError>(e));
                }
                return Err(ModelError::FaceError(e));
            },
        }
        i += 1;
    }
    proof {
        assert(all.skip(n as int).len() == 0);
        match faces_outcome(all, pos_arr@, st_arr@, norm_arr@, nf) {
            Ok(fs) => {
                assert(out@ + Seq::<Face>::empty() =~= out@);
            },
            Err(_) => {},
        }
    }
    let fs = match &doc.full_sides {
        Some(s) => Sides::from_text(s.as_str()),
        None => Sides::empty(),
    };
    proof {
        assert(sides_from_text_spec(Seq::<char>::empty()) == Sides::empty_spec());
        assert(fs == model_full_sides(doc));
    }
    Ok(Model { faces: out, full_sides: fs })
}

} // verus!
