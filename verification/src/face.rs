//! Faces: fixed-arity polygons with contact tagging and a texture layer.
//!
//! A face holds exactly three or four vertices; any other count is a
//! construction error. Flattening a face into vertex and index buffers uses
//! a fixed fan triangulation (a known limitation: a concave or non-planar
//! quad triangulates incorrectly).

use vstd::prelude::*;
use vstd::string::StringExecFns;
use crate::sides::Sides;
use crate::vertex::Vertex;

verus! {

/// The face-level document fields an error can point at.
#[derive(Copy, Clone, Debug, Eq, PartialEq, Structural)]
pub enum FaceField {
    Pos,
    St,
    Norm,
    DataPos,
    DataSt,
    DataNorm,
}

impl FaceField {
    /// The dotted path of the field inside a face record.
    pub open spec fn path_spec(self) -> Seq<char> {
        match self {
            FaceField::Pos => "pos"@,
            FaceField::St => "st"@,
            FaceField::Norm => "norm"@,
            FaceField::DataPos => "data.pos"@,
            FaceField::DataSt => "data.st"@,
            FaceField::DataNorm => "data.norm"@,
        }
    }

    pub fn path(&self) -> (r: &'static str)
        ensures
            r@ == self.path_spec(),
    {
        match self {
            FaceField::Pos => "pos",
            FaceField::St => "st",
            FaceField::Norm => "norm",
            FaceField::DataPos => "data.pos",
            FaceField::DataSt => "data.st",
            FaceField::DataNorm => "data.norm",
        }
    }
}

/// What can go wrong building one face.
#[derive(Copy, Clone, Debug, Eq, PartialEq, Structural)]
pub enum FaceError {
    /// The resolved vertex count is not three or four, or a required vertex
    /// array is missing; names the field at fault.
    WrongVertexNumber(FaceField),
    /// A vertex array field did not have the expected shape.
    ArrayError,
    /// An index into a shared array is out of range; names the field and
    /// the offending index.
    OutOfRange(FaceField, usize),
    /// Explicit vertex data and index data were both supplied.
    IncorrectDataFormat,
}

/// The vertices of one face: exactly three (a triangle) or four (a square).
#[derive(Copy, Clone, Debug, Eq, PartialEq, Structural)]
pub enum FaceVertexes {
    Triangle(Vertex, Vertex, Vertex),
    Square(Vertex, Vertex, Vertex, Vertex),
}

impl FaceVertexes {
    /// Three vertices make a triangle, four a square, anything else nothing.
    pub open spec fn from_slice_spec(vs: Seq<Vertex>) -> Option<FaceVertexes> {
        if vs.len() == 3 {
            Some(FaceVertexes::Triangle(vs[0], vs[1], vs[2]))
        } else if vs.len() == 4 {
            Some(FaceVertexes::Square(vs[0], vs[1], vs[2], vs[3]))
        } else {
            None
        }
    }

    pub fn from_slice(vs: &[Vertex]) -> (r: Option<FaceVertexes>)
        ensures
            r == FaceVertexes::from_slice_spec(vs@),
    {
        if vs.len() == 3 {
            Some(FaceVertexes::Triangle(vs[0], vs[1], vs[2]))
        } else if vs.len() == 4 {
            Some(FaceVertexes::Square(vs[0], vs[1], vs[2], vs[3]))
        } else {
            None
        }
    }

    /// The vertices in order.
    pub open spec fn vertex_seq(self) -> Seq<Vertex> {
        match self {
            FaceVertexes::Triangle(a, b, c) => seq![a, b, c],
            FaceVertexes::Square(a, b, c, d) => seq![a, b, c, d],
        }
    }

    /// The triangle indices a face contributes when its first vertex lands
    /// at position `base` of the vertex buffer: a triangle gives one triple,
    /// a square two in fan order — all referencing the face's own vertices.
    pub open spec fn fan_indexes_spec(self, base: u32) -> Seq<u32> {
        match self {
            FaceVertexes::Triangle(_, _, _) => seq![base, (base + 1) as u32, (base + 2) as u32],
            FaceVertexes::Square(_, _, _, _) => seq![
                base,
                (base + 1) as u32,
                (base + 2) as u32,
                base,
                (base + 2) as u32,
                (base + 3) as u32,
            ],
        }
    }

    /// Appends this face's vertices to the vertex buffer and its fan
    /// triangulation to the index buffer, offset by the vertex buffer's
    /// current length, so every appended index references one of this
    /// face's own vertices.
    pub fn extend_vertexes(&self, vertexes: &mut Vec<Vertex>, indexes: &mut Vec<u32>)
        requires
            old(vertexes)@.len() + 3 <= u32::MAX,
        ensures
            final(vertexes)@ == old(vertexes)@ + self.vertex_seq(),
            final(indexes)@ == old(indexes)@ + self.fan_indexes_spec(
                old(vertexes)@.len() as u32,
            ),
    {
        let index = vertexes.len() as u32;
        match self {
            FaceVertexes::Triangle(a, b, c) => {
                vertexes.push(*a);
                vertexes.push(*b);
                vertexes.push(*c);
                indexes.push(index);
                indexes.push(index + 1);
                indexes.push(index + 2);
                proof {
                    assert(vertexes@ =~= old(vertexes)@ + self.vertex_seq());
                    assert(indexes@ =~= old(indexes)@ + self.fan_indexes_spec(
                        old(vertexes)@.len() as u32,
                    ));
                }
            },
            FaceVertexes::Square(a, b, c, d) => {
                vertexes.push(*a);
                vertexes.push(*b);
                vertexes.push(*c);
                vertexes.push(*d);
                indexes.push(index);
                indexes.push(index + 1);
                indexes.push(index + 2);
                indexes.push(index);
                indexes.push(index + 2);
                indexes.push(index + 3);
                proof {
                    assert(vertexes@ =~= old(vertexes)@ + self.vertex_seq());
                    assert(indexes@ =~= old(indexes)@ + self.fan_indexes_spec(
                        old(vertexes)@.len() as u32,
                    ));
                }
            },
        }
    }
}


impl crate::error::Error for FaceError {
    open spec fn title_spec() -> Seq<char> {
        "Face Error"@
    }

    open spec fn case_spec(&self) -> Seq<char> {
        match self {
            FaceError::WrongVertexNumber(_) => "Wrong Vertex Number"@,
            FaceError::ArrayError => "Array Error"@,
            FaceError::OutOfRange(_, _) => "Out of Range"@,
            FaceError::IncorrectDataFormat => "Incorrect Data Format"@,
        }
    }

    open spec fn clarification_spec(&self) -> Option<Seq<char>> {
        match self {
            FaceError::WrongVertexNumber(f) => Some("at "@ + f.path_spec()),
            FaceError::OutOfRange(f, i) => Some(
                "at "@ + f.path_spec() + "["@ + crate::error::decimal_digits(*i as nat) + "]"@,
            ),
            _ => None,
        }
    }

    open spec fn advice_spec(&self) -> Option<Seq<char>> {
        None
    }

    fn title() -> (r: &'static str) {
        "Face Error"
    }

    fn case(&self) -> (r: &'static str) {
        match self {
            FaceError::WrongVertexNumber(_) => "Wrong Vertex Number",
            FaceError::ArrayError => "Array Error",
            FaceError::OutOfRange(_, _) => "Out of Range",
            FaceError::IncorrectDataFormat => "Incorrect Data Format",
        }
    }

    fn clarification(&self) -> (r: Option<String>) {
        match self {
            FaceError::WrongVertexNumber(f) => {
                let mut s = String::from_str("at ");
                s.append(f.path());
                proof {
                    assert(s@ =~= "at "@ + f.path_spec());
                }
                Some(s)
            },
            FaceError::OutOfRange(f, i) => {
                let mut s = String::from_str("at ");
                s.append(f.path());
                s.append("[");
                let d = crate::error::decimal(*i);
                s.append(d.as_str());
                s.append("]");
                proof {
                    assert(s@ =~= "at "@ + f.path_spec() + "["@ + crate::error::decimal_digits(
                        *i as nat,
                    ) + "]"@);
                }
                Some(s)
            },
            _ => None,
        }
    }

    fn advice(&self) -> (r: Option<String>) {
        None
    }
}

/// A renderable face: its vertices, the world directions it is in contact
/// with (for culling between neighbouring tiles), and its texture layer.
#[derive(Copy, Clone, Debug, PartialEq)]
pub struct Face {
    pub vertexes: FaceVertexes,
    pub contact: Sides,
    pub layer: u32,
}

impl Face {
    /// Builds a face from a flat vertex list; a count other than three or
    /// four is a wrong-vertex-number error at the position field.
    pub fn new(vs: &[Vertex], contact: Sides, layer: u32) -> (r: Result<Face, FaceError>)
        ensures
            r == match FaceVertexes::from_slice_spec(vs@) {
                Some(fv) => Ok::<Face, FaceError>(Face { vertexes: fv, contact, layer }),
                None => Err::<Face, FaceError>(FaceError::WrongVertexNumber(FaceField::Pos)),
            },
    {
        match FaceVertexes::from_slice(vs) {
            Some(fv) => Ok(Face { vertexes: fv, contact, layer }),
            None => Err(FaceError::WrongVertexNumber(FaceField::Pos)),
        }
    }
}

} // verus!
