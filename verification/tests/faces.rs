use tilepipe::error::ErrorFormatter;
use tilepipe::state::StateError;
use tilepipe::tile::{TileError, TileField};
use tilepipe::face::{Face, FaceError, FaceField, FaceVertexes};
use tilepipe::model::Model;
use tilepipe::sides::Sides;
use tilepipe::vertex::{Real, Vec2r, Vec3r, Vertex};

fn v() -> Vertex {
    Vertex {
        pos: Vec3r { x: Real(0), y: Real(0), z: Real(0) },
        st: Vec2r { s: Real(0), t: Real(0) },
        norm: Vec3r { x: Real(0), y: Real((1.0f64).to_bits()), z: Real(0) },
    }
}

#[test]
fn extend_vertexes() {
    let mut vertexes = Vec::new();
    let mut indexes = Vec::new();

    let t = FaceVertexes::Triangle(v(), v(), v());
    let s = FaceVertexes::Square(v(), v(), v(), v());

    t.extend_vertexes(&mut vertexes, &mut indexes);

    assert_eq!(vertexes.len(), 3);
    assert_eq!(indexes.len(), 3);
    assert_eq!(indexes[0..=2], [0, 1, 2]);

    s.extend_vertexes(&mut vertexes, &mut indexes);

    assert_eq!(vertexes.len(), 7);
    assert_eq!(indexes.len(), 9);
    assert_eq!(indexes[3..=8], [3, 4, 5, 3, 5, 6]);
}

#[test]
fn face_from_slice() {
    assert_eq!(FaceVertexes::from_slice(&[v(), v(), v()]), Some(FaceVertexes::Triangle(v(), v(), v())));
    assert_eq!(
        FaceVertexes::from_slice(&[v(), v(), v(), v()]),
        Some(FaceVertexes::Square(v(), v(), v(), v()))
    );
    assert_eq!(FaceVertexes::from_slice(&[v(), v()]), None);
    assert_eq!(FaceVertexes::from_slice(&[]), None);
    assert_eq!(FaceVertexes::from_slice(&[v(); 5]), None);
}

#[test]
fn face_new_checks_count() {
    let ok = Face::new(&[v(), v(), v()], Sides::empty(), 1).unwrap();
    assert_eq!(ok.layer, 1);
    let err = Face::new(&[v(), v()], Sides::empty(), 0);
    assert_eq!(err, Err(FaceError::WrongVertexNumber(FaceField::Pos)));
}

#[test]
fn mesh_buffers() {
    let m = Model {
        faces: vec![
            Face { vertexes: FaceVertexes::Triangle(v(), v(), v()), contact: Sides::empty(), layer: 0 },
            Face {
                vertexes: FaceVertexes::Square(v(), v(), v(), v()),
                contact: Sides::empty(),
                layer: 0,
            },
        ],
        full_sides: Sides::empty(),
    };
    let (verts, idx) = m.get_indexed_vertexes();
    assert_eq!(verts.len(), 7);
    assert_eq!(idx, vec![0, 1, 2, 3, 4, 5, 3, 5, 6]);
}

#[test]
fn mesh_indices_stay_in_the_vertex_buffer() {
    // a square before another face: the second face's fan base is the
    // vertex count, so every index references a vertex
    let m = Model {
        faces: vec![
            Face {
                vertexes: FaceVertexes::Square(v(), v(), v(), v()),
                contact: Sides::empty(),
                layer: 0,
            },
            Face { vertexes: FaceVertexes::Triangle(v(), v(), v()), contact: Sides::empty(), layer: 0 },
        ],
        full_sides: Sides::empty(),
    };
    let (verts, idx) = m.get_indexed_vertexes();
    assert_eq!(verts.len(), 7);
    assert_eq!(idx, vec![0, 1, 2, 0, 2, 3, 4, 5, 6]);
    assert!(idx.iter().all(|i| (*i as usize) < verts.len()));
}

#[test]
fn error_text() {
    let e = FaceError::OutOfRange(FaceField::Pos, 12);
    assert_eq!(ErrorFormatter(&e).to_text(), "Face Error: Out of Range (at pos[12])");

    let e = FaceError::WrongVertexNumber(FaceField::DataSt);
    assert_eq!(ErrorFormatter(&e).to_text(), "Face Error: Wrong Vertex Number (at data.st)");

    let e = FaceError::IncorrectDataFormat;
    assert_eq!(ErrorFormatter(&e).to_text(), "Face Error: Incorrect Data Format");
}

#[test]
fn state_error_text() {
    let e: StateError<(), ()> = StateError::OutOfRange(TileField::Textures, 0);
    assert_eq!(ErrorFormatter(&e).to_text(), "State Error: Out Of Range (at textures[0])");

    let e: TileError<(), ()> = TileError::NoStates;
    assert_eq!(ErrorFormatter(&e).to_text(), "Tile Error: No States");

    let e: TileError<(), ()> = TileError::StateError(StateError::OutOfRange(TileField::Models, 120));
    assert_eq!(ErrorFormatter(&e).to_text(), "Tile Error: Out Of Range (at models[120])");
}

#[test]
fn field_paths() {
    assert_eq!(FaceField::Pos.path(), "pos");
    assert_eq!(FaceField::DataNorm.path(), "data.norm");
    assert_eq!(TileField::Models.path(), "models");
    assert_eq!(TileField::Textures.path(), "textures");
    assert_eq!(TileField::States.path(), "states");
}
