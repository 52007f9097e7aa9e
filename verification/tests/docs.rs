use tilepipe::face::{Face, FaceError, FaceField, FaceVertexes};
use tilepipe::load::Load;
use tilepipe::shell::{apply_actions, Shell, ShellTransformAction};
use tilepipe::model::{convert_face, convert_model, DataDoc, FaceDoc, Model, ModelDoc, ModelError};
use tilepipe::parse::{parse_code, VecError};
use tilepipe::resource::Resource;
use tilepipe::sides::{Side, Sides};
use tilepipe::state::{State, StateError};
use tilepipe::tile::{convert_tile, StateDoc, Tile, TileDoc, TileError, TileField};
use tilepipe::node::YamlError;
use tilepipe::point::Point;
use tilepipe::vertex::{Real, Vec1r, Vec2r, Vec3r, Vec4r, Vertex};

fn r(x: f64) -> Real {
    Real(x.to_bits())
}

fn v3(x: f64, y: f64, z: f64) -> Vec3r {
    Vec3r { x: r(x), y: r(y), z: r(z) }
}

fn v2(s: f64, t: f64) -> Vec2r {
    Vec2r { s: r(s), t: r(t) }
}

/// The numeric collaborator the conversion is handed: the unit normal of a
/// triangle, computed by the maths library.
fn glm_normal(a: Vec3r, b: Vec3r, c: Vec3r) -> Vec3r {
    let p = |v: Vec3r| nalgebra_glm::DVec3::new(
        f64::from_bits(v.x.0),
        f64::from_bits(v.y.0),
        f64::from_bits(v.z.0),
    );
    let n = nalgebra_glm::normalize(&nalgebra_glm::cross(&(p(b) - p(a)), &(p(c) - p(a))));
    Vec3r { x: Real(n.x.to_bits()), y: Real(n.y.to_bits()), z: Real(n.z.to_bits()) }
}

#[test]
fn model_deserialize_empty() {
    let code = "{}";
    let model: ModelDoc = parse_code(code).unwrap();

    assert_eq!(
        model,
        ModelDoc { pos: None, st: None, norm: None, faces: None, full_sides: None }
    );
}

#[test]
fn model_deserialize() {
    let code = r#"
    pos:
      - [ 1.0, 0.5, 1.0 ]
      - [ 1.0, 0.0, 1.0 ]
    st:
      - [ 0.0, 1.0 ]
      - [ 0.0, 0.0 ]
    norm: [[ 1.0, 0.0, 0.0 ]]
    faces:
      - data:
            pos: [ 0, 1, 0 ]
            st: [ 0, 1, 1 ]
            norm: 0

      - pos:
          - [ 1.0, 0.0, -1.0 ]
          - [ 1.0, 0.0, 1.0 ]
          - [ 1.0, 0.0, 1.0 ]
          - [ 1.0, 0.0, -1.0 ]
        st:
          - [ 0, 1 ]
          - [ 0, 0 ]
          - [ 1, 0 ]
          - [ 1, 1 ]
        norm: [ 0, 1, 0 ]
        layer: 6
        contact: lr

      - pos:
          - [ 1.0, 0.0, -1.0 ]
          - [ 1.0, 0.0, 1.0 ]
          - [ 1.0, 0.0, 1.0 ]
        st:
          - [ 0, 1 ]
          - [ 0, 0 ]
          - [ 1, 0 ]
        norm: [ 0, 0, 1 ]
        layer: 5
        contact: fb
    full_sides: ud
    "#;

    let model: ModelDoc = parse_code(code).unwrap();

    assert_eq!(
        model,
        ModelDoc {
            pos: Some(vec![v3(1.0, 0.5, 1.0), v3(1.0, 0.0, 1.0)]),
            st: Some(vec![v2(0.0, 1.0), v2(0.0, 0.0)]),
            norm: Some(vec![v3(1.0, 0.0, 0.0)]),
            faces: Some(vec![
                FaceDoc {
                    pos: None,
                    st: None,
                    norm: None,
                    layer: None,
                    contact: None,
                    data: Some(DataDoc {
                        pos: Some(vec![0, 1, 0]),
                        st: Some(vec![0, 1, 1]),
                        norm: Some(0),
                    }),
                },
                FaceDoc {
                    pos: Some(vec![
                        v3(1.0, 0.0, -1.0),
                        v3(1.0, 0.0, 1.0),
                        v3(1.0, 0.0, 1.0),
                        v3(1.0, 0.0, -1.0),
                    ]),
                    st: Some(vec![v2(0.0, 1.0), v2(0.0, 0.0), v2(1.0, 0.0), v2(1.0, 1.0)]),
                    norm: Some(v3(0.0, 1.0, 0.0)),
                    layer: Some(6),
                    contact: Some("lr".to_owned()),
                    data: None,
                },
                FaceDoc {
                    pos: Some(vec![v3(1.0, 0.0, -1.0), v3(1.0, 0.0, 1.0), v3(1.0, 0.0, 1.0)]),
                    st: Some(vec![v2(0.0, 1.0), v2(0.0, 0.0), v2(1.0, 0.0)]),
                    norm: Some(v3(0.0, 0.0, 1.0)),
                    layer: Some(5),
                    contact: Some("fb".to_owned()),
                    data: None,
                },
            ]),
            full_sides: Some("ud".to_owned()),
        }
    );
}

#[test]
fn tile_deserialize_empty() {
    let code = "{}";
    let tile: TileDoc = parse_code(code).unwrap();

    assert_eq!(tile, TileDoc { models: None, textures: None, states: None });
}

#[test]
fn tile_deserialize() {
    let code = r#"
    models:
    -   m1.yml
    -   m2.yml
    textures:
    -   1.png
    -   2.png
    -   3.png
    states:
    -   model: 1
        layers: [ 1, 1, 1 ]
        transform:
            -   flip_x
            -   turn_y
            -   turn_-z
    -   model: 2
    "#;

    let tile: TileDoc = parse_code(code).unwrap();

    assert_eq!(
        tile,
        TileDoc {
            models: Some(vec!["m1.yml".to_owned(), "m2.yml".to_owned()]),
            textures: Some(vec!["1.png".to_owned(), "2.png".to_owned(), "3.png".to_owned()]),
            states: Some(vec![
                StateDoc {
                    model: Some(1),
                    layers: Some(vec![1, 1, 1]),
                    transform: Some(vec![
                        "flip_x".to_owned(),
                        "turn_y".to_owned(),
                        "turn_-z".to_owned(),
                    ]),
                },
                StateDoc { model: Some(2), layers: None, transform: None },
            ]),
        }
    );
}

#[test]
fn convert_empty() {
    let model = ModelDoc { pos: None, st: None, norm: None, faces: None, full_sides: None };

    let expected = Model { faces: vec![], full_sides: Sides::empty() };

    assert_eq!(convert_model(model, glm_normal), Ok(expected));
}

#[test]
fn convert_err() {
    let model = ModelDoc {
        pos: Some(vec![v3(0.0, 1.0, 2.0)]),
        st: Some(vec![v2(0.0, 1.0)]),
        norm: Some(vec![v3(0.0, 1.0, 0.0)]),
        faces: Some(vec![FaceDoc {
            pos: None,
            st: None,
            norm: None,
            layer: None,
            contact: None,
            data: Some(DataDoc {
                pos: Some(vec![1, 1, 1]),
                st: Some(vec![0, 0, 0]),
                norm: Some(0),
            }),
        }]),
        full_sides: None,
    };

    let err = ModelError::FaceError(FaceError::OutOfRange(FaceField::Pos, 1));
    assert_eq!(convert_model(model, glm_normal), Err(err));

    let model = ModelDoc {
        pos: None,
        st: None,
        norm: None,
        faces: Some(vec![FaceDoc {
            pos: Some(vec![v3(0.0, 1.0, 0.0)]),
            st: None,
            norm: None,
            layer: None,
            contact: None,
            data: Some(DataDoc {
                pos: Some(vec![1, 1, 1]),
                st: Some(vec![0, 0, 0]),
                norm: Some(0),
            }),
        }]),
        full_sides: None,
    };

    let err = ModelError::FaceError(FaceError::IncorrectDataFormat);
    assert_eq!(convert_model(model, glm_normal), Err(err));
}

#[test]
fn model_convert() {
    let model = ModelDoc {
        pos: Some(vec![v3(0.0, 1.0, 2.0), v3(1.0, 1.0, 0.0), v3(2.0, 1.0, 0.0)]),
        st: Some(vec![v2(0.0, 1.0), v2(0.0, 0.0), v2(1.0, 0.0)]),
        norm: Some(vec![v3(0.0, 1.0, 0.0), v3(0.0, -1.0, 0.0)]),
        faces: Some(vec![
            FaceDoc {
                pos: None,
                st: None,
                norm: None,
                layer: None,
                contact: None,
                data: Some(DataDoc {
                    pos: Some(vec![0, 1, 2]),
                    st: Some(vec![0, 1, 2]),
                    norm: Some(0),
                }),
            },
            FaceDoc {
                pos: None,
                st: None,
                norm: None,
                layer: Some(2),
                contact: None,
                data: Some(DataDoc {
                    pos: Some(vec![1, 0, 1, 0]),
                    st: Some(vec![1, 0, 1, 0]),
                    norm: Some(1),
                }),
            },
            FaceDoc {
                pos: Some(vec![
                    v3(1.0, 0.0, 0.0),
                    v3(0.0, 1.0, 0.0),
                    v3(0.0, 0.0, 1.0),
                    v3(0.0, 0.0, 0.0),
                ]),
                st: Some(vec![v2(0.0, 0.0), v2(0.0, 1.0), v2(1.0, 1.0), v2(1.0, 0.0)]),
                norm: Some(v3(0.0, 0.0, 1.0)),
                layer: None,
                contact: Some("ud".to_owned()),
                data: None,
            },
        ]),
        full_sides: Some(".".to_owned()),
    };

    let n0 = v3(0.0, 1.0, 0.0);
    let n1 = v3(0.0, -1.0, 0.0);
    let n2 = v3(0.0, 0.0, 1.0);

    let expected = Model {
        faces: vec![
            Face {
                vertexes: FaceVertexes::Triangle(
                    Vertex { pos: v3(0.0, 1.0, 2.0), st: v2(0.0, 1.0), norm: n0 },
                    Vertex { pos: v3(1.0, 1.0, 0.0), st: v2(0.0, 0.0), norm: n0 },
                    Vertex { pos: v3(2.0, 1.0, 0.0), st: v2(1.0, 0.0), norm: n0 },
                ),
                contact: Sides::empty(),
                layer: 0,
            },
            Face {
                vertexes: FaceVertexes::Square(
                    Vertex { pos: v3(1.0, 1.0, 0.0), st: v2(0.0, 0.0), norm: n1 },
                    Vertex { pos: v3(0.0, 1.0, 2.0), st: v2(0.0, 1.0), norm: n1 },
                    Vertex { pos: v3(1.0, 1.0, 0.0), st: v2(0.0, 0.0), norm: n1 },
                    Vertex { pos: v3(0.0, 1.0, 2.0), st: v2(0.0, 1.0), norm: n1 },
                ),
                contact: Sides::empty(),
                layer: 2,
            },
            Face {
                vertexes: FaceVertexes::Square(
                    Vertex { pos: v3(1.0, 0.0, 0.0), st: v2(0.0, 0.0), norm: n2 },
                    Vertex { pos: v3(0.0, 1.0, 0.0), st: v2(0.0, 1.0), norm: n2 },
                    Vertex { pos: v3(0.0, 0.0, 1.0), st: v2(1.0, 1.0), norm: n2 },
                    Vertex { pos: v3(0.0, 0.0, 0.0), st: v2(1.0, 0.0), norm: n2 },
                ),
                contact: Sides::from(Side::Up).union(Sides::from(Side::Down)),
                layer: 0,
            },
        ],
        full_sides: Sides::all(),
    };

    assert_eq!(convert_model(model, glm_normal), Ok(expected));
}

#[test]
fn data_norm_out_of_range_names_the_field() {
    let model = ModelDoc {
        pos: Some(vec![v3(0.0, 0.0, 0.0), v3(1.0, 0.0, 0.0), v3(0.0, 1.0, 0.0)]),
        st: Some(vec![v2(0.0, 0.0), v2(1.0, 0.0), v2(0.0, 1.0)]),
        norm: Some(vec![v3(0.0, 1.0, 0.0)]),
        faces: Some(vec![FaceDoc {
            pos: None,
            st: None,
            norm: None,
            layer: None,
            contact: None,
            data: Some(DataDoc {
                pos: Some(vec![0, 1, 2]),
                st: Some(vec![0, 1, 2]),
                norm: Some(9),
            }),
        }]),
        full_sides: None,
    };

    let err = ModelError::FaceError(FaceError::OutOfRange(FaceField::DataNorm, 9));
    assert_eq!(convert_model(model, glm_normal), Err(err));
}

#[test]
fn inferred_normal_is_plane_normal() {
    let model = ModelDoc {
        pos: Some(vec![v3(0.0, 0.0, 0.0), v3(1.0, 0.0, 0.0), v3(0.0, 1.0, 0.0)]),
        st: Some(vec![v2(0.0, 0.0), v2(1.0, 0.0), v2(0.0, 1.0)]),
        norm: None,
        faces: Some(vec![FaceDoc {
            pos: None,
            st: None,
            norm: None,
            layer: None,
            contact: None,
            data: Some(DataDoc { pos: Some(vec![0, 1, 2]), st: Some(vec![0, 1, 2]), norm: None }),
        }]),
        full_sides: None,
    };

    let m = convert_model(model, glm_normal).unwrap();
    match m.faces[0].vertexes {
        FaceVertexes::Triangle(a, b, c) => {
            let expected = v3(0.0, 0.0, 1.0);
            assert_eq!(a.norm, expected);
            assert_eq!(b.norm, expected);
            assert_eq!(c.norm, expected);
        },
        _ => panic!("three vertices make a triangle"),
    }
}

struct ModelStub;

impl Load for ModelStub {
    type Error = ();

    type Loader = ();

    fn load(_file: &str, _: &mut ()) -> Result<Self, ()> {
        Ok(ModelStub)
    }
}

struct TextureStub;

impl Load for TextureStub {
    type Error = ();

    type Loader = ();

    fn load(_file: &str, _: &mut ()) -> Result<Self, ()> {
        Ok(TextureStub)
    }
}

fn shell(actions: &[&str]) -> Shell {
    let acts: Vec<ShellTransformAction> =
        actions.iter().map(|t| ShellTransformAction::from_text(t).unwrap()).collect();
    apply_actions(Shell::new(), &acts)
}

#[test]
fn tile_convert() {
    let tile = TileDoc {
        models: Some(vec!["m1".to_owned(), "m2".to_owned(), "m3".to_owned()]),
        textures: Some(vec!["t1".to_owned(), "t2".to_owned(), "t1".to_owned()]),
        states: Some(vec![
            StateDoc {
                model: Some(1),
                layers: Some(vec![1, 1]),
                transform: Some(vec!["turn_x".to_owned()]),
            },
            StateDoc {
                model: Some(0),
                layers: Some(vec![0, 1]),
                transform: Some(vec!["flip_x".to_owned()]),
            },
            StateDoc {
                model: Some(2),
                layers: Some(vec![2, 2]),
                transform: Some(vec!["turn_-z".to_owned()]),
            },
        ]),
    };

    let expected = Tile {
        states: vec![
            State { model: 0, shell: shell(&["turn_x"]), layers: vec![0, 0] },
            State { model: 1, shell: shell(&["flip_x"]), layers: vec![1, 0] },
            State { model: 2, shell: shell(&["turn_-z"]), layers: vec![1, 1] },
        ],
        id: 0,
    };

    let mut model_loader: Resource<ModelStub> = Resource::new();
    let mut texture_loader: Resource<TextureStub> = Resource::new();

    assert_eq!(convert_tile(tile, &mut model_loader, &mut texture_loader), Ok(expected));
}

#[test]
fn tile_without_states_is_refused() {
    let tile = TileDoc {
        models: Some(vec!["m1".to_owned()]),
        textures: None,
        states: Some(vec![]),
    };
    let mut mc: Resource<ModelStub> = Resource::new();
    let mut tc: Resource<TextureStub> = Resource::new();
    assert_eq!(convert_tile(tile, &mut mc, &mut tc), Err(TileError::NoStates));
}

#[test]
fn state_without_layers_is_refused() {
    let tile = TileDoc {
        models: Some(vec!["m1".to_owned()]),
        textures: Some(vec!["t1".to_owned()]),
        states: Some(vec![StateDoc { model: Some(0), layers: None, transform: None }]),
    };
    let mut mc: Resource<ModelStub> = Resource::new();
    let mut tc: Resource<TextureStub> = Resource::new();
    assert_eq!(
        convert_tile(tile, &mut mc, &mut tc),
        Err(TileError::StateError(StateError::NoLayerDefined))
    );
}

#[test]
fn state_without_model_is_refused() {
    let tile = TileDoc {
        models: Some(vec!["m1".to_owned()]),
        textures: Some(vec!["t1".to_owned()]),
        states: Some(vec![StateDoc { model: None, layers: Some(vec![0]), transform: None }]),
    };
    let mut mc: Resource<ModelStub> = Resource::new();
    let mut tc: Resource<TextureStub> = Resource::new();
    assert_eq!(
        convert_tile(tile, &mut mc, &mut tc),
        Err(TileError::StateError(StateError::NoModelDefined))
    );
}

#[test]
fn model_index_out_of_range_names_models() {
    let tile = TileDoc {
        models: Some(vec!["m1".to_owned()]),
        textures: Some(vec!["t1".to_owned()]),
        states: Some(vec![StateDoc { model: Some(3), layers: Some(vec![0]), transform: None }]),
    };
    let mut mc: Resource<ModelStub> = Resource::new();
    let mut tc: Resource<TextureStub> = Resource::new();
    assert_eq!(
        convert_tile(tile, &mut mc, &mut tc),
        Err(TileError::StateError(StateError::OutOfRange(TileField::Models, 3)))
    );
}

#[test]
fn layer_index_out_of_range_names_textures() {
    let tile = TileDoc {
        models: Some(vec!["m1".to_owned()]),
        textures: Some(vec!["t1".to_owned()]),
        states: Some(vec![StateDoc { model: Some(0), layers: Some(vec![0, 4]), transform: None }]),
    };
    let mut mc: Resource<ModelStub> = Resource::new();
    let mut tc: Resource<TextureStub> = Resource::new();
    assert_eq!(
        convert_tile(tile, &mut mc, &mut tc),
        Err(TileError::StateError(StateError::OutOfRange(TileField::Textures, 4)))
    );
}

#[test]
fn bad_transform_token_is_refused() {
    let tile = TileDoc {
        models: Some(vec!["m1".to_owned()]),
        textures: Some(vec!["t1".to_owned()]),
        states: Some(vec![StateDoc {
            model: Some(0),
            layers: Some(vec![0]),
            transform: Some(vec!["wwww_x".to_owned()]),
        }]),
    };
    let mut mc: Resource<ModelStub> = Resource::new();
    let mut tc: Resource<TextureStub> = Resource::new();
    assert_eq!(
        convert_tile(tile, &mut mc, &mut tc),
        Err(TileError::StateError(StateError::TransformError))
    );
}

#[test]
fn shared_cache_deduplicates_across_states() {
    let tile = TileDoc {
        models: Some(vec!["same.yml".to_owned()]),
        textures: Some(vec!["t1".to_owned()]),
        states: Some(vec![
            StateDoc { model: Some(0), layers: Some(vec![0]), transform: None },
            StateDoc { model: Some(0), layers: Some(vec![0]), transform: None },
        ]),
    };
    let mut mc: Resource<ModelStub> = Resource::new();
    let mut tc: Resource<TextureStub> = Resource::new();
    let t = convert_tile(tile, &mut mc, &mut tc).unwrap();
    assert_eq!(t.states[0].model, t.states[1].model);
    // one cache entry per distinct path: the loader ran once for the model
    assert_eq!(mc.len(), 1);
    assert_eq!(tc.len(), 1);
}

#[test]
fn face_parse() {
    let code = r#"
    pos:
      - [ -0.5, 0.5, -0.5 ]
      - [ -0.5, 0.5, 0.5 ]
      - [ 0.5, 0.5, 0.5 ]
      - [ 0.5, 0.5, -0.5 ]

    st:
      - [ 0, 1 ]
      - [ 0, 0 ]
      - [ 1, 0 ]
      - [ 1, 1 ]

    norm: [ 0, 1, 0 ]
    layer: 12
    contact: .
    "#;

    let doc: FaceDoc = parse_code(code).unwrap();
    let a = convert_face(&doc, &Vec::new(), &Vec::new(), &Vec::new(), glm_normal).unwrap();

    let n = v3(0.0, 1.0, 0.0);
    let b = Face {
        vertexes: FaceVertexes::Square(
            Vertex { pos: v3(-0.5, 0.5, -0.5), st: v2(0.0, 1.0), norm: n },
            Vertex { pos: v3(-0.5, 0.5, 0.5), st: v2(0.0, 0.0), norm: n },
            Vertex { pos: v3(0.5, 0.5, 0.5), st: v2(1.0, 0.0), norm: n },
            Vertex { pos: v3(0.5, 0.5, -0.5), st: v2(1.0, 1.0), norm: n },
        ),
        contact: Sides::all(),
        layer: 12,
    };

    assert_eq!(a, b);
}

#[test]
fn model_parse() {
    let code = r#"
    faces:
      - pos:
          - [ 1.0, 0.0, -1.0 ]
          - [ 1.0, 0.0, 1.0 ]
          - [ 1.0, 0.0, 1.0 ]
          - [ 1.0, 0.0, -1.0 ]

        st:
          - [ 0, 1 ]
          - [ 0, 0 ]
          - [ 1, 0 ]
          - [ 1, 1 ]

        norm: [ 0, 1, 0 ]
        layer: 6
        contact: lr

      - pos:
          - [ 1.0, 0.0, -1.0 ]
          - [ 1.0, 0.0, 1.0 ]
          - [ 1.0, 0.0, 1.0 ]

        st:
          - [ 0, 1 ]
          - [ 0, 0 ]
          - [ 1, 0 ]

        norm: [ 0, 1, 0 ]
        layer: 5
        contact: fb

    full_sides: ud
    "#;

    let doc: ModelDoc = parse_code(code).unwrap();
    let a = convert_model(doc, glm_normal).unwrap();

    let n = v3(0.0, 1.0, 0.0);
    let x = Vertex { pos: v3(1.0, 0.0, -1.0), st: v2(0.0, 1.0), norm: n };
    let y = Vertex { pos: v3(1.0, 0.0, 1.0), st: v2(0.0, 0.0), norm: n };
    let z = Vertex { pos: v3(1.0, 0.0, 1.0), st: v2(1.0, 0.0), norm: n };
    let w = Vertex { pos: v3(1.0, 0.0, -1.0), st: v2(1.0, 1.0), norm: n };

    let b = Model {
        faces: vec![
            Face {
                vertexes: FaceVertexes::Square(x, y, z, w),
                contact: Sides::from(Side::Left).union(Sides::from(Side::Right)),
                layer: 6,
            },
            Face {
                vertexes: FaceVertexes::Triangle(x, y, z),
                contact: Sides::from(Side::Front).union(Sides::from(Side::Back)),
                layer: 5,
            },
        ],
        full_sides: Sides::from(Side::Up).union(Sides::from(Side::Down)),
    };

    assert_eq!(a, b);
}

#[test]
fn fixed_length_vectors() {
    let a: Vec1r = parse_code("[2.5]").unwrap();
    assert_eq!(a, Vec1r { v: r(2.5) });
    assert_eq!(parse_code::<Vec1r>("[1, 2]"), Err(YamlError::DataError(VecError::Vec1)));

    let b: Vec4r = parse_code("[1, 2, 3, 4.5]").unwrap();
    assert_eq!(b, Vec4r { x: r(1.0), y: r(2.0), z: r(3.0), w: r(4.5) });
    assert_eq!(parse_code::<Vec4r>("[1, 2, 3]"), Err(YamlError::DataError(VecError::Vec4)));

    let c: Vec3r = parse_code("[1, 0, 0]").unwrap();
    assert_eq!(c, v3(1.0, 0.0, 0.0));
    assert_eq!(parse_code::<Vec2r>("[1]"), Err(YamlError::DataError(VecError::Vec2)));
    assert_eq!(parse_code::<Vec3r>("7"), Err(YamlError::DataError(VecError::Vec3)));
}

#[test]
fn point_parse() {
    let code = "{}";
    assert!(parse_code::<Point>(code).is_err());

    let code = "[0, 1]";
    assert!(parse_code::<Point>(code).is_err());

    let code = "[0, 1, 2, 3]";
    assert!(parse_code::<Point>(code).is_err());

    let code = "[0, 1.5, true]";
    assert!(parse_code::<Point>(code).is_err());

    let code = "[0, 2, -12]";
    let a: Point = parse_code(code).unwrap();
    let b = Point(0, 2, -12);

    assert_eq!(a, b);
}

#[test]
fn unscannable_text_is_a_scan_error() {
    let code = "a: [unclosed";
    let r = parse_code::<TileDoc>(code);
    assert!(matches!(r, Err(YamlError::ScanError(_))));
}

#[test]
fn two_documents_are_a_format_error() {
    let code = "---\na: 1\n---\nb: 2\n";
    let r = parse_code::<TileDoc>(code);
    assert_eq!(r, Err(YamlError::FormatError));
}
