//! One visual state of a tile: a model handle, an orientation, and its
//! texture-layer handles.

use vstd::prelude::*;
use vstd::string::StringExecFns;
use crate::shell::Shell;
use crate::tile::TileField;

verus! {

/// What can go wrong assembling one state. The model and texture variants
/// wrap the inner loader's error with the referencing context preserved;
/// the others are structural.
#[derive(Debug, PartialEq)]
pub enum StateError<M, T> {
    /// The model loader failed for this state's model path.
    ModelError(M),
    /// The texture loader failed for one of this state's layers.
    TextureError(T),
    /// A transform token was not a canonical action form.
    TransformError,
    /// The state declares no layers field.
    NoLayerDefined,
    /// The state declares no model field.
    NoModelDefined,
    /// A declared index escapes its path list; names the field and index.
    OutOfRange(TileField, usize),
}


impl<M, T> crate::error::Error for StateError<M, T> {
    open spec fn title_spec() -> Seq<char> {
        "State Error"@
    }

    open spec fn case_spec(&self) -> Seq<char> {
        match self {
            StateError::ModelError(_) => "Model Error"@,
            StateError::TextureError(_) => "Texture Error"@,
            StateError::TransformError => "Transform Error"@,
            StateError::NoLayerDefined => "No Layer Defined"@,
            StateError::NoModelDefined => "No Model Defined"@,
            StateError::OutOfRange(_, _) => "Out Of Range"@,
        }
    }

    open spec fn clarification_spec(&self) -> Option<Seq<char>> {
        match self {
            StateError::OutOfRange(f, i) => Some(
                "at "@ + f.path_spec() + "["@ + crate::error::decimal_digits(*i as nat) + "]"@,
            ),
            _ => None,
        }
    }

    open spec fn advice_spec(&self) -> Option<Seq<char>> {
        None
    }

    fn title() -> (r: &'static str) {
        "State Error"
    }

    fn case(&self) -> (r: &'static str) {
        match self {
            StateError::ModelError(_) => "Model Error",
            StateError::TextureError(_) => "Texture Error",
            StateError::TransformError => "Transform Error",
            StateError::NoLayerDefined => "No Layer Defined",
            StateError::NoModelDefined => "No Model Defined",
            StateError::OutOfRange(_, _) => "Out Of Range",
        }
    }

    fn clarification(&self) -> (r: Option<String>) {
        match self {
            StateError::OutOfRange(f, i) => {
                let mut s = String::from_str("at ");
                s.append(f.path());
                s.append("[");
                let d = crate::error::decimal(*i);
                s.append(d.as_str());
                s.append("]");
                proof {
                    assert(s@ =~= "at "@ + f.path_spec() + "["@ + crate::error::decimal_digits(
                        *i as nat,
                    ) + "]"@);
                }
                Some(s)
            },
            _ => None,
        }
    }

    fn advice(&self) -> (r: Option<String>) {
        None
    }
}

/// One assembled state: which model it shows, under which orientation, and
/// which texture layer each rendered layer uses. The handles index the
/// shared caches the state was assembled through.
#[derive(Debug, PartialEq)]
pub struct State {
    pub model: usize,
    pub shell: Shell,
    pub layers: Vec<u32>,
}

} // verus!
