//! The conversion capability: a domain type produced from its document
//! record through a loader context.

use vstd::prelude::*;
use crate::load::Load;
use crate::model::{
    convert_model, doc_faces, doc_norm, doc_pos, doc_st, faces_outcome, model_full_sides,
    normal_fn_ok, Model, ModelDoc, ModelError,
};
use crate::resource::{cache_extends, Resource};
use crate::state::StateError;
use crate::tile::{
    convert_tile, doc_models, doc_states, doc_textures, first_state_fault, is_static_fault,
    state_matches, tile_failed_at, tile_mc_paths, tile_tc_paths, Tile, TileDoc, TileError,
};
use crate::vertex::Vec3r;

verus! {

/// A type convertible from a document record `T` through a loader context
/// `L`. `ready` is what the conversion needs of its context, and the two
/// spec members fix — per implementation — what a conversion returns and
/// what it leaves of the context; `convert` is bound to them. The impls
/// delegate to the concrete conversion functions, which carry the same
/// statements.
pub trait ConvertFrom<T, L> where Self: Sized {
    type Error;

    spec fn ready(loader: L) -> bool;

    spec fn convert_ok_spec(from: T, pre: L, post: L, v: Self) -> bool;

    spec fn convert_err_spec(from: T, pre: L, post: L, e: Self::Error) -> bool;

    fn convert(from: T, loader: &mut L) -> (r: Result<Self, Self::Error>)
        requires
            Self::ready(*old(loader)),
        ensures
            match r {
                Ok(v) => Self::convert_ok_spec(from, *old(loader), *final(loader), v),
                Err(e) => Self::convert_err_spec(from, *old(loader), *final(loader), e),
            },
    ;
}

impl<F: Fn(Vec3r, Vec3r, Vec3r) -> Vec3r + Copy> ConvertFrom<ModelDoc, F> for Model {
    type Error = ModelError;

    open spec fn ready(loader: F) -> bool {
        normal_fn_ok(loader)
    }

    /// The model is exactly the faces outcome under the supplied normal
    /// function, which the conversion does not touch.
    open spec fn convert_ok_spec(from: ModelDoc, pre: F, post: F, m: Model) -> bool {
        &&& post == pre
        &&& faces_outcome(doc_faces(from), doc_pos(from), doc_st(from), doc_norm(from), pre)
            matches Ok(fs) && m.faces@ == fs
        &&& m.full_sides == model_full_sides(from)
    }

    open spec fn convert_err_spec(from: ModelDoc, pre: F, post: F, e: ModelError) -> bool {
        &&& post == pre
        &&& faces_outcome(doc_faces(from), doc_pos(from), doc_st(from), doc_norm(from), pre)
            matches Err(fe) && e == ModelError::FaceError(fe)
    }

    fn convert(from: ModelDoc, loader: &mut F) -> Result<Model, ModelError> {
        convert_model(from, *loader)
    }
}

impl<M: Load<Loader = ()>, T: Load<Loader = ()>> ConvertFrom<TileDoc, (Resource<M>, Resource<T>)>
    for Tile {
    type Error = TileError<M::Error, T::Error>;

    open spec fn ready(loader: (Resource<M>, Resource<T>)) -> bool {
        loader.0.wf() && loader.1.wf()
    }

    /// The tile's states match their records against the caches as left
    /// behind, whose path columns grew by exactly the referenced paths in
    /// reference order.
    open spec fn convert_ok_spec(
        from: TileDoc,
        pre: (Resource<M>, Resource<T>),
        post: (Resource<M>, Resource<T>),
        t: Tile,
    ) -> bool {
        &&& post.0.wf() && post.1.wf()
        &&& cache_extends(pre.0, post.0) && cache_extends(pre.1, post.1)
        &&& t.id == 0
        &&& t.wf()
        &&& t.states@.len() == doc_states(from).len()
        &&& forall|i: int|
            0 <= i < t.states@.len() ==> state_matches(
                doc_states(from)[i],
                #[trigger] t.states@[i],
                doc_models(from),
                doc_textures(from),
                post.0,
                post.1,
            )
        &&& first_state_fault::<M::Error, T::Error>(
            doc_states(from),
            doc_models(from).len() as int,
            doc_textures(from).len() as int,
        ) is None
        &&& post.0.paths() == tile_mc_paths(doc_states(from), doc_models(from), pre.0.paths())
        &&& post.1.paths() == tile_tc_paths(doc_states(from), doc_textures(from), pre.1.paths())
    }

    /// An empty state list is refused with nothing loaded; a failing state
    /// accounts for the error and the caches exactly.
    open spec fn convert_err_spec(
        from: TileDoc,
        pre: (Resource<M>, Resource<T>),
        post: (Resource<M>, Resource<T>),
        e: TileError<M::Error, T::Error>,
    ) -> bool {
        &&& post.0.wf() && post.1.wf()
        &&& cache_extends(pre.0, post.0) && cache_extends(pre.1, post.1)
        &&& match e {
            TileError::NoStates => doc_states(from).len() == 0 && post.0 == pre.0 && post.1
                == pre.1,
            TileError::StateError(se) => {
                &&& doc_states(from).len() > 0
                &&& tile_failed_at::<M::Error, T::Error>(
                    doc_states(from),
                    doc_models(from),
                    doc_textures(from),
                    pre.0.paths(),
                    pre.1.paths(),
                    post.0.paths(),
                    post.1.paths(),
                    se,
                )
                &&& (is_static_fault(se) ==> first_state_fault::<M::Error, T::Error>(
                    doc_states(from),
                    doc_models(from).len() as int,
                    doc_textures(from).len() as int,
                ) == Some(se))
            },
        }
    }

    fn convert(from: TileDoc, loader: &mut (Resource<M>, Resource<T>)) -> Result<
        Tile,
        TileError<M::Error, T::Error>,
    > {
        let (mc, tc) = loader;
        convert_tile(from, mc, tc)
    }
}

} // verus!
