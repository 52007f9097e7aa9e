//! Tiles: the top of the pipeline. A tile document declares model and
//! texture path lists and a non-empty list of states; each state is
//! assembled independently by resolving its model path, folding its
//! transform tokens into a fresh shell, and resolving and loading its
//! texture layers — all through the shared, deduplicating caches. A failed
//! state aborts the tile but keeps whatever the caches already loaded.

use vstd::prelude::*;
use crate::load::Load;
use crate::model::{absent, field, is_absent, is_list, opt_u32_list_ok, opt_u32_ok, parse_u32_list};
use crate::node::Node;
use crate::parse::Parse;
use crate::resource::{
    cache_extends, lemma_extends_keeps_index, lemma_load_extends, lemma_load_with_path,
    lemma_with_paths_snoc, seq_has_path, seq_path_index, with_path, with_paths, Resource,
};
use crate::shell::{
    apply_actions, apply_actions_spec, parse_actions, parse_actions_spec, Shell,
};
use crate::state::{State, StateError};

verus! {

/// The tile-level document fields an error can point at.
#[derive(Copy, Clone, Debug, Eq, PartialEq, Structural)]
pub enum TileField {
    Models,
    Textures,
    States,
}

impl TileField {
    /// The path of the field inside a tile record.
    pub open spec fn path_spec(self) -> Seq<char> {
        match self {
            TileField::Models => "models"@,
            TileField::Textures => "textures"@,
            TileField::States => "states"@,
        }
    }

    pub fn path(&self) -> (r: &'static str)
        ensures
            r@ == self.path_spec(),
    {
        match self {
            TileField::Models => "models",
            TileField::Textures => "textures",
            TileField::States => "states",
        }
    }
}

/// What can go wrong assembling a tile: a state failed, or there were no
/// states at all.
#[derive(Debug, PartialEq)]
pub enum TileError<M, T> {
    StateError(StateError<M, T>),
    NoStates,
}

impl<M, T> From<StateError<M, T>> for TileError<M, T> {
    fn from(err: StateError<M, T>) -> (r: TileError<M, T>) {
        TileError::StateError(err)
    }
}

impl<M, T> vstd::std_specs::convert::FromSpecImpl<StateError<M, T>> for TileError<M, T> {
    open spec fn obeys_from_spec() -> bool {
        true
    }

    open spec fn from_spec(err: StateError<M, T>) -> TileError<M, T> {
        TileError::StateError(err)
    }
}


impl<M, T> crate::error::Error for TileError<M, T> {
    open spec fn title_spec() -> Seq<char> {
        "Tile Error"@
    }

    open spec fn case_spec(&self) -> Seq<char> {
        match self {
            TileError::StateError(e) => e.case_spec(),
            TileError::NoStates => "No States"@,
        }
    }

    open spec fn clarification_spec(&self) -> Option<Seq<char>> {
        match self {
            TileError::StateError(e) => e.clarification_spec(),
            TileError::NoStates => None,
        }
    }

    open spec fn advice_spec(&self) -> Option<Seq<char>> {
        None
    }

    fn title() -> (r: &'static str) {
        "Tile Error"
    }

    fn case(&self) -> (r: &'static str) {
        match self {
            TileError::StateError(e) => e.case(),
            TileError::NoStates => "No States",
        }
    }

    fn clarification(&self) -> (r: Option<String>) {
        match self {
            TileError::StateError(e) => e.clarification(),
            TileError::NoStates => None,
        }
    }

    fn advice(&self) -> (r: Option<String>) {
        None
    }
}

/// A tile: its alternative visual states (at least one) and its id.
#[derive(Debug, PartialEq)]
pub struct Tile {
    pub states: Vec<State>,
    pub id: u32,
}

impl Tile {
    /// A tile always holds at least one state.
    pub open spec fn wf(self) -> bool {
        self.states@.len() > 0
    }

    /// The state a fresh tile presents: the first one.
    pub fn detect_state(&self) -> (r: &State)
        requires
            self.wf(),
        ensures
            *r == self.states@[0],
    {
        &self.states[0]
    }
}

// ---------------------------------------------------------------------------
// Document records.
// ---------------------------------------------------------------------------

/// One state record: a model index, layer indices, and transform tokens.
#[derive(Debug, PartialEq)]
pub struct StateDoc {
    pub model: Option<u32>,
    pub layers: Option<Vec<u32>>,
    pub transform: Option<Vec<String>>,
}

/// A tile document: path lists and state records.
#[derive(Debug, PartialEq)]
pub struct TileDoc {
    pub models: Option<Vec<String>>,
    pub textures: Option<Vec<String>>,
    pub states: Option<Vec<StateDoc>>,
}

/// The text a node holds (empty for any other shape).
pub open spec fn text_of(n: Node) -> Seq<char> {
    match n {
        Node::Text(s) => s@,
        _ => Seq::empty(),
    }
}

/// Every element is a text node.
pub open spec fn all_texts(items: Seq<Node>) -> bool {
    forall|i: int| 0 <= i < items.len() ==> (#[trigger] items[i]) is Text
}

/// A sequence node of text nodes.
pub open spec fn is_text_list(n: Node) -> bool {
    n matches Node::List(items) && all_texts(items@)
}

/// The texts a list node holds.
pub open spec fn texts_of_list(n: Node) -> Seq<Seq<char>> {
    match n {
        Node::List(items) => Seq::new(items@.len(), |i: int| text_of(items@[i])),
        _ => Seq::empty(),
    }
}

/// An optional field of texts.
pub open spec fn opt_texts_ok(n: Node, v: Option<Vec<String>>) -> bool {
    match v {
        None => absent(n),
        Some(vec) => is_text_list(n) && vec.deep_view() == texts_of_list(n),
    }
}

fn parse_text_list(n: &Node) -> (r: Result<Vec<String>, ()>)
    ensures
        r matches Ok(v) ==> is_text_list(*n) && v.deep_view() == texts_of_list(*n),
        r is Err <==> !is_text_list(*n),
{
    match n {
        Node::List(items) => {
            let m = items.len();
            let mut out: Vec<String> = Vec::new();
            let mut i: usize = 0;
            while i < m
                invariant
                    *n == Node::List(*items),
                    m == items@.len(),
                    i <= m,
                    out@.len() == i,
                    forall|j: int| 0 <= j < i ==> (#[trigger] items@[j]) is Text,
                    forall|j: int| 0 <= j < i ==> #[trigger] out@[j]@ == text_of(items@[j]),
                decreases m - i,
            {
                match &items[i] {
                    Node::Text(s) => {
                        out.push(s.clone());
                    },
                    _ => {
                        proof {
                            assert(!all_texts(items@)) by {
                                if all_texts(items@) {
                                    assert(items@[i as int] is Text);
                                }
                            }
                        }
                        return Err(());
                    },
                }
                i += 1;
            }
            proof {
                assert(all_texts(items@));
                assert(out.deep_view() =~= texts_of_list(*n));
            }
            Ok(out)
        },
        _ => Err(()),
    }
}

/// The shape a state record must have.
pub open spec fn state_doc_shape(node: Node) -> bool {
    &&& node matches Node::Hash(_)
    &&& absent(node.field_spec("layers"@)) || is_list(node.field_spec("layers"@))
    &&& absent(node.field_spec("transform"@)) || is_text_list(node.field_spec("transform"@))
}

/// The record a well-shaped state node denotes.
pub open spec fn state_doc_ok(node: Node, v: StateDoc) -> bool {
    &&& state_doc_shape(node)
    &&& opt_u32_ok(node.field_spec("model"@), v.model)
    &&& opt_u32_list_ok(node.field_spec("layers"@), v.layers)
    &&& opt_texts_ok(node.field_spec("transform"@), v.transform)
}

impl Parse for StateDoc {
    type DataError = ();

    open spec fn parse_ok_spec(node: Node, v: StateDoc) -> bool {
        state_doc_ok(node, v)
    }

    open spec fn parse_err_spec(node: Node, e: ()) -> bool {
        !state_doc_shape(node)
    }

    proof fn lemma_parse_exclusive(node: Node, v: StateDoc, e: ()) {
    }

    fn parse(node: &Node) -> (r: Result<StateDoc, ()>) {
        if !(matches!(node, Node::Hash(_))) {
            return Err(());
        }
        let model = match field(node, "model") {
            Some(nd) if !is_absent(nd) => match nd {
                Node::Int(x) => Some(#[verifier::truncate] (*x as u32)),
                _ => Some(0),
            },
            _ => None,
        };
        let layers = match field(node, "layers") {
            Some(nd) if !is_absent(nd) => match parse_u32_list(nd) {
                Ok(v) => Some(v),
                Err(_) => {
                    return Err(());
                },
            },
            _ => None,
        };
        let transform = match field(node, "transform") {
            Some(nd) if !is_absent(nd) => match parse_text_list(nd) {
                Ok(v) => Some(v),
                Err(_) => {
                    return Err(());
                },
            },
            _ => None,
        };
        Ok(StateDoc { model, layers, transform })
    }
}

/// Every element is a well-shaped state record.
pub open spec fn all_state_shapes(items: Seq<Node>) -> bool {
    forall|i: int| 0 <= i < items.len() ==> state_doc_shape(#[trigger] items[i])
}

/// The state records a sequence of state nodes denotes.
pub open spec fn states_ok_seq(items: Seq<Node>, ss: Seq<StateDoc>) -> bool {
    ss.len() == items.len() && (forall|i: int|
        0 <= i < items.len() ==> state_doc_ok(items[i], #[trigger] ss[i]))
}

/// The shape a tile document must have.
pub open spec fn tile_doc_shape(node: Node) -> bool {
    &&& node matches Node::Hash(_)
    &&& absent(node.field_spec("models"@)) || is_text_list(node.field_spec("models"@))
    &&& absent(node.field_spec("textures"@)) || is_text_list(node.field_spec("textures"@))
    &&& match node.field_spec("states"@) {
        Node::List(items) => all_state_shapes(items@),
        other => absent(other),
    }
}

/// The record a well-shaped tile node denotes.
pub open spec fn tile_doc_ok(node: Node, v: TileDoc) -> bool {
    &&& tile_doc_shape(node)
    &&& opt_texts_ok(node.field_spec("models"@), v.models)
    &&& opt_texts_ok(node.field_spec("textures"@), v.textures)
    &&& match v.states {
        None => absent(node.field_spec("states"@)),
        Some(ss) => node.field_spec("states"@) matches Node::List(items) && states_ok_seq(
            items@,
            ss@,
        ),
    }
}

impl Parse for TileDoc {
    type DataError = ();

    open spec fn parse_ok_spec(node: Node, v: TileDoc) -> bool {
        tile_doc_ok(node, v)
    }

    open spec fn parse_err_spec(node: Node, e: ()) -> bool {
        !tile_doc_shape(node)
    }

    proof fn lemma_parse_exclusive(node: Node, v: TileDoc, e: ()) {
    }

    fn parse(node: &Node) -> (r: Result<TileDoc, ()>) {
        if !(matches!(node, Node::Hash(_))) {
            return Err(());
        }
        let models = match field(node, "models") {
            Some(nd) if !is_absent(nd) => match parse_text_list(nd) {
                Ok(v) => Some(v),
                Err(_) => {
                    return Err(());
                },
            },
            _ => None,
        };
        let textures = match field(node, "textures") {
            Some(nd) if !is_absent(nd) => match parse_text_list(nd) {
                Ok(v) => Some(v),
                Err(_) => {
                    return Err(());
                },
            },
            _ => None,
        };
        let states = match field(node, "states") {
            Some(nd) if !is_absent(nd) => match nd {
                Node::List(items) => {
                    let m = items.len();
                    let mut out: Vec<StateDoc> = Vec::new();
                    let mut i: usize = 0;
                    while i < m
                        invariant
                            *nd == Node::List(*items),
                            node.field_spec("states"@) == Node::List(*items),
                            m == items@.len(),
                            i <= m,
                            out@.len() == i,
                            forall|j: int| 0 <= j < i ==> state_doc_shape(#[trigger] items@[j]),
                            forall|j: int|
                                0 <= j < i ==> state_doc_ok(items@[j], #[trigger] out@[j]),
                        decreases m - i,
                    {
                        match StateDoc::parse(&items[i]) {
                            Ok(d) => {
                                out.push(d);
                            },
                            Err(_) => {
                                proof {
                                    assert(!all_state_shapes(items@)) by {
                                        if all_state_shapes(items@) {
                                            assert(state_doc_shape(items@[i as int]));
                                        }
                                    }
                                }
                                return Err(());
                            },
                        }
                        i += 1;
                    }
                    proof {
                        assert(all_state_shapes(items@));
                        assert(states_ok_seq(items@, out@));
                    }
                    Some(out)
                },
                _ => {
                    return Err(());
                },
            },
            _ => None,
        };
        Ok(TileDoc { models, textures, states })
    }
}

// ---------------------------------------------------------------------------
// Assembly.
// ---------------------------------------------------------------------------

/// The transform tokens a state record declares; absent means none.
pub open spec fn doc_transform_texts(sd: StateDoc) -> Seq<Seq<char>> {
    match sd.transform {
        Some(v) => v.deep_view(),
        None => Seq::empty(),
    }
}

/// The shell a state record's transform tokens fold to, from the identity;
/// a bad token refuses the whole sequence.
pub open spec fn state_shell_spec(sd: StateDoc) -> Result<Shell, ()> {
    match parse_actions_spec(doc_transform_texts(sd)) {
        Ok(acts) => Ok(apply_actions_spec(Shell::identity_spec(), acts)),
        Err(e) => Err(e),
    }
}

/// The first declared layer index that escapes the texture path list, from
/// position `k` on.
pub open spec fn first_layer_oob(ls: Seq<u32>, ntex: int, k: int) -> Option<u32>
    decreases ls.len() - k when 0 <= k
{
    if k >= ls.len() {
        None
    } else if ls[k] as int >= ntex {
        Some(ls[k])
    } else {
        first_layer_oob(ls, ntex, k + 1)
    }
}

/// The first loader-independent fault of one state record, in the order the
/// assembly checks them: missing model, model index out of range, a bad
/// transform token, missing layers, a layer index out of range.
pub open spec fn state_static_fault<ME, TE>(sd: StateDoc, nmodels: int, ntex: int) -> Option<
    StateError<ME, TE>,
> {
    match sd.model {
        None => Some(StateError::NoModelDefined),
        Some(midx) => if midx as int >= nmodels {
            Some(StateError::OutOfRange(TileField::Models, midx as usize))
        } else if state_shell_spec(sd) is Err {
            Some(StateError::TransformError)
        } else {
            match sd.layers {
                None => Some(StateError::NoLayerDefined),
                Some(ls) => match first_layer_oob(ls@, ntex, 0) {
                    Some(l) => Some(StateError::OutOfRange(TileField::Textures, l as usize)),
                    None => None,
                },
            }
        },
    }
}

/// One assembled layer: its declared index is in range, and its handle is
/// the cache's handle for that texture path.
pub open spec fn layer_matches<T>(l: u32, h: u32, textures: Seq<Seq<char>>, tc: Resource<T>) -> bool {
    &&& (l as int) < textures.len()
    &&& tc.has_path(textures[l as int])
    &&& h == tc.path_index(textures[l as int]) as u32
}

/// One assembled state against the final caches: the model handle names the
/// declared model path, the shell is the folded transform, and each layer
/// handle names its texture path.
pub open spec fn state_matches<M, T>(
    sd: StateDoc,
    st: State,
    models: Seq<Seq<char>>,
    textures: Seq<Seq<char>>,
    mc: Resource<M>,
    tc: Resource<T>,
) -> bool {
    &&& sd.model matches Some(midx) && (midx as int) < models.len() && mc.has_path(
        models[midx as int],
    ) && st.model as int == mc.path_index(models[midx as int])
    &&& state_shell_spec(sd) matches Ok(sh) && st.shell == sh
    &&& sd.layers matches Some(ls) && st.layers@.len() == ls@.len() && (forall|j: int|
        0 <= j < ls@.len() ==> layer_matches(ls@[j], #[trigger] st.layers@[j], textures, tc))
}

/// The model path a state record references (meaningful once the model
/// index is present and in range).
pub open spec fn state_model_path(sd: StateDoc, models: Seq<Seq<char>>) -> Seq<char> {
    match sd.model {
        Some(m) => models[m as int],
        None => Seq::empty(),
    }
}

/// The texture paths a state's layers reference, in layer order.
pub open spec fn state_layer_paths(sd: StateDoc, textures: Seq<Seq<char>>) -> Seq<Seq<char>> {
    match sd.layers {
        Some(ls) => Seq::new(ls@.len(), |j: int| textures[ls@[j] as int]),
        None => Seq::empty(),
    }
}

/// A texture-loader failure part-way through a state's layers: the cache
/// grew by exactly the layer paths before some position whose path it does
/// not hold — the one the loader refused.
pub open spec fn stopped_in_layers(
    tc0: Seq<Seq<char>>,
    tc1: Seq<Seq<char>>,
    lps: Seq<Seq<char>>,
) -> bool {
    exists|k: int|
        0 <= k < lps.len() && tc1 == with_paths(tc0, #[trigger] lps.take(k)) && !seq_has_path(
            tc1,
            lps[k],
        )
}

/// A stage-exact account of one state's assembly, over the caches' path
/// columns. Each loader-independent input is owed its exact error with the
/// caches it leaves behind; the loaders' outcomes are the one free choice,
/// and even they are fenced: a model-loader failure can only strike a fresh
/// model path and leaves everything untouched, and a texture-loader failure
/// can only come after every structural check passed, part-way through the
/// layer paths. On success the handles are pinned to the final columns.
pub open spec fn state_paths_post<ME, TE>(
    sd: StateDoc,
    models: Seq<Seq<char>>,
    textures: Seq<Seq<char>>,
    mc0: Seq<Seq<char>>,
    tc0: Seq<Seq<char>>,
    mc1: Seq<Seq<char>>,
    tc1: Seq<Seq<char>>,
    r: Result<State, StateError<ME, TE>>,
) -> bool {
    match sd.model {
        None => r == Err::<State, StateError<ME, TE>>(StateError::NoModelDefined) && mc1 == mc0
            && tc1 == tc0,
        Some(midx) => if midx as int >= models.len() {
            r == Err::<State, StateError<ME, TE>>(
                StateError::OutOfRange(TileField::Models, midx as usize),
            ) && mc1 == mc0 && tc1 == tc0
        } else {
            let mpath = models[midx as int];
            if r matches Err(StateError::ModelError(_)) {
                !seq_has_path(mc0, mpath) && mc1 == mc0 && tc1 == tc0
            } else {
                &&& mc1 == with_path(mc0, mpath)
                &&& if state_shell_spec(sd) is Err {
                    r == Err::<State, StateError<ME, TE>>(StateError::TransformError) && tc1 == tc0
                } else {
                    match sd.layers {
                        None => r == Err::<State, StateError<ME, TE>>(StateError::NoLayerDefined)
                            && tc1 == tc0,
                        Some(ls) => match first_layer_oob(ls@, textures.len() as int, 0) {
                            Some(l) => r == Err::<State, StateError<ME, TE>>(
                                StateError::OutOfRange(TileField::Textures, l as usize),
                            ) && tc1 == tc0,
                            None => match r {
                                Ok(st) => {
                                    &&& tc1 == with_paths(tc0, state_layer_paths(sd, textures))
                                    &&& st.model as int == seq_path_index(mc1, mpath)
                                    &&& state_shell_spec(sd) matches Ok(sh) && st.shell == sh
                                    &&& st.layers@.len() == ls@.len()
                                    &&& forall|j: int|
                                        0 <= j < ls@.len() ==> #[trigger] st.layers@[j]
                                            == seq_path_index(
                                            tc1,
                                            textures[ls@[j] as int],
                                        ) as u32
                                },
                                Err(StateError::TextureError(_)) => stopped_in_layers(
                                    tc0,
                                    tc1,
                                    state_layer_paths(sd, textures),
                                ),
                                _ => false,
                            },
                        },
                    }
                }
            }
        },
    }
}

/// Assembles one state through the shared caches. Loader failures are
/// wrapped with their context; everything else is pinned: on success the
/// state matches its record against the caches as left behind, a
/// structural error is exactly the record's first static fault, and
/// [`state_paths_post`] accounts for every outcome stage by stage.
pub fn convert_state<M: Load<Loader = ()>, T: Load<Loader = ()>>(
    sd: &StateDoc,
    models: &Vec<String>,
    textures: &Vec<String>,
    mc: &mut Resource<M>,
    tc: &mut Resource<T>,
) -> (r: Result<State, StateError<M::Error, T::Error>>)
    requires
        old(mc).wf(),
        old(tc).wf(),
    ensures
        final(mc).wf(),
        final(tc).wf(),
        cache_extends(*old(mc), *final(mc)),
        cache_extends(*old(tc), *final(tc)),
        r matches Ok(st) ==> state_matches(
            *sd,
            st,
            models.deep_view(),
            textures.deep_view(),
            *final(mc),
            *final(tc),
        ) && state_static_fault::<M::Error, T::Error>(
            *sd,
            models@.len() as int,
            textures@.len() as int,
        ) is None,
        r matches Err(e) ==> match e {
            StateError::ModelError(_) => true,
            StateError::TextureError(_) => true,
            _ => state_static_fault::<M::Error, T::Error>(
                *sd,
                models@.len() as int,
                textures@.len() as int,
            ) == Some(e),
        },
        state_paths_post(
            *sd,
            models.deep_view(),
            textures.deep_view(),
            old(mc).paths(),
            old(tc).paths(),
            final(mc).paths(),
            final(tc).paths(),
            r,
        ),
{
    let ghost mc0 = *mc;
    let ghost tc0 = *tc;
    proof {
        assert(cache_extends(mc0, *mc)) by {
            assert(mc0@.take(mc0@.len() as int) =~= mc0@);
            assert(mc0.paths().take(mc0@.len() as int) =~= mc0.paths());
        }
        assert(cache_extends(tc0, *tc)) by {
            assert(tc0@.take(tc0@.len() as int) =~= tc0@);
            assert(tc0.paths().take(tc0@.len() as int) =~= tc0.paths());
        }
    }
    let midx: usize = match &sd.model {
        Some(m) => *m as usize,
        None => {
            return Err(StateError::NoModelDefined);
        },
    };
    if midx >= models.len() {
        return Err(StateError::OutOfRange(TileField::Models, midx));
    }
    proof {
        assert(models.deep_view()[midx as int] == models@[midx as int]@);
    }
    let model_handle = match mc.load(models[midx].as_str()) {
        Ok(h) => h,
        Err(e) => {
            proof {
                lemma_load_extends(mc0, *mc, models@[midx as int]@, Err::<usize, M::Error>(e));
                assert(!seq_has_path(mc0.paths(), models.deep_view()[midx as int]));
            }
            return Err(StateError::ModelError(e));
        },
    };
    proof {
        lemma_load_extends(mc0, *mc, models@[midx as int]@, Ok::<usize, M::Error>(model_handle));
        lemma_load_with_path(mc0, *mc, models@[midx as int]@, Ok::<usize, M::Error>(model_handle));
        assert(mc.paths() == with_path(mc0.paths(), models.deep_view()[midx as int]));
    }
    let empty_tokens: Vec<String> = Vec::new();
    let tokens = match &sd.transform {
        Some(v) => v,
        None => &empty_tokens,
    };
    proof {
        assert(tokens.deep_view() =~= doc_transform_texts(*sd));
    }
    let actions = match parse_actions(tokens) {
        Ok(a) => a,
        Err(_) => {
            return Err(StateError::TransformError);
        },
    };
    let shell = apply_actions(Shell::new(), &actions);
    let layer_ids = match &sd.layers {
        Some(v) => v,
        None => {
            return Err(StateError::NoLayerDefined);
        },
    };
    let nl = layer_ids.len();
    let mut li: usize = 0;
    while li < nl
        invariant
            mc0 == *old(mc),
            tc0 == *old(tc),
            mc.wf(),
            tc.wf(),
            cache_extends(mc0, *mc),
            cache_extends(tc0, *tc),
            sd.model == Some(midx as u32),
            midx == (midx as u32) as usize,
            midx < models@.len(),
            mc.has_path(models.deep_view()[midx as int]),
            model_handle as int == mc.path_index(models.deep_view()[midx as int]),
            mc.paths() == with_path(mc0.paths(), models.deep_view()[midx as int]),
            tc.paths() == tc0.paths(),
            state_shell_spec(*sd) matches Ok(sh) && sh == shell,
            sd.layers == Some(*layer_ids),
            nl == layer_ids@.len(),
            li <= nl,
            first_layer_oob(layer_ids@, textures@.len() as int, li as int) == first_layer_oob(
                layer_ids@,
                textures@.len() as int,
                0,
            ),
            forall|j: int| 0 <= j < li ==> (layer_ids@[j] as int) < textures@.len(),
        decreases nl - li,
    {
        if layer_ids[li] as usize >= textures.len() {
            return Err(
                StateError::OutOfRange(TileField::Textures, layer_ids[li] as usize),
            );
        }
        li += 1;
    }
    proof {
        assert(first_layer_oob(layer_ids@, textures@.len() as int, nl as int) is None);
    }
    let mut handles: Vec<u32> = Vec::new();
    let mut k: usize = 0;
    while k < nl
        invariant
            mc0 == *old(mc),
            tc0 == *old(tc),
            mc.wf(),
            tc.wf(),
            cache_extends(mc0, *mc),
            cache_extends(tc0, *tc),
            mc0.wf(),
            tc0.wf(),
            sd.model == Some(midx as u32),
            midx == (midx as u32) as usize,
            midx < models@.len(),
            mc.has_path(models.deep_view()[midx as int]),
            model_handle as int == mc.path_index(models.deep_view()[midx as int]),
            mc.paths() == with_path(mc0.paths(), models.deep_view()[midx as int]),
            tc.paths() == with_paths(
                tc0.paths(),
                state_layer_paths(*sd, textures.deep_view()).take(k as int),
            ),
            state_shell_spec(*sd) matches Ok(sh) && sh == shell,
            sd.layers == Some(*layer_ids),
            first_layer_oob(layer_ids@, textures@.len() as int, 0) is None,
            nl == layer_ids@.len(),
            k <= nl,
            handles@.len() == k,
            forall|j: int| 0 <= j < nl ==> (layer_ids@[j] as int) < textures@.len(),
            forall|j: int|
                0 <= j < k ==> layer_matches(
                    layer_ids@[j],
                    #[trigger] handles@[j],
                    textures.deep_view(),
                    *tc,
                ),
        decreases nl - k,
    {
        let ghost tcp = *tc;
        let ghost lps = state_layer_paths(*sd, textures.deep_view());
        let l = layer_ids[k] as usize;
        proof {
            assert(textures.deep_view()[l as int] == textures@[l as int]@);
            assert(lps[k as int] == textures.deep_view()[l as int]);
        }
        match tc.load(textures[l].as_str()) {
            Ok(h) => {
                proof {
                    lemma_load_extends(tcp, *tc, textures@[l as int]@, Ok::<usize, T::Error>(h));
                    lemma_load_with_path(tcp, *tc, textures@[l as int]@, Ok::<usize, T::Error>(h));
                    crate::resource::lemma_extends_trans(tc0, tcp, *tc);
                    lemma_with_paths_snoc(tc0.paths(), lps.take(k as int), lps[k as int]);
                    assert(lps.take(k as int).push(lps[k as int]) =~= lps.take(k + 1));
                    assert(tc.paths() == with_paths(tc0.paths(), lps.take(k + 1)));
                    assert forall|j: int| 0 <= j < k implies layer_matches(
                        layer_ids@[j],
                        #[trigger] handles@[j],
                        textures.deep_view(),
                        *tc,
                    ) by {
                        assert(layer_matches(
                            layer_ids@[j],
                            handles@[j],
                            textures.deep_view(),
                            tcp,
                        ));
                        lemma_extends_keeps_index(
                            tcp,
                            *tc,
                            textures.deep_view()[layer_ids@[j] as int],
                        );
                    }
                }
                handles.push(#[verifier::truncate] (h as u32));
            },
            Err(e) => {
                proof {
                    lemma_load_extends(tcp, *tc, textures@[l as int]@, Err::<usize, T::Error>(e));
                    crate::resource::lemma_extends_trans(tc0, tcp, *tc);
                    assert(stopped_in_layers(tc0.paths(), tc.paths(), lps)) by {
                        assert(tc.paths() == with_paths(tc0.paths(), lps.take(k as int)));
                        assert(!seq_has_path(tc.paths(), lps[k as int]));
                    }
                }
                return Err(StateError::TextureError(e));
            },
        }
        k += 1;
    }
    proof {
        let lps = state_layer_paths(*sd, textures.deep_view());
        assert(lps.take(nl as int) =~= lps);
    }
    Ok(State { model: model_handle, shell, layers: handles })
}

/// The states a tile document declares; absent means none.
pub open spec fn doc_states(doc: TileDoc) -> Seq<StateDoc> {
    match doc.states {
        Some(v) => v@,
        None => Seq::empty(),
    }
}

/// The model paths a tile document declares.
pub open spec fn doc_models(doc: TileDoc) -> Seq<Seq<char>> {
    match doc.models {
        Some(v) => v.deep_view(),
        None => Seq::empty(),
    }
}

/// The texture paths a tile document declares.
pub open spec fn doc_textures(doc: TileDoc) -> Seq<Seq<char>> {
    match doc.textures {
        Some(v) => v.deep_view(),
        None => Seq::empty(),
    }
}

/// The model-cache path column after assembling a run of states in order:
/// each state contributes its model path.
pub open spec fn tile_mc_paths(
    states: Seq<StateDoc>,
    models: Seq<Seq<char>>,
    pre: Seq<Seq<char>>,
) -> Seq<Seq<char>>
    decreases states.len(),
{
    if states.len() == 0 {
        pre
    } else {
        tile_mc_paths(states.skip(1), models, with_path(pre, state_model_path(states[0], models)))
    }
}

/// The texture-cache path column after assembling a run of states: each
/// state contributes its layer paths in order.
pub open spec fn tile_tc_paths(
    states: Seq<StateDoc>,
    textures: Seq<Seq<char>>,
    pre: Seq<Seq<char>>,
) -> Seq<Seq<char>>
    decreases states.len(),
{
    if states.len() == 0 {
        pre
    } else {
        tile_tc_paths(
            states.skip(1),
            textures,
            with_paths(pre, state_layer_paths(states[0], textures)),
        )
    }
}

proof fn lemma_tile_mc_snoc(
    states: Seq<StateDoc>,
    sd: StateDoc,
    models: Seq<Seq<char>>,
    pre: Seq<Seq<char>>,
)
    ensures
        tile_mc_paths(states.push(sd), models, pre) == with_path(
            tile_mc_paths(states, models, pre),
            state_model_path(sd, models),
        ),
    decreases states.len(),
{
    if states.len() == 0 {
        assert(states.push(sd)[0] == sd);
        assert(states.push(sd).skip(1) =~= Seq::<StateDoc>::empty());
        assert(tile_mc_paths(states.push(sd), models, pre) == tile_mc_paths(
            Seq::<StateDoc>::empty(),
            models,
            with_path(pre, state_model_path(sd, models)),
        ));
        assert(tile_mc_paths(states, models, pre) == pre);
    } else {
        assert(states.push(sd)[0] == states[0]);
        assert(states.push(sd).skip(1) =~= states.skip(1).push(sd));
        assert(tile_mc_paths(states.push(sd), models, pre) == tile_mc_paths(
            states.skip(1).push(sd),
            models,
            with_path(pre, state_model_path(states[0], models)),
        ));
        lemma_tile_mc_snoc(
            states.skip(1),
            sd,
            models,
            with_path(pre, state_model_path(states[0], models)),
        );
    }
}

proof fn lemma_tile_tc_snoc(
    states: Seq<StateDoc>,
    sd: StateDoc,
    textures: Seq<Seq<char>>,
    pre: Seq<Seq<char>>,
)
    ensures
        tile_tc_paths(states.push(sd), textures, pre) == with_paths(
            tile_tc_paths(states, textures, pre),
            state_layer_paths(sd, textures),
        ),
    decreases states.len(),
{
    if states.len() == 0 {
        assert(states.push(sd)[0] == sd);
        assert(states.push(sd).skip(1) =~= Seq::<StateDoc>::empty());
        assert(tile_tc_paths(states.push(sd), textures, pre) == tile_tc_paths(
            Seq::<StateDoc>::empty(),
            textures,
            with_paths(pre, state_layer_paths(sd, textures)),
        ));
        assert(tile_tc_paths(states, textures, pre) == pre);
    } else {
        assert(states.push(sd)[0] == states[0]);
        assert(states.push(sd).skip(1) =~= states.skip(1).push(sd));
        assert(tile_tc_paths(states.push(sd), textures, pre) == tile_tc_paths(
            states.skip(1).push(sd),
            textures,
            with_paths(pre, state_layer_paths(states[0], textures)),
        ));
        lemma_tile_tc_snoc(
            states.skip(1),
            sd,
            textures,
            with_paths(pre, state_layer_paths(states[0], textures)),
        );
    }
}

/// A state failed: some state in the list accounts for the returned error
/// and the final path columns exactly as one state's assembly does, against
/// the columns its predecessors left behind.
pub open spec fn tile_failed_at<ME, TE>(
    states: Seq<StateDoc>,
    models: Seq<Seq<char>>,
    textures: Seq<Seq<char>>,
    mc0: Seq<Seq<char>>,
    tc0: Seq<Seq<char>>,
    mc1: Seq<Seq<char>>,
    tc1: Seq<Seq<char>>,
    e: StateError<ME, TE>,
) -> bool {
    exists|i: int|
        0 <= i < states.len() && #[trigger] state_paths_post(
            states[i],
            models,
            textures,
            tile_mc_paths(states.take(i), models, mc0),
            tile_tc_paths(states.take(i), textures, tc0),
            mc1,
            tc1,
            Err::<State, StateError<ME, TE>>(e),
        )
}

/// The first static fault over a state list, in order.
pub open spec fn first_state_fault<ME, TE>(states: Seq<StateDoc>, nm: int, nt: int) -> Option<
    StateError<ME, TE>,
>
    decreases states.len(),
{
    if states.len() == 0 {
        None
    } else {
        match state_static_fault::<ME, TE>(states[0], nm, nt) {
            Some(e) => Some(e),
            None => first_state_fault(states.skip(1), nm, nt),
        }
    }
}

/// A fault that does not depend on any loader.
pub open spec fn is_static_fault<ME, TE>(e: StateError<ME, TE>) -> bool {
    !(e is ModelError || e is TextureError)
}

/// Assembles a tile: every state in order through the shared caches. An
/// empty state list is refused outright with nothing loaded; on success the
/// caches grew by exactly the referenced paths in reference order; the
/// first failing state aborts the tile with that state's error, keeping
/// whatever the caches had loaded ([`tile_failed_at`]).
pub fn convert_tile<M: Load<Loader = ()>, T: Load<Loader = ()>>(
    doc: TileDoc,
    mc: &mut Resource<M>,
    tc: &mut Resource<T>,
) -> (r: Result<Tile, TileError<M::Error, T::Error>>)
    requires
        old(mc).wf(),
        old(tc).wf(),
    ensures
        final(mc).wf(),
        final(tc).wf(),
        cache_extends(*old(mc), *final(mc)),
        cache_extends(*old(tc), *final(tc)),
        r == Err::<Tile, TileError<M::Error, T::Error>>(TileError::NoStates) <==> doc_states(
            doc,
        ).len() == 0,
        doc_states(doc).len() == 0 ==> *final(mc) == *old(mc) && *final(tc) == *old(tc),
        r matches Ok(t) ==> {
            &&& t.id == 0
            &&& t.wf()
            &&& t.states@.len() == doc_states(doc).len()
            &&& forall|i: int|
                0 <= i < t.states@.len() ==> state_matches(
                    doc_states(doc)[i],
                    #[trigger] t.states@[i],
                    doc_models(doc),
                    doc_textures(doc),
                    *final(mc),
                    *final(tc),
                )
            &&& first_state_fault::<M::Error, T::Error>(
                doc_states(doc),
                doc_models(doc).len() as int,
                doc_textures(doc).len() as int,
            ) is None
            &&& final(mc).paths() == tile_mc_paths(
                doc_states(doc),
                doc_models(doc),
                old(mc).paths(),
            )
            &&& final(tc).paths() == tile_tc_paths(
                doc_states(doc),
                doc_textures(doc),
                old(tc).paths(),
            )
        },
        r matches Err(TileError::StateError(e)) ==> (is_static_fault(e)
            ==> first_state_fault::<M::Error, T::Error>(
            doc_states(doc),
            doc_models(doc).len() as int,
            doc_textures(doc).len() as int,
        ) == Some(e)),
        r matches Err(TileError::StateError(e)) ==> tile_failed_at::<M::Error, T::Error>(
            doc_states(doc),
            doc_models(doc),
            doc_textures(doc),
            old(mc).paths(),
            old(tc).paths(),
            final(mc).paths(),
            final(tc).paths(),
            e,
        ),
{
    let ghost mc0 = *old(mc);
    let ghost tc0 = *old(tc);
    proof {
        assert(cache_extends(mc0, *mc)) by {
            assert(mc0@.take(mc0@.len() as int) =~= mc0@);
            assert(mc0.paths().take(mc0@.len() as int) =~= mc0.paths());
        }
        assert(cache_extends(tc0, *tc)) by {
            assert(tc0@.take(tc0@.len() as int) =~= tc0@);
            assert(tc0.paths().take(tc0@.len() as int) =~= tc0.paths());
        }
    }
    let empty_texts: Vec<String> = Vec::new();
    let empty_states: Vec<StateDoc> = Vec::new();
    let models = match &doc.models {
        Some(v) => v,
        None => &empty_texts,
    };
    let textures = match &doc.textures {
        Some(v) => v,
        None => &empty_texts,
    };
    let state_docs = match &doc.states {
        Some(v) => v,
        None => &empty_states,
    };
    proof {
        assert(models.deep_view() =~= doc_models(doc));
        assert(textures.deep_view() =~= doc_textures(doc));
        assert(state_docs@ =~= doc_states(doc));
    }
    let n = state_docs.len();
    if n == 0 {
        return Err(TileError::NoStates);
    }
    let ghost all = state_docs@;
    let ghost nm = doc_models(doc).len() as int;
    let ghost nt = doc_textures(doc).len() as int;
    let mut out: Vec<State> = Vec::new();
    let mut i: usize = 0;
    proof {
        assert(all.skip(0) =~= all);
        assert(all.take(0) =~= Seq::<StateDoc>::empty());
        assert(tile_mc_paths(Seq::<StateDoc>::empty(), models.deep_view(), mc0.paths())
            == mc0.paths());
        assert(tile_tc_paths(Seq::<StateDoc>::empty(), textures.deep_view(), tc0.paths())
            == tc0.paths());
    }
    while i < n
        invariant
            mc0 == *old(mc),
            tc0 == *old(tc),
            mc.wf(),
            tc.wf(),
            mc0.wf(),
            tc0.wf(),
            cache_extends(mc0, *mc),
            cache_extends(tc0, *tc),
            n == all.len(),
            all == state_docs@,
            all == doc_states(doc),
            models.deep_view() == doc_models(doc),
            textures.deep_view() == doc_textures(doc),
            nm == doc_models(doc).len() as int,
            nt == doc_textures(doc).len() as int,
            nm == models@.len() as int,
            nt == textures@.len() as int,
            i <= n,
            out@.len() == i,
            n > 0,
            mc.paths() == tile_mc_paths(all.take(i as int), models.deep_view(), mc0.paths()),
            tc.paths() == tile_tc_paths(all.take(i as int), textures.deep_view(), tc0.paths()),
            forall|i2: int|
                0 <= i2 < i ==> state_matches(
                    all[i2],
                    #[trigger] out@[i2],
                    models.deep_view(),
                    textures.deep_view(),
                    *mc,
                    *tc,
                ),
            first_state_fault::<M::Error, T::Error>(all.skip(i as int), nm, nt)
                == first_state_fault::<M::Error, T::Error>(all, nm, nt),
        decreases n - i,
    {
        proof {
            assert(all.skip(i as int)[0] == all[i as int]);
            assert(all.skip(i as int).skip(1) =~= all.skip(i + 1));
        }
        let ghost mcp = *mc;
        let ghost tcp = *tc;
        match convert_state(&state_docs[i], models, textures, mc, tc) {
            Ok(st) => {
                proof {
                    crate::resource::lemma_extends_trans(mc0, mcp, *mc);
                    crate::resource::lemma_extends_trans(tc0, tcp, *tc);
                    assert forall|i2: int| 0 <= i2 < i implies state_matches(
                        all[i2],
                        #[trigger] out@[i2],
                        models.deep_view(),
                        textures.deep_view(),
                        *mc,
                        *tc,
                    ) by {
                        assert(state_matches(
                            all[i2],
                            out@[i2],
                            models.deep_view(),
                            textures.deep_view(),
                            mcp,
                            tcp,
                        ));
                        match all[i2].model {
                            Some(midx) => {
                                lemma_extends_keeps_index(
                                    mcp,
                                    *mc,
                                    models.deep_view()[midx as int],
                                );
                            },
                            None => {},
                        }
                        match all[i2].layers {
                            Some(ls) => {
                                assert forall|j: int| 0 <= j < ls@.len() implies layer_matches(
                                    ls@[j],
                                    #[trigger] out@[i2].layers@[j],
                                    textures.deep_view(),
                                    *tc,
                                ) by {
                                    assert(layer_matches(
                                        ls@[j],
                                        out@[i2].layers@[j],
                                        textures.deep_view(),
                                        tcp,
                                    ));
                                    lemma_extends_keeps_index(
                                        tcp,
                                        *tc,
                                        textures.deep_view()[ls@[j] as int],
                                    );
                                }
                            },
                            None => {},
                        }
                    }
                    // the path columns advance by exactly this state's references
                    match all[i as int].model {
                        Some(midx) => {
                            if (midx as int) < models.deep_view().len() {
                                assert(mc.paths() == with_path(
                                    mcp.paths(),
                                    models.deep_view()[midx as int],
                                ));
                                assert(state_model_path(all[i as int], models.deep_view())
                                    == models.deep_view()[midx as int]);
                            } else {
                                assert(false);
                            }
                        },
                        None => {
                            assert(false);
                        },
                    }
                    assert(tc.paths() == with_paths(
                        tcp.paths(),
                        state_layer_paths(all[i as int], textures.deep_view()),
                    ));
                    lemma_tile_mc_snoc(
                        all.take(i as int),
                        all[i as int],
                        models.deep_view(),
                        mc0.paths(),
                    );
                    lemma_tile_tc_snoc(
                        all.take(i as int),
                        all[i as int],
                        textures.deep_view(),
                        tc0.paths(),
                    );
                    assert(all.take(i as int).push(all[i as int]) =~= all.take(i + 1));
                    assert(mc.paths() == tile_mc_paths(
                        all.take(i + 1),
                        models.deep_view(),
                        mc0.paths(),
                    ));
                    assert(tc.paths() == tile_tc_paths(
                        all.take(i + 1),
                        textures.deep_view(),
                        tc0.paths(),
                    ));
                }
                out.push(st);
            },
            Err(e) => {
                proof {
                    crate::resource::lemma_extends_trans(mc0, mcp, *mc);
                    crate::resource::lemma_extends_trans(tc0, tcp, *tc);
                    assert(tile_failed_at::<M::Error, T::Error>(
                        all,
                        models.deep_view(),
                        textures.deep_view(),
                        mc0.paths(),
                        tc0.paths(),
                        mc.paths(),
                        tc.paths(),
                        e,
                    )) by {
                        assert(state_paths_post(
                            all[i as int],
                            models.deep_view(),
                            textures.deep_view(),
                            tile_mc_paths(all.take(i as int), models.deep_view(), mc0.paths()),
                            tile_tc_paths(all.take(i as int), textures.deep_view(), tc0.paths()),
                            mc.paths(),
                            tc.paths(),
                            Err::<State, StateError<M::Error, T::Error>>(e),
                        ));
                    }
                }
                return Err(TileError::StateError(e));
            },
        }
        i += 1;
    }
    proof {
        assert(all.skip(n as int).len() == 0);
        assert(all.take(n as int) =~= all);
    }
    Ok(Tile { states: out, id: 0 })
}

} // verus!
