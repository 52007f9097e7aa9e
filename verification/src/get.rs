//! Retrieval by handle or by key, with a "not found" answer instead of an
//! error.

use vstd::prelude::*;

verus! {

/// Lookup by some key type `B`. `get_spec` fixes which item a key names;
/// `get_ready` is whatever well-formedness the lookup needs of the store.
pub trait Get<B> {
    type Item;

    spec fn get_ready(&self) -> bool;

    spec fn get_spec(&self, by: B) -> Option<Self::Item>;

    fn get(&self, by: B) -> (r: Option<&Self::Item>)
        requires
            self.get_ready(),
        ensures
            match r {
                Some(v) => self.get_spec(by) == Some(*v),
                None => self.get_spec(by) is None,
            },
    ;
}

/// Mutable lookup by some key type `B`.
pub trait GetMut<B> {
    type Item;

    spec fn get_mut_ready(&self) -> bool;

    spec fn get_mut_spec(&self, by: B) -> Option<Self::Item>;

    fn get_mut(&mut self, by: B) -> (r: Option<&mut Self::Item>)
        requires
            old(self).get_mut_ready(),
        ensures
            match r {
                Some(v) => old(self).get_mut_spec(by) == Some(*v),
                None => old(self).get_mut_spec(by) is None,
            },
    ;
}

} // verus!
