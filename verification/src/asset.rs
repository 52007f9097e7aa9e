//! Assets: loadable types that live under a fixed data root, each kind in
//! its own subdirectory. Path joining is the only filesystem responsibility
//! here, and it is a pure string construction using `/` as the separator.

use vstd::prelude::*;
use vstd::string::StringExecFns;
use crate::load::Load;
use crate::resource::{load_result_spec, Resource};

verus! {

/// A loadable type with a fixed subdirectory under the data root.
pub trait Asset: Load {
    spec fn dir_spec() -> Seq<char>;

    fn dir() -> (r: &'static str)
        ensures
            r@ == Self::dir_spec(),
    ;

    /// The data root, the kind's subdirectory and the file name, joined
    /// with `/`.
    fn full_path(file: &str) -> (r: String)
        ensures
            r@ == "assets/"@ + Self::dir_spec() + "/"@ + file@,
    {
        let mut s = String::from_str("assets/");
        s.append(Self::dir());
        s.append("/");
        s.append(file);
        s
    }

    /// Loads the file from its place under the data root.
    fn load_asset(file: &str, loader: &mut Self::Loader) -> Result<Self, Self::Error> {
        let p = Self::full_path(file);
        Self::load(p.as_str(), loader)
    }
}

/// The path an asset kind's file is addressed by.
pub open spec fn full_path_spec<A: Asset>(file: Seq<char>) -> Seq<char> {
    "assets/"@ + A::dir_spec() + "/"@ + file
}

impl<T> Resource<T> {
    /// Loads an asset by its short name, addressing it under the data root.
    pub fn load_asset_with(&mut self, file: &str, loader: &mut T::Loader) -> (r: Result<
        usize,
        T::Error,
    >) where T: Asset
        requires
            old(self).wf(),
        ensures
            load_result_spec(*old(self), *final(self), full_path_spec::<T>(file@), r),
            old(self).has_path(full_path_spec::<T>(file@)) ==> *final(loader) == *old(loader),
    {
        let p = T::full_path(file);
        self.load_with(p.as_str(), loader)
    }

    /// As `load_asset_with`, for a kind whose loader needs no context.
    pub fn load_asset(&mut self, file: &str) -> (r: Result<usize, T::Error>) where T: Asset<
        Loader = (),
    >
        requires
            old(self).wf(),
        ensures
            load_result_spec(*old(self), *final(self), full_path_spec::<T>(file@), r),
    {
        self.load_asset_with(file, &mut ())
    }
}

} // verus!
