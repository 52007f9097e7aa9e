//! The loading capability: a type that can be produced from a file path,
//! with a caller-supplied loader context.

use vstd::prelude::*;

verus! {

/// A type loadable by path. `Loader` is whatever context the load needs — a
/// unit for self-contained types, another cache for composite ones. Nothing
/// is promised of `load` itself: each implementor decides what loading
/// means and when it fails.
pub trait Load where Self: Sized {
    type Error;

    type Loader;

    fn load(file: &str, loader: &mut Self::Loader) -> Result<Self, Self::Error>;
}

/// Shared ownership loads by loading the inner value once and wrapping it.
impl<T: Load> Load for std::rc::Rc<T> {
    type Error = T::Error;

    type Loader = T::Loader;

    fn load(file: &str, loader: &mut Self::Loader) -> Result<Self, Self::Error> {
        match T::load(file, loader) {
            Ok(v) => Ok(std::rc::Rc::new(v)),
            Err(e) => Err(e),
        }
    }
}

/// Boxed loads delegate to the inner type.
impl<T: Load> Load for Box<T> {
    type Error = T::Error;

    type Loader = T::Loader;

    fn load(file: &str, loader: &mut Self::Loader) -> Result<Self, Self::Error> {
        match T::load(file, loader) {
            Ok(v) => Ok(Box::new(v)),
            Err(e) => Err(e),
        }
    }
}

} // verus!
