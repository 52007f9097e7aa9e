//! The texture atlas bookkeeping: which texture paths take part, each with
//! a stable slot, and the grid dimension a packed square atlas needs. The
//! pixel stitching itself is the image library's work, outside this
//! library's scope; it consumes the slots and grid computed here.

use vstd::prelude::*;
use crate::asset::Asset;
use crate::load::Load;
use crate::resource::{load_result_spec, Resource};

verus! {

/// A texture participant: just its path, kept so the cache can deduplicate
/// and order the sprites.
#[derive(Debug)]
pub struct TexturePath(pub String);

impl Load for TexturePath {
    type Error = ();

    type Loader = ();

    fn load(file: &str, loader: &mut ()) -> Result<TexturePath, ()> {
        Ok(TexturePath(file.to_owned()))
    }
}

impl Asset for TexturePath {
    open spec fn dir_spec() -> Seq<char> {
        "textures"@
    }

    fn dir() -> (r: &'static str) {
        "textures"
    }
}

/// Collects the textures of an atlas, one slot per distinct path, plus the
/// uniform sprite edge length in pixels.
#[derive(Debug)]
pub struct Atlas {
    images: Resource<TexturePath>,
    size: u32,
}

impl Atlas {
    /// The texture paths collected so far, in slot order.
    pub closed spec fn images_spec(self) -> Resource<TexturePath> {
        self.images
    }

    /// The uniform sprite edge length.
    pub closed spec fn size_spec(self) -> u32 {
        self.size
    }

    pub open spec fn wf(self) -> bool {
        self.images_spec().wf()
    }

    pub fn new(size: u32) -> (r: Atlas)
        ensures
            r.wf(),
            r.size_spec() == size,
            r.images_spec()@.len() == 0,
    {
        Atlas { images: Resource::new(), size }
    }

    /// Adds a texture path, deduplicating: the slot of a path seen before
    /// is answered again.
    pub fn add(&mut self, file: &str) -> (r: Option<usize>)
        requires
            old(self).wf(),
        ensures
            final(self).wf(),
            final(self).size_spec() == old(self).size_spec(),
            r matches Some(i) ==> load_result_spec(
                old(self).images_spec(),
                final(self).images_spec(),
                file@,
                Ok::<usize, ()>(i),
            ),
            r is None ==> final(self).images_spec() == old(self).images_spec(),
    {
        match self.images.load(file) {
            Ok(i) => Some(i),
            Err(_) => None,
        }
    }

    /// How many sprites the atlas holds.
    pub fn len(&self) -> (r: usize)
        ensures
            r == self.images_spec()@.len(),
    {
        self.images.len()
    }

    /// The uniform sprite edge length.
    pub fn size(&self) -> (r: u32)
        ensures
            r == self.size_spec(),
    {
        self.size
    }

    /// Gives up the collected paths in slot order, for the stitcher.
    pub fn into_paths(self) -> (r: Vec<TexturePath>)
        ensures
            r@ == self.images_spec()@,
    {
        self.images.into_iter()
    }
}

/// The ceiling-square grid dimension: the smallest `m` with `m * m >= n`.
pub open spec fn is_grid_size(n: int, m: int) -> bool {
    &&& m * m >= n
    &&& forall|k: int| 0 <= k < m ==> #[trigger] (k * k) < n
}

/// Computes the grid dimension a packed square atlas of `n` sprites needs.
pub fn grid_size(n: usize) -> (r: usize)
    requires
        n <= 0xffff_ffff,
    ensures
        is_grid_size(n as int, r as int),
{
    let mut m: usize = 0;
    while (m as u64) * (m as u64) < (n as u64)
        invariant
            n <= 0xffff_ffff,
            m <= 0x1_0000,
            m <= n,
            (m as u64) * (m as u64) <= 0x1_0000_0000,
            forall|k: int| 0 <= k < m ==> #[trigger] (k * k) < n,
        decreases n - m,
    {
        proof {
            assert(m < 0x1_0000) by {
                if m == 0x1_0000 {
                    assert(m * m >= n) by (nonlinear_arith)
                        requires
                            m == 0x1_0000,
                            n <= 0xffff_ffff,
                    ;
                }
            }
            assert(m + 1 <= n) by (nonlinear_arith)
                requires
                    m * m < n,
            ;
            assert(((m + 1) as u64) * (((m + 1) as u64)) <= 0x1_0000_0000) by (nonlinear_arith)
                requires
                    m + 1 <= 0x1_0000,
            ;
        }
        m = m + 1;
    }
    m
}

} // verus!
