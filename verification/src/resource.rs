//! The deduplicating resource cache.
//!
//! A cache owns every item it ever loaded and names each by a stable integer
//! handle, assigned in load order. A path is loaded at most once per cache:
//! a second load of the same path answers the handle it was given the first
//! time and never invokes the loader again. Entries are never removed or
//! re-validated; a failed load leaves the cache exactly as it was.

use vstd::prelude::*;
use crate::get::{Get, GetMut};
use crate::load::Load;
use crate::text::str_eq;

verus! {

/// Whether some path in the column equals `p`.
pub open spec fn seq_has_path(paths: Seq<Seq<char>>, p: Seq<char>) -> bool {
    exists|i: int| 0 <= i < paths.len() && paths[i] == p
}

/// The index at which the column holds `p`; unique when the paths are
/// pairwise distinct.
pub open spec fn seq_path_index(paths: Seq<Seq<char>>, p: Seq<char>) -> int {
    choose|i: int| 0 <= i < paths.len() && paths[i] == p
}

/// With pairwise-distinct paths, the index of a held path is the one place
/// it stands.
pub proof fn lemma_path_index_is(paths: Seq<Seq<char>>, p: Seq<char>, i: int)
    requires
        0 <= i < paths.len(),
        paths[i] == p,
        forall|a: int, b: int| 0 <= a < b < paths.len() ==> paths[a] != paths[b],
    ensures
        seq_has_path(paths, p),
        seq_path_index(paths, p) == i,
{
    assert(seq_has_path(paths, p));
    let k = seq_path_index(paths, p);
    assert(0 <= k < paths.len() && paths[k] == p);
    if k < i {
        assert(paths[k] != paths[i]);
    }
    if i < k {
        assert(paths[i] != paths[k]);
    }
}

/// A store of loaded items, keyed by the path each was loaded from.
#[derive(Debug)]
pub struct Resource<T> {
    items: Vec<T>,
    files: Vec<String>,
}

impl<T> View for Resource<T> {
    type V = Seq<T>;

    closed spec fn view(&self) -> Seq<T> {
        self.items@
    }
}

impl<T> Resource<T> {
    /// The paths loaded so far, in handle order.
    pub closed spec fn paths(self) -> Seq<Seq<char>> {
        self.files.deep_view()
    }

    /// One path per item, and no path twice: the core cache invariant.
    pub open spec fn wf(self) -> bool {
        &&& self.paths().len() == self@.len()
        &&& forall|i: int, j: int|
            0 <= i < j < self.paths().len() ==> self.paths()[i] != self.paths()[j]
    }

    pub open spec fn has_path(self, p: Seq<char>) -> bool {
        seq_has_path(self.paths(), p)
    }

    pub open spec fn path_index(self, p: Seq<char>) -> int {
        seq_path_index(self.paths(), p)
    }

    pub fn new() -> (r: Resource<T>)
        ensures
            r.wf(),
            r@ == Seq::<T>::empty(),
            r.paths() == Seq::<Seq<char>>::empty(),
    {
        let r = Resource { items: Vec::new(), files: Vec::new() };
        proof {
            assert(r.paths() =~= Seq::<Seq<char>>::empty());
        }
        r
    }

    /// The handle of an already-loaded path, if any.
    fn find(&self, file: &str) -> (r: Option<usize>)
        requires
            self.wf(),
        ensures
            match r {
                Some(i) => self.has_path(file@) && i as int == self.path_index(file@) && (
                i as int) < self@.len(),
                None => !self.has_path(file@),
            },
    {
        let n = self.files.len();
        let mut i: usize = 0;
        while i < n
            invariant
                self.wf(),
                n == self.files@.len(),
                i <= n,
                forall|j: int| 0 <= j < i ==> self.paths()[j] != file@,
            decreases n - i,
        {
            if str_eq(self.files[i].as_str(), file) {
                proof {
                    assert(self.paths()[i as int] == self.files@[i as int]@);
                    lemma_path_index_is(self.paths(), file@, i as int);
                }
                return Some(i);
            }
            proof {
                assert(self.paths()[i as int] == self.files@[i as int]@);
            }
            i += 1;
        }
        None
    }

    pub fn len(&self) -> (r: usize)
        ensures
            r == self@.len(),
    {
        self.items.len()
    }

    /// The loaded items in handle order, borrowed for iteration.
    pub fn iter(&self) -> (r: &[T])
        ensures
            r@ == self@,
    {
        self.items.as_slice()
    }

    /// The loaded items in handle order, borrowed for mutation in place;
    /// the paths and handles stay as they are.
    pub fn iter_mut(&mut self) -> (r: &mut [T])
        ensures
            r@ == old(self)@,
            final(self)@ == final(r)@,
            final(self).paths() == old(self).paths(),
    {
        self.items.as_mut_slice()
    }

    /// Gives up the cache and hands out its items in handle order.
    pub fn into_iter(self) -> (r: Vec<T>)
        ensures
            r@ == self@,
    {
        self.items
    }
}

/// How one load call relates the cache before and after. A path seen before
/// answers its old handle and changes nothing; a new path that loads is
/// appended to both columns, its handle the previous length; a new path
/// whose loader failed leaves the cache as it was. A successful handle is
/// always in range and names the given path.
pub open spec fn load_result_spec<T, E>(
    pre: Resource<T>,
    post: Resource<T>,
    p: Seq<char>,
    r: Result<usize, E>,
) -> bool {
    &&& post.wf()
    &&& (pre.has_path(p) ==> (r matches Ok(i) && i as int == pre.path_index(p) && post == pre))
    &&& (!pre.has_path(p) ==> match r {
        Ok(i) => {
            &&& i as int == pre@.len()
            &&& post@.len() == pre@.len() + 1
            &&& post@.take(pre@.len() as int) == pre@
            &&& post.paths() == pre.paths().push(p)
        },
        Err(_) => post == pre,
    })
    &&& (r matches Ok(i) ==> post.has_path(p) && i as int == post.path_index(p) && (i as int)
        < post@.len())
}

impl<T> Resource<T> {
    /// Loads a path through the injected loader context, deduplicating: the
    /// loader runs only for a path this cache has never seen.
    pub fn load_with(&mut self, file: &str, loader: &mut T::Loader) -> (r: Result<
        usize,
        T::Error,
    >) where T: Load
        requires
            old(self).wf(),
        ensures
            load_result_spec(*old(self), *final(self), file@, r),
            old(self).has_path(file@) ==> *final(loader) == *old(loader),
    {
        match self.find(file) {
            Some(i) => Ok(i),
            None => {
                match T::load(file, loader) {
                    Ok(item) => {
                        let ghost pre = *self;
                        let id = self.items.len();
                        self.items.push(item);
                        self.files.push(file.to_owned());
                        proof {
                            assert(self.paths() =~= pre.paths().push(file@));
                            assert forall|a: int, b: int|
                                0 <= a < b < self.paths().len() implies self.paths()[a]
                                != self.paths()[b] by {
                                if b < self.paths().len() - 1 {
                                    assert(pre.paths()[a] != pre.paths()[b]);
                                } else {
                                    assert(self.paths()[b] == file@);
                                    assert(self.paths()[a] == pre.paths()[a]);
                                }
                            }
                            assert(self@.take(pre@.len() as int) =~= pre@);
                            lemma_path_index_is(self.paths(), file@, pre.paths().len() as int);
                        }
                        Ok(id)
                    },
                    Err(e) => Err(e),
                }
            },
        }
    }

    /// Loads a path for a type whose loader needs no context.
    pub fn load(&mut self, file: &str) -> (r: Result<usize, T::Error>) where T: Load<Loader = ()>
        requires
            old(self).wf(),
        ensures
            load_result_spec(*old(self), *final(self), file@, r),
    {
        self.load_with(file, &mut ())
    }

    /// Loads a path and borrows the loaded item straight away: exactly a
    /// `load_with` followed by a `get` of the returned handle, with the same
    /// cache effects in every outcome.
    pub fn receive_with(&mut self, file: &str, loader: &mut T::Loader) -> (r: Result<
        &T,
        T::Error,
    >) where T: Load
        requires
            old(self).wf(),
        ensures
            final(self).wf(),
            r matches Ok(v) ==> final(self).has_path(file@) && *v == final(self)@[final(self).path_index(file@)],
            r matches Ok(v) ==> if old(self).has_path(file@) {
                *final(self) == *old(self) && *final(loader) == *old(loader) && *v == old(
                    self,
                )@[old(self).path_index(file@)]
            } else {
                &&& final(self)@.len() == old(self)@.len() + 1
                &&& final(self)@.take(old(self)@.len() as int) == old(self)@
                &&& final(self).paths() == old(self).paths().push(file@)
                &&& *v == final(self)@[old(self)@.len() as int]
            },
            r matches Err(_) ==> !old(self).has_path(file@) && *final(self) == *old(self),
    {
        let idx = match self.load_with(file, loader) {
            Ok(idx) => idx,
            Err(e) => {
                return Err(e);
            },
        };
        Ok(&self.items[idx])
    }

    /// As `receive_with`, for a type whose loader needs no context.
    pub fn receive(&mut self, file: &str) -> (r: Result<&T, T::Error>) where T: Load<Loader = ()>
        requires
            old(self).wf(),
        ensures
            final(self).wf(),
            r matches Ok(v) ==> final(self).has_path(file@) && *v == final(self)@[final(self).path_index(file@)],
            r matches Ok(v) ==> if old(self).has_path(file@) {
                *final(self) == *old(self) && *v == old(self)@[old(self).path_index(file@)]
            } else {
                &&& final(self)@.len() == old(self)@.len() + 1
                &&& final(self)@.take(old(self)@.len() as int) == old(self)@
                &&& final(self).paths() == old(self).paths().push(file@)
                &&& *v == final(self)@[old(self)@.len() as int]
            },
            r matches Err(_) ==> !old(self).has_path(file@) && *final(self) == *old(self),
    {
        self.receive_with(file, &mut ())
    }
}

impl<T> Get<usize> for Resource<T> {
    type Item = T;

    open spec fn get_ready(&self) -> bool {
        true
    }

    open spec fn get_spec(&self, by: usize) -> Option<T> {
        if (by as int) < self@.len() {
            Some(self@[by as int])
        } else {
            None
        }
    }

    fn get(&self, by: usize) -> (r: Option<&T>) {
        if by < self.items.len() {
            Some(&self.items[by])
        } else {
            None
        }
    }
}

impl<'a, T> Get<&'a str> for Resource<T> {
    type Item = T;

    open spec fn get_ready(&self) -> bool {
        self.wf()
    }

    open spec fn get_spec(&self, by: &'a str) -> Option<T> {
        if self.has_path(by@) {
            Some(self@[self.path_index(by@)])
        } else {
            None
        }
    }

    fn get(&self, by: &'a str) -> (r: Option<&T>) {
        match self.find(by) {
            Some(i) => Some(&self.items[i]),
            None => None,
        }
    }
}

impl<T> Get<String> for Resource<T> {
    type Item = T;

    open spec fn get_ready(&self) -> bool {
        self.wf()
    }

    open spec fn get_spec(&self, by: String) -> Option<T> {
        if self.has_path(by@) {
            Some(self@[self.path_index(by@)])
        } else {
            None
        }
    }

    fn get(&self, by: String) -> (r: Option<&T>) {
        match self.find(by.as_str()) {
            Some(i) => Some(&self.items[i]),
            None => None,
        }
    }
}

impl<T> GetMut<usize> for Resource<T> {
    type Item = T;

    open spec fn get_mut_ready(&self) -> bool {
        true
    }

    open spec fn get_mut_spec(&self, by: usize) -> Option<T> {
        if (by as int) < self@.len() {
            Some(self@[by as int])
        } else {
            None
        }
    }

    fn get_mut(&mut self, by: usize) -> (r: Option<&mut T>) {
        if by < self.items.len() {
            Some(&mut self.items[by])
        } else {
            None
        }
    }
}

impl<'a, T> GetMut<&'a str> for Resource<T> {
    type Item = T;

    open spec fn get_mut_ready(&self) -> bool {
        self.wf()
    }

    open spec fn get_mut_spec(&self, by: &'a str) -> Option<T> {
        if self.has_path(by@) {
            Some(self@[self.path_index(by@)])
        } else {
            None
        }
    }

    fn get_mut(&mut self, by: &'a str) -> (r: Option<&mut T>) {
        match self.find(by) {
            Some(i) => Some(&mut self.items[i]),
            None => None,
        }
    }
}

impl<T> GetMut<String> for Resource<T> {
    type Item = T;

    open spec fn get_mut_ready(&self) -> bool {
        self.wf()
    }

    open spec fn get_mut_spec(&self, by: String) -> Option<T> {
        if self.has_path(by@) {
            Some(self@[self.path_index(by@)])
        } else {
            None
        }
    }

    fn get_mut(&mut self, by: String) -> (r: Option<&mut T>) {
        match self.find(by.as_str()) {
            Some(i) => Some(&mut self.items[i]),
            None => None,
        }
    }
}

impl<T> Resource<T> {
    /// Retrieval by handle or by path; an unknown key answers "not found".
    pub fn get<B>(&self, by: B) -> (r: Option<&T>) where Self: Get<B, Item = T>
        requires
            Get::get_ready(self),
        ensures
            match r {
                Some(v) => Get::get_spec(self, by) == Some(*v),
                None => Get::get_spec(self, by) is None,
            },
    {
        Get::get(self, by)
    }

    /// Mutable retrieval by handle; an unknown handle answers "not found".
    pub fn get_mut<B>(&mut self, by: B) -> (r: Option<&mut T>) where Self: GetMut<B, Item = T>
        requires
            GetMut::get_mut_ready(old(self)),
        ensures
            match r {
                Some(v) => GetMut::get_mut_spec(old(self), by) == Some(*v),
                None => GetMut::get_mut_spec(old(self), by) is None,
            },
    {
        GetMut::get_mut(self, by)
    }
}

impl<T> Default for Resource<T> {
    fn default() -> (r: Resource<T>)
        ensures
            r.wf(),
            r@ == Seq::<T>::empty(),
            r.paths() == Seq::<Seq<char>>::empty(),
    {
        Resource::new()
    }
}

/// The path column after one successful load of `p`: unchanged when `p`
/// was already held, extended by exactly `p` otherwise.
pub open spec fn with_path(paths: Seq<Seq<char>>, p: Seq<char>) -> Seq<Seq<char>> {
    if seq_has_path(paths, p) {
        paths
    } else {
        paths.push(p)
    }
}

/// The path column after successfully loading each of `ps` in order.
pub open spec fn with_paths(paths: Seq<Seq<char>>, ps: Seq<Seq<char>>) -> Seq<Seq<char>>
    decreases ps.len(),
{
    if ps.len() == 0 {
        paths
    } else {
        with_paths(with_path(paths, ps[0]), ps.skip(1))
    }
}

/// A successful load leaves the path column exactly `with_path` of it.
pub proof fn lemma_load_with_path<T, E>(
    pre: Resource<T>,
    post: Resource<T>,
    p: Seq<char>,
    r: Result<usize, E>,
)
    requires
        load_result_spec(pre, post, p, r),
        r is Ok,
    ensures
        post.paths() == with_path(pre.paths(), p),
{
}

/// Loading one more path at the end of a run is the same as appending it
/// to the run.
pub proof fn lemma_with_paths_snoc(base: Seq<Seq<char>>, ps: Seq<Seq<char>>, x: Seq<char>)
    ensures
        with_paths(base, ps.push(x)) == with_path(with_paths(base, ps), x),
    decreases ps.len(),
{
    if ps.len() == 0 {
        assert(ps.push(x)[0] == x);
        assert(ps.push(x).skip(1) =~= Seq::<Seq<char>>::empty());
        assert(with_paths(base, ps.push(x)) == with_paths(
            with_path(base, x),
            Seq::<Seq<char>>::empty(),
        ));
        assert(with_paths(with_path(base, x), Seq::<Seq<char>>::empty()) == with_path(base, x));
        assert(with_paths(base, ps) == base);
    } else {
        assert(ps.push(x)[0] == ps[0]);
        assert(ps.push(x).skip(1) =~= ps.skip(1).push(x));
        assert(with_paths(base, ps.push(x)) == with_paths(
            with_path(base, ps[0]),
            ps.skip(1).push(x),
        ));
        lemma_with_paths_snoc(with_path(base, ps[0]), ps.skip(1), x);
        assert(with_paths(base, ps) == with_paths(with_path(base, ps[0]), ps.skip(1)));
    }
}

/// A cache grew out of another: the old items and paths stand unchanged as
/// a prefix; partial progress is kept, never rolled back.
pub open spec fn cache_extends<T>(pre: Resource<T>, post: Resource<T>) -> bool {
    &&& post@.len() >= pre@.len()
    &&& post@.take(pre@.len() as int) == pre@
    &&& post.paths().len() == post@.len()
    &&& post.paths().take(pre@.len() as int) == pre.paths()
}

/// One load leaves the cache an extension of what it was.
pub proof fn lemma_load_extends<T, E>(
    pre: Resource<T>,
    post: Resource<T>,
    p: Seq<char>,
    r: Result<usize, E>,
)
    requires
        pre.wf(),
        load_result_spec(pre, post, p, r),
    ensures
        cache_extends(pre, post),
{
    if pre.has_path(p) || r is Err {
        assert(post@.take(pre@.len() as int) =~= pre@);
        assert(post.paths().take(pre@.len() as int) =~= pre.paths());
    } else {
        assert(post.paths().take(pre@.len() as int) =~= pre.paths());
    }
}

/// Extension composes.
pub proof fn lemma_extends_trans<T>(a: Resource<T>, b: Resource<T>, c: Resource<T>)
    requires
        cache_extends(a, b),
        cache_extends(b, c),
    ensures
        cache_extends(a, c),
{
    assert(c@.take(a@.len() as int) =~= a@) by {
        assert(forall|i: int|
            0 <= i < a@.len() ==> c@[i] == b@[i] && #[trigger] b@[i] == a@[i]);
    }
    assert(c.paths().take(a@.len() as int) =~= a.paths()) by {
        assert(forall|i: int|
            0 <= i < a@.len() ==> c.paths()[i] == b.paths()[i] && #[trigger] b.paths()[i]
                == a.paths()[i]);
    }
}

/// A cache never changes its mind: a handle valid in the smaller cache
/// names the same path, at the same index, in every extension.
pub proof fn lemma_extends_keeps_index<T>(pre: Resource<T>, post: Resource<T>, p: Seq<char>)
    requires
        pre.wf(),
        post.wf(),
        cache_extends(pre, post),
        pre.has_path(p),
    ensures
        post.has_path(p),
        post.path_index(p) == pre.path_index(p),
{
    let k = pre.path_index(p);
    assert(0 <= k < pre.paths().len() && pre.paths()[k] == p);
    assert(post.paths().take(pre@.len() as int)[k] == pre.paths()[k]);
    lemma_path_index_is(post.paths(), p, k);
}

/// One load per distinct path, ever: after a first load of a fresh path `p`
/// appended it at handle `n`, the cache holds `p` at `n`, so by
/// `load_result_spec` any later load of `p` answers `Ok(n)`, changes
/// nothing, and leaves the loader untouched.
pub proof fn lemma_load_once_per_path(paths: Seq<Seq<char>>, p: Seq<char>)
    requires
        !seq_has_path(paths, p),
        forall|a: int, b: int| 0 <= a < b < paths.len() ==> paths[a] != paths[b],
    ensures
        seq_has_path(paths.push(p), p),
        seq_path_index(paths.push(p), p) == paths.len(),
        forall|a: int, b: int|
            0 <= a < b < paths.push(p).len() ==> paths.push(p)[a] != paths.push(p)[b],
{
    let post = paths.push(p);
    assert forall|a: int, b: int| 0 <= a < b < post.len() implies post[a] != post[b] by {
        if b < post.len() - 1 {
            assert(paths[a] != paths[b]);
        } else {
            assert(post[b] == p);
            assert(post[a] == paths[a]);
        }
    }
    lemma_path_index_is(post, p, paths.len() as int);
}

} // verus!
