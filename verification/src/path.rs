//! A structural model of filesystem paths.
//!
//! A path is an optional root (`absolute`) followed by a sequence of
//! components, none of which is interpreted further. The operations mirror
//! the ones the resolver needs: joining a relative path onto a directory,
//! stepping up to the parent directory, and reading the base name.

use vstd::prelude::*;

verus! {

/// The mathematical value of a [`FilePath`]: a root flag and the
/// components as sequences of characters.
pub struct PathView {
    pub absolute: bool,
    pub components: Seq<Seq<char>>,
}

impl PathView {
    /// The empty path: relative, with no components.
    pub open spec fn empty() -> PathView {
        PathView { absolute: false, components: Seq::empty() }
    }

    /// The empty path: no root and no components, standing for "no
    /// candidate supplied". A bare root is not empty.
    pub open spec fn is_empty(self) -> bool {
        !self.absolute && self.components.len() == 0
    }

    /// `self` extended with the components of a relative path `rel`.
    pub open spec fn join(self, rel: PathView) -> PathView {
        PathView { absolute: self.absolute, components: self.components + rel.components }
    }

    /// `self` without its last component.
    pub open spec fn parent(self) -> PathView {
        PathView { absolute: self.absolute, components: self.components.drop_last() }
    }
}

/// A filesystem path held as explicit components, so that joining and
/// walking up to ancestors are plain data operations.
#[derive(Debug)]
pub struct FilePath {
    /// Whether the path starts at the filesystem root.
    pub absolute: bool,
    /// The path components in order, root (if any) excluded.
    pub components: Vec<String>,
}

impl View for FilePath {
    type V = PathView;

    open spec fn view(&self) -> PathView {
        PathView { absolute: self.absolute, components: self.components.deep_view() }
    }
}

impl FilePath {
    /// The empty path, standing for "no candidate supplied".
    pub fn empty() -> (r: FilePath)
        ensures
            r@ == PathView::empty(),
    {
        let r = FilePath { absolute: false, components: Vec::new() };
        proof {
            assert(r@.components =~= Seq::<Seq<char>>::empty());
        }
        r
    }

    /// Builds a path from its parts.
    pub fn new(absolute: bool, components: Vec<String>) -> (r: FilePath)
        ensures
            r@.absolute == absolute,
            r@.components == components.deep_view(),
    {
        FilePath { absolute, components }
    }

    pub fn is_absolute(&self) -> (r: bool)
        ensures
            r == self@.absolute,
    {
        self.absolute
    }

    pub fn component_count(&self) -> (n: usize)
        ensures
            n == self@.components.len(),
    {
        self.components.len()
    }

    /// True exactly when the path has no root and no components.
    pub fn is_empty(&self) -> (r: bool)
        ensures
            r == self@.is_empty(),
    {
        !self.absolute && self.components.len() == 0
    }

    /// An independent copy with the same value.
    pub fn duplicate(&self) -> (r: FilePath)
        ensures
            r@ == self@,
    {
        let mut comps: Vec<String> = Vec::new();
        let n: usize = self.components.len();
        for i in 0..n
            invariant
                n == self.components.len(),
                comps@.len() == i,
                forall|k: int| 0 <= k < i ==> comps@[k] == self.components@[k],
        {
            comps.push(self.components[i].clone());
        }
        proof {
            assert(comps@ =~= self.components@);
        }
        FilePath { absolute: self.absolute, components: comps }
    }

    /// The join of a directory and a relative path: the directory's root and
    /// components, followed by the relative path's components.
    pub fn join(&self, rel: &FilePath) -> (r: FilePath)
        requires
            !rel@.absolute,
        ensures
            r@ == self@.join(rel@),
    {
        let mut comps: Vec<String> = Vec::new();
        let n: usize = self.components.len();
        for i in 0..n
            invariant
                n == self.components.len(),
                comps@.len() == i,
                forall|k: int| 0 <= k < i ==> comps@[k] == self.components@[k],
        {
            comps.push(self.components[i].clone());
        }
        let m: usize = rel.components.len();
        for j in 0..m
            invariant
                n == self.components.len(),
                m == rel.components.len(),
                comps@.len() == n + j,
                forall|k: int| 0 <= k < n ==> comps@[k] == self.components@[k],
                forall|k: int| 0 <= k < j ==> comps@[n + k] == rel.components@[k],
        {
            comps.push(rel.components[j].clone());
        }
        proof {
            assert(comps@ =~= self.components@ + rel.components@);
        }
        let r = FilePath { absolute: self.absolute, components: comps };
        proof {
            assert(r@.components =~= self@.components + rel@.components);
        }
        r
    }

    /// Steps up to the parent directory by removing the last component.
    /// Returns `false`, leaving the path unchanged, when there is no
    /// component left to remove (the empty path or a bare root).
    pub fn pop(&mut self) -> (r: bool)
        ensures
            final(self)@.absolute == old(self)@.absolute,
            r == (old(self)@.components.len() > 0),
            r ==> final(self)@ == old(self)@.parent(),
            !r ==> final(self)@ == old(self)@,
    {
        if self.components.len() > 0 {
            self.components.pop();
            proof {
                assert(self@.components =~= old(self)@.components.drop_last());
            }
            true
        } else {
            false
        }
    }

    /// The base name: the last component, if there is one.
    pub fn file_name(&self) -> (r: Option<&String>)
        ensures
            match r {
                Some(name) => self@.components.len() > 0 && name@ == self@.components.last(),
                None => self@.components.len() == 0,
            },
    {
        if self.components.len() > 0 {
            Some(&self.components[self.components.len() - 1])
        } else {
            None
        }
    }
}

} // verus!
