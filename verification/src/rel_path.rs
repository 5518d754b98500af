//! Paths relative to the folder that a scan starts from: the keys under which
//! the store keeps its records.

use std::path::Path;
use vstd::pervasive::unreached;
use vstd::prelude::*;

verus! {

/// What is left of the path `child` once the leading path `root` is taken off it,
/// folder by folder, as the path rules of the platform have it; `None` where
/// `child` does not start with `root`.
pub uninterp spec fn stripped(child: Seq<char>, root: Seq<char>) -> Option<Seq<char>>;

/// Whether a path is relative, as the path rules of the platform have it.
pub uninterp spec fn is_relative(path: Seq<char>) -> bool;

/// `Path::strip_prefix` on paths given as text: `child` without the leading
/// `root`, or `None` where `root` does not lead `child`.
#[verifier::external_body]
fn path_strip_prefix<'a>(child: &'a str, root: &str) -> (rest: Option<&'a str>)
    ensures
        rest is Some <==> stripped(child@, root@) is Some,
        rest matches Some(r) ==> stripped(child@, root@) == Some(r@),
{
    match Path::new(child).strip_prefix(root) {
        Ok(rest) => rest.to_str(),
        Err(_) => None,
    }
}

/// `Path::is_relative` on a path given as text.
#[verifier::external_body]
fn path_is_relative(path: &str) -> (relative: bool)
    ensures
        relative == is_relative(path@),
{
    Path::new(path).is_relative()
}

/// A path that is relative to the folder walked through. The store is keyed by
/// such paths, and only by them.
#[derive(Debug, PartialEq, Eq)]
pub struct RelPath {
    rel_path: String,
}

impl View for RelPath {
    type V = Seq<char>;

    closed spec fn view(&self) -> Seq<char> {
        self.rel_path@
    }
}

impl RelPath {
    #[verifier::type_invariant]
    spec fn relative(&self) -> bool {
        is_relative(self.rel_path@)
    }

    /// Returns a path relative to the root folder walked through
    pub fn get_relative_path(&self) -> (path: &str)
        ensures
            path@ == self@,
            is_relative(path@),
    {
        proof {
            use_type_invariant(self);
        }
        self.rel_path.as_str()
    }
}

/// Makes relative paths out of the paths found under one root folder.
pub struct RelPathBuilder<'a> {
    root_folder: &'a str,
}

impl<'a> RelPathBuilder<'a> {
    /// The root folder that paths are taken relative to.
    pub closed spec fn root(&self) -> Seq<char> {
        self.root_folder@
    }

    /// The path that `child` has relative to the root folder, where it lies
    /// under that folder and what is left of it is a relative path.
    pub open spec fn relative(&self, child: Seq<char>) -> Option<Seq<char>> {
        match stripped(child, self.root()) {
            Some(rest) => if is_relative(rest) {
                Some(rest)
            } else {
                None
            },
            None => None,
        }
    }

    /// A builder for the paths under `root_folder`.
    pub fn new(root_folder: &'a str) -> (builder: Self)
        ensures
            builder.root() == root_folder@,
    {
        Self { root_folder }
    }

    /// The relative path of `child`, which lies under the root folder.
    pub fn db_path(&self, child: &str) -> (path: RelPath)
        requires
            self.relative(child@) is Some,
        ensures
            self.relative(child@) == Some(path@),
    {
        match path_strip_prefix(child, self.root_folder) {
            Some(rest) => RelPath { rel_path: rest.to_owned() },
            None => unreached(),
        }
    }

    /// The relative path of `child` where it lies under the root folder, and
    /// `None` where it does not.
    pub fn try_db_path(&self, child: &str) -> (path: Option<RelPath>)
        ensures
            path is Some <==> self.relative(child@) is Some,
            path matches Some(p) ==> self.relative(child@) == Some(p@),
    {
        match path_strip_prefix(child, self.root_folder) {
            Some(rest) => if path_is_relative(rest) {
                Some(self.db_path(child))
            } else {
                None
            },
            None => None,
        }
    }
}

} // verus!
