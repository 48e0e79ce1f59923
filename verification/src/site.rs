//! A mathematical model of the files that the generator works on: what the
//! contracts and laws of this crate mean by "exists", "is a directory" and
//! "the contents of".

use vstd::prelude::*;

verus! {

/// What a probe of a path can find.
#[derive(Clone, Copy, Debug, PartialEq, Eq, Structural)]
pub enum FileKind {
    /// Nothing is there.
    Missing,
    /// A regular file.
    File,
    /// A directory.
    Directory,
}

/// What stands at a path of the tree.
pub ghost enum Node {
    /// A regular file and its text.
    File(Seq<char>),
    /// A directory.
    Directory,
}

/// The files and directories below the working directory, by path. A path
/// outside the domain is missing.
pub type Tree = Map<Seq<char>, Node>;

/// What a probe of `path` finds in `tree`.
pub open spec fn kind_of(tree: Tree, path: Seq<char>) -> FileKind {
    if !tree.contains_key(path) {
        FileKind::Missing
    } else {
        match tree[path] {
            Node::File(_) => FileKind::File,
            Node::Directory => FileKind::Directory,
        }
    }
}

/// What reading `path` as text yields in `tree`: its text where it is a
/// regular file, nothing otherwise.
pub open spec fn contents_of(tree: Tree, path: Seq<char>) -> Option<Seq<char>> {
    if !tree.contains_key(path) {
        None
    } else {
        match tree[path] {
            Node::File(text) => Some(text),
            Node::Directory => None,
        }
    }
}

} // verus!
