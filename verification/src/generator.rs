//! What the generator as a whole does, stated against the model of the
//! files: how a source renders, how the preview server answers a request,
//! and what a build leaves behind.

use vstd::prelude::*;
use crate::artifact::artifact;
use crate::error::SiteError;
use crate::path::{html_path, markdown_path, markdown_sibling};
use crate::preview::{reply_of, Reply};
use crate::render::{loaded, rendered, template_path};
use crate::resolver::{resolution, Resolution};
use crate::site::{contents_of, kind_of, Node, Tree};

verus! {

/// The HTML of the source at `path`, or why there is none: the source is
/// read and made a page, then the template that it names is read and
/// expanded.
pub open spec fn rendering(tree: Tree, path: Seq<char>) -> Result<Seq<char>, SiteError> {
    match loaded(contents_of(tree, path)) {
        Err(error) => Err(error),
        Ok(page) => rendered(page, contents_of(tree, template_path(page.template))),
    }
}

/// The reply of the preview server to `request`: the request is resolved,
/// and a Markdown source that it resolves to is rendered.
pub open spec fn response(tree: Tree, request: Seq<char>) -> Reply<Seq<char>> {
    match resolution(tree, request) {
        Resolution::Render(path) => reply_of(rendering(tree, path)),
        Resolution::Static(path) => Reply::File(path),
        Resolution::NotFound => Reply::Failure(SiteError::NotFound),
    }
}

/// Whether `path` lies below the site root.
pub open spec fn under_site(path: Seq<char>) -> bool {
    "site/"@.is_prefix_of(path)
}

/// Whether `path` is a source of the site: a regular file below the site
/// root whose extension is `md`.
pub open spec fn is_source(tree: Tree, path: Seq<char>) -> bool {
    under_site(path) && markdown_path(path) && kind_of(tree, path) is File
}

/// Whether a build writes an artifact at `path`: it is the page beside a
/// source.
pub open spec fn has_artifact(tree: Tree, path: Seq<char>) -> bool {
    html_path(path) && is_source(tree, markdown_sibling(path))
}

/// Whether a build of `tree` runs to its end: every source renders, and no
/// directory stands where an artifact goes.
pub open spec fn buildable(tree: Tree) -> bool {
    &&& forall|path: Seq<char>| is_source(tree, path) ==> rendering(tree, path) is Ok
    &&& forall|path: Seq<char>| has_artifact(tree, path) ==> !(kind_of(tree, path) is Directory)
}

/// The files after a build of `tree`: beside each source stands its
/// artifact, and all else is as it was.
pub open spec fn built(tree: Tree) -> Tree {
    Map::new(
        |path: Seq<char>| tree.contains_key(path) || has_artifact(tree, path),
        |path: Seq<char>|
            if has_artifact(tree, path) {
                Node::File(artifact(rendering(tree, markdown_sibling(path))->Ok_0))
            } else {
                tree[path]
            },
    )
}

} // verus!
