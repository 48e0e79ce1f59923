//! The resolver: from a request path to the file that answers it.
//!
//! Resolution needs to know what exists under the site root, which only the
//! caller can find out. So it runs as a dialogue: [`begin`] and [`proceed`]
//! either ask for the kind of one path or give the final answer, and the
//! caller probes the path and hands the answer back. [`resolution`] states
//! the outcome of the whole dialogue against a model of the files.

use vstd::prelude::*;
use crate::path::{
    candidate, candidate_for, html_path, index_page, index_pair_of, is_markdown, markdown_path,
    markdown_sibling, markdown_sibling_of,
};
use crate::site::{kind_of, FileKind, Tree};

verus! {

/// How a request is answered. `P` is the type of a path: `String` in running
/// code, `Seq<char>` in contracts.
#[derive(Clone, Debug, PartialEq, Eq)]
pub enum Resolution<P> {
    /// Render the Markdown source at this path and answer with the HTML.
    Render(P),
    /// Answer with the file at this path as it is.
    Static(P),
    /// No file answers the request.
    NotFound,
}

/// A question that is open while a request is being resolved.
#[derive(Clone, Debug, PartialEq, Eq)]
pub enum Pending<P> {
    /// What stands at the candidate itself? Asked of a candidate that is not
    /// an `html` path.
    Candidate(P),
    /// Does the Markdown source beside the page exist?
    Source { page: P, source: P },
    /// Does the page itself exist?
    Page(P),
}

/// Where the resolution of a request stands.
#[derive(Clone, Debug, PartialEq, Eq)]
pub enum Progress<P> {
    /// The kind of the file at the pending question's path is needed.
    Probe(Pending<P>),
    /// The request is resolved.
    Done(Resolution<P>),
}

impl<P: View> View for Resolution<P> {
    type V = Resolution<P::V>;

    open spec fn view(&self) -> Resolution<P::V> {
        match self {
            Resolution::Render(path) => Resolution::Render(path@),
            Resolution::Static(path) => Resolution::Static(path@),
            Resolution::NotFound => Resolution::NotFound,
        }
    }
}

impl<P: View> View for Pending<P> {
    type V = Pending<P::V>;

    open spec fn view(&self) -> Pending<P::V> {
        match self {
            Pending::Candidate(path) => Pending::Candidate(path@),
            Pending::Source { page, source } => Pending::Source { page: page@, source: source@ },
            Pending::Page(path) => Pending::Page(path@),
        }
    }
}

impl<P: View> View for Progress<P> {
    type V = Progress<P::V>;

    open spec fn view(&self) -> Progress<P::V> {
        match self {
            Progress::Probe(pending) => Progress::Probe(pending@),
            Progress::Done(resolution) => Progress::Done(resolution@),
        }
    }
}

impl<P> Pending<P> {
    /// The path whose kind the question asks for.
    pub open spec fn probe_path(self) -> P {
        match self {
            Pending::Candidate(path) => path,
            Pending::Source { page, source } => source,
            Pending::Page(path) => path,
        }
    }
}

impl<P> Progress<P> {
    /// An upper bound on the probes that are still to come.
    pub open spec fn probes_left(self) -> nat {
        match self {
            Progress::Probe(Pending::Candidate(_)) => 3,
            Progress::Probe(Pending::Source { .. }) => 2,
            Progress::Probe(Pending::Page(_)) => 1,
            Progress::Done(_) => 0,
        }
    }
}

/// The question that asks for the Markdown source beside `page`.
pub open spec fn ask_for_source(page: Seq<char>) -> Progress<Seq<char>> {
    Progress::Probe(Pending::Source { page, source: markdown_sibling(page) })
}

/// Where resolution stands before any probe: a candidate that is an `html`
/// path goes straight to the question for its Markdown source.
pub open spec fn first_step(request: Seq<char>) -> Progress<Seq<char>> {
    let path = candidate(request);
    if html_path(path) {
        ask_for_source(path)
    } else {
        Progress::Probe(Pending::Candidate(path))
    }
}

/// Where resolution stands once the pending question is answered by `kind`.
pub open spec fn next_step(pending: Pending<Seq<char>>, kind: FileKind) -> Progress<Seq<char>> {
    match pending {
        Pending::Candidate(path) => if kind is File {
            if markdown_path(path) {
                Progress::Done(Resolution::Render(path))
            } else {
                Progress::Done(Resolution::Static(path))
            }
        } else {
            ask_for_source(index_page(path))
        },
        Pending::Source { page, source } => if kind is Missing {
            Progress::Probe(Pending::Page(page))
        } else {
            Progress::Done(Resolution::Render(source))
        },
        Pending::Page(path) => if kind is Missing {
            Progress::Done(Resolution::NotFound)
        } else {
            Progress::Done(Resolution::Static(path))
        },
    }
}

/// The answer that the dialogue reaches from `progress` when every probe is
/// answered from `tree`.
pub open spec fn settle(tree: Tree, progress: Progress<Seq<char>>) -> Resolution<Seq<char>>
    decreases progress.probes_left(),
{
    match progress {
        Progress::Done(resolution) => resolution,
        Progress::Probe(pending) => settle(
            tree,
            next_step(pending, kind_of(tree, pending.probe_path())),
        ),
    }
}

/// The candidate after the directory-index rule: a candidate that is not an
/// `html` path and is missing or a directory gets `index.html` appended.
pub open spec fn indexed(tree: Tree, path: Seq<char>) -> Seq<char> {
    if !html_path(path) && !(kind_of(tree, path) is File) {
        index_page(path)
    } else {
        path
    }
}

/// The candidate after the Markdown-preferred rule: an `html` path gives way
/// to the Markdown source beside it, where that exists.
pub open spec fn preferred(tree: Tree, path: Seq<char>) -> Seq<char> {
    if html_path(path) && !(kind_of(tree, markdown_sibling(path)) is Missing) {
        markdown_sibling(path)
    } else {
        path
    }
}

/// How `request` is answered when the files are those of `tree`: the
/// resolution rules, applied in order.
pub open spec fn resolution(tree: Tree, request: Seq<char>) -> Resolution<Seq<char>> {
    let path = preferred(tree, indexed(tree, candidate(request)));
    if kind_of(tree, path) is Missing {
        Resolution::NotFound
    } else if markdown_path(path) {
        Resolution::Render(path)
    } else {
        Resolution::Static(path)
    }
}

impl Pending<String> {
    /// The path to probe.
    pub fn path(&self) -> (path: &String)
        ensures
            path@ == self@.probe_path(),
    {
        match self {
            Pending::Candidate(path) => path,
            Pending::Source { page, source } => source,
            Pending::Page(path) => path,
        }
    }
}

/// Starts the resolution of `request`, a relative URL path without its
/// leading slash.
pub fn begin(request: &str) -> (progress: Progress<String>)
    ensures
        progress@ == first_step(request@),
{
    let path = candidate_for(request);
    match markdown_sibling_of(path.as_str()) {
        Some(source) => Progress::Probe(Pending::Source { page: path, source }),
        None => Progress::Probe(Pending::Candidate(path)),
    }
}

/// Goes on with the resolution once the path of `pending` was found to be of
/// kind `kind`.
pub fn proceed(pending: Pending<String>, kind: FileKind) -> (progress: Progress<String>)
    ensures
        progress@ == next_step(pending@, kind),
        progress@.probes_left() < Progress::Probe(pending@).probes_left(),
{
    match pending {
        Pending::Candidate(path) => match kind {
            FileKind::File => if is_markdown(path.as_str()) {
                Progress::Done(Resolution::Render(path))
            } else {
                Progress::Done(Resolution::Static(path))
            },
            _ => {
                let (page, source) = index_pair_of(path.as_str());
                Progress::Probe(Pending::Source { page, source })
            },
        },
        Pending::Source { page, source } => match kind {
            FileKind::Missing => Progress::Probe(Pending::Page(page)),
            _ => Progress::Done(Resolution::Render(source)),
        },
        Pending::Page(path) => match kind {
            FileKind::Missing => Progress::Done(Resolution::NotFound),
            _ => Progress::Done(Resolution::Static(path)),
        },
    }
}

} // verus!
