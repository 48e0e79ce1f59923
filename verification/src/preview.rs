//! The preview server's side of a request: a dialogue in which the library
//! decides and the caller touches the files.
//!
//! An [`Exchange`] either asks for the kind of a path, asks for the text of
//! a file, or holds the reply. The caller answers a probe through
//! [`probed`] and a read through [`read`], until the reply is there.

use vstd::prelude::*;
use crate::error::SiteError;
use crate::render::{loaded, rendered, template_path, Page, PageView};
use crate::resolver::{begin, first_step, next_step, proceed, Pending, Progress, Resolution};
use crate::site::{contents_of, kind_of, FileKind, Tree};

verus! {

/// What is sent back. `P` is the type of a text: `String` in running code,
/// `Seq<char>` in contracts.
#[derive(Clone, Debug, PartialEq, Eq)]
pub enum Reply<P> {
    /// The HTML of a rendered source.
    Page(P),
    /// The file at this path, as it is.
    File(P),
    /// An error.
    Failure(SiteError),
}

/// A read that is open while a source is being rendered. `G` is the type of
/// a page: [`Page`] in running code, [`PageView`] in contracts.
#[derive(Debug)]
pub enum Reading<P, G> {
    /// The text of the source at this path is needed.
    Source(P),
    /// The text of the template that this page names is needed.
    Template(G),
}

/// Where an exchange stands.
#[derive(Debug)]
pub enum Exchange<P, G> {
    /// The kind of the file at the pending question's path is needed.
    Probe(Pending<P>),
    /// The text of the file at the reading's path is needed.
    Read(Reading<P, G>),
    /// The exchange is over.
    Reply(Reply<P>),
}

impl<P: View> View for Reply<P> {
    type V = Reply<P::V>;

    open spec fn view(&self) -> Reply<P::V> {
        match self {
            Reply::Page(html) => Reply::Page(html@),
            Reply::File(path) => Reply::File(path@),
            Reply::Failure(error) => Reply::Failure(*error),
        }
    }
}

impl<P: View, G: View> View for Reading<P, G> {
    type V = Reading<P::V, G::V>;

    open spec fn view(&self) -> Reading<P::V, G::V> {
        match self {
            Reading::Source(path) => Reading::Source(path@),
            Reading::Template(page) => Reading::Template(page@),
        }
    }
}

impl<P: View, G: View> View for Exchange<P, G> {
    type V = Exchange<P::V, G::V>;

    open spec fn view(&self) -> Exchange<P::V, G::V> {
        match self {
            Exchange::Probe(pending) => Exchange::Probe(pending@),
            Exchange::Read(reading) => Exchange::Read(reading@),
            Exchange::Reply(reply) => Exchange::Reply(reply@),
        }
    }
}

impl Reading<Seq<char>, PageView> {
    /// The path of the file whose text is needed.
    pub open spec fn read_path(self) -> Seq<char> {
        match self {
            Reading::Source(path) => path,
            Reading::Template(page) => template_path(page.template),
        }
    }
}

impl<P, G> Exchange<P, G> {
    /// An upper bound on the answers that are still to come.
    pub open spec fn answers_left(self) -> nat {
        match self {
            Exchange::Probe(Pending::Candidate(_)) => 5,
            Exchange::Probe(Pending::Source { .. }) => 4,
            Exchange::Probe(Pending::Page(_)) => 3,
            Exchange::Read(Reading::Source(_)) => 2,
            Exchange::Read(Reading::Template(_)) => 1,
            Exchange::Reply(_) => 0,
        }
    }
}

/// The reply that stands for the outcome of a render.
pub open spec fn reply_of(html: Result<Seq<char>, SiteError>) -> Reply<Seq<char>> {
    match html {
        Ok(html) => Reply::Page(html),
        Err(error) => Reply::Failure(error),
    }
}

/// The exchange that goes on from where the resolver stands: a source to
/// render is read next, a static file or a miss is the reply.
pub open spec fn resolved(progress: Progress<Seq<char>>) -> Exchange<Seq<char>, PageView> {
    match progress {
        Progress::Probe(pending) => Exchange::Probe(pending),
        Progress::Done(Resolution::Render(path)) => Exchange::Read(Reading::Source(path)),
        Progress::Done(Resolution::Static(path)) => Exchange::Reply(Reply::File(path)),
        Progress::Done(Resolution::NotFound) => Exchange::Reply(
            Reply::Failure(SiteError::NotFound),
        ),
    }
}

/// Where the exchange for `request` stands before any answer.
pub open spec fn opened(request: Seq<char>) -> Exchange<Seq<char>, PageView> {
    resolved(first_step(request))
}

/// Where the exchange stands once the pending question is answered by
/// `kind`.
pub open spec fn after_probe(pending: Pending<Seq<char>>, kind: FileKind) -> Exchange<
    Seq<char>,
    PageView,
> {
    resolved(next_step(pending, kind))
}

/// Where the exchange stands once the read gave `text`: a source becomes a
/// page whose template is read next, a template is expanded into the reply,
/// and any failure ends the exchange.
pub open spec fn after_read(reading: Reading<Seq<char>, PageView>, text: Option<Seq<char>>)
    -> Exchange<Seq<char>, PageView> {
    match reading {
        Reading::Source(_) => match loaded(text) {
            Ok(page) => Exchange::Read(Reading::Template(page)),
            Err(error) => Exchange::Reply(Reply::Failure(error)),
        },
        Reading::Template(page) => Exchange::Reply(reply_of(rendered(page, text))),
    }
}

/// The reply that the exchange reaches from `exchange` when every probe and
/// every read is answered from `tree`.
pub open spec fn outcome(tree: Tree, exchange: Exchange<Seq<char>, PageView>) -> Reply<Seq<char>>
    decreases exchange.answers_left(),
{
    match exchange {
        Exchange::Reply(reply) => reply,
        Exchange::Probe(pending) => outcome(
            tree,
            after_probe(pending, kind_of(tree, pending.probe_path())),
        ),
        Exchange::Read(reading) => outcome(
            tree,
            after_read(reading, contents_of(tree, reading.read_path())),
        ),
    }
}

impl Reading<String, Page> {
    /// The path of the file to read.
    pub fn path(&self) -> (path: String)
        ensures
            path@ == self@.read_path(),
    {
        match self {
            Reading::Source(path) => path.clone(),
            Reading::Template(page) => page.template_path(),
        }
    }
}

/// The exchange that goes on from where the resolver stands.
fn resolve(progress: Progress<String>) -> (exchange: Exchange<String, Page>)
    ensures
        exchange@ == resolved(progress@),
{
    match progress {
        Progress::Probe(pending) => Exchange::Probe(pending),
        Progress::Done(Resolution::Render(path)) => Exchange::Read(Reading::Source(path)),
        Progress::Done(Resolution::Static(path)) => Exchange::Reply(Reply::File(path)),
        Progress::Done(Resolution::NotFound) => Exchange::Reply(
            Reply::Failure(SiteError::NotFound),
        ),
    }
}

/// Starts the exchange for `request`, a relative URL path without its
/// leading slash.
pub fn open(request: &str) -> (exchange: Exchange<String, Page>)
    ensures
        exchange@ == opened(request@),
{
    resolve(begin(request))
}

/// Goes on with the exchange once the path of `pending` was found to be of
/// kind `kind`.
pub fn probed(pending: Pending<String>, kind: FileKind) -> (exchange: Exchange<String, Page>)
    ensures
        exchange@ == after_probe(pending@, kind),
        exchange@.answers_left() < Exchange::<Seq<char>, PageView>::Probe(pending@).answers_left(),
{
    resolve(proceed(pending, kind))
}

/// Goes on with the exchange once reading the path of `reading` gave
/// `text`, or nothing where the file could not be read.
pub fn read(reading: Reading<String, Page>, text: Option<&str>) -> (exchange: Exchange<
    String,
    Page,
>)
    ensures
        exchange@ == after_read(reading@, text.deep_view()),
        exchange@.answers_left() < Exchange::<Seq<char>, PageView>::Read(reading@).answers_left(),
{
    match reading {
        Reading::Source(_) => match Page::load(text) {
            Ok(page) => Exchange::Read(Reading::Template(page)),
            Err(error) => Exchange::Reply(Reply::Failure(error)),
        },
        Reading::Template(page) => match page.render(text) {
            Ok(html) => Exchange::Reply(Reply::Page(html)),
            Err(error) => Exchange::Reply(Reply::Failure(error)),
        },
    }
}

} // verus!
