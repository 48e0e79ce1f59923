//! The build: which files of a listing are sources, where the artifact of
//! each goes, and what it holds.

use vstd::prelude::*;
use crate::cli::Mode;
use crate::error::SiteError;
use crate::path::{html_sibling, html_sibling_of, markdown_path};
use crate::render::text_view;
use crate::text::concat;

verus! {

/// The line that opens every artifact.
pub open spec fn marker() -> Seq<char> {
    "<!-- built by gen -->\n"@
}

/// The text of the artifact of a page: the marker line, then the HTML.
pub open spec fn artifact(html: Seq<char>) -> Seq<char> {
    marker() + html
}

/// One source to render, and the path of the artifact to write beside it.
#[derive(Clone, Debug, PartialEq, Eq)]
pub struct Job {
    /// The path of the Markdown source.
    pub source: String,
    /// The path of the artifact: that of the source, under `html`.
    pub artifact: String,
}

impl View for Job {
    type V = (Seq<char>, Seq<char>);

    open spec fn view(&self) -> (Seq<char>, Seq<char>) {
        (self.source@, self.artifact@)
    }
}

/// What is left to do for a job once its source went through the renderer.
/// `P` is the type of a text: `String` in running code, `Seq<char>` in
/// contracts.
#[derive(Clone, Debug, PartialEq, Eq)]
pub enum Output<P> {
    /// Write this text to the file at this path.
    Write { path: P, text: P },
    /// Write nothing.
    Nothing,
    /// Stop the run: the file at this path failed with this error.
    Failed { path: P, error: SiteError },
}

impl<P: View> View for Output<P> {
    type V = Output<P::V>;

    open spec fn view(&self) -> Output<P::V> {
        match self {
            Output::Write { path, text } => Output::Write { path: path@, text: text@ },
            Output::Nothing => Output::Nothing,
            Output::Failed { path, error } => Output::Failed { path: path@, error: *error },
        }
    }
}

/// What a job comes to in a run of mode `mode`, given what rendering its
/// source gave: a failure stops the run and names the source; a page is
/// written as an artifact in a build, and dropped in any other mode.
pub open spec fn output_of(
    job: (Seq<char>, Seq<char>),
    mode: Mode,
    html: Result<Seq<char>, SiteError>,
) -> Output<Seq<char>> {
    match html {
        Err(error) => Output::Failed { path: job.0, error },
        Ok(html) => if mode == Mode::Build {
            Output::Write { path: job.1, text: artifact(html) }
        } else {
            Output::Nothing
        },
    }
}

/// The jobs of a listing: one for each `md` path, in the order of the
/// listing, each with the page beside the source as its artifact.
pub open spec fn planned(listing: Seq<Seq<char>>) -> Seq<(Seq<char>, Seq<char>)>
    decreases listing.len(),
{
    if listing.len() == 0 {
        Seq::empty()
    } else if markdown_path(listing.last()) {
        planned(listing.drop_last()).push((listing.last(), html_sibling(listing.last())))
    } else {
        planned(listing.drop_last())
    }
}

/// The views of a list of jobs.
pub open spec fn jobs_view(jobs: Seq<Job>) -> Seq<(Seq<char>, Seq<char>)> {
    jobs.map_values(|job: Job| job@)
}

/// The text of the artifact of a page.
pub fn artifact_of(html: &str) -> (text: String)
    ensures
        text@ == artifact(html@),
{
    concat("<!-- built by gen -->\n", html)
}

/// Concludes a job, given what rendering its source gave.
pub fn conclude(job: &Job, mode: Mode, html: Result<String, SiteError>) -> (output: Output<String>)
    ensures
        output@ == output_of(job@, mode, text_view(html)),
{
    match html {
        Err(error) => Output::Failed { path: job.source.clone(), error },
        Ok(html) => if mode.writes() {
            Output::Write { path: job.artifact.clone(), text: artifact_of(html.as_str()) }
        } else {
            Output::Nothing
        },
    }
}

/// Plans the build of the files in `listing`: the sources among them, each
/// with the path of its artifact.
pub fn plan(listing: &Vec<String>) -> (jobs: Vec<Job>)
    ensures
        jobs_view(jobs@) == planned(listing.deep_view()),
{
    let mut jobs: Vec<Job> = Vec::new();
    let mut at: usize = 0;
    while at < listing.len()
        invariant
            at <= listing.len(),
            jobs_view(jobs@) == planned(listing.deep_view().take(at as int)),
        decreases listing.len() - at,
    {
        let ghost before = jobs_view(jobs@);
        assert(listing.deep_view().take(at + 1).drop_last() =~= listing.deep_view().take(
            at as int,
        ));
        match html_sibling_of(listing[at].as_str()) {
            Some(artifact) => {
                jobs.push(Job { source: listing[at].clone(), artifact });
                assert(jobs_view(jobs@) =~= before.push(
                    (listing.deep_view()[at as int], html_sibling(listing.deep_view()[at as int])),
                ));
            },
            None => {},
        }
        at += 1;
    }
    assert(listing.deep_view().take(at as int) =~= listing.deep_view());
    jobs
}

} // verus!
