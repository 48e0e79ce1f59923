//! The ways in which rendering a page, answering a request or starting the
//! program can fail, and how each is reported.

use vstd::prelude::*;
use vstd::string::*;
use crate::text::concat;

verus! {

/// Why a render, a request or an invocation failed.
#[derive(Clone, Copy, Debug, PartialEq, Eq, Structural)]
pub enum SiteError {
    /// The source has fewer than two delimiter lines, its front-matter does
    /// not decode to a mapping from strings to strings, or it names no
    /// template.
    MalformedSource,
    /// The template that the page names could not be read.
    MissingTemplate,
    /// The template engine rejected the template.
    InvalidTemplate,
    /// A site file could not be read or written.
    IoFailure,
    /// No file answers the request.
    NotFound,
    /// The command line names no known mode.
    UsageError,
}

/// The words that describe an error.
pub open spec fn describe(error: SiteError) -> Seq<char> {
    match error {
        SiteError::MalformedSource => "malformed source"@,
        SiteError::MissingTemplate => "missing template"@,
        SiteError::InvalidTemplate => "invalid template"@,
        SiteError::IoFailure => "i/o failure"@,
        SiteError::NotFound => "not found"@,
        SiteError::UsageError => "usage error"@,
    }
}

/// The HTTP status under which the preview server reports an error: 404
/// where nothing answers the request, 500 for all else.
pub open spec fn status_of(error: SiteError) -> u16 {
    if error == SiteError::NotFound {
        404
    } else {
        500
    }
}

/// The line that reports `error` for the file at `path`: the path, a colon
/// and a space, then the words that describe the error.
pub open spec fn diagnostic_of(path: Seq<char>, error: SiteError) -> Seq<char> {
    path + ": "@ + describe(error)
}

impl SiteError {
    /// The words that describe the error.
    pub fn message(&self) -> (words: String)
        ensures
            words@ == describe(*self),
    {
        match self {
            SiteError::MalformedSource => String::from_str("malformed source"),
            SiteError::MissingTemplate => String::from_str("missing template"),
            SiteError::InvalidTemplate => String::from_str("invalid template"),
            SiteError::IoFailure => String::from_str("i/o failure"),
            SiteError::NotFound => String::from_str("not found"),
            SiteError::UsageError => String::from_str("usage error"),
        }
    }

    /// The HTTP status under which the preview server reports the error.
    pub fn http_status(&self) -> (status: u16)
        ensures
            status == status_of(*self),
    {
        match self {
            SiteError::NotFound => 404,
            _ => 500,
        }
    }

    /// The line that reports the error for the file at `path`.
    pub fn diagnostic(&self, path: &str) -> (line: String)
        ensures
            line@ == diagnostic_of(path@, *self),
    {
        let words = self.message();
        concat(concat(path, ": ").as_str(), words.as_str())
    }
}

} // verus!
