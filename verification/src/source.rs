//! The format of a source file: YAML front-matter between two delimiter
//! lines, then the Markdown body.
//!
//! A delimiter line is a line that holds exactly `---`, lines being what a
//! line feed ends. The first two delimiter lines of a source bracket the
//! front-matter; what stands before the first is ignored, and `---` anywhere
//! else, such as in the body, is plain text.

use vstd::prelude::*;
use crate::error::SiteError;
use crate::text::{chars_of, slice_of};

verus! {

/// Whether a delimiter line starts at index `at` of `text`.
pub open spec fn delimiter_at(text: Seq<char>, at: int) -> bool {
    &&& 0 <= at
    &&& at + 3 <= text.len()
    &&& text[at] == '-'
    &&& text[at + 1] == '-'
    &&& text[at + 2] == '-'
    &&& (at == 0 || text[at - 1] == '\n')
    &&& (at + 3 == text.len() || text[at + 3] == '\n')
}

/// Whether no delimiter line starts at an index from `from` up to, not
/// including, `to`.
pub open spec fn no_delimiter(text: Seq<char>, from: int, to: int) -> bool {
    forall|at: int| from <= at < to ==> !delimiter_at(text, at)
}

/// Whether the first two delimiter lines of `text` start at `open` and at
/// `close`.
pub open spec fn delimited_at(text: Seq<char>, open: int, close: int) -> bool {
    &&& delimiter_at(text, open)
    &&& delimiter_at(text, close)
    &&& open < close
    &&& no_delimiter(text, 0, open)
    &&& no_delimiter(text, open + 1, close)
}

/// Whether `text` has at least two delimiter lines.
pub open spec fn well_delimited(text: Seq<char>) -> bool {
    exists|open: int, close: int| delimited_at(text, open, close)
}

/// The front-matter and the body of a text whose first two delimiter lines
/// start at `open` and at `close`: the lines between the two, and all that
/// follows the second.
pub open spec fn parts_at(text: Seq<char>, open: int, close: int) -> (Seq<char>, Seq<char>) {
    let rest = if close + 4 <= text.len() {
        close + 4
    } else {
        text.len() as int
    };
    (text.subrange(open + 4, close), text.subrange(rest, text.len() as int))
}

/// The front-matter and the body of `text`, where it has two delimiter
/// lines.
pub open spec fn split(text: Seq<char>) -> Option<(Seq<char>, Seq<char>)> {
    if well_delimited(text) {
        let (open, close) = choose|open: int, close: int| delimited_at(text, open, close);
        Some(parts_at(text, open, close))
    } else {
        None
    }
}

/// The source that is written from a front-matter and a body: a delimiter
/// line, the front-matter, a delimiter line, the body.
pub open spec fn composed(front: Seq<char>, body: Seq<char>) -> Seq<char> {
    "---\n"@ + front + "---\n"@ + body
}

/// Whether `front` can stand between two delimiter lines: it is made of
/// whole lines, none of which is a delimiter line.
pub open spec fn bracketable(front: Seq<char>) -> bool {
    &&& front.len() == 0 || front.last() == '\n'
    &&& no_delimiter(front, 0, front.len() as int)
}

/// A second delimiter line starts after the end of the first.
pub proof fn lemma_delimiters_apart(text: Seq<char>, open: int, close: int)
    requires
        delimiter_at(text, open),
        delimiter_at(text, close),
        open < close,
    ensures
        open + 4 <= close,
{
}

/// The first two delimiter lines are where they are found: `split` is the
/// parts at any pair of indices that `delimited_at` accepts.
pub proof fn lemma_split_at(text: Seq<char>, open: int, close: int)
    requires
        delimited_at(text, open, close),
    ensures
        split(text) == Some(parts_at(text, open, close)),
{
    let (o, c) = choose|o: int, c: int| delimited_at(text, o, c);
    assert(o == open);
    assert(c == close);
}

/// Decides [`delimiter_at`].
fn check_delimiter_at(text: &Vec<char>, at: usize) -> (found: bool)
    ensures
        found == delimiter_at(text@, at as int),
{
    if text.len() < 3 || at > text.len() - 3 {
        return false;
    }
    text[at] == '-' && text[at + 1] == '-' && text[at + 2] == '-' && (at == 0 || text[at - 1]
        == '\n') && (at + 3 == text.len() || text[at + 3] == '\n')
}

/// The start of the first delimiter line at or after index `from`.
fn next_delimiter(text: &Vec<char>, from: usize) -> (found: Option<usize>)
    ensures
        match found {
            Some(at) => from <= at && delimiter_at(text@, at as int) && no_delimiter(
                text@,
                from as int,
                at as int,
            ),
            None => no_delimiter(text@, from as int, text@.len() as int),
        },
{
    let mut at: usize = from;
    while at < text.len()
        invariant
            from <= at,
            no_delimiter(text@, from as int, at as int),
        decreases text.len() - at,
    {
        if check_delimiter_at(text, at) {
            return Some(at);
        }
        at += 1;
    }
    None
}

/// Splits a source into its front-matter and its body. A source with fewer
/// than two delimiter lines is malformed.
pub fn split_source(source: &str) -> (parts: Result<(String, String), SiteError>)
    ensures
        match parts {
            Ok((front, body)) => split(source@) == Some((front@, body@)),
            Err(error) => error == SiteError::MalformedSource && split(source@) is None,
        },
{
    let text = chars_of(source);
    let open = match next_delimiter(&text, 0) {
        Some(open) => open,
        None => {
            return Err(SiteError::MalformedSource);
        },
    };
    assert(open + 3 <= text.len());
    let close = match next_delimiter(&text, open + 1) {
        Some(close) => close,
        None => {
            proof {
                if well_delimited(text@) {
                    let (o, c) = choose|o: int, c: int| delimited_at(text@, o, c);
                    assert(o == open);
                }
            }
            return Err(SiteError::MalformedSource);
        },
    };
    proof {
        lemma_delimiters_apart(text@, open as int, close as int);
        lemma_split_at(text@, open as int, close as int);
    }
    let rest = if text.len() - close >= 4 {
        close + 4
    } else {
        text.len()
    };
    let front = slice_of(source, open + 4, close);
    let body = slice_of(source, rest, text.len());
    Ok((front, body))
}

} // verus!
