//! The path grammar of a site: `/`-separated text under the site root,
//! extensions, and the sibling of a page under another extension.
//!
//! A path is plain text. Its final component is what follows the last `/`;
//! its extension is what follows the last `.` of the final component, when
//! that `.` is not the component's first character.

use vstd::prelude::*;
use crate::text::{chars_of, check_matches_at, concat, matches_at, slice_of};

verus! {

/// Whether `path` ends in a final component `stem.ext` with a stem that is
/// not empty. Meant for an `ext` that holds neither `.` nor `/`.
pub open spec fn has_extension(path: Seq<char>, ext: Seq<char>) -> bool
    recommends
        !ext.contains('.'),
        !ext.contains('/'),
{
    let dot = path.len() - ext.len() - 1;
    &&& dot >= 1
    &&& path[dot] == '.'
    &&& path[dot - 1] != '/'
    &&& matches_at(path, dot + 1, ext)
}

/// Whether the extension of `path` is `html`.
pub open spec fn html_path(path: Seq<char>) -> bool {
    has_extension(path, "html"@)
}

/// Whether the extension of `path` is `md`.
pub open spec fn markdown_path(path: Seq<char>) -> bool {
    has_extension(path, "md"@)
}

/// `path` with its last `old.len()` characters replaced by `new`.
pub open spec fn swap_extension(path: Seq<char>, old: Seq<char>, new: Seq<char>) -> Seq<char> {
    path.take(path.len() - old.len()) + new
}

/// The Markdown source that stands beside the page `page`, an `html` path.
pub open spec fn markdown_sibling(page: Seq<char>) -> Seq<char> {
    swap_extension(page, "html"@, "md"@)
}

/// The page that stands beside the Markdown source `source`, an `md` path.
pub open spec fn html_sibling(source: Seq<char>) -> Seq<char> {
    swap_extension(source, "md"@, "html"@)
}

/// `path` without one trailing `/`, if it has one.
pub open spec fn strip_slash(path: Seq<char>) -> Seq<char> {
    if path.len() > 0 && path.last() == '/' {
        path.drop_last()
    } else {
        path
    }
}

/// The file under the site root that a request path names first: the site
/// root joined with the request, less one trailing `/`.
pub open spec fn candidate(request: Seq<char>) -> Seq<char> {
    strip_slash("site/"@ + request)
}

/// `dir` with `index.html` appended as a new component.
pub open spec fn index_page(dir: Seq<char>) -> Seq<char> {
    if dir.len() > 0 && dir.last() == '/' {
        dir + "index.html"@
    } else {
        dir + "/index.html"@
    }
}

/// Decides [`has_extension`] on characters.
fn check_extension(path: &Vec<char>, ext: &Vec<char>) -> (found: bool)
    ensures
        found == has_extension(path@, ext@),
{
    if path.len() < 2 || path.len() - 2 < ext.len() {
        return false;
    }
    let dot: usize = path.len() - ext.len() - 1;
    path[dot] == '.' && path[dot - 1] != '/' && check_matches_at(path, dot + 1, ext)
}

/// Whether the extension of `path` is `html`.
pub fn is_html(path: &str) -> (found: bool)
    ensures
        found == html_path(path@),
{
    let chars = chars_of(path);
    let ext = chars_of("html");
    check_extension(&chars, &ext)
}

/// Whether the extension of `path` is `md`.
pub fn is_markdown(path: &str) -> (found: bool)
    ensures
        found == markdown_path(path@),
{
    let chars = chars_of(path);
    let ext = chars_of("md");
    check_extension(&chars, &ext)
}

/// `path` with the extension `old` replaced by `new`, where it has that
/// extension.
fn swap(path: &str, old: &str, new: &str) -> (swapped: Option<String>)
    ensures
        swapped is Some <==> has_extension(path@, old@),
        swapped matches Some(s) ==> s@ == swap_extension(path@, old@, new@),
{
    let chars = chars_of(path);
    let ext = chars_of(old);
    if check_extension(&chars, &ext) {
        let stem = slice_of(path, 0, chars.len() - ext.len());
        Some(concat(stem.as_str(), new))
    } else {
        None
    }
}

/// The Markdown source beside `page`, where `page` is an `html` path.
pub fn markdown_sibling_of(page: &str) -> (source: Option<String>)
    ensures
        source is Some <==> html_path(page@),
        source matches Some(s) ==> s@ == markdown_sibling(page@),
{
    swap(page, "html", "md")
}

/// The page beside `source`, where `source` is an `md` path.
pub fn html_sibling_of(source: &str) -> (page: Option<String>)
    ensures
        page is Some <==> markdown_path(source@),
        page matches Some(p) ==> p@ == html_sibling(source@),
{
    swap(source, "md", "html")
}

/// The first candidate for a request path.
pub fn candidate_for(request: &str) -> (path: String)
    ensures
        path@ == candidate(request@),
{
    let joined = concat("site/", request);
    let chars = chars_of(joined.as_str());
    let n: usize = chars.len();
    if n > 0 && chars[n - 1] == '/' {
        slice_of(joined.as_str(), 0, n - 1)
    } else {
        joined
    }
}

/// The index page of `dir`, and the Markdown source that stands beside it.
pub fn index_pair_of(dir: &str) -> (pair: (String, String))
    ensures
        pair.0@ == index_page(dir@),
        pair.1@ == markdown_sibling(index_page(dir@)),
{
    let chars = chars_of(dir);
    let n: usize = chars.len();
    let base = if n > 0 && chars[n - 1] == '/' {
        concat(dir, "")
    } else {
        concat(dir, "/")
    };
    let page = concat(base.as_str(), "index.html");
    let source = concat(base.as_str(), "index.md");
    proof {
        reveal_strlit("");
        reveal_strlit("/");
        reveal_strlit("index.html");
        reveal_strlit("/index.html");
        reveal_strlit("index.md");
        reveal_strlit("html");
        reveal_strlit("md");
        assert(page@ =~= index_page(dir@));
        assert(source@ =~= markdown_sibling(page@));
    }
    (page, source)
}

/// No path is both an `html` path and an `md` path.
pub proof fn lemma_html_excludes_markdown(path: Seq<char>)
    ensures
        !(html_path(path) && markdown_path(path)),
{
    reveal_strlit("html");
    reveal_strlit("md");
    if html_path(path) && markdown_path(path) {
        let n = path.len() as int;
        assert(path.subrange(n - 4, n)[3] == 'l');
        assert(path.subrange(n - 2, n)[1] == 'd');
    }
}

/// A page and its Markdown source are each other's sibling.
pub proof fn lemma_siblings(path: Seq<char>)
    ensures
        html_path(path) ==> markdown_path(markdown_sibling(path)) && html_sibling(
            markdown_sibling(path),
        ) == path,
        markdown_path(path) ==> html_path(html_sibling(path)) && markdown_sibling(
            html_sibling(path),
        ) == path,
{
    reveal_strlit("html");
    reveal_strlit("md");
    let n = path.len() as int;
    if html_path(path) {
        let source = markdown_sibling(path);
        assert(source.subrange(n - 4, n - 2) =~= "md"@);
        assert(path.subrange(n - 4, n) == "html"@);
        assert(html_sibling(source) =~= path);
    }
    if markdown_path(path) {
        let page = html_sibling(path);
        assert(page.subrange(n - 2, n + 2) =~= "html"@);
        assert(path.subrange(n - 2, n) == "md"@);
        assert(markdown_sibling(page) =~= path);
    }
}

/// The index page of any directory is an `html` path.
pub proof fn lemma_index_page_is_html(dir: Seq<char>)
    ensures
        html_path(index_page(dir)),
{
    reveal_strlit("html");
    reveal_strlit("index.html");
    reveal_strlit("/index.html");
    let page = index_page(dir);
    let n = page.len() as int;
    assert(page.subrange(n - 4, n) =~= "html"@);
}

} // verus!
