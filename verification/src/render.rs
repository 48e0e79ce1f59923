//! The renderer: from the text of a source to the HTML of its page.
//!
//! Rendering reads two files, the source and the template that the source
//! names. The reading is the caller's: [`Page::load`] takes what reading the
//! source gave, [`Page::template_path`] says which template to read next,
//! and [`Page::render`] takes what reading that gave.

use vstd::prelude::*;
use crate::engines::{
    body_key, convert_markdown, decode_yaml, expand_template, handlebars_expansion,
    inserts_body, markdown_html, yaml_mapping,
};
use crate::error::SiteError;
use crate::front_matter::{bindings_of, FrontMatter};
use crate::source::{split, split_source};
use crate::text::concat;

verus! {

/// A source that is ready for its template: the bindings of its
/// front-matter, the HTML of its body among them, and the name of the
/// template.
#[derive(Debug)]
pub struct Page {
    bindings: FrontMatter,
    template: String,
}

/// What a [`Page`] holds, as mathematics.
#[verifier::ext_equal]
pub ghost struct PageView {
    /// The bindings that the template is expanded against.
    pub bindings: Map<Seq<char>, Seq<char>>,
    /// The name of the template, a path below the template root.
    pub template: Seq<char>,
}

impl View for Page {
    type V = PageView;

    closed spec fn view(&self) -> PageView {
        PageView { bindings: self.bindings@, template: self.template@ }
    }
}

/// The key that names the template of a page.
pub open spec fn template_key() -> Seq<char> {
    "template"@
}

/// The page that a decoded front-matter and the HTML of a body make: the
/// front-matter must name a template, and the HTML is bound under the body
/// key in place of whatever the source bound there.
pub open spec fn assembled(front: Map<Seq<char>, Seq<char>>, html: Seq<char>) -> Result<
    PageView,
    SiteError,
> {
    if front.contains_key(template_key()) {
        Ok(PageView { bindings: front.insert(body_key(), html), template: front[template_key()] })
    } else {
        Err(SiteError::MalformedSource)
    }
}

/// The page of a source text: split at the delimiter lines, the front-matter
/// decoded as YAML, the body converted from Markdown.
pub open spec fn page_of(source: Seq<char>) -> Result<PageView, SiteError> {
    match split(source) {
        None => Err(SiteError::MalformedSource),
        Some((front, body)) => match yaml_mapping(front) {
            None => Err(SiteError::MalformedSource),
            Some(bindings) => assembled(bindings, markdown_html(body)),
        },
    }
}

/// The page of what reading a source gave: a source that could not be read
/// is an I/O failure.
pub open spec fn loaded(contents: Option<Seq<char>>) -> Result<PageView, SiteError> {
    match contents {
        None => Err(SiteError::IoFailure),
        Some(source) => page_of(source),
    }
}

/// The path of the template named `name`, below the template root.
pub open spec fn template_path(name: Seq<char>) -> Seq<char> {
    "templates/"@ + name
}

/// The expansion of `template` against `bindings`. The template that is the
/// body placeholder alone expands to the HTML of the body as it is; any
/// other is expanded by the template engine, whose refusal makes the
/// template invalid.
pub open spec fn expansion(template: Seq<char>, bindings: Map<Seq<char>, Seq<char>>) -> Result<
    Seq<char>,
    SiteError,
> {
    if inserts_body(template, bindings) {
        Ok(bindings[body_key()])
    } else {
        match handlebars_expansion(template, bindings) {
            Some(text) => Ok(text),
            None => Err(SiteError::InvalidTemplate),
        }
    }
}

/// The HTML of `page` given what reading its template gave: a template that
/// could not be read is missing.
pub open spec fn rendered(page: PageView, template: Option<Seq<char>>) -> Result<
    Seq<char>,
    SiteError,
> {
    match template {
        None => Err(SiteError::MissingTemplate),
        Some(template) => expansion(template, page.bindings),
    }
}

/// The view of a page or of the error in its place.
pub open spec fn page_view(page: Result<Page, SiteError>) -> Result<PageView, SiteError> {
    match page {
        Ok(page) => Ok(page@),
        Err(error) => Err(error),
    }
}

/// The view of a text or of the error in its place.
pub open spec fn text_view(text: Result<String, SiteError>) -> Result<Seq<char>, SiteError> {
    match text {
        Ok(text) => Ok(text@),
        Err(error) => Err(error),
    }
}

/// The front-matter that the YAML decoder's answer stands for: its entries
/// as a mapping, or a malformed source where it reported an error.
pub fn front_matter_from(decoded: Result<Vec<(String, String)>, serde_yaml::Error>) -> (front:
    Result<FrontMatter, SiteError>)
    ensures
        match decoded {
            Ok(entries) => front matches Ok(bindings) && bindings@ == bindings_of(
                entries.deep_view(),
            ),
            Err(_) => front == Err::<FrontMatter, SiteError>(SiteError::MalformedSource),
        },
{
    match decoded {
        Ok(entries) => Ok(FrontMatter::from_entries(&entries)),
        Err(_) => Err(SiteError::MalformedSource),
    }
}

/// Decodes the YAML of a front-matter into a mapping from strings to
/// strings.
pub fn decode_front_matter(text: &str) -> (front: Result<FrontMatter, SiteError>)
    ensures
        match yaml_mapping(text@) {
            Some(bindings) => front matches Ok(decoded) && decoded@ == bindings,
            None => front == Err::<FrontMatter, SiteError>(SiteError::MalformedSource),
        },
{
    front_matter_from(decode_yaml(text))
}

/// The outcome that the template engine's answer stands for: its text, or
/// an invalid template where it reported an error.
pub fn expansion_from(expanded: Result<String, handlebars::RenderError>) -> (text: Result<
    String,
    SiteError,
>)
    ensures
        match expanded {
            Ok(expanded) => text == Ok::<String, SiteError>(expanded),
            Err(_) => text == Err::<String, SiteError>(SiteError::InvalidTemplate),
        },
{
    match expanded {
        Ok(expanded) => Ok(expanded),
        Err(_) => Err(SiteError::InvalidTemplate),
    }
}

impl Page {
    /// Makes a page of a decoded front-matter and the HTML of a body.
    pub fn assemble(front: FrontMatter, html: String) -> (page: Result<Page, SiteError>)
        ensures
            page_view(page) == assembled(front@, html@),
    {
        let template = match front.get("template") {
            Some(name) => name.clone(),
            None => {
                return Err(SiteError::MalformedSource);
            },
        };
        let bindings = front.insert("rendered_md".to_owned(), html);
        Ok(Page { bindings, template })
    }

    /// Makes a page of the text of a source.
    pub fn parse(source: &str) -> (page: Result<Page, SiteError>)
        ensures
            page_view(page) == page_of(source@),
    {
        let (front, body) = match split_source(source) {
            Ok(parts) => parts,
            Err(error) => {
                return Err(error);
            },
        };
        let bindings = match decode_front_matter(front.as_str()) {
            Ok(bindings) => bindings,
            Err(error) => {
                return Err(error);
            },
        };
        Page::assemble(bindings, convert_markdown(body.as_str()))
    }

    /// Makes a page of what reading a source gave.
    pub fn load(contents: Option<&str>) -> (page: Result<Page, SiteError>)
        ensures
            page_view(page) == loaded(contents.deep_view()),
    {
        match contents {
            Some(source) => Page::parse(source),
            None => Err(SiteError::IoFailure),
        }
    }

    /// The bindings that the template is expanded against.
    pub fn bindings(&self) -> (bindings: &FrontMatter)
        ensures
            bindings@ == self@.bindings,
    {
        &self.bindings
    }

    /// The name of the template.
    pub fn template(&self) -> (name: &String)
        ensures
            name@ == self@.template,
    {
        &self.template
    }

    /// The path of the file that holds the template.
    pub fn template_path(&self) -> (path: String)
        ensures
            path@ == template_path(self@.template),
    {
        concat("templates/", self.template.as_str())
    }

    /// Expands `template` against the bindings of the page.
    pub fn expand(&self, template: &str) -> (html: Result<String, SiteError>)
        ensures
            text_view(html) == expansion(template@, self@.bindings),
    {
        expansion_from(expand_template(template, self.bindings.entries()))
    }

    /// The HTML of the page, given what reading its template gave.
    pub fn render(&self, template: Option<&str>) -> (html: Result<String, SiteError>)
        ensures
            text_view(html) == rendered(self@, template.deep_view()),
    {
        match template {
            Some(template) => self.expand(template),
            None => Err(SiteError::MissingTemplate),
        }
    }
}

} // verus!
