//! The outside engines that the renderer relies on: the YAML decoder, the
//! Markdown converter and the template expander. Nothing in this module is
//! proved: each function states what is taken on trust from the crate that
//! it calls, and each uninterpreted function names what an engine returns.

use vstd::prelude::*;
use crate::front_matter::bindings_of;

verus! {

/// The error of the YAML decoder, carried through as it is.
#[verifier::external_type_specification]
#[verifier::external_body]
pub struct ExYamlError(serde_yaml::Error);

/// The error of the template engine, carried through as it is.
#[verifier::external_type_specification]
#[verifier::external_body]
pub struct ExTemplateError(handlebars::RenderError);

/// The mapping that `serde_yaml` decodes a YAML text to when asked for a
/// mapping from strings to strings, or `None` where it reports an error.
pub uninterp spec fn yaml_mapping(text: Seq<char>) -> Option<Map<Seq<char>, Seq<char>>>;

/// The HTML that `pulldown_cmark` writes for a Markdown text when only the
/// strikethrough extension is switched on.
pub uninterp spec fn markdown_html(body: Seq<char>) -> Seq<char>;

/// The text that `handlebars` expands a template to against a mapping from
/// strings to strings, or `None` where it reports an error.
pub uninterp spec fn handlebars_expansion(
    template: Seq<char>,
    bindings: Map<Seq<char>, Seq<char>>,
) -> Option<Seq<char>>;

/// The template that consists of the body placeholder alone.
pub open spec fn passthrough() -> Seq<char> {
    "{{{rendered_md}}}"@
}

/// The key under which the renderer binds the HTML of the body.
pub open spec fn body_key() -> Seq<char> {
    "rendered_md"@
}

/// Whether expanding `template` against `bindings` is the plain insertion of
/// the body: the template is the body placeholder alone, and the body key is
/// bound.
pub open spec fn inserts_body(template: Seq<char>, bindings: Map<Seq<char>, Seq<char>>) -> bool {
    template == passthrough() && bindings.contains_key(body_key())
}

/// Calls `serde_yaml::from_str` for a `BTreeMap<String, String>` and hands
/// out its entries. Decoding reads nothing but the text, so the mapping is
/// named by [`yaml_mapping`]; the entries returned stand for that mapping.
#[verifier::external_body]
pub(crate) fn decode_yaml(
    text: &str,
) -> (decoded: Result<Vec<(String, String)>, serde_yaml::Error>)
    ensures
        decoded is Ok <==> yaml_mapping(text@) is Some,
        decoded matches Ok(entries) ==> yaml_mapping(text@) == Some(
            bindings_of(entries.deep_view()),
        ),
{
    let mapping: std::collections::BTreeMap<String, String> = serde_yaml::from_str(text)?;
    Ok(mapping.into_iter().collect())
}

/// Calls `pulldown_cmark::Parser::new_ext` with `Options::ENABLE_STRIKETHROUGH`
/// and feeds the events to `pulldown_cmark::html::push_html`. The conversion
/// reads nothing but the text, so its result is named by [`markdown_html`].
#[verifier::external_body]
pub(crate) fn convert_markdown(body: &str) -> (html: String)
    ensures
        html@ == markdown_html(body@),
{
    let mut options = pulldown_cmark::Options::empty();
    options.insert(pulldown_cmark::Options::ENABLE_STRIKETHROUGH);
    let parser = pulldown_cmark::Parser::new_ext(body, options);
    let mut html = String::new();
    pulldown_cmark::html::push_html(&mut html, parser);
    html
}

/// Calls `Handlebars::render_template` on a fresh registry, with the entries
/// collected into a `BTreeMap<String, String>` as the data. The expansion
/// reads nothing but the template and the mapping, so its result is named by
/// [`handlebars_expansion`]. One case is stated outright: a template that is
/// exactly `{{{rendered_md}}}`, against a mapping that binds `rendered_md`,
/// expands to the bound value as it is, since handlebars writes what a
/// triple-brace placeholder names without escaping it.
#[verifier::external_body]
pub(crate) fn expand_template(
    template: &str,
    entries: &Vec<(String, String)>,
) -> (expanded: Result<String, handlebars::RenderError>)
    ensures
        expanded is Ok <==> handlebars_expansion(template@, bindings_of(entries.deep_view()))
            is Some,
        expanded matches Ok(text) ==> handlebars_expansion(
            template@,
            bindings_of(entries.deep_view()),
        ) == Some(text@),
        expanded is Ok || !inserts_body(template@, bindings_of(entries.deep_view())),
        expanded matches Ok(text) ==> inserts_body(template@, bindings_of(entries.deep_view()))
            ==> text@ == bindings_of(entries.deep_view())[body_key()],
{
    let data: std::collections::BTreeMap<String, String> = entries.iter().cloned().collect();
    handlebars::Handlebars::new().render_template(template, &data)
}

} // verus!
