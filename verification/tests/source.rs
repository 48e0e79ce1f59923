use sitegen::error::SiteError;
use sitegen::source::split_source;

fn parts(front: &str, body: &str) -> Result<(String, String), SiteError> {
    Ok((front.to_string(), body.to_string()))
}

#[test]
fn minimal_source_splits_into_front_matter_and_body() {
    let source = "---\ntitle: Hi\ntemplate: base.html\n---\nHello **world**\n";
    assert_eq!(
        split_source(source),
        parts("title: Hi\ntemplate: base.html\n", "Hello **world**\n")
    );
}

#[test]
fn source_without_closing_delimiter_is_malformed() {
    let source = "---\ntitle: Hi\ntemplate: base.html\nHello **world**\n";
    assert_eq!(split_source(source), Err(SiteError::MalformedSource));
}

#[test]
fn source_without_any_delimiter_is_malformed() {
    assert_eq!(split_source("Hello **world**\n"), Err(SiteError::MalformedSource));
    assert_eq!(split_source(""), Err(SiteError::MalformedSource));
    assert_eq!(split_source("---"), Err(SiteError::MalformedSource));
    assert_eq!(split_source("---\n"), Err(SiteError::MalformedSource));
}

#[test]
fn hyphens_inside_a_line_do_not_delimit() {
    assert_eq!(split_source("a --- b --- c"), Err(SiteError::MalformedSource));
    assert_eq!(split_source("---\nk: v --- w\n"), Err(SiteError::MalformedSource));
    assert_eq!(split_source("----\nk: v\n----\nbody"), Err(SiteError::MalformedSource));
    assert_eq!(split_source("--- \nk: v\n--- \nbody"), Err(SiteError::MalformedSource));
    assert_eq!(split_source(" ---\nk: v\n ---\nbody"), Err(SiteError::MalformedSource));
}

#[test]
fn rule_line_in_the_body_stays_in_the_body() {
    let source = "---\ntemplate: t\n---\nabove\n\n---\n\nbelow --- end\n";
    assert_eq!(
        split_source(source),
        parts("template: t\n", "above\n\n---\n\nbelow --- end\n")
    );
}

#[test]
fn hyphens_inside_a_value_stay_in_the_front_matter() {
    let source = "---\ntitle: a --- b\ntemplate: t\n---\nbody";
    assert_eq!(split_source(source), parts("title: a --- b\ntemplate: t\n", "body"));
}

#[test]
fn text_before_the_opening_delimiter_is_ignored() {
    let source = "preamble\n---\nk: v\n---\nbody\n";
    assert_eq!(split_source(source), parts("k: v\n", "body\n"));
}

#[test]
fn closing_delimiter_may_end_the_source() {
    assert_eq!(split_source("---\nk: v\n---"), parts("k: v\n", ""));
    assert_eq!(split_source("---\nk: v\n---\n"), parts("k: v\n", ""));
}

#[test]
fn front_matter_may_be_empty() {
    assert_eq!(split_source("---\n---\nbody"), parts("", "body"));
}

#[test]
fn split_counts_characters_not_bytes() {
    let source = "---\ntitle: caf\u{e9}\n---\n\u{65e5}\u{672c}\n";
    assert_eq!(split_source(source), parts("title: caf\u{e9}\n", "\u{65e5}\u{672c}\n"));
}
