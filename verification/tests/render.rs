use sitegen::cli::exit_status;
use sitegen::error::SiteError;
use sitegen::front_matter::FrontMatter;
use sitegen::render::{decode_front_matter, expansion_from, front_matter_from, Page};

const HELLO: &str = "---\ntitle: Hi\ntemplate: base.html\n---\nHello **world**\n";

fn page(front: &str, body: &str) -> Page {
    Page::parse(&format!("---\n{}---\n{}", front, body)).unwrap()
}

fn yaml_error() -> serde_yaml::Error {
    serde_yaml::from_str::<std::collections::BTreeMap<String, String>>("[")
        .err()
        .unwrap()
}

fn template_error() -> handlebars::RenderError {
    let data: std::collections::BTreeMap<String, String> = std::collections::BTreeMap::new();
    handlebars::Handlebars::new().render_template("{{#if}}", &data).err().unwrap()
}

#[test]
fn minimal_page_renders_to_the_expected_body() {
    let page = Page::load(Some(HELLO)).unwrap();
    assert_eq!(page.template_path(), "templates/base.html");
    let html = page.render(Some("<h1>{{title}}</h1>{{{rendered_md}}}")).unwrap();
    assert_eq!(html, "<h1>Hi</h1><p>Hello <strong>world</strong></p>\n");
}

#[test]
fn front_matter_value_round_trips_through_its_placeholder() {
    let page = page("k: v\ntemplate: t\n", "");
    assert_eq!(page.expand("{{k}}"), Ok("v".to_string()));
    let page = Page::parse("---\nname: some plain words\ntemplate: t\n---\n").unwrap();
    assert_eq!(page.expand("{{name}}"), Ok("some plain words".to_string()));
}

#[test]
fn front_matter_value_is_escaped_in_a_double_brace_placeholder() {
    let page = page("k: \"a <b> & 'c'\"\ntemplate: t\n", "");
    assert_eq!(page.bindings().get("k"), Some(&"a <b> & 'c'".to_string()));
    assert_eq!(page.expand("{{k}}"), Ok("a &lt;b&gt; &amp; &#x27;c&#x27;".to_string()));
    assert_eq!(page.expand("{{{k}}}"), Ok("a <b> & 'c'".to_string()));
}

#[test]
fn helper_name_as_a_key_does_not_round_trip() {
    let page = page("if: v\ntemplate: t\n", "");
    assert_eq!(page.bindings().get("if"), Some(&"v".to_string()));
    assert_eq!(page.expand("{{if}}"), Err(SiteError::InvalidTemplate));
}

#[test]
fn unbound_placeholder_expands_to_nothing() {
    let page = page("template: t\n", "");
    assert_eq!(page.expand("[{{absent}}]"), Ok("[]".to_string()));
}

#[test]
fn passthrough_template_yields_the_converted_body() {
    let page = Page::parse(HELLO).unwrap();
    assert_eq!(
        page.render(Some("{{{rendered_md}}}")),
        Ok("<p>Hello <strong>world</strong></p>\n".to_string())
    );
    assert_eq!(
        page.bindings().get("rendered_md"),
        Some(&"<p>Hello <strong>world</strong></p>\n".to_string())
    );
}

#[test]
fn passthrough_template_keeps_raw_html_of_the_body() {
    let page = page("template: t\n", "a < b & c\n\n<div class=\"x\">kept</div>\n");
    let html = page.expand("{{{rendered_md}}}").unwrap();
    assert_eq!(html, "<p>a &lt; b &amp; c</p>\n<div class=\"x\">kept</div>\n");
    assert_eq!(page.bindings().get("rendered_md"), Some(&html));
}

#[test]
fn passthrough_of_an_empty_body_is_empty() {
    let page = page("template: t\n", "");
    assert_eq!(page.expand("{{{rendered_md}}}"), Ok(String::new()));
    assert_eq!(page.bindings().get("rendered_md"), Some(&String::new()));
}

#[test]
fn body_is_escaped_in_a_double_brace_placeholder() {
    let page = page("template: t\n", "hi\n");
    assert_eq!(page.expand("{{rendered_md}}"), Ok("&lt;p&gt;hi&lt;/p&gt;\n".to_string()));
}

#[test]
fn strikethrough_is_rendered() {
    let page = page("template: t\n", "~~gone~~");
    let html = page.expand("{{{rendered_md}}}").unwrap();
    assert!(html.contains("<del>gone</del>"));
    assert_eq!(html, "<p><del>gone</del></p>\n");
    let page = Page::parse("---\ntemplate: t\n---\n~~x~~").unwrap();
    assert!(page.expand("{{{rendered_md}}}").unwrap().contains("<del>x</del>"));
}

#[test]
fn other_extensions_stay_off() {
    let page = page("template: t\n", "- [ ] task\n\n| a | b |\n|---|---|\n| 1 | 2 |\n");
    let html = page.expand("{{{rendered_md}}}").unwrap();
    assert!(!html.contains("<table>"));
    assert!(!html.contains("<input"));
}

#[test]
fn missing_template_is_reported() {
    let page = Page::parse("---\ntemplate: absent.html\n---\nbody\n").unwrap();
    assert_eq!(page.template_path(), "templates/absent.html");
    assert_eq!(page.template(), "absent.html");
    assert_eq!(page.render(None), Err(SiteError::MissingTemplate));
    let error = page.render(None).err();
    assert_eq!(
        error.map(|error| error.diagnostic("site/hello.md")),
        Some("site/hello.md: missing template".to_string())
    );
    assert_eq!(exit_status(error), 1);
}

#[test]
fn page_without_closing_delimiter_is_malformed() {
    let source = "---\ntitle: Hi\ntemplate: base.html\nHello **world**\n";
    assert_eq!(Page::parse(source).err(), Some(SiteError::MalformedSource));
    assert_eq!(Page::load(Some(source)).err(), Some(SiteError::MalformedSource));
}

#[test]
fn source_without_template_key_is_malformed() {
    assert_eq!(
        Page::parse("---\ntitle: Hi\n---\nbody\n").err(),
        Some(SiteError::MalformedSource)
    );
    assert_eq!(
        Page::assemble(FrontMatter::new(), "<p>x</p>".to_string()).err(),
        Some(SiteError::MalformedSource)
    );
}

#[test]
fn front_matter_that_is_no_flat_mapping_is_malformed() {
    assert_eq!(
        Page::parse("---\n- a\n- b\n---\nbody\n").err(),
        Some(SiteError::MalformedSource)
    );
    assert_eq!(
        Page::parse("---\ntemplate: t\nnested:\n  k: v\n---\nbody\n").err(),
        Some(SiteError::MalformedSource)
    );
    assert_eq!(
        Page::parse("---\ntemplate: [unclosed\n---\nbody\n").err(),
        Some(SiteError::MalformedSource)
    );
    assert_eq!(Page::parse("---\n---\nbody\n").err(), Some(SiteError::MalformedSource));
}

#[test]
fn unreadable_source_is_an_io_failure() {
    assert_eq!(Page::load(None).err(), Some(SiteError::IoFailure));
}

#[test]
fn reserved_key_in_the_source_is_overwritten() {
    let page = page("rendered_md: from the source\ntemplate: t\n", "real body\n");
    assert_eq!(page.bindings().get("rendered_md"), Some(&"<p>real body</p>\n".to_string()));
    assert_eq!(page.expand("{{{rendered_md}}}"), Ok("<p>real body</p>\n".to_string()));
}

#[test]
fn assemble_binds_the_body_and_reads_the_template_name() {
    let front = FrontMatter::new()
        .insert("template".to_string(), "base.html".to_string())
        .insert("title".to_string(), "Hi".to_string());
    let page = Page::assemble(front, "<p>x</p>".to_string()).unwrap();
    assert_eq!(page.template(), "base.html");
    assert_eq!(page.bindings().get("title"), Some(&"Hi".to_string()));
    assert_eq!(page.bindings().get("template"), Some(&"base.html".to_string()));
    assert_eq!(page.bindings().get("rendered_md"), Some(&"<p>x</p>".to_string()));
}

#[test]
fn rejected_template_is_invalid() {
    let page = Page::parse(HELLO).unwrap();
    assert_eq!(page.expand("{{#if}}"), Err(SiteError::InvalidTemplate));
    assert_eq!(page.render(Some("{{title")), Err(SiteError::InvalidTemplate));
}

#[test]
fn yaml_front_matter_decodes_to_its_bindings() {
    let front = decode_front_matter("title: Hi\ntemplate: base.html\n").unwrap();
    assert_eq!(front.get("title"), Some(&"Hi".to_string()));
    assert_eq!(front.get("template"), Some(&"base.html".to_string()));
    assert_eq!(front.get("title: Hi"), None);
    assert_eq!(front.entries().len(), 2);
}

#[test]
fn yaml_failure_is_a_malformed_source() {
    assert_eq!(decode_front_matter("[").err(), Some(SiteError::MalformedSource));
    assert_eq!(front_matter_from(Err(yaml_error())).err(), Some(SiteError::MalformedSource));
}

#[test]
fn decoded_entries_become_the_front_matter() {
    let entries = vec![
        ("a".to_string(), "1".to_string()),
        ("b".to_string(), "2".to_string()),
    ];
    let front = front_matter_from(Ok(entries)).unwrap();
    assert_eq!(front.get("a"), Some(&"1".to_string()));
    assert_eq!(front.get("b"), Some(&"2".to_string()));
    assert_eq!(front.get("c"), None);
}

#[test]
fn engine_answer_becomes_the_outcome() {
    assert_eq!(expansion_from(Ok("<p>x</p>".to_string())), Ok("<p>x</p>".to_string()));
    assert_eq!(expansion_from(Err(template_error())), Err(SiteError::InvalidTemplate));
}

#[test]
fn rendering_twice_gives_the_same_page() {
    let first = Page::parse(HELLO).unwrap().render(Some("<h1>{{title}}</h1>{{{rendered_md}}}"));
    let second = Page::parse(HELLO).unwrap().render(Some("<h1>{{title}}</h1>{{{rendered_md}}}"));
    assert_eq!(first, second);
}
