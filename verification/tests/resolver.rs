use sitegen::resolver::{begin, proceed, Pending, Progress, Resolution};
use sitegen::site::FileKind;

/// Runs the dialogue of the resolver against a list of files, and returns
/// the answer together with the paths that were probed.
fn resolve(files: &[(&str, FileKind)], request: &str) -> (Resolution<String>, Vec<String>) {
    let mut probed = Vec::new();
    let mut progress = begin(request);
    loop {
        match progress {
            Progress::Done(resolution) => return (resolution, probed),
            Progress::Probe(pending) => {
                let path = pending.path().clone();
                let kind = files
                    .iter()
                    .find(|(name, _)| *name == path)
                    .map(|(_, kind)| *kind)
                    .unwrap_or(FileKind::Missing);
                probed.push(path);
                progress = proceed(pending, kind);
            }
        }
    }
}

fn render(path: &str) -> Resolution<String> {
    Resolution::Render(path.to_string())
}

fn serve(path: &str) -> Resolution<String> {
    Resolution::Static(path.to_string())
}

#[test]
fn html_request_prefers_the_markdown_source() {
    let files = [("site/a.md", FileKind::File), ("site/a.html", FileKind::File)];
    let (resolution, probed) = resolve(&files, "a.html");
    assert_eq!(resolution, render("site/a.md"));
    assert_eq!(probed, vec!["site/a.md".to_string()]);
}

#[test]
fn html_request_without_source_serves_the_page() {
    let files = [("site/a.html", FileKind::File)];
    let (resolution, probed) = resolve(&files, "a.html");
    assert_eq!(resolution, serve("site/a.html"));
    assert_eq!(probed, vec!["site/a.md".to_string(), "site/a.html".to_string()]);
}

#[test]
fn html_request_with_source_only_renders_it() {
    let files = [("site/a.md", FileKind::File)];
    assert_eq!(resolve(&files, "a.html").0, render("site/a.md"));
}

#[test]
fn html_request_with_nothing_there_is_not_found() {
    let (resolution, probed) = resolve(&[], "a.html");
    assert_eq!(resolution, Resolution::NotFound);
    assert_eq!(probed, vec!["site/a.md".to_string(), "site/a.html".to_string()]);
}

#[test]
fn directory_request_serves_the_rendered_index() {
    let files = [
        ("site/blog", FileKind::Directory),
        ("site/blog/index.md", FileKind::File),
    ];
    let (resolution, probed) = resolve(&files, "blog/");
    assert_eq!(resolution, render("site/blog/index.md"));
    assert_eq!(probed, vec!["site/blog".to_string(), "site/blog/index.md".to_string()]);
}

#[test]
fn directory_request_equals_index_request() {
    let files = [
        ("site/sub", FileKind::Directory),
        ("site/sub/index.md", FileKind::File),
    ];
    assert_eq!(resolve(&files, "sub/").0, resolve(&files, "sub/index.html").0);
    assert_eq!(resolve(&files, "sub/").0, render("site/sub/index.md"));
    let pages = [
        ("site/sub", FileKind::Directory),
        ("site/sub/index.html", FileKind::File),
    ];
    assert_eq!(resolve(&pages, "sub/").0, resolve(&pages, "sub/index.html").0);
    assert_eq!(resolve(&pages, "sub/").0, serve("site/sub/index.html"));
    let empty = [("site/sub", FileKind::Directory)];
    assert_eq!(resolve(&empty, "sub/").0, resolve(&empty, "sub/index.html").0);
    assert_eq!(resolve(&empty, "sub/").0, Resolution::NotFound);
}

#[test]
fn directory_request_without_slash_gets_the_index_too() {
    let files = [
        ("site/blog", FileKind::Directory),
        ("site/blog/index.html", FileKind::File),
    ];
    let (resolution, probed) = resolve(&files, "blog");
    assert_eq!(resolution, serve("site/blog/index.html"));
    assert_eq!(
        probed,
        vec![
            "site/blog".to_string(),
            "site/blog/index.md".to_string(),
            "site/blog/index.html".to_string()
        ]
    );
}

#[test]
fn regular_file_under_a_directory_request_is_served_itself() {
    let files = [("site/sub", FileKind::File), ("site/sub/index.md", FileKind::File)];
    assert_eq!(resolve(&files, "sub/").0, serve("site/sub"));
    assert_eq!(resolve(&files, "sub/index.html").0, render("site/sub/index.md"));
}

#[test]
fn empty_request_resolves_to_the_site_index() {
    let files = [("site", FileKind::Directory), ("site/index.md", FileKind::File)];
    assert_eq!(resolve(&files, "").0, render("site/index.md"));
    assert_eq!(resolve(&files, "").0, resolve(&files, "index.html").0);
}

#[test]
fn missing_path_falls_back_to_an_index_below_it() {
    let (resolution, probed) = resolve(&[], "nothing");
    assert_eq!(resolution, Resolution::NotFound);
    assert_eq!(
        probed,
        vec![
            "site/nothing".to_string(),
            "site/nothing/index.md".to_string(),
            "site/nothing/index.html".to_string()
        ]
    );
}

#[test]
fn other_files_are_served_as_they_are() {
    let files = [("site/style.css", FileKind::File)];
    let (resolution, probed) = resolve(&files, "style.css");
    assert_eq!(resolution, serve("site/style.css"));
    assert_eq!(probed, vec!["site/style.css".to_string()]);
}

#[test]
fn markdown_request_is_rendered() {
    let files = [("site/a.md", FileKind::File)];
    assert_eq!(resolve(&files, "a.md").0, render("site/a.md"));
}

#[test]
fn directory_named_like_a_source_gets_an_index() {
    let files = [
        ("site/a.md", FileKind::Directory),
        ("site/a.md/index.html", FileKind::File),
    ];
    assert_eq!(resolve(&files, "a.md").0, serve("site/a.md/index.html"));
}

#[test]
fn directory_standing_for_a_page_is_handed_on() {
    let files = [("site/a.html", FileKind::Directory)];
    assert_eq!(resolve(&files, "a.html").0, serve("site/a.html"));
}

#[test]
fn hidden_html_file_has_no_extension() {
    let files = [("site/.html", FileKind::File), ("site/.md", FileKind::File)];
    assert_eq!(resolve(&files, ".html").0, serve("site/.html"));
}

#[test]
fn begin_asks_for_the_candidate_first() {
    assert_eq!(
        begin("notes/"),
        Progress::Probe(Pending::Candidate("site/notes".to_string()))
    );
    assert_eq!(
        begin("a.html"),
        Progress::Probe(Pending::Source {
            page: "site/a.html".to_string(),
            source: "site/a.md".to_string()
        })
    );
}

#[test]
fn proceed_follows_each_answer() {
    let candidate = Pending::Candidate("site/x".to_string());
    assert_eq!(
        proceed(candidate.clone(), FileKind::Missing),
        Progress::Probe(Pending::Source {
            page: "site/x/index.html".to_string(),
            source: "site/x/index.md".to_string()
        })
    );
    assert_eq!(proceed(candidate.clone(), FileKind::Directory), proceed(candidate.clone(), FileKind::Missing));
    assert_eq!(proceed(candidate, FileKind::File), Progress::Done(serve("site/x")));
    let source = Pending::Source { page: "site/p.html".to_string(), source: "site/p.md".to_string() };
    assert_eq!(proceed(source.clone(), FileKind::File), Progress::Done(render("site/p.md")));
    assert_eq!(proceed(source.clone(), FileKind::Directory), Progress::Done(render("site/p.md")));
    assert_eq!(
        proceed(source, FileKind::Missing),
        Progress::Probe(Pending::Page("site/p.html".to_string()))
    );
    let page = Pending::Page("site/p.html".to_string());
    assert_eq!(proceed(page.clone(), FileKind::File), Progress::Done(serve("site/p.html")));
    assert_eq!(proceed(page, FileKind::Missing), Progress::Done(Resolution::NotFound));
}

#[test]
fn pending_names_the_path_to_probe() {
    assert_eq!(Pending::Candidate("site/x".to_string()).path(), "site/x");
    assert_eq!(Pending::Page("site/x.html".to_string()).path(), "site/x.html");
    let source = Pending::Source { page: "site/x.html".to_string(), source: "site/x.md".to_string() };
    assert_eq!(source.path(), "site/x.md");
}
