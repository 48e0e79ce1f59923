//! Laws that relate the parts of the generator to each other, proved from
//! the definitions that the contracts of the library use.

use vstd::prelude::*;
use crate::artifact::{artifact, marker, planned};
use crate::engines::{body_key, markdown_html, passthrough, yaml_mapping};
use crate::error::SiteError;
use crate::generator::{
    buildable, built, has_artifact, is_source, rendering, response, under_site,
};
use crate::path::{
    candidate, html_path, html_sibling, index_page, lemma_html_excludes_markdown,
    lemma_index_page_is_html, lemma_siblings, markdown_path, markdown_sibling,
};
use crate::preview::{opened, outcome, reply_of, Exchange, Reading};
use crate::render::{loaded, page_of, rendered, template_path, PageView};
use crate::resolver::{first_step, resolution, settle, Resolution};
use crate::site::{contents_of, kind_of, Node, Tree};
use crate::source::{bracketable, composed, delimited_at, delimiter_at, lemma_split_at, split};

verus! {

/// The dialogue of the resolver reaches the answer that the resolution rules
/// give: probing as asked, against the files of `tree`, ends in
/// `resolution(tree, request)`.
pub proof fn law_dialogue_resolves(tree: Tree, request: Seq<char>)
    ensures
        settle(tree, first_step(request)) == resolution(tree, request),
{
    let path = candidate(request);
    lemma_html_excludes_markdown(path);
    lemma_siblings(path);
    lemma_index_page_is_html(path);
    lemma_siblings(index_page(path));
    lemma_html_excludes_markdown(index_page(path));
    reveal_with_fuel(settle, 4);
}

/// The exchange for a request reaches the reply of the preview server:
/// probing and reading as asked, against the files of `tree`, ends in
/// `response(tree, request)`.
pub proof fn law_exchange_responds(tree: Tree, request: Seq<char>)
    ensures
        outcome(tree, opened(request)) == response(tree, request),
{
    let path = candidate(request);
    lemma_html_excludes_markdown(path);
    lemma_siblings(path);
    lemma_index_page_is_html(path);
    lemma_siblings(index_page(path));
    lemma_html_excludes_markdown(index_page(path));
    reveal_with_fuel(outcome, 6);
}

/// The exchange for a source reaches its rendering: reading as asked,
/// against the files of `tree`, ends in `rendering(tree, path)`.
pub proof fn law_exchange_renders(tree: Tree, path: Seq<char>)
    ensures
        outcome(tree, Exchange::<Seq<char>, PageView>::Read(Reading::Source(path))) == reply_of(
            rendering(tree, path),
        ),
{
    reveal_with_fuel(outcome, 3);
}

/// What a request resolves to is there: a source to render is an `md` path
/// that exists, and a file to send as it is exists and is no `md` path.
pub proof fn law_resolution_is_sound(tree: Tree, request: Seq<char>)
    ensures
        match resolution(tree, request) {
            Resolution::Render(path) => markdown_path(path) && !(kind_of(tree, path) is Missing),
            Resolution::Static(path) => !markdown_path(path) && !(kind_of(tree, path) is Missing),
            Resolution::NotFound => true,
        },
{
}

/// Markdown is preferred: a request for the page `stem.html` is answered by
/// rendering `stem.md` wherever that source exists under the site root,
/// whether or not the page itself exists.
pub proof fn law_markdown_preferred(tree: Tree, stem: Seq<char>)
    requires
        stem.len() > 0,
        stem.last() != '/',
        !(kind_of(tree, "site/"@ + stem + ".md"@) is Missing),
    ensures
        resolution(tree, stem + ".html"@) == Resolution::Render("site/"@ + stem + ".md"@),
        response(tree, stem + ".html"@) == reply_of(rendering(tree, "site/"@ + stem + ".md"@)),
{
    reveal_strlit("site/");
    reveal_strlit(".md");
    reveal_strlit(".html");
    reveal_strlit("md");
    reveal_strlit("html");
    let request = stem + ".html"@;
    let page = "site/"@ + stem + ".html"@;
    let source = "site/"@ + stem + ".md"@;
    assert("site/"@ + request =~= page);
    assert(candidate(request) == page);
    let n = page.len() as int;
    assert(page.subrange(n - 4, n) =~= "html"@);
    assert(html_path(page));
    assert(markdown_sibling(page) =~= source);
    lemma_siblings(page);
}

/// The directory index: where `dir` is not a regular file under the site
/// root, a request for `dir/` is answered as a request for `dir/index.html`
/// is, and by rendering `dir/index.md` wherever that source exists.
pub proof fn law_directory_index(tree: Tree, dir: Seq<char>)
    requires
        dir.len() > 0,
        dir.last() != '/',
        !html_path("site/"@ + dir),
        !(kind_of(tree, "site/"@ + dir) is File),
    ensures
        resolution(tree, dir + "/"@) == resolution(tree, dir + "/index.html"@),
        response(tree, dir + "/"@) == response(tree, dir + "/index.html"@),
        !(kind_of(tree, "site/"@ + dir + "/index.md"@) is Missing) ==> {
            &&& resolution(tree, dir + "/"@) == Resolution::Render("site/"@ + dir + "/index.md"@)
            &&& response(tree, dir + "/"@) == reply_of(
                rendering(tree, "site/"@ + dir + "/index.md"@),
            )
        },
{
    reveal_strlit("site/");
    reveal_strlit("/");
    reveal_strlit("/index.html");
    reveal_strlit("/index.md");
    reveal_strlit("md");
    reveal_strlit("html");
    let base = "site/"@ + dir;
    let page = base + "/index.html"@;
    let source = base + "/index.md"@;
    assert(("site/"@ + (dir + "/"@)).drop_last() =~= base);
    assert(candidate(dir + "/"@) == base);
    assert("site/"@ + (dir + "/index.html"@) =~= page);
    assert(candidate(dir + "/index.html"@) == page);
    assert(index_page(base) == page);
    lemma_index_page_is_html(base);
    assert(markdown_sibling(page) =~= source);
    lemma_siblings(page);
}

/// The index of the site root: unless `site` is a regular file, the empty
/// request is answered as a request for `index.html` is.
pub proof fn law_root_index(tree: Tree)
    requires
        !(kind_of(tree, "site"@) is File),
    ensures
        resolution(tree, ""@) == resolution(tree, "index.html"@),
        response(tree, ""@) == response(tree, "index.html"@),
{
    reveal_strlit("site/");
    reveal_strlit("site");
    reveal_strlit("");
    reveal_strlit("/index.html");
    reveal_strlit("index.html");
    reveal_strlit("html");
    assert(("site/"@ + ""@).drop_last() =~= "site"@);
    assert(candidate(""@) == "site"@);
    let page = "site/"@ + "index.html"@;
    assert(candidate("index.html"@) == page);
    assert(index_page("site"@) =~= page);
    lemma_index_page_is_html("site"@);
}

/// Splitting undoes composing: a source written from a front-matter of whole
/// lines, none of them a delimiter line, and from any body, splits into
/// that front-matter and that body, even where the body holds delimiter
/// lines of its own.
pub proof fn law_split_recovers_parts(front: Seq<char>, body: Seq<char>)
    requires
        bracketable(front),
    ensures
        split(composed(front, body)) == Some((front, body)),
{
    reveal_strlit("---\n");
    let text = composed(front, body);
    let close = 4 + front.len() as int;
    assert(delimiter_at(text, 0));
    assert(delimiter_at(text, close));
    assert forall|at: int| 1 <= at < close implies !delimiter_at(text, at) by {
        if delimiter_at(text, at) {
            assert(text[at - 1] == '\n');
            assert(at >= 4);
            assert(text[close - 1] == '\n');
            assert(at + 3 <= close - 1);
            assert(delimiter_at(front, at - 4));
        }
    }
    assert(delimited_at(text, 0, close));
    lemma_split_at(text, 0, close);
    assert(text.subrange(4, close) =~= front);
    assert(text.subrange(close + 4, text.len() as int) =~= body);
}

/// Front-matter reaches the template as it was decoded: but for the body
/// key, a page binds exactly what the YAML of its source binds, to the same
/// values.
pub proof fn law_front_matter_kept(source: Seq<char>, key: Seq<char>)
    requires
        page_of(source) is Ok,
        key != body_key(),
    ensures
        ({
            let front = yaml_mapping(split(source)->Some_0.0)->Some_0;
            let page = page_of(source)->Ok_0;
            &&& page.bindings.contains_key(key) == front.contains_key(key)
            &&& front.contains_key(key) ==> page.bindings[key] == front[key]
        }),
{
}

/// Body passthrough: against the template that is the body placeholder
/// alone, a well-formed source renders to the HTML of its body, whatever its
/// front-matter binds.
pub proof fn law_body_passthrough(source: Seq<char>)
    requires
        page_of(source) is Ok,
    ensures
        rendered(page_of(source)->Ok_0, Some(passthrough())) == Ok::<Seq<char>, SiteError>(
            markdown_html(split(source)->Some_0.1),
        ),
{
}

/// The artifact of a page is the marker line followed by the page: taking
/// the marker off gives the page back.
pub proof fn law_artifact_holds_page(html: Seq<char>)
    ensures
        marker().is_prefix_of(artifact(html)),
        artifact(html).skip(marker().len() as int) == html,
{
    assert(artifact(html).subrange(0, marker().len() as int) =~= marker());
    assert(artifact(html).skip(marker().len() as int) =~= html);
}

/// A source below the site root has at least one character before its
/// extension, so the page beside it lies below the site root as well.
proof fn lemma_source_page(rest: Seq<char>)
    requires
        markdown_path("site/"@ + rest),
    ensures
        markdown_path(rest),
        html_sibling("site/"@ + rest) == "site/"@ + html_sibling(rest),
        candidate(html_sibling(rest)) == html_sibling("site/"@ + rest),
        html_path(html_sibling("site/"@ + rest)),
        markdown_sibling(html_sibling("site/"@ + rest)) == "site/"@ + rest,
{
    reveal_strlit("site/");
    reveal_strlit("md");
    reveal_strlit("html");
    let path = "site/"@ + rest;
    let n = path.len() as int;
    assert(path[n - 3] == '.');
    assert(n - 3 >= 5);
    assert(path[n - 4] != '/');
    assert(n - 4 >= 5);
    assert(rest.subrange(rest.len() - 2, rest.len() as int) =~= path.subrange(n - 2, n));
    assert(html_sibling(path) =~= "site/"@ + html_sibling(rest));
    lemma_siblings(path);
}

/// Build and preview agree: for every source of the site, the preview
/// server answers a request for the page beside it with the rendering of the
/// source, and a build writes that same rendering, behind the marker line,
/// as the artifact at the path of that page.
pub proof fn law_build_serve_agree(tree: Tree, rest: Seq<char>)
    requires
        is_source(tree, "site/"@ + rest),
    ensures
        response(tree, html_sibling(rest)) == reply_of(rendering(tree, "site/"@ + rest)),
        built(tree).contains_key("site/"@ + html_sibling(rest)),
        rendering(tree, "site/"@ + rest) matches Ok(html) ==> built(tree)["site/"@ + html_sibling(
            rest,
        )] == Node::File(artifact(html)),
{
    let source = "site/"@ + rest;
    lemma_source_page(rest);
    let page = html_sibling(source);
    lemma_html_excludes_markdown(page);
    assert(has_artifact(tree, page));
}

/// A path at which a build writes lies below the site root.
proof fn lemma_artifact_under_site(tree: Tree, path: Seq<char>)
    requires
        has_artifact(tree, path),
    ensures
        under_site(path),
{
    reveal_strlit("site/");
    reveal_strlit("md");
    reveal_strlit("html");
    let source = markdown_sibling(path);
    let n = source.len() as int;
    assert(source.subrange(0, 5) == "site/"@);
    assert(source[n - 3] == '.');
    assert(source.subrange(0, 5)[n - 3] != '.' || n - 3 >= 5);
    assert(n - 3 >= 5);
    assert(path.subrange(0, 5) =~= source.subrange(0, 5));
}

/// No template lies below the site root.
proof fn lemma_template_outside_site(name: Seq<char>)
    ensures
        !under_site(template_path(name)),
{
    reveal_strlit("site/");
    reveal_strlit("templates/");
    let path = template_path(name);
    if under_site(path) {
        assert(path.subrange(0, 5)[0] == 's');
    }
}

/// A build changes neither a source nor a template, so every source renders
/// after it as before.
proof fn lemma_build_keeps_renderings(tree: Tree, path: Seq<char>)
    requires
        markdown_path(path),
    ensures
        contents_of(built(tree), path) == contents_of(tree, path),
        kind_of(built(tree), path) == kind_of(tree, path),
        rendering(built(tree), path) == rendering(tree, path),
{
    lemma_html_excludes_markdown(path);
    match loaded(contents_of(tree, path)) {
        Ok(page) => {
            let template = template_path(page.template);
            lemma_template_outside_site(page.template);
            if has_artifact(tree, template) {
                lemma_artifact_under_site(tree, template);
            }
        },
        Err(_) => {},
    }
}

/// Build idempotence: a second build of an unchanged site leaves every file
/// exactly as the first build left it.
pub proof fn law_build_idempotent(tree: Tree)
    requires
        buildable(tree),
    ensures
        buildable(built(tree)),
        built(built(tree)) == built(tree),
{
    let once = built(tree);
    assert forall|path: Seq<char>| is_source(once, path) == is_source(tree, path) by {
        if markdown_path(path) {
            lemma_build_keeps_renderings(tree, path);
        }
    }
    assert forall|path: Seq<char>| has_artifact(once, path) == has_artifact(tree, path) by {}
    assert forall|path: Seq<char>| is_source(once, path) implies rendering(once, path) is Ok by {
        lemma_build_keeps_renderings(tree, path);
    }
    assert forall|path: Seq<char>| has_artifact(once, path) implies rendering(
        once,
        markdown_sibling(path),
    ) == rendering(tree, markdown_sibling(path)) by {
        lemma_build_keeps_renderings(tree, markdown_sibling(path));
    }
    assert(built(once) =~= once);
}

/// The jobs of a listing are its `md` paths, each with the page beside it:
/// nothing else is planned, and no such path is left out.
pub proof fn law_plan_is_exact(listing: Seq<Seq<char>>, source: Seq<char>, page: Seq<char>)
    ensures
        planned(listing).contains((source, page)) <==> listing.contains(source) && markdown_path(
            source,
        ) && page == html_sibling(source),
    decreases listing.len(),
{
    if listing.len() > 0 {
        let rest = listing.drop_last();
        let last = listing.last();
        law_plan_is_exact(rest, source, page);
        assert(listing =~= rest.push(last));
        assert(listing.contains(source) <==> rest.contains(source) || last == source) by {
            if rest.contains(source) {
                let at = choose|at: int| 0 <= at < rest.len() && rest[at] == source;
                assert(listing[at] == source);
            }
            if last == source {
                assert(listing[listing.len() - 1] == source);
            }
        }
        if markdown_path(last) {
            let job = (last, html_sibling(last));
            let jobs = planned(rest);
            assert(planned(listing) == jobs.push(job));
            assert(jobs.push(job).contains((source, page)) <==> jobs.contains((source, page))
                || job == (source, page)) by {
                if jobs.contains((source, page)) {
                    let at = choose|at: int| 0 <= at < jobs.len() && jobs[at] == (source, page);
                    assert(jobs.push(job)[at] == (source, page));
                }
                if job == (source, page) {
                    assert(jobs.push(job)[jobs.len() as int] == (source, page));
                }
            }
        }
    }
}

/// A build plans what the model builds: from a listing of the regular files
/// below the site root, the jobs are the sources of the site, each with the
/// path at which the model holds its artifact.
pub proof fn law_plan_covers_sources(
    tree: Tree,
    listing: Seq<Seq<char>>,
    source: Seq<char>,
    page: Seq<char>,
)
    requires
        forall|path: Seq<char>|
            listing.contains(path) <==> under_site(path) && kind_of(tree, path) is File,
    ensures
        planned(listing).contains((source, page)) <==> is_source(tree, source) && page
            == html_sibling(source),
        planned(listing).contains((source, page)) ==> has_artifact(tree, page),
{
    law_plan_is_exact(listing, source, page);
    if markdown_path(source) {
        lemma_siblings(source);
    }
}

} // verus!
