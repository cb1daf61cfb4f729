//! A page that lists builds of a few repositories, written with the sinks.
use vstd::prelude::*;

use crate::escape::{
    escaped, is_escaped_char, lemma_escaped_has_no_markup, lemma_escaped_plain, push_char,
};
use crate::nesting::{
    lemma_a_element_neutral, lemma_document_well_nested, lemma_h1_element_neutral,
    lemma_header_row_neutral, lemma_neutral_concat, lemma_p_element_neutral,
    lemma_span_element_neutral, lemma_style_element_neutral, lemma_table_element_neutral,
    lemma_td_element_neutral, lemma_th_element_neutral, lemma_tr_element_neutral,
    lemma_written_text_neutral, neutral, well_nested,
};
use crate::tag::a::{a, a_opening};
use crate::tag::h1::{h1, TagH1};
use crate::tag::p::{p, TagP};
use crate::tag::span::{span, span_opening};
use crate::tag::style::{style, TagStyle};
use crate::tag::table::{table, table_opening, HeaderSink, TableSink};
use crate::tag::td::{td, td_opening, TagTd};
use crate::tag::th::{th, th_opening, TagTh};
use crate::tag::tr::{tr, tr_opening, TrSink};
use crate::tag::{HtmlSink, Sink, SinkTarget, SinkableTag};

verus! {

/// The digit `d`, for `d` below ten.
pub open spec fn digit_char(d: nat) -> char {
    "0123456789"@[d as int]
}

/// `n` in decimal digits, without leading zeros.
pub open spec fn decimal(n: nat) -> Seq<char>
    decreases n,
{
    if n < 10 {
        seq![digit_char(n)]
    } else {
        decimal(n / 10).push(digit_char(n % 10))
    }
}

/// The sentence under the heading, for `count` repositories.
pub open spec fn description(count: nat) -> Seq<char> {
    if count == 0 {
        "no repos configured, so there are no builds"@
    } else if count == 1 {
        "1 repo configured"@
    } else {
        decimal(count) + " repos configured"@
    }
}

/// What `text` or `rule` writes for `text`: the text, escaped, and a line
/// break.
pub open spec fn written(text: Seq<char>) -> Seq<char> {
    escaped(text) + "\n"@
}

/// The rules of the page's style sheet, each escaped and on a line of its own.
pub open spec fn style_rules() -> Seq<char> {
    written(".build-table { font-family: monospace; border: 1px solid black; }"@) + written(
        ".row-item { padding-left: 4px; padding-right: 4px; border-right: 1px solid black; }"@,
    ) + written(".odd-row { background: #eee; }"@) + written(".even-row { background: #ddd; }"@)
}

/// A cell of the header row.
pub open spec fn header_cell(name: Seq<char>) -> Seq<char> {
    th_opening(Some(escaped("row-item"@))) + written(name) + "</th>\n"@
}

/// The header row of the build table.
pub open spec fn header_row() -> Seq<char> {
    "<tr>\n"@ + (header_cell("repo"@) + header_cell("last build"@) + header_cell("commit/job"@)
        + header_cell("remote"@) + header_cell("duration"@) + header_cell("status"@)
        + header_cell("result"@)) + "</tr>\n"@
}

/// The opening tag of a data cell.
pub open spec fn cell_open() -> Seq<char> {
    td_opening(Some(escaped("row-item"@)))
}

/// The class of the row at `index`: rows alternate, starting with an even one.
pub open spec fn row_class(index: int) -> Seq<char> {
    if index % 2 == 0 {
        "even-row"@
    } else {
        "odd-row"@
    }
}

/// A data cell that holds a link to `href` that reads `text`.
pub open spec fn link_cell(href: Seq<char>, text: Seq<char>) -> Seq<char> {
    cell_open() + (a_opening(Some(escaped(href))) + written(text) + "</a>\n"@) + "</td>\n"@
}

/// A data cell that holds `text`.
pub open spec fn text_cell(text: Seq<char>) -> Seq<char> {
    cell_open() + written(text) + "</td>\n"@
}

/// A data cell that holds `label` in a span styled with `color`.
pub open spec fn label_cell(color: Seq<char>, label: Seq<char>) -> Seq<char> {
    cell_open() + (span_opening(Some(escaped(color))) + written(label) + "</span>\n"@)
        + "</td>\n"@
}

/// The row at `index` of the build table for a repository: a link to it, the
/// date of its last build, a link to the commit built, and the outcome.
pub open spec fn repo_row(
    index: int,
    name: Seq<char>,
    commit: Seq<char>,
    date: Seq<char>,
    color: Seq<char>,
    label: Seq<char>,
) -> Seq<char> {
    tr_opening(Some(escaped(row_class(index)))) + (link_cell("/"@ + name, name) + text_cell(date)
        + link_cell("/"@ + name + "/"@ + commit, commit.subrange(0, 9)) + label_cell(color, label))
        + "</tr>\n"@
}

/// The rows of the build table, one per repository.
pub open spec fn example_rows() -> Seq<char> {
    repo_row(
        0,
        "yaxpeax-avr"@,
        "50254b46dc2daad0cbe23b999b733e0e989e81ab"@,
        "Wed, 21 Dec 2022 08:21:17 +0000"@,
        "color:green;"@,
        "pass"@,
    ) + repo_row(
        1,
        "yaxpeax-zvm"@,
        "2b2175d771afb478f30b176118d6680b1c695eb8"@,
        "Fri, 04 Aug 2023 23:47:11 +0000"@,
        "color:red;"@,
        "fail"@,
    ) + repo_row(
        2,
        "yaxpeax-x86"@,
        "681262f4472ba4f452446e86012ce629b849d8d9"@,
        "Wed, 26 Jun 2024 04:35:15 +0000"@,
        "color:darkgoldenrod;"@,
        "in progress"@,
    )
}

/// The page's style sheet.
pub open spec fn style_sheet() -> Seq<char> {
    "<style>"@ + style_rules() + "</style>\n"@
}

/// The page's heading.
pub open spec fn heading() -> Seq<char> {
    "<h1>"@ + written("builds and build accessories"@) + "</h1>\n"@
}

/// The paragraph that says how many repositories there are.
pub open spec fn count_paragraph() -> Seq<char> {
    "<p>"@ + written(description(3)) + "</p>\n"@
}

/// The build table: its header row and a row per repository.
pub open spec fn build_table() -> Seq<char> {
    table_opening(Some(escaped("build-table"@))) + (header_row() + example_rows())
        + "</table>\n"@
}

/// The whole page that `example` writes.
pub open spec fn example_page() -> Seq<char> {
    "<html>\n"@ + (style_sheet() + heading() + count_paragraph() + build_table()) + "</html>"@
}

/// The outcome of a build.
#[derive(Clone, Copy)]
enum BuildResult {
    Pass,
    Fail,
    InProgress,
}

impl BuildResult {
    spec fn label(self) -> Seq<char> {
        match self {
            BuildResult::Pass => "pass"@,
            BuildResult::Fail => "fail"@,
            BuildResult::InProgress => "in progress"@,
        }
    }

    spec fn color(self) -> Seq<char> {
        match self {
            BuildResult::Pass => "color:green;"@,
            BuildResult::Fail => "color:red;"@,
            BuildResult::InProgress => "color:darkgoldenrod;"@,
        }
    }

    fn as_str(&self) -> (r: &'static str)
        ensures
            r@ == self.label(),
    {
        match self {
            BuildResult::Pass => "pass",
            BuildResult::Fail => "fail",
            BuildResult::InProgress => "in progress",
        }
    }
}

/// A repository and its last build.
struct Repo {
    name: String,
    commit: String,
    date: String,
    result: BuildResult,
}

spec fn row_of(index: int, repo: Repo) -> Seq<char> {
    repo_row(index, repo.name@, repo.commit@, repo.date@, repo.result.color(), repo.result.label())
}

spec fn rows_of(repos: Seq<Repo>, n: int) -> Seq<char>
    decreases n,
{
    if n <= 0 {
        Seq::empty()
    } else {
        rows_of(repos, n - 1) + row_of(n - 1, repos[n - 1])
    }
}

/// Appends `n` in decimal digits to `out`.
fn push_decimal(out: &mut String, n: usize)
    ensures
        final(out)@ == old(out)@ + decimal(n as nat),
    decreases n,
{
    proof {
        reveal_strlit("0123456789");
    }
    if n >= 10 {
        push_decimal(out, n / 10);
    }
    let c = "0123456789".get_char(n % 10);
    push_char(out, c);
    proof {
        if n >= 10 {
            assert(decimal(n as nat) == decimal((n / 10) as nat).push(digit_char((n % 10) as nat)));
        } else {
            assert(decimal(n as nat) == seq![digit_char(n as nat)]);
        }
        assert(final(out)@ =~= old(out)@ + decimal(n as nat));
    }
}

/// The sentence under the heading, for `count` repositories.
fn describe(count: usize) -> (r: String)
    ensures
        r@ == description(count as nat),
{
    match count {
        0 => "no repos configured, so there are no builds".to_string(),
        1 => "1 repo configured".to_string(),
        o => {
            let mut s = String::new();
            push_decimal(&mut s, o);
            s.append(" repos configured");
            s
        },
    }
}

/// Opens a header cell, writes `name` in it and closes it.
fn add_cell<'a>(header: &mut HeaderSink<'a>, th: &TagTh, name: &str) -> (r: std::fmt::Result)
    requires
        old(header).is_open(),
        th@ == Some(escaped("row-item"@)),
    ensures
        final(header).is_open(),
        r is Ok,
        (*final(header).target())@ == (*old(header).target())@ + header_cell(name@),
        *final(final(header).target()) == *final(old(header).target()),
{
    let mut cell = header.open_tag(th.clone());
    let r = cell.text(name);
    cell.close();
    r
}

/// Writes a data cell with a link to `href` that reads `text`.
fn write_link_cell<'a>(row: &mut TrSink<'a>, td: &TagTd, href: &str, text: &str)
    requires
        old(row).is_open(),
        td@ == Some(escaped("row-item"@)),
    ensures
        final(row).is_open(),
        (*final(row).target())@ == (*old(row).target())@ + link_cell(href@, text@),
        *final(final(row).target()) == *final(old(row).target()),
{
    let mut elem = row.open_tag(td.clone());
    {
        let mut link = elem.open_tag(a().href(href));
        let _ = link.text(text);
        link.close();
    }
    elem.close();
}

/// Writes a data cell that holds `text`.
fn write_text_cell<'a>(row: &mut TrSink<'a>, td: &TagTd, text: &str)
    requires
        old(row).is_open(),
        td@ == Some(escaped("row-item"@)),
    ensures
        final(row).is_open(),
        (*final(row).target())@ == (*old(row).target())@ + text_cell(text@),
        *final(final(row).target()) == *final(old(row).target()),
{
    let mut elem = row.open_tag(td.clone());
    let _ = elem.text(text);
    elem.close();
}

/// Writes a data cell that shows the outcome of a build.
fn write_result_cell<'a>(row: &mut TrSink<'a>, td: &TagTd, result: BuildResult)
    requires
        old(row).is_open(),
        td@ == Some(escaped("row-item"@)),
    ensures
        final(row).is_open(),
        (*final(row).target())@ == (*old(row).target())@ + label_cell(result.color(), result.label()),
        *final(final(row).target()) == *final(old(row).target()),
{
    let mut elem = row.open_tag(td.clone());
    let colored = match result {
        BuildResult::Pass => span().style("color:green;"),
        BuildResult::Fail => span().style("color:red;"),
        BuildResult::InProgress => span().style("color:darkgoldenrod;"),
    };
    {
        let mut label = elem.open_tag(colored);
        let _ = label.text(result.as_str());
        label.close();
    }
    elem.close();
}

/// Writes the row at `index` for `repo` into the build table.
#[verifier::rlimit(40)]
fn write_repo_row<'a>(table: &mut TableSink<'a>, index: usize, repo: &Repo, td: &TagTd)
    requires
        old(table).is_open(),
        repo.commit@.len() >= 9,
        td@ == Some(escaped("row-item"@)),
    ensures
        final(table).is_open(),
        (*final(table).target())@ == (*old(table).target())@ + row_of(index as int, *repo),
        *final(final(table).target()) == *final(old(table).target()),
{
    let class = if index % 2 == 0 {
        "even-row"
    } else {
        "odd-row"
    };
    let mut row = table.row(tr().class(class));
    let ghost start = (*row.target())@;
    let mut href = String::new();
    href.append("/");
    href.append(repo.name.as_str());
    write_link_cell(&mut row, td, href.as_str(), repo.name.as_str());
    write_text_cell(&mut row, td, repo.date.as_str());
    let mut commit_href = String::new();
    commit_href.append("/");
    commit_href.append(repo.name.as_str());
    commit_href.append("/");
    commit_href.append(repo.commit.as_str());
    let short_commit = repo.commit.as_str().substring_char(0, 9);
    write_link_cell(&mut row, td, commit_href.as_str(), short_commit);
    write_result_cell(&mut row, td, repo.result);
    proof {
        assert((*row.target())@ =~= start + link_cell("/"@ + repo.name@, repo.name@) + text_cell(
            repo.date@,
        ) + link_cell("/"@ + repo.name@ + "/"@ + repo.commit@, repo.commit@.subrange(0, 9))
            + label_cell(repo.result.color(), repo.result.label()));
    }
    row.close();
    proof {
        assert(row_class(index as int) == class@);
    }
}

/// Writes the page's style sheet.
fn write_style_sheet<'a>(html: &mut HtmlSink<'a>) -> (r: std::fmt::Result)
    requires
        old(html).is_open(),
    ensures
        final(html).is_open(),
        r is Ok,
        (*final(html).target())@ == (*old(html).target())@ + style_sheet(),
        *final(final(html).target()) == *final(old(html).target()),
{
    let mut sheet = html.open_tag(style());
    let ghost start = (*sheet.target())@;
    sheet.rule(".build-table { font-family: monospace; border: 1px solid black; }")?;
    sheet.rule(
        ".row-item { padding-left: 4px; padding-right: 4px; border-right: 1px solid black; }",
    )?;
    sheet.rule(".odd-row { background: #eee; }")?;
    sheet.rule(".even-row { background: #ddd; }")?;
    assert((*sheet.target())@ =~= start + style_rules());
    sheet.close();
    Ok(())
}

/// Writes the page's heading.
fn write_heading<'a>(html: &mut HtmlSink<'a>) -> (r: std::fmt::Result)
    requires
        old(html).is_open(),
    ensures
        final(html).is_open(),
        r is Ok,
        (*final(html).target())@ == (*old(html).target())@ + heading(),
        *final(final(html).target()) == *final(old(html).target()),
{
    let mut header = html.open_tag(h1());
    header.text("builds and build accessories")?;
    header.close();
    Ok(())
}

/// Writes the paragraph that says how many repositories there are.
fn write_description<'a>(html: &mut HtmlSink<'a>, count: usize) -> (r: std::fmt::Result)
    requires
        old(html).is_open(),
    ensures
        final(html).is_open(),
        r is Ok,
        (*final(html).target())@ == (*old(html).target())@ + ("<p>"@ + written(
            description(count as nat),
        ) + "</p>\n"@),
        *final(final(html).target()) == *final(old(html).target()),
{
    let mut paragraph = html.open_tag(p());
    let sentence = describe(count);
    paragraph.text(sentence.as_str())?;
    paragraph.close();
    Ok(())
}

/// Writes the header row of the build table.
#[verifier::rlimit(40)]
fn write_table_header<'a>(table: &mut TableSink<'a>) -> (r: std::fmt::Result)
    requires
        old(table).is_open(),
    ensures
        final(table).is_open(),
        r is Ok,
        (*final(table).target())@ == (*old(table).target())@ + header_row(),
        *final(final(table).target()) == *final(old(table).target()),
{
    let mut header = table.header();
    let ghost start = (*header.target())@;
    let th = th().class("row-item");
    add_cell(&mut header, &th, "repo")?;
    let ghost s1 = start + header_cell("repo"@);
    assert((*header.target())@ == s1);
    add_cell(&mut header, &th, "last build")?;
    let ghost s2 = s1 + header_cell("last build"@);
    assert((*header.target())@ == s2);
    add_cell(&mut header, &th, "commit/job")?;
    let ghost s3 = s2 + header_cell("commit/job"@);
    assert((*header.target())@ == s3);
    add_cell(&mut header, &th, "remote")?;
    let ghost s4 = s3 + header_cell("remote"@);
    assert((*header.target())@ == s4);
    add_cell(&mut header, &th, "duration")?;
    let ghost s5 = s4 + header_cell("duration"@);
    assert((*header.target())@ == s5);
    add_cell(&mut header, &th, "status")?;
    let ghost s6 = s5 + header_cell("status"@);
    assert((*header.target())@ == s6);
    add_cell(&mut header, &th, "result")?;
    let ghost s7 = s6 + header_cell("result"@);
    assert((*header.target())@ == s7);
    header.close();
    assert((*final(table).target())@ =~= (*old(table).target())@ + header_row());
    Ok(())
}

/// Writes one row per repository into the build table.
fn write_repo_rows<'a>(table: &mut TableSink<'a>, repos: &Vec<Repo>) -> (r: std::fmt::Result)
    requires
        old(table).is_open(),
        forall|j: int| 0 <= j < repos@.len() ==> (#[trigger] repos@[j]).commit@.len() >= 9,
    ensures
        final(table).is_open(),
        r is Ok,
        (*final(table).target())@ == (*old(table).target())@ + rows_of(repos@, repos@.len() as int),
        *final(final(table).target()) == *final(old(table).target()),
{
    let td = td().class("row-item");
    let mut i: usize = 0;
    while i < repos.len()
        invariant
            i <= repos@.len(),
            forall|j: int| 0 <= j < repos@.len() ==> (#[trigger] repos@[j]).commit@.len() >= 9,
            td@ == Some(escaped("row-item"@)),
            table.is_open(),
            (*table.target())@ == (*old(table).target())@ + rows_of(repos@, i as int),
            *final(table.target()) == *final(old(table).target()),
        decreases repos@.len() - i,
    {
        write_repo_row(table, i, &repos[i], &td);
        assert((*table.target())@ =~= (*old(table).target())@ + rows_of(repos@, i + 1));
        i = i + 1;
    }
    Ok(())
}

/// Writes the build table: its header row and a row per repository.
fn write_build_table<'a>(html: &mut HtmlSink<'a>, repos: &Vec<Repo>) -> (r: std::fmt::Result)
    requires
        old(html).is_open(),
        forall|j: int| 0 <= j < repos@.len() ==> (#[trigger] repos@[j]).commit@.len() >= 9,
    ensures
        final(html).is_open(),
        r is Ok,
        (*final(html).target())@ == (*old(html).target())@ + (table_opening(
            Some(escaped("build-table"@)),
        ) + (header_row() + rows_of(repos@, repos@.len() as int)) + "</table>\n"@),
        *final(final(html).target()) == *final(old(html).target()),
{
    let mut table = html.open_tag(table().class("build-table"));
    let ghost start = (*table.target())@;
    write_table_header(&mut table)?;
    write_repo_rows(&mut table, repos)?;
    assert((*table.target())@ =~= start + (header_row() + rows_of(repos@, repos@.len() as int)));
    table.close();
    Ok(())
}

/// The repositories that the page lists, with their last builds.
fn repositories() -> (repos: Vec<Repo>)
    ensures
        repos@.len() == 3,
        forall|j: int| 0 <= j < repos@.len() ==> (#[trigger] repos@[j]).commit@.len() >= 9,
        rows_of(repos@, repos@.len() as int) == example_rows(),
{
    let mut repos: Vec<Repo> = Vec::new();
    repos.push(
        Repo {
            name: "yaxpeax-avr".to_string(),
            commit: "50254b46dc2daad0cbe23b999b733e0e989e81ab".to_string(),
            date: "Wed, 21 Dec 2022 08:21:17 +0000".to_string(),
            result: BuildResult::Pass,
        },
    );
    repos.push(
        Repo {
            name: "yaxpeax-zvm".to_string(),
            commit: "2b2175d771afb478f30b176118d6680b1c695eb8".to_string(),
            date: "Fri, 04 Aug 2023 23:47:11 +0000".to_string(),
            result: BuildResult::Fail,
        },
    );
    repos.push(
        Repo {
            name: "yaxpeax-x86".to_string(),
            commit: "681262f4472ba4f452446e86012ce629b849d8d9".to_string(),
            date: "Wed, 26 Jun 2024 04:35:15 +0000".to_string(),
            result: BuildResult::InProgress,
        },
    );
    assert(forall|j: int| 0 <= j < repos@.len() ==> (#[trigger] repos@[j]).commit@.len() >= 9) by {
        reveal_strlit("50254b46dc2daad0cbe23b999b733e0e989e81ab");
        reveal_strlit("2b2175d771afb478f30b176118d6680b1c695eb8");
        reveal_strlit("681262f4472ba4f452446e86012ce629b849d8d9");
    }
    assert(rows_of(repos@, repos@.len() as int) == example_rows()) by {
        reveal_with_fuel(rows_of, 4);
        assert(rows_of(repos@, 3) =~= example_rows());
    }

    repos
}

/// Writes a page that lists the builds of three repositories.
pub fn example() -> (r: Result<String, std::fmt::Error>)
    ensures
        r matches Ok(page) && page@ == example_page(),
{
    let repos = repositories();

    let mut out = String::new();

    let mut html = HtmlSink::root(&mut out);

    write_style_sheet(&mut html)?;
    write_heading(&mut html)?;
    write_description(&mut html, repos.len())?;

    write_build_table(&mut html, &repos)?;

    html.close();

    Ok(out)
}

/// Text in which nothing needs escaping.
spec fn is_plain(s: Seq<char>) -> bool {
    forall|i: int| 0 <= i < s.len() ==> !is_escaped_char(#[trigger] s[i])
}

proof fn lemma_plain_concat(a: Seq<char>, b: Seq<char>)
    requires
        is_plain(a),
        is_plain(b),
    ensures
        is_plain(a + b),
{
    assert forall|i: int| 0 <= i < (a + b).len() implies !is_escaped_char(#[trigger] (a + b)[i]) by {
        if i < a.len() {
            assert((a + b)[i] == a[i]);
        } else {
            assert((a + b)[i] == b[i - a.len()]);
        }
    }
}

proof fn lemma_style_text()
    ensures
        style_sheet() == "<style>.build-table { font-family: monospace; border: 1px solid black; }\n.row-item { padding-left: 4px; padding-right: 4px; border-right: 1px solid black; }\n.odd-row { background: #eee; }\n.even-row { background: #ddd; }\n</style>\n"@,
{
    reveal_strlit(".build-table { font-family: monospace; border: 1px solid black; }");
    reveal_strlit(".row-item { padding-left: 4px; padding-right: 4px; border-right: 1px solid black; }");
    reveal_strlit(".odd-row { background: #eee; }");
    reveal_strlit(".even-row { background: #ddd; }");
    reveal_strlit("<style>");
    reveal_strlit("\n");
    reveal_strlit("</style>\n");
    reveal_strlit("<style>.build-table { font-family: monospace; border: 1px solid black; }\n.row-item { padding-left: 4px; padding-right: 4px; border-right: 1px solid black; }\n.odd-row { background: #eee; }\n.even-row { background: #ddd; }\n</style>\n");
    lemma_escaped_plain(".build-table { font-family: monospace; border: 1px solid black; }"@);
    lemma_escaped_plain(".row-item { padding-left: 4px; padding-right: 4px; border-right: 1px solid black; }"@);
    lemma_escaped_plain(".odd-row { background: #eee; }"@);
    lemma_escaped_plain(".even-row { background: #ddd; }"@);
    assert(style_sheet() =~= "<style>.build-table { font-family: monospace; border: 1px solid black; }\n.row-item { padding-left: 4px; padding-right: 4px; border-right: 1px solid black; }\n.odd-row { background: #eee; }\n.even-row { background: #ddd; }\n</style>\n"@);
}

proof fn lemma_heading_text()
    ensures
        heading() == "<h1>builds and build accessories\n</h1>\n"@,
{
    reveal_strlit("builds and build accessories");
    reveal_strlit("<h1>");
    reveal_strlit("\n");
    reveal_strlit("</h1>\n");
    reveal_strlit("<h1>builds and build accessories\n</h1>\n");
    lemma_escaped_plain("builds and build accessories"@);
    assert(heading() =~= "<h1>builds and build accessories\n</h1>\n"@);
}

proof fn lemma_count_paragraph_text()
    ensures
        count_paragraph() == "<p>3 repos configured\n</p>\n"@,
{
    reveal_strlit("0123456789");
    reveal_strlit(" repos configured");
    reveal_strlit("<p>");
    reveal_strlit("\n");
    reveal_strlit("</p>\n");
    reveal_strlit("<p>3 repos configured\n</p>\n");
    assert(decimal(3) == seq!['3']);
    lemma_escaped_plain(description(3));
    assert(count_paragraph() =~= "<p>3 repos configured\n</p>\n"@);
}

proof fn lemma_table_head_text()
    ensures
        table_opening(Some(escaped("build-table"@))) == "<table class=\"build-table\">"@,
        header_row() == "<tr>\n<th class=\"row-item\">repo\n</th>\n<th class=\"row-item\">last build\n</th>\n<th class=\"row-item\">commit/job\n</th>\n<th class=\"row-item\">remote\n</th>\n<th class=\"row-item\">duration\n</th>\n<th class=\"row-item\">status\n</th>\n<th class=\"row-item\">result\n</th>\n</tr>\n"@,
{
    reveal_strlit("repo");
    reveal_strlit("last build");
    reveal_strlit("commit/job");
    reveal_strlit("remote");
    reveal_strlit("duration");
    reveal_strlit("status");
    reveal_strlit("result");
    reveal_strlit("build-table");
    reveal_strlit("row-item");
    reveal_strlit("<table class=\"");
    reveal_strlit("\">");
    reveal_strlit("<tr>\n");
    reveal_strlit("<th class=\"");
    reveal_strlit("\n");
    reveal_strlit("</th>\n");
    reveal_strlit("</tr>\n");
    reveal_strlit("<table class=\"build-table\">");
    reveal_strlit("<tr>\n<th class=\"row-item\">repo\n</th>\n<th class=\"row-item\">last build\n</th>\n<th class=\"row-item\">commit/job\n</th>\n<th class=\"row-item\">remote\n</th>\n<th class=\"row-item\">duration\n</th>\n<th class=\"row-item\">status\n</th>\n<th class=\"row-item\">result\n</th>\n</tr>\n");
    lemma_escaped_plain("build-table"@);
    lemma_escaped_plain("row-item"@);
    lemma_escaped_plain("repo"@);
    lemma_escaped_plain("last build"@);
    lemma_escaped_plain("commit/job"@);
    lemma_escaped_plain("remote"@);
    lemma_escaped_plain("duration"@);
    lemma_escaped_plain("status"@);
    lemma_escaped_plain("result"@);
    assert(table_opening(Some(escaped("build-table"@))) =~= "<table class=\"build-table\">"@);
    assert(header_row() =~= "<tr>\n<th class=\"row-item\">repo\n</th>\n<th class=\"row-item\">last build\n</th>\n<th class=\"row-item\">commit/job\n</th>\n<th class=\"row-item\">remote\n</th>\n<th class=\"row-item\">duration\n</th>\n<th class=\"row-item\">status\n</th>\n<th class=\"row-item\">result\n</th>\n</tr>\n"@);
}

/// The row at `index` of the build table, for parts in which nothing needs
/// escaping: `repo_row` without its escapes.
spec fn plain_row(
    index: int,
    name: Seq<char>,
    commit: Seq<char>,
    date: Seq<char>,
    color: Seq<char>,
    label: Seq<char>,
) -> Seq<char> {
    let cell = td_opening(Some("row-item"@));
    tr_opening(Some(row_class(index))) + (cell + (a_opening(Some("/"@ + name)) + (name + "\n"@)
        + "</a>\n"@) + "</td>\n"@ + (cell + (date + "\n"@) + "</td>\n"@) + (cell + (a_opening(
        Some("/"@ + name + "/"@ + commit),
    ) + (commit.subrange(0, 9) + "\n"@) + "</a>\n"@) + "</td>\n"@) + (cell + (span_opening(
        Some(color),
    ) + (label + "\n"@) + "</span>\n"@) + "</td>\n"@)) + "</tr>\n"@
}

proof fn lemma_repo_row_plain(
    index: int,
    name: Seq<char>,
    commit: Seq<char>,
    date: Seq<char>,
    color: Seq<char>,
    label: Seq<char>,
)
    requires
        commit.len() >= 9,
        is_plain(name),
        is_plain(commit),
        is_plain(date),
        is_plain(color),
        is_plain(label),
    ensures
        repo_row(index, name, commit, date, color, label) == plain_row(
            index,
            name,
            commit,
            date,
            color,
            label,
        ),
{
    reveal_strlit("even-row");
    reveal_strlit("odd-row");
    reveal_strlit("row-item");
    reveal_strlit("/");
    let short = commit.subrange(0, 9);
    assert(is_plain(short)) by {
        assert forall|i: int| 0 <= i < short.len() implies !is_escaped_char(#[trigger] short[i]) by {
            assert(short[i] == commit[i]);
        }
    }
    lemma_plain_concat("/"@, name);
    lemma_plain_concat("/"@ + name, "/"@);
    lemma_plain_concat("/"@ + name + "/"@, commit);
    lemma_escaped_plain(row_class(index));
    lemma_escaped_plain("row-item"@);
    lemma_escaped_plain("/"@ + name);
    lemma_escaped_plain(name);
    lemma_escaped_plain("/"@ + name + "/"@ + commit);
    lemma_escaped_plain(short);
    lemma_escaped_plain(date);
    lemma_escaped_plain(color);
    lemma_escaped_plain(label);
}

proof fn lemma_row_0_text()
    ensures
        repo_row(0, "yaxpeax-avr"@, "50254b46dc2daad0cbe23b999b733e0e989e81ab"@, "Wed, 21 Dec 2022 08:21:17 +0000"@, "color:green;"@, "pass"@) == "<tr class=\"even-row\"><td class=\"row-item\"><a href=\"/yaxpeax-avr\">yaxpeax-avr\n</a>\n</td>\n<td class=\"row-item\">Wed, 21 Dec 2022 08:21:17 +0000\n</td>\n<td class=\"row-item\"><a href=\"/yaxpeax-avr/50254b46dc2daad0cbe23b999b733e0e989e81ab\">50254b46d\n</a>\n</td>\n<td class=\"row-item\"><span style=\"color:green;\">pass\n</span>\n</td>\n</tr>\n"@,
{
    reveal_strlit("yaxpeax-avr");
    reveal_strlit("50254b46dc2daad0cbe23b999b733e0e989e81ab");
    reveal_strlit("Wed, 21 Dec 2022 08:21:17 +0000");
    reveal_strlit("color:green;");
    reveal_strlit("pass");
    reveal_strlit("even-row");
    reveal_strlit("odd-row");
    reveal_strlit("/");
    reveal_strlit("<tr class=\"");
    reveal_strlit("\">");
    reveal_strlit("</tr>\n");
    reveal_strlit("<td class=\"");
    reveal_strlit("<a href=\"");
    reveal_strlit("<span style=\"");
    reveal_strlit("\n");
    reveal_strlit("</a>\n");
    reveal_strlit("</td>\n");
    reveal_strlit("</span>\n");
    reveal_strlit("row-item");
    reveal_strlit("<tr class=\"even-row\"><td class=\"row-item\"><a href=\"/yaxpeax-avr\">yaxpeax-avr\n</a>\n</td>\n<td class=\"row-item\">Wed, 21 Dec 2022 08:21:17 +0000\n</td>\n<td class=\"row-item\"><a href=\"/yaxpeax-avr/50254b46dc2daad0cbe23b999b733e0e989e81ab\">50254b46d\n</a>\n</td>\n<td class=\"row-item\"><span style=\"color:green;\">pass\n</span>\n</td>\n</tr>\n");
    lemma_repo_row_plain(0, "yaxpeax-avr"@, "50254b46dc2daad0cbe23b999b733e0e989e81ab"@, "Wed, 21 Dec 2022 08:21:17 +0000"@, "color:green;"@, "pass"@);
    assert(plain_row(0, "yaxpeax-avr"@, "50254b46dc2daad0cbe23b999b733e0e989e81ab"@, "Wed, 21 Dec 2022 08:21:17 +0000"@, "color:green;"@, "pass"@) =~= "<tr class=\"even-row\"><td class=\"row-item\"><a href=\"/yaxpeax-avr\">yaxpeax-avr\n</a>\n</td>\n<td class=\"row-item\">Wed, 21 Dec 2022 08:21:17 +0000\n</td>\n<td class=\"row-item\"><a href=\"/yaxpeax-avr/50254b46dc2daad0cbe23b999b733e0e989e81ab\">50254b46d\n</a>\n</td>\n<td class=\"row-item\"><span style=\"color:green;\">pass\n</span>\n</td>\n</tr>\n"@);
}

proof fn lemma_row_1_text()
    ensures
        repo_row(1, "yaxpeax-zvm"@, "2b2175d771afb478f30b176118d6680b1c695eb8"@, "Fri, 04 Aug 2023 23:47:11 +0000"@, "color:red;"@, "fail"@) == "<tr class=\"odd-row\"><td class=\"row-item\"><a href=\"/yaxpeax-zvm\">yaxpeax-zvm\n</a>\n</td>\n<td class=\"row-item\">Fri, 04 Aug 2023 23:47:11 +0000\n</td>\n<td class=\"row-item\"><a href=\"/yaxpeax-zvm/2b2175d771afb478f30b176118d6680b1c695eb8\">2b2175d77\n</a>\n</td>\n<td class=\"row-item\"><span style=\"color:red;\">fail\n</span>\n</td>\n</tr>\n"@,
{
    reveal_strlit("yaxpeax-zvm");
    reveal_strlit("2b2175d771afb478f30b176118d6680b1c695eb8");
    reveal_strlit("Fri, 04 Aug 2023 23:47:11 +0000");
    reveal_strlit("color:red;");
    reveal_strlit("fail");
    reveal_strlit("even-row");
    reveal_strlit("odd-row");
    reveal_strlit("/");
    reveal_strlit("<tr class=\"");
    reveal_strlit("\">");
    reveal_strlit("</tr>\n");
    reveal_strlit("<td class=\"");
    reveal_strlit("<a href=\"");
    reveal_strlit("<span style=\"");
    reveal_strlit("\n");
    reveal_strlit("</a>\n");
    reveal_strlit("</td>\n");
    reveal_strlit("</span>\n");
    reveal_strlit("row-item");
    reveal_strlit("<tr class=\"odd-row\"><td class=\"row-item\"><a href=\"/yaxpeax-zvm\">yaxpeax-zvm\n</a>\n</td>\n<td class=\"row-item\">Fri, 04 Aug 2023 23:47:11 +0000\n</td>\n<td class=\"row-item\"><a href=\"/yaxpeax-zvm/2b2175d771afb478f30b176118d6680b1c695eb8\">2b2175d77\n</a>\n</td>\n<td class=\"row-item\"><span style=\"color:red;\">fail\n</span>\n</td>\n</tr>\n");
    lemma_repo_row_plain(1, "yaxpeax-zvm"@, "2b2175d771afb478f30b176118d6680b1c695eb8"@, "Fri, 04 Aug 2023 23:47:11 +0000"@, "color:red;"@, "fail"@);
    assert(plain_row(1, "yaxpeax-zvm"@, "2b2175d771afb478f30b176118d6680b1c695eb8"@, "Fri, 04 Aug 2023 23:47:11 +0000"@, "color:red;"@, "fail"@) =~= "<tr class=\"odd-row\"><td class=\"row-item\"><a href=\"/yaxpeax-zvm\">yaxpeax-zvm\n</a>\n</td>\n<td class=\"row-item\">Fri, 04 Aug 2023 23:47:11 +0000\n</td>\n<td class=\"row-item\"><a href=\"/yaxpeax-zvm/2b2175d771afb478f30b176118d6680b1c695eb8\">2b2175d77\n</a>\n</td>\n<td class=\"row-item\"><span style=\"color:red;\">fail\n</span>\n</td>\n</tr>\n"@);
}

proof fn lemma_row_2_text()
    ensures
        repo_row(2, "yaxpeax-x86"@, "681262f4472ba4f452446e86012ce629b849d8d9"@, "Wed, 26 Jun 2024 04:35:15 +0000"@, "color:darkgoldenrod;"@, "in progress"@) == "<tr class=\"even-row\"><td class=\"row-item\"><a href=\"/yaxpeax-x86\">yaxpeax-x86\n</a>\n</td>\n<td class=\"row-item\">Wed, 26 Jun 2024 04:35:15 +0000\n</td>\n<td class=\"row-item\"><a href=\"/yaxpeax-x86/681262f4472ba4f452446e86012ce629b849d8d9\">681262f44\n</a>\n</td>\n<td class=\"row-item\"><span style=\"color:darkgoldenrod;\">in progress\n</span>\n</td>\n</tr>\n"@,
{
    reveal_strlit("yaxpeax-x86");
    reveal_strlit("681262f4472ba4f452446e86012ce629b849d8d9");
    reveal_strlit("Wed, 26 Jun 2024 04:35:15 +0000");
    reveal_strlit("color:darkgoldenrod;");
    reveal_strlit("in progress");
    reveal_strlit("even-row");
    reveal_strlit("odd-row");
    reveal_strlit("/");
    reveal_strlit("<tr class=\"");
    reveal_strlit("\">");
    reveal_strlit("</tr>\n");
    reveal_strlit("<td class=\"");
    reveal_strlit("<a href=\"");
    reveal_strlit("<span style=\"");
    reveal_strlit("\n");
    reveal_strlit("</a>\n");
    reveal_strlit("</td>\n");
    reveal_strlit("</span>\n");
    reveal_strlit("row-item");
    reveal_strlit("<tr class=\"even-row\"><td class=\"row-item\"><a href=\"/yaxpeax-x86\">yaxpeax-x86\n</a>\n</td>\n<td class=\"row-item\">Wed, 26 Jun 2024 04:35:15 +0000\n</td>\n<td class=\"row-item\"><a href=\"/yaxpeax-x86/681262f4472ba4f452446e86012ce629b849d8d9\">681262f44\n</a>\n</td>\n<td class=\"row-item\"><span style=\"color:darkgoldenrod;\">in progress\n</span>\n</td>\n</tr>\n");
    lemma_repo_row_plain(2, "yaxpeax-x86"@, "681262f4472ba4f452446e86012ce629b849d8d9"@, "Wed, 26 Jun 2024 04:35:15 +0000"@, "color:darkgoldenrod;"@, "in progress"@);
    assert(plain_row(2, "yaxpeax-x86"@, "681262f4472ba4f452446e86012ce629b849d8d9"@, "Wed, 26 Jun 2024 04:35:15 +0000"@, "color:darkgoldenrod;"@, "in progress"@) =~= "<tr class=\"even-row\"><td class=\"row-item\"><a href=\"/yaxpeax-x86\">yaxpeax-x86\n</a>\n</td>\n<td class=\"row-item\">Wed, 26 Jun 2024 04:35:15 +0000\n</td>\n<td class=\"row-item\"><a href=\"/yaxpeax-x86/681262f4472ba4f452446e86012ce629b849d8d9\">681262f44\n</a>\n</td>\n<td class=\"row-item\"><span style=\"color:darkgoldenrod;\">in progress\n</span>\n</td>\n</tr>\n"@);
}

proof fn lemma_example_rows_text()
    ensures
        example_rows() == "<tr class=\"even-row\"><td class=\"row-item\"><a href=\"/yaxpeax-avr\">yaxpeax-avr\n</a>\n</td>\n<td class=\"row-item\">Wed, 21 Dec 2022 08:21:17 +0000\n</td>\n<td class=\"row-item\"><a href=\"/yaxpeax-avr/50254b46dc2daad0cbe23b999b733e0e989e81ab\">50254b46d\n</a>\n</td>\n<td class=\"row-item\"><span style=\"color:green;\">pass\n</span>\n</td>\n</tr>\n"@
            + "<tr class=\"odd-row\"><td class=\"row-item\"><a href=\"/yaxpeax-zvm\">yaxpeax-zvm\n</a>\n</td>\n<td class=\"row-item\">Fri, 04 Aug 2023 23:47:11 +0000\n</td>\n<td class=\"row-item\"><a href=\"/yaxpeax-zvm/2b2175d771afb478f30b176118d6680b1c695eb8\">2b2175d77\n</a>\n</td>\n<td class=\"row-item\"><span style=\"color:red;\">fail\n</span>\n</td>\n</tr>\n"@
            + "<tr class=\"even-row\"><td class=\"row-item\"><a href=\"/yaxpeax-x86\">yaxpeax-x86\n</a>\n</td>\n<td class=\"row-item\">Wed, 26 Jun 2024 04:35:15 +0000\n</td>\n<td class=\"row-item\"><a href=\"/yaxpeax-x86/681262f4472ba4f452446e86012ce629b849d8d9\">681262f44\n</a>\n</td>\n<td class=\"row-item\"><span style=\"color:darkgoldenrod;\">in progress\n</span>\n</td>\n</tr>\n"@,
{
    lemma_row_0_text();
    lemma_row_1_text();
    lemma_row_2_text();
}

/// The page that `example` writes, written out part by part: no character of
/// it needed escaping.
pub proof fn lemma_example_page_text()
    ensures
        example_page() == "<html>\n"@ + ("<style>.build-table { font-family: monospace; border: 1px solid black; }\n.row-item { padding-left: 4px; padding-right: 4px; border-right: 1px solid black; }\n.odd-row { background: #eee; }\n.even-row { background: #ddd; }\n</style>\n"@
            + "<h1>builds and build accessories\n</h1>\n"@
            + "<p>3 repos configured\n</p>\n"@
            + ("<table class=\"build-table\">"@ + ("<tr>\n<th class=\"row-item\">repo\n</th>\n<th class=\"row-item\">last build\n</th>\n<th class=\"row-item\">commit/job\n</th>\n<th class=\"row-item\">remote\n</th>\n<th class=\"row-item\">duration\n</th>\n<th class=\"row-item\">status\n</th>\n<th class=\"row-item\">result\n</th>\n</tr>\n"@
            + ("<tr class=\"even-row\"><td class=\"row-item\"><a href=\"/yaxpeax-avr\">yaxpeax-avr\n</a>\n</td>\n<td class=\"row-item\">Wed, 21 Dec 2022 08:21:17 +0000\n</td>\n<td class=\"row-item\"><a href=\"/yaxpeax-avr/50254b46dc2daad0cbe23b999b733e0e989e81ab\">50254b46d\n</a>\n</td>\n<td class=\"row-item\"><span style=\"color:green;\">pass\n</span>\n</td>\n</tr>\n"@
            + "<tr class=\"odd-row\"><td class=\"row-item\"><a href=\"/yaxpeax-zvm\">yaxpeax-zvm\n</a>\n</td>\n<td class=\"row-item\">Fri, 04 Aug 2023 23:47:11 +0000\n</td>\n<td class=\"row-item\"><a href=\"/yaxpeax-zvm/2b2175d771afb478f30b176118d6680b1c695eb8\">2b2175d77\n</a>\n</td>\n<td class=\"row-item\"><span style=\"color:red;\">fail\n</span>\n</td>\n</tr>\n"@
            + "<tr class=\"even-row\"><td class=\"row-item\"><a href=\"/yaxpeax-x86\">yaxpeax-x86\n</a>\n</td>\n<td class=\"row-item\">Wed, 26 Jun 2024 04:35:15 +0000\n</td>\n<td class=\"row-item\"><a href=\"/yaxpeax-x86/681262f4472ba4f452446e86012ce629b849d8d9\">681262f44\n</a>\n</td>\n<td class=\"row-item\"><span style=\"color:darkgoldenrod;\">in progress\n</span>\n</td>\n</tr>\n"@)) + "</table>\n"@)) + "</html>"@,
{
    lemma_style_text();
    lemma_heading_text();
    lemma_count_paragraph_text();
    lemma_table_head_text();
    lemma_example_rows_text();
}

proof fn lemma_text_cell_neutral(text: Seq<char>)
    ensures
        neutral(text_cell(text)),
{
    lemma_written_text_neutral(text);
    lemma_escaped_has_no_markup("row-item"@);
    lemma_td_element_neutral(Some(escaped("row-item"@)), written(text));
}

proof fn lemma_link_cell_neutral(href: Seq<char>, text: Seq<char>)
    ensures
        neutral(link_cell(href, text)),
{
    lemma_written_text_neutral(text);
    lemma_escaped_has_no_markup(href);
    lemma_a_element_neutral(Some(escaped(href)), written(text));
    lemma_escaped_has_no_markup("row-item"@);
    lemma_td_element_neutral(
        Some(escaped("row-item"@)),
        a_opening(Some(escaped(href))) + written(text) + "</a>\n"@,
    );
}

proof fn lemma_label_cell_neutral(color: Seq<char>, label: Seq<char>)
    ensures
        neutral(label_cell(color, label)),
{
    lemma_written_text_neutral(label);
    lemma_escaped_has_no_markup(color);
    lemma_span_element_neutral(Some(escaped(color)), written(label));
    lemma_escaped_has_no_markup("row-item"@);
    lemma_td_element_neutral(
        Some(escaped("row-item"@)),
        span_opening(Some(escaped(color))) + written(label) + "</span>\n"@,
    );
}

proof fn lemma_repo_row_neutral(
    index: int,
    name: Seq<char>,
    commit: Seq<char>,
    date: Seq<char>,
    color: Seq<char>,
    label: Seq<char>,
)
    ensures
        neutral(repo_row(index, name, commit, date, color, label)),
{
    let c1 = link_cell("/"@ + name, name);
    let c2 = text_cell(date);
    let c3 = link_cell("/"@ + name + "/"@ + commit, commit.subrange(0, 9));
    let c4 = label_cell(color, label);
    lemma_link_cell_neutral("/"@ + name, name);
    lemma_text_cell_neutral(date);
    lemma_link_cell_neutral("/"@ + name + "/"@ + commit, commit.subrange(0, 9));
    lemma_label_cell_neutral(color, label);
    lemma_neutral_concat(c1, c2);
    lemma_neutral_concat(c1 + c2, c3);
    lemma_neutral_concat(c1 + c2 + c3, c4);
    lemma_escaped_has_no_markup(row_class(index));
    lemma_tr_element_neutral(Some(escaped(row_class(index))), c1 + c2 + c3 + c4);
}

proof fn lemma_header_row_content_neutral()
    ensures
        neutral(header_row()),
{
    lemma_escaped_has_no_markup("row-item"@);
    let names = seq![
        "repo"@,
        "last build"@,
        "commit/job"@,
        "remote"@,
        "duration"@,
        "status"@,
        "result"@,
    ];
    assert forall|k: int| 0 <= k < 7 implies neutral(#[trigger] header_cell(names[k])) by {
        lemma_written_text_neutral(names[k]);
        lemma_th_element_neutral(Some(escaped("row-item"@)), written(names[k]));
    }
    let c1 = header_cell("repo"@);
    let c2 = header_cell("last build"@);
    let c3 = header_cell("commit/job"@);
    let c4 = header_cell("remote"@);
    let c5 = header_cell("duration"@);
    let c6 = header_cell("status"@);
    let c7 = header_cell("result"@);
    assert(neutral(c1) && neutral(c2) && neutral(c3) && neutral(c4) && neutral(c5) && neutral(c6)
        && neutral(c7)) by {
        assert(names[0] == "repo"@);
        assert(names[1] == "last build"@);
        assert(names[2] == "commit/job"@);
        assert(names[3] == "remote"@);
        assert(names[4] == "duration"@);
        assert(names[5] == "status"@);
        assert(names[6] == "result"@);
    }
    lemma_neutral_concat(c1, c2);
    lemma_neutral_concat(c1 + c2, c3);
    lemma_neutral_concat(c1 + c2 + c3, c4);
    lemma_neutral_concat(c1 + c2 + c3 + c4, c5);
    lemma_neutral_concat(c1 + c2 + c3 + c4 + c5, c6);
    lemma_neutral_concat(c1 + c2 + c3 + c4 + c5 + c6, c7);
    lemma_header_row_neutral(c1 + c2 + c3 + c4 + c5 + c6 + c7);
}

proof fn lemma_example_rows_neutral()
    ensures
        neutral(example_rows()),
{
    let row0 = repo_row(
        0,
        "yaxpeax-avr"@,
        "50254b46dc2daad0cbe23b999b733e0e989e81ab"@,
        "Wed, 21 Dec 2022 08:21:17 +0000"@,
        "color:green;"@,
        "pass"@,
    );
    let row1 = repo_row(
        1,
        "yaxpeax-zvm"@,
        "2b2175d771afb478f30b176118d6680b1c695eb8"@,
        "Fri, 04 Aug 2023 23:47:11 +0000"@,
        "color:red;"@,
        "fail"@,
    );
    let row2 = repo_row(
        2,
        "yaxpeax-x86"@,
        "681262f4472ba4f452446e86012ce629b849d8d9"@,
        "Wed, 26 Jun 2024 04:35:15 +0000"@,
        "color:darkgoldenrod;"@,
        "in progress"@,
    );
    lemma_repo_row_neutral(
        0,
        "yaxpeax-avr"@,
        "50254b46dc2daad0cbe23b999b733e0e989e81ab"@,
        "Wed, 21 Dec 2022 08:21:17 +0000"@,
        "color:green;"@,
        "pass"@,
    );
    lemma_repo_row_neutral(
        1,
        "yaxpeax-zvm"@,
        "2b2175d771afb478f30b176118d6680b1c695eb8"@,
        "Fri, 04 Aug 2023 23:47:11 +0000"@,
        "color:red;"@,
        "fail"@,
    );
    lemma_repo_row_neutral(
        2,
        "yaxpeax-x86"@,
        "681262f4472ba4f452446e86012ce629b849d8d9"@,
        "Wed, 26 Jun 2024 04:35:15 +0000"@,
        "color:darkgoldenrod;"@,
        "in progress"@,
    );
    lemma_neutral_concat(row0, row1);
    lemma_neutral_concat(row0 + row1, row2);
}

/// The page that `example` writes is well nested: every element in it is
/// closed, in the reverse order of opening.
pub proof fn lemma_example_page_well_nested()
    ensures
        well_nested(example_page()),
{
    let r1 = ".build-table { font-family: monospace; border: 1px solid black; }"@;
    let r2 = ".row-item { padding-left: 4px; padding-right: 4px; border-right: 1px solid black; }"@;
    let r3 = ".odd-row { background: #eee; }"@;
    let r4 = ".even-row { background: #ddd; }"@;
    lemma_written_text_neutral(r1);
    lemma_written_text_neutral(r2);
    lemma_written_text_neutral(r3);
    lemma_written_text_neutral(r4);
    lemma_neutral_concat(written(r1), written(r2));
    lemma_neutral_concat(written(r1) + written(r2), written(r3));
    lemma_neutral_concat(written(r1) + written(r2) + written(r3), written(r4));
    lemma_style_element_neutral(TagStyle {}, style_rules());
    lemma_written_text_neutral("builds and build accessories"@);
    lemma_h1_element_neutral(TagH1 {}, written("builds and build accessories"@));
    lemma_written_text_neutral(description(3));
    lemma_p_element_neutral(TagP {}, written(description(3)));
    lemma_header_row_content_neutral();
    lemma_example_rows_neutral();
    lemma_neutral_concat(header_row(), example_rows());
    lemma_escaped_has_no_markup("build-table"@);
    lemma_table_element_neutral(Some(escaped("build-table"@)), header_row() + example_rows());
    lemma_neutral_concat(style_sheet(), heading());
    lemma_neutral_concat(style_sheet() + heading(), count_paragraph());
    lemma_neutral_concat(style_sheet() + heading() + count_paragraph(), build_table());
    lemma_document_well_nested(style_sheet() + heading() + count_paragraph() + build_table());
}

} // verus!
