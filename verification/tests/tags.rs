use lib::tag::table::TableSink;
use lib::{a, h1, p, span, style, table, td, th, tr};
use lib::{EnterableTag, HtmlSink, Sink, SinkableTag};

fn opening<T: SinkableTag>(tag: &T) -> String {
    let mut s = String::new();
    assert!(tag.write_opening_tag(&mut s).is_ok());
    s
}

#[test]
fn root_and_close_bracket_the_document() {
    let mut out = String::new();
    let html = HtmlSink::root(&mut out);
    html.close();
    assert_eq!(out, "<html>\n</html>");
}

#[test]
fn root_appends_to_what_is_there() {
    let mut out = String::from("<!DOCTYPE html>\n");
    let html = HtmlSink::root(&mut out);
    html.close();
    assert_eq!(out, "<!DOCTYPE html>\n<html>\n</html>");
}

#[test]
fn paragraph_text_is_escaped_and_ends_a_line() {
    let mut out = String::new();
    let mut html = HtmlSink::root(&mut out);
    let mut para = html.open_tag(p());
    assert!(para.text("a < b").is_ok());
    assert!(para.text("c & d").is_ok());
    para.close();
    html.close();
    assert_eq!(out, "<html>\n<p>a &lt; b\nc &amp; d\n</p>\n</html>");
}

#[test]
fn text_cannot_close_the_element() {
    let mut out = String::new();
    let mut html = HtmlSink::root(&mut out);
    let mut heading = html.open_tag(h1());
    assert!(heading.text("</h1><script>evil()</script>").is_ok());
    heading.close();
    html.close();
    assert_eq!(
        out,
        "<html>\n<h1>&lt;/h1&gt;&lt;script&gt;evil()&lt;/script&gt;\n</h1>\n</html>"
    );
}

#[test]
fn style_rules_are_escaped() {
    let mut out = String::new();
    let mut html = HtmlSink::root(&mut out);
    let mut sheet = html.open_tag(style());
    assert!(sheet.rule("p { color: red; }").is_ok());
    assert!(sheet.rule("</style><b>").is_ok());
    sheet.close();
    html.close();
    assert_eq!(
        out,
        "<html>\n<style>p { color: red; }\n&lt;/style&gt;&lt;b&gt;\n</style>\n</html>"
    );
}

#[test]
fn opening_tags_without_attributes() {
    assert_eq!(opening(&p()), "<p>");
    assert_eq!(opening(&h1()), "<h1>");
    assert_eq!(opening(&style()), "<style>");
    assert_eq!(opening(&table()), "<table>");
    assert_eq!(opening(&th()), "<th>");
    assert_eq!(opening(&tr()), "<tr>");
    assert_eq!(opening(&td()), "<td>");
    assert_eq!(opening(&a()), "<a>");
    assert_eq!(opening(&span()), "<span>");
}

#[test]
fn attribute_values_are_escaped() {
    assert_eq!(opening(&table().class("t")), "<table class=\"t\">");
    assert_eq!(opening(&th().class("a\"b")), "<th class=\"a&quot;b\">");
    assert_eq!(opening(&tr().class("<x>")), "<tr class=\"&lt;x&gt;\">");
    assert_eq!(opening(&td().class("it's")), "<td class=\"it&#39;s\">");
    assert_eq!(
        opening(&a().href("/q?a=1&b=2\" onclick=\"x")),
        "<a href=\"/q?a=1&amp;b=2&quot; onclick=&quot;x\">"
    );
}

#[test]
fn span_style_is_escaped() {
    assert_eq!(opening(&span().style("color:red;")), "<span style=\"color:red;\">");
    assert_eq!(opening(&span().style("a\"b")), "<span style=\"a&quot;b\">");
    assert_eq!(
        opening(&span().style("\"><b>")),
        "<span style=\"&quot;&gt;&lt;b&gt;\">"
    );
}

#[test]
fn setting_an_attribute_again_replaces_it() {
    assert_eq!(opening(&td().class("x").class("y")), "<td class=\"y\">");
    assert_eq!(opening(&a().href("/x").href("/y")), "<a href=\"/y\">");
}

#[test]
fn clones_keep_their_attribute() {
    let cell = td().class("row-item");
    assert_eq!(opening(&cell.clone()), opening(&cell));
    let link = a().href("/x");
    assert_eq!(opening(&link.clone()), "<a href=\"/x\">");
    let header = th();
    assert_eq!(opening(&header.clone()), "<th>");
    let s = span().style("c");
    assert_eq!(opening(&s.clone()), "<span style=\"c\">");
    let t = table().class("t");
    assert_eq!(opening(&t.clone()), "<table class=\"t\">");
    let row = tr().class("r");
    assert_eq!(opening(&row.clone()), "<tr class=\"r\">");
}

#[test]
fn prepare_sink_writes_the_opening_tag() {
    let mut out = String::from("x");
    let mut cell = td().class("c").prepare_sink(&mut out);
    assert!(cell.text("1").is_ok());
    cell.close();
    assert_eq!(out, "x<td class=\"c\">1\n</td>\n");
}

fn fill_table(t: &mut TableSink) {
    {
        let mut header = t.header();
        let mut cell = header.open_tag(th());
        assert!(cell.text("k").is_ok());
        cell.close();
        header.close();
    }
    let mut row = t.row(tr().class("odd"));
    let mut cell = row.open_tag(td());
    let mut link = cell.open_tag(a().href("/k"));
    assert!(link.text("v").is_ok());
    link.close();
    cell.close();
    assert!(row.text("tail").is_ok());
    row.close();
}

#[test]
fn table_with_header_and_row() {
    let mut out = String::new();
    let mut html = HtmlSink::root(&mut out);
    let mut t = html.open_tag(table());
    assert!(t.text("caption").is_ok());
    fill_table(&mut t);
    t.close();
    html.close();
    assert_eq!(
        out,
        "<html>\n<table>caption\n<tr>\n<th>k\n</th>\n</tr>\n<tr class=\"odd\"><td><a href=\"/k\">v\n</a>\n</td>\ntail\n</tr>\n</table>\n</html>"
    );
}

#[test]
fn every_sink_can_open_tags() {
    let mut out = String::new();
    let mut html = HtmlSink::root(&mut out);
    let mut para = html.open_tag(p());
    let mut s = para.open_tag(span().style("x"));
    assert!(s.text("in span").is_ok());
    let mut inner = s.open_tag(a());
    assert!(inner.text("deep").is_ok());
    inner.close();
    s.close();
    para.close();
    let mut heading = html.open_tag(h1());
    let mut em = heading.open_tag(span());
    assert!(em.text("t").is_ok());
    em.close();
    heading.close();
    let mut sheet = html.open_tag(style());
    let sp = sheet.open_tag(span());
    sp.close();
    sheet.close();
    let mut t = html.open_tag(table());
    let mut header = t.header();
    let mut head_cell = header.open_tag(th());
    let strong = head_cell.open_tag(span());
    strong.close();
    head_cell.close();
    header.close();
    let mut row = t.row(tr());
    let mut c = row.open_tag(td());
    assert!(c.text("c").is_ok());
    c.close();
    row.close();
    let nested = t.open_tag(p());
    nested.close();
    t.close();
    html.close();
    assert_eq!(
        out,
        "<html>\n<p><span style=\"x\">in span\n<a>deep\n</a>\n</span>\n</p>\n<h1><span>t\n</span>\n</h1>\n<style><span></span>\n</style>\n<table><tr>\n<th><span></span>\n</th>\n</tr>\n<tr><td>c\n</td>\n</tr>\n<p></p>\n</table>\n</html>"
    );
}

#[test]
fn text_in_cells_and_links_is_escaped() {
    let mut out = String::new();
    let mut cell = th().prepare_sink(&mut out);
    assert!(cell.text("<b>").is_ok());
    cell.close();
    let mut link = a().prepare_sink(&mut out);
    assert!(link.text("\"q\"").is_ok());
    link.close();
    let mut row = tr().prepare_sink(&mut out);
    assert!(row.text("'").is_ok());
    row.close();
    assert_eq!(out, "<th>&lt;b&gt;\n</th>\n<a>&quot;q&quot;\n</a>\n<tr>&#39;\n</tr>\n");
}

/// Reads `s` from outside any tag and gives the names of the elements left
/// open, or `None` where a closing tag does not close the innermost element.
fn open_elements(s: &str) -> Option<Vec<String>> {
    let mut open: Vec<String> = Vec::new();
    let mut rest = s;
    while let Some(lt) = rest.find('<') {
        let after = &rest[lt + 1..];
        let gt = after.find('>')?;
        let inside = &after[..gt];
        if let Some(name) = inside.strip_prefix('/') {
            if open.pop()? != name {
                return None;
            }
        } else {
            let name = inside.split(' ').next().unwrap_or("");
            if name.is_empty() {
                return None;
            }
            open.push(name.to_string());
        }
        rest = &after[gt + 1..];
    }
    Some(open)
}

#[test]
fn closed_sinks_leave_the_document_well_nested() {
    let mut out = String::new();
    let mut html = HtmlSink::root(&mut out);
    let mut t = html.open_tag(table().class("x\"><script>"));
    fill_table(&mut t);
    assert!(t.text("</table>").is_ok());
    t.close();
    let mut para = html.open_tag(p());
    let mut s = para.open_tag(span().style("color: red\"><b>"));
    assert!(s.text("</span></p></html>").is_ok());
    s.close();
    para.close();
    html.close();
    assert_eq!(open_elements(&out), Some(Vec::new()));
}

#[test]
fn escaped_text_opens_and_closes_nothing() {
    let mut out = String::new();
    let mut cell = td().prepare_sink(&mut out);
    assert!(cell.text("</td><td><tr>").is_ok());
    cell.close();
    assert_eq!(open_elements(&out), Some(Vec::new()));
}

#[test]
fn a_sink_dropped_without_close_closes_its_element() {
    let mut out = String::new();
    {
        let mut html = HtmlSink::root(&mut out);
        let _para = html.open_tag(p());
    }
    assert_eq!(out, "<html>\n<p></p>\n</html>");
    assert_eq!(open_elements(&out), Some(Vec::new()));
}

#[test]
fn elements_close_at_the_end_of_their_scope() {
    let mut out = String::new();
    {
        let mut html = HtmlSink::root(&mut out);
        {
            let mut sheet = html.open_tag(style());
            assert!(sheet.rule(".a { color: red; }").is_ok());
        }
        {
            let mut heading = html.open_tag(h1());
            assert!(heading.text("title").is_ok());
        }
        let mut t = html.open_tag(table().class("t"));
        {
            let mut header = t.header();
            assert!(header.open_tag(th()).text("k").is_ok());
        }
        {
            let mut row = t.row(tr());
            let mut cell = row.open_tag(td());
            assert!(cell.open_tag(a().href("/v")).text("v").is_ok());
        }
    }
    assert_eq!(
        out,
        "<html>\n<style>.a { color: red; }\n</style>\n<h1>title\n</h1>\n<table class=\"t\"><tr>\n<th>k\n</th>\n</tr>\n<tr><td><a href=\"/v\">v\n</a>\n</td>\n</tr>\n</table>\n</html>"
    );
    assert_eq!(open_elements(&out), Some(Vec::new()));
}

#[test]
fn close_then_drop_writes_the_closing_tag_once() {
    let mut out = String::new();
    let mut cell = td().prepare_sink(&mut out);
    assert!(cell.text("x").is_ok());
    cell.close();
    assert_eq!(out, "<td>x\n</td>\n");
}
