//! How the tags in what the sinks write nest.
//!
//! `scan` reads a text character by character and keeps the names of the
//! elements that are open. A text is `neutral` when, read from outside any
//! tag, it closes exactly what it opens, in the reverse order, whatever is
//! open around it. The laws below show that the pieces the sinks write are
//! neutral: escaped text, and an element whose content is neutral, once its
//! sink is closed or dropped.
use vstd::prelude::*;

use crate::escape::{escaped, is_markup_char, lemma_written_text_has_no_markup};
use crate::tag::a::a_opening;
use crate::tag::h1::TagH1;
use crate::tag::p::TagP;
use crate::tag::span::span_opening;
use crate::tag::style::TagStyle;
use crate::tag::table::table_opening;
use crate::tag::td::td_opening;
use crate::tag::th::th_opening;
use crate::tag::tr::tr_opening;
use crate::tag::SinkableTag;

verus! {

/// Where the scan stands inside a text.
pub enum ScanMode {
    /// Between tags.
    Text,
    /// Just after a `<`.
    AfterLt,
    /// Inside an opening tag: the name read so far, and whether the name has
    /// ended (a space was read).
    Open(Seq<char>, bool),
    /// Inside a closing tag: the name read so far.
    Close(Seq<char>),
}

/// The state of a scan: where it stands, and the names of the open elements,
/// innermost last.
pub struct ScanState {
    pub mode: ScanMode,
    pub open: Seq<Seq<char>>,
}

/// Between tags, with the elements `open` open.
pub open spec fn between_tags(open: Seq<Seq<char>>) -> ScanState {
    ScanState { mode: ScanMode::Text, open }
}

/// One character of the scan; `None` where the text is not well nested: a
/// closing tag that does not close the innermost open element, or a tag
/// without a name.
pub open spec fn scan_step(st: ScanState, c: char) -> Option<ScanState> {
    match st.mode {
        ScanMode::Text => if c == '<' {
            Some(ScanState { mode: ScanMode::AfterLt, open: st.open })
        } else {
            Some(st)
        },
        ScanMode::AfterLt => if c == '/' {
            Some(ScanState { mode: ScanMode::Close(Seq::empty()), open: st.open })
        } else if c == '>' || c == ' ' {
            None
        } else {
            Some(ScanState { mode: ScanMode::Open(seq![c], false), open: st.open })
        },
        ScanMode::Open(name, ended) => if c == '>' {
            Some(between_tags(st.open.push(name)))
        } else if c == ' ' || ended {
            Some(ScanState { mode: ScanMode::Open(name, true), open: st.open })
        } else {
            Some(ScanState { mode: ScanMode::Open(name.push(c), false), open: st.open })
        },
        ScanMode::Close(name) => if c == '>' {
            if st.open.len() > 0 && st.open.last() == name {
                Some(between_tags(st.open.drop_last()))
            } else {
                None
            }
        } else {
            Some(ScanState { mode: ScanMode::Close(name.push(c)), open: st.open })
        },
    }
}

/// The scan of `s` from `st`.
pub open spec fn scan(s: Seq<char>, st: ScanState) -> Option<ScanState>
    decreases s.len(),
{
    if s.len() == 0 {
        Some(st)
    } else {
        match scan_step(st, s[0]) {
            Some(next) => scan(s.drop_first(), next),
            None => None,
        }
    }
}

/// `s` closes exactly what it opens, in the reverse order, and ends between
/// tags, whatever elements are open around it.
pub open spec fn neutral(s: Seq<char>) -> bool {
    forall|open: Seq<Seq<char>>| #[trigger] scan(s, between_tags(open)) == Some(between_tags(open))
}

/// A whole document is well nested: read from the start, it closes every
/// element it opens, in the reverse order.
pub open spec fn well_nested(s: Seq<char>) -> bool {
    scan(s, between_tags(Seq::empty())) == Some(between_tags(Seq::empty()))
}

/// A name that an element may have: not empty, and without `<`, `>`, `/`,
/// space or quotes.
pub open spec fn is_tag_name(name: Seq<char>) -> bool {
    &&& name.len() > 0
    &&& forall|i: int|
        0 <= i < name.len() ==> !is_markup_char(#[trigger] name[i]) && name[i] != '/' && name[i]
            != ' '
}

/// An attribute value that cannot end an opening tag early.
pub open spec fn is_attribute_value(v: Seq<char>) -> bool {
    forall|i: int| 0 <= i < v.len() ==> !is_markup_char(#[trigger] v[i])
}

/// Scanning a concatenation scans one part after the other.
pub proof fn lemma_scan_concat(a: Seq<char>, b: Seq<char>, st: ScanState)
    ensures
        scan(a + b, st) == match scan(a, st) {
            Some(mid) => scan(b, mid),
            None => None,
        },
    decreases a.len(),
{
    if a.len() == 0 {
        assert(a + b =~= b);
    } else {
        assert((a + b)[0] == a[0]);
        assert((a + b).drop_first() =~= a.drop_first() + b);
        match scan_step(st, a[0]) {
            Some(next) => {
                lemma_scan_concat(a.drop_first(), b, next);
            },
            None => {},
        }
    }
}

/// Two neutral texts one after the other are neutral.
pub proof fn lemma_neutral_concat(a: Seq<char>, b: Seq<char>)
    requires
        neutral(a),
        neutral(b),
    ensures
        neutral(a + b),
{
    assert forall|open: Seq<Seq<char>>|
        #[trigger] scan(a + b, between_tags(open)) == Some(between_tags(open)) by {
        lemma_scan_concat(a, b, between_tags(open));
        assert(scan(a, between_tags(open)) == Some(between_tags(open)));
        assert(scan(b, between_tags(open)) == Some(between_tags(open)));
    }
}

/// The empty text is neutral.
pub proof fn lemma_empty_neutral()
    ensures
        neutral(Seq::empty()),
{
}

/// Text without `<` stays between tags.
proof fn lemma_text_without_tags(s: Seq<char>, open: Seq<Seq<char>>)
    requires
        forall|i: int| 0 <= i < s.len() ==> #[trigger] s[i] != '<',
    ensures
        scan(s, between_tags(open)) == Some(between_tags(open)),
    decreases s.len(),
{
    if s.len() > 0 {
        assert(s[0] != '<');
        assert forall|i: int| 0 <= i < s.drop_first().len() implies #[trigger] s.drop_first()[i]
            != '<' by {
            assert(s.drop_first()[i] == s[i + 1]);
        }
        lemma_text_without_tags(s.drop_first(), open);
    }
}

/// Text without `<` is neutral.
pub proof fn lemma_plain_text_neutral(s: Seq<char>)
    requires
        forall|i: int| 0 <= i < s.len() ==> #[trigger] s[i] != '<',
    ensures
        neutral(s),
{
    assert forall|open: Seq<Seq<char>>|
        #[trigger] scan(s, between_tags(open)) == Some(between_tags(open)) by {
        lemma_text_without_tags(s, open);
    }
}

/// What `text` and `rule` write, the escaped text and a line break, is
/// neutral: it neither opens nor closes an element.
pub proof fn lemma_written_text_neutral(text: Seq<char>)
    ensures
        neutral(escaped(text) + "\n"@),
{
    lemma_written_text_has_no_markup(text);
    let w = escaped(text) + "\n"@;
    assert forall|i: int| 0 <= i < w.len() implies #[trigger] w[i] != '<' by {
        assert(!is_markup_char(w[i]));
    }
    lemma_plain_text_neutral(w);
}

/// Reading a name inside an opening tag adds it to the name read so far.
proof fn lemma_scan_open_name(name: Seq<char>, prefix: Seq<char>, open: Seq<Seq<char>>)
    requires
        forall|i: int| 0 <= i < name.len() ==> #[trigger] name[i] != '>' && name[i] != ' ',
    ensures
        scan(name, ScanState { mode: ScanMode::Open(prefix, false), open }) == Some(
            ScanState { mode: ScanMode::Open(prefix + name, false), open },
        ),
    decreases name.len(),
{
    if name.len() == 0 {
        assert(prefix + name =~= prefix);
    } else {
        let rest = name.drop_first();
        assert forall|i: int| 0 <= i < rest.len() implies #[trigger] rest[i] != '>' && rest[i]
            != ' ' by {
            assert(rest[i] == name[i + 1]);
        }
        lemma_scan_open_name(rest, prefix.push(name[0]), open);
        assert(prefix.push(name[0]) + rest =~= prefix + name);
    }
}

/// Reading a name inside a closing tag adds it to the name read so far.
proof fn lemma_scan_close_name(name: Seq<char>, prefix: Seq<char>, open: Seq<Seq<char>>)
    requires
        forall|i: int| 0 <= i < name.len() ==> #[trigger] name[i] != '>',
    ensures
        scan(name, ScanState { mode: ScanMode::Close(prefix), open }) == Some(
            ScanState { mode: ScanMode::Close(prefix + name), open },
        ),
    decreases name.len(),
{
    if name.len() == 0 {
        assert(prefix + name =~= prefix);
    } else {
        let rest = name.drop_first();
        assert forall|i: int| 0 <= i < rest.len() implies #[trigger] rest[i] != '>' by {
            assert(rest[i] == name[i + 1]);
        }
        lemma_scan_close_name(rest, prefix.push(name[0]), open);
        assert(prefix.push(name[0]) + rest =~= prefix + name);
    }
}

/// After the name has ended, the rest of an opening tag up to `>` is skipped.
proof fn lemma_scan_attributes(s: Seq<char>, name: Seq<char>, open: Seq<Seq<char>>)
    requires
        forall|i: int| 0 <= i < s.len() ==> #[trigger] s[i] != '>',
    ensures
        scan(s, ScanState { mode: ScanMode::Open(name, true), open }) == Some(
            ScanState { mode: ScanMode::Open(name, true), open },
        ),
    decreases s.len(),
{
    if s.len() > 0 {
        let rest = s.drop_first();
        assert forall|i: int| 0 <= i < rest.len() implies #[trigger] rest[i] != '>' by {
            assert(rest[i] == s[i + 1]);
        }
        lemma_scan_attributes(rest, name, open);
    }
}

proof fn lemma_name_chars(name: Seq<char>)
    requires
        is_tag_name(name),
    ensures
        name[0] != '/' && name[0] != '>' && name[0] != ' ',
        forall|i: int| 0 <= i < name.len() ==> #[trigger] name[i] != '>' && name[i] != ' ',
        forall|i: int|
            0 <= i < name.drop_first().len() ==> #[trigger] name.drop_first()[i] != '>'
                && name.drop_first()[i] != ' ',
{
    assert(!is_markup_char(name[0]));
    assert forall|i: int| 0 <= i < name.len() implies #[trigger] name[i] != '>' && name[i]
        != ' ' by {
        assert(!is_markup_char(name[i]));
    }
    assert forall|i: int| 0 <= i < name.drop_first().len() implies #[trigger] name.drop_first()[i]
        != '>' && name.drop_first()[i] != ' ' by {
        assert(name.drop_first()[i] == name[i + 1]);
        assert(!is_markup_char(name[i + 1]));
    }
}

/// Reading `<` and a name: the scan is inside the opening tag of that name.
proof fn lemma_scan_lt_name(name: Seq<char>, open: Seq<Seq<char>>)
    requires
        is_tag_name(name),
    ensures
        scan(seq!['<'] + name, between_tags(open)) == Some(
            ScanState { mode: ScanMode::Open(name, false), open },
        ),
{
    lemma_name_chars(name);
    let s = seq!['<'] + name;
    assert(s[0] == '<');
    assert(s.drop_first() =~= name);
    assert(name =~= seq![name[0]] + name.drop_first());
    lemma_scan_concat(seq![name[0]], name.drop_first(), ScanState { mode: ScanMode::AfterLt, open });
    assert(scan(seq![name[0]].drop_first(), ScanState { mode: ScanMode::Open(seq![name[0]], false), open }) == Some(ScanState { mode: ScanMode::Open(seq![name[0]], false), open })) by {
        assert(seq![name[0]].drop_first() =~= Seq::<char>::empty());
    }
    lemma_scan_open_name(name.drop_first(), seq![name[0]], open);
    assert(seq![name[0]] + name.drop_first() =~= name);
}

/// The opening tag `<name>` opens an element of that name.
pub proof fn lemma_scan_opening(name: Seq<char>, open: Seq<Seq<char>>)
    requires
        is_tag_name(name),
    ensures
        scan(seq!['<'] + name + seq!['>'], between_tags(open)) == Some(
            between_tags(open.push(name)),
        ),
{
    reveal_with_fuel(scan, 3);
    lemma_scan_lt_name(name, open);
    lemma_scan_concat(seq!['<'] + name, seq!['>'], between_tags(open));
    assert(seq!['>'].drop_first() =~= Seq::<char>::empty());
}

/// The opening tag `<name attr="value">` opens an element of that name, where
/// the value cannot end the tag early.
pub proof fn lemma_scan_opening_with_attribute(
    name: Seq<char>,
    attr: Seq<char>,
    value: Seq<char>,
    open: Seq<Seq<char>>,
)
    requires
        is_tag_name(name),
        is_tag_name(attr),
        is_attribute_value(value),
    ensures
        scan(
            seq!['<'] + name + seq![' '] + attr + seq!['=', '"'] + value + seq!['"', '>'],
            between_tags(open),
        ) == Some(between_tags(open.push(name))),
{
    reveal_with_fuel(scan, 3);
    lemma_scan_lt_name(name, open);
    let inside = ScanState { mode: ScanMode::Open(name, true), open };
    let rest = seq![' '] + attr + seq!['=', '"'] + value + seq!['"'];
    assert forall|i: int| 0 <= i < rest.len() implies #[trigger] rest[i] != '>' by {
        lemma_name_chars(attr);
        if 1 <= i < 1 + attr.len() {
            assert(rest[i] == attr[i - 1]);
        } else if 1 + attr.len() + 2 <= i < 1 + attr.len() + 2 + value.len() {
            assert(rest[i] == value[i - 1 - attr.len() - 2]);
            assert(!is_markup_char(value[i - 1 - attr.len() - 2]));
        }
    }
    assert(rest =~= seq![' '] + rest.drop_first());
    lemma_scan_concat(seq![' '], rest.drop_first(), ScanState { mode: ScanMode::Open(name, false), open });
    assert(seq![' '].drop_first() =~= Seq::<char>::empty());
    assert forall|i: int| 0 <= i < rest.drop_first().len() implies #[trigger] rest.drop_first()[i]
        != '>' by {
        assert(rest.drop_first()[i] == rest[i + 1]);
    }
    lemma_scan_attributes(rest.drop_first(), name, open);
    assert(scan(rest, ScanState { mode: ScanMode::Open(name, false), open }) == Some(inside));
    let whole = seq!['<'] + name + seq![' '] + attr + seq!['=', '"'] + value + seq!['"', '>'];
    assert(whole =~= (seq!['<'] + name) + rest + seq!['>']);
    lemma_scan_concat(seq!['<'] + name, rest, between_tags(open));
    lemma_scan_concat((seq!['<'] + name) + rest, seq!['>'], between_tags(open));
    assert(seq!['>'].drop_first() =~= Seq::<char>::empty());
}

/// The closing tag `</name>` closes the innermost element when it has that
/// name.
pub proof fn lemma_scan_closing(name: Seq<char>, open: Seq<Seq<char>>)
    requires
        is_tag_name(name),
    ensures
        scan(seq!['<', '/'] + name + seq!['>'], between_tags(open.push(name))) == Some(
            between_tags(open),
        ),
{
    reveal_with_fuel(scan, 3);
    lemma_name_chars(name);
    let pushed = open.push(name);
    let s = seq!['<', '/'] + name + seq!['>'];
    assert(s =~= seq!['<', '/'] + (name + seq!['>']));
    lemma_scan_concat(seq!['<', '/'], name + seq!['>'], between_tags(pushed));
    assert(seq!['<', '/'].drop_first() =~= seq!['/']);
    assert(seq!['/'].drop_first() =~= Seq::<char>::empty());
    let in_close = ScanState { mode: ScanMode::Close(Seq::empty()), open: pushed };
    assert(scan(seq!['<', '/'], between_tags(pushed)) == Some(in_close));
    lemma_scan_concat(name, seq!['>'], in_close);
    lemma_scan_close_name(name, Seq::empty(), pushed);
    assert(Seq::<char>::empty() + name =~= name);
    assert(seq!['>'].drop_first() =~= Seq::<char>::empty());
    assert(pushed.drop_last() =~= open);
}

/// An element whose content is neutral is neutral: `<name>`, the content,
/// `</name>` and what follows the closing tag, when that has no `<`.
pub proof fn lemma_element_neutral(opening: Seq<char>, name: Seq<char>, content: Seq<char>, after: Seq<char>)
    requires
        is_tag_name(name),
        forall|open: Seq<Seq<char>>|
            #[trigger] scan(opening, between_tags(open)) == Some(between_tags(open.push(name))),
        neutral(content),
        forall|i: int| 0 <= i < after.len() ==> #[trigger] after[i] != '<',
    ensures
        neutral(opening + content + (seq!['<', '/'] + name + seq!['>']) + after),
{
    let closing = seq!['<', '/'] + name + seq!['>'];
    assert forall|open: Seq<Seq<char>>|
        #[trigger] scan(opening + content + closing + after, between_tags(open)) == Some(
            between_tags(open),
        ) by {
        let pushed = open.push(name);
        assert(scan(opening, between_tags(open)) == Some(between_tags(pushed)));
        assert(scan(content, between_tags(pushed)) == Some(between_tags(pushed)));
        lemma_scan_closing(name, open);
        lemma_text_without_tags(after, open);
        lemma_scan_concat(opening, content, between_tags(open));
        lemma_scan_concat(opening + content, closing, between_tags(open));
        lemma_scan_concat(opening + content + closing, after, between_tags(open));
    }
}

/// An element written as `opening`, `content`, its closing tag and a line
/// break is neutral, when its opening tag opens an element named `name`.
proof fn lemma_element_line_neutral(opening: Seq<char>, name: Seq<char>, content: Seq<char>)
    requires
        is_tag_name(name),
        forall|open: Seq<Seq<char>>|
            #[trigger] scan(opening, between_tags(open)) == Some(between_tags(open.push(name))),
        neutral(content),
    ensures
        neutral(opening + content + (seq!['<', '/'] + name + seq!['>', '\n'])),
{
    lemma_element_neutral(opening, name, content, seq!['\n']);
    assert(opening + content + (seq!['<', '/'] + name + seq!['>', '\n']) =~= opening + content + (
    seq!['<', '/'] + name + seq!['>']) + seq!['\n']);
}

/// An element `<name>`, `content`, `</name>` and a line break is neutral.
pub proof fn lemma_plain_element_neutral(name: Seq<char>, content: Seq<char>)
    requires
        is_tag_name(name),
        neutral(content),
    ensures
        neutral(seq!['<'] + name + seq!['>'] + content + (seq!['<', '/'] + name + seq!['>', '\n'])),
{
    assert forall|open: Seq<Seq<char>>|
        #[trigger] scan(seq!['<'] + name + seq!['>'], between_tags(open)) == Some(
            between_tags(open.push(name)),
        ) by {
        lemma_scan_opening(name, open);
    }
    lemma_element_line_neutral(seq!['<'] + name + seq!['>'], name, content);
}

/// An element `<name attr="value">`, `content`, `</name>` and a line break is
/// neutral.
pub proof fn lemma_attribute_element_neutral(
    name: Seq<char>,
    attr: Seq<char>,
    value: Seq<char>,
    content: Seq<char>,
)
    requires
        is_tag_name(name),
        is_tag_name(attr),
        is_attribute_value(value),
        neutral(content),
    ensures
        neutral(
            seq!['<'] + name + seq![' '] + attr + seq!['=', '"'] + value + seq!['"', '>'] + content
                + (seq!['<', '/'] + name + seq!['>', '\n']),
        ),
{
    let opening = seq!['<'] + name + seq![' '] + attr + seq!['=', '"'] + value + seq!['"', '>'];
    assert forall|open: Seq<Seq<char>>|
        #[trigger] scan(opening, between_tags(open)) == Some(between_tags(open.push(name))) by {
        lemma_scan_opening_with_attribute(name, attr, value, open);
    }
    lemma_element_line_neutral(opening, name, content);
}

/// A `<p>` element, once its sink is closed or dropped, is neutral when its content
/// is: what `open_tag` and `close` (or the sink's drop) write around the content.
pub proof fn lemma_p_element_neutral(tag: TagP, content: Seq<char>)
    requires
        neutral(content),
    ensures
        neutral(tag.opening_tag() + content + "</p>\n"@),
{
    reveal_strlit("p");
    reveal_strlit("<p>");
    reveal_strlit("</p>\n");
    assert(!is_markup_char('p'));
    assert(is_tag_name("p"@));
    assert(tag.opening_tag() =~= seq!['<'] + "p"@ + seq!['>']);
    assert("</p>\n"@ =~= seq!['<', '/'] + "p"@ + seq!['>', '\n']);
    lemma_plain_element_neutral("p"@, content);
}

/// A `<h1>` element, once its sink is closed or dropped, is neutral when its content
/// is: what `open_tag` and `close` (or the sink's drop) write around the content.
pub proof fn lemma_h1_element_neutral(tag: TagH1, content: Seq<char>)
    requires
        neutral(content),
    ensures
        neutral(tag.opening_tag() + content + "</h1>\n"@),
{
    reveal_strlit("h1");
    reveal_strlit("<h1>");
    reveal_strlit("</h1>\n");
    assert(!is_markup_char('h'));
    assert(is_tag_name("h1"@));
    assert(tag.opening_tag() =~= seq!['<'] + "h1"@ + seq!['>']);
    assert("</h1>\n"@ =~= seq!['<', '/'] + "h1"@ + seq!['>', '\n']);
    lemma_plain_element_neutral("h1"@, content);
}

/// A `<style>` element, once its sink is closed or dropped, is neutral when its content
/// is: what `open_tag` and `close` (or the sink's drop) write around the content.
pub proof fn lemma_style_element_neutral(tag: TagStyle, content: Seq<char>)
    requires
        neutral(content),
    ensures
        neutral(tag.opening_tag() + content + "</style>\n"@),
{
    reveal_strlit("style");
    reveal_strlit("<style>");
    reveal_strlit("</style>\n");
    assert(!is_markup_char('s'));
    assert(is_tag_name("style"@));
    assert(tag.opening_tag() =~= seq!['<'] + "style"@ + seq!['>']);
    assert("</style>\n"@ =~= seq!['<', '/'] + "style"@ + seq!['>', '\n']);
    lemma_plain_element_neutral("style"@, content);
}

/// A `<table>` element, once its sink is closed or dropped, is neutral when its content
/// is and its `class` value cannot end the tag early (as `class` and the
/// escape make it). For a tag `t`, `value` is `t@`.
pub proof fn lemma_table_element_neutral(value: Option<Seq<char>>, content: Seq<char>)
    requires
        neutral(content),
        value matches Some(v) ==> is_attribute_value(v),
    ensures
        neutral(table_opening(value) + content + "</table>\n"@),
{
    reveal_strlit("table");
    reveal_strlit("class");
    reveal_strlit("<table>");
    reveal_strlit("<table class=\"");
    reveal_strlit("\">");
    reveal_strlit("</table>\n");
    assert(is_tag_name("table"@));
    assert(is_tag_name("class"@));
    assert("</table>\n"@ =~= seq!['<', '/'] + "table"@ + seq!['>', '\n']);
    match value {
        Some(v) => {
            assert(table_opening(value) =~= seq!['<'] + "table"@ + seq![' '] + "class"@ + seq![
                '=',
                '"',
            ] + v + seq!['"', '>']);
            lemma_attribute_element_neutral("table"@, "class"@, v, content);
        },
        None => {
            assert(table_opening(value) =~= seq!['<'] + "table"@ + seq!['>']);
            lemma_plain_element_neutral("table"@, content);
        },
    }
}

/// A `<th>` element, once its sink is closed or dropped, is neutral when its content
/// is and its `class` value cannot end the tag early (as `class` and the
/// escape make it). For a tag `t`, `value` is `t@`.
pub proof fn lemma_th_element_neutral(value: Option<Seq<char>>, content: Seq<char>)
    requires
        neutral(content),
        value matches Some(v) ==> is_attribute_value(v),
    ensures
        neutral(th_opening(value) + content + "</th>\n"@),
{
    reveal_strlit("th");
    reveal_strlit("class");
    reveal_strlit("<th>");
    reveal_strlit("<th class=\"");
    reveal_strlit("\">");
    reveal_strlit("</th>\n");
    assert(is_tag_name("th"@));
    assert(is_tag_name("class"@));
    assert("</th>\n"@ =~= seq!['<', '/'] + "th"@ + seq!['>', '\n']);
    match value {
        Some(v) => {
            assert(th_opening(value) =~= seq!['<'] + "th"@ + seq![' '] + "class"@ + seq![
                '=',
                '"',
            ] + v + seq!['"', '>']);
            lemma_attribute_element_neutral("th"@, "class"@, v, content);
        },
        None => {
            assert(th_opening(value) =~= seq!['<'] + "th"@ + seq!['>']);
            lemma_plain_element_neutral("th"@, content);
        },
    }
}

/// A `<tr>` element, once its sink is closed or dropped, is neutral when its content
/// is and its `class` value cannot end the tag early (as `class` and the
/// escape make it). For a tag `t`, `value` is `t@`.
pub proof fn lemma_tr_element_neutral(value: Option<Seq<char>>, content: Seq<char>)
    requires
        neutral(content),
        value matches Some(v) ==> is_attribute_value(v),
    ensures
        neutral(tr_opening(value) + content + "</tr>\n"@),
{
    reveal_strlit("tr");
    reveal_strlit("class");
    reveal_strlit("<tr>");
    reveal_strlit("<tr class=\"");
    reveal_strlit("\">");
    reveal_strlit("</tr>\n");
    assert(is_tag_name("tr"@));
    assert(is_tag_name("class"@));
    assert("</tr>\n"@ =~= seq!['<', '/'] + "tr"@ + seq!['>', '\n']);
    match value {
        Some(v) => {
            assert(tr_opening(value) =~= seq!['<'] + "tr"@ + seq![' '] + "class"@ + seq![
                '=',
                '"',
            ] + v + seq!['"', '>']);
            lemma_attribute_element_neutral("tr"@, "class"@, v, content);
        },
        None => {
            assert(tr_opening(value) =~= seq!['<'] + "tr"@ + seq!['>']);
            lemma_plain_element_neutral("tr"@, content);
        },
    }
}

/// A `<td>` element, once its sink is closed or dropped, is neutral when its content
/// is and its `class` value cannot end the tag early (as `class` and the
/// escape make it). For a tag `t`, `value` is `t@`.
pub proof fn lemma_td_element_neutral(value: Option<Seq<char>>, content: Seq<char>)
    requires
        neutral(content),
        value matches Some(v) ==> is_attribute_value(v),
    ensures
        neutral(td_opening(value) + content + "</td>\n"@),
{
    reveal_strlit("td");
    reveal_strlit("class");
    reveal_strlit("<td>");
    reveal_strlit("<td class=\"");
    reveal_strlit("\">");
    reveal_strlit("</td>\n");
    assert(is_tag_name("td"@));
    assert(is_tag_name("class"@));
    assert("</td>\n"@ =~= seq!['<', '/'] + "td"@ + seq!['>', '\n']);
    match value {
        Some(v) => {
            assert(td_opening(value) =~= seq!['<'] + "td"@ + seq![' '] + "class"@ + seq![
                '=',
                '"',
            ] + v + seq!['"', '>']);
            lemma_attribute_element_neutral("td"@, "class"@, v, content);
        },
        None => {
            assert(td_opening(value) =~= seq!['<'] + "td"@ + seq!['>']);
            lemma_plain_element_neutral("td"@, content);
        },
    }
}

/// A `<a>` element, once its sink is closed or dropped, is neutral when its content
/// is and its `href` value cannot end the tag early (as `href` and the
/// escape make it). For a tag `t`, `value` is `t@`.
pub proof fn lemma_a_element_neutral(value: Option<Seq<char>>, content: Seq<char>)
    requires
        neutral(content),
        value matches Some(v) ==> is_attribute_value(v),
    ensures
        neutral(a_opening(value) + content + "</a>\n"@),
{
    reveal_strlit("a");
    reveal_strlit("href");
    reveal_strlit("<a>");
    reveal_strlit("<a href=\"");
    reveal_strlit("\">");
    reveal_strlit("</a>\n");
    assert(is_tag_name("a"@));
    assert(is_tag_name("href"@));
    assert("</a>\n"@ =~= seq!['<', '/'] + "a"@ + seq!['>', '\n']);
    match value {
        Some(v) => {
            assert(a_opening(value) =~= seq!['<'] + "a"@ + seq![' '] + "href"@ + seq![
                '=',
                '"',
            ] + v + seq!['"', '>']);
            lemma_attribute_element_neutral("a"@, "href"@, v, content);
        },
        None => {
            assert(a_opening(value) =~= seq!['<'] + "a"@ + seq!['>']);
            lemma_plain_element_neutral("a"@, content);
        },
    }
}

/// A `<span>` element, once its sink is closed or dropped, is neutral when its content
/// is and its `style` value cannot end the tag early (as `style` and the
/// escape make it). For a tag `t`, `value` is `t@`.
pub proof fn lemma_span_element_neutral(value: Option<Seq<char>>, content: Seq<char>)
    requires
        neutral(content),
        value matches Some(v) ==> is_attribute_value(v),
    ensures
        neutral(span_opening(value) + content + "</span>\n"@),
{
    reveal_strlit("span");
    reveal_strlit("style");
    reveal_strlit("<span>");
    reveal_strlit("<span style=\"");
    reveal_strlit("\">");
    reveal_strlit("</span>\n");
    assert(is_tag_name("span"@));
    assert(is_tag_name("style"@));
    assert("</span>\n"@ =~= seq!['<', '/'] + "span"@ + seq!['>', '\n']);
    match value {
        Some(v) => {
            assert(span_opening(value) =~= seq!['<'] + "span"@ + seq![' '] + "style"@ + seq![
                '=',
                '"',
            ] + v + seq!['"', '>']);
            lemma_attribute_element_neutral("span"@, "style"@, v, content);
        },
        None => {
            assert(span_opening(value) =~= seq!['<'] + "span"@ + seq!['>']);
            lemma_plain_element_neutral("span"@, content);
        },
    }
}

/// The header row of a table, once its sink is closed or dropped, is neutral when its
/// content is: what `header` and `close` (or the sink's drop) write around the
/// content.
pub proof fn lemma_header_row_neutral(content: Seq<char>)
    requires
        neutral(content),
    ensures
        neutral("<tr>\n"@ + content + "</tr>\n"@),
{
    reveal_strlit("tr");
    reveal_strlit("<tr>\n");
    reveal_strlit("</tr>\n");
    assert(is_tag_name("tr"@));
    lemma_plain_text_neutral(seq!['\n']);
    lemma_neutral_concat(seq!['\n'], content);
    lemma_plain_element_neutral("tr"@, seq!['\n'] + content);
    assert("<tr>\n"@ + content + "</tr>\n"@ =~= seq!['<'] + "tr"@ + seq!['>'] + (seq!['\n'] + content)
        + (seq!['<', '/'] + "tr"@ + seq!['>', '\n']));
}

/// A document, once its sink is closed or dropped, is well nested when its content is
/// neutral: what `root` and `close` (or the sink's drop) write around the
/// content.
pub proof fn lemma_document_well_nested(content: Seq<char>)
    requires
        neutral(content),
    ensures
        well_nested("<html>\n"@ + content + "</html>"@),
{
    reveal_strlit("html");
    reveal_strlit("<html>\n");
    reveal_strlit("</html>");
    assert(is_tag_name("html"@));
    lemma_plain_text_neutral(seq!['\n']);
    lemma_neutral_concat(seq!['\n'], content);
    assert forall|open: Seq<Seq<char>>|
        #[trigger] scan(seq!['<'] + "html"@ + seq!['>'], between_tags(open)) == Some(
            between_tags(open.push("html"@)),
        ) by {
        lemma_scan_opening("html"@, open);
    }
    lemma_element_neutral(seq!['<'] + "html"@ + seq!['>'], "html"@, seq!['\n'] + content, Seq::empty());
    assert("<html>\n"@ + content + "</html>"@ =~= seq!['<'] + "html"@ + seq!['>'] + (seq!['\n']
        + content) + (seq!['<', '/'] + "html"@ + seq!['>']) + Seq::<char>::empty());
    assert(scan(
        seq!['<'] + "html"@ + seq!['>'] + (seq!['\n'] + content) + (seq!['<', '/'] + "html"@ + seq!['>'])
            + Seq::<char>::empty(),
        between_tags(Seq::empty()),
    ) == Some(between_tags(Seq::empty())));
}

} // verus!
