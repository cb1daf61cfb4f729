//! Reading opening tags back.
//!
//! `read_opening_tag` takes the text of an opening tag apart again: the
//! element's name and, where there is one, its attribute's name and value.
//! It reads only what it can take apart in one way: the text it reads is
//! exactly the text written from what it gives back. The laws below show that
//! the opening tag each tag writes reads back as that tag, with the attribute
//! value it was given, whole and unchanged.
use vstd::prelude::*;

use crate::escape::{escaped, is_markup_char, lemma_escaped_has_no_markup, lemma_unescaped_escaped, unescaped};
use crate::nesting::is_attribute_value;
use crate::tag::a::{a_opening, TagA};
use crate::tag::h1::TagH1;
use crate::tag::p::TagP;
use crate::tag::span::{span_opening, TagSpan};
use crate::tag::style::TagStyle;
use crate::tag::table::{table_opening, TagTable};
use crate::tag::td::{td_opening, TagTd};
use crate::tag::th::{th_opening, TagTh};
use crate::tag::tr::{tr_opening, TagTr};
use crate::tag::SinkableTag;

verus! {

/// What an opening tag says: the element's name and, where there is one, the
/// name and the value (as written) of its attribute.
pub struct OpeningTag {
    pub name: Seq<char>,
    pub attribute: Option<(Seq<char>, Seq<char>)>,
}

/// The position of the first `c` in `s`, or the length of `s` where `c` does
/// not occur.
pub open spec fn first_index(s: Seq<char>, c: char) -> int
    decreases s.len(),
{
    if s.len() == 0 {
        0
    } else if s[0] == c {
        0
    } else {
        1 + first_index(s.drop_first(), c)
    }
}

/// `c` does not occur in `s`.
pub open spec fn lacks(s: Seq<char>, c: char) -> bool {
    forall|i: int| 0 <= i < s.len() ==> #[trigger] s[i] != c
}

/// Reads `attr="value"`: the attribute's name runs up to the first `=`, which
/// a `"` follows; the value runs from there to the `"` that ends the text,
/// and holds no `"` of its own.
pub open spec fn read_attribute(t: Seq<char>) -> Option<(Seq<char>, Seq<char>)> {
    let eq = first_index(t, '=');
    if eq + 3 <= t.len() && t[eq + 1] == '"' && t[t.len() - 1] == '"' && lacks(
        t.subrange(eq + 2, t.len() - 1),
        '"',
    ) {
        Some((t.subrange(0, eq), t.subrange(eq + 2, t.len() - 1)))
    } else {
        None
    }
}

/// Reads an opening tag: `<`, the name up to the first space or the end,
/// then, after the space, one attribute, and `>`.
pub open spec fn read_opening_tag(s: Seq<char>) -> Option<OpeningTag> {
    if s.len() >= 2 && s[0] == '<' && s[s.len() - 1] == '>' {
        let inner = s.subrange(1, s.len() - 1);
        let sp = first_index(inner, ' ');
        if sp == inner.len() {
            Some(OpeningTag { name: inner, attribute: None })
        } else {
            match read_attribute(inner.subrange(sp + 1, inner.len() as int)) {
                Some(attr) => Some(OpeningTag { name: inner.subrange(0, sp), attribute: Some(attr) }),
                None => None,
            }
        }
    } else {
        None
    }
}

/// The text of the opening tag `t`.
pub open spec fn written_opening(t: OpeningTag) -> Seq<char> {
    match t.attribute {
        Some((attr, value)) => seq!['<'] + t.name + seq![' '] + attr + seq!['=', '"'] + value
            + seq!['"', '>'],
        None => seq!['<'] + t.name + seq!['>'],
    }
}

/// The attribute of the opening tag `s`, its value read back from its escaped
/// form: what was given to the setter of the attribute.
pub open spec fn attribute_text(s: Seq<char>) -> Option<(Seq<char>, Seq<char>)> {
    match read_opening_tag(s) {
        Some(t) => match t.attribute {
            Some((attr, value)) => Some((attr, unescaped(value))),
            None => None,
        },
        None => None,
    }
}

proof fn lemma_first_index_bounds(s: Seq<char>, c: char)
    ensures
        0 <= first_index(s, c) <= s.len(),
        first_index(s, c) < s.len() ==> s[first_index(s, c)] == c,
        lacks(s.subrange(0, first_index(s, c)), c),
    decreases s.len(),
{
    if s.len() > 0 && s[0] != c {
        lemma_first_index_bounds(s.drop_first(), c);
        let k = first_index(s.drop_first(), c);
        assert forall|i: int| 0 <= i < k + 1 implies #[trigger] s.subrange(0, k + 1)[i] != c by {
            if i > 0 {
                assert(s.subrange(0, k + 1)[i] == s.drop_first().subrange(0, k)[i - 1]);
            }
        }
    }
}

proof fn lemma_first_index_absent(s: Seq<char>, c: char)
    requires
        lacks(s, c),
    ensures
        first_index(s, c) == s.len(),
    decreases s.len(),
{
    if s.len() > 0 {
        assert(s[0] != c);
        assert forall|i: int| 0 <= i < s.drop_first().len() implies #[trigger] s.drop_first()[i]
            != c by {
            assert(s.drop_first()[i] == s[i + 1]);
        }
        lemma_first_index_absent(s.drop_first(), c);
    }
}

proof fn lemma_first_index_concat(a: Seq<char>, b: Seq<char>, c: char)
    requires
        lacks(a, c),
    ensures
        first_index(a + b, c) == a.len() + first_index(b, c),
    decreases a.len(),
{
    if a.len() == 0 {
        assert(a + b =~= b);
    } else {
        assert((a + b)[0] == a[0]);
        assert(a[0] != c);
        assert((a + b).drop_first() =~= a.drop_first() + b);
        assert forall|i: int| 0 <= i < a.drop_first().len() implies #[trigger] a.drop_first()[i]
            != c by {
            assert(a.drop_first()[i] == a[i + 1]);
        }
        lemma_first_index_concat(a.drop_first(), b, c);
    }
}

/// `<name>` reads as an element `name` without attributes, where the name
/// holds no space.
pub proof fn lemma_read_plain_opening(name: Seq<char>)
    requires
        lacks(name, ' '),
    ensures
        read_opening_tag(seq!['<'] + name + seq!['>']) == Some(
            OpeningTag { name, attribute: None },
        ),
{
    let s = seq!['<'] + name + seq!['>'];
    assert(s.subrange(1, s.len() - 1) =~= name);
    lemma_first_index_absent(name, ' ');
}

/// `<name attr="value">` reads as an element `name` whose attribute `attr`
/// has the value `value`, where the name holds no space, the attribute's name
/// no `=` and the value no `"`.
pub proof fn lemma_read_attribute_opening(name: Seq<char>, attr: Seq<char>, value: Seq<char>)
    requires
        lacks(name, ' '),
        lacks(attr, '='),
        lacks(value, '"'),
    ensures
        read_opening_tag(
            seq!['<'] + name + seq![' '] + attr + seq!['=', '"'] + value + seq!['"', '>'],
        ) == Some(OpeningTag { name, attribute: Some((attr, value)) }),
{
    let t = attr + seq!['=', '"'] + value + seq!['"'];
    let inner = name + (seq![' '] + t);
    let s = seq!['<'] + name + seq![' '] + attr + seq!['=', '"'] + value + seq!['"', '>'];
    assert(s =~= seq!['<'] + inner + seq!['>']);
    assert(s.subrange(1, s.len() - 1) =~= inner);
    lemma_first_index_concat(name, seq![' '] + t, ' ');
    assert((seq![' '] + t)[0] == ' ');
    assert(first_index(seq![' '] + t, ' ') == 0);
    assert(inner.subrange(name.len() as int + 1, inner.len() as int) =~= t);
    assert(inner.subrange(0, name.len() as int) =~= name);
    lemma_first_index_concat(attr, seq!['=', '"'] + value + seq!['"'], '=');
    assert(t =~= attr + (seq!['=', '"'] + value + seq!['"']));
    assert((seq!['=', '"'] + value + seq!['"'])[0] == '=');
    assert(first_index(t, '=') == attr.len());
    assert(t[attr.len() as int + 1] == '"');
    assert(t[t.len() - 1] == '"');
    assert(t.subrange(attr.len() as int + 2, t.len() - 1) =~= value);
    assert(t.subrange(0, attr.len() as int) =~= attr);
}

/// Reading is exact: a text that reads as an opening tag is the text written
/// from what it reads as, so two texts that read alike are the same text.
pub proof fn lemma_read_opening_tag_exact(s: Seq<char>)
    requires
        read_opening_tag(s) is Some,
    ensures
        written_opening(read_opening_tag(s)->Some_0) == s,
{
    let inner = s.subrange(1, s.len() - 1);
    let sp = first_index(inner, ' ');
    lemma_first_index_bounds(inner, ' ');
    if sp == inner.len() {
        assert(s =~= seq!['<'] + inner + seq!['>']);
    } else {
        let t = inner.subrange(sp + 1, inner.len() as int);
        let eq = first_index(t, '=');
        lemma_first_index_bounds(t, '=');
        let attr = t.subrange(0, eq);
        let value = t.subrange(eq + 2, t.len() - 1);
        assert(t =~= attr + seq!['=', '"'] + value + seq!['"']);
        assert(inner =~= inner.subrange(0, sp) + seq![' '] + t);
        assert(s =~= seq!['<'] + inner.subrange(0, sp) + seq![' '] + attr + seq!['=', '"'] + value
            + seq!['"', '>']);
    }
}

/// An attribute value as the setters write it (no `<`, `>`, `"` or `'`) holds
/// no `"`.
proof fn lemma_attribute_value_lacks_quote(v: Seq<char>)
    requires
        is_attribute_value(v),
    ensures
        lacks(v, '"'),
{
    assert forall|i: int| 0 <= i < v.len() implies #[trigger] v[i] != '"' by {
        assert(!is_markup_char(v[i]));
    }
}

/// The escaped form of any text is an attribute value.
proof fn lemma_escaped_is_attribute_value(text: Seq<char>)
    ensures
        is_attribute_value(escaped(text)),
{
    lemma_escaped_has_no_markup(text);
}

/// The opening tag of a `<tr>` reads back as a `tr` element that carries the
/// `class` value it was given, whole and unchanged, or no attribute where it
/// was given none.
pub proof fn lemma_tr_opening_reads_back(tag: TagTr)
    requires
        tag@ matches Some(v) ==> is_attribute_value(v),
    ensures
        read_opening_tag(tag.opening_tag()) == Some(
            OpeningTag {
                name: "tr"@,
                attribute: match tag@ {
                    Some(v) => Some(("class"@, v)),
                    None => None,
                },
            },
        ),
{
    reveal_strlit("tr");
    reveal_strlit("class");
    reveal_strlit("<tr>");
    reveal_strlit("<tr class=\"");
    reveal_strlit("\">");
    match tag@ {
        Some(v) => {
            lemma_attribute_value_lacks_quote(v);
            assert(tr_opening(tag@) =~= seq!['<'] + "tr"@ + seq![' '] + "class"@ + seq!['=', '"']
                + v + seq!['"', '>']);
            lemma_read_attribute_opening("tr"@, "class"@, v);
        },
        None => {
            assert(tr_opening(tag@) =~= seq!['<'] + "tr"@ + seq!['>']);
            lemma_read_plain_opening("tr"@);
        },
    }
}

/// A `<tr>` given the class `text`, as `class` sets it, writes an opening tag
/// whose `class` attribute reads back as `text`.
pub proof fn lemma_tr_class_reads_back(tag: TagTr, text: Seq<char>)
    requires
        tag@ == Some(escaped(text)),
    ensures
        attribute_text(tag.opening_tag()) == Some(("class"@, text)),
{
    lemma_escaped_is_attribute_value(text);
    lemma_tr_opening_reads_back(tag);
    lemma_unescaped_escaped(text);
}

/// The opening tag of a `<td>` reads back as a `td` element that carries the
/// `class` value it was given, whole and unchanged, or no attribute where it
/// was given none.
pub proof fn lemma_td_opening_reads_back(tag: TagTd)
    requires
        tag@ matches Some(v) ==> is_attribute_value(v),
    ensures
        read_opening_tag(tag.opening_tag()) == Some(
            OpeningTag {
                name: "td"@,
                attribute: match tag@ {
                    Some(v) => Some(("class"@, v)),
                    None => None,
                },
            },
        ),
{
    reveal_strlit("td");
    reveal_strlit("class");
    reveal_strlit("<td>");
    reveal_strlit("<td class=\"");
    reveal_strlit("\">");
    match tag@ {
        Some(v) => {
            lemma_attribute_value_lacks_quote(v);
            assert(td_opening(tag@) =~= seq!['<'] + "td"@ + seq![' '] + "class"@ + seq!['=', '"']
                + v + seq!['"', '>']);
            lemma_read_attribute_opening("td"@, "class"@, v);
        },
        None => {
            assert(td_opening(tag@) =~= seq!['<'] + "td"@ + seq!['>']);
            lemma_read_plain_opening("td"@);
        },
    }
}

/// A `<td>` given the class `text`, as `class` sets it, writes an opening tag
/// whose `class` attribute reads back as `text`.
pub proof fn lemma_td_class_reads_back(tag: TagTd, text: Seq<char>)
    requires
        tag@ == Some(escaped(text)),
    ensures
        attribute_text(tag.opening_tag()) == Some(("class"@, text)),
{
    lemma_escaped_is_attribute_value(text);
    lemma_td_opening_reads_back(tag);
    lemma_unescaped_escaped(text);
}

/// The opening tag of a `<th>` reads back as a `th` element that carries the
/// `class` value it was given, whole and unchanged, or no attribute where it
/// was given none.
pub proof fn lemma_th_opening_reads_back(tag: TagTh)
    requires
        tag@ matches Some(v) ==> is_attribute_value(v),
    ensures
        read_opening_tag(tag.opening_tag()) == Some(
            OpeningTag {
                name: "th"@,
                attribute: match tag@ {
                    Some(v) => Some(("class"@, v)),
                    None => None,
                },
            },
        ),
{
    reveal_strlit("th");
    reveal_strlit("class");
    reveal_strlit("<th>");
    reveal_strlit("<th class=\"");
    reveal_strlit("\">");
    match tag@ {
        Some(v) => {
            lemma_attribute_value_lacks_quote(v);
            assert(th_opening(tag@) =~= seq!['<'] + "th"@ + seq![' '] + "class"@ + seq!['=', '"']
                + v + seq!['"', '>']);
            lemma_read_attribute_opening("th"@, "class"@, v);
        },
        None => {
            assert(th_opening(tag@) =~= seq!['<'] + "th"@ + seq!['>']);
            lemma_read_plain_opening("th"@);
        },
    }
}

/// A `<th>` given the class `text`, as `class` sets it, writes an opening tag
/// whose `class` attribute reads back as `text`.
pub proof fn lemma_th_class_reads_back(tag: TagTh, text: Seq<char>)
    requires
        tag@ == Some(escaped(text)),
    ensures
        attribute_text(tag.opening_tag()) == Some(("class"@, text)),
{
    lemma_escaped_is_attribute_value(text);
    lemma_th_opening_reads_back(tag);
    lemma_unescaped_escaped(text);
}

/// The opening tag of a `<table>` reads back as a `table` element that carries the
/// `class` value it was given, whole and unchanged, or no attribute where it
/// was given none.
pub proof fn lemma_table_opening_reads_back(tag: TagTable)
    requires
        tag@ matches Some(v) ==> is_attribute_value(v),
    ensures
        read_opening_tag(tag.opening_tag()) == Some(
            OpeningTag {
                name: "table"@,
                attribute: match tag@ {
                    Some(v) => Some(("class"@, v)),
                    None => None,
                },
            },
        ),
{
    reveal_strlit("table");
    reveal_strlit("class");
    reveal_strlit("<table>");
    reveal_strlit("<table class=\"");
    reveal_strlit("\">");
    match tag@ {
        Some(v) => {
            lemma_attribute_value_lacks_quote(v);
            assert(table_opening(tag@) =~= seq!['<'] + "table"@ + seq![' '] + "class"@ + seq!['=', '"']
                + v + seq!['"', '>']);
            lemma_read_attribute_opening("table"@, "class"@, v);
        },
        None => {
            assert(table_opening(tag@) =~= seq!['<'] + "table"@ + seq!['>']);
            lemma_read_plain_opening("table"@);
        },
    }
}

/// A `<table>` given the class `text`, as `class` sets it, writes an opening tag
/// whose `class` attribute reads back as `text`.
pub proof fn lemma_table_class_reads_back(tag: TagTable, text: Seq<char>)
    requires
        tag@ == Some(escaped(text)),
    ensures
        attribute_text(tag.opening_tag()) == Some(("class"@, text)),
{
    lemma_escaped_is_attribute_value(text);
    lemma_table_opening_reads_back(tag);
    lemma_unescaped_escaped(text);
}

/// The opening tag of an `<a>` reads back as an `a` element that carries the
/// `href` value it was given, whole and unchanged, or no attribute where it
/// was given none.
pub proof fn lemma_a_opening_reads_back(tag: TagA)
    requires
        tag@ matches Some(v) ==> is_attribute_value(v),
    ensures
        read_opening_tag(tag.opening_tag()) == Some(
            OpeningTag {
                name: "a"@,
                attribute: match tag@ {
                    Some(v) => Some(("href"@, v)),
                    None => None,
                },
            },
        ),
{
    reveal_strlit("a");
    reveal_strlit("href");
    reveal_strlit("<a>");
    reveal_strlit("<a href=\"");
    reveal_strlit("\">");
    match tag@ {
        Some(v) => {
            lemma_attribute_value_lacks_quote(v);
            assert(a_opening(tag@) =~= seq!['<'] + "a"@ + seq![' '] + "href"@ + seq!['=', '"']
                + v + seq!['"', '>']);
            lemma_read_attribute_opening("a"@, "href"@, v);
        },
        None => {
            assert(a_opening(tag@) =~= seq!['<'] + "a"@ + seq!['>']);
            lemma_read_plain_opening("a"@);
        },
    }
}

/// An `<a>` given the href `text`, as `href` sets it, writes an opening tag
/// whose `href` attribute reads back as `text`.
pub proof fn lemma_a_href_reads_back(tag: TagA, text: Seq<char>)
    requires
        tag@ == Some(escaped(text)),
    ensures
        attribute_text(tag.opening_tag()) == Some(("href"@, text)),
{
    lemma_escaped_is_attribute_value(text);
    lemma_a_opening_reads_back(tag);
    lemma_unescaped_escaped(text);
}

/// The opening tag of a `<span>` reads back as a `span` element that carries the
/// `style` value it was given, whole and unchanged, or no attribute where it
/// was given none.
pub proof fn lemma_span_opening_reads_back(tag: TagSpan)
    requires
        tag@ matches Some(v) ==> is_attribute_value(v),
    ensures
        read_opening_tag(tag.opening_tag()) == Some(
            OpeningTag {
                name: "span"@,
                attribute: match tag@ {
                    Some(v) => Some(("style"@, v)),
                    None => None,
                },
            },
        ),
{
    reveal_strlit("span");
    reveal_strlit("style");
    reveal_strlit("<span>");
    reveal_strlit("<span style=\"");
    reveal_strlit("\">");
    match tag@ {
        Some(v) => {
            lemma_attribute_value_lacks_quote(v);
            assert(span_opening(tag@) =~= seq!['<'] + "span"@ + seq![' '] + "style"@ + seq!['=', '"']
                + v + seq!['"', '>']);
            lemma_read_attribute_opening("span"@, "style"@, v);
        },
        None => {
            assert(span_opening(tag@) =~= seq!['<'] + "span"@ + seq!['>']);
            lemma_read_plain_opening("span"@);
        },
    }
}

/// A `<span>` given the style `text`, as `style` sets it, writes an opening tag
/// whose `style` attribute reads back as `text`.
pub proof fn lemma_span_style_reads_back(tag: TagSpan, text: Seq<char>)
    requires
        tag@ == Some(escaped(text)),
    ensures
        attribute_text(tag.opening_tag()) == Some(("style"@, text)),
{
    lemma_escaped_is_attribute_value(text);
    lemma_span_opening_reads_back(tag);
    lemma_unescaped_escaped(text);
}

/// The opening tag of a `<p>` reads back as a `p` element without attributes.
pub proof fn lemma_p_opening_reads_back(tag: TagP)
    ensures
        read_opening_tag(tag.opening_tag()) == Some(OpeningTag { name: "p"@, attribute: None }),
{
    reveal_strlit("p");
    reveal_strlit("<p>");
    assert(tag.opening_tag() =~= seq!['<'] + "p"@ + seq!['>']);
    lemma_read_plain_opening("p"@);
}

/// The opening tag of a `<h1>` reads back as a `h1` element without attributes.
pub proof fn lemma_h1_opening_reads_back(tag: TagH1)
    ensures
        read_opening_tag(tag.opening_tag()) == Some(OpeningTag { name: "h1"@, attribute: None }),
{
    reveal_strlit("h1");
    reveal_strlit("<h1>");
    assert(tag.opening_tag() =~= seq!['<'] + "h1"@ + seq!['>']);
    lemma_read_plain_opening("h1"@);
}

/// The opening tag of a `<style>` reads back as a `style` element without attributes.
pub proof fn lemma_style_opening_reads_back(tag: TagStyle)
    ensures
        read_opening_tag(tag.opening_tag()) == Some(OpeningTag { name: "style"@, attribute: None }),
{
    reveal_strlit("style");
    reveal_strlit("<style>");
    assert(tag.opening_tag() =~= seq!['<'] + "style"@ + seq!['>']);
    lemma_read_plain_opening("style"@);
}

} // verus!
