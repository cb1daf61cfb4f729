//! Escaping of text that goes into a document: element content, attribute
//! values and style rules all use the same five replacements.
use vstd::prelude::*;

verus! {

/// What one character of input becomes in the output.
pub open spec fn escape_char(c: char) -> Seq<char> {
    if c == '&' {
        "&amp;"@
    } else if c == '<' {
        "&lt;"@
    } else if c == '>' {
        "&gt;"@
    } else if c == '"' {
        "&quot;"@
    } else if c == '\'' {
        "&#39;"@
    } else {
        seq![c]
    }
}

/// The escaped form of `s`: each character replaced by `escape_char` of it.
pub open spec fn escaped(s: Seq<char>) -> Seq<char>
    decreases s.len(),
{
    if s.len() == 0 {
        Seq::empty()
    } else {
        escape_char(s[0]) + escaped(s.drop_first())
    }
}

/// A character that could end text and start markup, or end an attribute value.
pub open spec fn is_markup_char(c: char) -> bool {
    c == '<' || c == '>' || c == '"' || c == '\''
}

/// A character that `escaped` replaces.
pub open spec fn is_escaped_char(c: char) -> bool {
    c == '&' || is_markup_char(c)
}

/// Reads escaped text back: each of the five entities becomes its character,
/// every other character stands for itself.
pub open spec fn unescaped(t: Seq<char>) -> Seq<char>
    decreases t.len(),
{
    if t.len() == 0 {
        Seq::empty()
    } else if t.len() >= 5 && t.take(5) == "&amp;"@ {
        seq!['&'] + unescaped(t.skip(5))
    } else if t.len() >= 4 && t.take(4) == "&lt;"@ {
        seq!['<'] + unescaped(t.skip(4))
    } else if t.len() >= 4 && t.take(4) == "&gt;"@ {
        seq!['>'] + unescaped(t.skip(4))
    } else if t.len() >= 6 && t.take(6) == "&quot;"@ {
        seq!['"'] + unescaped(t.skip(6))
    } else if t.len() >= 5 && t.take(5) == "&#39;"@ {
        seq!['\''] + unescaped(t.skip(5))
    } else {
        seq![t[0]] + unescaped(t.drop_first())
    }
}

/// Every occurrence of the character `from` in `s` replaced by `to`, as a
/// replacement of a single-character pattern does it.
pub open spec fn replace_char(s: Seq<char>, from: char, to: Seq<char>) -> Seq<char>
    decreases s.len(),
{
    if s.len() == 0 {
        Seq::empty()
    } else {
        (if s[0] == from {
            to
        } else {
            seq![s[0]]
        }) + replace_char(s.drop_first(), from, to)
    }
}

/// The five replacements one after the other, `&` first.
pub open spec fn replaced_in_turn(s: Seq<char>) -> Seq<char> {
    replace_char(
        replace_char(
            replace_char(replace_char(replace_char(s, '&', "&amp;"@), '<', "&lt;"@), '>', "&gt;"@),
            '"',
            "&quot;"@,
        ),
        '\'',
        "&#39;"@,
    )
}

proof fn reveal_entities()
    ensures
        "&amp;"@ == seq!['&', 'a', 'm', 'p', ';'],
        "&lt;"@ == seq!['&', 'l', 't', ';'],
        "&gt;"@ == seq!['&', 'g', 't', ';'],
        "&quot;"@ == seq!['&', 'q', 'u', 'o', 't', ';'],
        "&#39;"@ == seq!['&', '#', '3', '9', ';'],
{
    reveal_strlit("&amp;");
    reveal_strlit("&lt;");
    reveal_strlit("&gt;");
    reveal_strlit("&quot;");
    reveal_strlit("&#39;");
}

/// Escaping a concatenation escapes each part: text may be escaped in pieces.
pub proof fn lemma_escaped_concat(a: Seq<char>, b: Seq<char>)
    ensures
        escaped(a + b) == escaped(a) + escaped(b),
    decreases a.len(),
{
    if a.len() == 0 {
        assert(a + b =~= b);
        assert(escaped(a) =~= Seq::<char>::empty());
        assert(escaped(a) + escaped(b) =~= escaped(b));
    } else {
        assert((a + b)[0] == a[0]);
        assert((a + b).drop_first() =~= a.drop_first() + b);
        lemma_escaped_concat(a.drop_first(), b);
        assert(escaped(a + b) =~= escape_char(a[0]) + (escaped(a.drop_first()) + escaped(b)));
    }
}

/// Escaping one character gives `escape_char` of it.
pub proof fn lemma_escaped_single(c: char)
    ensures
        escaped(seq![c]) == escape_char(c),
{
    assert(seq![c].drop_first() =~= Seq::<char>::empty());
    assert(escaped(Seq::<char>::empty()) =~= Seq::<char>::empty());
    assert(escape_char(c) + Seq::<char>::empty() =~= escape_char(c));
}

/// Escaped text holds none of `<`, `>`, `"` and `'`: text written through the
/// library can neither open or close an element nor end an attribute value.
pub proof fn lemma_escaped_has_no_markup(s: Seq<char>)
    ensures
        forall|i: int| 0 <= i < escaped(s).len() ==> !is_markup_char(#[trigger] escaped(s)[i]),
    decreases s.len(),
{
    if s.len() > 0 {
        reveal_entities();
        lemma_escaped_has_no_markup(s.drop_first());
        let e = escape_char(s[0]);
        let r = escaped(s.drop_first());
        assert(escaped(s) == e + r);
        assert forall|i: int| 0 <= i < escaped(s).len() implies !is_markup_char(
            #[trigger] escaped(s)[i],
        ) by {
            if i < e.len() {
                assert(escaped(s)[i] == e[i]);
            } else {
                assert(escaped(s)[i] == r[i - e.len()]);
            }
        }
    }
}

/// What a sink's `text` appends, the escaped text and a line break, holds no
/// `<`, `>`, `"` or `'`: whatever the text, it stays content of the element it
/// is written in.
pub proof fn lemma_written_text_has_no_markup(text: Seq<char>)
    ensures
        forall|i: int|
            0 <= i < (escaped(text) + "\n"@).len() ==> !is_markup_char(
                #[trigger] (escaped(text) + "\n"@)[i],
            ),
{
    reveal_strlit("\n");
    lemma_escaped_has_no_markup(text);
    let w = escaped(text) + "\n"@;
    assert forall|i: int| 0 <= i < w.len() implies !is_markup_char(#[trigger] w[i]) by {
        if i < escaped(text).len() {
            assert(w[i] == escaped(text)[i]);
        } else {
            assert(w[i] == '\n');
        }
    }
}

/// Text in which nothing needs escaping is written as it is.
pub proof fn lemma_escaped_plain(s: Seq<char>)
    requires
        forall|i: int| 0 <= i < s.len() ==> !is_escaped_char(#[trigger] s[i]),
    ensures
        escaped(s) == s,
    decreases s.len(),
{
    if s.len() > 0 {
        assert(!is_escaped_char(s[0]));
        lemma_escaped_plain(s.drop_first());
        assert(seq![s[0]] + s.drop_first() =~= s);
    }
}

/// Reading escaped text back gives the original text.
pub proof fn lemma_unescaped_escaped(s: Seq<char>)
    ensures
        unescaped(escaped(s)) == s,
    decreases s.len(),
{
    if s.len() > 0 {
        reveal_entities();
        let c = s[0];
        let r = s.drop_first();
        let e = escape_char(c);
        let t = escaped(s);
        lemma_unescaped_escaped(r);
        assert(t == e + escaped(r));
        assert(t.skip(e.len() as int) =~= escaped(r));
        assert(t.take(e.len() as int) =~= e);
        assert(t.len() >= 4 ==> t.take(4)[1] == t[1]);
        assert(t.len() >= 5 ==> t.take(5)[1] == t[1]);
        assert(t.len() >= 6 ==> t.take(6)[1] == t[1]);
        if c == '&' {
            assert(unescaped(t) == seq!['&'] + unescaped(t.skip(5)));
        } else if c == '<' {
            assert(t[1] == 'l');
            assert(unescaped(t) == seq!['<'] + unescaped(t.skip(4)));
        } else if c == '>' {
            assert(t[1] == 'g');
            assert(unescaped(t) == seq!['>'] + unescaped(t.skip(4)));
        } else if c == '"' {
            assert(t[1] == 'q');
            assert(unescaped(t) == seq!['"'] + unescaped(t.skip(6)));
        } else if c == '\'' {
            assert(t[1] == '#');
            assert(unescaped(t) == seq!['\''] + unescaped(t.skip(5)));
        } else {
            assert(t[0] == c);
            assert(t.len() >= 4 ==> t.take(4)[0] == c);
            assert(t.len() >= 5 ==> t.take(5)[0] == c);
            assert(t.len() >= 6 ==> t.take(6)[0] == c);
            assert(t.drop_first() =~= escaped(r));
            assert(unescaped(t) == seq![c] + unescaped(t.drop_first()));
        }
        assert(seq![c] + r =~= s);
    }
}

/// Two texts with the same escaped form are the same text.
pub proof fn lemma_escaped_injective(a: Seq<char>, b: Seq<char>)
    requires
        escaped(a) == escaped(b),
    ensures
        a == b,
{
    lemma_unescaped_escaped(a);
    lemma_unescaped_escaped(b);
}

proof fn lemma_replace_char_concat(a: Seq<char>, b: Seq<char>, from: char, to: Seq<char>)
    ensures
        replace_char(a + b, from, to) == replace_char(a, from, to) + replace_char(b, from, to),
    decreases a.len(),
{
    if a.len() == 0 {
        assert(a + b =~= b);
        assert(replace_char(a, from, to) + replace_char(b, from, to) =~= replace_char(b, from, to));
    } else {
        assert((a + b)[0] == a[0]);
        assert((a + b).drop_first() =~= a.drop_first() + b);
        lemma_replace_char_concat(a.drop_first(), b, from, to);
        let h = if a[0] == from {
            to
        } else {
            seq![a[0]]
        };
        assert(replace_char(a + b, from, to) =~= h + (replace_char(a.drop_first(), from, to)
            + replace_char(b, from, to)));
    }
}

proof fn lemma_replace_char_absent(s: Seq<char>, from: char, to: Seq<char>)
    requires
        !s.contains(from),
    ensures
        replace_char(s, from, to) == s,
    decreases s.len(),
{
    if s.len() > 0 {
        assert(s[0] != from);
        assert forall|i: int| 0 <= i < s.drop_first().len() implies s.drop_first()[i] != from by {
            assert(s.drop_first()[i] == s[i + 1]);
        }
        lemma_replace_char_absent(s.drop_first(), from, to);
        assert(seq![s[0]] + s.drop_first() =~= s);
    }
}

proof fn lemma_replace_char_single(c: char, from: char, to: Seq<char>)
    ensures
        replace_char(seq![c], from, to) == (if c == from {
            to
        } else {
            seq![c]
        }),
{
    assert(seq![c].drop_first() =~= Seq::<char>::empty());
    assert(replace_char(seq![c].drop_first(), from, to) =~= Seq::<char>::empty());
    let h = if c == from {
        to
    } else {
        seq![c]
    };
    assert(h + Seq::<char>::empty() =~= h);
}

proof fn lemma_replaced_in_turn_concat(a: Seq<char>, b: Seq<char>)
    ensures
        replaced_in_turn(a + b) == replaced_in_turn(a) + replaced_in_turn(b),
{
    let e1 = "&amp;"@;
    let e2 = "&lt;"@;
    let e3 = "&gt;"@;
    let e4 = "&quot;"@;
    let e5 = "&#39;"@;
    lemma_replace_char_concat(a, b, '&', e1);
    let a1 = replace_char(a, '&', e1);
    let b1 = replace_char(b, '&', e1);
    lemma_replace_char_concat(a1, b1, '<', e2);
    let a2 = replace_char(a1, '<', e2);
    let b2 = replace_char(b1, '<', e2);
    lemma_replace_char_concat(a2, b2, '>', e3);
    let a3 = replace_char(a2, '>', e3);
    let b3 = replace_char(b2, '>', e3);
    lemma_replace_char_concat(a3, b3, '"', e4);
    let a4 = replace_char(a3, '"', e4);
    let b4 = replace_char(b3, '"', e4);
    lemma_replace_char_concat(a4, b4, '\'', e5);
}

proof fn lemma_replaced_in_turn_single(c: char)
    ensures
        replaced_in_turn(seq![c]) == escape_char(c),
{
    reveal_entities();
    let e1 = "&amp;"@;
    let e2 = "&lt;"@;
    let e3 = "&gt;"@;
    let e4 = "&quot;"@;
    let e5 = "&#39;"@;
    lemma_replace_char_single(c, '&', e1);
    let s1 = replace_char(seq![c], '&', e1);
    if c == '&' {
        assert(!e1.contains('<') && !e1.contains('>') && !e1.contains('"') && !e1.contains('\''));
        lemma_replace_char_absent(e1, '<', e2);
        lemma_replace_char_absent(e1, '>', e3);
        lemma_replace_char_absent(e1, '"', e4);
        lemma_replace_char_absent(e1, '\'', e5);
    } else {
        assert(s1 == seq![c]);
        lemma_replace_char_single(c, '<', e2);
        let s2 = replace_char(s1, '<', e2);
        if c == '<' {
            assert(!e2.contains('>') && !e2.contains('"') && !e2.contains('\''));
            lemma_replace_char_absent(e2, '>', e3);
            lemma_replace_char_absent(e2, '"', e4);
            lemma_replace_char_absent(e2, '\'', e5);
        } else {
            assert(s2 == seq![c]);
            lemma_replace_char_single(c, '>', e3);
            let s3 = replace_char(s2, '>', e3);
            if c == '>' {
                assert(!e3.contains('"') && !e3.contains('\''));
                lemma_replace_char_absent(e3, '"', e4);
                lemma_replace_char_absent(e3, '\'', e5);
            } else {
                assert(s3 == seq![c]);
                lemma_replace_char_single(c, '"', e4);
                let s4 = replace_char(s3, '"', e4);
                if c == '"' {
                    assert(!e4.contains('\''));
                    lemma_replace_char_absent(e4, '\'', e5);
                } else {
                    assert(s4 == seq![c]);
                    lemma_replace_char_single(c, '\'', e5);
                }
            }
        }
    }
}

/// The one-pass escape gives what the five replacements give when made one
/// after the other, `&` first: no entity that one replacement writes is
/// touched by a later one.
pub proof fn lemma_escaped_is_replaced_in_turn(s: Seq<char>)
    ensures
        escaped(s) == replaced_in_turn(s),
    decreases s.len(),
{
    if s.len() == 0 {
        assert(replaced_in_turn(s) =~= Seq::<char>::empty());
    } else {
        assert(s =~= seq![s[0]] + s.drop_first());
        lemma_replaced_in_turn_concat(seq![s[0]], s.drop_first());
        lemma_replaced_in_turn_single(s[0]);
        lemma_escaped_is_replaced_in_turn(s.drop_first());
    }
}

/// Appends `c` to `s`.
///
/// Calls `String::push`, whose documentation says that it appends the
/// character to the end of the string.
#[verifier::external_body]
pub(crate) fn push_char(s: &mut String, c: char)
    ensures
        final(s)@ == old(s)@.push(c),
{
    s.push(c);
}

/// Appends the escaped form of `s` to `out`.
fn push_escaped(out: &mut String, s: &str)
    ensures
        final(out)@ == old(out)@ + escaped(s@),
{
    broadcast use vstd::string::group_string_axioms;

    let ghost start = out@;
    for c in it: s.chars()
        invariant
            it.seq() == s@,
            out@ == start + escaped(s@.take(it.index())),
    {
        proof {
            let i = it.index();
            assert(s@.take(i + 1) =~= s@.take(i) + seq![s@[i]]);
            lemma_escaped_concat(s@.take(i), seq![s@[i]]);
            lemma_escaped_single(s@[i]);
        }
        if c == '&' {
            out.append("&amp;");
        } else if c == '<' {
            out.append("&lt;");
        } else if c == '>' {
            out.append("&gt;");
        } else if c == '"' {
            out.append("&quot;");
        } else if c == '\'' {
            out.append("&#39;");
        } else {
            push_char(out, c);
        }
    }
    assert(s@.take(s@.len() as int) =~= s@);
}

/// Escapes a style rule.
pub fn css_escape(s: &str) -> (r: String)
    ensures
        r@ == escaped(s@),
{
    let mut out = String::new();
    push_escaped(&mut out, s);
    out
}

/// Escapes an attribute value.
pub fn attribute_escape(s: &str) -> (r: String)
    ensures
        r@ == escaped(s@),
{
    let mut out = String::new();
    push_escaped(&mut out, s);
    out
}

/// Escapes element content.
pub fn html_escape(s: &str) -> (r: String)
    ensures
        r@ == escaped(s@),
{
    let mut out = String::new();
    push_escaped(&mut out, s);
    out
}

} // verus!
