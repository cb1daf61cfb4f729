use lib::escape::{attribute_escape, css_escape, html_escape};

#[test]
fn html_escape_replaces_each_special_character() {
    assert_eq!(html_escape("&"), "&amp;");
    assert_eq!(html_escape("<"), "&lt;");
    assert_eq!(html_escape(">"), "&gt;");
    assert_eq!(html_escape("\""), "&quot;");
    assert_eq!(html_escape("'"), "&#39;");
}

#[test]
fn html_escape_mixed_text() {
    assert_eq!(
        html_escape("<a href='x'>Tom & \"Jerry\"</a>"),
        "&lt;a href=&#39;x&#39;&gt;Tom &amp; &quot;Jerry&quot;&lt;/a&gt;"
    );
}

#[test]
fn escaping_does_not_escape_twice() {
    assert_eq!(html_escape("&amp;"), "&amp;amp;");
    assert_eq!(html_escape("&lt;"), "&amp;lt;");
}

#[test]
fn plain_text_is_unchanged() {
    assert_eq!(html_escape(""), "");
    assert_eq!(html_escape("plain text, 100% fine; #1 = ok"), "plain text, 100% fine; #1 = ok");
    assert_eq!(html_escape("héllo wörld ✓"), "héllo wörld ✓");
}

#[test]
fn the_three_escapes_agree() {
    let inputs = ["", "a<b>c", "x & y", "'quoted' \"both\"", "é<ü>"];
    for s in inputs.iter() {
        assert_eq!(css_escape(s), html_escape(s));
        assert_eq!(attribute_escape(s), html_escape(s));
    }
}

#[test]
fn escaped_text_has_no_markup_characters() {
    let inputs = ["<script>alert('x')</script>", "\"onload=\"evil()", "a > b && c < d", "'''\"\"\""];
    for s in inputs.iter() {
        let e = html_escape(s);
        assert!(!e.contains('<'));
        assert!(!e.contains('>'));
        assert!(!e.contains('"'));
        assert!(!e.contains('\''));
    }
}

fn unescape(t: &str) -> String {
    t.replace("&quot;", "\"")
        .replace("&#39;", "'")
        .replace("&lt;", "<")
        .replace("&gt;", ">")
        .replace("&amp;", "&")
}

#[test]
fn escaped_text_reads_back_to_the_original() {
    let inputs = ["", "&amp;", "<<>>", "a&b&lt;c", "it's \"here\"", "é&ü"];
    for s in inputs.iter() {
        assert_eq!(unescape(&html_escape(s)), *s);
    }
}

#[test]
fn escaping_a_concatenation_escapes_the_parts() {
    let a = "x < y & ";
    let b = "'z' > \"w\"";
    let ab = format!("{}{}", a, b);
    assert_eq!(html_escape(&ab), format!("{}{}", html_escape(a), html_escape(b)));
}

#[test]
fn escape_matches_replacements_in_turn() {
    let inputs = ["", "&<>\"'", "a&lt;b", "mixed & <tags> 'and' \"quotes\""];
    for s in inputs.iter() {
        let chained = s
            .replace('&', "&amp;")
            .replace('<', "&lt;")
            .replace('>', "&gt;")
            .replace('"', "&quot;")
            .replace('\'', "&#39;");
        assert_eq!(html_escape(s), chained);
    }
}
