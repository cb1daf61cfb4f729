//! Links.
use vstd::prelude::*;

use crate::escape::{attribute_escape, escaped, html_escape};
use crate::tag::{append_when_dropped, EnterableTag, Sink, SinkTarget, SinkableTag};

verus! {

/// The `<a>` tag, with an optional `href` attribute.
pub struct TagA {
    href: Option<String>,
}

impl View for TagA {
    /// The value of the `href` attribute, as it is written.
    type V = Option<Seq<char>>;

    closed spec fn view(&self) -> Option<Seq<char>> {
        match self.href {
            Some(v) => Some(v@),
            None => None,
        }
    }
}

impl Clone for TagA {
    fn clone(&self) -> (r: Self)
        ensures
            r@ == self@,
    {
        TagA {
            href: match &self.href {
                Some(v) => Some(v.clone()),
                None => None,
            },
        }
    }
}

impl TagA {
    /// Sets the `href` attribute to `link`, escaped.
    pub fn href(self, link: &str) -> (r: Self)
        ensures
            r@ == Some(escaped(link@)),
    {
        TagA { href: Some(attribute_escape(link)) }
    }
}

/// The opening tag of a `<a>` element whose `href` attribute is
/// written as `value`, if there is one.
pub open spec fn a_opening(value: Option<Seq<char>>) -> Seq<char> {
    match value {
        Some(v) => "<a href=\""@ + v + "\">"@,
        None => "<a>"@,
    }
}

impl SinkableTag for TagA {
    open spec fn opening_tag(&self) -> Seq<char> {
        a_opening(self@)
    }

    fn write_opening_tag(&self, t: &mut String) -> (r: std::fmt::Result) {
        match &self.href {
            Some(v) => {
                t.append("<a href=\"");
                t.append(v.as_str());
                t.append("\">");
            },
            None => {
                t.append("<a>");
            },
        }
        Ok(())
    }
}

/// A `<a>` tag without attributes.
pub fn a() -> (r: TagA)
    ensures
        r@ == None::<Seq<char>>,
{
    TagA { href: None }
}

impl EnterableTag for TagA {
    type Sink<'a> = ASink<'a>;

    fn prepare_sink<'a>(self, out: &'a mut String) -> (s: ASink<'a>) {
        let _ = self.write_opening_tag(out);
        ASink { sink: Some(out) }
    }
}

/// The sink for the content of a `<a>` element.
pub struct ASink<'a> {
    sink: Option<&'a mut String>,
}

impl<'a> SinkTarget<'a> for ASink<'a> {
    closed spec fn target(&self) -> &'a mut String {
        self.sink->Some_0
    }

    closed spec fn is_open(&self) -> bool {
        self.sink is Some
    }
}

impl<'a> ASink<'a> {
    /// Writes `text`, escaped, and a line break.
    pub fn text(&mut self, text: &str) -> (r: std::fmt::Result)
        requires
            old(self).is_open(),
        ensures
            final(self).is_open(),
            r is Ok,
            (*final(self).target())@ == (*old(self).target())@ + escaped(text@) + "\n"@,
            *final(final(self).target()) == *final(old(self).target()),
    {
        let escaped_text = html_escape(text);
        if let Some(out) = &mut self.sink {
            out.append(escaped_text.as_str());
            out.append("\n");
        }
        Ok(())
    }

    /// Ends the element: writes `</a>` and a line break.
    pub fn close(self)
        requires
            self.is_open(),
        ensures
            (*final(self.target()))@ == (*self.target())@ + "</a>\n"@,
    {
        let mut this = self;
        if let Some(out) = this.sink.take() {
            out.append("</a>\n");
        }
    }
}

impl<'a> Sink<'a> for ASink<'a> {
    fn open_tag<'b, Tag: EnterableTag>(&'b mut self, tag: Tag) -> (s: Tag::Sink<'b>) {
        match &mut self.sink {
            Some(out) => tag.prepare_sink(&mut **out),
            None => unreached(),
        }
    }
}

impl<'a> Drop for ASink<'a> {
    /// Ends the element, as `close` does, when the sink is dropped open.
    fn drop(&mut self)
        ensures
            old(self).is_open() ==> (*final(self).target())@ == (*old(self).target())@
                + "</a>\n"@,
        opens_invariants none
        no_unwind
    {
        if let Some(out) = &mut self.sink {
            append_when_dropped(out, "</a>\n");
        }
    }
}

} // verus!
