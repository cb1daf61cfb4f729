//! Inline spans.
use vstd::prelude::*;

use crate::escape::{attribute_escape, escaped, html_escape};
use crate::tag::{append_when_dropped, EnterableTag, Sink, SinkTarget, SinkableTag};

verus! {

/// The `<span>` tag, with an optional `style` attribute.
pub struct TagSpan {
    style: Option<String>,
}

impl View for TagSpan {
    /// The value of the `style` attribute, as it is written.
    type V = Option<Seq<char>>;

    closed spec fn view(&self) -> Option<Seq<char>> {
        match self.style {
            Some(v) => Some(v@),
            None => None,
        }
    }
}

impl Clone for TagSpan {
    fn clone(&self) -> (r: Self)
        ensures
            r@ == self@,
    {
        TagSpan {
            style: match &self.style {
                Some(v) => Some(v.clone()),
                None => None,
            },
        }
    }
}

impl TagSpan {
    /// Sets the `style` attribute to `rule`, escaped.
    pub fn style(self, rule: &str) -> (r: Self)
        ensures
            r@ == Some(escaped(rule@)),
    {
        TagSpan { style: Some(attribute_escape(rule)) }
    }
}

/// The opening tag of a `<span>` element whose `style` attribute is
/// written as `value`, if there is one.
pub open spec fn span_opening(value: Option<Seq<char>>) -> Seq<char> {
    match value {
        Some(v) => "<span style=\""@ + v + "\">"@,
        None => "<span>"@,
    }
}

impl SinkableTag for TagSpan {
    open spec fn opening_tag(&self) -> Seq<char> {
        span_opening(self@)
    }

    fn write_opening_tag(&self, t: &mut String) -> (r: std::fmt::Result) {
        match &self.style {
            Some(v) => {
                t.append("<span style=\"");
                t.append(v.as_str());
                t.append("\">");
            },
            None => {
                t.append("<span>");
            },
        }
        Ok(())
    }
}

/// A `<span>` tag without attributes.
pub fn span() -> (r: TagSpan)
    ensures
        r@ == None::<Seq<char>>,
{
    TagSpan { style: None }
}

impl EnterableTag for TagSpan {
    type Sink<'a> = SpanSink<'a>;

    fn prepare_sink<'a>(self, out: &'a mut String) -> (s: SpanSink<'a>) {
        let _ = self.write_opening_tag(out);
        SpanSink { sink: Some(out) }
    }
}

/// The sink for the content of a `<span>` element.
pub struct SpanSink<'a> {
    sink: Option<&'a mut String>,
}

impl<'a> SinkTarget<'a> for SpanSink<'a> {
    closed spec fn target(&self) -> &'a mut String {
        self.sink->Some_0
    }

    closed spec fn is_open(&self) -> bool {
        self.sink is Some
    }
}

impl<'a> SpanSink<'a> {
    /// Writes `text`, escaped, and a line break.
    pub fn text(&mut self, text: &str) -> (r: std::fmt::Result)
        requires
            old(self).is_open(),
        ensures
            final(self).is_open(),
            r is Ok,
            (*final(self).target())@ == (*old(self).target())@ + escaped(text@) + "\n"@,
            *final(final(self).target()) == *final(old(self).target()),
    {
        let escaped_text = html_escape(text);
        if let Some(out) = &mut self.sink {
            out.append(escaped_text.as_str());
            out.append("\n");
        }
        Ok(())
    }

    /// Ends the element: writes `</span>` and a line break.
    pub fn close(self)
        requires
            self.is_open(),
        ensures
            (*final(self.target()))@ == (*self.target())@ + "</span>\n"@,
    {
        let mut this = self;
        if let Some(out) = this.sink.take() {
            out.append("</span>\n");
        }
    }
}

impl<'a> Sink<'a> for SpanSink<'a> {
    fn open_tag<'b, Tag: EnterableTag>(&'b mut self, tag: Tag) -> (s: Tag::Sink<'b>) {
        match &mut self.sink {
            Some(out) => tag.prepare_sink(&mut **out),
            None => unreached(),
        }
    }
}

impl<'a> Drop for SpanSink<'a> {
    /// Ends the element, as `close` does, when the sink is dropped open.
    fn drop(&mut self)
        ensures
            old(self).is_open() ==> (*final(self).target())@ == (*old(self).target())@
                + "</span>\n"@,
        opens_invariants none
        no_unwind
    {
        if let Some(out) = &mut self.sink {
            append_when_dropped(out, "</span>\n");
        }
    }
}

} // verus!
