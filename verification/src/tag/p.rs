//! Paragraphs.
use vstd::prelude::*;

use crate::tag::{append_when_dropped, EnterableTag, Sink, SinkTarget, SinkableTag};
use crate::escape::{escaped, html_escape};

verus! {

/// The `<p>` tag.
pub struct TagP {}

impl Clone for TagP {
    fn clone(&self) -> (r: Self)
        ensures
            r == *self,
    {
        TagP {}
    }
}

impl SinkableTag for TagP {
    open spec fn opening_tag(&self) -> Seq<char> {
        "<p>"@
    }

    fn write_opening_tag(&self, t: &mut String) -> (r: std::fmt::Result) {
        t.append("<p>");
        Ok(())
    }
}

/// A `<p>` tag.
pub fn p() -> TagP {
    TagP {}
}

impl EnterableTag for TagP {
    type Sink<'a> = PSink<'a>;

    fn prepare_sink<'a>(self, out: &'a mut String) -> (s: PSink<'a>) {
        let _ = self.write_opening_tag(out);
        PSink { sink: Some(out) }
    }
}

/// The sink for the content of a `<p>` element.
pub struct PSink<'a> {
    sink: Option<&'a mut String>,
}

impl<'a> SinkTarget<'a> for PSink<'a> {
    closed spec fn target(&self) -> &'a mut String {
        self.sink->Some_0
    }

    closed spec fn is_open(&self) -> bool {
        self.sink is Some
    }
}

impl<'a> PSink<'a> {
    /// Writes `text`, escaped, and a line break.
    pub fn text(&mut self, text: &str) -> (r: std::fmt::Result)
        requires
            old(self).is_open(),
        ensures
            final(self).is_open(),
            r is Ok,
            (*final(self).target())@ == (*old(self).target())@ + escaped(text@) + "\n"@,
            *final(final(self).target()) == *final(old(self).target()),
    {
        let escaped_text = html_escape(text);
        if let Some(out) = &mut self.sink {
            out.append(escaped_text.as_str());
            out.append("\n");
        }
        Ok(())
    }

    /// Ends the element: writes `</p>` and a line break.
    pub fn close(self)
        requires
            self.is_open(),
        ensures
            (*final(self.target()))@ == (*self.target())@ + "</p>\n"@,
    {
        let mut this = self;
        if let Some(out) = this.sink.take() {
            out.append("</p>\n");
        }
    }
}

impl<'a> Sink<'a> for PSink<'a> {
    fn open_tag<'b, Tag: EnterableTag>(&'b mut self, tag: Tag) -> (s: Tag::Sink<'b>) {
        match &mut self.sink {
            Some(out) => tag.prepare_sink(&mut **out),
            None => unreached(),
        }
    }
}

impl<'a> Drop for PSink<'a> {
    /// Ends the element, as `close` does, when the sink is dropped open.
    fn drop(&mut self)
        ensures
            old(self).is_open() ==> (*final(self).target())@ == (*old(self).target())@
                + "</p>\n"@,
        opens_invariants none
        no_unwind
    {
        if let Some(out) = &mut self.sink {
            append_when_dropped(out, "</p>\n");
        }
    }
}

} // verus!
