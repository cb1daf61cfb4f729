//! Top-level headings.
use vstd::prelude::*;

use crate::tag::{append_when_dropped, EnterableTag, Sink, SinkTarget, SinkableTag};
use crate::escape::{escaped, html_escape};

verus! {

/// The `<h1>` tag.
pub struct TagH1 {}

impl Clone for TagH1 {
    fn clone(&self) -> (r: Self)
        ensures
            r == *self,
    {
        TagH1 {}
    }
}

impl SinkableTag for TagH1 {
    open spec fn opening_tag(&self) -> Seq<char> {
        "<h1>"@
    }

    fn write_opening_tag(&self, t: &mut String) -> (r: std::fmt::Result) {
        t.append("<h1>");
        Ok(())
    }
}

/// A `<h1>` tag.
pub fn h1() -> TagH1 {
    TagH1 {}
}

impl EnterableTag for TagH1 {
    type Sink<'a> = H1Sink<'a>;

    fn prepare_sink<'a>(self, out: &'a mut String) -> (s: H1Sink<'a>) {
        let _ = self.write_opening_tag(out);
        H1Sink { sink: Some(out) }
    }
}

/// The sink for the content of a `<h1>` element.
pub struct H1Sink<'a> {
    sink: Option<&'a mut String>,
}

impl<'a> SinkTarget<'a> for H1Sink<'a> {
    closed spec fn target(&self) -> &'a mut String {
        self.sink->Some_0
    }

    closed spec fn is_open(&self) -> bool {
        self.sink is Some
    }
}

impl<'a> H1Sink<'a> {
    /// Writes `text`, escaped, and a line break.
    pub fn text(&mut self, text: &str) -> (r: std::fmt::Result)
        requires
            old(self).is_open(),
        ensures
            final(self).is_open(),
            r is Ok,
            (*final(self).target())@ == (*old(self).target())@ + escaped(text@) + "\n"@,
            *final(final(self).target()) == *final(old(self).target()),
    {
        let escaped_text = html_escape(text);
        if let Some(out) = &mut self.sink {
            out.append(escaped_text.as_str());
            out.append("\n");
        }
        Ok(())
    }

    /// Ends the element: writes `</h1>` and a line break.
    pub fn close(self)
        requires
            self.is_open(),
        ensures
            (*final(self.target()))@ == (*self.target())@ + "</h1>\n"@,
    {
        let mut this = self;
        if let Some(out) = this.sink.take() {
            out.append("</h1>\n");
        }
    }
}

impl<'a> Sink<'a> for H1Sink<'a> {
    fn open_tag<'b, Tag: EnterableTag>(&'b mut self, tag: Tag) -> (s: Tag::Sink<'b>) {
        match &mut self.sink {
            Some(out) => tag.prepare_sink(&mut **out),
            None => unreached(),
        }
    }
}

impl<'a> Drop for H1Sink<'a> {
    /// Ends the element, as `close` does, when the sink is dropped open.
    fn drop(&mut self)
        ensures
            old(self).is_open() ==> (*final(self).target())@ == (*old(self).target())@
                + "</h1>\n"@,
        opens_invariants none
        no_unwind
    {
        if let Some(out) = &mut self.sink {
            append_when_dropped(out, "</h1>\n");
        }
    }
}

} // verus!
