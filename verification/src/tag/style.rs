//! Style sheets.
use vstd::prelude::*;

use crate::tag::{append_when_dropped, EnterableTag, Sink, SinkTarget, SinkableTag};
use crate::escape::{css_escape, escaped};

verus! {

/// The `<style>` tag.
pub struct TagStyle {}

impl Clone for TagStyle {
    fn clone(&self) -> (r: Self)
        ensures
            r == *self,
    {
        TagStyle {}
    }
}

impl SinkableTag for TagStyle {
    open spec fn opening_tag(&self) -> Seq<char> {
        "<style>"@
    }

    fn write_opening_tag(&self, t: &mut String) -> (r: std::fmt::Result) {
        t.append("<style>");
        Ok(())
    }
}

/// A `<style>` tag.
pub fn style() -> TagStyle {
    TagStyle {}
}

impl EnterableTag for TagStyle {
    type Sink<'a> = StyleSink<'a>;

    fn prepare_sink<'a>(self, out: &'a mut String) -> (s: StyleSink<'a>) {
        out.append("<style>");
        StyleSink { sink: Some(out) }
    }
}

/// The sink for the content of a `<style>` element.
pub struct StyleSink<'a> {
    sink: Option<&'a mut String>,
}

impl<'a> SinkTarget<'a> for StyleSink<'a> {
    closed spec fn target(&self) -> &'a mut String {
        self.sink->Some_0
    }

    closed spec fn is_open(&self) -> bool {
        self.sink is Some
    }
}

impl<'a> StyleSink<'a> {
    /// Writes a style rule, escaped, and a line break.
    pub fn rule(&mut self, rule: &str) -> (r: std::fmt::Result)
        requires
            old(self).is_open(),
        ensures
            final(self).is_open(),
            r is Ok,
            (*final(self).target())@ == (*old(self).target())@ + escaped(rule@) + "\n"@,
            *final(final(self).target()) == *final(old(self).target()),
    {
        let escaped_rule = css_escape(rule);
        if let Some(out) = &mut self.sink {
            out.append(escaped_rule.as_str());
            out.append("\n");
        }
        Ok(())
    }

    /// Ends the element: writes `</style>` and a line break.
    pub fn close(self)
        requires
            self.is_open(),
        ensures
            (*final(self.target()))@ == (*self.target())@ + "</style>\n"@,
    {
        let mut this = self;
        if let Some(out) = this.sink.take() {
            out.append("</style>\n");
        }
    }
}

impl<'a> Sink<'a> for StyleSink<'a> {
    fn open_tag<'b, Tag: EnterableTag>(&'b mut self, tag: Tag) -> (s: Tag::Sink<'b>) {
        match &mut self.sink {
            Some(out) => tag.prepare_sink(&mut **out),
            None => unreached(),
        }
    }
}

impl<'a> Drop for StyleSink<'a> {
    /// Ends the element, as `close` does, when the sink is dropped open.
    fn drop(&mut self)
        ensures
            old(self).is_open() ==> (*final(self).target())@ == (*old(self).target())@
                + "</style>\n"@,
        opens_invariants none
        no_unwind
    {
        if let Some(out) = &mut self.sink {
            append_when_dropped(out, "</style>\n");
        }
    }
}

} // verus!
