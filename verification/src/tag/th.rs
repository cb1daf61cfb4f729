//! Header cells.
use vstd::prelude::*;

use crate::escape::{attribute_escape, escaped, html_escape};
use crate::tag::{append_when_dropped, EnterableTag, Sink, SinkTarget, SinkableTag};

verus! {

/// The `<th>` tag, with an optional `class` attribute.
pub struct TagTh {
    class: Option<String>,
}

impl View for TagTh {
    /// The value of the `class` attribute, as it is written.
    type V = Option<Seq<char>>;

    closed spec fn view(&self) -> Option<Seq<char>> {
        match self.class {
            Some(v) => Some(v@),
            None => None,
        }
    }
}

impl Clone for TagTh {
    fn clone(&self) -> (r: Self)
        ensures
            r@ == self@,
    {
        TagTh {
            class: match &self.class {
                Some(v) => Some(v.clone()),
                None => None,
            },
        }
    }
}

impl TagTh {
    /// Sets the `class` attribute to `text`, escaped.
    pub fn class(self, text: &str) -> (r: Self)
        ensures
            r@ == Some(escaped(text@)),
    {
        TagTh { class: Some(attribute_escape(text)) }
    }
}

/// The opening tag of a `<th>` element whose `class` attribute is
/// written as `value`, if there is one.
pub open spec fn th_opening(value: Option<Seq<char>>) -> Seq<char> {
    match value {
        Some(v) => "<th class=\""@ + v + "\">"@,
        None => "<th>"@,
    }
}

impl SinkableTag for TagTh {
    open spec fn opening_tag(&self) -> Seq<char> {
        th_opening(self@)
    }

    fn write_opening_tag(&self, t: &mut String) -> (r: std::fmt::Result) {
        match &self.class {
            Some(v) => {
                t.append("<th class=\"");
                t.append(v.as_str());
                t.append("\">");
            },
            None => {
                t.append("<th>");
            },
        }
        Ok(())
    }
}

/// A `<th>` tag without attributes.
pub fn th() -> (r: TagTh)
    ensures
        r@ == None::<Seq<char>>,
{
    TagTh { class: None }
}

impl EnterableTag for TagTh {
    type Sink<'a> = ThSink<'a>;

    fn prepare_sink<'a>(self, out: &'a mut String) -> (s: ThSink<'a>) {
        let _ = self.write_opening_tag(out);
        ThSink { sink: Some(out) }
    }
}

/// The sink for the content of a `<th>` element.
pub struct ThSink<'a> {
    sink: Option<&'a mut String>,
}

impl<'a> SinkTarget<'a> for ThSink<'a> {
    closed spec fn target(&self) -> &'a mut String {
        self.sink->Some_0
    }

    closed spec fn is_open(&self) -> bool {
        self.sink is Some
    }
}

impl<'a> ThSink<'a> {
    /// Writes `text`, escaped, and a line break.
    pub fn text(&mut self, text: &str) -> (r: std::fmt::Result)
        requires
            old(self).is_open(),
        ensures
            final(self).is_open(),
            r is Ok,
            (*final(self).target())@ == (*old(self).target())@ + escaped(text@) + "\n"@,
            *final(final(self).target()) == *final(old(self).target()),
    {
        let escaped_text = html_escape(text);
        if let Some(out) = &mut self.sink {
            out.append(escaped_text.as_str());
            out.append("\n");
        }
        Ok(())
    }

    /// Ends the element: writes `</th>` and a line break.
    pub fn close(self)
        requires
            self.is_open(),
        ensures
            (*final(self.target()))@ == (*self.target())@ + "</th>\n"@,
    {
        let mut this = self;
        if let Some(out) = this.sink.take() {
            out.append("</th>\n");
        }
    }
}

impl<'a> Sink<'a> for ThSink<'a> {
    fn open_tag<'b, Tag: EnterableTag>(&'b mut self, tag: Tag) -> (s: Tag::Sink<'b>) {
        match &mut self.sink {
            Some(out) => tag.prepare_sink(&mut **out),
            None => unreached(),
        }
    }
}

impl<'a> Drop for ThSink<'a> {
    /// Ends the element, as `close` does, when the sink is dropped open.
    fn drop(&mut self)
        ensures
            old(self).is_open() ==> (*final(self).target())@ == (*old(self).target())@
                + "</th>\n"@,
        opens_invariants none
        no_unwind
    {
        if let Some(out) = &mut self.sink {
            append_when_dropped(out, "</th>\n");
        }
    }
}

} // verus!
