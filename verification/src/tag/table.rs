//! Tables.
use vstd::prelude::*;

use crate::escape::{attribute_escape, escaped, html_escape};
use crate::tag::{append_when_dropped, EnterableTag, Sink, SinkTarget, SinkableTag};
use crate::tag::tr::{TagTr, TrSink};

verus! {

/// The `<table>` tag, with an optional `class` attribute.
pub struct TagTable {
    class: Option<String>,
}

impl View for TagTable {
    /// The value of the `class` attribute, as it is written.
    type V = Option<Seq<char>>;

    closed spec fn view(&self) -> Option<Seq<char>> {
        match self.class {
            Some(v) => Some(v@),
            None => None,
        }
    }
}

impl Clone for TagTable {
    fn clone(&self) -> (r: Self)
        ensures
            r@ == self@,
    {
        TagTable {
            class: match &self.class {
                Some(v) => Some(v.clone()),
                None => None,
            },
        }
    }
}

impl TagTable {
    /// Sets the `class` attribute to `text`, escaped.
    pub fn class(self, text: &str) -> (r: Self)
        ensures
            r@ == Some(escaped(text@)),
    {
        TagTable { class: Some(attribute_escape(text)) }
    }
}

/// The opening tag of a `<table>` element whose `class` attribute is
/// written as `value`, if there is one.
pub open spec fn table_opening(value: Option<Seq<char>>) -> Seq<char> {
    match value {
        Some(v) => "<table class=\""@ + v + "\">"@,
        None => "<table>"@,
    }
}

impl SinkableTag for TagTable {
    open spec fn opening_tag(&self) -> Seq<char> {
        table_opening(self@)
    }

    fn write_opening_tag(&self, t: &mut String) -> (r: std::fmt::Result) {
        match &self.class {
            Some(v) => {
                t.append("<table class=\"");
                t.append(v.as_str());
                t.append("\">");
            },
            None => {
                t.append("<table>");
            },
        }
        Ok(())
    }
}

/// A `<table>` tag without attributes.
pub fn table() -> (r: TagTable)
    ensures
        r@ == None::<Seq<char>>,
{
    TagTable { class: None }
}

impl EnterableTag for TagTable {
    type Sink<'a> = TableSink<'a>;

    fn prepare_sink<'a>(self, out: &'a mut String) -> (s: TableSink<'a>) {
        let _ = self.write_opening_tag(out);
        TableSink { sink: Some(out) }
    }
}

/// The sink for the content of a `<table>` element.
pub struct TableSink<'a> {
    sink: Option<&'a mut String>,
}

impl<'a> SinkTarget<'a> for TableSink<'a> {
    closed spec fn target(&self) -> &'a mut String {
        self.sink->Some_0
    }

    closed spec fn is_open(&self) -> bool {
        self.sink is Some
    }
}

impl<'a> TableSink<'a> {
    /// Writes `text`, escaped, and a line break.
    pub fn text(&mut self, text: &str) -> (r: std::fmt::Result)
        requires
            old(self).is_open(),
        ensures
            final(self).is_open(),
            r is Ok,
            (*final(self).target())@ == (*old(self).target())@ + escaped(text@) + "\n"@,
            *final(final(self).target()) == *final(old(self).target()),
    {
        let escaped_text = html_escape(text);
        if let Some(out) = &mut self.sink {
            out.append(escaped_text.as_str());
            out.append("\n");
        }
        Ok(())
    }

    /// Opens a row: writes the opening tag of `tr` and lends the output to the
    /// row's sink.
    pub fn row<'b>(&'b mut self, tr: TagTr) -> (s: TrSink<'b>)
        requires
            old(self).is_open(),
        ensures
            s.is_open(),
            final(self).is_open(),
            (*s.target())@ == (*old(self).target())@ + tr.opening_tag(),
            (*final(self).target())@ == (*final(s.target()))@,
            *final(final(self).target()) == *final(old(self).target()),
    {
        match &mut self.sink {
            Some(out) => tr.prepare_sink(&mut **out),
            None => unreached(),
        }
    }

    /// Opens the header row: writes `<tr>` and a line break, and lends the
    /// output to the header's sink.
    pub fn header<'b>(&'b mut self) -> (s: HeaderSink<'b>)
        requires
            old(self).is_open(),
        ensures
            s.is_open(),
            final(self).is_open(),
            (*s.target())@ == (*old(self).target())@ + "<tr>\n"@,
            (*final(self).target())@ == (*final(s.target()))@,
            *final(final(self).target()) == *final(old(self).target()),
    {
        match &mut self.sink {
            Some(out) => {
                out.append("<tr>\n");
                HeaderSink { sink: Some(&mut **out) }
            },
            None => unreached(),
        }
    }

    /// Ends the element: writes `</table>` and a line break.
    pub fn close(self)
        requires
            self.is_open(),
        ensures
            (*final(self.target()))@ == (*self.target())@ + "</table>\n"@,
    {
        let mut this = self;
        if let Some(out) = this.sink.take() {
            out.append("</table>\n");
        }
    }
}

impl<'a> Sink<'a> for TableSink<'a> {
    fn open_tag<'b, Tag: EnterableTag>(&'b mut self, tag: Tag) -> (s: Tag::Sink<'b>) {
        match &mut self.sink {
            Some(out) => tag.prepare_sink(&mut **out),
            None => unreached(),
        }
    }
}

impl<'a> Drop for TableSink<'a> {
    /// Ends the element, as `close` does, when the sink is dropped open.
    fn drop(&mut self)
        ensures
            old(self).is_open() ==> (*final(self).target())@ == (*old(self).target())@
                + "</table>\n"@,
        opens_invariants none
        no_unwind
    {
        if let Some(out) = &mut self.sink {
            append_when_dropped(out, "</table>\n");
        }
    }
}

/// The sink for the header row of a table.
pub struct HeaderSink<'a> {
    sink: Option<&'a mut String>,
}

impl<'a> SinkTarget<'a> for HeaderSink<'a> {
    closed spec fn target(&self) -> &'a mut String {
        self.sink->Some_0
    }

    closed spec fn is_open(&self) -> bool {
        self.sink is Some
    }
}

impl<'a> HeaderSink<'a> {
    /// Ends the header row: writes `</tr>` and a line break.
    pub fn close(self)
        requires
            self.is_open(),
        ensures
            (*final(self.target()))@ == (*self.target())@ + "</tr>\n"@,
    {
        let mut this = self;
        if let Some(out) = this.sink.take() {
            out.append("</tr>\n");
        }
    }
}

impl<'a> Sink<'a> for HeaderSink<'a> {
    fn open_tag<'b, Tag: EnterableTag>(&'b mut self, tag: Tag) -> (s: Tag::Sink<'b>) {
        match &mut self.sink {
            Some(out) => tag.prepare_sink(&mut **out),
            None => unreached(),
        }
    }
}

impl<'a> Drop for HeaderSink<'a> {
    /// Ends the element, as `close` does, when the sink is dropped open.
    fn drop(&mut self)
        ensures
            old(self).is_open() ==> (*final(self).target())@ == (*old(self).target())@
                + "</tr>\n"@,
        opens_invariants none
        no_unwind
    {
        if let Some(out) = &mut self.sink {
            append_when_dropped(out, "</tr>\n");
        }
    }
}

} // verus!
