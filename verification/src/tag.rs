//! Tags and the sinks that write their content.
//!
//! A sink holds the output string for as long as the element it stands for is
//! open. Opening a tag inside a sink writes the opening tag and lends the
//! output to the new sink; `close` writes the closing tag and gives the output
//! back. Every contract is stated over the sink's `target`, the output string
//! that it writes to: its current content, and its content once the sink and
//! everything opened inside it are done (`final`).
//!
//! A sink that is dropped without `close` writes its closing tag then, as
//! `close` would (its `Drop`). Verus does not follow a drop at the point where
//! it happens, so the content of the output after such a drop is left unknown
//! to callers; what `drop` writes is stated on `drop` itself.
use vstd::prelude::*;

pub mod a;
pub mod h1;
pub mod p;
pub mod span;
pub mod style;
pub mod table;
pub mod td;
pub mod th;
pub mod tr;

verus! {

/// `std::fmt::Error`, the error of a formatting write, declared so that the
/// sinks can return `std::fmt::Result`. Nothing is assumed of it; writing to a
/// `String` never gives it.
#[verifier::external_type_specification]
#[verifier::external_body]
pub struct ExFmtError(std::fmt::Error);

/// A sink's hold on the output string.
pub trait SinkTarget<'a> {
    /// The output string that the sink writes to.
    spec fn target(&self) -> &'a mut String;

    /// The sink still holds the output: its element has not been closed. Every
    /// sink that a caller can hold is open.
    spec fn is_open(&self) -> bool;
}

/// Appends `t` to `s`, for the closing tags that a dropped sink writes.
///
/// Calls `String::push_str`, whose documentation says that it appends the
/// string slice to the end of the string. It panics only when the length
/// would overflow the capacity, a limit of the machine; that is why it is
/// claimed not to unwind, as a drop must not.
#[verifier::external_body]
pub(crate) fn append_when_dropped(s: &mut String, t: &str)
    ensures
        final(s)@ == old(s)@ + t@,
    opens_invariants none
    no_unwind
{
    s.push_str(t);
}

/// A tag that can write its opening tag.
pub trait SinkableTag {
    /// The opening tag, attributes included.
    spec fn opening_tag(&self) -> Seq<char>;

    /// Appends the opening tag to `t`.
    fn write_opening_tag(&self, t: &mut String) -> (r: std::fmt::Result)
        ensures
            r is Ok,
            final(t)@ == old(t)@ + self.opening_tag(),
    ;
}

/// A tag that can be opened in a sink, giving the sink for its content.
pub trait EnterableTag: SinkableTag + Sized {
    /// The sink for the element's content.
    type Sink<'a>: SinkTarget<'a>;

    /// Writes the opening tag to `out` and hands `out` to the new sink.
    fn prepare_sink<'a>(self, out: &'a mut String) -> (s: Self::Sink<'a>)
        ensures
            s.is_open(),
            (*s.target())@ == old(out)@ + self.opening_tag(),
            *final(s.target()) == *final(out),
    ;
}

/// A sink in which elements can be opened.
pub trait Sink<'a>: SinkTarget<'a> {
    /// Opens `tag` inside this sink: writes its opening tag and lends the output
    /// to the returned sink until that sink is done.
    fn open_tag<'b, Tag: EnterableTag>(&'b mut self, tag: Tag) -> (s: Tag::Sink<'b>)
        requires
            old(self).is_open(),
        ensures
            s.is_open(),
            final(self).is_open(),
            (*s.target())@ == (*old(self).target())@ + tag.opening_tag(),
            (*final(self).target())@ == (*final(s.target()))@,
            *final(final(self).target()) == *final(old(self).target()),
    ;
}

/// The sink of a whole document: `<html>` up to `</html>`.
pub struct HtmlSink<'a> {
    sink: Option<&'a mut String>,
}

impl<'a> SinkTarget<'a> for HtmlSink<'a> {
    closed spec fn target(&self) -> &'a mut String {
        self.sink->Some_0
    }

    closed spec fn is_open(&self) -> bool {
        self.sink is Some
    }
}

impl<'a> HtmlSink<'a> {
    /// Starts a document in `sink`.
    pub fn root(sink: &'a mut String) -> (s: Self)
        ensures
            s.is_open(),
            (*s.target())@ == old(sink)@ + "<html>\n"@,
            *final(s.target()) == *final(sink),
    {
        sink.append("<html>\n");
        HtmlSink { sink: Some(sink) }
    }

    /// Ends the document.
    pub fn close(self)
        requires
            self.is_open(),
        ensures
            (*final(self.target()))@ == (*self.target())@ + "</html>"@,
    {
        let mut this = self;
        if let Some(out) = this.sink.take() {
            out.append("</html>");
        }
    }
}

impl<'a> Drop for HtmlSink<'a> {
    /// Ends the document, as `close` does, when the sink is dropped open.
    fn drop(&mut self)
        ensures
            old(self).is_open() ==> (*final(self).target())@ == (*old(self).target())@
                + "</html>"@,
        opens_invariants none
        no_unwind
    {
        if let Some(out) = &mut self.sink {
            append_when_dropped(out, "</html>");
        }
    }
}

impl<'a> Sink<'a> for HtmlSink<'a> {
    fn open_tag<'b, Tag: EnterableTag>(&'b mut self, tag: Tag) -> (s: Tag::Sink<'b>) {
        match &mut self.sink {
            Some(out) => tag.prepare_sink(&mut **out),
            None => unreached(),
        }
    }
}

} // verus!
