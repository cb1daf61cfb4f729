//! Building HTML documents by appending tags, with all text escaped.
pub mod escape;
pub mod tag;
pub mod builds;
pub mod nesting;
pub mod reading;

pub use escape::{attribute_escape, css_escape, html_escape};
pub use tag::a::a;
pub use tag::h1::h1;
pub use tag::p::p;
pub use tag::span::span;
pub use tag::style::style;
pub use tag::table::table;
pub use tag::td::td;
pub use tag::th::th;
pub use tag::tr::tr;
pub use builds::example;
pub use tag::{EnterableTag, HtmlSink, Sink, SinkTarget, SinkableTag};
