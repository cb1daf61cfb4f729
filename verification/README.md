# lib: HTML by appending tags, with text escaped

Documents are written into a `String` through sinks: `HtmlSink::root` starts
the document, `open_tag` on any sink writes an opening tag and hands the output
to the sink of the new element, `text` (or `rule` in a style sheet) writes
escaped text, and `close` writes the closing tag and gives the output back.

- `src/escape.rs`: the escape of text and attribute values, as a function of
  one character at a time, and what is proved of it: escaped text holds no
  `<`, `>`, `"` or `'`; it reads back to the original text; it equals the five
  replacements made one after the other; plain text is left as it is.
- `src/tag.rs`, `src/tag/*.rs`: the traits `SinkableTag`, `EnterableTag` and
  `Sink`, the document sink, and one module per tag with its sink. Every
  contract says exactly what is appended to the output.
- `src/nesting.rs`: a scan that reads the names of open elements from a text,
  and the laws that what the sinks write nests: written text opens and closes
  nothing, each element with neutral content is neutral once its sink is
  closed, and a document with neutral content is well nested.
- `src/builds.rs`: `example`, a page listing builds of a few repositories, whose
  contract is the whole page; the page written out literally, and proved well
  nested.

`close` writes a sink's closing tag; a sink dropped without `close` writes it
in its `Drop`, so elements also close at the end of their scope. Verus proves
what `close` and `drop` each write, but does not follow an implicit drop at
the point where it happens: a caller that lets a sink drop learns nothing of
the output from Verus. The nesting laws are stated over the text written.
