//! The XML events that the document logic reads, as quick-xml reports them.
use vstd::prelude::*;

use quick_xml::events::{BytesStart, Event};
use quick_xml::name::ResolveResult;
use quick_xml::{NsReader, Reader};
use vstd::utf8::*;

verus! {

/// quick-xml's pull reader over an in-memory document.
#[verifier::external_type_specification]
#[verifier::external_body]
#[verifier::reject_recursive_types(R)]
pub struct ExReader<R>(Reader<R>);

/// quick-xml's pull reader that resolves namespace prefixes.
#[verifier::external_type_specification]
#[verifier::external_body]
#[verifier::reject_recursive_types(R)]
pub struct ExNsReader<R>(NsReader<R>);

/// An opening tag as quick-xml hands it out.
#[verifier::external_type_specification]
#[verifier::external_body]
pub struct ExBytesStart<'a>(BytesStart<'a>);

/// The kind of markup an XML event stands for.
#[derive(Debug, Clone, Copy, PartialEq, Eq, Structural)]
pub enum XmlEventKind {
    /// An opening tag `<a ...>`.
    Start,
    /// A self-closing tag `<a .../>`.
    Empty,
    /// A closing tag `</a>`.
    End,
    /// The end of the document.
    Eof,
    /// A malformed document; nothing more is read.
    Error,
    /// Text, comments, declarations and the like.
    Other,
}

/// One event of an XML document, made of plain values.
#[derive(Debug, Clone)]
pub struct XmlEvent {
    pub kind: XmlEventKind,
    /// The tag's name without its prefix (`Start`, `Empty`, `End`); empty otherwise.
    pub local_name: String,
    /// The tag's attributes as (key, raw value) pairs, in document order (`Start`, `Empty`).
    pub attributes: Vec<(String, String)>,
    /// The namespace the tag's prefix resolves to, empty when it is unbound; only a
    /// namespace-resolving reader fills it.
    pub namespace: String,
}

/// An event of a plain reader with the byte offsets of the input before and after it.
#[derive(Debug, Clone)]
pub struct PlacedEvent {
    pub event: XmlEvent,
    pub before: u64,
    pub after: u64,
}

/// The `k`-th event (from 0) that quick-xml's `Reader`, in its default configuration, reports
/// for the document `xml`, as plain values.
pub uninterp spec fn xml_event(xml: Seq<char>, k: nat) -> XmlEvent;

/// The byte offset `Reader::buffer_position` reports once the first `k` events of `xml` have
/// been read.
pub uninterp spec fn xml_offset(xml: Seq<char>, k: nat) -> u64;

/// The `k`-th event (from 0) that quick-xml's `NsReader`, in its default configuration,
/// reports for the document `xml`, with the namespace its tag resolves to.
pub uninterp spec fn xml_resolved_event(xml: Seq<char>, k: nat) -> XmlEvent;

/// A quick-xml reader over a document, with the document and the number of events read so far.
pub struct XmlCursor<'a> {
    reader: Reader<&'a [u8]>,
    source: Ghost<Seq<char>>,
    count: Ghost<nat>,
}

impl<'a> XmlCursor<'a> {
    /// The document being read.
    pub closed spec fn source(&self) -> Seq<char> {
        self.source@
    }

    /// How many events have been read.
    pub closed spec fn count(&self) -> nat {
        self.count@
    }
}

/// A namespace-resolving quick-xml reader over a document, with the document and the number of
/// events read so far.
pub struct NsXmlCursor<'a> {
    reader: NsReader<&'a [u8]>,
    source: Ghost<Seq<char>>,
    count: Ghost<nat>,
}

impl<'a> NsXmlCursor<'a> {
    /// The document being read.
    pub closed spec fn source(&self) -> Seq<char> {
        self.source@
    }

    /// How many events have been read.
    pub closed spec fn count(&self) -> nat {
        self.count@
    }
}

/// `Reader::from_str`: a reader over `xml` with quick-xml's default configuration, before its
/// first event.
#[verifier::external_body]
pub(crate) fn xml_cursor<'a>(xml: &'a str) -> (c: XmlCursor<'a>)
    ensures
        c.source() == xml@,
        c.count() == 0,
{
    XmlCursor { reader: Reader::from_str(xml), source: Ghost(xml@), count: Ghost(0) }
}

/// `NsReader::from_str`: a namespace-resolving reader over `xml` with the default
/// configuration, before its first event.
#[verifier::external_body]
pub(crate) fn ns_xml_cursor<'a>(xml: &'a str) -> (c: NsXmlCursor<'a>)
    ensures
        c.source() == xml@,
        c.count() == 0,
{
    NsXmlCursor { reader: NsReader::from_str(xml), source: Ghost(xml@), count: Ghost(0) }
}

/// `Reader::buffer_position`: the byte offset just after the events read so far, named by the
/// document and their number.
#[verifier::external_body]
pub(crate) fn reader_position(cursor: &XmlCursor) -> (p: u64)
    ensures
        p == xml_offset(cursor.source(), cursor.count()),
{
    cursor.reader.buffer_position()
}

/// An event as plain values: for an opening tag, its local name and attributes
/// (`BytesStart::local_name` and `BytesStart::attributes`, malformed attributes left out); for
/// any other event, none. Nothing is stated of it: it only serves the two readers below, whose
/// results are named.
#[verifier::external_body]
fn event_record(kind: XmlEventKind, tag: Option<&BytesStart>) -> XmlEvent {
    let (local_name, attributes) = match tag {
        Some(e) => (e.local_name().as_ref().to_string(), e.attributes().flatten().map(|a| (a.key.as_ref().to_string(), a.value.to_string())).collect()),
        None => (String::new(), Vec::new()),
    };
    XmlEvent { kind, local_name, attributes, namespace: String::new() }
}

/// `Reader::read_event`: the next event of the document, as plain values: the one named by the
/// document and the number of events read before it. The plain reader resolves no namespace.
#[verifier::external_body]
pub(crate) fn read_event(cursor: &mut XmlCursor) -> (ev: XmlEvent)
    ensures
        ev == xml_event(old(cursor).source(), old(cursor).count()),
        ev.namespace@.len() == 0,
        final(cursor).source() == old(cursor).source(),
        final(cursor).count() == old(cursor).count() + 1,
{
    cursor.count = Ghost(cursor.count@ + 1);
    match cursor.reader.read_event() {
        Ok(Event::Start(e)) => event_record(XmlEventKind::Start, Some(&e)),
        Ok(Event::Empty(e)) => event_record(XmlEventKind::Empty, Some(&e)),
        Ok(Event::End(e)) => XmlEvent {
            local_name: e.local_name().as_ref().to_string(),
            ..event_record(XmlEventKind::End, None)
        },
        Ok(Event::Eof) => event_record(XmlEventKind::Eof, None),
        Ok(_) => event_record(XmlEventKind::Other, None),
        Err(_) => event_record(XmlEventKind::Error, None),
    }
}

/// `NsReader::read_resolved_event`: the next event with the namespace its tag resolves to
/// (empty when the prefix is unbound or unknown): the one named by the document and the number
/// of events read before it.
#[verifier::external_body]
pub(crate) fn read_resolved_event(cursor: &mut NsXmlCursor) -> (ev: XmlEvent)
    ensures
        ev == xml_resolved_event(old(cursor).source(), old(cursor).count()),
        final(cursor).source() == old(cursor).source(),
        final(cursor).count() == old(cursor).count() + 1,
{
    cursor.count = Ghost(cursor.count@ + 1);
    let r = cursor.reader.read_resolved_event();
    XmlEvent {
        namespace: match &r { Ok((ResolveResult::Bound(n), _)) => n.as_ref().to_string(), _ => String::new() },
        ..match r {
            Ok((_, Event::Start(e))) => event_record(XmlEventKind::Start, Some(&e)),
            Ok((_, Event::Empty(e))) => event_record(XmlEventKind::Empty, Some(&e)),
            Ok((_, Event::End(_))) => event_record(XmlEventKind::End, None),
            Ok((_, Event::Eof)) => event_record(XmlEventKind::Eof, None),
            Ok(_) => event_record(XmlEventKind::Other, None),
            Err(_) => event_record(XmlEventKind::Error, None),
        }
    }
}

/// Whether reading stops after `e`: the document ended or is malformed.
pub open spec fn ends_reading(e: XmlEvent) -> bool {
    e.kind == XmlEventKind::Eof || e.kind == XmlEventKind::Error
}

/// The `k`-th event of the plain reader, with the byte offsets before and after it.
pub open spec fn placed_event(xml: Seq<char>, k: nat) -> PlacedEvent {
    PlacedEvent { event: xml_event(xml, k), before: xml_offset(xml, k), after: xml_offset(xml, k + 1) }
}

/// The plain reader's events of `xml` from the `k`-th on, through the first that ends reading,
/// and no further than the `limit`-th.
pub open spec fn placed_events_from(xml: Seq<char>, k: nat, limit: nat) -> Seq<PlacedEvent>
    decreases limit - k,
{
    if ends_reading(xml_event(xml, k)) || k >= limit {
        seq![placed_event(xml, k)]
    } else {
        seq![placed_event(xml, k)] + placed_events_from(xml, k + 1, limit)
    }
}

/// The events of `xml` that the document logic reads: from the first through the one that ends
/// reading; a document of `n` bytes is read for at most `n + 1` events.
pub open spec fn document_events(xml: Seq<char>) -> Seq<PlacedEvent> {
    placed_events_from(xml, 0, encode_utf8(xml).len())
}

/// The namespace-resolving reader's events of `xml` from the `k`-th on, through the first that
/// ends reading, and no further than the `limit`-th.
pub open spec fn resolved_events_from(xml: Seq<char>, k: nat, limit: nat) -> Seq<XmlEvent>
    decreases limit - k,
{
    if ends_reading(xml_resolved_event(xml, k)) || k >= limit {
        seq![xml_resolved_event(xml, k)]
    } else {
        seq![xml_resolved_event(xml, k)] + resolved_events_from(xml, k + 1, limit)
    }
}

/// The namespace-resolving reader's events of `xml`, read as `document_events` reads them.
pub open spec fn resolved_events(xml: Seq<char>) -> Seq<XmlEvent> {
    resolved_events_from(xml, 0, encode_utf8(xml).len())
}

} // verus!
