//! Preparing a CFDI document for reading: byte-order marks, HTML error pages, the root's
//! namespace declarations and the `Complemento` element, which is read apart from the rest.
use vstd::prelude::*;
use vstd::string::StringSliceAdditionalSpecFns;
use vstd::utf8::*;

use crate::dates::{
    chrono_date, chrono_date_error, chrono_datetime, chrono_datetime_error, chrono_parse_date, chrono_parse_datetime, four_digit_year,
    iso_datetime_text, iso_text, Date, DateParseError, DateTime,
};
use crate::cfdi::xml::{
    document_events, ends_reading, placed_event, placed_events_from, read_event,
    reader_position, xml_cursor, xml_event, PlacedEvent, XmlEvent, XmlEventKind,
};
use crate::text::{
    chars_of, drop_leading, skip_white, starts_with, starts_with_exec, str_eq, string_of, trim,
    trim_chars, trim_start,
};

verus! {

broadcast use group_utf8_lib;

/// Why a document could not be read as a CFDI.
#[derive(Debug, Clone)]
pub enum CfdiError {
    /// The XML could not be read into an invoice; the message says why.
    Xml(String),
    /// The document is an HTML page, not a CFDI.
    NotCfdi,
}

/// A document split into what is read as the invoice and what is read as its complements.
#[derive(Debug, Clone)]
pub struct PreparedCfdi {
    /// The document without its `Complemento` element.
    pub body: String,
    /// The trimmed inner XML of the `Complemento` element, when it is not empty.
    pub complement: Option<String>,
    /// The `xmlns` declarations of the root element, each as ` key="value"`.
    pub namespaces: String,
}

/// The byte-order mark.
pub open spec fn bom() -> char {
    '\u{FEFF}'
}

/// Whether the document, past leading white space, starts like an HTML page.
pub open spec fn is_html_page(s: Seq<char>) -> bool {
    starts_with(trim_start(s), "<!DOCTYPE html"@) || starts_with(trim_start(s), "<html"@)
}

/// A leading byte-order mark changes nothing: the document read past its marks is the same
/// with one more mark in front.
pub proof fn lemma_byte_order_mark_ignored(xml: Seq<char>)
    ensures
        drop_leading(seq![bom()] + xml, bom()) == drop_leading(xml, bom()),
{
    let s = seq![bom()] + xml;
    assert(s.drop_first() =~= xml);
}

/// `s` without its leading byte-order marks.
pub fn strip_bom(s: &str) -> (r: String)
    ensures
        r@ == drop_leading(s@, bom()),
{
    let c = chars_of(s);
    let mut k: usize = 0;
    assert(c@.skip(0) =~= c@);
    while k < c.len() && c[k] == '\u{FEFF}'
        invariant
            k <= c@.len(),
            drop_leading(c@, bom()) == drop_leading(c@.skip(k as int), bom()),
        decreases c.len() - k,
    {
        assert(c@.skip(k as int).drop_first() =~= c@.skip(k + 1));
        k += 1;
    }
    if k < c.len() {
        assert(c@.skip(k as int)[0] == c@[k as int]);
    }
    assert(c@.skip(k as int) =~= c@.subrange(k as int, c@.len() as int));
    crate::text::substring_of(c.as_slice(), k, c.len())
}

/// Whether `s`, past leading white space, starts with `<!DOCTYPE html` or `<html`.
pub fn looks_like_html(s: &str) -> (r: bool)
    ensures
        r == is_html_page(s@),
{
    let c = chars_of(s);
    let k = skip_white(c.as_slice(), 0);
    assert(c@.skip(0) =~= c@);
    let rest = crate::text::sub_chars(c.as_slice(), k, c.len());
    assert(rest@ =~= c@.skip(k as int));
    let doctype = chars_of("<!DOCTYPE html");
    let html = chars_of("<html");
    starts_with_exec(rest.as_slice(), doctype.as_slice()) || starts_with_exec(
        rest.as_slice(),
        html.as_slice(),
    )
}

// ── Events of the whole document ────────────────────────────────────────────

/// The events of `xml` in document order, each with the byte offsets before and after it,
/// through the first `Eof` or `Error`. quick-xml consumes at least one byte for every other
/// event, so a document of `n` bytes yields its end within `n + 1` events; reading stops there.
pub fn read_placed_events(xml: &str) -> (r: Vec<PlacedEvent>)
    ensures
        r@ == document_events(xml@),
{
    let mut cursor = xml_cursor(xml);
    let limit = xml.as_bytes().len();
    let mut events: Vec<PlacedEvent> = Vec::new();
    let mut n: usize = 0;
    loop
        invariant_except_break
            n <= limit,
            limit == encode_utf8(xml@).len(),
            cursor.source() == xml@,
            cursor.count() == n,
            events@ + placed_events_from(xml@, n as nat, limit as nat) == document_events(xml@),
        ensures
            events@ == document_events(xml@),
        decreases limit - n,
    {
        let ghost rest = placed_events_from(xml@, n as nat, limit as nat);
        let before = reader_position(&cursor);
        let event = read_event(&mut cursor);
        let after = reader_position(&cursor);
        let stop = match event.kind {
            XmlEventKind::Eof | XmlEventKind::Error => true,
            _ => false,
        };
        let placed = PlacedEvent { event, before, after };
        assert(placed == placed_event(xml@, n as nat));
        let ghost old_events = events@;
        events.push(placed);
        if stop || n >= limit {
            assert(rest =~= seq![placed_event(xml@, n as nat)]);
            assert(events@ =~= old_events + rest);
            break;
        }
        assert(rest =~= seq![placed_event(xml@, n as nat)] + placed_events_from(
            xml@,
            (n + 1) as nat,
            limit as nat,
        ));
        assert(events@ + placed_events_from(xml@, (n + 1) as nat, limit as nat) =~= old_events
            + rest);
        n += 1;
    }
    events
}

// ── Root namespace declarations ─────────────────────────────────────────────

/// The first opening tag of `events`, unless the document ends or fails before it.
pub open spec fn first_start(events: Seq<PlacedEvent>) -> Option<XmlEvent>
    decreases events.len(),
{
    if events.len() == 0 {
        None
    } else if events[0].event.kind == XmlEventKind::Start {
        Some(events[0].event)
    } else if events[0].event.kind == XmlEventKind::Eof || events[0].event.kind
        == XmlEventKind::Error {
        None
    } else {
        first_start(events.drop_first())
    }
}

/// ` key="value"` when the key starts with `xmlns`, nothing otherwise.
pub open spec fn ns_decl(attr: (String, String)) -> Seq<char> {
    if starts_with(attr.0@, "xmlns"@) {
        seq![' '] + attr.0@ + seq!['=', '"'] + attr.1@ + seq!['"']
    } else {
        Seq::<char>::empty()
    }
}

/// The namespace declarations among `attrs`, in order.
pub open spec fn ns_decls(attrs: Seq<(String, String)>) -> Seq<char>
    decreases attrs.len(),
{
    if attrs.len() == 0 {
        Seq::<char>::empty()
    } else {
        ns_decls(attrs.drop_last()) + ns_decl(attrs.last())
    }
}

/// The namespace declarations of the root element of a document with these events.
pub open spec fn root_namespaces(events: Seq<PlacedEvent>) -> Seq<char> {
    match first_start(events) {
        Some(e) => ns_decls(e.attributes@),
        None => Seq::<char>::empty(),
    }
}

/// The root is the earliest opening tag: when event `k` opens a tag and no earlier event opens
/// one or ends the document, the root's declarations are those of event `k`; when no opening
/// tag comes before the document ends, there are none.
pub proof fn lemma_root_is_first_start(events: Seq<PlacedEvent>, k: int)
    requires
        0 <= k < events.len(),
        events[k].event.kind == XmlEventKind::Start,
        forall|j: int|
            0 <= j < k ==> (#[trigger] events[j].event).kind != XmlEventKind::Start && !ends_reading(
                events[j].event,
            ),
    ensures
        first_start(events) == Some(events[k].event),
        root_namespaces(events) == ns_decls(events[k].event.attributes@),
    decreases k,
{
    if k > 0 {
        let rest = events.drop_first();
        assert(!ends_reading(events[0].event) && events[0].event.kind != XmlEventKind::Start);
        assert forall|j: int| 0 <= j < k - 1 implies (#[trigger] rest[j].event).kind
            != XmlEventKind::Start && !ends_reading(rest[j].event) by {
            assert(rest[j] == events[j + 1]);
        }
        assert(rest[k - 1] == events[k]);
        lemma_root_is_first_start(rest, k - 1);
    }
}

/// The declarations of attributes one after the other are those of each, in order.
pub proof fn lemma_ns_decls_concat(a: Seq<(String, String)>, b: Seq<(String, String)>)
    ensures
        ns_decls(a + b) == ns_decls(a) + ns_decls(b),
    decreases b.len(),
{
    if b.len() == 0 {
        assert(a + b =~= a);
        assert(ns_decls(a) + ns_decls(b) =~= ns_decls(a));
    } else {
        lemma_ns_decls_concat(a, b.drop_last());
        assert((a + b).drop_last() =~= a + b.drop_last());
        assert((a + b).last() == b.last());
    }
}

/// One attribute gives ` key="value"` when its key starts with `xmlns`, and nothing otherwise.
pub proof fn lemma_ns_decls_single(key: String, value: String)
    ensures
        key@.len() >= 5 && key@.subrange(0, 5) == "xmlns"@ ==> ns_decls(seq![(key, value)]) == " "@
            + key@ + "=\""@ + value@ + "\""@,
        !(key@.len() >= 5 && key@.subrange(0, 5) == "xmlns"@) ==> ns_decls(seq![(key, value)]).len()
            == 0,
{
    reveal_strlit("xmlns");
    reveal_strlit(" ");
    reveal_strlit("=\"");
    reveal_strlit("\"");
    let one = seq![(key, value)];
    assert(one.drop_last() =~= Seq::<(String, String)>::empty());
    assert(one.last() == (key, value));
    assert(ns_decls(one.drop_last()) == Seq::<char>::empty());
    assert(ns_decls(one) == Seq::<char>::empty() + ns_decl((key, value)));
    assert(seq![' '] + key@ + seq!['=', '"'] + value@ + seq!['"'] =~= " "@ + key@ + "=\""@ + value@
        + "\""@);
}

/// The `xmlns` declarations of the first opening tag among `events`, each as ` key="value"`;
/// empty when the document ends or fails before any opening tag.
pub fn root_ns_decls_of(events: &[PlacedEvent]) -> (r: String)
    ensures
        r@ == root_namespaces(events@),
{
    let mut i: usize = 0;
    assert(events@.skip(0) =~= events@);
    while i < events.len()
        invariant
            i <= events@.len(),
            first_start(events@) == first_start(events@.skip(i as int)),
        decreases events.len() - i,
    {
        assert(events@.skip(i as int)[0] == events@[i as int]);
        assert(events@.skip(i as int).drop_first() =~= events@.skip(i + 1));
        let kind = events[i].event.kind;
        if kind == XmlEventKind::Start {
            return decls_of(events[i].event.attributes.as_slice());
        }
        if kind == XmlEventKind::Eof || kind == XmlEventKind::Error {
            return String::new();
        }
        i += 1;
    }
    assert(events@.skip(i as int).len() == 0);
    String::new()
}

fn decls_of(attrs: &[(String, String)]) -> (r: String)
    ensures
        r@ == ns_decls(attrs@),
{
    let mut r = String::new();
    let mut i: usize = 0;
    let xmlns = chars_of("xmlns");
    while i < attrs.len()
        invariant
            i <= attrs@.len(),
            xmlns@ == "xmlns"@,
            r@ == ns_decls(attrs@.take(i as int)),
        decreases attrs.len() - i,
    {
        assert(attrs@.take(i + 1).drop_last() =~= attrs@.take(i as int));
        let key = chars_of(attrs[i].0.as_str());
        if starts_with_exec(key.as_slice(), xmlns.as_slice()) {
            let piece = decl_text(&attrs[i].0, &attrs[i].1);
            r.append(piece.as_str());
        }
        i += 1;
        assert(attrs@.take(i as int).last() == attrs@[i - 1]);
    }
    assert(attrs@.take(i as int) =~= attrs@);
    r
}

fn decl_text(key: &String, value: &String) -> (r: String)
    ensures
        r@ == seq![' '] + key@ + seq!['=', '"'] + value@ + seq!['"'],
{
    let mut c: Vec<char> = Vec::new();
    c.push(' ');
    let k = chars_of(key.as_str());
    let v = chars_of(value.as_str());
    let mut i: usize = 0;
    while i < k.len()
        invariant
            i <= k@.len(),
            c@ == seq![' '] + k@.take(i as int),
        decreases k.len() - i,
    {
        c.push(k[i]);
        i += 1;
        assert(c@ =~= seq![' '] + k@.take(i as int));
    }
    c.push('=');
    c.push('"');
    let mut j: usize = 0;
    assert(k@.take(k@.len() as int) =~= k@);
    while j < v.len()
        invariant
            j <= v@.len(),
            c@ == seq![' '] + k@ + seq!['=', '"'] + v@.take(j as int),
        decreases v.len() - j,
    {
        c.push(v[j]);
        j += 1;
        assert(c@ =~= seq![' '] + k@ + seq!['=', '"'] + v@.take(j as int));
    }
    c.push('"');
    assert(v@.take(v@.len() as int) =~= v@);
    assert(c@ =~= seq![' '] + key@ + seq!['=', '"'] + value@ + seq!['"']);
    string_of(c.as_slice())
}

/// The `xmlns` declarations of the root element of `xml`, each as ` key="value"`, so that
/// prefixes declared there resolve in a complement read on its own.
pub fn root_ns_decls(xml: &str) -> (r: String)
    ensures
        r@ == root_namespaces(document_events(xml@)),
{
    let events = read_placed_events(xml);
    root_ns_decls_of(events.as_slice())
}


// ── The Complemento element ─────────────────────────────────────────────────

/// What the events read so far show of the `Complemento` element: byte offsets of its
/// opening tag (`outer_start`), of its content (`inner_start`..`inner_end`) and of the end of
/// its closing tag (`outer_end`), with the nesting depth inside it.
pub struct ComplementScan {
    pub done: bool,
    pub outer_start: Option<int>,
    pub inner_start: Option<int>,
    pub inner_end: Option<int>,
    pub outer_end: Option<int>,
    pub depth: int,
}

pub open spec fn scan_start() -> ComplementScan {
    ComplementScan {
        done: false,
        outer_start: None,
        inner_start: None,
        inner_end: None,
        outer_end: None,
        depth: 0,
    }
}

/// Whether the tag is named `Complemento`, whatever its prefix.
pub open spec fn is_complemento(e: XmlEvent) -> bool {
    e.local_name@ == "Complemento"@
}

/// The scan after one more event.
pub open spec fn scan_step(st: ComplementScan, p: PlacedEvent) -> ComplementScan {
    let e = p.event;
    if st.done {
        st
    } else if e.kind == XmlEventKind::Start {
        if is_complemento(e) && st.outer_start is None {
            ComplementScan {
                outer_start: Some(p.before as int),
                inner_start: Some(p.after as int),
                depth: 1,
                ..st
            }
        } else if st.outer_start is Some {
            ComplementScan { depth: st.depth + 1, ..st }
        } else {
            st
        }
    } else if e.kind == XmlEventKind::Empty {
        if is_complemento(e) && st.outer_start is None {
            ComplementScan {
                outer_start: Some(p.before as int),
                outer_end: Some(p.after as int),
                done: true,
                ..st
            }
        } else {
            st
        }
    } else if e.kind == XmlEventKind::End {
        if st.outer_start is Some && is_complemento(e) {
            if st.depth - 1 == 0 {
                ComplementScan {
                    depth: 0,
                    inner_end: Some(p.before as int),
                    outer_end: Some(p.after as int),
                    done: true,
                    ..st
                }
            } else {
                ComplementScan { depth: st.depth - 1, ..st }
            }
        } else if st.outer_start is Some {
            ComplementScan { depth: st.depth - 1, ..st }
        } else {
            st
        }
    } else if e.kind == XmlEventKind::Eof || e.kind == XmlEventKind::Error {
        ComplementScan { done: true, ..st }
    } else {
        st
    }
}

/// The scan over `events`, in order.
pub open spec fn scan(events: Seq<PlacedEvent>) -> ComplementScan
    decreases events.len(),
{
    if events.len() == 0 {
        scan_start()
    } else {
        scan_step(scan(events.drop_last()), events.last())
    }
}

/// Whether `pos` is a byte offset of `b` that falls between characters.
pub open spec fn cut(b: Seq<u8>, pos: int) -> bool {
    0 <= pos <= b.len() && is_char_boundary(b, pos)
}

/// The text of `xml` without the bytes from `os` to `oe`.
pub open spec fn without_bytes(xml: Seq<char>, os: int, oe: int) -> Seq<char> {
    let b = encode_utf8(xml);
    decode_utf8(b.subrange(0, os)) + decode_utf8(b.subrange(oe, b.len() as int))
}

/// The document without its `Complemento` element and the element's trimmed content (none when
/// empty), as the scan locates them; the document unchanged when the scan found no complete
/// element or its offsets do not fall between characters.
pub open spec fn split_outcome(xml: Seq<char>, st: ComplementScan) -> (Seq<char>, Option<Seq<char>>) {
    let b = encode_utf8(xml);
    match (st.outer_start, st.outer_end) {
        (Some(os), Some(oe)) => if !(cut(b, os) && cut(b, oe)) {
            (xml, None)
        } else {
            match (st.inner_start, st.inner_end) {
                (Some(is), Some(ie)) => if cut(b, ie) && 0 <= is <= ie && is_char_boundary(
                    b.subrange(0, ie),
                    is,
                ) {
                    let inner = trim(decode_utf8(b.subrange(is, ie)));
                    (without_bytes(xml, os, oe), if inner.len() == 0 { None } else { Some(inner) })
                } else {
                    (xml, None)
                },
                _ => (without_bytes(xml, os, oe), None),
            }
        },
        _ => (xml, None),
    }
}

/// Whether the strings of `r` hold the texts of `o`.
pub open spec fn holds_split(r: (String, Option<String>), o: (Seq<char>, Option<Seq<char>>)) -> bool {
    &&& r.0@ == o.0
    &&& match (r.1, o.1) {
        (Some(a), Some(b)) => a@ == b,
        (None, None) => true,
        _ => false,
    }
}

/// Splits `xml` into the document without its `Complemento` element and the element's trimmed
/// inner XML, at the offsets that `events` (the events of `xml`) show.
pub fn split_complement_with(xml: &str, events: &[PlacedEvent]) -> (r: (String, Option<String>))
    ensures
        holds_split(r, split_outcome(xml@, scan(events@))),
{
    let mut done = false;
    let mut outer_start: Option<u64> = None;
    let mut inner_start: Option<u64> = None;
    let mut inner_end: Option<u64> = None;
    let mut outer_end: Option<u64> = None;
    let mut depth: i128 = 0;
    let mut i: usize = 0;
    let n = events.len();
    assert(events@.take(0) =~= Seq::<PlacedEvent>::empty());
    while i < n
        invariant
            n == events@.len(),
            i <= n,
            -(i as int) <= depth <= i as int,
            ({
                let st = scan(events@.take(i as int));
                &&& st.done == done
                &&& st.depth == depth as int
                &&& st.outer_start == (match outer_start { Some(x) => Some(x as int), None => None })
                &&& st.inner_start == (match inner_start { Some(x) => Some(x as int), None => None })
                &&& st.inner_end == (match inner_end { Some(x) => Some(x as int), None => None })
                &&& st.outer_end == (match outer_end { Some(x) => Some(x as int), None => None })
            }),
        decreases n - i,
    {
        assert(events@.take(i + 1).drop_last() =~= events@.take(i as int));
        assert(events@.take(i + 1).last() == events@[i as int]);
        let p = &events[i];
        if !done {
            let named = str_eq(p.event.local_name.as_str(), "Complemento");
            let kind = p.event.kind;
            if kind == XmlEventKind::Start {
                if named && outer_start.is_none() {
                    outer_start = Some(p.before);
                    inner_start = Some(p.after);
                    depth = 1;
                } else if outer_start.is_some() {
                    depth = depth + 1;
                }
            } else if kind == XmlEventKind::Empty {
                if named && outer_start.is_none() {
                    outer_start = Some(p.before);
                    outer_end = Some(p.after);
                    done = true;
                }
            } else if kind == XmlEventKind::End {
                if outer_start.is_some() && named {
                    depth = depth - 1;
                    if depth == 0 {
                        inner_end = Some(p.before);
                        outer_end = Some(p.after);
                        done = true;
                    }
                } else if outer_start.is_some() {
                    depth = depth - 1;
                }
            } else if kind == XmlEventKind::Eof || kind == XmlEventKind::Error {
                done = true;
            }
        }
        i += 1;
    }
    assert(events@.take(n as int) =~= events@);
    finish_split(xml, outer_start, inner_start, inner_end, outer_end)
}

fn finish_split(
    xml: &str,
    outer_start: Option<u64>,
    inner_start: Option<u64>,
    inner_end: Option<u64>,
    outer_end: Option<u64>,
) -> (r: (String, Option<String>))
    ensures
        holds_split(
            r,
            split_outcome(
                xml@,
                ComplementScan {
                    done: true,
                    outer_start: match outer_start { Some(x) => Some(x as int), None => None },
                    inner_start: match inner_start { Some(x) => Some(x as int), None => None },
                    inner_end: match inner_end { Some(x) => Some(x as int), None => None },
                    outer_end: match outer_end { Some(x) => Some(x as int), None => None },
                    depth: 0,
                },
            ),
        ),
{
    let whole = xml.to_owned();
    let len = xml.as_bytes().len();
    let (os, oe) = match (outer_start, outer_end) {
        (Some(a), Some(b)) => (a, b),
        _ => {
            return (whole, None);
        },
    };
    if os > len as u64 || oe > len as u64 {
        return (whole, None);
    }
    let os = os as usize;
    let oe = oe as usize;
    if !xml.is_char_boundary(os) || !xml.is_char_boundary(oe) {
        return (whole, None);
    }
    let (left, _) = xml.split_at(os);
    let (_, right) = xml.split_at(oe);
    proof {
        encode_utf8_decode_utf8(left@);
        encode_utf8_decode_utf8(right@);
    }
    let mut body = left.to_owned();
    body.append(right);
    match (inner_start, inner_end) {
        (Some(is), Some(ie)) => {
            if ie > len as u64 || is > ie {
                return (whole, None);
            }
            let is = is as usize;
            let ie = ie as usize;
            if !xml.is_char_boundary(ie) {
                return (whole, None);
            }
            let (pre, _) = xml.split_at(ie);
            if !pre.is_char_boundary(is) {
                return (whole, None);
            }
            let (_, mid) = pre.split_at(is);
            proof {
                encode_utf8_decode_utf8(mid@);
                assert(mid.spec_bytes() =~= xml.spec_bytes().subrange(is as int, ie as int));
            }
            let content = chars_of(mid);
            let trimmed = trim_chars(content.as_slice());
            if trimmed.len() == 0 {
                (body, None)
            } else {
                (body, Some(string_of(trimmed.as_slice())))
            }
        },
        _ => (body, None),
    }
}

/// Splits `xml` into the document without its `Complemento` element and the element's trimmed
/// inner XML (none when empty), at the offsets quick-xml's reader reports; `xml` unchanged when
/// it has no such element.
pub fn split_complement(xml: &str) -> (r: (String, Option<String>))
    ensures
        holds_split(r, split_outcome(xml@, scan(document_events(xml@)))),
{
    let events = read_placed_events(xml);
    split_complement_with(xml, events.as_slice())
}


/// How many elements are open after the events from `a` up to, not including, `i`: the opening
/// tags among them less the closing tags.
pub open spec fn opened_since(events: Seq<PlacedEvent>, a: int, i: int) -> int
    decreases i - a,
{
    if i <= a {
        0
    } else {
        opened_since(events, a, i - 1) + if events[i - 1].event.kind == XmlEventKind::Start {
            1int
        } else if events[i - 1].event.kind == XmlEventKind::End {
            -1int
        } else {
            0int
        }
    }
}

/// Whether the `Complemento` element opens at event `a` and closes at event `b`: nothing before
/// `a` ends the document or is an element named `Complemento`; event `a` opens it; between the
/// two, reading goes on and at least the `Complemento` stays open; and event `b` is its closing
/// tag, the one that leaves no element opened since `a` open.
pub open spec fn complement_spans(events: Seq<PlacedEvent>, a: int, b: int) -> bool {
    &&& 0 <= a < b < events.len()
    &&& forall|j: int|
        0 <= j < a ==> !ends_reading(#[trigger] events[j].event) && !(is_complemento(events[j].event)
            && (events[j].event.kind == XmlEventKind::Start || events[j].event.kind
            == XmlEventKind::Empty))
    &&& events[a].event.kind == XmlEventKind::Start && is_complemento(events[a].event)
    &&& forall|j: int|
        a < j < b ==> !ends_reading(#[trigger] events[j].event) && opened_since(events, a, j + 1) >= 1
    &&& events[b].event.kind == XmlEventKind::End && is_complemento(events[b].event)
    &&& opened_since(events, a, b + 1) == 0
}

proof fn lemma_scan_take_step(events: Seq<PlacedEvent>, n: int)
    requires
        0 <= n < events.len(),
    ensures
        scan(events.take(n + 1)) == scan_step(scan(events.take(n)), events[n]),
{
    assert(events.take(n + 1).drop_last() =~= events.take(n));
    assert(events.take(n + 1).last() == events[n]);
}

proof fn lemma_scan_before_complement(events: Seq<PlacedEvent>, a: int, b: int, n: int)
    requires
        complement_spans(events, a, b),
        0 <= n <= a,
    ensures
        scan(events.take(n)) == scan_start(),
    decreases n,
{
    if n == 0 {
        assert(events.take(0) =~= Seq::<PlacedEvent>::empty());
    } else {
        lemma_scan_before_complement(events, a, b, n - 1);
        lemma_scan_take_step(events, n - 1);
        assert(!ends_reading(events[n - 1].event));
    }
}

proof fn lemma_scan_inside_complement(events: Seq<PlacedEvent>, a: int, b: int, n: int)
    requires
        complement_spans(events, a, b),
        a < n <= b,
    ensures
        scan(events.take(n)) == (ComplementScan {
            done: false,
            outer_start: Some(events[a].before as int),
            inner_start: Some(events[a].after as int),
            inner_end: None,
            outer_end: None,
            depth: opened_since(events, a, n),
        }),
        opened_since(events, a, n) >= 1,
    decreases n,
{
    if n == a + 1 {
        lemma_scan_before_complement(events, a, b, a);
        lemma_scan_take_step(events, a);
        assert(opened_since(events, a, a) == 0);
    } else {
        lemma_scan_inside_complement(events, a, b, n - 1);
        lemma_scan_take_step(events, n - 1);
        let j = n - 1;
        assert(a < j < b);
        assert(!ends_reading(events[j].event) && opened_since(events, a, j + 1) >= 1);
    }
}

proof fn lemma_scan_after_complement(events: Seq<PlacedEvent>, a: int, b: int, n: int)
    requires
        complement_spans(events, a, b),
        b < n <= events.len(),
    ensures
        scan(events.take(n)) == (ComplementScan {
            done: true,
            outer_start: Some(events[a].before as int),
            inner_start: Some(events[a].after as int),
            inner_end: Some(events[b].before as int),
            outer_end: Some(events[b].after as int),
            depth: 0,
        }),
    decreases n,
{
    if n == b + 1 {
        lemma_scan_inside_complement(events, a, b, b);
        lemma_scan_take_step(events, b);
    } else {
        lemma_scan_after_complement(events, a, b, n - 1);
        lemma_scan_take_step(events, n - 1);
    }
}

/// The split ends the `Complemento` at its own closing tag: when the element opens at event `a`
/// and its closing tag is event `b` (every closing tag in between closes an element opened since
/// `a`, whatever its name), the scan locates the element from the offset before `a` to the one
/// after `b` and its content between the offsets after `a` and before `b`; where those offsets
/// fall between characters, the document comes back without the element's bytes, with its
/// trimmed content when that is not empty.
pub proof fn lemma_split_at_complement_close(xml: Seq<char>, events: Seq<PlacedEvent>, a: int, b: int)
    requires
        complement_spans(events, a, b),
    ensures
        scan(events).outer_start == Some(events[a].before as int),
        scan(events).inner_start == Some(events[a].after as int),
        scan(events).inner_end == Some(events[b].before as int),
        scan(events).outer_end == Some(events[b].after as int),
        ({
            let bytes = encode_utf8(xml);
            let (os, is, ie, oe) = (
                events[a].before as int,
                events[a].after as int,
                events[b].before as int,
                events[b].after as int,
            );
            let inner = trim(decode_utf8(bytes.subrange(is, ie)));
            cut(bytes, os) && cut(bytes, oe) && cut(bytes, ie) && 0 <= is <= ie && is_char_boundary(
                bytes.subrange(0, ie),
                is,
            ) ==> split_outcome(xml, scan(events)) == (
                without_bytes(xml, os, oe),
                if inner.len() == 0 {
                    None
                } else {
                    Some(inner)
                },
            )
        }),
{
    lemma_scan_after_complement(events, a, b, events.len() as int);
    assert(events.take(events.len() as int) =~= events);
}

/// A document without a `Complemento` element is left whole: when no event is named
/// `Complemento`, the split gives the document back unchanged and no complement.
pub proof fn lemma_no_complement_unchanged(xml: Seq<char>, events: Seq<PlacedEvent>)
    requires
        forall|i: int| 0 <= i < events.len() ==> !is_complemento(#[trigger] events[i].event),
    ensures
        split_outcome(xml, scan(events)) == (xml, None::<Seq<char>>),
{
    lemma_scan_without_complement(events);
}

proof fn lemma_scan_without_complement(events: Seq<PlacedEvent>)
    requires
        forall|i: int| 0 <= i < events.len() ==> !is_complemento(#[trigger] events[i].event),
    ensures
        scan(events).outer_start is None,
    decreases events.len(),
{
    if events.len() > 0 {
        assert forall|i: int| 0 <= i < events.drop_last().len() implies !is_complemento(
            #[trigger] events.drop_last()[i].event,
        ) by {
            assert(events.drop_last()[i] == events[i]);
        }
        lemma_scan_without_complement(events.drop_last());
        assert(!is_complemento(events[events.len() - 1].event));
    }
}

// ── The whole document ──────────────────────────────────────────────────────

/// The outcome of preparing the text `text` (already without byte-order marks) whose events
/// are `events`.
pub open spec fn prepared(text: Seq<char>, events: Seq<PlacedEvent>, r: Result<PreparedCfdi, CfdiError>) -> bool {
    if is_html_page(text) {
        r matches Err(CfdiError::NotCfdi)
    } else {
        r matches Ok(p) && p.namespaces@ == root_namespaces(events) && holds_split(
            (p.body, p.complement),
            split_outcome(text, scan(events)),
        )
    }
}

/// Prepares `text`, a document without leading byte-order marks whose events are `events`:
/// an HTML page is refused; otherwise the document is split around its `Complemento` element
/// and the root's namespace declarations are kept for reading the complement on its own.
pub fn prepare_with_events(text: &str, events: &[PlacedEvent]) -> (r: Result<PreparedCfdi, CfdiError>)
    ensures
        prepared(text@, events@, r),
{
    if looks_like_html(text) {
        return Err(CfdiError::NotCfdi);
    }
    let namespaces = root_ns_decls_of(events);
    let (body, complement) = split_complement_with(text, events);
    Ok(PreparedCfdi { body, complement, namespaces })
}

/// Prepares a CFDI document for reading: leading byte-order marks are dropped, an HTML page
/// (such as an error page saved as `.xml`) is refused with `NotCfdi`, and the rest is split
/// around its `Complemento` element, keeping the root's namespace declarations.
pub fn prepare_document(xml: &str) -> (r: Result<PreparedCfdi, CfdiError>)
    ensures
        r is Err <==> is_html_page(drop_leading(xml@, bom())),
        prepared(
            drop_leading(xml@, bom()),
            document_events(drop_leading(xml@, bom())),
            r,
        ),
{
    let text = strip_bom(xml);
    if looks_like_html(text.as_str()) {
        return Err(CfdiError::NotCfdi);
    }
    let events = read_placed_events(text.as_str());
    prepare_with_events(text.as_str(), events.as_slice())
}

/// The message of the error `std::str::from_utf8` gives for `bytes` (its `Utf8Error` as text),
/// when they are not UTF-8.
pub uninterp spec fn utf8_error_text(bytes: Seq<u8>) -> Seq<char>;

/// `std::str::from_utf8`: the text the bytes encode, or the reason they are not UTF-8 (the
/// error's message, named by `utf8_error_text`).
#[verifier::external_body]
pub(crate) fn utf8_text(bytes: &[u8]) -> (r: Result<String, String>)
    ensures
        r is Ok <==> valid_utf8(bytes@),
        r matches Ok(s) ==> encode_utf8(s@) == bytes@,
        r matches Err(m) ==> m@ == utf8_error_text(bytes@),
{
    std::str::from_utf8(bytes).map(|s| s.to_string()).map_err(|e| e.to_string())
}

/// Prepares a CFDI document given as bytes, which must be UTF-8; other bytes are refused with
/// `Xml` and the reason.
pub fn prepare_document_bytes(xml: &[u8]) -> (r: Result<PreparedCfdi, CfdiError>)
    ensures
        !valid_utf8(xml@) ==> (r matches Err(CfdiError::Xml(m)) && m@ == utf8_error_text(xml@)),
        valid_utf8(xml@) ==> (r is Err <==> is_html_page(drop_leading(decode_utf8(xml@), bom()))),
        valid_utf8(xml@) ==> prepared(
            drop_leading(decode_utf8(xml@), bom()),
            document_events(drop_leading(decode_utf8(xml@), bom())),
            r,
        ),
{
    match utf8_text(xml) {
        Err(m) => Err(CfdiError::Xml(m)),
        Ok(s) => {
            proof {
                encode_utf8_decode_utf8(s@);
            }
            prepare_document(s.as_str())
        },
    }
}


// ── Dates ───────────────────────────────────────────────────────────────────

/// Reads a CFDI date and time (`YYYY-MM-DDThh:mm:ss`), as chrono reads that format; the error
/// carries chrono's message.
pub fn parse_cfdi_datetime(s: &str) -> (r: Result<DateTime, DateParseError>)
    ensures
        r is Err <==> chrono_datetime(s@, "%Y-%m-%dT%H:%M:%S"@) is None,
        r matches Err(e) ==> e.message@ == chrono_datetime_error(s@, "%Y-%m-%dT%H:%M:%S"@),
        r matches Ok(t) ==> chrono_datetime(s@, "%Y-%m-%dT%H:%M:%S"@) == Some(
            (
                t.date.year as int,
                t.date.month as int,
                t.date.day as int,
                t.hour as int,
                t.minute as int,
                t.second as int,
                t.nanosecond as int,
            ),
        ),
        forall|t: DateTime|
            t.date.valid() && four_digit_year(t.date) && t.hour < 24 && t.minute < 60 && t.second
                < 60 && t.nanosecond == 0 && s@ == iso_datetime_text(t) ==> r == Ok::<
                DateTime,
                DateParseError,
            >(t),
{
    chrono_parse_datetime(s, "%Y-%m-%dT%H:%M:%S")
}

/// Reads a CFDI date (`YYYY-MM-DD`), as chrono reads that format; the error carries chrono's
/// message.
pub fn parse_cfdi_date(s: &str) -> (r: Result<Date, DateParseError>)
    ensures
        r is Err <==> chrono_date(s@, "%Y-%m-%d"@) is None,
        r matches Err(e) ==> e.message@ == chrono_date_error(s@, "%Y-%m-%d"@),
        r matches Ok(d) ==> chrono_date(s@, "%Y-%m-%d"@) == Some(
            (d.year as int, d.month as int, d.day as int),
        ),
        forall|d: Date| d.valid() && four_digit_year(d) && s@ == iso_text(d) ==> r == Ok::<
            Date,
            DateParseError,
        >(d),
{
    chrono_parse_date(s, "%Y-%m-%d")
}

} // verus!
