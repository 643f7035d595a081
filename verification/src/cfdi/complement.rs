//! Complements (`cfdi:Complemento`): the typed extensions an invoice may carry.
use vstd::prelude::*;

use crate::cfdi::freight::FreightTransportComplement;
use crate::cfdi::payment::PaymentsComplement;
use crate::cfdi::payroll::PayrollComplement;
use crate::cfdi::xml::{
    ns_xml_cursor, read_resolved_event, resolved_events, resolved_events_from, xml_resolved_event,
    XmlEvent, XmlEventKind,
};
use vstd::utf8::*;
use crate::text::{
    chars_of, find_chars, find_first, find_from, lemma_find_from_bounds, lemma_rfind_bounds,
    rfind_char, rfind_char_before, str_eq, string_of, substring_of, trim, trim_chars,
};

verus! {

/// The digital fiscal stamp (`tfd:TimbreFiscalDigital`) the SAT puts on a certified invoice.
#[derive(Debug, Clone)]
pub struct FiscalStamp {
    /// XML attribute `UUID`.
    pub uuid: String,
    /// XML attribute `FechaTimbrado`.
    pub stamp_date: String,
    /// XML attribute `NoCertificadoSAT`.
    pub sat_certificate_number: String,
    /// XML attribute `SelloCFD`.
    pub cfdi_seal: String,
    /// XML attribute `SelloSAT`.
    pub sat_seal: String,
}

/// One complement of an invoice.
#[derive(Debug, Clone)]
pub enum ComplementKind {
    Payments(PaymentsComplement),
    Payroll(PayrollComplement),
    FreightTransport(FreightTransportComplement),
    FiscalStamp(FiscalStamp),
    /// A complement of a namespace this library does not model, or one that failed to read;
    /// `raw_xml` holds the element's text or the reading error.
    Unknown { namespace: String, raw_xml: String },
}

/// The complements of an invoice, in document order.
#[derive(Debug, Clone)]
pub struct Complement {
    pub items: Vec<ComplementKind>,
}

impl Default for Complement {
    fn default() -> (r: Complement)
        ensures
            r.items@.len() == 0,
    {
        Complement { items: Vec::new() }
    }
}

/// `c` followed by `name` followed by `d`.
pub open spec fn framed(c: char, name: Seq<char>, d: char) -> Seq<char> {
    seq![c] + name + seq![d]
}

/// `</` followed by `name` followed by `>`.
pub open spec fn closing_tag(name: Seq<char>) -> Seq<char> {
    seq!['<', '/'] + name + seq!['>']
}

/// Where a prefixed match at `i` starts: at the last `<` before it, or at `i` when there is none.
pub open spec fn tag_open_before(xml: Seq<char>, i: int) -> int {
    match rfind_char_before(xml, '<', i) {
        Some(k) => k,
        None => i,
    }
}

/// Where the first element named `name` starts in `xml`: the first `:name ` (taken back to its
/// `<`), else the first `<name `, else the first `:name>` (taken back to its `<`), else the first
/// `<name>`.
pub open spec fn element_start(xml: Seq<char>, name: Seq<char>) -> Option<int> {
    match find_first(xml, framed(':', name, ' ')) {
        Some(i) => Some(tag_open_before(xml, i)),
        None => match find_first(xml, framed('<', name, ' ')) {
            Some(j) => Some(j),
            None => match find_first(xml, framed(':', name, '>')) {
                Some(i) => Some(tag_open_before(xml, i)),
                None => find_first(xml, framed('<', name, '>')),
            },
        },
    }
}

/// Where the element that starts at `start` ends: just after the first `:name>` from `start`, else
/// just after the first `</name>` from `start`.
pub open spec fn element_end(xml: Seq<char>, name: Seq<char>, start: int) -> Option<int> {
    match find_from(xml, framed(':', name, '>'), start) {
        Some(i) => Some(i + name.len() + 2),
        None => match find_from(xml, closing_tag(name), start) {
            Some(i) => Some(i + name.len() + 3),
            None => None,
        },
    }
}

/// The text of the first element named `name` in `xml`, up to the end of `xml` when it is not
/// closed, and empty when there is no such element.
pub open spec fn captured_element(xml: Seq<char>, name: Seq<char>) -> Seq<char> {
    match element_start(xml, name) {
        None => Seq::<char>::empty(),
        Some(s) => match element_end(xml, name, s) {
            Some(e) => xml.subrange(s, e),
            None => xml.subrange(s, xml.len() as int),
        },
    }
}

fn framed_chars(c: char, name: &[char], d: char) -> (r: Vec<char>)
    ensures
        r@ == framed(c, name@, d),
{
    let mut r: Vec<char> = Vec::new();
    r.push(c);
    let mut i: usize = 0;
    while i < name.len()
        invariant
            i <= name@.len(),
            r@ == seq![c] + name@.subrange(0, i as int),
        decreases name.len() - i,
    {
        r.push(name[i]);
        i += 1;
        assert(r@ =~= seq![c] + name@.subrange(0, i as int));
    }
    r.push(d);
    assert(r@ =~= framed(c, name@, d));
    r
}

fn closing_chars(name: &[char]) -> (r: Vec<char>)
    ensures
        r@ == closing_tag(name@),
{
    let mut r = framed_chars('/', name, '>');
    r.insert(0, '<');
    assert(r@ =~= closing_tag(name@));
    r
}

fn open_tag_start(xml: &[char], i: usize) -> (r: usize)
    ensures
        r == tag_open_before(xml@, i as int),
{
    proof {
        lemma_rfind_bounds(xml@, '<', i as int);
    }
    match rfind_char(xml, '<', i) {
        Some(k) => k,
        None => i,
    }
}

/// The first element named `local_name` in `xml`, as text: from its opening `<` (a prefixed tag
/// is found by `:local_name` and taken back to the `<` before it) through its closing tag, or to
/// the end of `xml` when it is not closed; empty when no such element is found.
pub fn capture_element(xml: &str, local_name: &str) -> (r: String)
    ensures
        r@ == captured_element(xml@, local_name@),
{
    let x = chars_of(xml);
    let name = chars_of(local_name);
    let open_colon = framed_chars(':', name.as_slice(), ' ');
    let open_bare = framed_chars('<', name.as_slice(), ' ');
    let open_colon2 = framed_chars(':', name.as_slice(), '>');
    let open_bare2 = framed_chars('<', name.as_slice(), '>');
    let xs = x.as_slice();
    assert(xs@ == xml@ && xs@.len() == x.len());
    proof {
        lemma_find_from_bounds(xml@, framed(':', local_name@, ' '), 0);
        lemma_find_from_bounds(xml@, framed('<', local_name@, ' '), 0);
        lemma_find_from_bounds(xml@, framed(':', local_name@, '>'), 0);
        lemma_find_from_bounds(xml@, framed('<', local_name@, '>'), 0);
    }
    let start = match find_chars(xs, open_colon.as_slice(), 0) {
        Some(i) => Some(open_tag_start(xs, i)),
        None => match find_chars(xs, open_bare.as_slice(), 0) {
            Some(j) => Some(j),
            None => match find_chars(xs, open_colon2.as_slice(), 0) {
                Some(i) => Some(open_tag_start(xs, i)),
                None => find_chars(xs, open_bare2.as_slice(), 0),
            },
        },
    };
    let start = match start {
        None => {
            return string_empty();
        },
        Some(s) => s,
    };
    proof {
        lemma_rfind_bounds(xml@, '<', start as int);
    }
    assert(start <= xs@.len()) by {
        lemma_rfind_bounds(xml@, '<', find_first(xml@, framed(':', local_name@, ' ')).unwrap_or(0));
        lemma_rfind_bounds(xml@, '<', find_first(xml@, framed(':', local_name@, '>')).unwrap_or(0));
    }
    assert(element_start(xml@, local_name@) == Some(start as int));
    let close_colon = framed_chars(':', name.as_slice(), '>');
    let close_bare = closing_chars(name.as_slice());
    assert(close_colon@.len() == local_name@.len() + 2);
    assert(close_bare@.len() == local_name@.len() + 3);
    proof {
        lemma_find_from_bounds(xml@, framed(':', local_name@, '>'), start as int);
        lemma_find_from_bounds(xml@, closing_tag(local_name@), start as int);
    }
    let end = match find_chars(xs, close_colon.as_slice(), start) {
        Some(i) => Some(i + close_colon.len()),
        None => match find_chars(xs, close_bare.as_slice(), start) {
            Some(i) => Some(i + close_bare.len()),
            None => None,
        },
    };
    match end {
        Some(e) => substring_of(xs, start, e),
        None => substring_of(xs, start, xs.len()),
    }
}

/// An empty string.
fn string_empty() -> (r: String)
    ensures
        r@ == Seq::<char>::empty(),
{
    String::new()
}


// ── Reading the complements ─────────────────────────────────────────────────

/// The complements this library reads, by the namespace of their element.
#[derive(Debug, Clone, Copy, PartialEq, Eq, Structural)]
pub enum ComplementNamespace {
    /// `http://www.sat.gob.mx/Pagos20`
    Payments,
    /// `http://www.sat.gob.mx/nomina12`
    Payroll,
    /// `http://www.sat.gob.mx/CartaPorte31`
    FreightTransport,
    /// `http://www.sat.gob.mx/TimbreFiscalDigital`
    FiscalStamp,
    /// Any other namespace.
    Other,
}

pub open spec fn namespace_of(uri: Seq<char>) -> ComplementNamespace {
    if uri == "http://www.sat.gob.mx/Pagos20"@ {
        ComplementNamespace::Payments
    } else if uri == "http://www.sat.gob.mx/nomina12"@ {
        ComplementNamespace::Payroll
    } else if uri == "http://www.sat.gob.mx/CartaPorte31"@ {
        ComplementNamespace::FreightTransport
    } else if uri == "http://www.sat.gob.mx/TimbreFiscalDigital"@ {
        ComplementNamespace::FiscalStamp
    } else {
        ComplementNamespace::Other
    }
}

/// Which complement a namespace URI stands for.
pub fn complement_namespace(uri: &str) -> (r: ComplementNamespace)
    ensures
        r == namespace_of(uri@),
{
    if str_eq(uri, "http://www.sat.gob.mx/Pagos20") {
        ComplementNamespace::Payments
    } else if str_eq(uri, "http://www.sat.gob.mx/nomina12") {
        ComplementNamespace::Payroll
    } else if str_eq(uri, "http://www.sat.gob.mx/CartaPorte31") {
        ComplementNamespace::FreightTransport
    } else if str_eq(uri, "http://www.sat.gob.mx/TimbreFiscalDigital") {
        ComplementNamespace::FiscalStamp
    } else {
        ComplementNamespace::Other
    }
}

/// One complement element, found but not yet read.
#[derive(Debug, Clone)]
pub struct ComplementPart {
    /// The namespace URI of the element, empty when its prefix is unbound.
    pub namespace: String,
    pub kind: ComplementNamespace,
    /// The element's text, as `capture_element` finds it in the complement's inner XML.
    pub element_xml: String,
}

/// What the events read so far show: nesting depth, the (namespace, local name) of each
/// complement element in order, and whether the document has ended.
pub struct PartScan {
    pub done: bool,
    pub depth: int,
    pub found: Seq<(Seq<char>, Seq<char>)>,
}

pub open spec fn part_step(st: PartScan, e: XmlEvent) -> PartScan {
    if st.done {
        st
    } else if e.kind == XmlEventKind::Start {
        PartScan {
            depth: st.depth + 1,
            found: if st.depth + 1 == 2 {
                st.found.push((e.namespace@, e.local_name@))
            } else {
                st.found
            },
            ..st
        }
    } else if e.kind == XmlEventKind::Empty {
        if st.depth == 1 {
            PartScan { found: st.found.push((e.namespace@, e.local_name@)), ..st }
        } else {
            st
        }
    } else if e.kind == XmlEventKind::End {
        if st.depth > 0 {
            PartScan { depth: st.depth - 1, ..st }
        } else {
            st
        }
    } else if e.kind == XmlEventKind::Eof || e.kind == XmlEventKind::Error {
        PartScan { done: true, ..st }
    } else {
        st
    }
}

/// The scan over `events`, which start with the wrapping root element: the complements are
/// the elements directly inside it.
pub open spec fn part_scan(events: Seq<XmlEvent>) -> PartScan
    decreases events.len(),
{
    if events.len() == 0 {
        PartScan { done: false, depth: 0, found: Seq::empty() }
    } else {
        part_step(part_scan(events.drop_last()), events.last())
    }
}

/// Whether reading has ended before event `i`: an `Eof` or `Error` event comes earlier.
pub open spec fn ended_before(events: Seq<XmlEvent>, i: int) -> bool
    decreases i,
{
    i > 0 && (ended_before(events, i - 1) || events[i - 1].kind == XmlEventKind::Eof
        || events[i - 1].kind == XmlEventKind::Error)
}

/// How many elements are open just before event `i`: the opening tags before it less the
/// closing tags before it.
pub open spec fn open_depth(events: Seq<XmlEvent>, i: int) -> int
    decreases i,
{
    if i <= 0 {
        0
    } else {
        open_depth(events, i - 1) + if events[i - 1].kind == XmlEventKind::Start {
            1int
        } else if events[i - 1].kind == XmlEventKind::End {
            -1int
        } else {
            0int
        }
    }
}

/// Whether every closing tag read before the end closes an open element.
pub open spec fn well_nested(events: Seq<XmlEvent>) -> bool {
    forall|i: int|
        0 <= i < events.len() && !ended_before(events, i) && #[trigger] events[i].kind
            == XmlEventKind::End ==> open_depth(events, i) > 0
}

/// Whether event `i` is a child element of the root: an opening or self-closing tag read before
/// the end while exactly one element, the root, is open.
pub open spec fn root_child(events: Seq<XmlEvent>, i: int) -> bool {
    &&& !ended_before(events, i)
    &&& open_depth(events, i) == 1
    &&& (events[i].kind == XmlEventKind::Start || events[i].kind == XmlEventKind::Empty)
}

/// The (namespace, local name) of each child element of the root among the first `n` events,
/// in document order.
pub open spec fn root_children(events: Seq<XmlEvent>, n: int) -> Seq<(Seq<char>, Seq<char>)>
    decreases n,
{
    if n <= 0 {
        Seq::empty()
    } else {
        root_children(events, n - 1) + if root_child(events, n - 1) {
            seq![(events[n - 1].namespace@, events[n - 1].local_name@)]
        } else {
            Seq::empty()
        }
    }
}

proof fn lemma_part_scan_prefix(events: Seq<XmlEvent>, n: int)
    requires
        0 <= n <= events.len(),
        well_nested(events),
    ensures
        part_scan(events.take(n)).done == ended_before(events, n),
        !ended_before(events, n) ==> part_scan(events.take(n)).depth == open_depth(events, n),
        part_scan(events.take(n)).found == root_children(events, n),
    decreases n,
{
    if n == 0 {
        assert(events.take(0) =~= Seq::<XmlEvent>::empty());
    } else {
        lemma_part_scan_prefix(events, n - 1);
        assert(events.take(n).drop_last() =~= events.take(n - 1));
        assert(events.take(n).last() == events[n - 1]);
        if !ended_before(events, n - 1) && events[n - 1].kind == XmlEventKind::End {
            assert(open_depth(events, n - 1) > 0);
        }
    }
}

/// The complements are the root's children: for a document whose closing tags each close an
/// open element, the elements the part scan finds are exactly the child elements of the root,
/// in document order, each with its namespace and local name; nested elements add none, and
/// nothing after the end of the document is found.
pub proof fn lemma_parts_are_root_children(events: Seq<XmlEvent>)
    requires
        well_nested(events),
    ensures
        part_scan(events).found == root_children(events, events.len() as int),
{
    lemma_part_scan_prefix(events, events.len() as int);
    assert(events.take(events.len() as int) =~= events);
}

/// Whether `p` is the complement element named `found` in the inner XML `inner`.
pub open spec fn part_of(inner: Seq<char>, found: (Seq<char>, Seq<char>), p: ComplementPart) -> bool {
    &&& p.namespace@ == found.0
    &&& p.kind == namespace_of(found.0)
    &&& p.element_xml@ == captured_element(inner, found.1)
}

/// Whether `parts` are the complement elements that `events` show, read from `inner`.
pub open spec fn parts_of(inner: Seq<char>, events: Seq<XmlEvent>, parts: Seq<ComplementPart>) -> bool {
    let found = part_scan(events).found;
    &&& parts.len() == found.len()
    &&& forall|i: int| 0 <= i < parts.len() ==> part_of(inner, found[i], #[trigger] parts[i])
}

/// The complement elements of `inner`, whose wrapped document has the events `events`: each
/// element directly inside the wrapping root, with its namespace and its text.
pub fn complement_parts_with(inner: &str, events: &[XmlEvent]) -> (r: Vec<ComplementPart>)
    ensures
        parts_of(inner@, events@, r@),
{
    let mut done = false;
    let mut depth: usize = 0;
    let mut parts: Vec<ComplementPart> = Vec::new();
    let n = events.len();
    let mut i: usize = 0;
    assert(events@.take(0) =~= Seq::<XmlEvent>::empty());
    while i < n
        invariant
            n == events@.len(),
            i <= n,
            depth <= i,
            ({
                let st = part_scan(events@.take(i as int));
                &&& st.done == done
                &&& st.depth == depth as int
                &&& parts@.len() == st.found.len()
                &&& forall|k: int| 0 <= k < parts@.len() ==> part_of(inner@, st.found[k], #[trigger] parts@[k])
            }),
        decreases n - i,
    {
        assert(events@.take(i + 1).drop_last() =~= events@.take(i as int));
        assert(events@.take(i + 1).last() == events@[i as int]);
        let e = &events[i];
        if !done {
            if e.kind == XmlEventKind::Start {
                depth = depth + 1;
                if depth == 2 {
                    parts.push(part_for(inner, e));
                }
            } else if e.kind == XmlEventKind::Empty {
                if depth == 1 {
                    parts.push(part_for(inner, e));
                }
            } else if e.kind == XmlEventKind::End {
                if depth > 0 {
                    depth = depth - 1;
                }
            } else if e.kind == XmlEventKind::Eof || e.kind == XmlEventKind::Error {
                done = true;
            }
        }
        i += 1;
    }
    assert(events@.take(n as int) =~= events@);
    parts
}

fn part_for(inner: &str, e: &XmlEvent) -> (p: ComplementPart)
    ensures
        part_of(inner@, (e.namespace@, e.local_name@), p),
{
    ComplementPart {
        namespace: e.namespace.clone(),
        kind: complement_namespace(e.namespace.as_str()),
        element_xml: capture_element(inner, e.local_name.as_str()),
    }
}

/// `<root` + the inherited declarations + `>` + `inner` + `</root>`.
pub open spec fn wrapped_complement(inner: Seq<char>, inherited_ns: Seq<char>) -> Seq<char> {
    "<root "@ + inherited_ns + ">"@ + inner + "</root>"@
}

/// The complement elements of the inner XML of a `Complemento` element, each with its
/// namespace and its text; `inherited_ns` holds the root's `xmlns` declarations, so that
/// prefixes declared there resolve. None when the inner XML is blank.
pub fn complement_parts(inner: &str, inherited_ns: &str) -> (r: Vec<ComplementPart>)
    ensures
        trim(inner@).len() == 0 ==> r@.len() == 0,
        trim(inner@).len() != 0 ==> parts_of(
            inner@,
            resolved_events(wrapped_complement(inner@, inherited_ns@)),
            r@,
        ),
        trim(inner@).len() != 0 && well_nested(
            resolved_events(wrapped_complement(inner@, inherited_ns@)),
        ) ==> ({
            let events = resolved_events(wrapped_complement(inner@, inherited_ns@));
            let children = root_children(events, events.len() as int);
            &&& r@.len() == children.len()
            &&& forall|i: int| 0 <= i < r@.len() ==> part_of(inner@, children[i], #[trigger] r@[i])
        }),
{
    let c = chars_of(inner);
    let t = trim_chars(c.as_slice());
    if t.len() == 0 {
        return Vec::new();
    }
    let mut wrapped = "<root ".to_owned();
    wrapped.append(inherited_ns);
    wrapped.append(">");
    wrapped.append(inner);
    wrapped.append("</root>");
    let ghost w = wrapped@;
    assert(w == wrapped_complement(inner@, inherited_ns@));
    let mut cursor = ns_xml_cursor(wrapped.as_str());
    let limit = wrapped.as_str().as_bytes().len();
    let mut events: Vec<XmlEvent> = Vec::new();
    let mut n: usize = 0;
    loop
        invariant_except_break
            n <= limit,
            limit == encode_utf8(w).len(),
            cursor.source() == w,
            cursor.count() == n,
            events@ + resolved_events_from(w, n as nat, limit as nat) == resolved_events(w),
        ensures
            events@ == resolved_events(w),
        decreases limit - n,
    {
        let ghost rest = resolved_events_from(w, n as nat, limit as nat);
        let event = read_resolved_event(&mut cursor);
        let stop = event.kind == XmlEventKind::Eof || event.kind == XmlEventKind::Error;
        let ghost old_events = events@;
        events.push(event);
        if stop || n >= limit {
            assert(rest =~= seq![xml_resolved_event(w, n as nat)]);
            assert(events@ =~= old_events + rest);
            break;
        }
        assert(rest =~= seq![xml_resolved_event(w, n as nat)] + resolved_events_from(
            w,
            (n + 1) as nat,
            limit as nat,
        ));
        assert(events@ + resolved_events_from(w, (n + 1) as nat, limit as nat) =~= old_events
            + rest);
        n += 1;
    }
    proof {
        if well_nested(events@) {
            lemma_parts_are_root_children(events@);
        }
    }
    complement_parts_with(inner, events.as_slice())
}

/// The complement a part stands for, given what reading its element gave (`decoded`): a part of
/// an unmodelled namespace is kept as `Unknown` with its text; a part whose reading failed is
/// kept as `Unknown` with `parse error: ` and the reason.
pub fn complement_item(part: &ComplementPart, decoded: Result<ComplementKind, String>) -> (r: ComplementKind)
    ensures
        part.kind == ComplementNamespace::Other ==> (r matches ComplementKind::Unknown { namespace, raw_xml }
            && namespace@ == part.namespace@ && raw_xml@ == part.element_xml@),
        part.kind != ComplementNamespace::Other ==> match decoded {
            Ok(k) => r == k,
            Err(m) => r matches ComplementKind::Unknown { namespace, raw_xml } && namespace@
                == part.namespace@ && raw_xml@ == "parse error: "@ + m@,
        },
{
    if part.kind == ComplementNamespace::Other {
        return ComplementKind::Unknown {
            namespace: part.namespace.clone(),
            raw_xml: part.element_xml.clone(),
        };
    }
    match decoded {
        Ok(k) => k,
        Err(m) => {
            let mut raw = "parse error: ".to_owned();
            raw.append(m.as_str());
            ComplementKind::Unknown { namespace: part.namespace.clone(), raw_xml: raw }
        },
    }
}

} // verus!
