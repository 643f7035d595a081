//! The decisions of an invoice download on the SAT portal: which rows to read, the download
//! tokens, the addresses and scripts to use, and what each download result becomes.
use vstd::prelude::*;

use crate::satcrawler::constants::{RECOVER_CFDI_URL, SAT_PORTAL_BASE_URL};
use crate::satcrawler::events::{Invoice, InvoiceEvent};
use crate::text::{
    chars_of, contains_seq, decimal, decimal_text, find_chars, find_first, find_from,
    lemma_find_from_bounds, lemma_find_from_first, occurs_at, substring_of,
};

verus! {

// ── Download tokens ─────────────────────────────────────────────────────────

/// The token after `RecuperaCfdi.aspx?Datos=` in an `onclick` handler, up to the next `'`.
pub open spec fn xml_token(onclick: Seq<char>) -> Option<Seq<char>> {
    let prefix = "RecuperaCfdi.aspx?Datos="@;
    match find_first(onclick, prefix) {
        None => None,
        Some(i) => match find_from(onclick, seq!['\''], i + prefix.len()) {
            Some(j) => Some(onclick.subrange(i + prefix.len(), j)),
            None => None,
        },
    }
}

/// The text between the first two `'` of an `onclick` handler.
pub open spec fn pdf_token(onclick: Seq<char>) -> Option<Seq<char>> {
    match find_first(onclick, seq!['\'']) {
        None => None,
        Some(i) => match find_from(onclick, seq!['\''], i + 1) {
            Some(j) => Some(onclick.subrange(i + 1, j)),
            None => None,
        },
    }
}

/// The XML token is what follows the first `RecuperaCfdi.aspx?Datos=` up to the next quote: when
/// one is found, the handler holds the prefix, the token and a quote in a row, and the token holds
/// no quote.
pub proof fn lemma_xml_token_framed(onclick: Seq<char>)
    ensures
        xml_token(onclick) matches Some(t) ==> token_framed(onclick, "RecuperaCfdi.aspx?Datos="@, t),
{
    let prefix = "RecuperaCfdi.aspx?Datos="@;
    lemma_find_from_bounds(onclick, prefix, 0);
    if let Some(i) = find_first(onclick, prefix) {
        let from = i + prefix.len();
        lemma_find_from_bounds(onclick, seq!['\''], from);
        lemma_find_from_first(onclick, seq!['\''], from);
        if let Some(j) = find_from(onclick, seq!['\''], from) {
            let t = onclick.subrange(from, j);
            let framed = prefix + t + seq!['\''];
            assert(onclick.subrange(i, i + framed.len()) =~= framed) by {
                assert(onclick.subrange(i, i + prefix.len()) == prefix);
                assert(onclick.subrange(j, j + 1) == seq!['\'']);
            }
            assert(occurs_at(onclick, framed, i));
            assert forall|k: int| 0 <= k < t.len() implies t[k] != '\'' by {
                assert(!occurs_at(onclick, seq!['\''], from + k));
                assert(onclick.subrange(from + k, from + k + 1) =~= seq![t[k]]);
            }
            assert(xml_token(onclick) == Some(t));
            assert(token_framed(onclick, prefix, t));
        }
    }
}

/// Whether `onclick` holds `opening`, the token `t` and a quote in a row, and `t` holds no
/// quote.
pub open spec fn token_framed(onclick: Seq<char>, opening: Seq<char>, t: Seq<char>) -> bool {
    &&& exists|i: int| #[trigger] occurs_at(onclick, opening + t + seq!['\''], i)
    &&& forall|k: int| 0 <= k < t.len() ==> t[k] != '\''
}

/// The PDF token is the text between the first two quotes of the handler: when one is found, the
/// handler holds a quote, the token and a quote in a row, the token holds no quote, and no quote
/// comes before that first one.
pub proof fn lemma_pdf_token_framed(onclick: Seq<char>)
    ensures
        pdf_token(onclick) matches Some(t) ==> token_framed(onclick, seq!['\''], t) && exists|i: int|
            #[trigger] occurs_at(onclick, seq!['\''] + t + seq!['\''], i) && forall|k: int|
                0 <= k < i ==> onclick[k] != '\'',
{
    lemma_find_from_bounds(onclick, seq!['\''], 0);
    lemma_find_from_first(onclick, seq!['\''], 0);
    if let Some(i) = find_first(onclick, seq!['\'']) {
        lemma_find_from_bounds(onclick, seq!['\''], i + 1);
        lemma_find_from_first(onclick, seq!['\''], i + 1);
        if let Some(j) = find_from(onclick, seq!['\''], i + 1) {
            let t = onclick.subrange(i + 1, j);
            let framed = seq!['\''] + t + seq!['\''];
            assert(onclick.subrange(i, i + framed.len()) =~= framed) by {
                assert(onclick.subrange(i, i + 1) == seq!['\'']);
                assert(onclick.subrange(j, j + 1) == seq!['\'']);
            }
            assert(occurs_at(onclick, framed, i));
            assert forall|k: int| 0 <= k < i implies onclick[k] != '\'' by {
                assert(!occurs_at(onclick, seq!['\''], k));
                assert(onclick.subrange(k, k + 1) =~= seq![onclick[k]]);
            }
            assert forall|k: int| 0 <= k < t.len() implies t[k] != '\'' by {
                assert(!occurs_at(onclick, seq!['\''], i + 1 + k));
                assert(onclick.subrange(i + 1 + k, i + 1 + k + 1) =~= seq![t[k]]);
            }
            assert(pdf_token(onclick) == Some(t));
            assert(token_framed(onclick, seq!['\''], t));
        }
    }
}

/// Whether `r` holds the text `s` holds, or both are absent.
pub open spec fn same_text(r: Option<String>, s: Option<Seq<char>>) -> bool {
    match (r, s) {
        (Some(a), Some(b)) => a@ == b,
        (None, None) => true,
        _ => false,
    }
}

/// The XML download token of an invoice row's download button.
pub fn extract_xml_token(onclick: &str) -> (r: Option<String>)
    ensures
        same_text(r, xml_token(onclick@)),
{
    let c = chars_of(onclick);
    let prefix = chars_of("RecuperaCfdi.aspx?Datos=");
    let quote = chars_of("'");
    assert(quote@ =~= seq!['\'']) by {
        reveal_strlit("'");
    }
    proof {
        lemma_find_from_bounds(onclick@, "RecuperaCfdi.aspx?Datos="@, 0);
    }
    let i = match find_chars(c.as_slice(), prefix.as_slice(), 0) {
        Some(i) => i,
        None => {
            return None;
        },
    };
    let n = c.len();
    assert(occurs_at(c@, prefix@, i as int) && i + prefix@.len() <= n);
    assert(find_first(onclick@, "RecuperaCfdi.aspx?Datos="@) == Some(i as int));
    let start = i + prefix.len();
    proof {
        lemma_find_from_bounds(onclick@, seq!['\''], start as int);
    }
    match find_chars(c.as_slice(), quote.as_slice(), start) {
        Some(j) => {
            assert(start <= j && occurs_at(c@, quote@, j as int));
            Some(substring_of(c.as_slice(), start, j))
        },
        None => None,
    }
}

/// The PDF download token of an invoice row's button: the text between its first two `'`.
pub fn extract_pdf_token(onclick: &str) -> (r: Option<String>)
    ensures
        same_text(r, pdf_token(onclick@)),
{
    let c = chars_of(onclick);
    let quote = chars_of("'");
    assert(quote@ =~= seq!['\'']) by {
        reveal_strlit("'");
    }
    proof {
        lemma_find_from_bounds(onclick@, seq!['\''], 0);
    }
    let i = match find_chars(c.as_slice(), quote.as_slice(), 0) {
        Some(i) => i,
        None => {
            return None;
        },
    };
    let n = c.len();
    assert(occurs_at(c@, quote@, i as int) && i + 1 <= n);
    assert(find_first(onclick@, seq!['\'']) == Some(i as int));
    let start = i + 1;
    proof {
        lemma_find_from_bounds(onclick@, seq!['\''], start as int);
    }
    match find_chars(c.as_slice(), quote.as_slice(), start) {
        Some(j) => {
            assert(start <= j && occurs_at(c@, quote@, j as int));
            Some(substring_of(c.as_slice(), start, j))
        },
        None => None,
    }
}

/// The address that serves an invoice's XML for a download token.
pub fn recover_cfdi_url(token: &str) -> (r: String)
    ensures
        r@ == RECOVER_CFDI_URL@ + "?Datos="@ + token@,
{
    let mut r = RECOVER_CFDI_URL.to_owned();
    r.append("?Datos=");
    r.append(token);
    r
}

/// The address of a printed representation, from the relative address the portal returns.
pub fn printed_representation_url(relative: &str) -> (r: String)
    ensures
        r@ == SAT_PORTAL_BASE_URL@ + "/"@ + relative@,
{
    let mut r = SAT_PORTAL_BASE_URL.to_owned();
    r.append("/");
    r.append(relative);
    r
}

// ── The HTTP session ────────────────────────────────────────────────────────

/// `name=value`.
pub open spec fn cookie_pair(c: (String, String)) -> Seq<char> {
    c.0@ + "="@ + c.1@
}

/// The cookies as a `Cookie` header: `name=value` pairs joined by `; `.
pub open spec fn cookie_header_text(cookies: Seq<(String, String)>) -> Seq<char>
    decreases cookies.len(),
{
    if cookies.len() == 0 {
        Seq::empty()
    } else if cookies.len() == 1 {
        cookie_pair(cookies[0])
    } else {
        cookie_header_text(cookies.drop_last()) + "; "@ + cookie_pair(cookies.last())
    }
}

/// The `Cookie` header that carries the browser session's cookies (name, value) to the HTTP
/// client.
pub fn cookie_header(cookies: &[(String, String)]) -> (r: String)
    ensures
        r@ == cookie_header_text(cookies@),
{
    let mut r = String::new();
    let n = cookies.len();
    let mut i: usize = 0;
    assert(cookies@.take(0) =~= Seq::<(String, String)>::empty());
    while i < n
        invariant
            n == cookies@.len(),
            i <= n,
            r@ == cookie_header_text(cookies@.take(i as int)),
        decreases n - i,
    {
        assert(cookies@.take(i + 1).drop_last() =~= cookies@.take(i as int));
        assert(cookies@.take(i + 1).last() == cookies@[i as int]);
        if i > 0 {
            r.append("; ");
        } else {
            assert(cookies@.take(1) =~= seq![cookies@[0]]);
        }
        r.append(cookies[i].0.as_str());
        r.append("=");
        r.append(cookies[i].1.as_str());
        i += 1;
    }
    assert(cookies@.take(n as int) =~= cookies@);
    r
}

// ── Result pages and rows ───────────────────────────────────────────────────

/// How many result pages to walk when the pager shows `found` page links: at least one.
pub fn pages_to_visit(found: u64) -> (r: u64)
    ensures
        r == (if found > 1 { found } else { 1 }),
{
    if found > 1 {
        found
    } else {
        1
    }
}

/// Whether a row's style hides it.
pub open spec fn hidden_style(style: Seq<char>) -> bool {
    contains_seq(style, "display: none"@) || contains_seq(style, "display:none"@)
}

/// Whether a row's style hides it.
pub fn row_is_hidden(style: &str) -> (r: bool)
    ensures
        r == hidden_style(style@),
{
    let s = chars_of(style);
    let a = chars_of("display: none");
    let b = chars_of("display:none");
    find_chars(s.as_slice(), a.as_slice(), 0).is_some() || find_chars(
        s.as_slice(),
        b.as_slice(),
        0,
    ).is_some()
}

/// Whether a result row is read: it is shown and has all thirteen cells.
pub fn row_is_readable(style: &str, cell_count: usize) -> (r: bool)
    ensures
        r == (!hidden_style(style@) && cell_count >= 13),
{
    !row_is_hidden(style) && cell_count >= 13
}

/// The invoice a result row lists: the UUID from its first cell, the rest from the text of the
/// following cells (the eighth and eleventh are not used).
pub fn invoice_from_cells(uuid: String, cells: &[String]) -> (r: Invoice)
    requires
        cells@.len() >= 13,
    ensures
        r.uuid == uuid,
        r.fiscal_id == cells@[1],
        r.issuer_tax_id == cells@[2],
        r.issuer_name == cells@[3],
        r.receiver_tax_id == cells@[4],
        r.receiver_name == cells@[5],
        r.issued_at == cells@[6],
        r.certified_at == cells@[7],
        r.total == cells@[9],
        r.invoice_type == cells@[10],
        r.invoice_status == cells@[12],
{
    Invoice {
        uuid,
        fiscal_id: cells[1].clone(),
        issuer_tax_id: cells[2].clone(),
        issuer_name: cells[3].clone(),
        receiver_tax_id: cells[4].clone(),
        receiver_name: cells[5].clone(),
        issued_at: cells[6].clone(),
        certified_at: cells[7].clone(),
        total: cells[9].clone(),
        invoice_type: cells[10].clone(),
        invoice_status: cells[12].clone(),
    }
}

/// The line logged for an invoice found in the results.
pub open spec fn invoice_summary_text(i: Invoice) -> Seq<char> {
    "Invoice "@ + i.uuid@ + " | "@ + i.fiscal_id@ + " | "@ + i.issuer_tax_id@ + " | "@
        + i.issuer_name@ + " -> "@ + i.receiver_tax_id@ + " | "@ + i.receiver_name@ + " | "@
        + i.issued_at@ + " | "@ + i.certified_at@ + " | "@ + i.total@ + " | "@ + i.invoice_type@
        + " | "@ + i.invoice_status@
}

/// The line logged for an invoice found in the results.
pub fn invoice_summary(i: &Invoice) -> (r: String)
    ensures
        r@ == invoice_summary_text(*i),
{
    let mut r = "Invoice ".to_owned();
    r.append(i.uuid.as_str());
    r.append(" | ");
    r.append(i.fiscal_id.as_str());
    r.append(" | ");
    r.append(i.issuer_tax_id.as_str());
    r.append(" | ");
    r.append(i.issuer_name.as_str());
    r.append(" -> ");
    r.append(i.receiver_tax_id.as_str());
    r.append(" | ");
    r.append(i.receiver_name.as_str());
    r.append(" | ");
    r.append(i.issued_at.as_str());
    r.append(" | ");
    r.append(i.certified_at.as_str());
    r.append(" | ");
    r.append(i.total.as_str());
    r.append(" | ");
    r.append(i.invoice_type.as_str());
    r.append(" | ");
    r.append(i.invoice_status.as_str());
    r
}

/// The document a download fetches.
#[derive(Debug, Clone, Copy, PartialEq, Eq, Structural)]
pub enum DocumentKind {
    Xml,
    Pdf,
}

pub open spec fn kind_label(kind: DocumentKind) -> Seq<char> {
    match kind {
        DocumentKind::Xml => "XML"@,
        DocumentKind::Pdf => "PDF"@,
    }
}

/// What a download result becomes: an event for the handler, or an error line for the log.
#[derive(Debug, Clone)]
pub enum DownloadOutcome {
    Emit(InvoiceEvent),
    LogError(String),
}

/// What a row's download becomes: the downloaded content is handed on as an event; a failed
/// download, or a row without a token (`None`), is logged.
pub fn download_outcome(
    kind: DocumentKind,
    invoice: Invoice,
    result: Option<Result<Vec<u8>, String>>,
) -> (r: DownloadOutcome)
    ensures
        match result {
            Some(Ok(content)) => match kind {
                DocumentKind::Xml => r == DownloadOutcome::Emit(
                    InvoiceEvent::XmlDownloaded { invoice, content },
                ),
                DocumentKind::Pdf => r == DownloadOutcome::Emit(
                    InvoiceEvent::PdfDownloaded { invoice, content },
                ),
            },
            Some(Err(e)) => r matches DownloadOutcome::LogError(m) && m@ == kind_label(kind)
                + " download failed for "@ + invoice.uuid@ + ": "@ + e@,
            None => r matches DownloadOutcome::LogError(m) && m@ == "No "@ + kind_label(kind)
                + " token found for "@ + invoice.uuid@,
        },
{
    let label = match kind {
        DocumentKind::Xml => "XML",
        DocumentKind::Pdf => "PDF",
    };
    match result {
        Some(Ok(content)) => match kind {
            DocumentKind::Xml => DownloadOutcome::Emit(
                InvoiceEvent::XmlDownloaded { invoice, content },
            ),
            DocumentKind::Pdf => DownloadOutcome::Emit(
                InvoiceEvent::PdfDownloaded { invoice, content },
            ),
        },
        Some(Err(e)) => {
            let mut m = label.to_owned();
            m.append(" download failed for ");
            m.append(invoice.uuid.as_str());
            m.append(": ");
            m.append(e.as_str());
            DownloadOutcome::LogError(m)
        },
        None => {
            let mut m = "No ".to_owned();
            m.append(label);
            m.append(" token found for ");
            m.append(invoice.uuid.as_str());
            DownloadOutcome::LogError(m)
        },
    }
}

/// The log line and event of an invoice the decider chose not to download.
pub fn skip_outcome(invoice: Invoice) -> (r: (String, InvoiceEvent))
    ensures
        r.0@ == "Skipping invoice "@ + invoice.uuid@ + " (already exists)"@,
        r.1 == (InvoiceEvent::Skipped { invoice }),
{
    let mut m = "Skipping invoice ".to_owned();
    m.append(invoice.uuid.as_str());
    m.append(" (already exists)");
    (m, InvoiceEvent::Skipped { invoice })
}

// ── Page scripts ────────────────────────────────────────────────────────────

/// The script that clicks a date field and sets its text.
pub fn date_field_script(text_selector: &str, value: &str) -> (r: String)
    ensures
        r@ == "{ const e = document.querySelector('"@ + text_selector@
            + "'); e.click(); e.value = '"@ + value@ + "'; }"@,
{
    let mut r = "{ const e = document.querySelector('".to_owned();
    r.append(text_selector);
    r.append("'); e.click(); e.value = '");
    r.append(value);
    r.append("'; }");
    r
}

/// The script that sets the value of the element `selector` selects.
pub fn set_value_script(selector: &str, value: &str) -> (r: String)
    ensures
        r@ == "document.querySelector('"@ + selector@ + "').value = '"@ + value@ + "'"@,
{
    let mut r = "document.querySelector('".to_owned();
    r.append(selector);
    r.append("').value = '");
    r.append(value);
    r.append("'");
    r
}

/// The script that picks the year of the received-invoices search.
pub fn year_script(year: u32) -> (r: String)
    ensures
        r@ == "document.querySelector('#DdlAnio').value = '"@ + decimal(year as nat)
            + "'; ValidateYear();"@,
{
    let mut r = "document.querySelector('#DdlAnio').value = '".to_owned();
    let y = decimal_text(year as u64);
    r.append(y.as_str());
    r.append("'; ValidateYear();");
    r
}

/// The script that picks the month of the received-invoices search.
pub fn month_script(month: u32) -> (r: String)
    ensures
        r@ == "document.querySelector('#ctl00_MainContent_CldFecha_DdlMes').value = '"@
            + decimal(month as nat) + "'; asignaDia();"@,
{
    let mut r = "document.querySelector('#ctl00_MainContent_CldFecha_DdlMes').value = '".to_owned();
    let m = decimal_text(month as u64);
    r.append(m.as_str());
    r.append("'; asignaDia();");
    r
}

/// The script that shows a page of the results.
pub fn pager_script(page: u64) -> (r: String)
    ensures
        r@ == "pager.showPage("@ + decimal(page as nat) + ")"@,
{
    let mut r = "pager.showPage(".to_owned();
    let p = decimal_text(page);
    r.append(p.as_str());
    r.append(")");
    r
}

} // verus!
