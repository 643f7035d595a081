//! The decisions of the tax-status certificate (CSF) download: the single-sign-on hops, the
//! button that prepares the certificate and what the certificate request gives back.
use vstd::prelude::*;
use vstd::string::StrSliceExecFns;
use vstd::utf8::*;

use crate::cfdi::document::utf8_text;
use crate::satcrawler::crawler::CrawlerResponse;
use crate::text::{chars_of, contains_seq, decimal, decimal_text, find_chars};

verus! {

/// The domain of the certificate site, where the sign-on hops end.
pub const CERTIFICATE_DOMAIN: &'static str = "rfcampc.siat.sat.gob.mx";

/// How many sign-on forms are submitted at most in one round.
pub const SAML_FORM_ROUNDS: u32 = 3;

/// Whether `url` is on the certificate site.
pub fn on_certificate_site(url: &str) -> (r: bool)
    ensures
        r == contains_seq(url@, CERTIFICATE_DOMAIN@),
{
    let u = chars_of(url);
    let d = chars_of(CERTIFICATE_DOMAIN);
    find_chars(u.as_slice(), d.as_slice(), 0).is_some()
}

/// Whether the sign-on form of round `round` (from 0) is submitted: rounds stop after
/// `SAML_FORM_ROUNDS`, once the browser is on `target`, or when the page has no form.
pub fn submit_saml_form(round: u32, url: &str, target: &str, has_form: bool) -> (r: bool)
    ensures
        r == (round < SAML_FORM_ROUNDS && !contains_seq(url@, target@) && has_form),
{
    if round >= SAML_FORM_ROUNDS {
        return false;
    }
    let u = chars_of(url);
    let t = chars_of(target);
    if find_chars(u.as_slice(), t.as_slice(), 0).is_some() {
        return false;
    }
    has_form
}

/// The line logged before a sign-on form is submitted.
pub fn saml_form_message(label: &str, round: u32) -> (r: String)
    requires
        round < SAML_FORM_ROUNDS,
    ensures
        r@ == label@ + " SAML form "@ + decimal((round + 1) as nat) + " \u{2014} submitting"@,
{
    let mut r = label.to_owned();
    r.append(" SAML form ");
    let n = decimal_text((round + 1) as u64);
    r.append(n.as_str());
    r.append(" \u{2014} submitting");
    r
}

/// The address of the second sign-on hop: the frame's address, when the first round did not
/// reach the certificate site and the page has such a frame (a non-empty address).
pub fn iframe_hop(url: &str, iframe_src: &str) -> (r: Option<String>)
    ensures
        match r {
            Some(s) => s@ == iframe_src@ && !contains_seq(url@, CERTIFICATE_DOMAIN@)
                && iframe_src@.len() > 0,
            None => contains_seq(url@, CERTIFICATE_DOMAIN@) || iframe_src@.len() == 0,
        },
{
    if on_certificate_site(url) || iframe_src.unicode_len() == 0 {
        None
    } else {
        Some(iframe_src.to_owned())
    }
}

/// The selector of the button that prepares the certificate, from the id the page script found
/// (empty when there is no such button).
pub fn certificate_button_selector(button_id: &str) -> (r: Result<String, String>)
    ensures
        button_id@.len() == 0 ==> (r matches Err(e) && e@
            == "CSF: 'Generar Constancia' button not found on formReimpAcuse"@),
        button_id@.len() > 0 ==> (r matches Ok(s) && s@ == "[id='"@ + button_id@ + "']"@),
{
    if button_id.unicode_len() == 0 {
        return Err("CSF: 'Generar Constancia' button not found on formReimpAcuse".to_owned());
    }
    let mut s = "[id='".to_owned();
    s.append(button_id);
    s.append("']");
    Ok(s)
}

/// Whether `bytes` start with the PDF signature `%PDF`.
pub open spec fn pdf_signature(bytes: Seq<u8>) -> bool {
    bytes.len() >= 4 && bytes[0] == 0x25u8 && bytes[1] == 0x50u8 && bytes[2] == 0x44u8 && bytes[3]
        == 0x46u8
}

/// Whether `bytes` start with the PDF signature `%PDF`.
pub fn is_pdf(bytes: &[u8]) -> (r: bool)
    ensures
        r == pdf_signature(bytes@),
{
    bytes.len() >= 4 && bytes[0] == 0x25u8 && bytes[1] == 0x50u8 && bytes[2] == 0x44u8 && bytes[3]
        == 0x46u8
}

/// The first `n` bytes of `bytes` (all of them when there are fewer).
pub open spec fn head(bytes: Seq<u8>, n: nat) -> Seq<u8> {
    if bytes.len() <= n {
        bytes
    } else {
        bytes.subrange(0, n as int)
    }
}

/// The text shown for the start of a response that is not a PDF: its first 60 bytes as UTF-8
/// text, or `(binary)` when they are not UTF-8.
pub open spec fn first_chars(bytes: Seq<u8>) -> Seq<char> {
    if valid_utf8(head(bytes, 60)) {
        decode_utf8(head(bytes, 60))
    } else {
        "(binary)"@
    }
}

/// The certificate from the response to its request: the response must succeed (`status` is
/// the status as text) and hold a PDF.
pub fn certificate_pdf(success: bool, status: &str, bytes: Vec<u8>) -> (r: Result<Vec<u8>, String>)
    ensures
        !success ==> (r matches Err(e) && e@ == "CSF: PDF request failed with status "@ + status@),
        success && !pdf_signature(bytes@) ==> (r matches Err(e) && e@
            == "CSF: response is not a PDF (first chars: "@ + first_chars(bytes@) + ")"@),
        success && pdf_signature(bytes@) ==> r == Ok::<Vec<u8>, String>(bytes),
{
    if !success {
        let mut e = "CSF: PDF request failed with status ".to_owned();
        e.append(status);
        return Err(e);
    }
    if is_pdf(bytes.as_slice()) {
        return Ok(bytes);
    }
    let n = if bytes.len() < 60 {
        bytes.len()
    } else {
        60
    };
    let first = crate::text::byte_prefix(bytes.as_slice(), n);
    assert(first@ == head(bytes@, 60));
    let shown = match utf8_text(first.as_slice()) {
        Ok(t) => {
            proof {
                encode_utf8_decode_utf8(t@);
            }
            t
        },
        Err(_) => "(binary)".to_owned(),
    };
    let mut e = "CSF: response is not a PDF (first chars: ".to_owned();
    e.append(shown.as_str());
    e.append(")");
    Err(e)
}

/// The response of a certificate download: handed to the handler (`saved_to` is `None`), or
/// saved at `saved_to`.
pub fn certificate_response(saved_to: Option<String>) -> (r: CrawlerResponse)
    ensures
        r.success,
        match saved_to {
            None => r.message@ == "CSF PDF delivered to handler"@,
            Some(dest) => r.message@ == "CSF saved to "@ + dest@,
        },
{
    match saved_to {
        None => CrawlerResponse { success: true, message: "CSF PDF delivered to handler".to_owned() },
        Some(dest) => {
            let mut m = "CSF saved to ".to_owned();
            m.append(dest.as_str());
            CrawlerResponse { success: true, message: m }
        },
    }
}

} // verus!
