//! Signing in to the SAT sites and retrying failed steps: where each sign-in starts, how its
//! outcome is read from the page it lands on, and when a failed step is tried again.
use vstd::prelude::*;

use crate::satcrawler::config::{Credentials, LoginType};
use crate::satcrawler::constants::{CSF_FIEL_LOGIN_URL, CSF_LOGIN_URL, LOGIN_URL};
use crate::text::{chars_of, contains_seq, lemma_contains_seq_occurs, occurs_at, decimal, decimal_text, find_chars};

verus! {

// ── Sign-in flows ───────────────────────────────────────────────────────────

/// The site a crawl signs in to.
#[derive(Debug, Clone, Copy, PartialEq, Eq, Structural)]
pub enum Site {
    /// The invoice portal (portalcfdi).
    InvoicePortal,
    /// The tax-status certificate site (CSF).
    TaxStatus,
}

/// One of the four sign-in forms: a site, with password (CIEC) or electronic signature (FIEL).
#[derive(Debug, Clone, Copy, PartialEq, Eq, Structural)]
pub enum LoginFlow {
    Portal,
    PortalFiel,
    TaxStatus,
    TaxStatusFiel,
}

/// The sign-in form of a site for a login type.
pub fn login_flow(site: Site, login_type: LoginType) -> (r: LoginFlow)
    ensures
        r == (match (site, login_type) {
            (Site::InvoicePortal, LoginType::Ciec) => LoginFlow::Portal,
            (Site::InvoicePortal, LoginType::Fiel) => LoginFlow::PortalFiel,
            (Site::TaxStatus, LoginType::Ciec) => LoginFlow::TaxStatus,
            (Site::TaxStatus, LoginType::Fiel) => LoginFlow::TaxStatusFiel,
        }),
{
    match (site, login_type) {
        (Site::InvoicePortal, LoginType::Ciec) => LoginFlow::Portal,
        (Site::InvoicePortal, LoginType::Fiel) => LoginFlow::PortalFiel,
        (Site::TaxStatus, LoginType::Ciec) => LoginFlow::TaxStatus,
        (Site::TaxStatus, LoginType::Fiel) => LoginFlow::TaxStatusFiel,
    }
}

/// Whether a flow signs in with the electronic signature.
pub open spec fn uses_fiel(flow: LoginFlow) -> bool {
    flow == LoginFlow::PortalFiel || flow == LoginFlow::TaxStatusFiel
}

/// Whether a flow signs in with the electronic signature.
pub fn signs_with_fiel(flow: LoginFlow) -> (r: bool)
    ensures
        r == uses_fiel(flow),
{
    match flow {
        LoginFlow::PortalFiel | LoginFlow::TaxStatusFiel => true,
        LoginFlow::Portal | LoginFlow::TaxStatus => false,
    }
}

/// The selectors of the username (RFC) and password fields of a password sign-in form.
pub fn credential_fields(flow: LoginFlow) -> (r: (&'static str, &'static str))
    requires
        !uses_fiel(flow),
    ensures
        flow == LoginFlow::Portal ==> r.0@ == "#rfc"@ && r.1@ == "input#password"@,
        flow == LoginFlow::TaxStatus ==> r.0@ == "input[name='Ecom_User_ID']"@ && r.1@
            == "input[name='Ecom_Password']"@,
{
    match flow {
        LoginFlow::Portal => ("#rfc", "input#password"),
        _ => ("input[name='Ecom_User_ID']", "input[name='Ecom_Password']"),
    }
}

/// The page a sign-in starts on.
pub fn login_start_url(flow: LoginFlow) -> (r: &'static str)
    ensures
        r@ == (match flow {
            LoginFlow::Portal => LOGIN_URL@,
            LoginFlow::PortalFiel => LOGIN_URL@,
            LoginFlow::TaxStatus => CSF_LOGIN_URL@,
            LoginFlow::TaxStatusFiel => CSF_FIEL_LOGIN_URL@,
        }),
{
    match flow {
        LoginFlow::Portal => LOGIN_URL,
        LoginFlow::PortalFiel => LOGIN_URL,
        LoginFlow::TaxStatus => CSF_LOGIN_URL,
        LoginFlow::TaxStatusFiel => CSF_FIEL_LOGIN_URL,
    }
}

/// Whether the address the browser lands on after submitting the form shows a signed-in
/// session: the portal is reached, or the tax-status sign-in page is left.
pub open spec fn signed_in(flow: LoginFlow, url: Seq<char>) -> bool {
    match flow {
        LoginFlow::Portal | LoginFlow::PortalFiel => contains_seq(
            url,
            "portalcfdi.facturaelectronica.sat.gob.mx"@,
        ),
        LoginFlow::TaxStatus => !contains_seq(url, "/nidp/app/login"@),
        LoginFlow::TaxStatusFiel => !contains_seq(url, "login.siat.sat.gob.mx/nidp"@),
    }
}

/// A sign-in is judged by the address the browser lands on: the invoice-portal forms (password
/// or electronic signature) succeed exactly when the portal's host
/// `portalcfdi.facturaelectronica.sat.gob.mx` occurs in it, so any other address, such as
/// another SAT host's sign-in page, is a failure; the tax-status password form succeeds exactly
/// when `/nidp/app/login` occurs nowhere in it, and the tax-status signature form exactly when
/// `login.siat.sat.gob.mx/nidp` occurs nowhere in it.
pub proof fn lemma_sign_in_judged_by_address(url: Seq<char>)
    ensures
        signed_in(LoginFlow::Portal, url) <==> exists|i: int| #[trigger] occurs_at(
            url,
            "portalcfdi.facturaelectronica.sat.gob.mx"@,
            i,
        ),
        signed_in(LoginFlow::PortalFiel, url) <==> exists|i: int| #[trigger] occurs_at(
            url,
            "portalcfdi.facturaelectronica.sat.gob.mx"@,
            i,
        ),
        signed_in(LoginFlow::TaxStatus, url) <==> !exists|i: int| #[trigger] occurs_at(
            url,
            "/nidp/app/login"@,
            i,
        ),
        signed_in(LoginFlow::TaxStatusFiel, url) <==> !exists|i: int| #[trigger] occurs_at(
            url,
            "login.siat.sat.gob.mx/nidp"@,
            i,
        ),
{
    lemma_contains_seq_occurs(url, "portalcfdi.facturaelectronica.sat.gob.mx"@);
    lemma_contains_seq_occurs(url, "/nidp/app/login"@);
    lemma_contains_seq_occurs(url, "login.siat.sat.gob.mx/nidp"@);
}

/// Whether the sign-in succeeded, judged by the address the browser landed on.
pub fn login_succeeded(flow: LoginFlow, url: &str) -> (r: bool)
    ensures
        r == signed_in(flow, url@),
{
    let u = chars_of(url);
    match flow {
        LoginFlow::Portal | LoginFlow::PortalFiel => {
            let p = chars_of("portalcfdi.facturaelectronica.sat.gob.mx");
            find_chars(u.as_slice(), p.as_slice(), 0).is_some()
        },
        LoginFlow::TaxStatus => {
            let p = chars_of("/nidp/app/login");
            find_chars(u.as_slice(), p.as_slice(), 0).is_none()
        },
        LoginFlow::TaxStatusFiel => {
            let p = chars_of("login.siat.sat.gob.mx/nidp");
            find_chars(u.as_slice(), p.as_slice(), 0).is_none()
        },
    }
}

/// The selector of the element that holds a failed sign-in's message.
pub fn error_element_selector(flow: LoginFlow) -> (r: &'static str)
    ensures
        r@ == (if uses_fiel(flow) { "#divError"@ } else { "#msgError"@ }),
{
    match flow {
        LoginFlow::PortalFiel | LoginFlow::TaxStatusFiel => "#divError",
        LoginFlow::Portal | LoginFlow::TaxStatus => "#msgError",
    }
}

/// The error of a failed sign-in, from the text of the page's error element (`None` when the
/// element or its text could not be read).
pub open spec fn login_failure_text(flow: LoginFlow, page_error: Option<Seq<char>>) -> Seq<char> {
    let shown = match page_error {
        Some(t) => t,
        None => if flow == LoginFlow::Portal {
            "Unkown error"@
        } else {
            "Unknown error"@
        },
    };
    match flow {
        LoginFlow::Portal => "Login failed with message: "@ + shown,
        LoginFlow::PortalFiel => "FIEL login failed: "@ + shown,
        LoginFlow::TaxStatus => "CSF login failed: "@ + shown,
        LoginFlow::TaxStatusFiel => "CSF FIEL login failed: "@ + shown,
    }
}

/// A failed sign-in reports the page's own error text, when there is one, at the end of its
/// message, after a prefix that names the form; without one, it reports an unknown error.
pub proof fn lemma_login_failure_reports_page_error(flow: LoginFlow, page_error: Option<Seq<char>>)
    ensures
        page_error matches Some(t) ==> login_failure_text(flow, page_error).len() >= t.len()
            && login_failure_text(flow, page_error).subrange(
            login_failure_text(flow, page_error).len() - t.len(),
            login_failure_text(flow, page_error).len() as int,
        ) == t,
        page_error is None ==> login_failure_text(flow, page_error) == login_failure_text(
            flow,
            Some(if flow == LoginFlow::Portal { "Unkown error"@ } else { "Unknown error"@ }),
        ),
{
    if let Some(t) = page_error {
        let m = login_failure_text(flow, page_error);
        assert(m.subrange(m.len() - t.len(), m.len() as int) =~= t);
    }
}

/// The text of `s`, if any.
pub open spec fn text_of(s: Option<String>) -> Option<Seq<char>> {
    match s {
        Some(t) => Some(t@),
        None => None,
    }
}

/// The error of a failed sign-in.
pub fn login_failure(flow: LoginFlow, page_error: Option<String>) -> (r: String)
    ensures
        r@ == login_failure_text(flow, text_of(page_error)),
{
    let shown = match page_error {
        Some(t) => t,
        None => match flow {
            LoginFlow::Portal => "Unkown error".to_owned(),
            _ => "Unknown error".to_owned(),
        },
    };
    let mut r = match flow {
        LoginFlow::Portal => "Login failed with message: ".to_owned(),
        LoginFlow::PortalFiel => "FIEL login failed: ".to_owned(),
        LoginFlow::TaxStatus => "CSF login failed: ".to_owned(),
        LoginFlow::TaxStatusFiel => "CSF FIEL login failed: ".to_owned(),
    };
    r.append(shown.as_str());
    r
}

/// The certificate and key paths an electronic-signature sign-in uploads; the certificate is
/// checked first.
pub fn fiel_files(credentials: &Credentials) -> (r: Result<(String, String), String>)
    ensures
        match (credentials.crt_path, credentials.key_path) {
            (Some(c), Some(k)) => r == Ok::<(String, String), String>((c, k)),
            (None, _) => r matches Err(e) && e@ == "FIEL login requires a certificate path"@,
            (Some(_), None) => r matches Err(e) && e@ == "FIEL login requires a key path"@,
        },
{
    let crt = match &credentials.crt_path {
        Some(c) => c.clone(),
        None => {
            return Err("FIEL login requires a certificate path".to_owned());
        },
    };
    let key = match &credentials.key_path {
        Some(k) => k.clone(),
        None => {
            return Err("FIEL login requires a key path".to_owned());
        },
    };
    Ok((crt, key))
}

/// `s` with every non-overlapping occurrence of `pat` removed, scanning from the left (what
/// `str::replace` with an empty replacement gives).
pub open spec fn without_all(s: Seq<char>, pat: Seq<char>) -> Seq<char>
    recommends
        pat.len() > 0,
    decreases s.len(),
{
    if s.len() == 0 || pat.len() == 0 {
        s
    } else if s.len() >= pat.len() && s.subrange(0, pat.len() as int) == pat {
        without_all(s.subrange(pat.len() as int, s.len() as int), pat)
    } else {
        seq![s[0]] + without_all(s.subrange(1, s.len() as int), pat)
    }
}

/// The base64 text of the captcha image whose `src` is given (a `data:` address): the `src`
/// with every `data:image/jpeg;base64,` removed.
pub fn captcha_base64(src: &str) -> (r: String)
    ensures
        r@ == without_all(src@, "data:image/jpeg;base64,"@),
{
    let s = chars_of(src);
    let p = chars_of("data:image/jpeg;base64,");
    proof {
        reveal_strlit("data:image/jpeg;base64,");
    }
    let n = s.len();
    let m = p.len();
    let mut out: Vec<char> = Vec::new();
    let mut i: usize = 0;
    assert(s@.subrange(0, n as int) =~= s@);
    assert(out@ + without_all(s@, p@) =~= without_all(s@, p@));
    while i < n
        invariant
            n == s@.len(),
            m == p@.len(),
            m > 0,
            i <= n,
            out@ + without_all(s@.subrange(i as int, n as int), p@) == without_all(s@, p@),
        decreases n - i,
    {
        let ghost rest = s@.subrange(i as int, n as int);
        if m <= n - i && crate::text::occurs_at_exec(s.as_slice(), p.as_slice(), i) {
            assert(rest.subrange(0, m as int) =~= s@.subrange(i as int, i + m));
            assert(rest.subrange(m as int, rest.len() as int) =~= s@.subrange(i + m, n as int));
            i = i + m;
        } else {
            assert(rest.len() < m || rest.subrange(0, m as int) != p@) by {
                if rest.len() >= m {
                    assert(rest.subrange(0, m as int) =~= s@.subrange(i as int, i + m));
                }
            }
            assert(rest.subrange(1, rest.len() as int) =~= s@.subrange(i + 1, n as int));
            assert(out@.push(s@[i as int]) + without_all(s@.subrange(i + 1, n as int), p@)
                =~= out@ + (seq![rest[0]] + without_all(rest.subrange(1, rest.len() as int), p@)));
            out.push(s[i]);
            i = i + 1;
        }
    }
    assert(out@ =~= without_all(s@, p@)) by {
        assert(s@.subrange(n as int, n as int).len() == 0);
    }
    crate::text::string_of(out.as_slice())
}

/// What standard base64 (with padding) decodes `text` to, when `text` is valid base64.
pub uninterp spec fn base64_decoded(text: Seq<char>) -> Option<Seq<u8>>;

/// The message of the error standard base64 decoding gives for `text` (its `DecodeError` as
/// text), when `text` is not valid base64.
pub uninterp spec fn base64_error_text(text: Seq<char>) -> Seq<char>;

/// Decodes `text` with `base64::engine::general_purpose::STANDARD` (`Engine::decode`). The
/// contract ties the outcome to the name `base64_decoded` of the text: success exactly when the
/// name holds bytes, and then those bytes; the error's message (the `DecodeError`'s display
/// text) is named by `base64_error_text`. Which texts are valid base64 is left to the names.
#[verifier::external_body]
fn decode_base64(text: &str) -> (r: Result<Vec<u8>, String>)
    ensures
        r is Ok <==> base64_decoded(text@) is Some,
        r matches Ok(v) ==> base64_decoded(text@) == Some(v@),
        r matches Err(e) ==> e@ == base64_error_text(text@),
{
    base64::Engine::decode(&base64::engine::general_purpose::STANDARD, text).map_err(
        |e| e.to_string(),
    )
}

/// The bytes of the captcha image whose `src` (a base64 `data:` address) is given, or the
/// reason they cannot be decoded.
pub fn captcha_image(src: &str) -> (r: Result<Vec<u8>, String>)
    ensures
        r is Ok <==> base64_decoded(without_all(src@, "data:image/jpeg;base64,"@)) is Some,
        r matches Ok(v) ==> base64_decoded(without_all(src@, "data:image/jpeg;base64,"@)) == Some(
            v@,
        ),
        r matches Err(e) ==> e@ == base64_error_text(without_all(src@, "data:image/jpeg;base64,"@)),
{
    let text = captcha_base64(src);
    decode_base64(text.as_str())
}

/// The code a captcha service answered, or the error of an answer without one.
pub fn captcha_code(code: Option<String>) -> (r: Result<String, String>)
    ensures
        match code {
            Some(c) => r == Ok::<String, String>(c),
            None => r matches Err(e) && e@ == "NO code found in captcha result"@,
        },
{
    match code {
        Some(c) => Ok(c),
        None => Err("NO code found in captcha result".to_owned()),
    }
}

// ── Retrying ────────────────────────────────────────────────────────────────

/// How many times a failed step is tried again, and the pause between tries (milliseconds).
pub const LOGIN_RETRIES: u32 = 3;

pub const RETRY_DELAY_MILLIS: u64 = 500;

/// What to do after a try of a step.
#[derive(Debug, Clone, Copy, PartialEq, Eq, Structural)]
pub enum RetryDecision {
    /// The try succeeded: its result is the step's.
    Done,
    /// The try failed and another one follows; `attempt` failures have been seen so far.
    TryAgain { attempt: u32 },
    /// The try failed and no try is left: its error is the step's.
    GiveUp,
}

/// The decision after a try, when `attempts` earlier tries failed and `max_retries` retries are
/// allowed.
pub open spec fn retry_decision_of(succeeded: bool, attempts: u32, max_retries: u32) -> RetryDecision {
    if succeeded {
        RetryDecision::Done
    } else if attempts < max_retries {
        RetryDecision::TryAgain { attempt: (attempts + 1) as u32 }
    } else {
        RetryDecision::GiveUp
    }
}

/// The decision after a try of a step.
pub fn retry_decision(succeeded: bool, attempts: u32, max_retries: u32) -> (r: RetryDecision)
    ensures
        r == retry_decision_of(succeeded, attempts, max_retries),
{
    if succeeded {
        RetryDecision::Done
    } else if attempts < max_retries {
        RetryDecision::TryAgain { attempt: attempts + 1 }
    } else {
        RetryDecision::GiveUp
    }
}

/// The line printed before another try: the failure's number, its error (debug text) and the
/// pause in whole seconds.
pub fn retry_message(attempt: u32, error: &str, delay_millis: u64) -> (r: String)
    ensures
        r@ == "Attempt "@ + decimal(attempt as nat) + " failed: "@ + error@ + ". Retrying in "@
            + decimal((delay_millis / 1000) as nat) + " seconds..."@,
{
    let mut r = "Attempt ".to_owned();
    let a = decimal_text(attempt as u64);
    r.append(a.as_str());
    r.append(" failed: ");
    r.append(error);
    r.append(". Retrying in ");
    let d = decimal_text(delay_millis / 1000);
    r.append(d.as_str());
    r.append(" seconds...");
    r
}

/// The tries of a step whose `k`-th try succeeds when `ok[k]`, from the try that follows
/// `attempts` failures: how many tries are made, and whether the last one succeeded.
pub open spec fn retry_run(ok: Seq<bool>, max_retries: u32, attempts: u32) -> (nat, bool)
    decreases max_retries - attempts,
{
    match retry_decision_of(ok[attempts as int], attempts, max_retries) {
        RetryDecision::Done => ((attempts + 1) as nat, true),
        RetryDecision::GiveUp => ((attempts + 1) as nat, false),
        RetryDecision::TryAgain { attempt } => if attempt > attempts {
            retry_run(ok, max_retries, attempt)
        } else {
            ((attempts + 1) as nat, false)
        },
    }
}

/// Following the retry decisions, a step is tried at most `max_retries + 1` times; the run ends
/// with the first try that succeeds, and it ends in failure only when every try failed and no
/// retry was left.
pub proof fn lemma_retry_bounded(ok: Seq<bool>, max_retries: u32, attempts: u32)
    requires
        attempts <= max_retries,
        ok.len() > max_retries,
    ensures
        attempts < retry_run(ok, max_retries, attempts).0 <= max_retries + 1,
        forall|k: int|
            attempts <= k < retry_run(ok, max_retries, attempts).0 - 1 ==> !ok[k],
        retry_run(ok, max_retries, attempts).1 == ok[retry_run(ok, max_retries, attempts).0 - 1],
        !retry_run(ok, max_retries, attempts).1 ==> retry_run(ok, max_retries, attempts).0
            == max_retries + 1,
    decreases max_retries - attempts,
{
    if !ok[attempts as int] && attempts < max_retries {
        lemma_retry_bounded(ok, max_retries, (attempts + 1) as u32);
    }
}

} // verus!
