//! Where downloads are kept, and what the portal's download responses give back.
use vstd::prelude::*;
use vstd::string::StrSliceExecFns;
use vstd::utf8::*;

use crate::satcrawler::constants::DEFAULT_DOCUMENTS_FOLDER;
use crate::satcrawler::crawler::{CrawlerResponse, CrawlerType};
use crate::satcrawler::portal::printed_representation_url;
use crate::satcrawler::session::text_of;

verus! {

broadcast use group_utf8_lib;

// ── Paths ───────────────────────────────────────────────────────────────────

/// `base` joined with `name` as a Unix path is: `name` when it is absolute, otherwise `name`
/// after `base` with one `/` between them unless `base` is empty or already ends with `/`.
pub open spec fn path_join(base: Seq<char>, name: Seq<char>) -> Seq<char> {
    if name.len() > 0 && name[0] == '/' {
        name
    } else if base.len() == 0 || base.last() == '/' {
        base + name
    } else {
        base + "/"@ + name
    }
}

/// Joining keeps the name whole at the end; a relative name keeps the base whole in front, with
/// exactly one `/` between them when the base is not empty and does not end with one.
pub proof fn lemma_path_join_parts(base: Seq<char>, name: Seq<char>)
    ensures
        path_join(base, name).len() >= name.len(),
        path_join(base, name).subrange(
            path_join(base, name).len() - name.len(),
            path_join(base, name).len() as int,
        ) == name,
        !(name.len() > 0 && name[0] == '/') ==> path_join(base, name).subrange(0, base.len() as int)
            == base,
        !(name.len() > 0 && name[0] == '/') && base.len() > 0 && base.last() != '/' ==> path_join(
            base,
            name,
        ).len() == base.len() + 1 + name.len() && path_join(base, name)[base.len() as int] == '/',
{
    reveal_strlit("/");
    let j = path_join(base, name);
    assert(j.subrange(j.len() - name.len(), j.len() as int) =~= name);
    if !(name.len() > 0 && name[0] == '/') {
        assert(j.subrange(0, base.len() as int) =~= base);
    }
}

/// `base` joined with `name` as a Unix path (what `Path::join` does there).
pub fn join_path(base: &str, name: &str) -> (r: String)
    ensures
        r@ == path_join(base@, name@),
{
    proof {
        reveal_strlit("/");
    }
    if name.unicode_len() > 0 && name.get_char(0) == '/' {
        return name.to_owned();
    }
    let n = base.unicode_len();
    if n == 0 || base.get_char(n - 1) == '/' {
        let mut r = base.to_owned();
        r.append(name);
        r
    } else {
        let mut r = base.to_owned();
        r.append("/");
        r.append(name);
        r
    }
}

/// The folder downloads go to: the folder `env_folder` names when the environment sets it;
/// otherwise the default documents folder (with `addition` after it) inside the home folder
/// `home`, or relative to the working folder when there is no home folder.
pub open spec fn download_folder_of(
    addition: Option<Seq<char>>,
    env_folder: Option<Seq<char>>,
    home: Option<Seq<char>>,
) -> Seq<char> {
    let default_folder = match addition {
        Some(a) => DEFAULT_DOCUMENTS_FOLDER@ + a,
        None => DEFAULT_DOCUMENTS_FOLDER@,
    };
    match (env_folder, home) {
        (Some(e), _) => e,
        (None, Some(h)) => path_join(h, default_folder),
        (None, None) => default_folder,
    }
}

/// The environment's folder wins whatever the home folder and the addition; without it, the
/// folder is the default documents folder with the addition after it, inside the home folder
/// when there is one (joined with one `/` unless the home folder is empty or ends with one).
pub proof fn lemma_download_folder_choice(
    addition: Option<Seq<char>>,
    env_folder: Option<Seq<char>>,
    home: Option<Seq<char>>,
)
    ensures
        env_folder matches Some(e) ==> download_folder_of(addition, env_folder, home) == e,
        ({
            let default_folder = "sat-cli/documents/"@ + match addition {
                Some(a) => a,
                None => Seq::<char>::empty(),
            };
            &&& env_folder is None && home is None ==> download_folder_of(addition, env_folder, home)
                =~= default_folder
            &&& (env_folder is None && home is Some) ==> ({
                let h = home->0;
                download_folder_of(addition, env_folder, home) =~= if h.len() == 0 || h.last()
                    == '/' {
                    h + default_folder
                } else {
                    h + "/"@ + default_folder
                }
            })
        }),
{
    reveal_strlit("sat-cli/documents/");
    reveal_strlit("/");
    let d = match addition {
        Some(a) => DEFAULT_DOCUMENTS_FOLDER@ + a,
        None => DEFAULT_DOCUMENTS_FOLDER@,
    };
    assert(DEFAULT_DOCUMENTS_FOLDER@ == "sat-cli/documents/"@);
    assert(d[0] == 's');
    assert(d =~= "sat-cli/documents/"@ + match addition {
        Some(a) => a,
        None => Seq::<char>::empty(),
    });
}

/// The folder downloads go to, from the environment's setting and the home folder.
pub fn download_folder(addition: Option<String>, env_folder: Option<String>, home: Option<String>) -> (r: String)
    ensures
        r@ == download_folder_of(text_of(addition), text_of(env_folder), text_of(home)),
{
    let mut default_folder = DEFAULT_DOCUMENTS_FOLDER.to_owned();
    if let Some(a) = &addition {
        default_folder.append(a.as_str());
    }
    match (env_folder, home) {
        (Some(e), _) => e,
        (None, Some(h)) => join_path(h.as_str(), default_folder.as_str()),
        (None, None) => default_folder,
    }
}

/// Where the tax-status certificate is saved in a download folder.
pub fn certificate_path(folder: &str) -> (r: String)
    ensures
        r@ == path_join(folder@, "csf.pdf"@),
{
    join_path(folder, "csf.pdf")
}

// ── Response bodies as text ─────────────────────────────────────────────────

/// The text `String::from_utf8_lossy` makes of `bytes`.
pub uninterp spec fn lossy_text(bytes: Seq<u8>) -> Seq<char>;

/// `String::from_utf8_lossy`: `bytes` as text, with every invalid sequence replaced by U+FFFD.
/// The contract names the text; of it, it states only what std's documentation gives plainly:
/// valid UTF-8 is decoded unchanged.
#[verifier::external_body]
fn utf8_lossy(bytes: &[u8]) -> (r: String)
    ensures
        r@ == lossy_text(bytes@),
        valid_utf8(bytes@) ==> r@ == decode_utf8(bytes@),
{
    String::from_utf8_lossy(bytes).into_owned()
}

/// The failure `"{what} HTTP {status}: {body}"` of a response with an unsuccessful status.
pub open spec fn http_failure(what: Seq<char>, status: Seq<char>, body: Seq<char>) -> Seq<char> {
    what + " HTTP "@ + status + ": "@ + body
}

fn http_failure_text(what: &str, status: &str, body: &str) -> (r: String)
    ensures
        r@ == http_failure(what@, status@, body@),
{
    let mut r = what.to_owned();
    r.append(" HTTP ");
    r.append(status);
    r.append(": ");
    r.append(body);
    r
}

/// The outcome of the request that unlocks downloads: a failure naming the status (as text) and
/// the body when the status is not a success.
pub fn validate_download_outcome(success: bool, status: &str, body: &str) -> (r: Result<(), String>)
    ensures
        success ==> r is Ok,
        !success ==> (r matches Err(e) && e@ == http_failure("validate_download"@, status@, body@)),
{
    if success {
        Ok(())
    } else {
        Err(http_failure_text("validate_download", status, body))
    }
}

/// The XML of an invoice from the response to its download: the body, or, when the status is
/// not a success, a failure that shows the body as text.
pub fn xml_download_outcome(success: bool, status: &str, bytes: Vec<u8>) -> (r: Result<Vec<u8>, String>)
    ensures
        success ==> r == Ok::<Vec<u8>, String>(bytes),
        !success ==> (r matches Err(e) && e@ == http_failure(
            "XML download"@,
            status@,
            lossy_text(bytes@),
        )),
{
    if success {
        Ok(bytes)
    } else {
        let body = utf8_lossy(bytes.as_slice());
        Err(http_failure_text("XML download", status, body.as_str()))
    }
}

/// What member `key` of the JSON value `text` holds when it is a string: `None` when `text` is
/// not JSON, `Some(None)` when it is but has no such member holding a string.
pub uninterp spec fn json_string_member(text: Seq<char>, key: Seq<char>) -> Option<Option<Seq<char>>>;

/// The message of the error `serde_json::from_str` gives when `text` is not JSON (its
/// `serde_json::Error` as text).
pub uninterp spec fn json_error_text(text: Seq<char>) -> Seq<char>;

/// Parses `text` with `serde_json::from_str` into a `serde_json::Value` and reads its member
/// `key` as a string (`Value::get`, `Value::as_str`). The contract names the outcome and the
/// parse error's message; which texts are JSON is left to the names.
#[verifier::external_body]
fn read_json_string_member(text: &str, key: &str) -> (r: Result<Option<String>, String>)
    ensures
        r is Ok <==> json_string_member(text@, key@) is Some,
        r matches Ok(m) ==> json_string_member(text@, key@) == Some(text_of(m)),
        r matches Err(e) ==> e@ == json_error_text(text@),
{
    serde_json::from_str::<serde_json::Value>(text).map(
        |v| v.get(key).and_then(|d| d.as_str()).map(|s| s.to_string()),
    ).map_err(|e| e.to_string())
}

/// The address of an invoice's printed representation, from the response that exchanges the
/// download token: the body must be JSON whose member `d` holds the relative address.
pub fn printed_representation_address(success: bool, status: &str, text: &str) -> (r: Result<String, String>)
    ensures
        !success ==> (r matches Err(e) && e@ == http_failure(
            "PDF token exchange"@,
            status@,
            text@,
        )),
        success ==> (r is Ok <==> json_string_member(text@, "d"@) matches Some(Some(_))),
        success ==> (json_string_member(text@, "d"@) is None ==> (r matches Err(e) && e@
            == json_error_text(text@))),
        success ==> (json_string_member(text@, "d"@) matches Some(None) ==> (r matches Err(e)
            && e@ == "PDF token response missing 'd': "@ + text@)),
        success ==> (json_string_member(text@, "d"@) matches Some(Some(rel)) ==> (r matches Ok(u)
            && u@ == crate::satcrawler::constants::SAT_PORTAL_BASE_URL@ + "/"@ + rel)),
{
    if !success {
        return Err(http_failure_text("PDF token exchange", status, text));
    }
    match read_json_string_member(text, "d") {
        Err(e) => Err(e),
        Ok(None) => {
            let mut e = "PDF token response missing 'd': ".to_owned();
            e.append(text);
            Err(e)
        },
        Ok(Some(rel)) => Ok(printed_representation_url(rel.as_str())),
    }
}

/// The first 300 bytes of `t` as text (all of `t` when shorter), when they end between
/// characters.
pub open spec fn html_preview(t: Seq<char>) -> Option<Seq<char>> {
    let b = encode_utf8(t);
    if b.len() <= 300 {
        Some(t)
    } else if is_char_boundary(b, 300) {
        Some(decode_utf8(b.subrange(0, 300)))
    } else {
        None
    }
}

/// The printed representation from the response to its download: the body, unless the status
/// is not a success or the portal answered with an HTML page; the failure shows the body as
/// text, only its first 300 bytes for an HTML page. `None` when those 300 bytes would end
/// inside a character (there is no such text to show).
pub fn pdf_download_outcome(success: bool, status: &str, is_html: bool, bytes: Vec<u8>) -> (r: Option<Result<Vec<u8>, String>>)
    ensures
        success && !is_html ==> r == Some(Ok::<Vec<u8>, String>(bytes)),
        !success ==> (r matches Some(Err(e)) && e@ == http_failure(
            "PDF download"@,
            status@,
            lossy_text(bytes@),
        )),
        success && is_html ==> match html_preview(lossy_text(bytes@)) {
            Some(p) => r matches Some(Err(e)) && e@ == "PDF download returned HTML error page: "@
                + p,
            None => r is None,
        },
{
    if success && !is_html {
        return Some(Ok(bytes));
    }
    let body = utf8_lossy(bytes.as_slice());
    if !success {
        return Some(Err(http_failure_text("PDF download", status, body.as_str())));
    }
    let t = body.as_str();
    let preview = if t.as_bytes().len() <= 300 {
        proof {
            encode_utf8_decode_utf8(t@);
        }
        t.to_owned()
    } else if t.is_char_boundary(300) {
        let (p, _) = t.split_at(300);
        proof {
            encode_utf8_decode_utf8(p@);
        }
        p.to_owned()
    } else {
        return None;
    };
    let mut e = "PDF download returned HTML error page: ".to_owned();
    e.append(preview.as_str());
    Some(Err(e))
}

// ── Crawl outcomes ──────────────────────────────────────────────────────────

/// Whether a crawl downloads invoices.
pub open spec fn downloads(kind: CrawlerType) -> bool {
    kind != CrawlerType::ValidateCredentials
}

/// The response of an invoice download crawl that finished.
pub fn downloads_finished(kind: CrawlerType) -> (r: CrawlerResponse)
    requires
        downloads(kind),
    ensures
        r.success,
        r.message@ == (match kind {
            CrawlerType::DownloadIssuedInvoices => "Issued invoices downloaded successfully"@,
            CrawlerType::DownloadReceivedInvoices => "Received invoices downloaded successfully"@,
            _ => "Invoices downloaded successfully"@,
        }),
{
    let message = match kind {
        CrawlerType::DownloadIssuedInvoices => "Issued invoices downloaded successfully",
        CrawlerType::DownloadReceivedInvoices => "Received invoices downloaded successfully",
        _ => "Invoices downloaded successfully",
    };
    CrawlerResponse { success: true, message: message.to_owned() }
}

/// The response of a credentials check: valid when the sign-in succeeded, otherwise the sign-in
/// error (its display text).
pub fn validation_response(login_error: Option<String>) -> (r: CrawlerResponse)
    ensures
        r.success == login_error is None,
        match login_error {
            None => r.message@ == "Credentials are valid"@,
            Some(e) => r.message@ == "Error during login: "@ + e@,
        },
{
    match login_error {
        None => CrawlerResponse { success: true, message: "Credentials are valid".to_owned() },
        Some(e) => {
            let mut m = "Error during login: ".to_owned();
            m.append(e.as_str());
            CrawlerResponse { success: false, message: m }
        },
    }
}

} // verus!
