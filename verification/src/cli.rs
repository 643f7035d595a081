//! The command line's own logic: reading its arguments into a configuration, where files go,
//! what the invoice handler does with each event, and the `doctor` report.
use vstd::prelude::*;
use vstd::string::StrSliceExecFns;

use crate::dates::Date;
use crate::satcrawler::config::{
    CrawlerConfig, CrawlerFilters, CrawlerOptions, Credentials, LoginType,
};
use crate::satcrawler::downloads::{join_path, path_join};
use crate::satcrawler::events::InvoiceEvent;
use crate::satcrawler::session::text_of;
use crate::text::chars_of;

verus! {

// ── Arguments ───────────────────────────────────────────────────────────────

/// `c` with ASCII upper-case letters made lower-case.
pub open spec fn ascii_lower(c: char) -> char {
    if 'A' <= c && c <= 'Z' {
        ((c as u32) + 32) as char
    } else {
        c
    }
}

/// Whether `s` equals `t` when ASCII letters are compared without case.
pub open spec fn eq_ignore_ascii_case(s: Seq<char>, t: Seq<char>) -> bool {
    s.len() == t.len() && forall|i: int| 0 <= i < s.len() ==> ascii_lower(#[trigger] s[i]) == ascii_lower(t[i])
}

fn ascii_lower_exec(c: char) -> (r: char)
    ensures
        r == ascii_lower(c),
{
    if 'A' <= c && c <= 'Z' {
        let v: u8 = (c as u8) + 32;
        v as char
    } else {
        c
    }
}

/// Whether `s` equals `t` when ASCII letters are compared without case.
pub fn same_ignoring_ascii_case(s: &str, t: &str) -> (r: bool)
    ensures
        r == eq_ignore_ascii_case(s@, t@),
{
    let a = chars_of(s);
    let b = chars_of(t);
    if a.len() != b.len() {
        return false;
    }
    let n = a.len();
    let mut i: usize = 0;
    while i < n
        invariant
            n == a@.len(),
            n == b@.len(),
            a@ == s@,
            b@ == t@,
            i <= n,
            forall|k: int| 0 <= k < i ==> ascii_lower(#[trigger] a@[k]) == ascii_lower(b@[k]),
        decreases n - i,
    {
        if ascii_lower_exec(a[i]) != ascii_lower_exec(b[i]) {
            return false;
        }
        i += 1;
    }
    true
}

/// The login type an argument names: `ciec` or `fiel`, in any case.
pub fn parse_login_type(s: &str) -> (r: Result<LoginType, String>)
    ensures
        eq_ignore_ascii_case(s@, "ciec"@) ==> r == Ok::<LoginType, String>(LoginType::Ciec),
        !eq_ignore_ascii_case(s@, "ciec"@) && eq_ignore_ascii_case(s@, "fiel"@) ==> r == Ok::<
            LoginType,
            String,
        >(LoginType::Fiel),
        !eq_ignore_ascii_case(s@, "ciec"@) && !eq_ignore_ascii_case(s@, "fiel"@) ==> (r matches Err(
            e,
        ) && e@ == "Invalid login type '"@ + s@ + "': expected 'ciec' or 'fiel'"@),
{
    if same_ignoring_ascii_case(s, "ciec") {
        Ok(LoginType::Ciec)
    } else if same_ignoring_ascii_case(s, "fiel") {
        Ok(LoginType::Fiel)
    } else {
        let mut e = "Invalid login type '".to_owned();
        e.append(s);
        e.append("': expected 'ciec' or 'fiel'");
        Err(e)
    }
}

/// `s` without every leading copy of `pat`.
pub open spec fn trim_start_matches(s: Seq<char>, pat: Seq<char>) -> Seq<char>
    decreases s.len(),
{
    if pat.len() > 0 && s.len() >= pat.len() && s.subrange(0, pat.len() as int) == pat {
        trim_start_matches(s.subrange(pat.len() as int, s.len() as int), pat)
    } else {
        s
    }
}

/// A path given on the command line made absolute: a leading `~/` (or a lone `~`) is taken
/// from the home folder `home`, and a relative path is taken from the working folder `cwd`
/// (kept relative when there is none).
pub open spec fn resolved_path(p: Seq<char>, home: Seq<char>, cwd: Option<Seq<char>>) -> Seq<char> {
    let expanded = if (p.len() >= 2 && p[0] == '~' && p[1] == '/') || p == seq!['~'] {
        home + "/"@ + trim_start_matches(p, "~/"@)
    } else {
        p
    };
    if expanded.len() > 0 && expanded[0] == '/' {
        expanded
    } else {
        match cwd {
            Some(d) => path_join(d, expanded),
            None => expanded,
        }
    }
}

/// A path given on the command line made absolute, from the home folder (`HOME`, empty when
/// unset) and the working folder.
pub fn resolve_path(p: &str, home: &str, cwd: Option<String>) -> (r: String)
    ensures
        r@ == resolved_path(p@, home@, text_of(cwd)),
{
    proof {
        reveal_strlit("~/");
        reveal_strlit("/");
    }
    let c = chars_of(p);
    let n = c.len();
    let tilde = (n >= 2 && c[0] == '~' && c[1] == '/') || (n == 1 && c[0] == '~');
    proof {
        if n == 1 && c@[0] == '~' {
            assert(c@ =~= seq!['~']);
        }
        if c@ =~= seq!['~'] {
            assert(n == 1 && c@[0] == '~');
        }
    }
    let expanded: Vec<char> = if tilde {
        let mut i: usize = 0;
        assert(c@.subrange(0, n as int) =~= c@);
        while n - i >= 2 && c[i] == '~' && c[i + 1] == '/'
            invariant
                i <= n,
                n == c@.len(),
                trim_start_matches(c@.subrange(i as int, n as int), "~/"@) == trim_start_matches(
                    c@,
                    "~/"@,
                ),
            decreases n - i,
        {
            let ghost rest = c@.subrange(i as int, n as int);
            proof {
                reveal_strlit("~/");
            }
            assert(rest.subrange(0, 2) =~= "~/"@);
            assert(rest.subrange(2, rest.len() as int) =~= c@.subrange(i + 2, n as int));
            i = i + 2;
        }
        proof {
            let rest = c@.subrange(i as int, n as int);
            if rest.len() >= 2 && rest.subrange(0, 2) == "~/"@ {
                assert(rest[0] == rest.subrange(0, 2)[0]);
                assert(rest[1] == rest.subrange(0, 2)[1]);
            }
        }
        let mut e = chars_of(home);
        e.push('/');
        let mut j = i;
        let ghost start = e@;
        while j < n
            invariant
                i <= j <= n,
                n == c@.len(),
                e@ == start + c@.subrange(i as int, j as int),
            decreases n - j,
        {
            e.push(c[j]);
            j += 1;
            assert(e@ =~= start + c@.subrange(i as int, j as int));
        }
        assert(start =~= home@ + "/"@);
        e
    } else {
        c
    };
    let s = crate::text::string_of(expanded.as_slice());
    if expanded.len() > 0 && expanded[0] == '/' {
        return s;
    }
    match cwd {
        Some(d) => join_path(d.as_str(), s.as_str()),
        None => s,
    }
}

/// A path resolved against an absolute working folder is absolute.
pub proof fn lemma_resolved_path_absolute(p: Seq<char>, home: Seq<char>, d: Seq<char>)
    requires
        d.len() > 0,
        d[0] == '/',
    ensures
        resolved_path(p, home, Some(d)).len() > 0,
        resolved_path(p, home, Some(d))[0] == '/',
{
    let expanded = if (p.len() >= 2 && p[0] == '~' && p[1] == '/') || p == seq!['~'] {
        home + "/"@ + trim_start_matches(p, "~/"@)
    } else {
        p
    };
    if !(expanded.len() > 0 && expanded[0] == '/') {
        let j = path_join(d, expanded);
        if expanded.len() > 0 && expanded[0] == '/' {
        } else if d.len() == 0 || d.last() == '/' {
            assert(j[0] == d[0]);
        } else {
            assert(j[0] == d[0]);
        }
    }
}

/// The credentials and browser options given on the command line.
#[derive(Debug, Clone)]
pub struct CrawlArgs {
    pub username: Option<String>,
    pub password: Option<String>,
    pub crt: Option<String>,
    pub key: Option<String>,
    pub login_type: Option<LoginType>,
    pub headless: bool,
    pub sandbox: bool,
}

/// The dates given on the command line that bound a download.
#[derive(Debug, Clone, Copy, PartialEq, Eq, Structural)]
pub struct DownloadFilterArgs {
    pub start_date: Option<Date>,
    pub end_date: Option<Date>,
}

impl From<DownloadFilterArgs> for CrawlerFilters {
    fn from(f: DownloadFilterArgs) -> (r: CrawlerFilters) {
        CrawlerFilters { start_date: f.start_date, end_date: f.end_date }
    }
}

impl vstd::std_specs::convert::FromSpecImpl<DownloadFilterArgs> for CrawlerFilters {
    open spec fn obeys_from_spec() -> bool {
        true
    }

    open spec fn from_spec(f: DownloadFilterArgs) -> CrawlerFilters {
        CrawlerFilters { start_date: f.start_date, end_date: f.end_date }
    }
}

/// `Some` of the text of `v`, kept when `v` is `None`.
pub open spec fn updated_text(current: Seq<char>, v: Option<String>) -> Seq<char> {
    match v {
        Some(s) => s@,
        None => current,
    }
}

/// The command-line arguments laid over a configuration: each one given replaces its setting,
/// the certificate and key paths made absolute; the two browser switches only turn their
/// option on.
pub fn apply_args_to_config(config: &mut CrawlerConfig, args: CrawlArgs, home: &str, cwd: Option<String>)
    ensures
        final(config).credentials.username@ == updated_text(old(config).credentials.username@, args.username),
        final(config).credentials.password@ == updated_text(old(config).credentials.password@, args.password),
        text_of(final(config).credentials.crt_path) == match args.crt {
            Some(p) => Some(resolved_path(p@, home@, text_of(cwd))),
            None => text_of(old(config).credentials.crt_path),
        },
        text_of(final(config).credentials.key_path) == match args.key {
            Some(p) => Some(resolved_path(p@, home@, text_of(cwd))),
            None => text_of(old(config).credentials.key_path),
        },
        final(config).credentials.login_type == match args.login_type {
            Some(t) => t,
            None => old(config).credentials.login_type,
        },
        final(config).options.headless == (old(config).options.headless || args.headless),
        final(config).options.sandbox == (old(config).options.sandbox || args.sandbox),
{
    if let Some(v) = args.username {
        config.credentials.username = v;
    }
    if let Some(v) = args.password {
        config.credentials.password = v;
    }
    if let Some(v) = args.crt {
        config.credentials.crt_path = Some(resolve_path(v.as_str(), home, cwd.clone()));
    }
    if let Some(v) = args.key {
        config.credentials.key_path = Some(resolve_path(v.as_str(), home, cwd.clone()));
    }
    if let Some(v) = args.login_type {
        config.credentials.login_type = v;
    }
    if args.headless {
        config.options.headless = true;
    }
    if args.sandbox {
        config.options.sandbox = true;
    }
}

// ── The `config` command ────────────────────────────────────────────────────

/// The login type answered at the prompt: `fiel` in any case, CIEC otherwise.
pub fn prompted_login_type(input: &str) -> (r: LoginType)
    ensures
        r == (if eq_ignore_ascii_case(input@, "fiel"@) {
            LoginType::Fiel
        } else {
            LoginType::Ciec
        }),
{
    if same_ignoring_ascii_case(input, "fiel") {
        LoginType::Fiel
    } else {
        LoginType::Ciec
    }
}

/// The configuration the `config` command writes: the answers, the certificate and key paths
/// only for FIEL, headless and sandboxed.
pub fn prompted_config(
    login_type: LoginType,
    username: String,
    password: String,
    crt_path: String,
    key_path: String,
) -> (r: CrawlerConfig)
    ensures
        r.credentials.login_type == login_type,
        r.credentials.username == username,
        r.credentials.password == password,
        login_type == LoginType::Fiel ==> r.credentials.crt_path == Some(crt_path)
            && r.credentials.key_path == Some(key_path),
        login_type == LoginType::Ciec ==> r.credentials.crt_path is None
            && r.credentials.key_path is None,
        r.options == (CrawlerOptions { headless: true, sandbox: true }),
{
    let (crt, key) = match login_type {
        LoginType::Fiel => (Some(crt_path), Some(key_path)),
        LoginType::Ciec => (None, None),
    };
    CrawlerConfig::new(
        Credentials { login_type, username, password, crt_path: crt, key_path: key },
        CrawlerOptions { headless: true, sandbox: true },
    )
}

// ── The invoice handler ─────────────────────────────────────────────────────

/// Whether an invoice is downloaded: unless both its XML and its PDF are already saved.
pub fn should_download(xml_exists: bool, pdf_exists: bool) -> (r: bool)
    ensures
        r == (!xml_exists || !pdf_exists),
{
    !xml_exists || !pdf_exists
}

/// `{uuid}.{ext}` in the download folder.
pub fn invoice_file(download_path: &str, uuid: &str, ext: &str) -> (r: String)
    ensures
        r@ == path_join(download_path@, uuid@ + "."@ + ext@),
{
    let mut name = uuid.to_owned();
    name.append(".");
    name.append(ext);
    join_path(download_path, name.as_str())
}

/// What the command line's handler does with an invoice event.
#[derive(Debug, Clone)]
pub enum HandlerAction {
    /// Save `content` as `{uuid}.{ext}`.
    Save { uuid: String, ext: String, content: Vec<u8> },
    /// Print the line to the error stream.
    Report(String),
}

/// What the command line's handler does with an invoice event.
pub fn handler_action(event: InvoiceEvent) -> (r: HandlerAction)
    ensures
        match event {
            InvoiceEvent::XmlDownloaded { invoice, content } => r matches HandlerAction::Save {
                uuid,
                ext,
                content: c,
            } && uuid == invoice.uuid && ext@ == "xml"@ && c == content,
            InvoiceEvent::PdfDownloaded { invoice, content } => r matches HandlerAction::Save {
                uuid,
                ext,
                content: c,
            } && uuid == invoice.uuid && ext@ == "pdf"@ && c == content,
            InvoiceEvent::XmlDownloadFailed { invoice, error } => r matches HandlerAction::Report(
                l,
            ) && l@ == "[ERROR] XML download failed for "@ + invoice.uuid@ + ": "@ + error@,
            InvoiceEvent::PdfDownloadFailed { invoice, error } => r matches HandlerAction::Report(
                l,
            ) && l@ == "[ERROR] PDF download failed for "@ + invoice.uuid@ + ": "@ + error@,
            InvoiceEvent::Skipped { invoice } => r matches HandlerAction::Report(l) && l@
                == "[INFO] Skipped "@ + invoice.uuid@ + " (already exists)"@,
        },
{
    match event {
        InvoiceEvent::XmlDownloaded { invoice, content } => HandlerAction::Save {
            uuid: invoice.uuid,
            ext: "xml".to_owned(),
            content,
        },
        InvoiceEvent::PdfDownloaded { invoice, content } => HandlerAction::Save {
            uuid: invoice.uuid,
            ext: "pdf".to_owned(),
            content,
        },
        InvoiceEvent::XmlDownloadFailed { invoice, error } => {
            let mut l = "[ERROR] XML download failed for ".to_owned();
            l.append(invoice.uuid.as_str());
            l.append(": ");
            l.append(error.as_str());
            HandlerAction::Report(l)
        },
        InvoiceEvent::PdfDownloadFailed { invoice, error } => {
            let mut l = "[ERROR] PDF download failed for ".to_owned();
            l.append(invoice.uuid.as_str());
            l.append(": ");
            l.append(error.as_str());
            HandlerAction::Report(l)
        },
        InvoiceEvent::Skipped { invoice } => {
            let mut l = "[INFO] Skipped ".to_owned();
            l.append(invoice.uuid.as_str());
            l.append(" (already exists)");
            HandlerAction::Report(l)
        },
    }
}

/// The line printed after saving `{uuid}.{ext}` at `dest`: the error's text when it failed.
pub fn save_report(uuid: &str, ext: &str, dest: &str, error: Option<String>) -> (r: String)
    ensures
        match error {
            Some(e) => r@ == "[ERROR] Failed to save "@ + uuid@ + "."@ + ext@ + ": "@ + e@,
            None => r@ == "[INFO] Saved "@ + dest@,
        },
{
    match error {
        Some(e) => {
            let mut r = "[ERROR] Failed to save ".to_owned();
            r.append(uuid);
            r.append(".");
            r.append(ext);
            r.append(": ");
            r.append(e.as_str());
            r
        },
        None => {
            let mut r = "[INFO] Saved ".to_owned();
            r.append(dest);
            r
        },
    }
}

// ── The `doctor` command ────────────────────────────────────────────────────

/// The line about the credentials of the configuration file.
pub open spec fn credentials_line(username: Seq<char>, password: Seq<char>) -> Seq<char> {
    if username.len() > 0 && password.len() > 0 {
        "  [ok] Credentials are configured (username: "@ + username + ")"@
    } else if username.len() > 0 {
        "  [!]  Username is set but password is missing"@
    } else {
        "  [!]  No credentials found in ~/sat-cli/config.json"@
    }
}

/// The line about one FIEL file: whether its path is set and the file exists.
pub open spec fn fiel_file_line(what: Seq<char>, path: Option<Seq<char>>, exists: bool, missing: Seq<char>) -> Seq<char> {
    match path {
        Some(p) => if exists {
            "  [ok] "@ + what + " file exists: "@ + p
        } else {
            "  [!]  "@ + what + " file not found: "@ + p
        },
        None => missing,
    }
}

/// The lines of the `doctor` report: the captcha key, the credentials, for FIEL the two
/// files (whether each exists is given), and the documents folder.
pub open spec fn doctor_lines(
    api_key_set: bool,
    config: CrawlerConfig,
    crt_exists: bool,
    key_exists: bool,
    documents_folder: Option<Seq<char>>,
) -> Seq<Seq<char>> {
    let key_line = if api_key_set {
        "  [ok] TWOCAPTCHA_API_KEY is set"@
    } else {
        "  [!]  TWOCAPTCHA_API_KEY is not set \u{2014} captcha solving will fail"@
    };
    let creds = seq![
        key_line,
        credentials_line(config.credentials.username@, config.credentials.password@),
    ];
    let fiel = if config.credentials.login_type == LoginType::Fiel {
        seq![
            fiel_file_line(
                "Certificate"@,
                text_of(config.credentials.crt_path),
                crt_exists,
                "  [!]  FIEL login requires a certificate path (crt_path)"@,
            ),
            fiel_file_line(
                "Key"@,
                text_of(config.credentials.key_path),
                key_exists,
                "  [!]  FIEL login requires a key path (key_path)"@,
            ),
        ]
    } else {
        Seq::empty()
    };
    let folder = match documents_folder {
        Some(p) => "  [ok] Custom documents folder: "@ + p,
        None => "  [-]  No custom documents folder set \u{2014} using ~/sat-cli/documents/"@,
    };
    creds + fiel + seq![folder]
}

/// The doctor's verdict on the saved credentials, in the line after the captcha key's: a
/// configuration with both a username and a password is reported as configured, naming the
/// username; one with a username but no password is told the password is missing; one without a
/// username is told no credentials were found. The report has that line, the key's line, the
/// documents folder's line last, and for electronic-signature sign-in one line per file in
/// between.
pub proof fn lemma_doctor_credentials_verdict(
    api_key_set: bool,
    config: CrawlerConfig,
    crt_exists: bool,
    key_exists: bool,
    documents_folder: Option<Seq<char>>,
)
    ensures
        ({
            let lines = doctor_lines(api_key_set, config, crt_exists, key_exists, documents_folder);
            let user = config.credentials.username@;
            let pass = config.credentials.password@;
            &&& lines.len() == if config.credentials.login_type == LoginType::Fiel {
                5int
            } else {
                3int
            }
            &&& user.len() > 0 && pass.len() > 0 ==> lines[1]
                == "  [ok] Credentials are configured (username: "@ + user + ")"@
            &&& user.len() > 0 && pass.len() == 0 ==> lines[1]
                == "  [!]  Username is set but password is missing"@
            &&& user.len() == 0 ==> lines[1] == "  [!]  No credentials found in ~/sat-cli/config.json"@
            &&& lines[0] == if api_key_set {
                "  [ok] TWOCAPTCHA_API_KEY is set"@
            } else {
                "  [!]  TWOCAPTCHA_API_KEY is not set \u{2014} captcha solving will fail"@
            }
            &&& lines[lines.len() - 1] == match documents_folder {
                Some(p) => "  [ok] Custom documents folder: "@ + p,
                None => "  [-]  No custom documents folder set \u{2014} using ~/sat-cli/documents/"@,
            }
        }),
{
}

fn fiel_file_report(what: &str, path: &Option<String>, exists: bool, missing: &str) -> (r: String)
    ensures
        r@ == fiel_file_line(what@, text_of(*path), exists, missing@),
{
    match path {
        Some(p) => {
            let mut r = if exists {
                "  [ok] ".to_owned()
            } else {
                "  [!]  ".to_owned()
            };
            r.append(what);
            if exists {
                r.append(" file exists: ");
            } else {
                r.append(" file not found: ");
            }
            r.append(p.as_str());
            r
        },
        None => missing.to_owned(),
    }
}

/// The lines of the `doctor` report, after its title.
pub fn doctor_report(
    api_key_set: bool,
    config: &CrawlerConfig,
    crt_exists: bool,
    key_exists: bool,
    documents_folder: Option<String>,
) -> (r: Vec<String>)
    ensures
        r@.len() == doctor_lines(api_key_set, *config, crt_exists, key_exists, text_of(documents_folder)).len(),
        forall|i: int|
            0 <= i < r@.len() ==> #[trigger] r@[i]@ == doctor_lines(
                api_key_set,
                *config,
                crt_exists,
                key_exists,
                text_of(documents_folder),
            )[i],
{
    let ghost lines = doctor_lines(api_key_set, *config, crt_exists, key_exists, text_of(documents_folder));
    let mut r: Vec<String> = Vec::new();
    if api_key_set {
        r.push("  [ok] TWOCAPTCHA_API_KEY is set".to_owned());
    } else {
        r.push("  [!]  TWOCAPTCHA_API_KEY is not set \u{2014} captcha solving will fail".to_owned());
    }
    let username = config.credentials.username.as_str();
    let password = config.credentials.password.as_str();
    if username.unicode_len() > 0 && password.unicode_len() > 0 {
        let mut l = "  [ok] Credentials are configured (username: ".to_owned();
        l.append(username);
        l.append(")");
        r.push(l);
    } else if username.unicode_len() > 0 {
        r.push("  [!]  Username is set but password is missing".to_owned());
    } else {
        r.push("  [!]  No credentials found in ~/sat-cli/config.json".to_owned());
    }
    if config.credentials.login_type == LoginType::Fiel {
        r.push(
            fiel_file_report(
                "Certificate",
                &config.credentials.crt_path,
                crt_exists,
                "  [!]  FIEL login requires a certificate path (crt_path)",
            ),
        );
        r.push(
            fiel_file_report(
                "Key",
                &config.credentials.key_path,
                key_exists,
                "  [!]  FIEL login requires a key path (key_path)",
            ),
        );
    }
    match documents_folder {
        Some(p) => {
            let mut l = "  [ok] Custom documents folder: ".to_owned();
            l.append(p.as_str());
            r.push(l);
        },
        None => {
            r.push(
                "  [-]  No custom documents folder set \u{2014} using ~/sat-cli/documents/".to_owned(),
            );
        },
    }
    assert(r@.len() == lines.len());
    r
}

} // verus!
