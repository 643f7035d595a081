//! Crawler configuration: credentials, browser options and download filters.
use vstd::prelude::*;

use crate::dates::Date;

verus! {

/// How the crawler signs in to the SAT portal.
#[derive(Debug, Clone, Copy, PartialEq, Eq, Structural)]
pub enum LoginType {
    /// RFC and password (CIEC).
    Ciec,
    /// Electronic signature: certificate, private key and its password (FIEL).
    Fiel,
}

impl Default for LoginType {
    fn default() -> (r: LoginType)
        ensures
            r == LoginType::Ciec,
    {
        LoginType::Ciec
    }
}

/// The taxpayer's credentials.
#[derive(Debug, Clone)]
pub struct Credentials {
    pub login_type: LoginType,
    /// The RFC.
    pub username: String,
    pub password: String,
    /// FIEL certificate (`.cer`) path.
    pub crt_path: Option<String>,
    /// FIEL private key (`.key`) path.
    pub key_path: Option<String>,
}

impl Default for Credentials {
    fn default() -> (r: Credentials)
        ensures
            r.login_type == LoginType::Ciec,
            r.username@.len() == 0,
            r.password@.len() == 0,
            r.crt_path is None,
            r.key_path is None,
    {
        Credentials {
            login_type: LoginType::Ciec,
            username: String::new(),
            password: String::new(),
            crt_path: None,
            key_path: None,
        }
    }
}

/// How the browser is launched.
#[derive(Debug, Clone, Copy, PartialEq, Eq, Structural)]
pub struct CrawlerOptions {
    pub headless: bool,
    pub sandbox: bool,
}

impl Default for CrawlerOptions {
    fn default() -> (r: CrawlerOptions)
        ensures
            !r.headless && !r.sandbox,
    {
        CrawlerOptions { headless: false, sandbox: false }
    }
}

/// Credentials and browser options.
#[derive(Debug, Clone)]
pub struct CrawlerConfig {
    pub credentials: Credentials,
    pub options: CrawlerOptions,
}

impl Default for CrawlerConfig {
    fn default() -> (r: CrawlerConfig)
        ensures
            r.credentials.login_type == LoginType::Ciec,
            r.credentials.username@.len() == 0,
            r.credentials.password@.len() == 0,
            r.credentials.crt_path is None,
            r.credentials.key_path is None,
            !r.options.headless && !r.options.sandbox,
    {
        CrawlerConfig { credentials: Credentials::default(), options: CrawlerOptions::default() }
    }
}

/// Why a configuration cannot be used to sign in, if it cannot.
pub open spec fn config_problem(c: CrawlerConfig) -> Option<Seq<char>> {
    if c.credentials.username@.len() == 0 {
        Some("username (RFC) is required"@)
    } else if c.credentials.password@.len() == 0 {
        Some("password is required"@)
    } else if c.credentials.login_type == LoginType::Fiel && c.credentials.crt_path is None {
        Some("FIEL login requires a certificate path (crt_path)"@)
    } else if c.credentials.login_type == LoginType::Fiel && c.credentials.key_path is None {
        Some("FIEL login requires a key path (key_path)"@)
    } else {
        None
    }
}

/// A configuration can sign in exactly when it has a username and a password and, for
/// electronic-signature sign-in, both a certificate path and a key path; a password sign-in
/// needs no file.
pub proof fn lemma_config_usable(c: CrawlerConfig)
    ensures
        config_problem(c) is None <==> (c.credentials.username@.len() > 0
            && c.credentials.password@.len() > 0 && (c.credentials.login_type == LoginType::Fiel
            ==> c.credentials.crt_path is Some && c.credentials.key_path is Some)),
{
}

impl CrawlerConfig {
    /// A configuration with these credentials and options. (Saving it to the configuration file
    /// is left to the caller.)
    pub fn new(credentials: Credentials, opts: CrawlerOptions) -> (r: CrawlerConfig)
        ensures
            r.credentials == credentials,
            r.options == opts,
    {
        CrawlerConfig { credentials: credentials, options: opts }
    }

    /// A builder with no credentials, headless and sandboxed.
    pub fn builder() -> (r: CrawlerConfigBuilder)
        ensures
            r@ == (None::<Credentials>, true, true),
    {
        CrawlerConfigBuilder::new()
    }

    /// Checks that the configuration can be used to sign in: a username and a password, and
    /// for FIEL both the certificate and the key path.
    pub fn validate(&self) -> (r: Result<(), String>)
        ensures
            r is Ok <==> config_problem(*self) is None,
            r matches Err(m) ==> config_problem(*self) == Some(m@),
    {
        if self.credentials.username.as_str().is_empty() {
            Err("username (RFC) is required".to_owned())
        } else if self.credentials.password.as_str().is_empty() {
            Err("password is required".to_owned())
        } else if self.credentials.login_type == LoginType::Fiel
            && self.credentials.crt_path.is_none() {
            Err("FIEL login requires a certificate path (crt_path)".to_owned())
        } else if self.credentials.login_type == LoginType::Fiel
            && self.credentials.key_path.is_none() {
            Err("FIEL login requires a key path (key_path)".to_owned())
        } else {
            Ok(())
        }
    }
}

/// Builds a `CrawlerConfig` step by step.
pub struct CrawlerConfigBuilder {
    credentials: Option<Credentials>,
    headless: bool,
    sandbox: bool,
}

impl View for CrawlerConfigBuilder {
    /// (credentials, headless, sandbox)
    type V = (Option<Credentials>, bool, bool);

    closed spec fn view(&self) -> (Option<Credentials>, bool, bool) {
        (self.credentials, self.headless, self.sandbox)
    }
}

impl CrawlerConfigBuilder {
    /// No credentials yet; headless and sandboxed.
    pub fn new() -> (r: CrawlerConfigBuilder)
        ensures
            r@ == (None::<Credentials>, true, true),
    {
        CrawlerConfigBuilder { credentials: None, headless: true, sandbox: true }
    }

    /// Sets CIEC credentials (RFC and password).
    pub fn with_credentials(self, username: String, password: String) -> (r: CrawlerConfigBuilder)
        ensures
            r@ == (
                Some(
                    Credentials {
                        login_type: LoginType::Ciec,
                        username,
                        password,
                        crt_path: None,
                        key_path: None,
                    },
                ),
                self@.1,
                self@.2,
            ),
    {
        let mut b = self;
        b.credentials = Some(
            Credentials {
                login_type: LoginType::Ciec,
                username,
                password,
                crt_path: None,
                key_path: None,
            },
        );
        b
    }

    /// Shows the browser window.
    pub fn with_head(self) -> (r: CrawlerConfigBuilder)
        ensures
            r@ == (self@.0, false, self@.2),
    {
        let mut b = self;
        b.headless = false;
        b
    }

    /// Launches the browser without its sandbox.
    pub fn no_sandbox(self) -> (r: CrawlerConfigBuilder)
        ensures
            r@ == (self@.0, self@.1, false),
    {
        let mut b = self;
        b.sandbox = false;
        b
    }

    /// The configuration; credentials are required.
    pub fn build(self) -> (r: Result<CrawlerConfig, String>)
        ensures
            self@.0 is None ==> (r matches Err(m) && m@ == "Credentials are required"@),
            self@.0 matches Some(c) ==> (r matches Ok(cfg) && cfg.credentials == c
                && cfg.options == CrawlerOptions { headless: self@.1, sandbox: self@.2 }),
    {
        match self.credentials {
            None => Err("Credentials are required".to_owned()),
            Some(c) => Ok(
                CrawlerConfig {
                    credentials: c,
                    options: CrawlerOptions { headless: self.headless, sandbox: self.sandbox },
                },
            ),
        }
    }
}

/// Which invoices a download keeps, by issue date.
#[derive(Debug, Clone, Copy, PartialEq, Eq, Structural)]
pub struct CrawlerFilters {
    /// Invoices issued before this day are skipped.
    pub start_date: Option<Date>,
    /// Invoices issued after this day are skipped.
    pub end_date: Option<Date>,
}

impl Default for CrawlerFilters {
    fn default() -> (r: CrawlerFilters)
        ensures
            r.start_date is None && r.end_date is None,
    {
        CrawlerFilters { start_date: None, end_date: None }
    }
}

} // verus!
