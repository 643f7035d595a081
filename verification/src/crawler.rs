//! The first, stand-alone credentials check: a crawl that signs in to the SAT login site and
//! reports what the page says.
use vstd::prelude::*;

verus! {

/// The outcome of a check.
#[derive(Debug, Clone)]
pub struct CrawlerResponse {
    pub success: bool,
    pub message: String,
}

/// What to check.
#[derive(Debug, Clone)]
pub enum Crawler {
    ValidateCredentials { username: String, password: String },
}

/// The page the credentials check signs in on.
pub const LOGIN_SITE_URL: &'static str = "https://login.siat.sat.gob.mx/";

/// The response of a check, from the page's error element after the form is submitted:
/// `Some(text)` when the element is there (`text` is `None` when it shows nothing), `None`
/// when there is no such element. The credentials check reports success either way; the message is the
/// page's error, `Unkown error` for an empty one, or `Credentials are valid`.
pub fn validation_outcome(error_element: Option<Option<String>>) -> (r: CrawlerResponse)
    ensures
        r.success,
        match error_element {
            Some(Some(t)) => r.message == t,
            Some(None) => r.message@ == "Unkown error"@,
            None => r.message@ == "Credentials are valid"@,
        },
{
    match error_element {
        Some(Some(t)) => CrawlerResponse { success: true, message: t },
        Some(None) => CrawlerResponse { success: true, message: "Unkown error".to_owned() },
        None => CrawlerResponse { success: true, message: "Credentials are valid".to_owned() },
    }
}

} // verus!
