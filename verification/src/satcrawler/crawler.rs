//! The crawler: what it is asked to do and how its outcome is reported.
use vstd::prelude::*;

use crate::satcrawler::config::{config_problem, CrawlerConfig, CrawlerFilters, CrawlerOptions};
use crate::satcrawler::logger::Logger;

verus! {

/// The outcome of a crawl.
#[derive(Debug, Clone)]
pub struct CrawlerResponse {
    pub success: bool,
    pub message: String,
}

/// What a crawl does.
#[derive(Debug, Clone, Copy, PartialEq, Eq, Structural)]
pub enum CrawlerType {
    DownloadInvoices,
    DownloadIssuedInvoices,
    DownloadReceivedInvoices,
    ValidateCredentials,
}

/// A crawl to run, with the handler that receives its invoice events (`H`) and the one that
/// decides which invoices to download (`D`).
pub struct Crawler<H, D> {
    pub crawler_type: CrawlerType,
    pub config: CrawlerConfig,
    pub logger: Logger,
    pub event_handler: Option<H>,
    pub download_decider: Option<D>,
    pub filters: CrawlerFilters,
}

impl<H, D> Crawler<H, D> {
    /// A crawl of this type with this configuration, no handlers and no filters.
    pub fn new(crawler_type: CrawlerType, config: CrawlerConfig) -> (r: Self)
        ensures
            r.crawler_type == crawler_type,
            r.config == config,
            r.event_handler is None,
            r.download_decider is None,
            r.filters == (CrawlerFilters { start_date: None, end_date: None }),
    {
        Crawler {
            crawler_type: crawler_type,
            config: config,
            logger: Logger::new(),
            event_handler: None,
            download_decider: None,
            filters: CrawlerFilters::default(),
        }
    }

    /// Sends invoice events to `handler`.
    pub fn with_event_handler(self, handler: H) -> (r: Self)
        ensures
            r.event_handler == Some(handler),
            r.crawler_type == self.crawler_type,
            r.config == self.config,
            r.download_decider == self.download_decider,
            r.filters == self.filters,
    {
        let mut c = self;
        c.event_handler = Some(handler);
        c
    }

    /// Asks `decider` which invoices to download.
    pub fn with_download_decider(self, decider: D) -> (r: Self)
        ensures
            r.download_decider == Some(decider),
            r.crawler_type == self.crawler_type,
            r.config == self.config,
            r.event_handler == self.event_handler,
            r.filters == self.filters,
    {
        let mut c = self;
        c.download_decider = Some(decider);
        c
    }

    /// Uses `filters` when given; keeps the current ones otherwise.
    pub fn with_filters(self, filters: Option<CrawlerFilters>) -> (r: Self)
        ensures
            r.filters == (match filters {
                Some(f) => f,
                None => self.filters,
            }),
            r.crawler_type == self.crawler_type,
            r.config == self.config,
            r.event_handler == self.event_handler,
            r.download_decider == self.download_decider,
    {
        let mut c = self;
        if let Some(f) = filters {
            c.filters = f;
        }
        c
    }

    /// The response a crawl gives without starting, when its configuration cannot sign in.
    pub fn refusal(&self) -> (r: Option<CrawlerResponse>)
        ensures
            r is None <==> config_problem(self.config) is None,
            r matches Some(resp) ==> !resp.success && config_problem(self.config) == Some(
                resp.message@,
            ),
    {
        match self.config.validate() {
            Ok(()) => None,
            Err(e) => Some(CrawlerResponse { success: false, message: e }),
        }
    }
}

/// How the browser of a crawl is launched: with a window unless the options ask for a headless
/// one, and without its sandbox unless the options ask for it.
pub fn browser_launch(options: CrawlerOptions) -> (r: (bool, bool))
    ensures
        r == (!options.headless, !options.sandbox),
{
    (!options.headless, !options.sandbox)
}

/// The response of a crawl that ran: its own, or a failure that names the error (`error` is the
/// error's debug text).
pub fn crawl_response(outcome: Result<CrawlerResponse, String>) -> (r: CrawlerResponse)
    ensures
        outcome matches Ok(resp) ==> r == resp,
        outcome matches Err(error) ==> !r.success && r.message@ == "Crawler error: "@ + error@,
{
    match outcome {
        Ok(resp) => resp,
        Err(error) => {
            let mut message = "Crawler error: ".to_owned();
            message.append(error.as_str());
            CrawlerResponse { success: false, message }
        },
    }
}

} // verus!
