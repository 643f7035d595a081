//! What a crawl reports about each invoice and each tax status certificate.
use vstd::prelude::*;

verus! {

/// An invoice as the portal lists it.
#[derive(Debug, Clone)]
pub struct Invoice {
    pub uuid: String,
    pub fiscal_id: String,
    pub issuer_tax_id: String,
    pub issuer_name: String,
    pub receiver_tax_id: String,
    pub receiver_name: String,
    pub issued_at: String,
    pub certified_at: String,
    pub total: String,
    pub invoice_type: String,
    pub invoice_status: String,
}

/// Something that happened to one invoice during a download.
#[derive(Debug, Clone)]
pub enum InvoiceEvent {
    XmlDownloaded { invoice: Invoice, content: Vec<u8> },
    PdfDownloaded { invoice: Invoice, content: Vec<u8> },
    XmlDownloadFailed { invoice: Invoice, error: String },
    PdfDownloadFailed { invoice: Invoice, error: String },
    Skipped { invoice: Invoice },
}

/// Receives the events of an invoice download; implemented by the crawl's user.
pub trait InvoiceEventHandler {
    /// Whether the invoice is downloaded; every invoice is, unless the handler says otherwise.
    fn should_download(&self, invoice: &Invoice) -> (r: bool)
        default_ensures
            r,
    {
        true
    }

    fn on_invoice_event(&self, event: InvoiceEvent);
}

/// What happened to the tax status certificate (CSF) download.
#[derive(Debug, Clone)]
pub enum CsfEvent {
    PdfDownloaded { content: Vec<u8> },
    PdfDownloadFailed { error: String },
}

/// Receives the events of a tax status certificate download; implemented by the crawl's user.
pub trait CsfEventHandler {
    fn on_csf_event(&self, event: CsfEvent);
}

} // verus!
