//! CFDI electronic invoices: their data model, SAT catalogs and document preparation.
pub mod catalogs;
pub mod complement;
pub mod freight;
pub mod invoice;
pub mod payment;
pub mod payroll;
pub mod xml;
pub mod document;
