//! SAT (Mexican Tax Service) invoice documents and portal crawling logic.
pub mod text;
pub mod cfdi;
pub mod dates;
pub mod satcrawler;
pub mod cli;
pub mod crawler;
pub mod command;
