//! Crawling the SAT portal: configuration, the decisions of each crawl and the events it emits.
pub mod config;
pub mod crawler;
pub mod events;
pub mod logger;
pub mod constants;
pub mod filters;
pub mod portal;
pub mod session;
pub mod csf;
pub mod downloads;
