//! Log lines of a crawl.
use vstd::prelude::*;

verus! {

/// Writes a crawl's progress; the lines are made by `Logger::line`.
#[derive(Debug, Clone, Copy)]
pub struct Logger;

/// `[level] timestamp message`.
pub open spec fn log_line(level: Seq<char>, timestamp: Seq<char>, message: Seq<char>) -> Seq<char> {
    "["@ + level + "] "@ + timestamp + " "@ + message
}

impl Logger {
    pub fn new() -> (r: Logger) {
        Logger
    }

    /// The line logged at `level` (`INFO`, `ERROR`) at `timestamp`.
    pub fn line(&self, level: &str, timestamp: &str, message: &str) -> (r: String)
        ensures
            r@ == log_line(level@, timestamp@, message@),
    {
        let mut r = "[".to_owned();
        r.append(level);
        r.append("] ");
        r.append(timestamp);
        r.append(" ");
        r.append(message);
        r
    }
}

} // verus!
