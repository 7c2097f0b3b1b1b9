//! The crawler's error taxonomy.
//!
//! A transport failure is recovered locally by the unit that met it: it is
//! never surfaced to the caller of a crawl, and never aborts the batch.

use vstd::prelude::*;
use vstd::string::StringExecFns;

verus! {

/// A failure a crawl unit can meet. `RequestError` carries the transport's
/// own description of a failed request (connection, DNS, TLS, protocol).
#[derive(Debug)]
pub enum CrawlerError {
    InvalidUrl,
    RequestError(String),
    ParseError,
}

impl CrawlerError {
    /// A human-readable description of the failure.
    pub fn message(&self) -> (r: String)
        ensures
            self is InvalidUrl ==> r@ == "Invalid URL"@,
            self matches CrawlerError::RequestError(m) ==> r@ == "Failed to fetch URL: "@ + m@,
            self is ParseError ==> r@ == "Failed to parse HTML"@,
    {
        match self {
            CrawlerError::InvalidUrl => String::from_str("Invalid URL"),
            CrawlerError::RequestError(m) => {
                let mut r = String::from_str("Failed to fetch URL: ");
                r.append(m.as_str());
                r
            },
            CrawlerError::ParseError => String::from_str("Failed to parse HTML"),
        }
    }
}

} // verus!
