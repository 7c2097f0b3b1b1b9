//! A concurrent web-page title crawler's verified core.
//!
//! The library holds the logic of a batch crawl: deciding what a unit of
//! work contributes from its fetch outcome, extracting a page title from an
//! HTML body, and accumulating entries in a result collection whose appends
//! are exact. The surrounding program performs the network fetches and
//! schedules the units; each unit hands its outcome to this library as plain
//! values.

pub mod crawl;
pub mod error;
pub mod extract;
pub mod results;
pub mod server;
