//! Verified core of a catalog browser for a comic-review site: fuzzy
//! resolution of a free-text query against scraped catalog entries, and
//! fault-tolerant extraction of per-issue review records from listing rows.

pub mod catalog;
pub mod dom;
pub mod extract;
pub mod fuzzy;
