//! Multi-search core: dispatching a batch of per-index search queries and
//! merging their ranked results.
//!
//! A client submits an ordered batch of queries, each naming its own index.
//! The dispatcher authorizes, resolves and executes them strictly in input
//! order, attributing the first failure to the 0-based position of the query
//! that caused it. When every query succeeds, the merger can interleave the
//! per-query ranked hit lists into one list of at most `max_hits` entries,
//! ordered by descending score.

pub mod dispatch;
pub mod error;
pub mod merge;
pub mod multi_search;
pub mod search;
