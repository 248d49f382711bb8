//! Work-discovery and dispatch core for a code-search tool.
//!
//! Candidate inputs (files under a directory tree, or a single standard-input
//! stream) are turned into zero or more typed work items and delivered to a
//! single consumer. The decision logic — entry filtering, path normalization,
//! per-run statistics, and the order in which produced items reach the
//! consumer — lives here and is verified; thread plumbing and I/O stay with
//! the caller.

mod entry;
mod externals;
mod items;
mod stats;
mod worker;

pub use entry::Entry;
pub use entry::filter_result;
pub use entry::filter_spec;
pub use entry::is_candidate;
pub use entry::lemma_prefix_normalization;
pub use entry::strip_dot_slash;
pub use entry::strip_dot_slash_spec;
pub use items::Items;
pub use stats::FileStats;
pub use worker::PathWorker;
pub use worker::StdInWorker;
pub use worker::Worker;
pub use worker::count_candidates;
pub use worker::dispatch_parsed;
pub use worker::count_declined;
pub use worker::error_logs;
pub use worker::flatten_produced;
pub use worker::lemma_candidates_are_filtered_entries;
pub use worker::lemma_count_candidates_le_len;
pub use worker::lemma_producer_order;
pub use worker::process_entry;
pub use worker::Processed;
pub use worker::produced_items;
pub use worker::record_production;
pub use worker::run_entries;
pub use worker::run_worker;
