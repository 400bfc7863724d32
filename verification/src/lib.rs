//! `dirsize` computes the cumulative storage footprint of a directory tree:
//! the total number of bytes consumed, the count of files visited, and a
//! record of entries whose metadata could not be read.
//!
//! Symbolic links are never followed, and the size of a file is divided
//! (floor) by its hard-link count so that hard-linked data is not counted
//! once per link. The division spreads a file's size across every hard link
//! the filesystem reports, including links outside the scanned tree, so the
//! total can undercount when such links exist; that approximation is part of
//! the tool's contract.
//!
//! This crate holds the traversal-independent core: per-entry outcomes, the
//! hard-link size adjustment, failure classification, and the aggregation of
//! outcomes into a [`DirSize`] result. The filesystem walk itself hands the
//! core one [`EntryOutcome`] per discovered entry, in whatever order its
//! workers produce them; the aggregate result is proved independent of that
//! order.

mod dirsize;
mod error;
mod laws;

pub use dirsize::adjusted_contribution;
pub use dirsize::aggregate_outcomes;
pub use dirsize::all_wf;
pub use dirsize::contrib_of;
pub use dirsize::count_resolved;
pub use dirsize::errors_of;
pub use dirsize::lemma_contrib_bounds;
pub use dirsize::outcome_wf;
pub use dirsize::record_seq;
pub use dirsize::resolved_one;
pub use dirsize::sum_contribs;
pub use dirsize::resolve_threads;
pub use dirsize::resolve_unit;
pub use dirsize::should_resolve;
pub use dirsize::DirSize;
pub use dirsize::DirsizeRequest;
pub use dirsize::Entry;
pub use dirsize::EntryOutcome;
pub use dirsize::SizeUnit;
pub use dirsize::TraversalState;
pub use error::classify_walk_failure;
pub use error::walk_failure_record;
pub use error::DirsizeError;
pub use laws::lemma_aggregation_order_independent;
pub use laws::lemma_one_record_per_failure;
pub use laws::lemma_single_link_full_contribution;
