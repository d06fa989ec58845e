//! The rows that the storage holds, and how the indexer's records become
//! rows.

pub mod block_crawler_state;
pub mod governance_proposal;
pub mod governance_votes;
pub mod parameters;
pub mod transactions;
pub mod validators;
