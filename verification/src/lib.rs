//! The core of a chain indexer: it turns blocks and transactions of a
//! proof-of-stake chain into records, computes protocol parameters and the
//! staking yield, and decides the steps of a crawl that resumes where it
//! stopped.

pub mod balance;
pub mod block;
pub mod block_result;
pub mod bond;
pub mod chain;
pub mod checksums;
pub mod crawler;
pub mod decimal;
pub mod encoding;
pub mod header;
pub mod id;
pub mod natural;
pub mod orm;
pub mod parameters;
pub mod proposal;
pub mod response;
pub mod sequence;
pub mod text;
pub mod transaction;
pub mod unbond;
pub mod utils;
pub mod validator;
pub mod vote;
