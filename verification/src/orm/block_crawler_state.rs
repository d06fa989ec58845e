//! The row that says how far the crawl of blocks has come.

use vstd::prelude::*;

verus! {

/// How far the crawl of blocks has come: the height and the epoch of the
/// last block that was indexed, and the time of that block in seconds.
#[derive(Debug, Clone, Copy, PartialEq, Eq, Structural)]
pub struct BlockCrawlerStateDb {
    pub id: i32,
    pub height: i32,
    pub epoch: i32,
    pub timestamp: i64,
}

} // verus!
