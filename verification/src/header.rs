//! The header of a block.

use vstd::prelude::*;
use crate::id::{Id, IdView};

verus! {

/// What the header of a block says.
#[derive(Debug, Clone, PartialEq, Eq)]
pub struct BlockHeader {
    pub height: u32,
    pub proposer_address: String,
    pub timestamp: String,
    pub app_hash: Id,
}

/// The mathematical value of a [`BlockHeader`].
pub struct BlockHeaderView {
    pub height: u32,
    pub proposer_address: Seq<char>,
    pub timestamp: Seq<char>,
    pub app_hash: IdView,
}

impl View for BlockHeader {
    type V = BlockHeaderView;

    open spec fn view(&self) -> BlockHeaderView {
        BlockHeaderView {
            height: self.height,
            proposer_address: self.proposer_address@,
            timestamp: self.timestamp@,
            app_hash: self.app_hash@,
        }
    }
}

impl Default for BlockHeader {
    /// Height zero, empty texts and the empty hash.
    fn default() -> (r: Self)
        ensures
            r@ == (BlockHeaderView {
                height: 0,
                proposer_address: Seq::<char>::empty(),
                timestamp: Seq::<char>::empty(),
                app_hash: IdView::Hash(Seq::<char>::empty()),
            }),
    {
        BlockHeader {
            height: 0,
            proposer_address: String::new(),
            timestamp: String::new(),
            app_hash: Id::default(),
        }
    }
}

} // verus!
