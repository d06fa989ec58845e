//! The pair of an address and a token whose balance a block may have changed.

use vstd::prelude::*;
use crate::id::{Id, IdView};

verus! {

/// An address and a token: the balance of that address in that token may
/// have changed.
#[derive(Debug, PartialEq, Eq)]
pub struct BalanceChange {
    pub address: Id,
    pub token: Id,
}

/// The mathematical value of a [`BalanceChange`].
pub struct BalanceChangeView {
    pub address: IdView,
    pub token: IdView,
}

impl View for BalanceChange {
    type V = BalanceChangeView;

    open spec fn view(&self) -> BalanceChangeView {
        BalanceChangeView { address: self.address@, token: self.token@ }
    }
}

impl Clone for BalanceChange {
    fn clone(&self) -> (r: Self)
        ensures
            r == *self,
    {
        BalanceChange { address: self.address.clone(), token: self.token.clone() }
    }
}

impl BalanceChange {
    /// The change of `address` in `token`.
    pub fn new(address: Id, token: Id) -> (r: Self)
        ensures
            r.address == address,
            r.token == token,
    {
        BalanceChange { address, token }
    }

    /// Do the two name the same address and the same token?
    pub fn same(&self, other: &BalanceChange) -> (r: bool)
        ensures
            r == (self@ == other@),
    {
        self.address.same(&other.address) && self.token.same(&other.token)
    }
}

} // verus!
