//! Token amounts and balances.

use vstd::prelude::*;
use crate::id::{Id, IdView};

verus! {

/// An amount of a token, counted in the token's smallest unit.
#[derive(Debug, Clone, Copy, PartialEq, Eq, Structural)]
pub struct Amount {
    pub raw: u128,
}

impl Amount {
    /// The amount of `raw` smallest units.
    pub fn new(raw: u128) -> (r: Self)
        ensures
            r.raw == raw,
    {
        Amount { raw }
    }

    /// The amount as a decimal numeral.
    pub fn to_string(&self) -> (r: String)
        ensures
            r@ == crate::text::decimal_text(self.raw as nat),
    {
        crate::text::unsigned_to_string(self.raw)
    }
}

impl Default for Amount {
    /// The amount zero: what a missing balance counts as.
    fn default() -> (r: Self)
        ensures
            r.raw == 0,
    {
        Amount { raw: 0 }
    }
}

/// What an owner holds of a token.
#[derive(Debug, Clone, PartialEq, Eq)]
pub struct Balance {
    pub owner: Id,
    pub token: Id,
    pub amount: Amount,
}

/// The mathematical value of a [`Balance`].
pub struct BalanceView {
    pub owner: IdView,
    pub token: IdView,
    pub amount: nat,
}

impl View for Balance {
    type V = BalanceView;

    open spec fn view(&self) -> BalanceView {
        BalanceView { owner: self.owner@, token: self.token@, amount: self.amount.raw as nat }
    }
}

/// The values of a list of balances.
pub open spec fn balances_view(balances: Seq<Balance>) -> Seq<BalanceView> {
    balances.map_values(|b: Balance| b@)
}

} // verus!
