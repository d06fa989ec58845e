//! Unbonds: stake on its way back from a validator to its source.

use vstd::prelude::*;
use crate::balance::Amount;
use crate::id::{Id, IdView};

verus! {

/// The two ends of an unbond: who gets the stake back, and from which
/// validator.
#[derive(Debug, Clone, PartialEq, Eq)]
pub struct UnbondAddresses {
    pub source: Id,
    pub validator: Id,
}

/// The mathematical value of an [`UnbondAddresses`].
pub struct UnbondAddressesView {
    pub source: IdView,
    pub validator: IdView,
}

impl View for UnbondAddresses {
    type V = UnbondAddressesView;

    open spec fn view(&self) -> UnbondAddressesView {
        UnbondAddressesView { source: self.source@, validator: self.validator@ }
    }
}

/// The values of a list of unbond addresses.
pub open spec fn unbond_addresses_view(pairs: Seq<UnbondAddresses>) -> Seq<UnbondAddressesView> {
    pairs.map_values(|p: UnbondAddresses| p@)
}

/// An unbond with its amount and the epoch from which it can be withdrawn.
#[derive(Debug, Clone, PartialEq, Eq)]
pub struct Unbond {
    pub source: Id,
    pub target: Id,
    pub amount: Amount,
    pub withdraw_at: u32,
}

/// The mathematical value of an [`Unbond`].
pub struct UnbondView {
    pub source: IdView,
    pub target: IdView,
    pub amount: nat,
    pub withdraw_at: nat,
}

impl View for Unbond {
    type V = UnbondView;

    open spec fn view(&self) -> UnbondView {
        UnbondView {
            source: self.source@,
            target: self.target@,
            amount: self.amount.raw as nat,
            withdraw_at: self.withdraw_at as nat,
        }
    }
}

/// The values of a list of unbonds.
pub open spec fn unbonds_view(unbonds: Seq<Unbond>) -> Seq<UnbondView> {
    unbonds.map_values(|u: Unbond| u@)
}

/// The unbonds that were read at one epoch.
#[derive(Debug, Clone, PartialEq, Eq)]
pub struct Unbonds {
    pub epoch: u32,
    pub values: Vec<Unbond>,
}

} // verus!
