//! Bonds: stake that a source has delegated to a validator.

use vstd::prelude::*;
use crate::balance::Amount;
use crate::id::{Id, IdView};

verus! {

/// The two ends of a bond: who staked, and with which validator.
#[derive(Debug, Clone, PartialEq, Eq)]
pub struct BondAddresses {
    pub source: Id,
    pub target: Id,
}

/// The mathematical value of a [`BondAddresses`].
pub struct BondAddressesView {
    pub source: IdView,
    pub target: IdView,
}

impl View for BondAddresses {
    type V = BondAddressesView;

    open spec fn view(&self) -> BondAddressesView {
        BondAddressesView { source: self.source@, target: self.target@ }
    }
}

/// The values of a list of bond addresses.
pub open spec fn bond_addresses_view(pairs: Seq<BondAddresses>) -> Seq<BondAddressesView> {
    pairs.map_values(|p: BondAddresses| p@)
}

/// A bond with its amount.
#[derive(Debug, Clone, PartialEq, Eq)]
pub struct Bond {
    pub source: Id,
    pub target: Id,
    pub amount: Amount,
}

/// The mathematical value of a [`Bond`].
pub struct BondView {
    pub source: IdView,
    pub target: IdView,
    pub amount: nat,
}

impl View for Bond {
    type V = BondView;

    open spec fn view(&self) -> BondView {
        BondView { source: self.source@, target: self.target@, amount: self.amount.raw as nat }
    }
}

/// The values of a list of bonds.
pub open spec fn bonds_view(bonds: Seq<Bond>) -> Seq<BondView> {
    bonds.map_values(|b: Bond| b@)
}

/// The bonds that were read at one epoch.
#[derive(Debug, Clone, PartialEq, Eq)]
pub struct Bonds {
    pub epoch: u32,
    pub values: Vec<Bond>,
}

} // verus!
