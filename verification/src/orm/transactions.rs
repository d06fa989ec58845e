//! The rows of transactions.

use vstd::prelude::*;

verus! {

/// Whether a transaction took effect, as the storage holds it.
#[derive(Debug, Clone, Copy, PartialEq, Eq, Structural)]
pub enum TransactionResultDb {
    Applied,
    Rejected,
}

/// The kind of a transaction, as the storage holds it.
#[derive(Debug, Clone, Copy, PartialEq, Eq, Structural)]
pub enum TransactionKindDb {
    TransparentTransfer,
    ShieldedTransfer,
    ShieldingTransfer,
    UnshieldingTransfer,
    Bond,
    Redelegation,
    Unbond,
    Withdraw,
    ClaimRewards,
    VoteProposal,
    InitProposal,
    ChangeMetadata,
    ChangeCommission,
    RevealPk,
    Unknown,
}

/// A stored wrapper transaction.
#[derive(Debug, Clone, PartialEq, Eq)]
pub struct WrapperTransactionDb {
    pub id: String,
    pub fee_payer: String,
    pub fee_token: String,
    pub gas_limit: String,
    pub block_height: i32,
    pub exit_code: TransactionResultDb,
    pub atomic: bool,
}

/// A stored inner transaction.
#[derive(Debug, Clone, PartialEq, Eq)]
pub struct InnerTransactionDb {
    pub id: String,
    pub wrapper_id: String,
    pub kind: TransactionKindDb,
    pub data: Option<String>,
    pub memo: Option<String>,
    pub exit_code: TransactionResultDb,
}

} // verus!
