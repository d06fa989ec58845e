//! Answers about transactions.

use vstd::prelude::*;
use crate::orm::transactions::{
    InnerTransactionDb, TransactionKindDb, TransactionResultDb, WrapperTransactionDb,
};

verus! {

/// Whether a transaction took effect.
#[derive(Debug, Clone, Copy, PartialEq, Eq, Structural)]
pub enum TransactionResult {
    Applied,
    Rejected,
}

/// The kind of a transaction.
#[derive(Debug, Clone, Copy, PartialEq, Eq, Structural)]
pub enum TransactionKind {
    TransparentTransfer,
    ShieldedTransfer,
    ShieldingTransfer,
    UnshieldingTransfer,
    Bond,
    Redelegation,
    Unbond,
    Withdraw,
    ClaimRewards,
    VoteProposal,
    InitProposal,
    ChangeMetadata,
    ChangeCommission,
    RevealPk,
    Unknown,
}

/// A wrapper transaction as the service answers with it.
#[derive(Debug, Clone, PartialEq, Eq)]
pub struct WrapperTransaction {
    pub tx_id: String,
    pub fee_payer: String,
    pub fee_token: String,
    pub gas_limit: String,
    pub block_height: u64,
    pub exit_code: TransactionResult,
    pub atomic: bool,
}

/// An inner transaction as the service answers with it.
#[derive(Debug, Clone, PartialEq, Eq)]
pub struct InnerTransaction {
    pub id: String,
    pub wrapper_id: String,
    pub kind: TransactionKind,
    pub data: Option<String>,
    pub memo: Option<String>,
    pub exit_code: TransactionResult,
}

/// The answer for a stored result.
pub open spec fn result_of(value: TransactionResultDb) -> TransactionResult {
    match value {
        TransactionResultDb::Applied => TransactionResult::Applied,
        TransactionResultDb::Rejected => TransactionResult::Rejected,
    }
}

/// The answer for a stored kind: the kind of the same name.
pub open spec fn kind_of(value: TransactionKindDb) -> TransactionKind {
    match value {
        TransactionKindDb::TransparentTransfer => TransactionKind::TransparentTransfer,
        TransactionKindDb::ShieldedTransfer => TransactionKind::ShieldedTransfer,
        TransactionKindDb::ShieldingTransfer => TransactionKind::ShieldingTransfer,
        TransactionKindDb::UnshieldingTransfer => TransactionKind::UnshieldingTransfer,
        TransactionKindDb::Bond => TransactionKind::Bond,
        TransactionKindDb::Redelegation => TransactionKind::Redelegation,
        TransactionKindDb::Unbond => TransactionKind::Unbond,
        TransactionKindDb::Withdraw => TransactionKind::Withdraw,
        TransactionKindDb::ClaimRewards => TransactionKind::ClaimRewards,
        TransactionKindDb::VoteProposal => TransactionKind::VoteProposal,
        TransactionKindDb::InitProposal => TransactionKind::InitProposal,
        TransactionKindDb::ChangeMetadata => TransactionKind::ChangeMetadata,
        TransactionKindDb::ChangeCommission => TransactionKind::ChangeCommission,
        TransactionKindDb::RevealPk => TransactionKind::RevealPk,
        TransactionKindDb::Unknown => TransactionKind::Unknown,
    }
}

impl TransactionResult {
    /// The answer for a stored result.
    pub fn from(value: TransactionResultDb) -> (r: Self)
        ensures
            r == result_of(value),
    {
        match value {
            TransactionResultDb::Applied => TransactionResult::Applied,
            TransactionResultDb::Rejected => TransactionResult::Rejected,
        }
    }
}

impl TransactionKind {
    /// The answer for a stored kind.
    pub fn from(value: TransactionKindDb) -> (r: Self)
        ensures
            r == kind_of(value),
    {
        match value {
            TransactionKindDb::TransparentTransfer => TransactionKind::TransparentTransfer,
            TransactionKindDb::ShieldedTransfer => TransactionKind::ShieldedTransfer,
            TransactionKindDb::ShieldingTransfer => TransactionKind::ShieldingTransfer,
            TransactionKindDb::UnshieldingTransfer => TransactionKind::UnshieldingTransfer,
            TransactionKindDb::Bond => TransactionKind::Bond,
            TransactionKindDb::Redelegation => TransactionKind::Redelegation,
            TransactionKindDb::Unbond => TransactionKind::Unbond,
            TransactionKindDb::Withdraw => TransactionKind::Withdraw,
            TransactionKindDb::ClaimRewards => TransactionKind::ClaimRewards,
            TransactionKindDb::VoteProposal => TransactionKind::VoteProposal,
            TransactionKindDb::InitProposal => TransactionKind::InitProposal,
            TransactionKindDb::ChangeMetadata => TransactionKind::ChangeMetadata,
            TransactionKindDb::ChangeCommission => TransactionKind::ChangeCommission,
            TransactionKindDb::RevealPk => TransactionKind::RevealPk,
            TransactionKindDb::Unknown => TransactionKind::Unknown,
        }
    }
}

impl WrapperTransaction {
    /// The answer for a stored wrapper transaction: the height as an unsigned
    /// number of 64 bits, the rest as it is.
    pub fn from(value: WrapperTransactionDb) -> (r: Self)
        ensures
            r.tx_id == value.id,
            r.fee_payer == value.fee_payer,
            r.fee_token == value.fee_token,
            r.gas_limit == value.gas_limit,
            r.block_height == value.block_height as u64,
            r.exit_code == result_of(value.exit_code),
            r.atomic == value.atomic,
    {
        WrapperTransaction {
            tx_id: value.id,
            fee_payer: value.fee_payer,
            fee_token: value.fee_token,
            gas_limit: value.gas_limit,
            block_height: #[verifier::truncate]
            (value.block_height as u64),
            exit_code: TransactionResult::from(value.exit_code),
            atomic: value.atomic,
        }
    }
}

impl InnerTransaction {
    /// The answer for a stored inner transaction.
    pub fn from(value: InnerTransactionDb) -> (r: Self)
        ensures
            r.id == value.id,
            r.wrapper_id == value.wrapper_id,
            r.kind == kind_of(value.kind),
            r.data == value.data,
            r.memo == value.memo,
            r.exit_code == result_of(value.exit_code),
    {
        InnerTransaction {
            id: value.id,
            wrapper_id: value.wrapper_id,
            kind: TransactionKind::from(value.kind),
            data: value.data,
            memo: value.memo,
            exit_code: TransactionResult::from(value.exit_code),
        }
    }
}

} // verus!
