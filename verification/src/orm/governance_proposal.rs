//! The rows of governance proposals.

use vstd::prelude::*;
use crate::proposal::{
    GovernanceProposal, GovernanceProposalKind, GovernanceProposalResult, GovernanceProposalStatus,
};

verus! {

/// The kind of a proposal, as the storage holds it.
#[derive(Debug, Clone, Copy, PartialEq, Eq, Structural)]
pub enum GovernanceProposalKindDb {
    PgfSteward,
    PgfFunding,
    Default,
    DefaultWithWasm,
}

/// The stored form of a kind of proposal.
pub open spec fn kind_db_of(kind: GovernanceProposalKind) -> GovernanceProposalKindDb {
    match kind {
        GovernanceProposalKind::PgfSteward => GovernanceProposalKindDb::PgfSteward,
        GovernanceProposalKind::PgfFunding => GovernanceProposalKindDb::PgfFunding,
        GovernanceProposalKind::Default => GovernanceProposalKindDb::Default,
        GovernanceProposalKind::DefaultWithWasm => GovernanceProposalKindDb::DefaultWithWasm,
    }
}

impl GovernanceProposalKindDb {
    /// The stored form of a kind of proposal.
    pub fn from(value: GovernanceProposalKind) -> (r: Self)
        ensures
            r == kind_db_of(value),
    {
        match value {
            GovernanceProposalKind::PgfSteward => GovernanceProposalKindDb::PgfSteward,
            GovernanceProposalKind::PgfFunding => GovernanceProposalKindDb::PgfFunding,
            GovernanceProposalKind::Default => GovernanceProposalKindDb::Default,
            GovernanceProposalKind::DefaultWithWasm => GovernanceProposalKindDb::DefaultWithWasm,
        }
    }
}

/// Where a proposal stands, as the storage holds it.
#[derive(Debug, Clone, Copy, PartialEq, Eq, Structural)]
pub enum GovernanceProposalResultDb {
    Passed,
    Rejected,
    Pending,
    Unknown,
    VotingPeriod,
}

/// The stored form of where a proposal stands.
pub open spec fn result_db_of(result: GovernanceProposalResult) -> GovernanceProposalResultDb {
    match result {
        GovernanceProposalResult::Passed => GovernanceProposalResultDb::Passed,
        GovernanceProposalResult::Rejected => GovernanceProposalResultDb::Rejected,
        GovernanceProposalResult::VotingPeriod => GovernanceProposalResultDb::VotingPeriod,
        GovernanceProposalResult::Pending => GovernanceProposalResultDb::Pending,
    }
}

impl GovernanceProposalResultDb {
    /// The stored form of where a proposal stands.
    pub fn from(value: GovernanceProposalResult) -> (r: Self)
        ensures
            r == result_db_of(value),
    {
        match value {
            GovernanceProposalResult::Passed => GovernanceProposalResultDb::Passed,
            GovernanceProposalResult::Rejected => GovernanceProposalResultDb::Rejected,
            GovernanceProposalResult::VotingPeriod => GovernanceProposalResultDb::VotingPeriod,
            GovernanceProposalResult::Pending => GovernanceProposalResultDb::Pending,
        }
    }
}

/// How the votes on a proposal are counted, as the storage holds it.
#[derive(Debug, Clone, Copy, PartialEq, Eq, Structural)]
pub enum GovernanceProposalTallyTypeDb {
    TwoThirds,
    OneHalfOverOneThird,
    LessOneHalfOverOneThirdNay,
}

/// A stored proposal.
#[derive(Debug, Clone, PartialEq, Eq)]
pub struct GovernanceProposalDb {
    pub id: i32,
    pub content: String,
    pub data: Option<String>,
    pub kind: GovernanceProposalKindDb,
    pub tally_type: GovernanceProposalTallyTypeDb,
    pub author: String,
    pub start_epoch: i32,
    pub end_epoch: i32,
    pub activation_epoch: i32,
    pub yay_votes: String,
    pub nay_votes: String,
    pub abstain_votes: String,
    pub result: GovernanceProposalResultDb,
}

/// A proposal as it is first stored.
#[derive(Debug, Clone, PartialEq, Eq)]
pub struct GovernanceProposalInsertDb {
    pub id: i32,
    pub content: String,
    pub data: Option<String>,
    pub kind: GovernanceProposalKindDb,
    pub author: String,
    pub start_epoch: i32,
    pub end_epoch: i32,
    pub activation_epoch: i32,
}

impl GovernanceProposalInsertDb {
    /// The row of a proposal: the number and the epochs cut to 32 bits and
    /// read as signed numbers, the author as its canonical text, the rest
    /// as it is.
    pub fn from_governance_proposal(proposal: GovernanceProposal) -> (r: Self)
        ensures
            r.id == proposal.id as i32,
            r.content == proposal.content,
            r.data == proposal.data,
            r.kind == kind_db_of(proposal.kind),
            r.author@ == proposal.author@.text(),
            r.start_epoch == proposal.voting_start_epoch as i32,
            r.end_epoch == proposal.voting_end_epoch as i32,
            r.activation_epoch == proposal.activation_epoch as i32,
    {
        let author = proposal.author.to_string();
        GovernanceProposalInsertDb {
            id: #[verifier::truncate]
            (proposal.id as i32),
            content: proposal.content,
            data: proposal.data,
            kind: GovernanceProposalKindDb::from(proposal.kind),
            author,
            start_epoch: #[verifier::truncate]
            (proposal.voting_start_epoch as i32),
            end_epoch: #[verifier::truncate]
            (proposal.voting_end_epoch as i32),
            activation_epoch: #[verifier::truncate]
            (proposal.activation_epoch as i32),
        }
    }
}

/// The tally of a proposal and where it stands, as they are written over
/// the stored ones.
#[derive(Debug, Clone, PartialEq, Eq)]
pub struct GovernanceProposalUpdateStatusDb {
    pub yay_votes: String,
    pub nay_votes: String,
    pub abstain_votes: String,
    pub result: GovernanceProposalResultDb,
}

impl GovernanceProposalUpdateStatusDb {
    /// The update that a status stands for.
    pub fn from(value: GovernanceProposalStatus) -> (r: Self)
        ensures
            r.yay_votes == value.yay_votes,
            r.nay_votes == value.nay_votes,
            r.abstain_votes == value.abstain_votes,
            r.result == result_db_of(value.result),
    {
        GovernanceProposalUpdateStatusDb {
            yay_votes: value.yay_votes,
            nay_votes: value.nay_votes,
            abstain_votes: value.abstain_votes,
            result: GovernanceProposalResultDb::from(value.result),
        }
    }
}

} // verus!
