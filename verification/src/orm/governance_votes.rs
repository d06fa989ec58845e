//! The rows of votes on governance proposals.

use vstd::prelude::*;
use crate::vote::ProposalVoteKind;

verus! {

/// How a voter voted, as the storage holds it.
#[derive(Debug, Clone, Copy, PartialEq, Eq, Structural)]
pub enum GovernanceVoteKindDb {
    Nay,
    Yay,
    Abstain,
}

/// The stored form of a way to vote.
pub open spec fn vote_kind_db_of(kind: ProposalVoteKind) -> GovernanceVoteKindDb {
    match kind {
        ProposalVoteKind::Nay => GovernanceVoteKindDb::Nay,
        ProposalVoteKind::Yay => GovernanceVoteKindDb::Yay,
        ProposalVoteKind::Abstain => GovernanceVoteKindDb::Abstain,
    }
}

impl GovernanceVoteKindDb {
    /// The stored form of a way to vote.
    pub fn from(kind: ProposalVoteKind) -> (r: Self)
        ensures
            r == vote_kind_db_of(kind),
    {
        match kind {
            ProposalVoteKind::Nay => GovernanceVoteKindDb::Nay,
            ProposalVoteKind::Yay => GovernanceVoteKindDb::Yay,
            ProposalVoteKind::Abstain => GovernanceVoteKindDb::Abstain,
        }
    }
}

/// A stored vote.
#[derive(Debug, Clone, PartialEq, Eq)]
pub struct GovernanceProposalVoteDb {
    pub id: i32,
    pub voter_address: String,
    pub kind: GovernanceVoteKindDb,
    pub proposal_id: i32,
}

} // verus!
