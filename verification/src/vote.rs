//! Votes on governance proposals.

use vstd::prelude::*;
use crate::id::{Id, IdView};

verus! {

/// How a voter voted.
#[derive(Debug, Clone, Copy, PartialEq, Eq, Structural)]
pub enum ProposalVoteKind {
    Nay,
    Yay,
    Abstain,
}

/// One vote on one proposal.
#[derive(Debug, Clone, PartialEq, Eq)]
pub struct GovernanceVote {
    pub proposal_id: u64,
    pub vote: ProposalVoteKind,
    pub address: Id,
}

/// The mathematical value of a [`GovernanceVote`].
pub struct GovernanceVoteView {
    pub proposal_id: u64,
    pub vote: ProposalVoteKind,
    pub address: IdView,
}

impl View for GovernanceVote {
    type V = GovernanceVoteView;

    open spec fn view(&self) -> GovernanceVoteView {
        GovernanceVoteView { proposal_id: self.proposal_id, vote: self.vote, address: self.address@ }
    }
}

/// The values of a list of votes.
pub open spec fn votes_view(votes: Seq<GovernanceVote>) -> Seq<GovernanceVoteView> {
    votes.map_values(|v: GovernanceVote| v@)
}

} // verus!
