//! Governance proposals.

use vstd::prelude::*;
use crate::id::{Id, IdView};
use crate::text::optional_text;

verus! {

/// The kind of a governance proposal.
#[derive(Debug, Clone, Copy, PartialEq, Eq, Structural)]
pub enum GovernanceProposalKind {
    PgfSteward,
    PgfFunding,
    Default,
    DefaultWithWasm,
}

/// A governance proposal as a block introduces it.
#[derive(Debug, Clone, PartialEq, Eq)]
pub struct GovernanceProposal {
    pub id: u64,
    pub content: String,
    pub kind: GovernanceProposalKind,
    pub data: Option<String>,
    pub author: Id,
    pub voting_start_epoch: u32,
    pub voting_end_epoch: u32,
    pub activation_epoch: u32,
}

/// The mathematical value of a [`GovernanceProposal`].
pub struct GovernanceProposalView {
    pub id: u64,
    pub content: Seq<char>,
    pub kind: GovernanceProposalKind,
    pub data: Option<Seq<char>>,
    pub author: IdView,
    pub voting_start_epoch: u32,
    pub voting_end_epoch: u32,
    pub activation_epoch: u32,
}

impl View for GovernanceProposal {
    type V = GovernanceProposalView;

    open spec fn view(&self) -> GovernanceProposalView {
        GovernanceProposalView {
            id: self.id,
            content: self.content@,
            kind: self.kind,
            data: optional_text(self.data),
            author: self.author@,
            voting_start_epoch: self.voting_start_epoch,
            voting_end_epoch: self.voting_end_epoch,
            activation_epoch: self.activation_epoch,
        }
    }
}

/// The values of a list of proposals.
pub open spec fn proposals_view(proposals: Seq<GovernanceProposal>) -> Seq<GovernanceProposalView> {
    proposals.map_values(|p: GovernanceProposal| p@)
}

/// Where a proposal stands.
#[derive(Debug, Clone, Copy, PartialEq, Eq, Structural)]
pub enum GovernanceProposalResult {
    Passed,
    Rejected,
    Pending,
    VotingPeriod,
}

/// The tally of a proposal and where it stands.
#[derive(Debug, Clone, PartialEq, Eq)]
pub struct GovernanceProposalStatus {
    pub id: u64,
    pub result: GovernanceProposalResult,
    pub yay_votes: String,
    pub nay_votes: String,
    pub abstain_votes: String,
}

} // verus!
