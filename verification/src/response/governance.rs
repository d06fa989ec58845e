//! Answers about governance proposals and votes.

use vstd::prelude::*;
use crate::orm::block_crawler_state::BlockCrawlerStateDb;
use crate::orm::governance_proposal::{
    GovernanceProposalDb, GovernanceProposalKindDb, GovernanceProposalResultDb,
    GovernanceProposalTallyTypeDb,
};
use crate::orm::governance_votes::{GovernanceProposalVoteDb, GovernanceVoteKindDb};
use crate::text::{signed_decimal_text, signed_to_string};

verus! {

/// The kind of a proposal.
#[derive(Debug, Clone, Copy, PartialEq, Eq, Structural)]
pub enum ProposalType {
    Default,
    DefaultWithWasm,
    PgfSteward,
    PgfFunding,
}

/// How a kind of proposal is written.
pub open spec fn proposal_type_text(kind: ProposalType) -> Seq<char> {
    match kind {
        ProposalType::Default => "default"@,
        ProposalType::DefaultWithWasm => "default_with_wasm"@,
        ProposalType::PgfSteward => "pgf_steward"@,
        ProposalType::PgfFunding => "pgf_funding"@,
    }
}

impl ProposalType {
    /// The kind as a text.
    pub fn to_string(&self) -> (r: String)
        ensures
            r@ == proposal_type_text(*self),
    {
        match self {
            ProposalType::Default => "default".to_owned(),
            ProposalType::DefaultWithWasm => "default_with_wasm".to_owned(),
            ProposalType::PgfSteward => "pgf_steward".to_owned(),
            ProposalType::PgfFunding => "pgf_funding".to_owned(),
        }
    }
}

/// How the votes on a proposal are counted.
#[derive(Debug, Clone, Copy, PartialEq, Eq, Structural)]
pub enum TallyType {
    TwoThirds,
    OneHalfOverOneThird,
    LessOneHalfOverOneThirdNay,
}

/// How a way of counting is written.
pub open spec fn tally_type_text(tally: TallyType) -> Seq<char> {
    match tally {
        TallyType::TwoThirds => "two_thirds"@,
        TallyType::OneHalfOverOneThird => "one_half_over_one_third"@,
        TallyType::LessOneHalfOverOneThirdNay => "less_one_half_over_one_third_nay"@,
    }
}

impl TallyType {
    /// The way of counting as a text.
    pub fn to_string(&self) -> (r: String)
        ensures
            r@ == tally_type_text(*self),
    {
        match self {
            TallyType::TwoThirds => "two_thirds".to_owned(),
            TallyType::OneHalfOverOneThird => "one_half_over_one_third".to_owned(),
            TallyType::LessOneHalfOverOneThirdNay => "less_one_half_over_one_third_nay".to_owned(),
        }
    }
}

/// How a voter voted.
#[derive(Debug, Clone, Copy, PartialEq, Eq, Structural)]
pub enum VoteType {
    Yay,
    Nay,
    Abstain,
}

/// Where a proposal stands.
#[derive(Debug, Clone, Copy, PartialEq, Eq, Structural)]
pub enum ProposalStatus {
    Pending,
    Rejected,
    Passed,
    Voting,
    Unknown,
}

/// How a status is written.
pub open spec fn proposal_status_text(status: ProposalStatus) -> Seq<char> {
    match status {
        ProposalStatus::Pending => "Pending"@,
        ProposalStatus::Rejected => "Rejected"@,
        ProposalStatus::Passed => "Passed"@,
        ProposalStatus::Voting => "Voting"@,
        ProposalStatus::Unknown => "Unknown"@,
    }
}

impl ProposalStatus {
    /// The status as a text.
    pub fn to_string(&self) -> (r: String)
        ensures
            r@ == proposal_status_text(*self),
    {
        match self {
            ProposalStatus::Pending => "Pending".to_owned(),
            ProposalStatus::Rejected => "Rejected".to_owned(),
            ProposalStatus::Passed => "Passed".to_owned(),
            ProposalStatus::Voting => "Voting".to_owned(),
            ProposalStatus::Unknown => "Unknown".to_owned(),
        }
    }
}

/// A proposal as the service answers with it.
#[derive(Debug, Clone, PartialEq, Eq)]
pub struct Proposal {
    pub id: String,
    pub content: String,
    pub kind: ProposalType,
    pub tally_type: TallyType,
    pub data: Option<String>,
    pub author: String,
    pub start_epoch: String,
    pub end_epoch: String,
    pub activation_epoch: String,
    pub start_time: String,
    pub end_time: String,
    pub current_time: String,
    pub status: ProposalStatus,
    pub yay_votes: String,
    pub nay_votes: String,
    pub abstain_votes: String,
}

/// A vote as the service answers with it.
#[derive(Debug, Clone, PartialEq, Eq)]
pub struct ProposalVote {
    pub proposal_id: u64,
    pub vote: VoteType,
    pub voter_address: String,
}

/// The answer for a stored kind of proposal.
pub open spec fn proposal_type_of(kind: GovernanceProposalKindDb) -> ProposalType {
    match kind {
        GovernanceProposalKindDb::PgfSteward => ProposalType::PgfSteward,
        GovernanceProposalKindDb::PgfFunding => ProposalType::PgfFunding,
        GovernanceProposalKindDb::Default => ProposalType::Default,
        GovernanceProposalKindDb::DefaultWithWasm => ProposalType::DefaultWithWasm,
    }
}

/// The answer for a stored way of counting.
pub open spec fn tally_type_of(tally: GovernanceProposalTallyTypeDb) -> TallyType {
    match tally {
        GovernanceProposalTallyTypeDb::TwoThirds => TallyType::TwoThirds,
        GovernanceProposalTallyTypeDb::OneHalfOverOneThird => TallyType::OneHalfOverOneThird,
        GovernanceProposalTallyTypeDb::LessOneHalfOverOneThirdNay => {
            TallyType::LessOneHalfOverOneThirdNay
        },
    }
}

/// The answer for a stored status.
pub open spec fn proposal_status_of(result: GovernanceProposalResultDb) -> ProposalStatus {
    match result {
        GovernanceProposalResultDb::Passed => ProposalStatus::Passed,
        GovernanceProposalResultDb::Rejected => ProposalStatus::Rejected,
        GovernanceProposalResultDb::Pending => ProposalStatus::Pending,
        GovernanceProposalResultDb::Unknown => ProposalStatus::Unknown,
        GovernanceProposalResultDb::VotingPeriod => ProposalStatus::Voting,
    }
}

/// The answer for a stored way to vote.
pub open spec fn vote_type_of(kind: GovernanceVoteKindDb) -> VoteType {
    match kind {
        GovernanceVoteKindDb::Nay => VoteType::Nay,
        GovernanceVoteKindDb::Yay => VoteType::Yay,
        GovernanceVoteKindDb::Abstain => VoteType::Abstain,
    }
}

impl Proposal {
    /// The answer for a stored proposal.
    ///
    /// `to_start` and `to_end` are the seconds from the time of the chain
    /// state to the start and to the end of the voting; a time that has
    /// passed is negative. The three times of the answer are the time of the
    /// chain state, and that time with `to_start` and with `to_end` added.
    /// Every number is written as a decimal numeral.
    pub fn from_proposal_db(
        value: GovernanceProposalDb,
        chain_state: &BlockCrawlerStateDb,
        to_start: i32,
        to_end: i32,
    ) -> (r: Self)
        ensures
            r.id@ == signed_decimal_text(value.id as int),
            r.content == value.content,
            r.kind == proposal_type_of(value.kind),
            r.tally_type == tally_type_of(value.tally_type),
            r.data == value.data,
            r.author == value.author,
            r.start_epoch@ == signed_decimal_text(value.start_epoch as int),
            r.end_epoch@ == signed_decimal_text(value.end_epoch as int),
            r.activation_epoch@ == signed_decimal_text(value.activation_epoch as int),
            r.start_time@ == signed_decimal_text(chain_state.timestamp + to_start),
            r.end_time@ == signed_decimal_text(chain_state.timestamp + to_end),
            r.current_time@ == signed_decimal_text(chain_state.timestamp as int),
            r.status == proposal_status_of(value.result),
            r.yay_votes == value.yay_votes,
            r.nay_votes == value.nay_votes,
            r.abstain_votes == value.abstain_votes,
    {
        let time_now: i128 = chain_state.timestamp as i128;
        let start_time: i128 = time_now + to_start as i128;
        let end_time: i128 = time_now + to_end as i128;
        Proposal {
            id: signed_to_string(value.id as i128),
            content: value.content,
            kind: match value.kind {
                GovernanceProposalKindDb::PgfSteward => ProposalType::PgfSteward,
                GovernanceProposalKindDb::PgfFunding => ProposalType::PgfFunding,
                GovernanceProposalKindDb::Default => ProposalType::Default,
                GovernanceProposalKindDb::DefaultWithWasm => ProposalType::DefaultWithWasm,
            },
            tally_type: match value.tally_type {
                GovernanceProposalTallyTypeDb::TwoThirds => TallyType::TwoThirds,
                GovernanceProposalTallyTypeDb::OneHalfOverOneThird => TallyType::OneHalfOverOneThird,
                GovernanceProposalTallyTypeDb::LessOneHalfOverOneThirdNay => {
                    TallyType::LessOneHalfOverOneThirdNay
                },
            },
            data: value.data,
            author: value.author,
            start_epoch: signed_to_string(value.start_epoch as i128),
            end_epoch: signed_to_string(value.end_epoch as i128),
            activation_epoch: signed_to_string(value.activation_epoch as i128),
            start_time: signed_to_string(start_time),
            end_time: signed_to_string(end_time),
            current_time: signed_to_string(time_now),
            status: match value.result {
                GovernanceProposalResultDb::Passed => ProposalStatus::Passed,
                GovernanceProposalResultDb::Rejected => ProposalStatus::Rejected,
                GovernanceProposalResultDb::Pending => ProposalStatus::Pending,
                GovernanceProposalResultDb::Unknown => ProposalStatus::Unknown,
                GovernanceProposalResultDb::VotingPeriod => ProposalStatus::Voting,
            },
            yay_votes: value.yay_votes,
            nay_votes: value.nay_votes,
            abstain_votes: value.abstain_votes,
        }
    }
}

impl ProposalVote {
    /// The answer for a stored vote: the number of the proposal as an
    /// unsigned number of 64 bits.
    pub fn from(value: GovernanceProposalVoteDb) -> (r: Self)
        ensures
            r.proposal_id == value.proposal_id as u64,
            r.vote == vote_type_of(value.kind),
            r.voter_address == value.voter_address,
    {
        ProposalVote {
            proposal_id: #[verifier::truncate]
            (value.proposal_id as u64),
            vote: match value.kind {
                GovernanceVoteKindDb::Nay => VoteType::Nay,
                GovernanceVoteKindDb::Yay => VoteType::Yay,
                GovernanceVoteKindDb::Abstain => VoteType::Abstain,
            },
            voter_address: value.voter_address,
        }
    }
}

} // verus!
