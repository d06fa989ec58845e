use chain_indexer::id::Id;
use chain_indexer::orm::block_crawler_state::BlockCrawlerStateDb;
use chain_indexer::orm::governance_proposal::{
    GovernanceProposalDb, GovernanceProposalInsertDb, GovernanceProposalKindDb,
    GovernanceProposalResultDb, GovernanceProposalTallyTypeDb, GovernanceProposalUpdateStatusDb,
};
use chain_indexer::orm::governance_votes::{GovernanceProposalVoteDb, GovernanceVoteKindDb};
use chain_indexer::orm::parameters::{ParametersDb, ParametersInsertDb};
use chain_indexer::orm::transactions::{
    InnerTransactionDb, TransactionKindDb, TransactionResultDb, WrapperTransactionDb,
};
use chain_indexer::orm::validators::{ValidatorInsertDb, ValidatorUpdateMetadataDb};
use chain_indexer::parameters::Parameters;
use chain_indexer::proposal::{
    GovernanceProposal, GovernanceProposalKind, GovernanceProposalResult, GovernanceProposalStatus,
};
use chain_indexer::response::governance::{
    Proposal, ProposalStatus, ProposalType, ProposalVote, TallyType, VoteType,
};
use chain_indexer::response::transaction::{
    InnerTransaction, TransactionKind, TransactionResult, WrapperTransaction,
};
use chain_indexer::validator::{Validator, ValidatorMetadataChange};
use chain_indexer::vote::ProposalVoteKind;

fn stored_proposal() -> GovernanceProposalDb {
    GovernanceProposalDb {
        id: 12,
        content: "{}".to_string(),
        data: Some("00ff".to_string()),
        kind: GovernanceProposalKindDb::DefaultWithWasm,
        tally_type: GovernanceProposalTallyTypeDb::OneHalfOverOneThird,
        author: "tnam1author".to_string(),
        start_epoch: 3,
        end_epoch: 9,
        activation_epoch: 11,
        yay_votes: "10".to_string(),
        nay_votes: "2".to_string(),
        abstain_votes: "0".to_string(),
        result: GovernanceProposalResultDb::VotingPeriod,
    }
}

#[test]
fn kinds_of_proposals_are_stored_under_the_same_name() {
    let pairs = [
        (GovernanceProposalKind::PgfSteward, GovernanceProposalKindDb::PgfSteward),
        (GovernanceProposalKind::PgfFunding, GovernanceProposalKindDb::PgfFunding),
        (GovernanceProposalKind::Default, GovernanceProposalKindDb::Default),
        (GovernanceProposalKind::DefaultWithWasm, GovernanceProposalKindDb::DefaultWithWasm),
    ];
    for (kind, stored) in pairs {
        assert_eq!(GovernanceProposalKindDb::from(kind), stored);
    }
}

#[test]
fn results_of_proposals_are_stored_under_the_same_name() {
    let pairs = [
        (GovernanceProposalResult::Passed, GovernanceProposalResultDb::Passed),
        (GovernanceProposalResult::Rejected, GovernanceProposalResultDb::Rejected),
        (GovernanceProposalResult::Pending, GovernanceProposalResultDb::Pending),
        (GovernanceProposalResult::VotingPeriod, GovernanceProposalResultDb::VotingPeriod),
    ];
    for (result, stored) in pairs {
        assert_eq!(GovernanceProposalResultDb::from(result), stored);
    }
}

#[test]
fn ways_to_vote_are_stored_under_the_same_name() {
    assert_eq!(GovernanceVoteKindDb::from(ProposalVoteKind::Nay), GovernanceVoteKindDb::Nay);
    assert_eq!(GovernanceVoteKindDb::from(ProposalVoteKind::Yay), GovernanceVoteKindDb::Yay);
    assert_eq!(GovernanceVoteKindDb::from(ProposalVoteKind::Abstain), GovernanceVoteKindDb::Abstain);
}

#[test]
fn a_proposal_becomes_a_row() {
    let proposal = GovernanceProposal {
        id: 42,
        content: "{\n  \"title\": \"T\"\n}".to_string(),
        kind: GovernanceProposalKind::PgfFunding,
        data: Some("[]".to_string()),
        author: Id::account("TNAM1AUTHOR"),
        voting_start_epoch: 10,
        voting_end_epoch: 20,
        activation_epoch: 30,
    };
    assert_eq!(
        GovernanceProposalInsertDb::from_governance_proposal(proposal),
        GovernanceProposalInsertDb {
            id: 42,
            content: "{\n  \"title\": \"T\"\n}".to_string(),
            data: Some("[]".to_string()),
            kind: GovernanceProposalKindDb::PgfFunding,
            author: "tnam1author".to_string(),
            start_epoch: 10,
            end_epoch: 20,
            activation_epoch: 30,
        }
    );
}

#[test]
fn the_numbers_of_a_proposal_row_are_cut_to_32_bits_with_sign() {
    let proposal = GovernanceProposal {
        id: (1 << 32) + 5,
        content: String::new(),
        kind: GovernanceProposalKind::Default,
        data: None,
        author: Id::account("a"),
        voting_start_epoch: u32::MAX,
        voting_end_epoch: 1 << 31,
        activation_epoch: i32::MAX as u32,
    };
    let row = GovernanceProposalInsertDb::from_governance_proposal(proposal);
    assert_eq!(row.id, 5);
    assert_eq!(row.start_epoch, -1);
    assert_eq!(row.end_epoch, i32::MIN);
    assert_eq!(row.activation_epoch, i32::MAX);
    let proposal = GovernanceProposal {
        id: u64::MAX,
        content: String::new(),
        kind: GovernanceProposalKind::Default,
        data: None,
        author: Id::account("a"),
        voting_start_epoch: 0,
        voting_end_epoch: 0,
        activation_epoch: 0,
    };
    assert_eq!(GovernanceProposalInsertDb::from_governance_proposal(proposal).id, -1);
}

#[test]
fn a_status_becomes_an_update() {
    let status = GovernanceProposalStatus {
        id: 3,
        result: GovernanceProposalResult::Passed,
        yay_votes: "100".to_string(),
        nay_votes: "20".to_string(),
        abstain_votes: "3".to_string(),
    };
    assert_eq!(
        GovernanceProposalUpdateStatusDb::from(status),
        GovernanceProposalUpdateStatusDb {
            yay_votes: "100".to_string(),
            nay_votes: "20".to_string(),
            abstain_votes: "3".to_string(),
            result: GovernanceProposalResultDb::Passed,
        }
    );
}

#[test]
fn a_validator_becomes_a_row() {
    let validator = Validator {
        address: Id::account("TNAM1VAL"),
        voting_power: "1500.75".to_string(),
        max_commission: "0.2".to_string(),
        commission: "0.05".to_string(),
    };
    assert_eq!(
        ValidatorInsertDb::from_validator(validator, 1500),
        ValidatorInsertDb {
            namada_address: "tnam1val".to_string(),
            voting_power: 1500,
            max_commission: "0.2".to_string(),
            commission: "0.05".to_string(),
        }
    );
}

#[test]
fn a_change_of_metadata_becomes_an_update() {
    let change = ValidatorMetadataChange {
        address: Id::account("val"),
        commission: Some("0.1".to_string()),
        name: None,
        email: Some("e".to_string()),
        description: Some("d".to_string()),
        website: None,
        discord_handler: Some("h".to_string()),
        avatar: Some("a".to_string()),
    };
    assert_eq!(
        ValidatorUpdateMetadataDb::from(change),
        ValidatorUpdateMetadataDb {
            commission: Some("0.1".to_string()),
            name: None,
            email: Some("e".to_string()),
            website: None,
            description: Some("d".to_string()),
            discord_handle: Some("h".to_string()),
            avatar: Some("a".to_string()),
        }
    );
}

#[test]
fn parameters_become_a_row() {
    let parameters = Parameters {
        epoch: 9,
        unbonding_length: 21,
        pipeline_length: 2,
        epochs_per_year: 365,
        min_num_of_blocks: 4,
        min_duration: 3600,
        apr: "7.3".to_string(),
        native_token_address: "tnam1nam".to_string(),
    };
    let row: ParametersDb = ParametersInsertDb::from(parameters);
    assert_eq!(
        row,
        ParametersInsertDb {
            epoch: 9,
            unbonding_length: 21,
            pipeline_length: 2,
            epochs_per_year: 365,
            min_num_of_blocks: 4,
            min_duration: 3600,
            apr: "7.3".to_string(),
            native_token_address: "tnam1nam".to_string(),
        }
    );
}

#[test]
fn the_numbers_of_a_parameters_row_are_cut_to_32_bits_with_sign() {
    let parameters = Parameters {
        epoch: u32::MAX,
        unbonding_length: u64::MAX,
        pipeline_length: 1 << 31,
        epochs_per_year: (1 << 32) + 7,
        min_num_of_blocks: i32::MAX as u64,
        min_duration: 1 << 32,
        apr: String::new(),
        native_token_address: String::new(),
    };
    let row = ParametersInsertDb::from(parameters);
    assert_eq!(row.epoch, -1);
    assert_eq!(row.unbonding_length, -1);
    assert_eq!(row.pipeline_length, i32::MIN);
    assert_eq!(row.epochs_per_year, 7);
    assert_eq!(row.min_num_of_blocks, i32::MAX);
    assert_eq!(row.min_duration, 0);
}

#[test]
fn kinds_and_statuses_are_written_as_the_service_names_them() {
    assert_eq!(ProposalType::Default.to_string(), "default");
    assert_eq!(ProposalType::DefaultWithWasm.to_string(), "default_with_wasm");
    assert_eq!(ProposalType::PgfSteward.to_string(), "pgf_steward");
    assert_eq!(ProposalType::PgfFunding.to_string(), "pgf_funding");
    assert_eq!(TallyType::TwoThirds.to_string(), "two_thirds");
    assert_eq!(TallyType::OneHalfOverOneThird.to_string(), "one_half_over_one_third");
    assert_eq!(
        TallyType::LessOneHalfOverOneThirdNay.to_string(),
        "less_one_half_over_one_third_nay"
    );
    assert_eq!(ProposalStatus::Pending.to_string(), "Pending");
    assert_eq!(ProposalStatus::Rejected.to_string(), "Rejected");
    assert_eq!(ProposalStatus::Passed.to_string(), "Passed");
    assert_eq!(ProposalStatus::Voting.to_string(), "Voting");
    assert_eq!(ProposalStatus::Unknown.to_string(), "Unknown");
}

#[test]
fn a_stored_proposal_becomes_an_answer() {
    let chain_state = BlockCrawlerStateDb { id: 1, height: 100, epoch: 5, timestamp: 1_700_000_000 };
    assert_eq!(
        Proposal::from_proposal_db(stored_proposal(), &chain_state, -7200, 14400),
        Proposal {
            id: "12".to_string(),
            content: "{}".to_string(),
            kind: ProposalType::DefaultWithWasm,
            tally_type: TallyType::OneHalfOverOneThird,
            data: Some("00ff".to_string()),
            author: "tnam1author".to_string(),
            start_epoch: "3".to_string(),
            end_epoch: "9".to_string(),
            activation_epoch: "11".to_string(),
            start_time: "1699992800".to_string(),
            end_time: "1700014400".to_string(),
            current_time: "1700000000".to_string(),
            status: ProposalStatus::Voting,
            yay_votes: "10".to_string(),
            nay_votes: "2".to_string(),
            abstain_votes: "0".to_string(),
        }
    );
}

#[test]
fn every_stored_kind_tally_and_result_has_its_answer() {
    let chain_state = BlockCrawlerStateDb { id: 1, height: 1, epoch: 1, timestamp: 0 };
    let kinds = [
        (GovernanceProposalKindDb::PgfSteward, ProposalType::PgfSteward),
        (GovernanceProposalKindDb::PgfFunding, ProposalType::PgfFunding),
        (GovernanceProposalKindDb::Default, ProposalType::Default),
        (GovernanceProposalKindDb::DefaultWithWasm, ProposalType::DefaultWithWasm),
    ];
    for (stored, answer) in kinds {
        let mut row = stored_proposal();
        row.kind = stored;
        assert_eq!(Proposal::from_proposal_db(row, &chain_state, 0, 0).kind, answer);
    }
    let tallies = [
        (GovernanceProposalTallyTypeDb::TwoThirds, TallyType::TwoThirds),
        (GovernanceProposalTallyTypeDb::OneHalfOverOneThird, TallyType::OneHalfOverOneThird),
        (
            GovernanceProposalTallyTypeDb::LessOneHalfOverOneThirdNay,
            TallyType::LessOneHalfOverOneThirdNay,
        ),
    ];
    for (stored, answer) in tallies {
        let mut row = stored_proposal();
        row.tally_type = stored;
        assert_eq!(Proposal::from_proposal_db(row, &chain_state, 0, 0).tally_type, answer);
    }
    let results = [
        (GovernanceProposalResultDb::Passed, ProposalStatus::Passed),
        (GovernanceProposalResultDb::Rejected, ProposalStatus::Rejected),
        (GovernanceProposalResultDb::Pending, ProposalStatus::Pending),
        (GovernanceProposalResultDb::Unknown, ProposalStatus::Unknown),
        (GovernanceProposalResultDb::VotingPeriod, ProposalStatus::Voting),
    ];
    for (stored, answer) in results {
        let mut row = stored_proposal();
        row.result = stored;
        assert_eq!(Proposal::from_proposal_db(row, &chain_state, 0, 0).status, answer);
    }
}

#[test]
fn the_times_of_an_answer_never_run_over() {
    let late = BlockCrawlerStateDb { id: 1, height: 1, epoch: 1, timestamp: i64::MAX };
    let answer = Proposal::from_proposal_db(stored_proposal(), &late, i32::MAX, i32::MIN);
    assert_eq!(answer.current_time, "9223372036854775807");
    assert_eq!(answer.start_time, "9223372039002259454");
    assert_eq!(answer.end_time, "9223372034707292159");
    let early = BlockCrawlerStateDb { id: 1, height: 1, epoch: 1, timestamp: i64::MIN };
    let answer = Proposal::from_proposal_db(stored_proposal(), &early, i32::MIN, 0);
    assert_eq!(answer.current_time, "-9223372036854775808");
    assert_eq!(answer.start_time, "-9223372039002259456");
    assert_eq!(answer.end_time, "-9223372036854775808");
}

#[test]
fn negative_numbers_of_a_stored_proposal_are_written_with_their_sign() {
    let chain_state = BlockCrawlerStateDb { id: 1, height: 1, epoch: 1, timestamp: -5 };
    let mut row = stored_proposal();
    row.id = -1;
    row.start_epoch = i32::MIN;
    row.end_epoch = 0;
    row.data = None;
    let answer = Proposal::from_proposal_db(row, &chain_state, 2, 5);
    assert_eq!(answer.id, "-1");
    assert_eq!(answer.start_epoch, "-2147483648");
    assert_eq!(answer.end_epoch, "0");
    assert_eq!(answer.data, None);
    assert_eq!(answer.current_time, "-5");
    assert_eq!(answer.start_time, "-3");
    assert_eq!(answer.end_time, "0");
}

#[test]
fn a_stored_vote_becomes_an_answer() {
    let votes = [
        (GovernanceVoteKindDb::Nay, VoteType::Nay),
        (GovernanceVoteKindDb::Yay, VoteType::Yay),
        (GovernanceVoteKindDb::Abstain, VoteType::Abstain),
    ];
    for (stored, answer) in votes {
        let row = GovernanceProposalVoteDb {
            id: 1,
            voter_address: "tnam1voter".to_string(),
            kind: stored,
            proposal_id: 12,
        };
        assert_eq!(
            ProposalVote::from(row),
            ProposalVote { proposal_id: 12, vote: answer, voter_address: "tnam1voter".to_string() }
        );
    }
    let negative = GovernanceProposalVoteDb {
        id: 1,
        voter_address: String::new(),
        kind: GovernanceVoteKindDb::Yay,
        proposal_id: -1,
    };
    assert_eq!(ProposalVote::from(negative).proposal_id, u64::MAX);
}

#[test]
fn stored_transaction_kinds_and_results_have_their_answers() {
    let kinds = [
        (TransactionKindDb::TransparentTransfer, TransactionKind::TransparentTransfer),
        (TransactionKindDb::ShieldedTransfer, TransactionKind::ShieldedTransfer),
        (TransactionKindDb::ShieldingTransfer, TransactionKind::ShieldingTransfer),
        (TransactionKindDb::UnshieldingTransfer, TransactionKind::UnshieldingTransfer),
        (TransactionKindDb::Bond, TransactionKind::Bond),
        (TransactionKindDb::Redelegation, TransactionKind::Redelegation),
        (TransactionKindDb::Unbond, TransactionKind::Unbond),
        (TransactionKindDb::Withdraw, TransactionKind::Withdraw),
        (TransactionKindDb::ClaimRewards, TransactionKind::ClaimRewards),
        (TransactionKindDb::VoteProposal, TransactionKind::VoteProposal),
        (TransactionKindDb::InitProposal, TransactionKind::InitProposal),
        (TransactionKindDb::ChangeMetadata, TransactionKind::ChangeMetadata),
        (TransactionKindDb::ChangeCommission, TransactionKind::ChangeCommission),
        (TransactionKindDb::RevealPk, TransactionKind::RevealPk),
        (TransactionKindDb::Unknown, TransactionKind::Unknown),
    ];
    for (stored, answer) in kinds {
        assert_eq!(TransactionKind::from(stored), answer);
    }
    assert_eq!(TransactionResult::from(TransactionResultDb::Applied), TransactionResult::Applied);
    assert_eq!(TransactionResult::from(TransactionResultDb::Rejected), TransactionResult::Rejected);
}

#[test]
fn stored_transactions_become_answers() {
    let wrapper = WrapperTransactionDb {
        id: "f00d".to_string(),
        fee_payer: "tnam1payer".to_string(),
        fee_token: "tnam1nam".to_string(),
        gas_limit: "250000".to_string(),
        block_height: 77,
        exit_code: TransactionResultDb::Applied,
        atomic: true,
    };
    assert_eq!(
        WrapperTransaction::from(wrapper),
        WrapperTransaction {
            tx_id: "f00d".to_string(),
            fee_payer: "tnam1payer".to_string(),
            fee_token: "tnam1nam".to_string(),
            gas_limit: "250000".to_string(),
            block_height: 77,
            exit_code: TransactionResult::Applied,
            atomic: true,
        }
    );
    let inner = InnerTransactionDb {
        id: "beef".to_string(),
        wrapper_id: "f00d".to_string(),
        kind: TransactionKindDb::Bond,
        data: Some("{}".to_string()),
        memo: None,
        exit_code: TransactionResultDb::Rejected,
    };
    assert_eq!(
        InnerTransaction::from(inner),
        InnerTransaction {
            id: "beef".to_string(),
            wrapper_id: "f00d".to_string(),
            kind: TransactionKind::Bond,
            data: Some("{}".to_string()),
            memo: None,
            exit_code: TransactionResult::Rejected,
        }
    );
}

#[test]
fn a_negative_stored_height_is_extended_with_its_sign() {
    let wrapper = WrapperTransactionDb {
        id: String::new(),
        fee_payer: String::new(),
        fee_token: String::new(),
        gas_limit: String::new(),
        block_height: -1,
        exit_code: TransactionResultDb::Rejected,
        atomic: false,
    };
    assert_eq!(WrapperTransaction::from(wrapper).block_height, u64::MAX);
}
