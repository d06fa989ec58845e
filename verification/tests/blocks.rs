use chain_indexer::block::{Block, EventKind, RawBlock, TxAttributes, TxEventStatusCode};
use chain_indexer::block_result::{BlockResult, Event, TransactionExitStatus};
use chain_indexer::bond::BondAddresses;
use chain_indexer::checksums::Checksums;
use chain_indexer::header::BlockHeader;
use chain_indexer::id::Id;
use chain_indexer::proposal::{GovernanceProposal, GovernanceProposalKind};
use chain_indexer::transaction::{
    BondData, CommissionChange, Fee, InitProposalData, MetaDataChange, ProposalData, RawSection,
    RawTransaction, RedelegationData, Section, Transaction, TransactionKind, TransferData,
    VoteProposalData, WithdrawData,
};
use chain_indexer::unbond::UnbondAddresses;
use chain_indexer::utils::BalanceChange;
use chain_indexer::validator::ValidatorMetadataChange;
use chain_indexer::vote::{GovernanceVote, ProposalVoteKind};

fn account(name: &str) -> Id {
    Id::account(name)
}

fn nam() -> Id {
    Id::account("tnam1nam")
}

fn fee(payer: &str) -> Fee {
    Fee {
        gas: "1000".to_string(),
        amount_per_gas_unit: "1".to_string(),
        gas_payer: account(payer),
        gas_token: nam(),
    }
}

fn tx(index: usize, kind: TransactionKind, payer: &str) -> Transaction {
    Transaction {
        hash: Id::hash("aa"),
        kind,
        extra_sections: vec![],
        index,
        fee: fee(payer),
        exit_code: TransactionExitStatus::Applied,
        gas_used: 0,
    }
}

fn block(transactions: Vec<Transaction>) -> Block {
    Block { hash: Id::hash("b10c"), header: BlockHeader::default(), transactions, epoch: 3 }
}

fn change(address: &str, token: &str) -> BalanceChange {
    BalanceChange::new(account(address), account(token))
}

fn bond(validator: &str, source: Option<&str>) -> BondData {
    BondData { validator: account(validator), source: source.map(account) }
}

fn withdraw(validator: &str, source: Option<&str>) -> WithdrawData {
    WithdrawData { validator: account(validator), source: source.map(account) }
}

fn proposal(author: &str, content: &str, data: ProposalData) -> TransactionKind {
    TransactionKind::InitProposal(InitProposalData {
        content: Id::hash(content),
        author: account(author),
        data,
        voting_start_epoch: 10,
        voting_end_epoch: 20,
        activation_epoch: 30,
    })
}

fn borsh_text(out: &mut Vec<u8>, text: &str) {
    out.extend_from_slice(&(text.len() as u32).to_le_bytes());
    out.extend_from_slice(text.as_bytes());
}

fn borsh_map(entries: &[(&str, &str)]) -> Vec<u8> {
    let mut out = Vec::new();
    out.extend_from_slice(&(entries.len() as u32).to_le_bytes());
    for (key, value) in entries {
        borsh_text(&mut out, key);
        borsh_text(&mut out, value);
    }
    out
}

fn sorted(mut changes: Vec<BalanceChange>) -> Vec<(String, String)> {
    let mut pairs: Vec<(String, String)> =
        changes.drain(..).map(|c| (c.address.to_string(), c.token.to_string())).collect();
    pairs.sort();
    pairs
}

#[test]
fn a_block_without_transactions_yields_nothing() {
    let empty = block(vec![]);
    assert_eq!(empty.addresses_with_balance_change(nam()), vec![]);
    assert_eq!(empty.bond_addresses(), vec![]);
    assert_eq!(empty.unbond_addresses(), vec![]);
    assert_eq!(empty.governance_votes(), vec![]);
    assert_eq!(empty.validator_metadata(), vec![]);
    assert_eq!(empty.pos_rewards(), vec![]);
    assert_eq!(empty.governance_proposal(7), (vec![], 7));
    assert_eq!(empty.proposal_count(), 0);
}

#[test]
fn the_default_block_is_empty() {
    let empty = Block::default();
    assert_eq!(empty.hash, Id::default());
    assert_eq!(empty.header, BlockHeader::default());
    assert_eq!(empty.transactions, vec![]);
    assert_eq!(empty.epoch, 0);
}

#[test]
fn a_transfer_changes_source_and_target_in_its_token_and_the_payer_pays() {
    let transfer = TransactionKind::TransparentTransfer(TransferData {
        source: account("alice"),
        target: account("bob"),
        token: account("btc"),
    });
    let changes = block(vec![tx(0, transfer, "carol")]).addresses_with_balance_change(nam());
    assert_eq!(changes, vec![change("alice", "btc"), change("bob", "btc"), change("carol", "tnam1nam")]);
}

#[test]
fn staking_operations_change_the_source_in_the_native_token() {
    let transactions = vec![
        tx(0, TransactionKind::Bond(bond("val1", Some("alice"))), "payer0"),
        tx(1, TransactionKind::Bond(bond("val2", None)), "payer1"),
        tx(2, TransactionKind::Withdraw(withdraw("val3", Some("bob"))), "payer2"),
        tx(3, TransactionKind::Withdraw(withdraw("val4", None)), "payer3"),
        tx(4, TransactionKind::ClaimRewards(withdraw("val5", Some("carol"))), "payer4"),
        tx(5, TransactionKind::ClaimRewards(withdraw("val6", None)), "payer5"),
        tx(6, proposal("dave", "c0", ProposalData::Default), "payer6"),
    ];
    let changes = block(transactions).addresses_with_balance_change(nam());
    assert_eq!(
        changes,
        vec![
            change("alice", "tnam1nam"),
            change("payer0", "tnam1nam"),
            change("val2", "tnam1nam"),
            change("payer1", "tnam1nam"),
            change("bob", "tnam1nam"),
            change("payer2", "tnam1nam"),
            change("val4", "tnam1nam"),
            change("payer3", "tnam1nam"),
            change("carol", "tnam1nam"),
            change("payer4", "tnam1nam"),
            change("val6", "tnam1nam"),
            change("payer5", "tnam1nam"),
            change("dave", "tnam1nam"),
            change("payer6", "tnam1nam"),
        ]
    );
}

#[test]
fn other_kinds_change_only_the_balance_of_the_payer() {
    let redelegation = TransactionKind::Redelegation(RedelegationData {
        src_validator: account("v1"),
        dest_validator: account("v2"),
        owner: account("owner"),
    });
    let vote = TransactionKind::ProposalVote(VoteProposalData {
        id: 1,
        vote: ProposalVoteKind::Yay,
        voter: account("voter"),
    });
    let transactions = vec![
        tx(0, TransactionKind::Unbond(bond("val", Some("alice"))), "payer0"),
        tx(1, redelegation, "payer1"),
        tx(2, vote, "payer2"),
        tx(3, TransactionKind::RevealPk, "payer3"),
        tx(4, TransactionKind::ShieldedTransfer, "payer4"),
    ];
    let mut payer_token = fee("payer0");
    payer_token.gas_token = account("other");
    let mut transactions = transactions;
    transactions[0].fee = payer_token;
    let changes = block(transactions).addresses_with_balance_change(nam());
    assert_eq!(
        changes,
        vec![
            change("payer0", "other"),
            change("payer1", "tnam1nam"),
            change("payer2", "tnam1nam"),
            change("payer3", "tnam1nam"),
            change("payer4", "tnam1nam"),
        ]
    );
}

#[test]
fn balance_changes_are_named_once() {
    let transfer = |source: &str, target: &str| {
        TransactionKind::TransparentTransfer(TransferData {
            source: account(source),
            target: account(target),
            token: nam(),
        })
    };
    let transactions = vec![
        tx(0, transfer("alice", "alice"), "alice"),
        tx(1, transfer("bob", "alice"), "bob"),
        tx(2, TransactionKind::Bond(bond("alice", None)), "ALICE"),
        tx(3, transfer("alice", "bob"), "carol"),
    ];
    let changes = block(transactions).addresses_with_balance_change(nam());
    assert_eq!(
        changes,
        vec![change("alice", "tnam1nam"), change("bob", "tnam1nam"), change("carol", "tnam1nam")]
    );
}

#[test]
fn the_same_address_in_two_tokens_is_named_twice() {
    let transfer = TransactionKind::TransparentTransfer(TransferData {
        source: account("alice"),
        target: account("bob"),
        token: account("btc"),
    });
    let changes = block(vec![tx(0, transfer, "alice")]).addresses_with_balance_change(nam());
    assert_eq!(changes, vec![change("alice", "btc"), change("bob", "btc"), change("alice", "tnam1nam")]);
}

#[test]
fn running_the_extraction_twice_yields_the_same_set() {
    let transfer = TransactionKind::TransparentTransfer(TransferData {
        source: account("alice"),
        target: account("bob"),
        token: nam(),
    });
    let block = block(vec![
        tx(0, transfer, "alice"),
        tx(1, TransactionKind::Withdraw(withdraw("val", None)), "bob"),
    ]);
    let first = block.addresses_with_balance_change(nam());
    let second = block.addresses_with_balance_change(nam());
    assert_eq!(first, second);
    assert_eq!(first.len(), 3);
}

#[test]
fn the_set_of_balance_changes_does_not_depend_on_the_order() {
    let kinds = || {
        vec![
            TransactionKind::TransparentTransfer(TransferData {
                source: account("alice"),
                target: account("bob"),
                token: account("btc"),
            }),
            TransactionKind::Bond(bond("val", None)),
            TransactionKind::ClaimRewards(withdraw("val", Some("alice"))),
            TransactionKind::RevealPk,
        ]
    };
    let payers = ["payer0", "bob", "val", "alice"];
    let forward: Vec<Transaction> =
        kinds().into_iter().enumerate().map(|(i, kind)| tx(i, kind, payers[i])).collect();
    let backward: Vec<Transaction> =
        kinds().into_iter().enumerate().rev().map(|(i, kind)| tx(i, kind, payers[i])).collect();
    let first = block(forward).addresses_with_balance_change(nam());
    let second = block(backward).addresses_with_balance_change(nam());
    assert_ne!(first, second);
    assert_eq!(sorted(first), sorted(second));
}

#[test]
fn a_bond_without_source_is_a_bond_of_the_validator_with_itself() {
    let pairs = block(vec![tx(0, TransactionKind::Bond(bond("val", None)), "payer")]).bond_addresses();
    assert_eq!(pairs, vec![BondAddresses { source: account("val"), target: account("val") }]);
}

#[test]
fn a_bond_with_source_goes_from_the_source_to_the_validator() {
    let pairs =
        block(vec![tx(0, TransactionKind::Bond(bond("val", Some("alice"))), "payer")]).bond_addresses();
    assert_eq!(pairs, vec![BondAddresses { source: account("alice"), target: account("val") }]);
}

#[test]
fn a_redelegation_yields_two_pairs_with_the_owner_as_source() {
    let redelegation = TransactionKind::Redelegation(RedelegationData {
        src_validator: account("old"),
        dest_validator: account("new"),
        owner: account("owner"),
    });
    let pairs = block(vec![tx(0, redelegation, "payer")]).bond_addresses();
    assert_eq!(
        pairs,
        vec![
            BondAddresses { source: account("owner"), target: account("old") },
            BondAddresses { source: account("owner"), target: account("new") },
        ]
    );
}

#[test]
fn bond_addresses_come_in_the_order_of_the_transactions_with_repetitions() {
    let redelegation = TransactionKind::Redelegation(RedelegationData {
        src_validator: account("v1"),
        dest_validator: account("v2"),
        owner: account("alice"),
    });
    let transactions = vec![
        tx(0, TransactionKind::Unbond(bond("v1", Some("alice"))), "p"),
        tx(1, TransactionKind::RevealPk, "p"),
        tx(2, redelegation, "p"),
        tx(3, TransactionKind::Bond(bond("v1", Some("alice"))), "p"),
        tx(4, TransactionKind::Withdraw(withdraw("v1", None)), "p"),
        tx(5, TransactionKind::Unbond(bond("v3", None)), "p"),
    ];
    let pairs = block(transactions).bond_addresses();
    assert_eq!(
        pairs,
        vec![
            BondAddresses { source: account("alice"), target: account("v1") },
            BondAddresses { source: account("alice"), target: account("v1") },
            BondAddresses { source: account("alice"), target: account("v2") },
            BondAddresses { source: account("alice"), target: account("v1") },
            BondAddresses { source: account("v3"), target: account("v3") },
        ]
    );
}

#[test]
fn only_unbonds_yield_unbond_addresses() {
    let transactions = vec![
        tx(0, TransactionKind::Bond(bond("v0", None)), "p"),
        tx(1, TransactionKind::Unbond(bond("v1", Some("alice"))), "p"),
        tx(2, TransactionKind::Withdraw(withdraw("v2", None)), "p"),
        tx(3, TransactionKind::Unbond(bond("v3", None)), "p"),
    ];
    let pairs = block(transactions).unbond_addresses();
    assert_eq!(
        pairs,
        vec![
            UnbondAddresses { source: account("alice"), validator: account("v1") },
            UnbondAddresses { source: account("v3"), validator: account("v3") },
        ]
    );
}

#[test]
fn every_vote_transaction_yields_one_vote() {
    let vote = |id: u64, vote: ProposalVoteKind, voter: &str| {
        TransactionKind::ProposalVote(VoteProposalData { id, vote, voter: account(voter) })
    };
    let transactions = vec![
        tx(0, vote(4, ProposalVoteKind::Yay, "alice"), "p"),
        tx(1, TransactionKind::RevealPk, "p"),
        tx(2, vote(4, ProposalVoteKind::Nay, "bob"), "p"),
        tx(3, vote(9, ProposalVoteKind::Abstain, "alice"), "p"),
        tx(4, vote(4, ProposalVoteKind::Yay, "alice"), "p"),
    ];
    let votes = block(transactions).governance_votes();
    assert_eq!(
        votes,
        vec![
            GovernanceVote { proposal_id: 4, vote: ProposalVoteKind::Yay, address: account("alice") },
            GovernanceVote { proposal_id: 4, vote: ProposalVoteKind::Nay, address: account("bob") },
            GovernanceVote { proposal_id: 9, vote: ProposalVoteKind::Abstain, address: account("alice") },
            GovernanceVote { proposal_id: 4, vote: ProposalVoteKind::Yay, address: account("alice") },
        ]
    );
}

#[test]
fn claimants_are_named_once() {
    let transactions = vec![
        tx(0, TransactionKind::ClaimRewards(withdraw("v1", Some("alice"))), "p"),
        tx(1, TransactionKind::ClaimRewards(withdraw("v1", None)), "p"),
        tx(2, TransactionKind::Withdraw(withdraw("v2", Some("bob"))), "p"),
        tx(3, TransactionKind::ClaimRewards(withdraw("v2", Some("alice"))), "p"),
        tx(4, TransactionKind::ClaimRewards(withdraw("v3", Some("V1"))), "p"),
    ];
    let claimants = block(transactions).pos_rewards();
    assert_eq!(claimants, vec![account("alice"), account("v1")]);
}

#[test]
fn a_change_of_metadata_updates_every_field_it_names() {
    let metadata = TransactionKind::MetadataChange(MetaDataChange {
        validator: account("val"),
        email: Some("val@example.org".to_string()),
        description: None,
        website: Some("https://example.org".to_string()),
        discord_handle: Some("val#1".to_string()),
        avatar: None,
        name: Some("Val".to_string()),
        commission_rate: Some("0.05".to_string()),
    });
    let changes = block(vec![tx(0, metadata, "p")]).validator_metadata();
    assert_eq!(
        changes,
        vec![ValidatorMetadataChange {
            address: account("val"),
            commission: Some("0.05".to_string()),
            name: Some("Val".to_string()),
            email: Some("val@example.org".to_string()),
            description: None,
            website: Some("https://example.org".to_string()),
            discord_handler: Some("val#1".to_string()),
            avatar: None,
        }]
    );
}

#[test]
fn a_change_of_commission_updates_the_commission_alone() {
    let commission = TransactionKind::CommissionChange(CommissionChange {
        validator: account("val"),
        new_rate: "0.1".to_string(),
    });
    let transactions = vec![
        tx(0, TransactionKind::Bond(bond("val", None)), "p"),
        tx(1, commission, "p"),
    ];
    let changes = block(transactions).validator_metadata();
    assert_eq!(
        changes,
        vec![ValidatorMetadataChange {
            address: account("val"),
            commission: Some("0.1".to_string()),
            name: None,
            email: None,
            description: None,
            website: None,
            discord_handler: None,
            avatar: None,
        }]
    );
}

#[test]
fn three_proposals_get_three_numbers_in_a_row() {
    let transactions = vec![
        tx(0, proposal("alice", "c0", ProposalData::Default), "p"),
        tx(1, TransactionKind::RevealPk, "p"),
        tx(2, proposal("bob", "c1", ProposalData::Default), "p"),
        tx(3, TransactionKind::Bond(bond("val", None)), "p"),
        tx(4, proposal("carol", "c2", ProposalData::Default), "p"),
    ];
    let block = block(transactions);
    assert_eq!(block.proposal_count(), 3);
    let (proposals, next) = block.governance_proposal(41);
    let ids: Vec<u64> = proposals.iter().map(|p| p.id).collect();
    assert_eq!(ids, vec![41, 42, 43]);
    assert_eq!(next, 44);
    let authors: Vec<Id> = proposals.iter().map(|p| p.author.clone()).collect();
    assert_eq!(authors, vec![account("alice"), account("bob"), account("carol")]);
}

#[test]
fn proposals_can_be_numbered_up_to_the_largest_number() {
    let transactions = vec![
        tx(0, proposal("alice", "c0", ProposalData::Default), "p"),
        tx(1, proposal("bob", "c1", ProposalData::Default), "p"),
    ];
    let (proposals, next) = block(transactions).governance_proposal(u64::MAX - 2);
    let ids: Vec<u64> = proposals.iter().map(|p| p.id).collect();
    assert_eq!(ids, vec![u64::MAX - 2, u64::MAX - 1]);
    assert_eq!(next, u64::MAX);
}

#[test]
fn the_text_of_a_proposal_is_its_content_section_as_indented_json() {
    let mut transaction = tx(0, proposal("alice", "C0DE", ProposalData::Default), "p");
    transaction.extra_sections = vec![
        Section { id: Id::hash("0000"), data: vec![1] },
        Section {
            id: Id::hash("c0de"),
            data: borsh_map(&[("abstract", "An \"example\"."), ("title", "T")]),
        },
    ];
    let (proposals, _) = block(vec![transaction]).governance_proposal(0);
    assert_eq!(
        proposals,
        vec![GovernanceProposal {
            id: 0,
            content: "{\n  \"abstract\": \"An \\\"example\\\".\",\n  \"title\": \"T\"\n}".to_string(),
            kind: GovernanceProposalKind::Default,
            data: None,
            author: account("alice"),
            voting_start_epoch: 10,
            voting_end_epoch: 20,
            activation_epoch: 30,
        }]
    );
}

#[test]
fn the_entries_of_the_text_are_written_in_the_order_of_their_keys() {
    let mut transaction = tx(0, proposal("alice", "c0", ProposalData::Default), "p");
    transaction.extra_sections =
        vec![Section { id: Id::hash("c0"), data: borsh_map(&[("b", "2"), ("a", "1"), ("b", "3")]) }];
    let (proposals, _) = block(vec![transaction]).governance_proposal(0);
    assert_eq!(proposals[0].content, "{\n  \"a\": \"1\",\n  \"b\": \"3\"\n}");
}

#[test]
fn a_missing_or_broken_content_section_gives_the_empty_map() {
    let missing = tx(0, proposal("alice", "c0", ProposalData::Default), "p");
    let mut broken = tx(1, proposal("alice", "c1", ProposalData::Default), "p");
    broken.extra_sections = vec![Section { id: Id::hash("c1"), data: vec![1, 0, 0, 0, 9] }];
    let mut trailing = tx(2, proposal("alice", "c2", ProposalData::Default), "p");
    let mut bytes = borsh_map(&[("a", "1")]);
    bytes.push(0);
    trailing.extra_sections = vec![Section { id: Id::hash("c2"), data: bytes }];
    let mut empty = tx(3, proposal("alice", "c3", ProposalData::Default), "p");
    empty.extra_sections = vec![Section { id: Id::hash("c3"), data: borsh_map(&[]) }];
    let (proposals, next) = block(vec![missing, broken, trailing, empty]).governance_proposal(5);
    assert_eq!(next, 9);
    for proposal in proposals {
        assert_eq!(proposal.content, "{}");
    }
}

#[test]
fn the_data_of_a_proposal_depends_on_its_kind() {
    let mut with_code =
        tx(0, proposal("alice", "c0", ProposalData::DefaultWithWasm(Id::hash("C0DE"))), "p");
    with_code.extra_sections = vec![Section { id: Id::hash("c0de"), data: vec![0x00, 0x61, 0x73, 0x6D, 0xFF] }];
    let without_code =
        tx(1, proposal("alice", "c0", ProposalData::DefaultWithWasm(Id::hash("c0de"))), "p");
    let steward =
        tx(2, proposal("alice", "c0", ProposalData::PgfSteward("[{\"Add\":\"s\"}]".to_string())), "p");
    let funding = tx(3, proposal("alice", "c0", ProposalData::PgfFunding("[]".to_string())), "p");
    let plain = tx(4, proposal("alice", "c0", ProposalData::Default), "p");
    let (proposals, _) =
        block(vec![with_code, without_code, steward, funding, plain]).governance_proposal(0);
    let kinds: Vec<GovernanceProposalKind> = proposals.iter().map(|p| p.kind).collect();
    assert_eq!(
        kinds,
        vec![
            GovernanceProposalKind::DefaultWithWasm,
            GovernanceProposalKind::DefaultWithWasm,
            GovernanceProposalKind::PgfSteward,
            GovernanceProposalKind::PgfFunding,
            GovernanceProposalKind::Default,
        ]
    );
    let data: Vec<Option<String>> = proposals.iter().map(|p| p.data.clone()).collect();
    assert_eq!(
        data,
        vec![
            Some("0061736dff".to_string()),
            None,
            Some("[{\"Add\":\"s\"}]".to_string()),
            Some("[]".to_string()),
            None,
        ]
    );
}

#[test]
fn the_epochs_of_a_proposal_are_cut_to_32_bits() {
    let kind = TransactionKind::InitProposal(InitProposalData {
        content: Id::hash("c0"),
        author: account("alice"),
        data: ProposalData::Default,
        voting_start_epoch: u32::MAX as u64,
        voting_end_epoch: u32::MAX as u64 + 1,
        activation_epoch: (1u64 << 40) + 5,
    });
    let (proposals, _) = block(vec![tx(0, kind, "p")]).governance_proposal(0);
    assert_eq!(proposals[0].voting_start_epoch, u32::MAX);
    assert_eq!(proposals[0].voting_end_epoch, 0);
    assert_eq!(proposals[0].activation_epoch, 5);
}

fn table() -> Checksums {
    let mut table = Checksums::new();
    table.add("tx_bond".to_string(), "01".to_string());
    table.add("tx_reveal_pk".to_string(), "02".to_string());
    table
}

fn wire(hash: &str, code: Option<Vec<u8>>, payload: Option<TransactionKind>) -> RawTransaction {
    RawTransaction {
        hash: hash.to_string(),
        fee_payer: "payer".to_string(),
        fee_token: "tnam1nam".to_string(),
        gas_limit: 1000,
        amount_per_gas_unit: "1".to_string(),
        code_hash: code,
        payload,
        sections: vec![RawSection { hash: "5EC7".to_string(), data: vec![7] }],
    }
}

fn results(codes: &[TxEventStatusCode]) -> BlockResult {
    BlockResult {
        height: 1,
        begin_events: vec![],
        end_events: codes
            .iter()
            .map(|code| Event {
                kind: EventKind::Applied,
                attributes: Some(TxAttributes {
                    code: *code,
                    gas: 10,
                    hash: Id::default(),
                    height: 1,
                    info: String::new(),
                }),
            })
            .collect(),
    }
}

fn raw_block(transactions: Vec<Option<RawTransaction>>) -> RawBlock {
    RawBlock {
        hash: "B10C".to_string(),
        height: 77,
        proposer_address: "ABCDEF0123".to_string(),
        time: "2024-05-01T10:00:00Z".to_string(),
        app_hash: "A99".to_string(),
        transactions,
    }
}

#[test]
fn the_header_of_an_assembled_block_is_in_canonical_form() {
    let assembled = Block::from(raw_block(vec![]), &results(&[]), table(), 12);
    assert_eq!(assembled.hash, Id::hash("b10c"));
    assert_eq!(assembled.hash.to_string(), "b10c");
    assert_eq!(
        assembled.header,
        BlockHeader {
            height: 77,
            proposer_address: "abcdef0123".to_string(),
            timestamp: "2024-05-01T10:00:00Z".to_string(),
            app_hash: Id::hash("a99"),
        }
    );
    assert_eq!(assembled.epoch, 12);
    assert_eq!(assembled.transactions, vec![]);
}

#[test]
fn the_height_of_an_assembled_block_is_cut_to_32_bits() {
    let mut raw = raw_block(vec![]);
    raw.height = (1u64 << 32) + 9;
    let assembled = Block::from(raw, &results(&[]), table(), 0);
    assert_eq!(assembled.header.height, 9);
}

#[test]
fn a_transaction_with_an_unknown_code_is_left_out_of_the_block() {
    let bond_kind = TransactionKind::Bond(bond("val", None));
    let raw = raw_block(vec![
        Some(wire("00", Some(vec![0x01]), Some(bond_kind.clone()))),
        Some(wire("01", Some(vec![0xEE]), Some(bond_kind.clone()))),
        Some(wire("02", Some(vec![0x02]), Some(TransactionKind::RevealPk))),
    ]);
    let codes = [TxEventStatusCode::Success, TxEventStatusCode::Success, TxEventStatusCode::Fail];
    let assembled = Block::from(raw, &results(&codes), table(), 0);
    let hashes: Vec<String> = assembled.transactions.iter().map(|t| t.hash.to_string()).collect();
    assert_eq!(hashes, vec!["00", "02"]);
    let indices: Vec<usize> = assembled.transactions.iter().map(|t| t.index).collect();
    assert_eq!(indices, vec![0, 2]);
    assert_eq!(assembled.transactions[0].kind, bond_kind);
    assert_eq!(assembled.transactions[0].exit_code, TransactionExitStatus::Applied);
    assert_eq!(assembled.transactions[1].kind, TransactionKind::RevealPk);
    assert_eq!(assembled.transactions[1].exit_code, TransactionExitStatus::Rejected);
    assert_eq!(
        assembled.transactions[0].extra_sections,
        vec![Section { id: Id::hash("5ec7"), data: vec![7] }]
    );
}

#[test]
fn what_cannot_be_read_is_left_out_and_the_rest_keeps_its_position() {
    let bond_kind = TransactionKind::Bond(bond("val", None));
    let raw = raw_block(vec![
        None,
        Some(wire("01", Some(vec![0x01]), None)),
        Some(wire("02", Some(vec![0x01]), Some(TransactionKind::RevealPk))),
        Some(wire("03", None, Some(bond_kind.clone()))),
        Some(wire("04", Some(vec![0x01]), Some(bond_kind.clone()))),
        None,
    ]);
    let codes = [TxEventStatusCode::Fail; 5];
    let mut codes = codes.to_vec();
    codes[4] = TxEventStatusCode::Success;
    let assembled = Block::from(raw, &results(&codes), table(), 0);
    assert_eq!(assembled.transactions.len(), 1);
    assert_eq!(assembled.transactions[0].hash, Id::hash("04"));
    assert_eq!(assembled.transactions[0].index, 4);
    assert_eq!(assembled.transactions[0].exit_code, TransactionExitStatus::Applied);
    assert_eq!(assembled.transactions[0].gas_used, 10);
}

#[test]
fn a_block_of_unknown_transactions_is_assembled_empty() {
    let raw = raw_block(vec![
        Some(wire("00", Some(vec![0xEE]), None)),
        Some(wire("01", None, None)),
    ]);
    let assembled = Block::from(raw, &results(&[]), Checksums::new(), 4);
    assert_eq!(assembled.transactions, vec![]);
    assert_eq!(assembled.epoch, 4);
    assert_eq!(assembled.addresses_with_balance_change(nam()), vec![]);
}

#[test]
fn an_assembled_block_is_ready_for_extraction() {
    let raw = raw_block(vec![
        Some(wire("00", Some(vec![0x01]), Some(TransactionKind::Bond(bond("val", None))))),
        Some(wire("01", Some(vec![0x01]), Some(TransactionKind::Bond(bond("val", Some("alice")))))),
    ]);
    let assembled = Block::from(raw, &results(&[]), table(), 0);
    assert_eq!(
        assembled.bond_addresses(),
        vec![
            BondAddresses { source: account("val"), target: account("val") },
            BondAddresses { source: account("alice"), target: account("val") },
        ]
    );
    assert_eq!(
        assembled.addresses_with_balance_change(nam()),
        vec![change("val", "tnam1nam"), change("payer", "tnam1nam"), change("alice", "tnam1nam")]
    );
}
