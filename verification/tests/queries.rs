use chain_indexer::balance::{Amount, Balance};
use chain_indexer::bond::{Bond, BondAddresses, Bonds};
use chain_indexer::chain::{
    bond_query_epoch, get_current_epoch, get_epoch_at_block_height, get_native_token,
    is_block_committed, latest_unbond, query_all_balances, query_all_bonds_and_unbonds,
    query_balance, query_bonds, query_last_block_height, query_next_governance_id, query_unbonds,
    BalanceAnswer, BondAnswer, BondsAndUnbonds, QueryError, StoredBalance, UnbondAnswer,
    UnbondEntry,
};
use chain_indexer::id::Id;
use chain_indexer::unbond::{Unbond, UnbondAddresses, Unbonds};
use chain_indexer::utils::BalanceChange;

fn account(name: &str) -> Id {
    Id::account(name)
}

fn entry(withdraw_epoch: u64, amount: u128) -> UnbondEntry {
    UnbondEntry { withdraw_epoch, amount: Amount::new(amount) }
}

fn history(entries: Vec<UnbondEntry>) -> UnbondAnswer {
    UnbondAnswer {
        addresses: UnbondAddresses { source: account("alice"), validator: account("val") },
        history: entries,
    }
}

#[test]
fn a_block_is_committed_once_the_chain_is_at_least_that_high() {
    assert!(is_block_committed(Some(10), 9));
    assert!(is_block_committed(Some(10), 10));
    assert!(!is_block_committed(Some(10), 11));
    assert!(!is_block_committed(None, 0));
    assert!(is_block_committed(Some(0), 0));
    assert!(is_block_committed(Some(u64::MAX), u32::MAX));
    assert!(!is_block_committed(Some(u32::MAX as u64 - 1), u32::MAX));
}

#[test]
fn the_native_token_is_an_account() {
    assert_eq!(get_native_token("TNAM1NAM"), account("tnam1nam"));
    assert_eq!(get_native_token("tnam1nam").to_string(), "tnam1nam");
}

#[test]
fn an_epoch_that_the_chain_does_not_know_is_not_found() {
    assert_eq!(get_epoch_at_block_height(Some(12)), Ok(12));
    assert_eq!(get_epoch_at_block_height(Some(0)), Ok(0));
    assert_eq!(get_epoch_at_block_height(None), Err(QueryError::NotFound));
    assert_eq!(get_epoch_at_block_height(Some((1 << 32) + 4)), Ok(4));
}

#[test]
fn epochs_and_heights_are_cut_to_32_bits() {
    assert_eq!(get_current_epoch(77), 77);
    assert_eq!(get_current_epoch(u64::MAX), u32::MAX);
    assert_eq!(get_current_epoch(1 << 32), 0);
    assert_eq!(query_last_block_height(Some(1234)), 1234);
    assert_eq!(query_last_block_height(None), 0);
    assert_eq!(query_last_block_height(Some((5 << 32) + 8)), 8);
}

#[test]
fn a_missing_balance_counts_as_zero() {
    let answers = vec![
        BalanceAnswer {
            change: BalanceChange::new(account("alice"), account("nam")),
            amount: Some(Amount::new(15)),
        },
        BalanceAnswer { change: BalanceChange::new(account("bob"), account("btc")), amount: None },
        BalanceAnswer {
            change: BalanceChange::new(account("alice"), account("btc")),
            amount: Some(Amount::new(0)),
        },
    ];
    assert_eq!(
        query_balance(&answers),
        vec![
            Balance { owner: account("alice"), token: account("nam"), amount: Amount::new(15) },
            Balance { owner: account("bob"), token: account("btc"), amount: Amount::new(0) },
            Balance { owner: account("alice"), token: account("btc"), amount: Amount::new(0) },
        ]
    );
    assert_eq!(query_balance(&Vec::new()), vec![]);
}

#[test]
fn entries_that_are_no_balances_are_passed_over() {
    let entries = vec![
        StoredBalance { token_and_owner: None, amount: Amount::new(1) },
        StoredBalance {
            token_and_owner: Some((account("nam"), account("alice"))),
            amount: Amount::new(20),
        },
        StoredBalance { token_and_owner: None, amount: Amount::new(3) },
        StoredBalance {
            token_and_owner: Some((account("nam"), account("bob"))),
            amount: Amount::new(40),
        },
    ];
    assert_eq!(
        query_all_balances(&entries),
        vec![
            Balance { owner: account("alice"), token: account("nam"), amount: Amount::new(20) },
            Balance { owner: account("bob"), token: account("nam"), amount: Amount::new(40) },
        ]
    );
}

#[test]
fn all_bonds_and_unbonds_come_in_the_order_of_the_answer() {
    let details = vec![
        BondsAndUnbonds {
            source: account("alice"),
            validator: account("v1"),
            bonds: vec![Amount::new(10), Amount::new(20)],
            unbonds: vec![entry(5, 1)],
        },
        BondsAndUnbonds { source: account("bob"), validator: account("v1"), bonds: vec![], unbonds: vec![] },
        BondsAndUnbonds {
            source: account("carol"),
            validator: account("v2"),
            bonds: vec![Amount::new(30)],
            unbonds: vec![entry(7, 2), entry((1 << 32) + 9, 3)],
        },
    ];
    let (bonds, unbonds) = query_all_bonds_and_unbonds(&details, 4);
    assert_eq!(
        bonds,
        Bonds {
            epoch: 4,
            values: vec![
                Bond { source: account("alice"), target: account("v1"), amount: Amount::new(10) },
                Bond { source: account("alice"), target: account("v1"), amount: Amount::new(20) },
                Bond { source: account("carol"), target: account("v2"), amount: Amount::new(30) },
            ],
        }
    );
    assert_eq!(
        unbonds,
        Unbonds {
            epoch: 4,
            values: vec![
                Unbond {
                    source: account("alice"),
                    target: account("v1"),
                    amount: Amount::new(1),
                    withdraw_at: 5,
                },
                Unbond {
                    source: account("carol"),
                    target: account("v2"),
                    amount: Amount::new(2),
                    withdraw_at: 7,
                },
                Unbond {
                    source: account("carol"),
                    target: account("v2"),
                    amount: Amount::new(3),
                    withdraw_at: 9,
                },
            ],
        }
    );
    let (bonds, unbonds) = query_all_bonds_and_unbonds(&Vec::new(), 1);
    assert_eq!(bonds, Bonds { epoch: 1, values: vec![] });
    assert_eq!(unbonds, Unbonds { epoch: 1, values: vec![] });
}

#[test]
fn the_proposal_counter_is_eight_bytes_with_the_lowest_first() {
    assert_eq!(query_next_governance_id(&[0; 8]), Ok(0));
    assert_eq!(query_next_governance_id(&[7, 0, 0, 0, 0, 0, 0, 0]), Ok(7));
    assert_eq!(query_next_governance_id(&[0, 1, 0, 0, 0, 0, 0, 0]), Ok(256));
    assert_eq!(
        query_next_governance_id(&[1, 2, 3, 4, 5, 6, 7, 8]),
        Ok(0x0807_0605_0403_0201)
    );
    assert_eq!(query_next_governance_id(&[0xFF; 8]), Ok(u64::MAX));
}

#[test]
fn other_bytes_are_no_proposal_counter() {
    assert_eq!(query_next_governance_id(&[]), Err(QueryError::Decode));
    assert_eq!(query_next_governance_id(&[1, 0, 0, 0, 0, 0, 0]), Err(QueryError::Decode));
    assert_eq!(query_next_governance_id(&[1, 0, 0, 0, 0, 0, 0, 0, 0]), Err(QueryError::Decode));
    assert_eq!(query_next_governance_id(&[0; 16]), Err(QueryError::Decode));
}

#[test]
fn bonds_are_read_after_the_pipeline() {
    assert_eq!(bond_query_epoch(10, 2), Some(12));
    assert_eq!(bond_query_epoch(10, 0), Some(10));
    assert_eq!(bond_query_epoch(0, 5), Some(5));
    assert_eq!(bond_query_epoch(u32::MAX, 2), Some(u32::MAX as u64 + 2));
    assert_eq!(bond_query_epoch(1, u64::MAX - 1), Some(u64::MAX));
    assert_eq!(bond_query_epoch(1, u64::MAX), None);
    assert_eq!(bond_query_epoch(u32::MAX, u64::MAX), None);
}

#[test]
fn bonds_carry_the_amounts_of_the_answers() {
    let answers = vec![
        BondAnswer {
            addresses: BondAddresses { source: account("alice"), target: account("v1") },
            amount: Amount::new(5),
        },
        BondAnswer {
            addresses: BondAddresses { source: account("v1"), target: account("v1") },
            amount: Amount::new(0),
        },
    ];
    assert_eq!(
        query_bonds(&answers, 8),
        Bonds {
            epoch: 8,
            values: vec![
                Bond { source: account("alice"), target: account("v1"), amount: Amount::new(5) },
                Bond { source: account("v1"), target: account("v1"), amount: Amount::new(0) },
            ],
        }
    );
    assert_eq!(query_bonds(&Vec::new(), 8), Bonds { epoch: 8, values: vec![] });
}

#[test]
fn the_last_entry_of_the_history_is_the_unbond() {
    let unbond = latest_unbond(&history(vec![entry(5, 10), entry(7, 4)])).unwrap();
    assert_eq!(unbond.withdraw_at, 7);
    assert_eq!(unbond.amount, Amount::new(4));
    assert_eq!(unbond.source, account("alice"));
    assert_eq!(unbond.target, account("val"));
}

#[test]
fn the_last_entry_counts_even_where_an_earlier_one_is_later_or_larger() {
    let unbond = latest_unbond(&history(vec![entry(9, 100), entry(7, 4), entry(3, 1)])).unwrap();
    assert_eq!(unbond.withdraw_at, 3);
    assert_eq!(unbond.amount, Amount::new(1));
    let single = latest_unbond(&history(vec![entry((1 << 32) + 2, 6)])).unwrap();
    assert_eq!(single.withdraw_at, 2);
    assert_eq!(single.amount, Amount::new(6));
}

#[test]
fn an_empty_history_is_an_error() {
    assert_eq!(latest_unbond(&history(vec![])), Err(QueryError::Empty));
}

#[test]
fn unbonds_are_the_last_entries_of_their_histories() {
    let mut second = history(vec![entry(2, 9)]);
    second.addresses = UnbondAddresses { source: account("bob"), validator: account("v2") };
    let answers = vec![history(vec![entry(5, 10), entry(7, 4)]), second];
    assert_eq!(
        query_unbonds(&answers, 6),
        Ok(Unbonds {
            epoch: 6,
            values: vec![
                Unbond {
                    source: account("alice"),
                    target: account("val"),
                    amount: Amount::new(4),
                    withdraw_at: 7,
                },
                Unbond {
                    source: account("bob"),
                    target: account("v2"),
                    amount: Amount::new(9),
                    withdraw_at: 2,
                },
            ],
        })
    );
    assert_eq!(query_unbonds(&Vec::new(), 6), Ok(Unbonds { epoch: 6, values: vec![] }));
}

#[test]
fn one_empty_history_fails_the_whole_query() {
    let answers = vec![history(vec![entry(5, 10)]), history(vec![]), history(vec![entry(7, 4)])];
    assert_eq!(query_unbonds(&answers, 6), Err(QueryError::Empty));
    assert_eq!(query_unbonds(&vec![history(vec![])], 6), Err(QueryError::Empty));
}
