use chain_indexer::checksums::Checksums;
use chain_indexer::id::{Id, IdKind};

#[test]
fn identifiers_hold_the_lower_case_of_their_text() {
    assert_eq!(Id::hash("ABCDEF0123").to_string(), "abcdef0123");
    assert_eq!(Id::account("TNAM1QXYZ").to_string(), "tnam1qxyz");
    assert_eq!(Id::account("tnam1qxyz").to_string(), "tnam1qxyz");
}

#[test]
fn identifiers_are_the_same_by_kind_and_canonical_text() {
    assert!(Id::hash("ABC").same(&Id::hash("abc")));
    assert!(Id::account("Tnam1A").same(&Id::account("tNAM1a")));
    assert!(!Id::hash("abc").same(&Id::hash("abd")));
    assert!(!Id::hash("abc").same(&Id::account("abc")));
    assert_eq!(Id::hash("ABC"), Id::hash("abc"));
    assert_ne!(Id::hash("abc"), Id::account("abc"));
}

#[test]
fn the_default_identifier_is_the_empty_hash() {
    let id = Id::default();
    assert_eq!(id.kind(), IdKind::Hash);
    assert_eq!(id.to_string(), "");
    assert!(id.same(&Id::hash("")));
}

#[test]
fn a_copy_of_an_identifier_is_the_same_identifier() {
    let id = Id::account("tnam1owner");
    let copy = id.clone();
    assert!(copy.same(&id));
    assert_eq!(copy.kind(), IdKind::Account);
}

#[test]
fn an_empty_table_knows_nothing() {
    let table = Checksums::new();
    assert_eq!(table, Checksums::default());
    assert_eq!(table.len(), 0);
    assert_eq!(table.get_name_by_id("aa"), None);
    assert_eq!(table.get_id_by_name("tx_bond"), None);
}

#[test]
fn a_table_is_read_in_both_directions() {
    let mut table = Checksums::new();
    table.add("tx_bond".to_string(), "aa11".to_string());
    table.add("tx_unbond".to_string(), "bb22".to_string());
    assert_eq!(table.len(), 2);
    assert_eq!(table.get_name_by_id("aa11"), Some("tx_bond".to_string()));
    assert_eq!(table.get_name_by_id("bb22"), Some("tx_unbond".to_string()));
    assert_eq!(table.get_id_by_name("tx_bond"), Some("aa11".to_string()));
    assert_eq!(table.get_id_by_name("tx_unbond"), Some("bb22".to_string()));
    assert_eq!(table.get_name_by_id("cc33"), None);
    assert_eq!(table.get_id_by_name("tx_withdraw"), None);
}

#[test]
fn adding_a_name_again_replaces_its_hash() {
    let mut table = Checksums::new();
    table.add("tx_bond".to_string(), "aa11".to_string());
    table.add("tx_bond".to_string(), "cc33".to_string());
    assert_eq!(table.len(), 1);
    assert_eq!(table.get_id_by_name("tx_bond"), Some("cc33".to_string()));
    assert_eq!(table.get_name_by_id("aa11"), None);
    assert_eq!(table.get_name_by_id("cc33"), Some("tx_bond".to_string()));
}

#[test]
fn adding_a_hash_again_replaces_its_name() {
    let mut table = Checksums::new();
    table.add("tx_bond".to_string(), "aa11".to_string());
    table.add("tx_unbond".to_string(), "bb22".to_string());
    table.add("tx_withdraw".to_string(), "aa11".to_string());
    assert_eq!(table.len(), 2);
    assert_eq!(table.get_name_by_id("aa11"), Some("tx_withdraw".to_string()));
    assert_eq!(table.get_id_by_name("tx_bond"), None);
    assert_eq!(table.get_id_by_name("tx_unbond"), Some("bb22".to_string()));
}

#[test]
fn one_line_can_push_out_two() {
    let mut table = Checksums::new();
    table.add("tx_bond".to_string(), "aa11".to_string());
    table.add("tx_unbond".to_string(), "bb22".to_string());
    table.add("tx_bond".to_string(), "bb22".to_string());
    assert_eq!(table.len(), 1);
    assert_eq!(table.get_name_by_id("bb22"), Some("tx_bond".to_string()));
    assert_eq!(table.get_id_by_name("tx_unbond"), None);
    assert_eq!(table.get_name_by_id("aa11"), None);
}

#[test]
fn a_copy_of_a_table_reads_the_same() {
    let mut table = Checksums::new();
    table.add("tx_bond".to_string(), "aa11".to_string());
    let copy = table.clone();
    assert_eq!(copy, table);
    assert_eq!(copy.get_name_by_id("aa11"), Some("tx_bond".to_string()));
}
