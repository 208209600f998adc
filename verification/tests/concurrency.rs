use bustub::common::rid::RID;
use bustub::concurrency::transaction::{IsolationLevel, Transaction, TransactionState};
use bustub::concurrency::transaction_manager::TransactionManager;
use bustub::concurrency::watermark::Watermark;

#[test]
fn watermark_is_lowest_read_timestamp() {
    let mut w = Watermark::new(5);
    assert_eq!(w.get_watermark(), 5);
    w.add_txn(5);
    w.add_txn(5);
    assert_eq!(w.get_watermark(), 5);
    w.remove_txn(5);
    assert_eq!(w.get_watermark(), 5);
    w.update_commit_ts(9);
    w.add_txn(9);
    assert_eq!(w.get_watermark(), 5);
}

#[test]
fn transactions_commit_and_abort_once() {
    let mut tm = TransactionManager::new();
    let a = tm.new_txn().unwrap();
    let b = tm.new_txn_with_iso_level(IsolationLevel::Serializable).unwrap();
    assert_eq!(b, a + 1);
    assert_eq!(tm.get_txn(a).get_transaction_id_human_readable(), 0);
    assert_eq!(tm.get_txn(b).get_isolation_level(), IsolationLevel::Serializable);
    assert!(tm.commit_txn(a).is_ok());
    assert_eq!(tm.get_txn(a).get_state(), TransactionState::Committed);
    assert!(tm.commit_txn(a).is_err());
    assert!(tm.abort_txn(a).is_err());
    assert!(tm.abort_txn(b).is_ok());
    assert_eq!(tm.get_txn(b).get_state(), TransactionState::Aborted);
    assert!(tm.commit_txn(b).is_err());
}

#[test]
fn write_set_holds_each_row_once() {
    let mut txn = Transaction::new(7, IsolationLevel::SnapshotIsolation);
    assert!(txn.get_write_sets().is_empty());
    txn.append_write_set(1, RID::from_parts(3, 4));
    txn.append_write_set(2, RID::from_parts(3, 4));
    txn.append_write_set(1, RID::from_parts(3, 4));
    txn.append_write_set(1, RID::from_parts(3, 5));
    let rows: Vec<(u32, i64)> = txn.get_write_sets().iter().map(|(t, r)| (*t, r.get())).collect();
    assert_eq!(rows.len(), 3);
    assert!(rows.contains(&(1, (3i64 << 32) | 4)));
    assert!(rows.contains(&(2, (3i64 << 32) | 4)));
    assert!(rows.contains(&(1, (3i64 << 32) | 5)));
}

#[test]
fn scan_predicates_group_by_table_in_order() {
    let mut txn = Transaction::new(7, IsolationLevel::Serializable);
    assert!(txn.get_scan_predicates().is_empty());
    txn.append_scan_predicate(2, "a".to_string());
    txn.append_scan_predicate(1, "b".to_string());
    txn.append_scan_predicate(2, "c".to_string());
    let preds = txn.get_scan_predicates();
    assert_eq!(
        preds,
        vec![(2, vec!["a".to_string(), "c".to_string()]), (1, vec!["b".to_string()])]
    );
}

#[test]
fn record_ids_print_page_and_slot() {
    assert_eq!(RID::from_parts(3, 4).to_string(), "page_id: 3 slot_num: 4\n");
    assert_eq!(RID::new().to_string(), "page_id: -1 slot_num: 0\n");
}

#[test]
fn watermark_is_the_lowest_running_read() {
    let mut w = Watermark::new(0);
    w.update_commit_ts(5);
    w.add_txn(5);
    assert_eq!(w.get_watermark(), 5);
    let mut v = Watermark::new(0);
    v.add_txn(0);
    v.update_commit_ts(3);
    v.add_txn(3);
    v.remove_txn(0);
    assert_eq!(v.get_watermark(), 3);
    v.add_txn(7);
    v.remove_txn(3);
    assert_eq!(v.get_watermark(), 7);
    v.remove_txn(7);
    assert_eq!(v.get_watermark(), 3);
}
