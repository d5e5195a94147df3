use realmkbot::record::MessageRecord;
use realmkbot::stats::UserStat;
use realmkbot::record::CounterRow;
use realmkbot::store::{
    acknowledge, collect_ids, delete_keys, found, listed_ids, removed, settle, standing,
    tally_removed, Cause, Database, StoreOp,
};
use std::collections::BTreeSet;

fn archive() -> Database {
    Database::open(":memory:").unwrap()
}

fn record(id: i32, text: Option<&str>, is_forwarded: bool) -> MessageRecord {
    MessageRecord { id, text: text.map(|t| t.to_string()), is_forwarded, raw: vec![id as u8, 0xff] }
}

fn pairs(results: Vec<realmkbot::record::SearchResult>) -> Vec<(i32, String)> {
    let mut out: Vec<(i32, String)> = results.into_iter().map(|r| (r.id, r.text)).collect();
    out.sort();
    out
}

#[test]
fn fresh_archive_is_empty() {
    let db = archive();
    assert_eq!(db.existing_ids().unwrap(), BTreeSet::new());
    assert_eq!(db.random(10).unwrap().len(), 0);
    assert_eq!(db.search("a", 10).unwrap().len(), 0);
    assert_eq!(db.get_user_stats(1).unwrap(), None);
    assert_eq!(db.contains(1).unwrap(), false);
}

#[test]
fn upsert_twice_leaves_the_second_write() {
    let db = archive();
    db.upsert_one(&record(7, Some("first"), true)).unwrap();
    db.upsert_one(&record(7, Some("second"), true)).unwrap();
    assert_eq!(db.existing_ids().unwrap(), BTreeSet::from([7]));
    assert_eq!(pairs(db.random(10).unwrap()), vec![(7, "second".to_string())]);
    assert_eq!(db.search("first", 10).unwrap().len(), 0);
}

#[test]
fn upsert_of_the_same_record_twice_is_one_row() {
    let db = archive();
    let seven = record(7, Some("seven"), true);
    db.upsert_one(&seven).unwrap();
    db.upsert_one(&seven).unwrap();
    assert_eq!(db.existing_ids().unwrap(), BTreeSet::from([7]));
    assert_eq!(pairs(db.random(10).unwrap()), vec![(7, "seven".to_string())]);
    assert_eq!(db.delete(&[7]).unwrap(), 1);
    assert_eq!(db.existing_ids().unwrap(), BTreeSet::new());
}

#[test]
fn upsert_replaces_every_field() {
    let db = archive();
    db.upsert_one(&record(7, Some("seven"), true)).unwrap();
    db.upsert_one(&record(7, None, false)).unwrap();
    assert_eq!(db.random(10).unwrap().len(), 0);
    assert_eq!(db.contains(7).unwrap(), true);
}

#[test]
fn delete_of_nothing_is_zero() {
    let db = archive();
    db.upsert_one(&record(7, Some("seven"), true)).unwrap();
    assert_eq!(db.delete(&[]).unwrap(), 0);
    assert_eq!(db.existing_ids().unwrap(), BTreeSet::from([7]));
}

#[test]
fn delete_counts_only_rows_that_went() {
    let db = archive();
    db.upsert_one(&record(7, Some("seven"), true)).unwrap();
    assert_eq!(db.delete(&[7, 999]).unwrap(), 1);
    assert_eq!(db.existing_ids().unwrap(), BTreeSet::new());
    assert_eq!(db.delete(&[7, 999]).unwrap(), 0);
}

#[test]
fn delete_of_a_repeated_identifier_counts_it_once() {
    let db = archive();
    db.upsert_one(&record(1, Some("one"), true)).unwrap();
    db.upsert_one(&record(2, Some("two"), true)).unwrap();
    assert_eq!(db.delete(&[1, 1, 2]).unwrap(), 2);
}

#[test]
fn existing_ids_lists_every_key() {
    let db = archive();
    for id in [5, 1, 3] {
        db.upsert_one(&record(id, None, false)).unwrap();
    }
    assert_eq!(db.existing_ids().unwrap(), BTreeSet::from([1, 3, 5]));
    assert!(db.contains(3).unwrap());
    assert!(!db.contains(2).unwrap());
}

#[test]
fn random_shows_only_forwarded_messages_with_text() {
    let db = archive();
    db.upsert_one(&record(1, Some("kept"), true)).unwrap();
    db.upsert_one(&record(2, Some("not forwarded"), false)).unwrap();
    db.upsert_one(&record(3, None, true)).unwrap();
    db.upsert_one(&record(4, None, false)).unwrap();
    for _ in 0..20 {
        assert_eq!(pairs(db.random(10).unwrap()), vec![(1, "kept".to_string())]);
    }
}

#[test]
fn search_shows_only_forwarded_messages_with_text() {
    let db = archive();
    db.upsert_one(&record(1, Some("a kept line"), true)).unwrap();
    db.upsert_one(&record(2, Some("a line not forwarded"), false)).unwrap();
    db.upsert_one(&record(3, None, true)).unwrap();
    db.upsert_one(&record(4, Some("another"), true)).unwrap();
    assert_eq!(pairs(db.search("line", 10).unwrap()), vec![(1, "a kept line".to_string())]);
    assert_eq!(
        pairs(db.search("a", 10).unwrap()),
        vec![(1, "a kept line".to_string()), (4, "another".to_string())]
    );
    assert_eq!(db.search("absent", 10).unwrap().len(), 0);
}

#[test]
fn random_and_search_respect_the_limit() {
    let db = archive();
    for id in 1..=30 {
        db.upsert_one(&record(id, Some("line"), true)).unwrap();
    }
    assert_eq!(db.random(10).unwrap().len(), 10);
    assert_eq!(db.search("line", 10).unwrap().len(), 10);
    assert_eq!(db.random(0).unwrap().len(), 0);
    assert_eq!(db.random(255).unwrap().len(), 30);
    let ids: BTreeSet<i32> = db.random(10).unwrap().into_iter().map(|r| r.id).collect();
    assert_eq!(ids.len(), 10);
}

#[test]
fn counters_and_ranks() {
    let db = archive();
    let (a, b, c) = (100, 200, 300);
    for _ in 0..3 {
        db.bump_user_count(a).unwrap();
    }
    for _ in 0..5 {
        db.bump_user_count(b).unwrap();
        db.bump_user_count(c).unwrap();
    }
    let sa = db.get_user_stats(a).unwrap().unwrap();
    assert_eq!(sa, UserStat { user_id: a, count: 3, total_users: 3, lower_users: 1 });
    assert_eq!(sa.rank(), 3);
    let sb = db.get_user_stats(b).unwrap().unwrap();
    assert_eq!(sb, UserStat { user_id: b, count: 5, total_users: 3, lower_users: 3 });
    assert_eq!(sb.rank(), 1);
    assert_eq!(db.get_user_stats(400).unwrap(), None);
}

#[test]
fn first_bump_starts_at_one() {
    let db = archive();
    db.bump_user_count(9).unwrap();
    assert_eq!(
        db.get_user_stats(9).unwrap(),
        Some(UserStat { user_id: 9, count: 1, total_users: 1, lower_users: 1 })
    );
    db.bump_user_count(9).unwrap();
    assert_eq!(db.get_user_stats(9).unwrap().unwrap().count, 2);
}

#[test]
fn open_fails_where_no_file_can_be() {
    let err = Database::open("/nonexistent-directory/of/the/archive/main.db").unwrap_err();
    assert_eq!(err.op, StoreOp::Open);
    assert_eq!(err.id, None);
    assert!(matches!(err.cause, Cause::Engine(_)));
}

#[test]
fn settle_labels_a_failure() {
    let failed: Result<usize, rusqlite::Error> = Err(rusqlite::Error::QueryReturnedNoRows);
    let err = settle(StoreOp::Delete, Some(7), failed).unwrap_err();
    assert_eq!(err.op, StoreOp::Delete);
    assert_eq!(err.id, Some(7));
    assert!(matches!(err.cause, Cause::Engine(rusqlite::Error::QueryReturnedNoRows)));
}

#[test]
fn settle_hands_a_success_on() {
    let fine: Result<usize, rusqlite::Error> = Ok(3);
    assert_eq!(settle(StoreOp::Upsert, None, fine).unwrap(), 3);
}

#[test]
fn tally_adds_up() {
    assert_eq!(tally_removed(&vec![]), Some(0));
    assert_eq!(tally_removed(&vec![1, 0]), Some(1));
    assert_eq!(tally_removed(&vec![1, 0, 1, 1]), Some(3));
    assert_eq!(tally_removed(&vec![usize::MAX]), Some(usize::MAX));
}

#[test]
fn tally_that_does_not_fit_is_none() {
    assert_eq!(tally_removed(&vec![usize::MAX, 1]), None);
    assert_eq!(tally_removed(&vec![1, usize::MAX, 0]), None);
}

#[test]
fn collected_identifiers_are_a_set() {
    assert_eq!(collect_ids(&vec![3, 1, 3, 2, 1]), BTreeSet::from([1, 2, 3]));
    assert_eq!(collect_ids(&vec![]), BTreeSet::new());
}

/// An archive on a database in memory that a second connection shares.
fn shared(name: &str) -> (Database, rusqlite::Connection, String) {
    let uri = format!("file:{}?mode=memory&cache=shared", name);
    let side = rusqlite::Connection::open(&uri).unwrap();
    let db = Database::open(&uri).unwrap();
    (db, side, uri)
}

#[test]
fn second_connection_sees_what_was_stored() {
    let (db, side, _) = shared("seen");
    db.upsert_one(&record(7, Some("seven"), true)).unwrap();
    db.bump_user_count(5).unwrap();
    db.bump_user_count(5).unwrap();
    let (text, forwarded, raw): (Option<String>, bool, Vec<u8>) = side
        .query_row("SELECT text, is_forwarded, raw FROM message WHERE id = 7", [], |row| {
            Ok((row.get(0)?, row.get(1)?, row.get(2)?))
        })
        .unwrap();
    assert_eq!(text, Some("seven".to_string()));
    assert!(forwarded);
    assert_eq!(raw, vec![7, 0xff]);
    let rows: i64 = side.query_row("SELECT count(*) FROM message", [], |row| row.get(0)).unwrap();
    assert_eq!(rows, 1);
    let count: i64 = side.query_row("SELECT count FROM user WHERE user_id = 5", [], |row| row.get(0)).unwrap();
    assert_eq!(count, 2);
}

#[test]
fn delete_of_nothing_does_not_ask_the_engine() {
    let (db, side, _) = shared("unasked");
    side.execute_batch("DROP TABLE message").unwrap();
    assert_eq!(db.delete(&[]).unwrap(), 0);
    let err = db.delete(&[7]).unwrap_err();
    assert_eq!(err.op, StoreOp::Delete);
    assert_eq!(err.id, Some(7));
}

#[test]
fn failures_name_the_operation_and_the_identifier() {
    let (db, side, _) = shared("broken");
    side.execute_batch("DROP TABLE message; DROP TABLE user").unwrap();

    let err = db.upsert_one(&record(7, Some("seven"), true)).unwrap_err();
    assert_eq!((err.op, err.id), (StoreOp::Upsert, Some(7)));
    assert!(matches!(err.cause, Cause::Engine(_)));

    let err = db.delete(&[3, 4]).unwrap_err();
    assert_eq!((err.op, err.id), (StoreOp::Delete, Some(3)));

    let err = db.existing_ids().unwrap_err();
    assert_eq!((err.op, err.id), (StoreOp::ExistingIds, None));

    let err = db.contains(9).unwrap_err();
    assert_eq!((err.op, err.id), (StoreOp::Contains, Some(9)));

    let err = db.random(10).unwrap_err();
    assert_eq!((err.op, err.id), (StoreOp::Random, None));

    let err = db.search("a", 10).unwrap_err();
    assert_eq!((err.op, err.id), (StoreOp::Search, None));

    let err = db.bump_user_count(5).unwrap_err();
    assert_eq!((err.op, err.id), (StoreOp::BumpUserCount, Some(5)));

    let err = db.get_user_stats(5).unwrap_err();
    assert_eq!((err.op, err.id), (StoreOp::UserStats, Some(5)));
}

#[test]
fn open_fails_on_a_schema_from_the_future() {
    let uri = "file:ahead?mode=memory&cache=shared";
    let side = rusqlite::Connection::open(uri).unwrap();
    side.pragma_update(None, "user_version", 9).unwrap();
    let err = Database::open(uri).unwrap_err();
    assert_eq!(err.op, StoreOp::Migrate);
    assert_eq!(err.id, None);
    assert!(matches!(err.cause, Cause::Migration(_)));
}

#[test]
fn open_twice_keeps_what_is_stored() {
    let (db, _side, uri) = shared("twice");
    db.upsert_one(&record(1, Some("one"), true)).unwrap();
    let again = Database::open(&uri).unwrap();
    assert_eq!(again.existing_ids().unwrap(), BTreeSet::from([1]));
}

#[test]
fn negative_count_in_the_table_is_a_failure() {
    let (db, side, _) = shared("negative");
    side.execute("INSERT INTO user (user_id, count) VALUES (1, -1)", []).unwrap();
    let err = db.get_user_stats(1).unwrap_err();
    assert_eq!((err.op, err.id), (StoreOp::UserStats, Some(1)));
}

#[test]
fn search_treats_wildcards_as_the_engine_does() {
    let db = archive();
    db.upsert_one(&record(1, Some("abc"), true)).unwrap();
    db.upsert_one(&record(2, Some("axc"), true)).unwrap();
    assert_eq!(pairs(db.search("a_c", 10).unwrap()).len(), 2);
    assert_eq!(pairs(db.search("b", 10).unwrap()), vec![(1, "abc".to_string())]);
}

#[test]
fn open_fails_where_the_journal_cannot_be_switched() {
    let uri = "file:locked?mode=memory&cache=shared";
    let side = rusqlite::Connection::open(uri).unwrap();
    side.execute_batch("CREATE TABLE t (x); BEGIN EXCLUSIVE; INSERT INTO t VALUES (1);").unwrap();
    let err = Database::open(uri).unwrap_err();
    assert_eq!(err.op, StoreOp::JournalMode);
    assert_eq!(err.id, None);
    assert!(matches!(err.cause, Cause::Engine(_)));
}

#[test]
fn deletion_runs_one_statement_for_each_identifier() {
    assert_eq!(delete_keys(&[]), Vec::<Vec<i64>>::new());
    assert_eq!(delete_keys(&[7, 999]), vec![vec![7], vec![999]]);
    assert_eq!(delete_keys(&[1, 1]), vec![vec![1], vec![1]]);
    assert_eq!(delete_keys(&[i32::MIN, i32::MAX]), vec![vec![-2147483648], vec![2147483647]]);
}

fn no_rows() -> rusqlite::Error {
    rusqlite::Error::QueryReturnedNoRows
}

#[test]
fn acknowledgement_drops_the_row_count() {
    assert!(acknowledge(StoreOp::Upsert, Some(7), Ok(1)).is_ok());
    assert!(acknowledge(StoreOp::BumpUserCount, Some(5), Ok(0)).is_ok());
    let err = acknowledge(StoreOp::Upsert, Some(7), Err(no_rows())).unwrap_err();
    assert_eq!((err.op, err.id), (StoreOp::Upsert, Some(7)));
    assert!(matches!(err.cause, Cause::Engine(rusqlite::Error::QueryReturnedNoRows)));
}

#[test]
fn listed_identifiers_become_a_set() {
    assert_eq!(listed_ids(Ok(vec![3, 1, 3])).unwrap(), BTreeSet::from([1, 3]));
    assert_eq!(listed_ids(Ok(vec![])).unwrap(), BTreeSet::new());
    let err = listed_ids(Err(no_rows())).unwrap_err();
    assert_eq!((err.op, err.id), (StoreOp::ExistingIds, None));
    assert!(matches!(err.cause, Cause::Engine(_)));
}

#[test]
fn found_where_the_engine_lists_a_row() {
    assert_eq!(found(7, Ok(vec![7])).unwrap(), true);
    assert_eq!(found(7, Ok(vec![])).unwrap(), false);
    let err = found(7, Err(no_rows())).unwrap_err();
    assert_eq!((err.op, err.id), (StoreOp::Contains, Some(7)));
    assert!(matches!(err.cause, Cause::Engine(_)));
}

#[test]
fn standing_is_derived_from_the_listed_table() {
    let rows = vec![
        CounterRow { user_id: 1, count: 3 },
        CounterRow { user_id: 2, count: 5 },
        CounterRow { user_id: 3, count: 5 },
    ];
    assert_eq!(
        standing(1, Ok(rows.clone())).unwrap(),
        Some(UserStat { user_id: 1, count: 3, total_users: 3, lower_users: 1 })
    );
    assert_eq!(
        standing(3, Ok(rows.clone())).unwrap(),
        Some(UserStat { user_id: 3, count: 5, total_users: 3, lower_users: 3 })
    );
    assert_eq!(standing(4, Ok(rows)).unwrap(), None);
    let err = standing(4, Err(no_rows())).unwrap_err();
    assert_eq!((err.op, err.id), (StoreOp::UserStats, Some(4)));
    assert!(matches!(err.cause, Cause::Engine(_)));
}

#[test]
fn removal_adds_up_the_counts() {
    assert_eq!(removed(&[], &vec![], None).unwrap(), 0);
    assert_eq!(removed(&[7, 999], &vec![1, 0], None).unwrap(), 1);
    assert_eq!(removed(&[1, 2, 3], &vec![1, 1, 1], None).unwrap(), 3);
}

#[test]
fn removal_names_the_statement_that_failed() {
    let err = removed(&[7, 999], &vec![1], Some(no_rows())).unwrap_err();
    assert_eq!((err.op, err.id), (StoreOp::Delete, Some(999)));
    assert!(matches!(err.cause, Cause::Engine(_)));
    let err = removed(&[7, 999], &vec![], Some(no_rows())).unwrap_err();
    assert_eq!((err.op, err.id), (StoreOp::Delete, Some(7)));
    let err = removed(&[7], &vec![1], Some(no_rows())).unwrap_err();
    assert_eq!((err.op, err.id), (StoreOp::Delete, None));
}

#[test]
fn removal_that_does_not_fit_is_a_failure() {
    let err = removed(&[1, 2], &vec![usize::MAX, 1], None).unwrap_err();
    assert_eq!((err.op, err.id), (StoreOp::Delete, None));
    assert!(matches!(err.cause, Cause::OutOfRange));
}

#[test]
fn deletion_stops_at_the_statement_that_fails() {
    let (db, side, _) = shared("stops");
    db.upsert_one(&record(1, Some("one"), true)).unwrap();
    side.execute_batch(
        "CREATE TRIGGER refuse BEFORE DELETE ON message WHEN old.id = 2
         BEGIN SELECT RAISE(ABORT, 'kept'); END;",
    )
    .unwrap();
    db.upsert_one(&record(2, Some("two"), true)).unwrap();
    db.upsert_one(&record(3, Some("three"), true)).unwrap();
    let err = db.delete(&[1, 2, 3]).unwrap_err();
    assert_eq!((err.op, err.id), (StoreOp::Delete, Some(2)));
    assert_eq!(db.existing_ids().unwrap(), BTreeSet::from([2, 3]));
}
