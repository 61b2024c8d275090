use link_ear::collections::{Table, TextSet};
use link_ear::history::{sort_records, History, MAX_MESSAGES};
use link_ear::model::ChatRecord;
use link_ear::names::{name_priority, remote_has_name_priority, NameRegistry};

const ALICE: &str = "12D3KooWCKULvuTT1ZDPW8zZpd215MT1QzoNeTvFbPvzhhGHmyDf";
const BOB: &str = "12D3KooWEpUHE3gptbCmfVFLxg5zqk1ESsapZpKbGVbEen4EVjVL";
const CAROL: &str = "12D3KooWHKUDXBvCmdC9pqW86j9zc8ZTUkNGU4zZTUVyV8MuKHD1";

fn record(id: &str, sent_at: i64) -> ChatRecord {
    ChatRecord {
        id: id.to_string(),
        peer_id: ALICE.to_string(),
        joined_at: None,
        author: "alice".to_string(),
        text: format!("text of {id}"),
        sent_at,
    }
}

fn ids(history: &History) -> Vec<String> {
    history.records.iter().map(|r| r.id.clone()).collect()
}

#[test]
fn records_stand_in_the_order_of_sending() {
    let mut history = History::new();
    assert!(history.insert_record(record("b", 1_700_000_000_000_002)));
    assert!(history.insert_record(record("c", 1_700_000_000_000_001)));
    assert!(history.insert_record(record("a", 1_700_000_000_000_002)));
    // In milliseconds, and so later than the others.
    assert!(history.insert_record(record("d", 1_700_000_000_001)));
    assert_eq!(ids(&history), ["c", "a", "b", "d"]);
}

#[test]
fn a_record_is_taken_once() {
    let mut history = History::new();
    assert!(history.insert_record(record("a", 1)));
    assert!(!history.insert_record(record("a", 2)));
    assert_eq!(history.records, [record("a", 1)]);
    assert_eq!(history.seen.len(), 1);
}

#[test]
fn only_the_newest_records_are_kept() {
    let mut history = History::new();
    for i in 0..MAX_MESSAGES as i64 {
        assert!(history.insert_record(record(&format!("m{i}"), 1_700_000_000 + i)));
    }
    assert_eq!(history.records.len(), MAX_MESSAGES);
    assert!(history.insert_record(record("late", 1_800_000_000)));
    assert_eq!(history.records.len(), MAX_MESSAGES);
    assert!(!history.seen.contains("m0"));
    assert_eq!(history.records[0].id, "m1");
    assert_eq!(history.records[MAX_MESSAGES - 1].id, "late");
    let before = ids(&history);
    assert!(history.insert_record(record("early", 1)));
    assert_eq!(ids(&history), before);
    assert!(!history.seen.contains("early"));
    assert!(history.insert_record(record("early", 1)));
    assert_eq!(ids(&history), before);
    assert_eq!(history.seen.len(), MAX_MESSAGES);
}

#[test]
fn histories_converge_in_any_order() {
    let mut one = History::new();
    let mut two = History::new();
    let all = [record("x", 5), record("y", 5), record("z", 4), record("w", 9)];
    for r in all.iter() {
        let _new = one.insert_record(r.clone());
    }
    for r in all.iter().rev() {
        let _new = two.insert_record(r.clone());
    }
    assert_eq!(one.records, two.records);
}

#[test]
fn equal_records_keep_their_order() {
    let sorted = sort_records(vec![record("b", 1), record("a", 1), record("a", 1)]);
    assert_eq!(sorted, [record("a", 1), record("a", 1), record("b", 1)]);
    assert!(sort_records(vec![]).is_empty());
}

#[test]
fn the_first_to_join_has_priority() {
    assert!(remote_has_name_priority(ALICE, Some(1_700_000_000), BOB, 1_700_000_001));
    assert!(!remote_has_name_priority(ALICE, Some(1_700_000_002), BOB, 1_700_000_001));
    // Milliseconds on one side, seconds on the other.
    assert!(remote_has_name_priority(ALICE, Some(1_700_000_000_999), BOB, 1_700_000_001));
    assert!(!remote_has_name_priority(ALICE, None, BOB, 1_700_000_001));
    assert_eq!(name_priority(ALICE, None), (i64::MAX, ALICE.to_string()));
    assert_eq!(name_priority(ALICE, Some(2)), (2_000_000, ALICE.to_string()));
}

#[test]
fn the_identifier_decides_between_equals() {
    assert!(remote_has_name_priority(ALICE, Some(7), BOB, 7));
    assert!(!remote_has_name_priority(BOB, Some(7), ALICE, 7));
    assert!(!remote_has_name_priority(ALICE, Some(7), ALICE, 7));
}

#[test]
fn an_earlier_peer_blocks_the_name() {
    let mut names = NameRegistry::new();
    assert_eq!(names.remember_peer_name(ALICE, "dj", Some(1), ALICE, "dj", 5), None);
    assert!(!names.is_blocked());
    assert_eq!(names.remember_peer_name(BOB, "dj", Some(9), ALICE, "dj", 5), None);
    assert!(!names.is_blocked());
    assert_eq!(
        names.remember_peer_name(CAROL, "dj", Some(1), ALICE, "dj", 5),
        Some(format!("name conflict: peer {CAROL} joined earlier with 'dj'"))
    );
    assert!(names.is_blocked());
    assert_eq!(names.remember_peer_name(BOB, "dj", Some(2), ALICE, "dj", 5), None);
    assert_eq!(names.conflicts.len(), 2);
    assert_eq!(names.remember_peer_name(BOB, "bob", Some(2), ALICE, "dj", 5), None);
    assert_eq!(
        names.remember_peer_name(CAROL, "carol", Some(1), ALICE, "dj", 5),
        Some("name 'dj' is available again".to_string())
    );
    assert!(!names.is_blocked());
}

#[test]
fn a_peer_that_goes_frees_the_name() {
    let mut names = NameRegistry::new();
    let _notice = names.remember_peer_name(BOB, "dj", Some(1), ALICE, "dj", 5);
    let _notice = names.remember_peer_name(CAROL, "dj", Some(1), ALICE, "dj", 5);
    assert!(!names.forget_peer_name(BOB, ALICE, "dj", 5));
    assert!(names.forget_peer_name(CAROL, ALICE, "dj", 5));
    assert!(!names.forget_peer_name(CAROL, ALICE, "dj", 5));
}

#[test]
fn claims_of_texts_that_name_no_peer_do_not_count() {
    let mut names = NameRegistry::new();
    assert_eq!(names.remember_peer_name("nobody", "dj", Some(1), ALICE, "dj", 5), None);
    assert!(!names.is_blocked());
}

#[test]
fn tables_keep_the_order_of_their_keys() {
    let mut table: Table<u64> = Table::new();
    table.insert("b", 1);
    table.insert("a", 2);
    table.insert("b", 3);
    assert_eq!(table.keys(), ["b", "a"]);
    assert_eq!(table.get("b"), Some(&3));
    assert_eq!(table.remove("b"), Some(3));
    assert_eq!(table.remove("b"), None);
    assert!(!table.contains("b"));
    assert!(table.contains("a"));
}

#[test]
fn sets_hold_each_text_once() {
    let mut set = TextSet::new();
    assert!(set.is_empty());
    assert!(set.insert("x"));
    assert!(!set.insert("x"));
    assert!(set.insert("y"));
    assert!(set.remove("x"));
    assert!(!set.remove("x"));
    assert!(set.contains("y"));
    assert_eq!(set.len(), 1);
}
