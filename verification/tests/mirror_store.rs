use cow::cowboard::error::CowboardError;
use cow::cowboard::record::{CowboardMessage, MirrorRef, SourceKey};
use cow::cowboard::store::{is_duplicate, MirrorStore, UNIQUE_CONSTRAINT, UNIQUE_INDEX};

fn record(message: u64, channel: u64, guild: u64, post: u64, post_channel: u64) -> CowboardMessage {
    CowboardMessage {
        message_id: message,
        message_channel_id: channel,
        post_id: post,
        post_channel_id: post_channel,
        guild_id: guild,
    }
}

#[test]
fn blank_record_is_all_zero() {
    let blank = CowboardMessage::new(77);
    assert_eq!(blank, record(0, 0, 0, 0, 0));
}

#[test]
fn link_joins_key_and_mirror() {
    let key = SourceKey { message_id: 1, channel_id: 2, guild_id: 3 };
    let mirror = MirrorRef { post_id: 4, post_channel_id: 5 };
    let linked = CowboardMessage::link(key, mirror);
    assert_eq!(linked, record(1, 2, 3, 4, 5));
    assert_eq!(linked.key(), key);
    assert_eq!(linked.mirror(), mirror);
}

#[test]
fn empty_store_finds_nothing() {
    let store = MirrorStore::new();
    assert_eq!(store.len(), 0);
    assert_eq!(store.find(1, 2, 3), None);
    assert_eq!(store.count(1, 2, 3), 0);
}

#[test]
fn created_record_is_found() {
    let mut store = MirrorStore::new();
    assert_eq!(store.create(record(1, 2, 3, 4, 5)), Ok(()));
    assert_eq!(store.len(), 1);
    assert_eq!(store.find(1, 2, 3), Some(record(1, 2, 3, 4, 5)));
    assert_eq!(store.count(1, 2, 3), 1);
    // Every part of the key counts.
    assert_eq!(store.find(9, 2, 3), None);
    assert_eq!(store.find(1, 9, 3), None);
    assert_eq!(store.find(1, 2, 9), None);
}

#[test]
fn second_record_for_a_message_is_a_duplicate() {
    let mut store = MirrorStore::new();
    assert_eq!(store.create(record(1, 2, 3, 4, 5)), Ok(()));
    assert_eq!(store.create(record(1, 2, 3, 6, 7)), Err(CowboardError::DuplicateRecord));
    assert_eq!(store.len(), 1);
    assert_eq!(store.count(1, 2, 3), 1);
    // The first record stands.
    assert_eq!(store.find(1, 2, 3), Some(record(1, 2, 3, 4, 5)));
}

#[test]
fn records_of_other_messages_live_side_by_side() {
    let mut store = MirrorStore::new();
    assert_eq!(store.create(record(1, 2, 3, 4, 5)), Ok(()));
    assert_eq!(store.create(record(1, 2, 8, 6, 5)), Ok(()));
    assert_eq!(store.create(record(2, 2, 3, 7, 5)), Ok(()));
    assert_eq!(store.len(), 3);
    assert_eq!(store.find(1, 2, 8), Some(record(1, 2, 8, 6, 5)));
    assert_eq!(store.find(2, 2, 3), Some(record(2, 2, 3, 7, 5)));
}

#[test]
fn delete_removes_the_record_only() {
    let mut store = MirrorStore::new();
    store.create(record(1, 2, 3, 4, 5)).unwrap();
    store.create(record(2, 2, 3, 6, 5)).unwrap();
    store.create(record(3, 2, 3, 7, 5)).unwrap();
    store.delete(2, 2, 3);
    assert_eq!(store.len(), 2);
    assert_eq!(store.find(2, 2, 3), None);
    assert_eq!(store.find(1, 2, 3), Some(record(1, 2, 3, 4, 5)));
    assert_eq!(store.find(3, 2, 3), Some(record(3, 2, 3, 7, 5)));
}

#[test]
fn deleting_what_is_not_there_is_no_error() {
    let mut store = MirrorStore::new();
    store.delete(1, 2, 3);
    assert_eq!(store.len(), 0);
    store.create(record(1, 2, 3, 4, 5)).unwrap();
    store.delete(9, 9, 9);
    assert_eq!(store.len(), 1);
    assert_eq!(store.find(1, 2, 3), Some(record(1, 2, 3, 4, 5)));
    store.delete(1, 2, 3);
    store.delete(1, 2, 3);
    assert_eq!(store.len(), 0);
    assert_eq!(store.find(1, 2, 3), None);
}

#[test]
fn record_can_be_created_again_after_delete() {
    let mut store = MirrorStore::new();
    store.create(record(1, 2, 3, 4, 5)).unwrap();
    store.delete(1, 2, 3);
    assert_eq!(store.create(record(1, 2, 3, 8, 9)), Ok(()));
    assert_eq!(store.find(1, 2, 3), Some(record(1, 2, 3, 8, 9)));
    assert_eq!(store.count(1, 2, 3), 1);
}

#[test]
fn duplicates_by_error_number() {
    assert_eq!(UNIQUE_CONSTRAINT, 2627);
    assert_eq!(UNIQUE_INDEX, 2601);
    assert!(is_duplicate(2627));
    assert!(is_duplicate(2601));
    assert!(!is_duplicate(0));
    assert!(!is_duplicate(547));
    assert!(!is_duplicate(u32::MAX));
}
