use chathub::parse::{parse_u128, parse_u64, parse_usize};
use chathub::store::MessageStore;
use chathub::types::{ChatMessage, Platform, StoreError};

fn msg(id: u128, ts: u64, text: &str) -> ChatMessage {
    ChatMessage {
        id,
        platform: Platform::Twitch,
        channel: "alice".to_string(),
        username: "bob".to_string(),
        content: text.to_string(),
        additional_info: None,
        timestamp: ts,
        published: false,
    }
}

#[test]
fn insert_and_find() {
    let mut store = MessageStore::new();
    assert!(!store.has_message(7));
    assert!(store.insert(msg(7, 100, "hi")).is_ok());
    assert!(store.has_message(7));
    assert!(!store.has_message(8));
}

#[test]
fn insert_duplicate_id_is_conflict() {
    let mut store = MessageStore::new();
    assert!(store.insert(msg(7, 100, "hi")).is_ok());
    let r = store.insert(msg(7, 200, "again"));
    assert!(matches!(r, Err(StoreError::Conflict)));
    // the failed insert left no trace
    let all = store.get_messages(10, None);
    assert_eq!(all.len(), 1);
    assert_eq!(all[0].content, "hi");
}

#[test]
fn mark_published_flips_and_returns_row() {
    let mut store = MessageStore::new();
    store.insert(msg(7, 100, "hi")).unwrap();
    let m = store.mark_published(7).unwrap();
    assert_eq!(m.id, 7);
    assert!(m.published);
    assert_eq!(m.content, "hi");
    let all = store.get_messages(10, None);
    assert!(all[0].published);
}

#[test]
fn mark_published_unknown_id_is_not_found() {
    let mut store = MessageStore::new();
    store.insert(msg(7, 100, "hi")).unwrap();
    let r = store.mark_published(8);
    assert!(matches!(r, Err(StoreError::NotFound)));
    let all = store.get_messages(10, None);
    assert!(!all[0].published);
}

#[test]
fn published_stays_published() {
    let mut store = MessageStore::new();
    store.insert(msg(1, 100, "one")).unwrap();
    store.mark_published(1).unwrap();
    // later operations never observe the flag false again
    store.insert(msg(2, 200, "two")).unwrap();
    let _ = store.mark_published(1).unwrap();
    let _ = store.mark_published(2).unwrap();
    store.insert(msg(3, 300, "three")).unwrap();
    for m in store.get_messages(10, None) {
        if m.id == 1 || m.id == 2 {
            assert!(m.published);
        }
    }
}

#[test]
fn pagination_sorted_descending_and_capped() {
    let mut store = MessageStore::new();
    store.insert(msg(1, 200, "b")).unwrap();
    store.insert(msg(2, 100, "a")).unwrap();
    store.insert(msg(3, 300, "c")).unwrap();
    let all = store.get_messages(10, None);
    assert_eq!(all.len(), 3);
    assert_eq!(all[0].timestamp, 300);
    assert_eq!(all[1].timestamp, 200);
    assert_eq!(all[2].timestamp, 100);
    let two = store.get_messages(2, None);
    assert_eq!(two.len(), 2);
    assert_eq!(two[0].timestamp, 300);
    assert_eq!(two[1].timestamp, 200);
}

#[test]
fn pagination_before_cursor_is_strict() {
    let mut store = MessageStore::new();
    store.insert(msg(1, 100, "a")).unwrap();
    store.insert(msg(2, 200, "b")).unwrap();
    store.insert(msg(3, 300, "c")).unwrap();
    // strictly older than 200: only the message at 100
    let page = store.get_messages(10, Some(200));
    assert_eq!(page.len(), 1);
    assert_eq!(page[0].timestamp, 100);
}

#[test]
fn pagination_example_three_rows_limit_one_before_250() {
    let mut store = MessageStore::new();
    store.insert(msg(1, 100, "a")).unwrap();
    store.insert(msg(2, 200, "b")).unwrap();
    store.insert(msg(3, 300, "c")).unwrap();
    let page = store.get_messages(1, Some(250));
    assert_eq!(page.len(), 1);
    assert_eq!(page[0].timestamp, 200);
    assert_eq!(page[0].id, 2);
}

#[test]
fn pagination_empty_match_is_empty_not_error() {
    let mut store = MessageStore::new();
    assert_eq!(store.get_messages(10, None).len(), 0);
    store.insert(msg(1, 100, "a")).unwrap();
    assert_eq!(store.get_messages(10, Some(50)).len(), 0);
    assert_eq!(store.get_messages(0, None).len(), 0);
}

#[test]
fn pagination_equal_timestamps_both_returned() {
    let mut store = MessageStore::new();
    store.insert(msg(1, 100, "a")).unwrap();
    store.insert(msg(2, 100, "b")).unwrap();
    store.insert(msg(3, 300, "c")).unwrap();
    let page = store.get_messages(10, Some(200));
    assert_eq!(page.len(), 2);
    assert_eq!(page[0].timestamp, 100);
    assert_eq!(page[1].timestamp, 100);
    assert_ne!(page[0].id, page[1].id);
}

#[test]
fn channels_add_list_delete() {
    let mut store = MessageStore::new();
    assert!(store.add_channel(1, "alice".to_string(), Platform::Twitch).is_ok());
    assert!(store.add_channel(2, "alice".to_string(), Platform::Youtube).is_ok());
    let chans = store.get_channels();
    assert_eq!(chans.len(), 2);
    assert_eq!(chans[0].name, "alice");
    assert_eq!(chans[0].platform, Platform::Twitch);
    assert!(!chans[0].listen);
    let removed = store.delete_channel(Platform::Twitch, &"alice".to_string());
    assert!(removed);
    let chans = store.get_channels();
    assert_eq!(chans.len(), 1);
    assert_eq!(chans[0].platform, Platform::Youtube);
    // deleting what is gone is a no-op, not an error
    let removed = store.delete_channel(Platform::Twitch, &"alice".to_string());
    assert!(!removed);
}

#[test]
fn channels_duplicate_pair_is_conflict() {
    let mut store = MessageStore::new();
    assert!(store.add_channel(1, "alice".to_string(), Platform::Twitch).is_ok());
    let r = store.add_channel(2, "alice".to_string(), Platform::Twitch);
    assert!(matches!(r, Err(StoreError::Conflict)));
    assert_eq!(store.get_channels().len(), 1);
}

#[test]
fn parse_u128_accepts_digits_only() {
    assert_eq!(parse_u128("123"), Some(123));
    assert_eq!(parse_u128("0"), Some(0));
    assert_eq!(parse_u128(""), None);
    assert_eq!(parse_u128("12a"), None);
    assert_eq!(parse_u128("-5"), None);
    assert_eq!(parse_u128("does-not-exist"), None);
}

#[test]
fn parse_u64_bounds() {
    assert_eq!(parse_u64("18446744073709551615"), Some(u64::MAX));
    assert_eq!(parse_u64("18446744073709551616"), None);
    assert_eq!(parse_u64("250"), Some(250));
}

#[test]
fn parse_usize_plain() {
    assert_eq!(parse_usize("50"), Some(50));
    assert_eq!(parse_usize("limit"), None);
}
