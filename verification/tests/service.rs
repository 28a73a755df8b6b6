use tweet_service::store::TweetStore;
use tweet_service::StorageError;
use tweet_service::Timestamp;
use tweet_service::TweetPayload;

fn ts(year: i32, month: u8, day: u8, hour: u8, minute: u8, second: u8) -> Timestamp {
    Timestamp { year, month, day, hour, minute, second }
}

#[test]
fn create_returns_populated_row() {
    let mut store = TweetStore::new();
    let t = store.create_at("first post", ts(2024, 1, 1, 0, 0, 0)).unwrap();
    assert_eq!(t.id, 1);
    assert_eq!(t.message, "first post");
    assert_eq!(t.created_at, ts(2024, 1, 1, 0, 0, 0));
}

#[test]
fn create_with_clock_stays_in_calendar_ranges() {
    let mut store = TweetStore::new();
    let t = store.create("clocked").unwrap();
    assert_eq!(t.id, 1);
    assert_eq!(t.message, "clocked");
    let at = t.created_at;
    assert!((1..=12).contains(&at.month));
    assert!((1..=31).contains(&at.day));
    assert!(at.hour <= 23);
    assert!(at.minute <= 59);
    assert!(at.second <= 59);
    assert!(at.year >= 2020);
}

#[test]
fn empty_table_lists_nothing() {
    let store = TweetStore::new();
    assert!(store.list().is_empty());
}

#[test]
fn listing_after_creates_holds_every_message() {
    let mut store = TweetStore::new();
    let stamp = ts(2024, 2, 29, 12, 30, 45);
    store.create_at("a", stamp).unwrap();
    store.create_at("b", stamp).unwrap();
    store.create_at("c", stamp).unwrap();
    let all = store.list();
    assert_eq!(all.len(), 3);
    for wanted in ["a", "b", "c"] {
        assert!(all.iter().any(|t| t.message == wanted));
    }
}

#[test]
fn ids_are_handed_out_in_order_and_never_reused() {
    let mut store = TweetStore::new();
    let stamp = ts(2023, 7, 14, 8, 15, 0);
    let a = store.create_at("a", stamp).unwrap();
    let b = store.create_at("b", stamp).unwrap();
    let c = store.create_at("c", stamp).unwrap();
    assert_eq!((a.id, b.id, c.id), (1, 2, 3));
    assert_eq!(store.delete(2), 1);
    let d = store.create_at("d", stamp).unwrap();
    assert_eq!(d.id, 4);
}

#[test]
fn get_of_an_id_never_created_is_not_found() {
    let store = TweetStore::new();
    assert!(store.get_by_id(1).is_none());
    let mut store = TweetStore::new();
    store.create_at("only", ts(2024, 1, 1, 0, 0, 0)).unwrap();
    assert!(store.get_by_id(17).is_none());
}

#[test]
fn get_of_a_just_created_id_returns_the_same_tweet() {
    let mut store = TweetStore::new();
    let created = store.create_at("hold on", ts(2024, 5, 6, 7, 8, 9)).unwrap();
    let fetched = store.get_by_id(created.id).unwrap();
    assert!(fetched == created);
}

#[test]
fn update_overwrites_message_and_keeps_id_and_timestamp() {
    let mut store = TweetStore::new();
    let payload = TweetPayload { message: String::from("first draft") };
    let created = store.create_at(&payload.message, ts(2024, 3, 4, 5, 6, 7)).unwrap();
    let updated = store.update(created.id, "final wording").unwrap();
    assert_eq!(updated.id, created.id);
    assert_eq!(updated.message, "final wording");
    assert_eq!(updated.created_at, created.created_at);
    let fetched = store.get_by_id(created.id).unwrap();
    assert_eq!(fetched.message, "final wording");
    assert!(fetched == updated);
}

#[test]
fn repeating_an_update_leaves_the_table_as_it_stands() {
    let mut store = TweetStore::new();
    let stamp = ts(2024, 3, 4, 5, 6, 7);
    store.create_at("one", stamp).unwrap();
    store.create_at("two", stamp).unwrap();
    let first = store.update(2, "two, reworded").unwrap();
    let again = store.update(2, "two, reworded").unwrap();
    assert!(first == again);
    let after_first: Vec<_> = store.list();
    store.update(2, "two, reworded").unwrap();
    let after_second: Vec<_> = store.list();
    assert_eq!(after_first.len(), after_second.len());
    for (x, y) in after_first.iter().zip(after_second.iter()) {
        assert!(x == y);
    }
}

#[test]
fn update_of_a_missing_id_fails_with_storage_error() {
    let mut store = TweetStore::new();
    store.create_at("present", ts(2024, 1, 2, 3, 4, 5)).unwrap();
    let r = store.update(99, "anything");
    assert_eq!(r, Err(StorageError));
    assert_eq!(store.list().len(), 1);
    assert_eq!(store.get_by_id(1).unwrap().message, "present");
}

#[test]
fn delete_reports_the_affected_row_count() {
    let mut store = TweetStore::new();
    let created = store.create_at("short-lived", ts(2024, 1, 1, 0, 0, 0)).unwrap();
    assert_eq!(store.delete(created.id), 1);
    assert!(store.get_by_id(created.id).is_none());
    assert_eq!(store.delete(created.id), 0);
    assert_eq!(store.delete(12345), 0);
}

#[test]
fn full_crud_scenario() {
    let mut store = TweetStore::new();
    let t = store.create_at("hello", ts(2024, 1, 1, 0, 0, 0)).unwrap();
    assert_eq!(t.id, 1);
    assert_eq!(t.message, "hello");
    assert_eq!(t.created_at.to_iso_string(), "2024-01-01T00:00:00");

    let got = store.get_by_id(1).unwrap();
    assert!(got == t);

    let put = store.update(1, "bye").unwrap();
    assert_eq!(put.id, 1);
    assert_eq!(put.message, "bye");
    assert_eq!(put.created_at.to_iso_string(), "2024-01-01T00:00:00");

    assert_eq!(store.delete(1), 1);
    assert!(store.get_by_id(1).is_none());
}
