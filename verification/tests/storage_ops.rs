use notebot::bot::{BotContext, Get};
use notebot::store::{DeleteError, InsertError, ReadError, Storage, UpdateError};

#[test]
fn insert_refuses_an_existing_key() {
    let mut store = Storage::new("/tmp/notebot_test_store_insert", None).expect("open");
    // leave the store usable on re-runs: work under a fresh key each time
    let _ = store.delete("fresh");
    assert!(store.insert("fresh", "v1").is_ok());
    assert!(matches!(
        store.insert("fresh", "v2"),
        Err(InsertError::ExistingKey)
    ));
    assert_eq!(store.read("fresh").unwrap(), "v1");
}

#[test]
fn update_needs_the_key_present() {
    let mut store = Storage::new("/tmp/notebot_test_store_update", None).expect("open");
    let _ = store.delete("u");
    assert!(matches!(store.update("u", "v"), Err(UpdateError::MissingKey)));
    store.upsert("u", "v1").expect("upsert");
    assert!(store.update("u", "v2").is_ok());
    assert_eq!(store.read("u").unwrap(), "v2");
}

#[test]
fn delete_needs_the_key_present() {
    let mut store = Storage::new("/tmp/notebot_test_store_delete", None).expect("open");
    store.upsert("d", "v").expect("upsert");
    assert!(store.delete("d").is_ok());
    assert!(matches!(store.delete("d"), Err(DeleteError::MissingKey)));
    assert!(matches!(store.read("d"), Err(ReadError::NoData)));
}

#[test]
fn read_reports_an_absent_key_as_no_data() {
    let store = Storage::new("/tmp/notebot_test_store_read", None).expect("open");
    assert!(matches!(store.read("never written"), Err(ReadError::NoData)));
}

#[test]
fn upsert_overwrites_and_list_sees_every_key_once() {
    let mut store = Storage::new("/tmp/notebot_test_store_list", None).expect("open");
    store.upsert("k", "v1").expect("upsert");
    store.upsert("k", "v2").expect("upsert");
    store.upsert("other", "x").expect("upsert");
    assert_eq!(store.read("k").unwrap(), "v2");
    let keys = store.list().expect("list");
    assert_eq!(keys.iter().filter(|k| k.as_str() == "k").count(), 1);
    assert_eq!(keys.iter().filter(|k| k.as_str() == "other").count(), 1);
}

#[test]
fn a_named_bucket_works_like_the_default_one() {
    let mut store = Storage::new("/tmp/notebot_test_store_named", Some("notes")).expect("open");
    store.upsert("k", "v").expect("upsert");
    assert_eq!(store.read("k").unwrap(), "v");
}

#[test]
fn the_context_hands_out_its_store() {
    let store = Storage::new("/tmp/notebot_test_store_context", None).expect("open");
    let context = BotContext::new(store);
    let handle: &Storage = context.get();
    assert!(matches!(handle.read("never written"), Err(ReadError::NoData)));
}

#[test]
fn repeated_listings_between_writes_agree() {
    let mut store = Storage::new("/tmp/notebot_test_store_stable", None).expect("open");
    store.upsert("x", "1").expect("upsert");
    store.upsert("y", "2").expect("upsert");
    let first = store.list().expect("list");
    let second = store.list().expect("list");
    assert_eq!(first, second);
}
