use rurl_shortener::storage::Storage;

#[test]
fn test_storage() {
    let mut storage = Storage::new();
    assert!(storage.store("key".into(), "val".into()));
    assert!(!storage.store("key".into(), "val2".into()));
    assert!(storage.fetch("key") == Some("val".into()));
}

#[test]
fn test_fetch_absent_key() {
    let storage = Storage::new();
    assert!(storage.fetch("missing").is_none());
}

#[test]
fn test_binding_persists_across_later_stores() {
    let mut storage = Storage::new();
    assert!(storage.store("mykey".into(), "https://a.io".into()));
    assert!(storage.store("other".into(), "https://b.io".into()));
    assert!(!storage.store("mykey".into(), "https://c.io".into()));
    assert!(storage.store("third".into(), "https://d.io".into()));
    assert!(storage.fetch("mykey") == Some("https://a.io".into()));
}

#[test]
fn test_distinct_keys_coexist() {
    let mut storage = Storage::new();
    assert!(storage.store("one_key".into(), "https://a.io".into()));
    assert!(storage.store("two_key".into(), "https://b.io".into()));
    assert!(storage.fetch("one_key") == Some("https://a.io".into()));
    assert!(storage.fetch("two_key") == Some("https://b.io".into()));
}
