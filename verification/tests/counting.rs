use xinshang::usage::UsageStore;

#[test]
fn counts_and_persists() {
    let mut store = UsageStore::load(None);
    assert_eq!(store.get("u1"), 0);
    assert_eq!(store.increment("u1"), 1);
    assert_eq!(store.increment("u1"), 2);
    assert_eq!(store.get("u1"), 2);
    assert_eq!(store.get("u2"), 0);

    let reloaded = UsageStore::load(Some(&store.to_json()));
    assert_eq!(reloaded.get("u1"), 2);
}

#[test]
fn merge_max_takes_higher_and_is_idempotent() {
    let mut store = UsageStore::load(None);
    store.increment("dev");
    store.increment("dev");
    store.increment("dev");
    store.increment("dev");
    store.increment("dev");
    store.increment("acct");
    store.increment("acct");
    assert_eq!(store.merge_max("dev", "acct"), 5);
    assert_eq!(store.get("acct"), 5);
    assert_eq!(store.merge_max("dev", "acct"), 5);
    store.increment("acct");
    assert_eq!(store.merge_max("dev", "acct"), 6);
    assert_eq!(store.merge_max("acct", "acct"), 6);
}

#[test]
fn merging_leaves_others_alone() {
    let mut store = UsageStore::load(Some(r#"{"dev":3,"other":9}"#));
    assert_eq!(store.merge_max("dev", "acct"), 3);
    assert_eq!(store.get("dev"), 3);
    assert_eq!(store.get("other"), 9);
}

#[test]
fn stored_counts_are_json() {
    let mut store = UsageStore::load(None);
    assert_eq!(store.to_json(), "{}");
    store.increment("甲");
    assert_eq!(store.to_json(), "{\"甲\":1}");
    let unreadable = UsageStore::load(Some("{\"u\":-1}"));
    assert_eq!(unreadable.get("u"), 0);
    assert_eq!(UsageStore::load(Some("nonsense")).to_json(), "{}");
}
