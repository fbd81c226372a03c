use xinshang::clock::{now_secs, seconds_of};
use xinshang::subscription::{SubRecord, SubscriptionStore, DAY_SECS};

fn copies(store: &SubscriptionStore) -> Vec<(String, SubRecord)> {
    store.entries().iter().rev().map(|(user, record)| (user.clone(), record.clone())).collect()
}

#[test]
fn activate_persist_and_premium() {
    let mut s = SubscriptionStore::load(None);
    assert!(!s.is_premium("u1"));
    assert_eq!(s.status("u1").plan, "free");

    s.activate("u1", "plus", Some(30));
    assert!(s.is_premium("u1"));
    s.activate("u2", "plus", None);
    assert!(s.is_premium("u2"));

    let r = SubscriptionStore::load(Some(copies(&s)));
    assert!(r.is_premium("u1"));
    assert!(r.is_premium("u2"));
    assert!(!r.is_premium("u3"));
}

#[test]
fn days_add_up() {
    let mut s = SubscriptionStore::load(None);
    let first = s.activate_at("u", "plus", Some(30), 1_000);
    assert_eq!(first.expires_at, Some(1_000 + 30 * DAY_SECS));
    let second = s.activate_at("u", "plus", Some(1), 2_000);
    assert_eq!(second.expires_at, Some(1_000 + 31 * DAY_SECS));
    let late = s.activate_at("u", "plus", Some(1), 1_000 + 40 * DAY_SECS);
    assert_eq!(late.expires_at, Some(1_000 + 41 * DAY_SECS));
    assert!(s.is_premium_at("u", 1_000 + 41 * DAY_SECS - 1));
    assert!(!s.is_premium_at("u", 1_000 + 41 * DAY_SECS));
    let life = s.activate_at("u", "plus", None, 0);
    assert_eq!(life.expires_at, None);
    assert!(s.is_premium_at("u", i64::MAX));
}

#[test]
fn the_clock_is_what_activation_goes_by() {
    let before = now_secs();
    assert!(before > 1_600_000_000);
    let mut s = SubscriptionStore::load(None);
    let end = s.activate("u", "plus", Some(1)).unwrap().expires_at.unwrap();
    assert!(end >= before + DAY_SECS && end <= now_secs() + DAY_SECS);
}

#[test]
fn an_end_past_all_time_is_turned_down() {
    let full = SubRecord { plan: "plus".into(), expires_at: Some(i64::MAX) };
    let mut s = SubscriptionStore::load(Some(vec![("u".to_string(), full)]));
    assert!(s.activate("u", "plus", Some(1)).is_none());
    assert_eq!(s.status("u").expires_at, Some(i64::MAX));
    assert!(s.activate("u", "plus", None).is_some());
}

#[test]
fn records_know_what_they_are_worth() {
    let free = SubRecord::free();
    assert_eq!((free.plan.as_str(), free.expires_at), ("free", None));
    assert!(!free.is_premium(0));
    let month = SubRecord { plan: "plus".into(), expires_at: Some(10) };
    let year = SubRecord { plan: "plus".into(), expires_at: Some(20) };
    let life = SubRecord { plan: "plus".into(), expires_at: None };
    assert!(month.is_premium(9) && !month.is_premium(10));
    assert!(month.is_better_than(&free) && !free.is_better_than(&month));
    assert!(year.is_better_than(&month) && !month.is_better_than(&year));
    assert!(life.is_better_than(&year) && !year.is_better_than(&life));
    assert!(!life.is_better_than(&life));
}

#[test]
fn accounts_take_over_what_is_better() {
    let mut s = SubscriptionStore::load(None);
    s.activate_at("dev", "plus", Some(2), 0);
    s.activate_at("acct", "plus", Some(1), 0);
    s.merge_better("dev", "acct");
    assert_eq!(s.status("acct").expires_at, Some(2 * DAY_SECS));
    s.merge_better("dev", "acct");
    assert_eq!(s.status("acct").expires_at, Some(2 * DAY_SECS));
    s.merge_better("nobody", "acct");
    assert_eq!(s.status("acct").expires_at, Some(2 * DAY_SECS));
    s.merge_better("acct", "new");
    assert_eq!(s.status("new").plan, "plus");
    assert_eq!(s.status("dev").expires_at, Some(2 * DAY_SECS));
}

#[test]
fn events_are_noted_once() {
    let mut s = SubscriptionStore::load(None);
    assert!(s.mark_processed("e1"));
    assert!(!s.mark_processed("e1"));
    assert!(s.mark_processed("e2"));
}

#[test]
fn an_activation_is_personal() {
    let mut s = SubscriptionStore::load(None);
    s.activate_at("a", "plus", Some(1), 0);
    s.activate_at("b", "plus", None, 0);
    assert_eq!(s.status("a").expires_at, Some(DAY_SECS));
    assert_eq!(s.status("c").plan, "free");
}

#[test]
fn readings_of_the_clock_are_seconds() {
    assert_eq!(seconds_of(None), 0);
    assert_eq!(seconds_of(Some(5)), 5);
    assert_eq!(seconds_of(Some(i64::MAX as u64)), i64::MAX);
    assert_eq!(seconds_of(Some(u64::MAX)), -1);
}

#[test]
fn life_stays_life() {
    let mut s = SubscriptionStore::load(None);
    s.activate_at("u", "plus", None, 0);
    assert_eq!(s.activate_at("u", "plus", Some(30), 1_000).expires_at, None);
    assert_eq!(s.status("u").expires_at, None);
    assert!(s.is_premium_at("u", i64::MAX));
    assert_eq!(s.activate("u", "plus", Some(1)).unwrap().expires_at, None);
    let free = SubRecord::free();
    let mut s = SubscriptionStore::load(Some(vec![("v".to_string(), free)]));
    assert_eq!(s.activate_at("v", "plus", Some(1), 0).expires_at, Some(DAY_SECS));
}

#[test]
fn an_activation_never_shortens() {
    let running = SubRecord { plan: "plus".into(), expires_at: Some(5_000) };
    let mut s = SubscriptionStore::load(Some(vec![("u".to_string(), running)]));
    assert_eq!(s.activate_at("u", "plus", Some(0), 10).expires_at, Some(5_000));
    assert_eq!(s.activate_at("u", "plus", Some(0), 6_000).expires_at, Some(6_000));
}

#[test]
fn an_activation_at_a_moment_may_be_turned_down() {
    let mut s = SubscriptionStore::load(None);
    assert!(s.try_activate_at("u", "plus", Some(1), i64::MAX).is_none());
    assert_eq!(s.status("u").plan, "free");
    assert!(s.try_activate_at("u", "plus", Some(0), i64::MAX).is_some());
    let given = s.try_activate_at("v", "plus", Some(2), 100).unwrap();
    assert_eq!(given.expires_at, Some(100 + 2 * DAY_SECS));
    assert!(s.try_activate_at("w", "plus", None, i64::MAX).is_some());
}
