use xinshang::access::{
    account_reply, auth_login, auth_me, auth_register, auth_user, current_user,
    migrate_device_to_account, token_in, user_from, user_or_device,
};
use xinshang::auth::{
    is_valid_email, is_valid_password, issue, issue_at, issue_moment, issue_with, jwt_secret,
    names_too_many_lanes, normalize_email,
    user_in_claims, user_of_reading, verify, verify_with, TokenReading, User, UserStore,
    DEV_FALLBACK_SECRET, HASH_PREFIX, TOKEN_LEEWAY_SECS, TOKEN_TTL_SECS,
};
use xinshang::clock::now_secs;
use xinshang::json::Json;
use xinshang::settings::Settings;
use xinshang::subscription::SubscriptionStore;
use xinshang::usage::UsageStore;

fn value(text: &str) -> serde_json::Value {
    serde_json::from_str(text).unwrap()
}

fn json(text: &str) -> Json {
    Json::parse(text.as_bytes()).unwrap()
}

fn settings(vars: &[(&str, &str)]) -> Settings {
    Settings::from_vars(vars.iter().map(|(k, v)| (k.to_string(), v.to_string())).collect())
}

fn user(id: &str, email: &str, pass_hash: &str) -> User {
    User { id: id.into(), email: email.into(), pass_hash: pass_hash.into(), created_at: 1 }
}

#[test]
fn register_success_and_duplicate() {
    let mut st = UserStore::load(None);
    let u = st.register("Alice@Example.com", "secret1").ok().unwrap();
    assert_eq!(u.email, "alice@example.com");
    assert!(u.id.starts_with("acct_"));
    assert!(!u.pass_hash.is_empty());
    assert_ne!(u.pass_hash, "secret1");

    assert_eq!(st.register("alice@example.com", "another6").err(), Some("email_taken"));
    assert_eq!(st.register("noat", "secret1").err(), Some("invalid"));
    assert_eq!(st.register("bob@x.com", "123").err(), Some("invalid"));
}

#[test]
fn login_correct_and_wrong_password() {
    let mut st = UserStore::load(None);
    st.register("bob@example.com", "hunter2").ok().unwrap();
    assert!(st.login("bob@example.com", "hunter2").is_some());
    assert!(st.login("BOB@example.com", "hunter2").is_some());
    assert!(st.login("bob@example.com", "wrongpw").is_none());
    assert!(st.login("nobody@example.com", "hunter2").is_none());
}

#[test]
fn get_by_id() {
    let mut st = UserStore::load(None);
    let u = st.register("carol@example.com", "passw0rd").ok().unwrap();
    assert_eq!(st.get(&u.id).map(|x| x.email), Some("carol@example.com".to_string()));
    assert!(st.get("acct_nope").is_none());
}

#[test]
fn persists_across_reload() {
    let mut st = UserStore::load(None);
    let u = st.register("dave@example.com", "passw0rd").ok().unwrap();
    let stored = st.entries().iter().map(|(k, v)| (k.clone(), v.clone())).collect();
    let reloaded = UserStore::load(Some(stored));
    assert!(reloaded.login("dave@example.com", "passw0rd").is_some());
    assert_eq!(reloaded.get(&u.id).map(|x| x.email), Some("dave@example.com".to_string()));
}

#[test]
fn jwt_roundtrip() {
    let secret = b"test-secret-roundtrip";
    let token = issue_with("acct_abc123", secret);
    assert!(!token.is_empty());
    assert_eq!(verify_with(&token, secret), Some("acct_abc123".to_string()));
}

#[test]
fn jwt_tampered_fails() {
    let secret = b"test-secret-tamper";
    let token = issue_with("acct_xyz", secret);
    let mut chars: Vec<char> = token.chars().collect();
    let last = chars.len() - 1;
    chars[last] = if chars[last] == 'a' { 'b' } else { 'a' };
    let tampered: String = chars.into_iter().collect();
    assert_eq!(verify_with(&tampered, secret), None);
    assert_eq!(verify_with(&token, b"different-secret"), None);
    assert_eq!(verify_with("not.a.jwt", secret), None);
}

#[test]
fn jwt_expired_fails() {
    let secret = b"test-secret-expired";
    let token = issue_at("acct_old", secret, now_secs() - 3600 - TOKEN_TTL_SECS);
    assert_eq!(verify_with(&token, secret), None);
}

#[test]
fn tokens_live_for_thirty_days() {
    let secret = b"test-secret-life";
    assert_eq!(TOKEN_TTL_SECS, 30 * 86_400);
    let nearly = issue_at("acct_x", secret, now_secs() - TOKEN_TTL_SECS + 600);
    assert_eq!(verify_with(&nearly, secret), Some("acct_x".to_string()));
    let late = issue_at("acct_x", secret, now_secs() - TOKEN_TTL_SECS - 600);
    assert_eq!(verify_with(&late, secret), None);
    assert_eq!(TOKEN_LEEWAY_SECS, 60);
    let just_past = issue_at("acct_x", secret, now_secs() - TOKEN_TTL_SECS - 20);
    assert_eq!(verify_with(&just_past, secret), Some("acct_x".to_string()));
    let past_leeway = issue_at("acct_x", secret, now_secs() - TOKEN_TTL_SECS - 65);
    assert_eq!(verify_with(&past_leeway, secret), None);
}

#[test]
fn addresses_are_kept_in_one_form() {
    assert_eq!(normalize_email("  Eve@Example.COM\n"), "eve@example.com");
    let mut st = UserStore::load(None);
    st.register(" Eve@Example.COM ", "passw0rd").ok().unwrap();
    assert_eq!(st.register("eve@example.com", "passw0rd").err(), Some("email_taken"));
    assert!(st.login("eve@EXAMPLE.com ", "passw0rd").is_some());
    let kept = normalize_email(" Eve@Example.COM ");
    assert_eq!(normalize_email(&kept), kept);
    assert!(st.login(&kept, "passw0rd").is_some());
    assert!(st.login(&kept, "wrong-one").is_none());
}

#[test]
fn addresses_and_passwords_have_rules() {
    assert!(is_valid_email("a@b"));
    assert!(!is_valid_email("@b"));
    assert!(!is_valid_email("@bc"));
    assert!(!is_valid_email("ab@"));
    assert!(!is_valid_email("abc"));
    assert!(!is_valid_email(""));
    assert!(is_valid_email("心@上"));
    assert!(is_valid_password("123456"));
    assert!(is_valid_password("密码"));
    assert!(!is_valid_password("12345"));
}

#[test]
fn a_hash_stands_for_a_password() {
    let mut st = UserStore::load(None);
    let a = st.register("a@x.com", "same-password").ok().unwrap();
    let b = st.register("b@x.com", "same-password").ok().unwrap();
    assert_eq!(HASH_PREFIX, "$argon2id$");
    assert!(a.pass_hash.starts_with(HASH_PREFIX));
    assert!(!names_too_many_lanes(&a.pass_hash));
    assert_ne!(a.pass_hash, b.pass_hash);
    assert_ne!(a.id, b.id);
    assert_eq!(a.id.len(), 37);
    assert!(a.id.chars().skip(5).all(|c| c.is_ascii_hexdigit()));
    let odd = UserStore::load(Some(vec![("c@x.com".to_string(), user("acct_c", "c@x.com", "?"))]));
    assert!(odd.login("c@x.com", "?").is_none());
}

#[test]
fn enrolling_takes_what_was_drawn() {
    let mut st = UserStore::load(None);
    let none = st.enroll("a@x.com".into(), None, "acct_1".into(), 5);
    assert_eq!(none.err(), Some("invalid"));
    let u = st.enroll("a@x.com".into(), Some("h".into()), "acct_1".into(), 5).ok().unwrap();
    assert_eq!((u.id.as_str(), u.pass_hash.as_str(), u.created_at), ("acct_1", "h", 5));
    let twice = st.enroll("a@x.com".into(), None, "acct_2".into(), 6);
    assert_eq!(twice.err(), Some("email_taken"));
    assert!(st.login_checked("A@x.com", true).is_some());
    assert!(st.login_checked("A@x.com", false).is_none());
    assert!(st.login_checked("b@x.com", true).is_none());
}

#[test]
fn claims_name_a_user() {
    assert_eq!(user_in_claims(&json(r#"{"sub":"u","exp":1}"#)).as_deref(), Some("u"));
    assert_eq!(user_in_claims(&json(r#"{"sub":"u","exp":-1}"#)).as_deref(), Some("u"));
    assert!(user_in_claims(&json(r#"{"sub":"u"}"#)).is_none());
    assert!(user_in_claims(&json(r#"{"sub":"u","exp":1.5}"#)).is_none());
    assert!(user_in_claims(&json(r#"{"sub":"u","exp":9223372036854775808}"#)).is_none());
    assert!(user_in_claims(&json(r#"{"sub":7,"exp":1}"#)).is_none());
    assert_eq!(
        user_of_reading(TokenReading::Claims(value(r#"{"sub":"u","exp":1}"#))).as_deref(),
        Some("u")
    );
    assert!(user_of_reading(TokenReading::OutOfTime).is_none());
    assert!(user_of_reading(TokenReading::Refused).is_none());
}

#[test]
fn the_secret_comes_from_the_settings() {
    assert_eq!(jwt_secret(&settings(&[])), DEV_FALLBACK_SECRET.as_bytes());
    assert_eq!(jwt_secret(&settings(&[("AUTH_JWT_SECRET", " ")])), DEV_FALLBACK_SECRET.as_bytes());
    let s = settings(&[("AUTH_JWT_SECRET", " s3 ")]);
    assert_eq!(jwt_secret(&s), b" s3 ");
    let token = issue(&s, "acct_1");
    assert_eq!(verify(&s, &token).as_deref(), Some("acct_1"));
    assert!(verify(&settings(&[]), &token).is_none());
}

#[test]
fn requests_name_their_user() {
    assert_eq!(user_from(Some("dev-1")), "dev-1");
    assert_eq!(user_from(Some(" \t")), "anonymous");
    assert_eq!(user_from(None), "anonymous");
    assert_eq!(token_in("Bearer  abc "), Some("abc"));
    assert_eq!(token_in("bearer abc"), Some("abc"));
    assert_eq!(token_in("BEARER abc"), None);
    assert_eq!(user_or_device(Some("acct".into()), Some("dev")), "acct");
    assert_eq!(user_or_device(None, Some("dev")), "dev");
    let s = settings(&[("AUTH_JWT_SECRET", "k")]);
    let header = format!("Bearer {}", issue(&s, "acct_9"));
    assert_eq!(auth_user(&s, Some(&header)).as_deref(), Some("acct_9"));
    assert_eq!(current_user(&s, Some(&header), Some("dev")), "acct_9");
    assert_eq!(current_user(&s, Some("Bearer forged"), Some("dev")), "dev");
    assert_eq!(current_user(&s, None, None), "anonymous");
}

#[test]
fn devices_move_into_accounts() {
    let mut usage = UsageStore::load(Some(r#"{"dev":4,"anonymous":8}"#));
    let mut members = SubscriptionStore::load(None);
    members.activate_at("dev", "plus", None, 0);
    migrate_device_to_account(&mut usage, &mut members, Some("dev"), "acct");
    migrate_device_to_account(&mut usage, &mut members, Some("dev"), "acct");
    assert_eq!(usage.get("acct"), 4);
    assert!(members.is_premium("acct"));
    migrate_device_to_account(&mut usage, &mut members, None, "other");
    assert_eq!(usage.get("other"), 0);
    assert!(!members.is_premium("other"));
}

#[test]
fn coming_in_by_registering_and_logging_in() {
    let s = settings(&[("AUTH_JWT_SECRET", "k")]);
    let mut users = UserStore::load(None);
    let mut usage = UsageStore::load(Some(r#"{"dev":4}"#));
    let mut members = SubscriptionStore::load(None);
    let request = json(r#"{"email":"Fay@x.com","password":"passw0rd"}"#);
    let r = auth_register(&s, &mut users, &mut usage, &mut members, Some("dev"), &request);
    assert_eq!(r.status, 200);
    let body = r.body.to_value();
    let id = body["user"]["id"].as_str().unwrap().to_string();
    assert_eq!(body["user"]["email"], value(r#""fay@x.com""#));
    assert_eq!(verify(&s, body["token"].as_str().unwrap()), Some(id.clone()));
    assert_eq!(usage.get(&id), 4);

    let again = auth_register(&s, &mut users, &mut usage, &mut members, None, &request);
    assert_eq!(again.status, 409);
    assert_eq!(again.body.to_value(), value(r#"{"error":"email_taken"}"#));
    let empty = auth_register(&s, &mut users, &mut usage, &mut members, None, &json("[]"));
    assert_eq!(empty.status, 400);
    assert_eq!(empty.body.to_value(), value(r#"{"error":"invalid"}"#));

    let r = auth_login(&s, &users, &mut usage, &mut members, None, &request);
    assert_eq!(r.status, 200);
    let token = r.body.to_value()["token"].as_str().unwrap().to_string();
    let wrong = json(r#"{"email":"fay@x.com","password":"wrong"}"#);
    let r = auth_login(&s, &users, &mut usage, &mut members, None, &wrong);
    assert_eq!(r.status, 401);
    assert_eq!(r.body.to_value(), value(r#"{"error":"bad_credentials"}"#));

    let me = auth_me(&s, &users, Some(&format!("Bearer {token}")));
    assert_eq!(me.status, 200);
    assert_eq!(me.body.to_value(), value(&format!(r#"{{"id":"{id}","email":"fay@x.com"}}"#)));
    let nobody = auth_me(&s, &users, None);
    assert_eq!(nobody.status, 401);
    assert_eq!(nobody.body.to_value(), value(r#"{"error":"unauthorized"}"#));
    assert_eq!(account_reply(&users, Some("acct_gone".into())).status, 401);
}

#[test]
fn a_new_account_changes_no_other() {
    let mut st = UserStore::load(None);
    let a = st.register("a@x.com", "first-password").ok().unwrap();
    st.register("b@x.com", "other-password").ok().unwrap();
    assert_eq!(st.login("a@x.com", "first-password").map(|u| u.id), Some(a.id));
    assert!(st.login("a@x.com", "other-password").is_none());
}

#[test]
fn hashes_with_too_many_lanes_open_nothing() {
    let hash = |p: &str| format!("$argon2id$v=19$m=19456,t=2,p={p}$c2FsdHNhbHQ$aGFzaGhhc2hoYXNo");
    for p in ["536870912", "123456789", "99999999999"] {
        assert!(names_too_many_lanes(&hash(p)));
        let stored = vec![("c@x.com".to_string(), user("acct_c", "c@x.com", &hash(p)))];
        assert!(UserStore::load(Some(stored)).login("c@x.com", "anything").is_none());
    }
    for p in ["1", "99999999", "1234567x9"] {
        assert!(!names_too_many_lanes(&hash(p)));
        let stored = vec![("c@x.com".to_string(), user("acct_c", "c@x.com", &hash(p)))];
        assert!(UserStore::load(Some(stored)).login("c@x.com", "anything").is_none());
    }
    assert!(!names_too_many_lanes("p=12345678"));
    assert!(names_too_many_lanes("p=123456789"));
    assert!(!names_too_many_lanes(""));
}

#[test]
fn tokens_are_issued_at_a_moment_that_fits() {
    assert_eq!(issue_moment(-5), 0);
    assert_eq!(issue_moment(7), 7);
    assert_eq!(issue_moment(i64::MAX), i64::MAX - TOKEN_TTL_SECS);
}
