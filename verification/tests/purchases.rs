use xinshang::billing::{
    admin, grant_days, grant_user, order_reply, plans_json, sub_grant, sub_grant_at, sub_order,
    sub_status, sub_status_at, sub_webhook, sub_webhook_at, Payment,
};
use xinshang::json::Json;
use xinshang::pay::{create_order, find_plan, plans, provider, verify_webhook, OrderOutcome};
use xinshang::settings::Settings;
use xinshang::subscription::{SubscriptionStore, DAY_SECS};

fn value(text: &str) -> serde_json::Value {
    serde_json::from_str(text).unwrap()
}

fn json(text: &str) -> Json {
    Json::parse(text.as_bytes()).unwrap()
}

fn settings(vars: &[(&str, &str)]) -> Settings {
    Settings::from_vars(vars.iter().map(|(k, v)| (k.to_string(), v.to_string())).collect())
}

fn payment(user: &str, plan: &str, event: Option<&str>) -> Option<Payment> {
    Some(Payment { user: user.into(), plan: plan.into(), event: event.map(|e| e.to_string()) })
}

#[test]
fn plans_are_on_sale() {
    let all = plans();
    assert_eq!(all.len(), 3);
    assert_eq!(all[0].price_cents, 1800);
    assert_eq!(find_plan("plus_month").unwrap().days, Some(30));
    assert_eq!(find_plan("plus_year").unwrap().days, Some(365));
    assert_eq!(find_plan("plus_year").unwrap().price_cents, 9800);
    assert_eq!(find_plan("plus_life").unwrap().days, None);
    assert_eq!(find_plan("plus_life").unwrap().price_cents, 19800);
    assert!(find_plan("plus").is_none());
    let shown = plans_json().to_value();
    assert_eq!(
        shown[2],
        value(
            r#"{"id":"plus_life","name":"Plus 终身","price_cents":19800,"days":null,
                "tagline":"全部 Plus + 永久解锁"}"#
        )
    );
    assert_eq!(shown[0]["days"], value("30"));
}

#[test]
fn a_channel_needs_all_its_settings() {
    let all = [("PAY_PROVIDER", " stripe "), ("PAY_MERCHANT_ID", "m"), ("PAY_KEY", "k")];
    assert_eq!(provider(&settings(&all)).as_deref(), Some("stripe"));
    assert!(provider(&settings(&all[..2])).is_none());
    assert!(provider(&settings(&all[1..])).is_none());
    assert!(provider(&settings(&[("PAY_PROVIDER", " "), all[1], all[2]])).is_none());
}

#[test]
fn no_order_is_made_up() {
    let plan = find_plan("plus_month").unwrap();
    assert!(matches!(create_order(&plan, "u"), OrderOutcome::NeedsConfig));
    assert!(verify_webhook(&json(r#"{"user":"u"}"#)).is_none());
    assert_eq!(
        sub_order(&json(r#"{"plan":" plus_month "}"#), "u").to_value(),
        value(
            r#"{"status":"needs_config","message":"支付即将开通：商户号配置好后即可购买。",
                "plan":"plus_month","price_cents":1800}"#
        )
    );
    assert_eq!(
        sub_order(&json("{}"), "u").to_value(),
        value(r#"{"status":"error","message":"未知套餐"}"#)
    );
    let ready = OrderOutcome::Ready {
        provider: "stripe".into(),
        order_id: "o1".into(),
        pay_payload: json(r#"{"url":"x"}"#),
    };
    assert_eq!(
        order_reply(&plan, ready).to_value(),
        value(r#"{"status":"ok","provider":"stripe","order_id":"o1","pay":{"url":"x"}}"#)
    );
    assert_eq!(
        order_reply(&plan, OrderOutcome::Error("e".into())).to_value(),
        value(r#"{"status":"error","message":"e"}"#)
    );
}

#[test]
fn members_see_their_membership() {
    let s = settings(&[]);
    let mut members = SubscriptionStore::load(None);
    members.activate_at("u", "plus", Some(1), 0);
    let shown = sub_status_at(&s, &members, "u", 5).to_value();
    assert_eq!(shown["status"], value(r#""ok""#));
    assert_eq!(shown["plan"], value(r#""plus""#));
    assert_eq!(shown["premium"], value("true"));
    assert_eq!(shown["expires_at"], value("86400"));
    assert_eq!(shown["pay_ready"], value("false"));
    assert_eq!(shown["plans"], plans_json().to_value());
    assert_eq!(sub_status(&s, &members, "u").to_value()["premium"], value("false"));
    let free = sub_status(&s, &members, "nobody").to_value();
    assert_eq!(free["plan"], value(r#""free""#));
    assert_eq!(free["expires_at"], value("null"));
}

#[test]
fn a_notice_counts_once() {
    let mut members = SubscriptionStore::load(None);
    let r = sub_webhook(&mut members, payment("u", "plus_month", Some("e1")));
    assert_eq!(r.status, 200);
    assert_eq!(r.body.to_value(), value(r#"{"status":"ok"}"#));
    let end = members.status("u").expires_at.unwrap();
    assert_eq!(sub_webhook(&mut members, payment("u", "plus_month", Some("e1"))).status, 200);
    assert_eq!(members.status("u").expires_at, Some(end));
    assert_eq!(sub_webhook(&mut members, payment("u", "plus_month", Some("e2"))).status, 200);
    assert_eq!(members.status("u").expires_at, Some(end + 30 * DAY_SECS));
    sub_webhook(&mut members, payment("v", "plus_life", None));
    sub_webhook(&mut members, payment("v", "plus_life", Some("v:plus_life")));
    assert_eq!(members.status("v").expires_at, None);
    assert!(members.is_premium("v"));
    assert!(!members.mark_processed("v:plus_life"));
    assert!(!members.is_premium("w"));
}

#[test]
fn doubtful_notices_change_nothing() {
    let mut members = SubscriptionStore::load(None);
    let r = sub_webhook(&mut members, None);
    assert_eq!(r.status, 400);
    assert_eq!(r.body.to_value(), value(r#"{"status":"error","message":"验签失败或未配置"}"#));
    let r = sub_webhook(&mut members, payment("u", "gold", Some("e")));
    assert_eq!(r.status, 400);
    assert_eq!(r.body.to_value(), value(r#"{"status":"error","message":"未知套餐"}"#));
    assert!(!members.is_premium("u"));
    assert!(members.mark_processed("e"));
}

#[test]
fn gifts_need_the_token() {
    let s = settings(&[("ADMIN_TOKEN", "t")]);
    assert!(admin(&s, Some("t")));
    assert!(!admin(&s, Some("x")));
    assert!(!admin(&s, None));
    assert!(!admin(&settings(&[]), None));
    assert!(!admin(&settings(&[("ADMIN_TOKEN", " ")]), Some(" ")));
    let mut members = SubscriptionStore::load(None);
    let request = json(r#"{"user":"u","days":2}"#);
    assert_eq!(sub_grant(&s, &mut members, None, None, &request).err(), Some(403));
    assert!(!members.is_premium("u"));
    let given = sub_grant(&s, &mut members, Some("t"), None, &request).ok().unwrap().to_value();
    assert_eq!(given["status"], value(r#""ok""#));
    assert_eq!(given["user"], value(r#""u""#));
    assert_eq!(given["plan"], value(r#""plus""#));
    assert_eq!(given["expires_at"].as_i64(), members.status("u").expires_at);
    assert!(members.is_premium("u"));
}

#[test]
fn gifts_have_terms() {
    assert_eq!(grant_user(&json(r#"{"user":"u"}"#), Some("h")), "u");
    assert_eq!(grant_user(&json(r#"{"user":" "}"#), Some("h")), "h");
    assert_eq!(grant_user(&json("{}"), None), "anonymous");
    assert_eq!(grant_days(&json("{}")), Some(30));
    assert_eq!(grant_days(&json(r#"{"plan":"plus_year"}"#)), Some(365));
    assert_eq!(grant_days(&json(r#"{"plan":" plus_life "}"#)), None);
    assert_eq!(grant_days(&json(r#"{"plan":"gold"}"#)), Some(30));
    assert_eq!(grant_days(&json(r#"{"plan":"plus_life","days":7}"#)), Some(7));
    assert_eq!(grant_days(&json(r#"{"days":4294967297}"#)), Some(1));
    assert_eq!(grant_days(&json(r#"{"days":-1}"#)), Some(30));
}

#[test]
fn a_notice_at_a_moment_is_exact() {
    let mut members = SubscriptionStore::load(None);
    assert_eq!(sub_webhook_at(&mut members, payment("u", "plus_month", Some("e1")), 100).status, 200);
    assert_eq!(members.status("u").expires_at, Some(100 + 30 * DAY_SECS));
    assert_eq!(sub_webhook_at(&mut members, payment("u", "plus_year", Some("e2")), 200).status, 200);
    assert_eq!(members.status("u").expires_at, Some(100 + 395 * DAY_SECS));
    let late = payment("v", "plus_month", Some("e3"));
    assert_eq!(sub_webhook_at(&mut members, late, i64::MAX).status, 200);
    assert_eq!(members.status("v").plan, "free");
    sub_webhook_at(&mut members, payment("w", "plus_life", Some("e4")), i64::MAX);
    assert_eq!(members.status("w").plan, "plus");
    sub_webhook_at(&mut members, payment("w", "plus_month", Some("e5")), 300);
    assert_eq!(members.status("w").expires_at, None);
}

#[test]
fn a_gift_at_a_moment_is_exact() {
    let s = settings(&[("ADMIN_TOKEN", "t")]);
    let mut members = SubscriptionStore::load(None);
    let request = json(r#"{"user":"u","days":2}"#);
    assert_eq!(
        sub_grant_at(&s, &mut members, Some("t"), None, &request, 50).ok().unwrap().to_value(),
        value(r#"{"status":"ok","user":"u","plan":"plus","expires_at":172850}"#)
    );
    let other = json(r#"{"days":1}"#);
    let late = sub_grant_at(&s, &mut members, Some("t"), Some("v"), &other, i64::MAX);
    assert_eq!(late.err(), Some(500));
    assert_eq!(members.status("v").plan, "free");
    assert_eq!(sub_grant_at(&s, &mut members, Some("x"), None, &request, 50).err(), Some(403));
    let life = json(r#"{"user":"u","plan":"plus_life"}"#);
    sub_grant_at(&s, &mut members, Some("t"), None, &life, 60).ok().unwrap();
    sub_grant_at(&s, &mut members, Some("t"), None, &request, 70).ok().unwrap();
    assert_eq!(members.status("u").expires_at, None);
}
