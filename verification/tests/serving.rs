use xinshang::ai::AiOutcome;
use xinshang::image::ImageOutcome;
use xinshang::inspire::{GhostwriteRequest, InspireRequest};
use xinshang::json::Json;
use xinshang::prompt::{Audit, QaRequest};
use xinshang::quiz::QuizRequest;
use xinshang::serve::{
    allowed_origins, audit_json, clean, free_limit, ghostwrite_finish, ghostwrite_start, health,
    image_finish, image_start, inspire_finish, inspire_start, listed_in, qa_finish, qa_start,
    quiz_finish, quiz_start, quota_at, quota_for, usage_json, Quota,
};
use xinshang::settings::Settings;
use xinshang::subscription::SubscriptionStore;
use xinshang::usage::UsageStore;

fn value(text: &str) -> serde_json::Value {
    serde_json::from_str(text).unwrap()
}

fn json(text: &str) -> Json {
    Json::parse(text.as_bytes()).unwrap()
}

fn settings(vars: &[(&str, &str)]) -> Settings {
    Settings::from_vars(vars.iter().map(|(k, v)| (k.to_string(), v.to_string())).collect())
}

fn question() -> QaRequest {
    QaRequest {
        person_name: "母亲".into(),
        relation: None,
        memories: vec![],
        question: "在吗".into(),
        tone: None,
        perspective: None,
        scenario: Some("report".into()),
        history: vec![],
    }
}

fn audit() -> Audit {
    Audit { system_prompt_keys: vec!["k".into()], context_memory_count: 2, sent_chars: 30 }
}

fn quota(premium: bool, used: u32, limit: u32) -> Quota {
    Quota { premium, used, limit }
}

#[test]
fn the_service_is_healthy() {
    assert_eq!(health().to_value(), value(r#"{"status":"ok","service":"xinshang_backend"}"#));
}

#[test]
fn origins_are_listed() {
    assert_eq!(
        allowed_origins(&settings(&[])),
        vec![
            "https://www.loveaivip.com",
            "https://loveaivip.com",
            "http://localhost:8080",
            "http://127.0.0.1:8080",
        ]
    );
    let s = settings(&[("CORS_ALLOWED_ORIGINS", " http://a , ,http://b,")]);
    assert_eq!(allowed_origins(&s), vec!["http://a", "http://b"]);
    assert!(allowed_origins(&settings(&[("CORS_ALLOWED_ORIGINS", "")])).is_empty());
}

#[test]
fn the_limit_can_be_set() {
    assert_eq!(free_limit(&settings(&[])), 10);
    assert_eq!(free_limit(&settings(&[("AI_FREE_LIMIT", "3")])), 3);
    assert_eq!(free_limit(&settings(&[("AI_FREE_LIMIT", "+4")])), 4);
    assert_eq!(free_limit(&settings(&[("AI_FREE_LIMIT", " 3")])), 10);
    assert_eq!(free_limit(&settings(&[("AI_FREE_LIMIT", "-3")])), 10);
    assert_eq!(free_limit(&settings(&[("AI_FREE_LIMIT", "4294967296")])), 10);
}

#[test]
fn quotas_run_out_for_free_users_only() {
    assert!(!quota(false, 9, 10).is_exhausted());
    assert!(quota(false, 10, 10).is_exhausted());
    assert!(!quota(true, 10, 10).is_exhausted());
    let s = settings(&[("AI_FREE_LIMIT", "2")]);
    let usage = UsageStore::load(Some(r#"{"a":2,"b":2}"#));
    let mut members = SubscriptionStore::load(None);
    members.activate_at("b", "plus", Some(1), 0);
    assert!(quota_at(&s, &usage, &members, "a", 5).is_exhausted());
    assert!(!quota_at(&s, &usage, &members, "b", 5).is_exhausted());
    assert!(quota_at(&s, &usage, &members, "b", 90_000).is_exhausted());
    let now = quota_for(&s, &usage, &members, "b");
    assert_eq!((now.premium, now.used, now.limit), (false, 2, 2));
}

#[test]
fn quotas_are_shown() {
    assert_eq!(
        usage_json(false, 3, 10).to_value(),
        value(r#"{"premium":false,"used":3,"limit":10,"remaining":7}"#)
    );
    assert_eq!(
        usage_json(false, 12, 10).to_value(),
        value(r#"{"premium":false,"used":12,"limit":10,"remaining":0}"#)
    );
    assert_eq!(
        usage_json(true, 12, 10).to_value(),
        value(r#"{"premium":true,"used":12,"limit":10,"remaining":-1}"#)
    );
    assert_eq!(
        audit_json(&audit()).to_value(),
        value(r#"{"system_prompt_keys":["k"],"context_memory_count":2,"sent_chars":30}"#)
    );
}

#[test]
fn questions_are_let_through_or_refused() {
    let s = settings(&[("AI_MODEL_LONG", "long")]);
    let p = qa_start(&s, &quota(false, 9, 10), &question()).ok().unwrap();
    assert_eq!(p.model, "long");
    assert_eq!(p.resolved.user, "在吗");
    let refused = qa_start(&s, &quota(false, 10, 10), &question()).err().unwrap().to_value();
    assert_eq!(refused["status"], value(r#""quota_exceeded""#));
    assert_eq!(refused["message"], value(r#""免费次数已用完，升级解锁更多 LOVEAI 关心""#));
    assert_eq!(refused["model"], value(r#""LOVEAI""#));
    assert_eq!(refused["usage"], usage_json(false, 10, 10).to_value());
    assert_eq!(refused["audit"], audit_json(&p.resolved.audit).to_value());
    assert!(qa_start(&s, &quota(true, 10, 10), &question()).is_ok());
}

#[test]
fn only_answers_are_counted() {
    let mut usage = UsageStore::load(Some(r#"{"u":3}"#));
    let q = quota(false, 3, 10);
    let r = qa_finish(&mut usage, "u", &q, &audit(), AiOutcome::Answer("好".into())).to_value();
    assert_eq!(usage.get("u"), 4);
    assert_eq!(r["answer"], value(r#""好""#));
    assert_eq!(r["cached"], value("false"));
    assert_eq!(r["status"], value(r#""ok""#));
    assert_eq!(r["usage"], usage_json(false, 4, 10).to_value());
    assert_eq!(r["audit"], audit_json(&audit()).to_value());
    let r = qa_finish(&mut usage, "u", &q, &audit(), AiOutcome::Cached("好".into())).to_value();
    assert_eq!(r["cached"], value("true"));
    assert_eq!(r["usage"], usage_json(false, 3, 10).to_value());
    let r = qa_finish(&mut usage, "u", &q, &audit(), AiOutcome::NeedsApiKey).to_value();
    assert_eq!(r["status"], value(r#""needs_api_key""#));
    let r = qa_finish(&mut usage, "u", &q, &audit(), AiOutcome::Error("e".into())).to_value();
    assert_eq!(r["status"], value(r#""error""#));
    assert_eq!(r["message"], value(r#""e""#));
    assert_eq!(usage.get("u"), 4);
}

#[test]
fn fences_come_off() {
    assert_eq!(clean("\n```json\n{\"a\":1}\n```\n"), "{\"a\":1}");
    assert_eq!(clean("```[1]```"), "[1]");
    assert_eq!(clean("``````json x"), "json x");
    assert_eq!(clean("plain"), "plain");
}

#[test]
fn suggestions_are_listed() {
    let s = settings(&[]);
    let req = InspireRequest {
        person_name: "小满".into(),
        relation: None,
        scene: "micro".into(),
        memories: vec![],
    };
    assert!(inspire_start(&s, &quota(false, 0, 1), &req).is_ok());
    assert_eq!(
        inspire_start(&s, &quota(false, 1, 1), &req).err().unwrap().to_value(),
        value(r#"{"status":"quota_exceeded","message":"免费次数已用完，升级解锁更多 LOVEAI 关心"}"#)
    );
    let mut usage = UsageStore::load(None);
    let answer = "```json\n{\"suggestions\":[{\"action\":\"a\",\"why\":\"w\"}]}\n```";
    assert_eq!(
        inspire_finish(&mut usage, "u", AiOutcome::Answer(answer.into())).to_value(),
        value(r#"{"status":"ok","suggestions":[{"action":"a","why":"w"}]}"#)
    );
    assert_eq!(
        inspire_finish(&mut usage, "u", AiOutcome::Cached("not json".into())).to_value(),
        value(r#"{"status":"ok","suggestions":[]}"#)
    );
    assert_eq!(
        inspire_finish(&mut usage, "u", AiOutcome::Cached("{}".into())).to_value(),
        value(r#"{"status":"ok","suggestions":null}"#)
    );
    assert_eq!(
        inspire_finish(&mut usage, "u", AiOutcome::NeedsApiKey).to_value(),
        value(r#"{"status":"needs_api_key"}"#)
    );
    assert_eq!(
        inspire_finish(&mut usage, "u", AiOutcome::Error("e".into())).to_value(),
        value(r#"{"status":"error","message":"e"}"#)
    );
    assert_eq!(usage.get("u"), 1);
    assert_eq!(listed_in(Some(json(r#"{"k":3}"#)), "k").to_value(), value("3"));
    assert_eq!(listed_in(None, "k").to_value(), value("[]"));
}

#[test]
fn texts_are_written() {
    let s = settings(&[("AI_MODEL_PRO", "pro")]);
    let req = GhostwriteRequest {
        person_name: "小满".into(),
        relation: None,
        action: "发一首歌".into(),
        memories: vec![],
    };
    assert_eq!(ghostwrite_start(&s, &quota(false, 0, 1), &req).ok().unwrap().model, "pro");
    assert_eq!(
        ghostwrite_start(&s, &quota(false, 1, 1), &req).err().unwrap().to_value(),
        value(r#"{"status":"quota_exceeded","message":"免费次数已用完"}"#)
    );
    let mut usage = UsageStore::load(None);
    assert_eq!(
        ghostwrite_finish(&mut usage, "u", AiOutcome::Answer(" 想你 \n".into())).to_value(),
        value(r#"{"status":"ok","content":"想你"}"#)
    );
    assert_eq!(
        ghostwrite_finish(&mut usage, "u", AiOutcome::Cached("想你".into())).to_value(),
        value(r#"{"status":"ok","content":"想你"}"#)
    );
    assert_eq!(
        ghostwrite_finish(&mut usage, "u", AiOutcome::NeedsApiKey).to_value(),
        value(r#"{"status":"needs_api_key"}"#)
    );
    assert_eq!(
        ghostwrite_finish(&mut usage, "u", AiOutcome::Error("e".into())).to_value(),
        value(r#"{"status":"error","message":"e"}"#)
    );
    assert_eq!(usage.get("u"), 1);
}

#[test]
fn quizzes_are_made() {
    let s = settings(&[]);
    let req = QuizRequest { person_name: "小满".into(), memories: vec![] };
    assert!(quiz_start(&s, &quota(true, 1, 1), &req).is_ok());
    assert_eq!(
        quiz_start(&s, &quota(false, 1, 1), &req).err().unwrap().to_value(),
        value(r#"{"status":"quota_exceeded","message":"免费次数已用完"}"#)
    );
    let mut usage = UsageStore::load(None);
    assert_eq!(
        quiz_finish(&mut usage, "u", AiOutcome::Answer(r#"{"questions":[1]}"#.into())).to_value(),
        value(r#"{"status":"ok","questions":[1]}"#)
    );
    assert_eq!(usage.get("u"), 1);
}

#[test]
fn pictures_are_asked_for_and_shown() {
    assert_eq!(image_start(&json(r#"{"prompt":" 一只猫 "}"#)).ok().unwrap(), "一只猫");
    for none in ["{}", r#"{"prompt":"  "}"#, r#"{"prompt":1}"#, "3"] {
        assert_eq!(
            image_start(&json(none)).err().unwrap().to_value(),
            value(r#"{"status":"error","message":"提示词为空"}"#)
        );
    }
    assert_eq!(
        image_finish(ImageOutcome::Url("u".into())).to_value(),
        value(r#"{"status":"ok","image_url":"u"}"#)
    );
    assert_eq!(
        image_finish(ImageOutcome::NeedsConfig).to_value()["status"],
        value(r#""needs_config""#)
    );
    assert_eq!(
        image_finish(ImageOutcome::Error("e".into())).to_value(),
        value(r#"{"status":"error","message":"e"}"#)
    );
}
