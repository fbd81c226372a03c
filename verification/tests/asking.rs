use xinshang::ai::AiOutcome;
use xinshang::ask::{
    assemble_messages, chat_url, completion_text, fatal_result, provider_step, AiCall, AnswerCache,
    ProviderResult, ProviderStep, Reply, Start, ATTEMPTS, CACHE_LIMIT,
};
use xinshang::image::{image_body, image_outcome, image_plan, ImageOutcome, ImageReply};
use xinshang::json::Json;
use xinshang::prompt::{Audit, ChatTurn, ResolvedPrompt};
use xinshang::settings::Settings;

fn value(text: &str) -> serde_json::Value {
    serde_json::from_str(text).unwrap()
}

fn json(text: &str) -> Json {
    Json::parse(text.as_bytes()).unwrap()
}

fn settings(vars: &[(&str, &str)]) -> Settings {
    Settings::from_vars(vars.iter().map(|(k, v)| (k.to_string(), v.to_string())).collect())
}

fn layers() -> ResolvedPrompt {
    ResolvedPrompt {
        system: "s".into(),
        developer: "d".into(),
        user_context: "c".into(),
        user: "q".into(),
        audit: Audit { system_prompt_keys: vec![], context_memory_count: 0, sent_chars: 4 },
    }
}

fn turns() -> Vec<ChatTurn> {
    vec![
        ChatTurn { role: "assistant".into(), content: "a1".into() },
        ChatTurn { role: "system".into(), content: "u1".into() },
    ]
}

fn started(s: &Settings, cache: &AnswerCache) -> AiCall {
    match AiCall::start(s, cache, &layers(), "m", &turns()) {
        Start::Ask(call) => call,
        Start::Settled(_) => panic!("nobody to ask"),
    }
}

#[test]
fn the_cache_gives_back_and_is_bounded() {
    let mut cache = AnswerCache::new();
    assert!(cache.get(7).is_none());
    cache.put(7, "a".into());
    assert_eq!(cache.get(7).as_deref(), Some("a"));
    cache.put(7, "b".into());
    assert_eq!(cache.get(7).as_deref(), Some("b"));
    for key in 0..=(CACHE_LIMIT as u64) {
        cache.put(key, "x".into());
    }
    assert_eq!(cache.get(0).as_deref(), Some("x"));
    cache.put(10_000, "y".into());
    assert!(cache.get(0).is_none());
    assert_eq!(cache.get(10_000).as_deref(), Some("y"));
}

#[test]
fn messages_stand_in_order() {
    let messages = assemble_messages(&layers(), &turns());
    let flat: Vec<(&str, &str)> =
        messages.iter().map(|m| (m.role, m.content.as_str())).collect();
    assert_eq!(
        flat,
        vec![
            ("system", "s"),
            ("system", "d\n\nc"),
            ("assistant", "a1"),
            ("user", "u1"),
            ("user", "q"),
        ]
    );
}

#[test]
fn without_a_key_nobody_is_asked() {
    match AiCall::start(&settings(&[]), &AnswerCache::new(), &layers(), "m", &[]) {
        Start::Settled(AiOutcome::NeedsApiKey) => {}
        _ => panic!("no key is set"),
    }
}

#[test]
fn vendors_are_asked_in_turn() {
    let s = settings(&[
        ("AI_API_KEY", "k1"),
        ("AI_BASE_URL", "http://a"),
        ("AI_API_KEY_BACKUP", "k2"),
        ("AI_BASE_URL_BACKUP", "http://b"),
        ("AI_MODEL_BACKUP", "m2"),
    ]);
    let mut cache = AnswerCache::new();
    let mut call = started(&s, &cache);
    assert_eq!(chat_url(call.provider()), "http://a/chat/completions");
    assert_eq!(
        call.body().to_value(),
        value(
            r#"{"model":"m","stream":false,"messages":[
                {"role":"system","content":"s"},{"role":"system","content":"d\n\nc"},
                {"role":"assistant","content":"a1"},{"role":"user","content":"u1"},
                {"role":"user","content":"q"}]}"#
        )
    );
    assert!(call.on_result(&mut cache, ProviderResult::Failover("HTTP 503".into())).is_none());
    assert_eq!(call.provider().key, "k2");
    assert_eq!(call.body().to_value()["model"], value(r#""m2""#));
    match call.on_result(&mut cache, ProviderResult::Content("好".into())) {
        Some(AiOutcome::Answer(a)) => assert_eq!(a, "好"),
        _ => panic!("an answer came"),
    }
    match AiCall::start(&s, &cache, &layers(), "m", &turns()) {
        Start::Settled(AiOutcome::Cached(a)) => assert_eq!(a, "好"),
        _ => panic!("the answer is kept"),
    }
    match AiCall::start(&s, &cache, &layers(), "m2", &turns()) {
        Start::Ask(_) => {}
        Start::Settled(_) => panic!("another model was never asked"),
    }
}

#[test]
fn when_all_vendors_fail_the_last_one_is_named() {
    let s = settings(&[("AI_API_KEY", "k1")]);
    let mut cache = AnswerCache::new();
    let mut call = started(&s, &cache);
    match call.on_result(&mut cache, ProviderResult::Failover("HTTP 429".into())) {
        Some(AiOutcome::Error(e)) => assert_eq!(e, "主备厂商均失败：HTTP 429"),
        _ => panic!("no vendor is left"),
    }
    let mut call = started(&s, &cache);
    match call.on_result(&mut cache, ProviderResult::Fatal("HTTP 400: x".into())) {
        Some(AiOutcome::Error(e)) => assert_eq!(e, "HTTP 400: x"),
        _ => panic!("fatal is fatal"),
    }
}

#[test]
fn attempts_back_off_and_end() {
    match provider_step(0, Reply::Status(503)) {
        ProviderStep::RetryAfter(ms) => assert_eq!(ms, 400),
        _ => panic!("try again"),
    }
    match provider_step(1, Reply::Unreachable("x".into())) {
        ProviderStep::RetryAfter(ms) => assert_eq!(ms, 800),
        _ => panic!("try again"),
    }
    match provider_step(ATTEMPTS - 1, Reply::Unreachable("x".into())) {
        ProviderStep::Finish(ProviderResult::Failover(e)) => assert_eq!(e, "网络错误: x"),
        _ => panic!("that was the last try"),
    }
    match provider_step(ATTEMPTS - 1, Reply::Status(429)) {
        ProviderStep::Finish(ProviderResult::Failover(e)) => assert_eq!(e, "HTTP 429"),
        _ => panic!("that was the last try"),
    }
    match provider_step(0, Reply::Status(401)) {
        ProviderStep::Finish(ProviderResult::Failover(e)) => assert_eq!(e, "HTTP 401"),
        _ => panic!("a bad key stays bad"),
    }
    match provider_step(0, Reply::Status(404)) {
        ProviderStep::ReadBody(code) => assert_eq!(code, 404),
        _ => panic!("no vendor would do better"),
    }
    match provider_step(0, Reply::Garbled("eof".into())) {
        ProviderStep::Finish(ProviderResult::Failover(e)) => assert_eq!(e, "解析失败: eof"),
        _ => panic!("unreadable"),
    }
    match fatal_result(404, "gone") {
        ProviderResult::Fatal(e) => assert_eq!(e, "HTTP 404: gone"),
        _ => panic!("fatal"),
    }
}

#[test]
fn the_text_of_a_completion() {
    let full = json(r#"{"choices":[{"message":{"content":"你好"}},{"message":{"content":"no"}}]}"#);
    assert_eq!(completion_text(&full), "你好");
    assert_eq!(completion_text(&json(r#"{"choices":[]}"#)), "");
    assert_eq!(completion_text(&json("[1]")), "");
    match provider_step(0, Reply::Answered(full)) {
        ProviderStep::Finish(ProviderResult::Content(c)) => assert_eq!(c, "你好"),
        _ => panic!("answered"),
    }
}

#[test]
fn pictures_need_a_key_and_a_model() {
    assert!(image_plan(&settings(&[("AI_IMAGE_MODEL", "pic")])).is_none());
    assert!(image_plan(&settings(&[("AI_API_KEY", "k")])).is_none());
    let plan = image_plan(&settings(&[
        ("AI_API_KEY", "k"),
        ("AI_IMAGE_MODEL", "pic"),
        ("AI_BASE_URL", "http://a"),
    ]))
    .unwrap();
    assert_eq!(plan.url, "http://a/images/generations");
    assert_eq!(plan.key, "k");
    assert_eq!(
        image_body(&plan, "一只猫").to_value(),
        value(r#"{"model":"pic","prompt":"一只猫","n":1,"size":"1024x1024"}"#)
    );
}

#[test]
fn what_comes_of_asking_for_a_picture() {
    let url = |reply| match image_outcome(reply) {
        ImageOutcome::Url(u) => u,
        _ => panic!("a picture came"),
    };
    let error = |reply| match image_outcome(reply) {
        ImageOutcome::Error(e) => e,
        _ => panic!("no picture came"),
    };
    assert_eq!(url(ImageReply::Answered(json(r#"{"data":[{"url":"u"}]}"#))), "u");
    assert_eq!(
        url(ImageReply::Answered(json(r#"{"data":[{"b64_json":"QQ=="}]}"#))),
        "data:image/png;base64,QQ=="
    );
    assert_eq!(error(ImageReply::Answered(json(r#"{"data":[{}]}"#))), "无图返回");
    assert_eq!(error(ImageReply::Answered(json("{}"))), "无图返回");
    assert_eq!(error(ImageReply::Garbled("x".into())), "解析失败: x");
    assert_eq!(
        error(ImageReply::Refused { status: "500 Internal Server Error".into(), body: "b".into() }),
        "HTTP 500 Internal Server Error: b"
    );
    assert_eq!(error(ImageReply::Unreachable("x".into())), "请求失败: x");
}
