use std::collections::hash_map::DefaultHasher;
use std::hash::{Hash, Hasher};
use xinshang::ai::{
    build_providers, cache_key, is_failover_worthy, model_env_key, resolve_model, ARK_DEFAULT_BASE,
    DEFAULT_MODEL,
};
use xinshang::prompt::{resolve_qa, ChatTurn, QaRequest, ResolvedPrompt};
use xinshang::settings::Settings;

fn rp() -> ResolvedPrompt {
    resolve_qa(&QaRequest {
        person_name: "母亲".into(),
        relation: None,
        memories: vec![],
        question: "在吗".into(),
        tone: None,
        perspective: None,
        scenario: None,
        history: vec![],
    })
}

fn settings(vars: &[(&str, &str)]) -> Settings {
    Settings::from_vars(vars.iter().map(|(k, v)| (k.to_string(), v.to_string())).collect())
}

#[test]
fn cache_key_stable_and_distinct() {
    assert_eq!(cache_key(&rp(), "m1", &[]), cache_key(&rp(), "m1", &[]));
    assert_ne!(cache_key(&rp(), "m1", &[]), cache_key(&rp(), "m2", &[]));
    let h = vec![ChatTurn { role: "user".into(), content: "之前聊过的".into() }];
    assert_ne!(cache_key(&rp(), "m1", &[]), cache_key(&rp(), "m1", &h));
}

#[test]
fn model_routing_by_scenario() {
    assert_eq!(model_env_key(Some("qa")), "AI_MODEL_PRO");
    assert_eq!(model_env_key(Some("classify")), "AI_MODEL_LITE");
    assert_eq!(model_env_key(Some("report")), "AI_MODEL_LONG");
    assert_eq!(model_env_key(None), "AI_MODEL_PRO");
    assert_eq!(model_env_key(Some("unknown")), "AI_MODEL_PRO");
}

#[test]
fn failover_classification() {
    for s in [401u16, 403, 429, 500, 503, 502] {
        assert!(is_failover_worthy(s), "{s} 应切备用");
    }
    for s in [200u16, 400, 404, 422] {
        assert!(!is_failover_worthy(s), "{s} 不应切备用");
    }
}

#[test]
fn the_cache_key_is_the_hash_of_all_texts() {
    let r = rp();
    let h = vec![ChatTurn { role: "assistant".into(), content: "在".into() }];
    let mut hasher = DefaultHasher::new();
    for text in [&r.system, &r.developer, &r.user_context, &r.user] {
        text.hash(&mut hasher);
    }
    "m1".hash(&mut hasher);
    h[0].role.hash(&mut hasher);
    h[0].content.hash(&mut hasher);
    assert_eq!(cache_key(&r, "m1", &h), hasher.finish());
}

#[test]
fn models_fall_back() {
    let none = settings(&[]);
    assert_eq!(resolve_model(&none, Some("report")), DEFAULT_MODEL);
    let one = settings(&[("AI_MODEL", "base"), ("AI_MODEL_LITE", "  ")]);
    assert_eq!(resolve_model(&one, Some("tag")), "base");
    let both = settings(&[("AI_MODEL", "base"), ("AI_MODEL_LONG", "long")]);
    assert_eq!(resolve_model(&both, Some("report")), "long");
    assert_eq!(resolve_model(&both, None), "base");
}

#[test]
fn vendors_come_in_order() {
    assert!(build_providers(&settings(&[]), "m").is_empty());
    let chain = build_providers(
        &settings(&[("AI_API_KEY", "k1"), ("AI_API_KEY_BACKUP", "k2"), ("AI_MODEL", "base")]),
        "m",
    );
    assert_eq!(chain.len(), 2);
    assert_eq!(chain[0].base, ARK_DEFAULT_BASE);
    assert_eq!(chain[0].key, "k1");
    assert_eq!(chain[0].model, "m");
    assert_eq!(chain[1].base, ARK_DEFAULT_BASE);
    assert_eq!(chain[1].key, "k2");
    assert_eq!(chain[1].model, "base");
    let spare = build_providers(
        &settings(&[
            ("AI_API_KEY_BACKUP", "k2"),
            ("AI_BASE_URL", "http://a"),
            ("AI_BASE_URL_BACKUP", "http://b"),
            ("AI_MODEL_BACKUP", "spare"),
        ]),
        "m",
    );
    assert_eq!(spare.len(), 1);
    assert_eq!(spare[0].base, "http://b");
    assert_eq!(spare[0].model, "spare");
}

#[test]
fn server_errors_end_at_599() {
    assert!(is_failover_worthy(599));
    assert!(!is_failover_worthy(600));
    assert!(!is_failover_worthy(u16::MAX));
    assert!(!is_failover_worthy(499));
}
