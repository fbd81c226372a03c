//! What the service answers, and to whom: quotas, questions, suggestions, texts,
//! quizzes and pictures.
use crate::ai::{self, resolve_model, AiOutcome, Outcome};
use crate::image::{ImageOutcome, Picture};
use crate::inspire::{
    self, resolve_ghostwrite, resolve_inspire, GhostwriteRequest, InspireRequest,
};
use crate::json::{self, Fields, Json, JsonTree};
use crate::prompt::{self, resolve_qa, Audit, QaRequest, ResolvedPrompt};
use crate::quiz::{self, resolve_quiz, QuizRequest};
use crate::clock::{self, now_secs};
use crate::reply::{self, one_text_json, requested, status_message_json};
use crate::settings::{self, Settings};
use crate::subscription::{self, SubscriptionStore};
use crate::text::{self, borrowed, parse_u32, split, trim, trim_end_matches, trim_start_matches};
use crate::usage::{self, UsageStore};
use vstd::prelude::*;

verus! {

/// The name under which all answers are given.
pub const BRAND: &'static str = "LOVEAI";

/// The answers that a free user has, where nothing else is set.
pub const DEFAULT_FREE_LIMIT: u32 = 10;

/// The origins whose pages may call, where nothing else is set.
pub const DEFAULT_ORIGINS: &'static str =
    "https://www.loveaivip.com,https://loveaivip.com,http://localhost:8080,http://127.0.0.1:8080";

/// The service is there.
pub fn health() -> (json: Json)
    ensures
        json@ == JsonTree::Object(
            map![
                "status"@ => JsonTree::Text("ok"@),
                "service"@ => JsonTree::Text("xinshang_backend"@),
            ],
        ),
{
    Fields::new().with("status", Json::text("ok")).with(
        "service",
        Json::text("xinshang_backend"),
    ).object()
}

/// The entries of a list that hold more than white space, less the white space
/// around them.
pub open spec fn named_entries(list: Seq<Seq<char>>) -> Seq<Seq<char>>
    decreases list.len(),
{
    if list.len() == 0 {
        Seq::empty()
    } else if text::is_blank(list.last()) {
        named_entries(list.drop_last())
    } else {
        named_entries(list.drop_last()).push(text::trimmed(list.last()))
    }
}

/// The origins whose pages may call.
pub open spec fn origins_of(vars: Map<Seq<char>, Seq<char>>) -> Seq<Seq<char>> {
    named_entries(
        text::pieces(
            settings::or_else(settings::set_value(vars, "CORS_ALLOWED_ORIGINS"@), DEFAULT_ORIGINS@),
            ',',
        ),
    )
}

/// The origins whose pages may call.
pub fn allowed_origins(settings: &Settings) -> (origins: Vec<String>)
    ensures
        text::texts(origins@) == origins_of(settings@),
{
    let list = match settings.var("CORS_ALLOWED_ORIGINS") {
        Some(list) => list,
        None => DEFAULT_ORIGINS,
    };
    let entries = split(list, ',');
    let ghost all = entries@.map_values(|p: &str| p@);
    let mut origins: Vec<String> = Vec::new();
    let mut i: usize = 0;
    assert(all.take(0) =~= Seq::<Seq<char>>::empty());
    assert(text::texts(origins@) =~= Seq::<Seq<char>>::empty());
    while i < entries.len()
        invariant
            i <= entries@.len(),
            all == entries@.map_values(|p: &str| p@),
            text::texts(origins@) == named_entries(all.take(i as int)),
        decreases entries@.len() - i,
    {
        let ghost before = origins@;
        let entry = trim(entries[i]);
        assert(all.take(i + 1).drop_last() =~= all.take(i as int));
        assert(all.take(i + 1).last() == entries@[i as int]@);
        if !entry.is_empty() {
            origins.push(entry.to_owned());
            assert(text::texts(origins@) =~= text::texts(before).push(entry@));
        }
        i = i + 1;
    }
    assert(all.take(i as int) =~= all);
    origins
}

/// The answers that a free user has.
pub open spec fn limit_of(vars: Map<Seq<char>, Seq<char>>) -> u32 {
    match settings::set_value(vars, "AI_FREE_LIMIT"@) {
        Some(value) => settings::or_else(text::parsed_u32(value), DEFAULT_FREE_LIMIT),
        None => DEFAULT_FREE_LIMIT,
    }
}

/// The answers that a free user has, for good.
pub fn free_limit(settings: &Settings) -> (limit: u32)
    ensures
        limit == limit_of(settings@),
{
    match settings.var("AI_FREE_LIMIT") {
        Some(value) => match parse_u32(value) {
            Some(limit) => limit,
            None => DEFAULT_FREE_LIMIT,
        },
        None => DEFAULT_FREE_LIMIT,
    }
}

/// How a user stands: a paying member or not, answers had, and answers that a
/// free user has.
pub struct Quota {
    pub premium: bool,
    pub used: u32,
    pub limit: u32,
}

impl Quota {
    /// No more answers: that is, for a free user who had them all.
    pub open spec fn exhausted(self) -> bool {
        !self.premium && self.used >= self.limit
    }

    /// No more answers.
    pub fn is_exhausted(&self) -> (r: bool)
        ensures
            r == self.exhausted(),
    {
        !self.premium && self.used >= self.limit
    }
}

/// How `user` stands at `now`.
pub open spec fn quota_of(
    vars: Map<Seq<char>, Seq<char>>,
    counts: Map<Seq<char>, u32>,
    records: Map<Seq<char>, subscription::Membership>,
    user: Seq<char>,
    now: i64,
) -> Quota {
    Quota {
        premium: subscription::status_of(records, user).premium(now),
        used: usage::count_of(counts, user),
        limit: limit_of(vars),
    }
}

/// How `user` stands at `now`.
pub fn quota_at(
    settings: &Settings,
    usage: &UsageStore,
    members: &SubscriptionStore,
    user: &str,
    now: i64,
) -> (quota: Quota)
    ensures
        quota == quota_of(settings@, usage@, members@, user@, now),
{
    Quota {
        premium: members.is_premium_at(user, now),
        used: usage.get(user),
        limit: free_limit(settings),
    }
}

/// How `user` stands by the clock.
pub fn quota_for(
    settings: &Settings,
    usage: &UsageStore,
    members: &SubscriptionStore,
    user: &str,
) -> (quota: Quota)
    ensures
        exists|now: i64|
            clock::was_read(now) && quota == #[trigger] quota_of(
                settings@,
                usage@,
                members@,
                user@,
                now,
            ),
{
    let now: i64 = now_secs();
    quota_at(settings, usage, members, user, now)
}

/// What is left of a quota, as a client reads it: -1 is without end.
pub open spec fn remaining_of(premium: bool, used: u32, limit: u32) -> int {
    if premium {
        -1
    } else if used < limit {
        limit - used
    } else {
        0
    }
}

/// A quota as a client reads it.
pub open spec fn usage_tree(premium: bool, used: u32, limit: u32) -> JsonTree {
    JsonTree::Object(
        map![
            "premium"@ => JsonTree::Bool(premium),
            "used"@ => JsonTree::Int(used as int),
            "limit"@ => JsonTree::Int(limit as int),
            "remaining"@ => JsonTree::Int(remaining_of(premium, used, limit)),
        ],
    )
}

/// A quota as a client reads it.
pub fn usage_json(premium: bool, used: u32, limit: u32) -> (json: Json)
    ensures
        json@ == usage_tree(premium, used, limit),
{
    let remaining = if premium {
        Json::Signed(-1)
    } else if used < limit {
        Json::Unsigned((limit - used) as u64)
    } else {
        Json::Unsigned(0)
    };
    Fields::new().with("premium", Json::Bool(premium)).with("used", Json::Unsigned(used as u64)).with(
        "limit",
        Json::Unsigned(limit as u64),
    ).with("remaining", remaining).object()
}

/// What is on record of a prompt, as a client reads it.
pub open spec fn audit_tree(audit: Audit) -> JsonTree {
    JsonTree::Object(
        map![
            "system_prompt_keys"@ => JsonTree::List(
                text::texts(audit.system_prompt_keys@).map_values(|s: Seq<char>| JsonTree::Text(s)),
            ),
            "context_memory_count"@ => JsonTree::Int(audit.context_memory_count as int),
            "sent_chars"@ => JsonTree::Int(audit.sent_chars as int),
        ],
    )
}

/// A list of texts.
fn text_list(list: &Vec<String>) -> (json: Json)
    ensures
        json@ == JsonTree::List(
            text::texts(list@).map_values(|s: Seq<char>| JsonTree::Text(s)),
        ),
{
    let mut items: Vec<Json> = Vec::new();
    let mut i: usize = 0;
    while i < list.len()
        invariant
            i <= list@.len(),
            items@.len() == i,
            forall|j: int| 0 <= j < i ==> (#[trigger] items@[j])@ == JsonTree::Text(list@[j]@),
        decreases list@.len() - i,
    {
        items.push(Json::text(list[i].as_str()));
        i = i + 1;
    }
    assert(items@.map_values(|j: Json| j@) =~= text::texts(list@).map_values(
        |s: Seq<char>| JsonTree::Text(s),
    ));
    Json::list(items)
}

/// What is on record of a prompt, as a client reads it.
pub fn audit_json(audit: &Audit) -> (json: Json)
    ensures
        json@ == audit_tree(*audit),
{
    Fields::new().with("system_prompt_keys", text_list(&audit.system_prompt_keys)).with(
        "context_memory_count",
        Json::Unsigned(audit.context_memory_count as u64),
    ).with("sent_chars", Json::Unsigned(audit.sent_chars as u64)).object()
}

/// A prompt that is ready to be sent, and the model to send it to.
pub struct Prepared {
    pub resolved: ResolvedPrompt,
    pub model: String,
}

/// The counts after an outcome: only an answer that a model gave counts.
pub open spec fn counts_after(
    counts: Map<Seq<char>, u32>,
    user: Seq<char>,
    outcome: Outcome,
) -> Map<Seq<char>, u32> {
    match outcome {
        Outcome::Answer(_) => usage::incremented(counts, user),
        _ => counts,
    }
}

/// The reply to a question from a user without answers left.
pub open spec fn qa_refusal(quota: Quota, audit: Audit) -> JsonTree {
    JsonTree::Object(
        map![
            "status"@ => JsonTree::Text("quota_exceeded"@),
            "message"@ => JsonTree::Text("免费次数已用完，升级解锁更多 LOVEAI 关心"@),
            "model"@ => JsonTree::Text(BRAND@),
            "usage"@ => usage_tree(quota.premium, quota.used, quota.limit),
            "audit"@ => audit_tree(audit),
        ],
    )
}

/// The reply with an answer.
pub open spec fn qa_answer(answer: Seq<char>, cached: bool, usage: JsonTree, audit: Audit) -> JsonTree {
    JsonTree::Object(
        map![
            "status"@ => JsonTree::Text("ok"@),
            "answer"@ => JsonTree::Text(answer),
            "cached"@ => JsonTree::Bool(cached),
            "model"@ => JsonTree::Text(BRAND@),
            "usage"@ => usage,
            "audit"@ => audit_tree(audit),
        ],
    )
}

/// The reply without an answer.
pub open spec fn qa_failure(
    status: Seq<char>,
    message: Seq<char>,
    usage: JsonTree,
    audit: Audit,
) -> JsonTree {
    JsonTree::Object(
        map![
            "status"@ => JsonTree::Text(status),
            "message"@ => JsonTree::Text(message),
            "model"@ => JsonTree::Text(BRAND@),
            "usage"@ => usage,
            "audit"@ => audit_tree(audit),
        ],
    )
}

/// The reply to a question, by what came of it. `counted` is the user's count
/// with one more answer.
pub open spec fn qa_reply(quota: Quota, audit: Audit, outcome: Outcome, counted: u32) -> JsonTree {
    let usage = usage_tree(quota.premium, quota.used, quota.limit);
    match outcome {
        Outcome::Answer(answer) => qa_answer(
            answer,
            false,
            usage_tree(quota.premium, counted, quota.limit),
            audit,
        ),
        Outcome::Cached(answer) => qa_answer(answer, true, usage, audit),
        Outcome::NeedsApiKey => qa_failure(
            "needs_api_key"@,
            "后端未配置 AI_API_KEY；填入后即返回真实回答（绝不使用假数据）。"@,
            usage,
            audit,
        ),
        Outcome::Error(message) => qa_failure("error"@, message, usage, audit),
    }
}

fn qa_answer_json(answer: &str, cached: bool, usage: Json, audit: &Audit) -> (json: Json)
    ensures
        json@ == qa_answer(answer@, cached, usage@, *audit),
{
    Fields::new().with("status", Json::text("ok")).with("answer", Json::text(answer)).with(
        "cached",
        Json::Bool(cached),
    ).with("model", Json::text(BRAND)).with("usage", usage).with(
        "audit",
        audit_json(audit),
    ).object()
}

fn qa_failure_json(status: &str, message: &str, usage: Json, audit: &Audit) -> (json: Json)
    ensures
        json@ == qa_failure(status@, message@, usage@, *audit),
{
    Fields::new().with("status", Json::text(status)).with("message", Json::text(message)).with(
        "model",
        Json::text(BRAND),
    ).with("usage", usage).with("audit", audit_json(audit)).object()
}

/// Begins a question: the prompt and the model, or, where the user has no
/// answers left, the reply that says so. In that case no model is asked.
pub fn qa_start(settings: &Settings, quota: &Quota, req: &QaRequest) -> (r: Result<Prepared, Json>)
    ensures
        match r {
            Ok(p) => !quota.exhausted() && prompt::is_qa_prompt(*req, p.resolved) && p.model@
                == ai::model_of(settings@, text::opt_text(req.scenario)),
            Err(json) => quota.exhausted() && exists|p: ResolvedPrompt|
                #![trigger p.audit]
                prompt::is_qa_prompt(*req, p) && json@ == qa_refusal(*quota, p.audit),
        },
{
    let resolved = resolve_qa(req);
    if quota.is_exhausted() {
        let usage = usage_json(quota.premium, quota.used, quota.limit);
        let json = qa_failure_json(
            "quota_exceeded",
            "免费次数已用完，升级解锁更多 LOVEAI 关心",
            usage,
            &resolved.audit,
        );
        assert(prompt::is_qa_prompt(*req, resolved) && json@ == qa_refusal(*quota, resolved.audit));
        return Err(json);
    }
    let model = resolve_model(settings, borrowed(&req.scenario));
    Ok(Prepared { resolved, model })
}

/// Ends a question: the reply, and one more on the user's count if a model gave
/// the answer.
pub fn qa_finish(
    usage: &mut UsageStore,
    user: &str,
    quota: &Quota,
    audit: &Audit,
    outcome: AiOutcome,
) -> (json: Json)
    requires
        outcome is Answer ==> usage::count_of(old(usage)@, user@) < u32::MAX,
    ensures
        final(usage)@ == counts_after(old(usage)@, user@, outcome@),
        json@ == qa_reply(*quota, *audit, outcome@, usage::count_of(final(usage)@, user@)),
{
    match outcome {
        AiOutcome::Answer(answer) => {
            let counted: u32 = usage.increment(user);
            qa_answer_json(
                answer.as_str(),
                false,
                usage_json(quota.premium, counted, quota.limit),
                audit,
            )
        },
        AiOutcome::Cached(answer) => qa_answer_json(
            answer.as_str(),
            true,
            usage_json(quota.premium, quota.used, quota.limit),
            audit,
        ),
        AiOutcome::NeedsApiKey => qa_failure_json(
            "needs_api_key",
            "后端未配置 AI_API_KEY；填入后即返回真实回答（绝不使用假数据）。",
            usage_json(quota.premium, quota.used, quota.limit),
            audit,
        ),
        AiOutcome::Error(message) => qa_failure_json(
            "error",
            message.as_str(),
            usage_json(quota.premium, quota.used, quota.limit),
            audit,
        ),
    }
}

/// An answer without the fences that a model puts around JSON.
pub open spec fn unfenced(answer: Seq<char>) -> Seq<char> {
    text::trimmed(
        text::without_suffixes(
            text::without_prefixes(
                text::without_prefixes(text::trimmed(answer), "```json"@),
                "```"@,
            ),
            "```"@,
        ),
    )
}

/// An answer without the fences that a model puts around JSON.
pub fn clean(answer: &str) -> (r: &str)
    ensures
        r@ == unfenced(answer@),
{
    trim(
        trim_end_matches(
            trim_start_matches(trim_start_matches(trim(answer), "```json"), "```"),
            "```",
        ),
    )
}

/// What a model's answer holds under `key`: nothing listed, where the answer is
/// no JSON; null, where it does not name the key.
pub open spec fn listed(answer: Seq<char>, key: Seq<char>) -> JsonTree {
    match json::json_in(vstd::utf8::encode_utf8(unfenced(answer))) {
        Some(parsed) => parsed.member_or_null(key),
        None => JsonTree::List(Seq::empty()),
    }
}

/// What JSON that was read in an answer holds under `key`.
pub fn listed_in(parsed: Option<Json>, key: &str) -> (json: Json)
    ensures
        json@ == match parsed {
            Some(parsed) => parsed@.member_or_null(key@),
            None => JsonTree::List(Seq::empty()),
        },
{
    match parsed {
        Some(parsed) => parsed.into_member(key),
        None => {
            let items: Vec<Json> = Vec::new();
            assert(items@.map_values(|j: Json| j@) =~= Seq::<JsonTree>::empty());
            Json::list(items)
        },
    }
}

/// The reply with what an answer lists, or without.
pub open spec fn listed_reply(key: Seq<char>, outcome: Outcome) -> JsonTree {
    match outcome {
        Outcome::Answer(answer) => JsonTree::Object(
            map!["status"@ => JsonTree::Text("ok"@), key => listed(answer, key)],
        ),
        Outcome::Cached(answer) => JsonTree::Object(
            map!["status"@ => JsonTree::Text("ok"@), key => listed(answer, key)],
        ),
        Outcome::NeedsApiKey => reply::one_text("status"@, "needs_api_key"@),
        Outcome::Error(message) => reply::status_message("error"@, message),
    }
}

fn listed_json(key: &str, answer: &str) -> (json: Json)
    ensures
        json@ == JsonTree::Object(
            map!["status"@ => JsonTree::Text("ok"@), key@ => listed(answer@, key@)],
        ),
{
    let parsed = Json::parse(clean(answer).as_bytes());
    Fields::new().with("status", Json::text("ok")).with(key, listed_in(parsed, key)).object()
}

fn listed_finish(usage: &mut UsageStore, user: &str, key: &str, outcome: AiOutcome) -> (json: Json)
    requires
        outcome is Answer ==> usage::count_of(old(usage)@, user@) < u32::MAX,
    ensures
        final(usage)@ == counts_after(old(usage)@, user@, outcome@),
        json@ == listed_reply(key@, outcome@),
{
    match outcome {
        AiOutcome::Answer(answer) => {
            let json = listed_json(key, answer.as_str());
            let _counted: u32 = usage.increment(user);
            json
        },
        AiOutcome::Cached(answer) => listed_json(key, answer.as_str()),
        AiOutcome::NeedsApiKey => one_text_json("status", "needs_api_key"),
        AiOutcome::Error(message) => status_message_json("error", message.as_str()),
    }
}

/// Begins a request for suggestions.
pub fn inspire_start(settings: &Settings, quota: &Quota, req: &InspireRequest) -> (r: Result<
    Prepared,
    Json,
>)
    ensures
        match r {
            Ok(p) => !quota.exhausted() && inspire::is_inspire_prompt(*req, p.resolved) && p.model@
                == ai::model_of(settings@, Some("generate"@)),
            Err(json) => quota.exhausted() && json@ == reply::status_message(
                "quota_exceeded"@,
                "免费次数已用完，升级解锁更多 LOVEAI 关心"@,
            ),
        },
{
    if quota.is_exhausted() {
        return Err(
            status_message_json("quota_exceeded", "免费次数已用完，升级解锁更多 LOVEAI 关心"),
        );
    }
    Ok(
        Prepared {
            resolved: resolve_inspire(req),
            model: resolve_model(settings, Some("generate")),
        },
    )
}

/// Ends a request for suggestions.
pub fn inspire_finish(usage: &mut UsageStore, user: &str, outcome: AiOutcome) -> (json: Json)
    requires
        outcome is Answer ==> usage::count_of(old(usage)@, user@) < u32::MAX,
    ensures
        final(usage)@ == counts_after(old(usage)@, user@, outcome@),
        json@ == listed_reply("suggestions"@, outcome@),
{
    listed_finish(usage, user, "suggestions", outcome)
}

/// Begins a request for a text to send.
pub fn ghostwrite_start(settings: &Settings, quota: &Quota, req: &GhostwriteRequest) -> (r: Result<
    Prepared,
    Json,
>)
    ensures
        match r {
            Ok(p) => !quota.exhausted() && inspire::is_ghostwrite_prompt(*req, p.resolved)
                && p.model@ == ai::model_of(settings@, Some("generate"@)),
            Err(json) => quota.exhausted() && json@ == reply::status_message(
                "quota_exceeded"@,
                "免费次数已用完"@,
            ),
        },
{
    if quota.is_exhausted() {
        return Err(status_message_json("quota_exceeded", "免费次数已用完"));
    }
    Ok(
        Prepared {
            resolved: resolve_ghostwrite(req),
            model: resolve_model(settings, Some("generate")),
        },
    )
}

/// The reply with a text to send, or without.
pub open spec fn content_reply(outcome: Outcome) -> JsonTree {
    match outcome {
        Outcome::Answer(answer) => JsonTree::Object(
            map![
                "status"@ => JsonTree::Text("ok"@),
                "content"@ => JsonTree::Text(text::trimmed(answer)),
            ],
        ),
        Outcome::Cached(answer) => JsonTree::Object(
            map![
                "status"@ => JsonTree::Text("ok"@),
                "content"@ => JsonTree::Text(text::trimmed(answer)),
            ],
        ),
        Outcome::NeedsApiKey => reply::one_text("status"@, "needs_api_key"@),
        Outcome::Error(message) => reply::status_message("error"@, message),
    }
}

fn content_json(answer: &str) -> (json: Json)
    ensures
        json@ == JsonTree::Object(
            map![
                "status"@ => JsonTree::Text("ok"@),
                "content"@ => JsonTree::Text(text::trimmed(answer@)),
            ],
        ),
{
    Fields::new().with("status", Json::text("ok")).with(
        "content",
        Json::text(trim(answer)),
    ).object()
}

/// Ends a request for a text to send.
pub fn ghostwrite_finish(usage: &mut UsageStore, user: &str, outcome: AiOutcome) -> (json: Json)
    requires
        outcome is Answer ==> usage::count_of(old(usage)@, user@) < u32::MAX,
    ensures
        final(usage)@ == counts_after(old(usage)@, user@, outcome@),
        json@ == content_reply(outcome@),
{
    match outcome {
        AiOutcome::Answer(answer) => {
            let _counted: u32 = usage.increment(user);
            content_json(answer.as_str())
        },
        AiOutcome::Cached(answer) => content_json(answer.as_str()),
        AiOutcome::NeedsApiKey => one_text_json("status", "needs_api_key"),
        AiOutcome::Error(message) => status_message_json("error", message.as_str()),
    }
}

/// Begins a request for quiz questions.
pub fn quiz_start(settings: &Settings, quota: &Quota, req: &QuizRequest) -> (r: Result<
    Prepared,
    Json,
>)
    ensures
        match r {
            Ok(p) => !quota.exhausted() && quiz::is_quiz_prompt(*req, p.resolved) && p.model@
                == ai::model_of(settings@, Some("generate"@)),
            Err(json) => quota.exhausted() && json@ == reply::status_message(
                "quota_exceeded"@,
                "免费次数已用完"@,
            ),
        },
{
    if quota.is_exhausted() {
        return Err(status_message_json("quota_exceeded", "免费次数已用完"));
    }
    Ok(
        Prepared { resolved: resolve_quiz(req), model: resolve_model(settings, Some("generate")) },
    )
}

/// Ends a request for quiz questions.
pub fn quiz_finish(usage: &mut UsageStore, user: &str, outcome: AiOutcome) -> (json: Json)
    requires
        outcome is Answer ==> usage::count_of(old(usage)@, user@) < u32::MAX,
    ensures
        final(usage)@ == counts_after(old(usage)@, user@, outcome@),
        json@ == listed_reply("questions"@, outcome@),
{
    listed_finish(usage, user, "questions", outcome)
}

/// The description of the picture that a request asks for, or the reply to one
/// that gives none.
pub fn image_start(request: &Json) -> (r: Result<String, Json>)
    ensures
        match r {
            Ok(description) => {
                &&& description@ == text::trimmed(reply::text_or_empty(request@, "prompt"@))
                &&& description@.len() > 0
            },
            Err(json) => {
                &&& text::trimmed(reply::text_or_empty(request@, "prompt"@)).len() == 0
                &&& json@ == reply::status_message("error"@, "提示词为空"@)
            },
        },
{
    let description = trim(requested(request, "prompt"));
    if description.is_empty() {
        return Err(status_message_json("error", "提示词为空"));
    }
    Ok(description.to_owned())
}

/// The reply to a request for a picture.
pub open spec fn image_reply(picture: Picture) -> JsonTree {
    match picture {
        Picture::Url(url) => JsonTree::Object(
            map!["status"@ => JsonTree::Text("ok"@), "image_url"@ => JsonTree::Text(url)],
        ),
        Picture::NeedsConfig => reply::status_message(
            "needs_config"@,
            "未配置生图模型；在 .env 填 AI_IMAGE_MODEL（+ 可选 AI_IMAGE_KEY/BASE）后即可生图。"@,
        ),
        Picture::Error(message) => reply::status_message("error"@, message),
    }
}

/// Ends a request for a picture.
pub fn image_finish(outcome: ImageOutcome) -> (json: Json)
    ensures
        json@ == image_reply(outcome@),
{
    match outcome {
        ImageOutcome::Url(url) => Fields::new().with("status", Json::text("ok")).with(
            "image_url",
            Json::text(url.as_str()),
        ).object(),
        ImageOutcome::NeedsConfig => status_message_json(
            "needs_config",
            "未配置生图模型；在 .env 填 AI_IMAGE_MODEL（+ 可选 AI_IMAGE_KEY/BASE）后即可生图。",
        ),
        ImageOutcome::Error(message) => status_message_json("error", message.as_str()),
    }
}

/// A paying member is never refused.
pub proof fn law_members_are_never_refused(
    vars: Map<Seq<char>, Seq<char>>,
    counts: Map<Seq<char>, u32>,
    records: Map<Seq<char>, subscription::Membership>,
    user: Seq<char>,
    now: i64,
)
    requires
        subscription::status_of(records, user).premium(now),
    ensures
        !quota_of(vars, counts, records, user, now).exhausted(),
{
}

/// A free user who is let through is still within the limit when the answer has
/// been counted: whoever asks one question at a time never gets past it.
pub proof fn law_free_users_stay_within_the_limit(
    vars: Map<Seq<char>, Seq<char>>,
    counts: Map<Seq<char>, u32>,
    records: Map<Seq<char>, subscription::Membership>,
    user: Seq<char>,
    now: i64,
    outcome: Outcome,
)
    requires
        !subscription::status_of(records, user).premium(now),
        !quota_of(vars, counts, records, user, now).exhausted(),
    ensures
        usage::count_of(counts_after(counts, user, outcome), user) <= limit_of(vars),
{
}

/// Only an answer that a model gave is counted, and only on the count of who
/// asked.
pub proof fn law_only_answers_count(
    counts: Map<Seq<char>, u32>,
    user: Seq<char>,
    other: Seq<char>,
    outcome: Outcome,
)
    ensures
        !(outcome is Answer) ==> counts_after(counts, user, outcome) == counts,
        other != user ==> usage::count_of(counts_after(counts, user, outcome), other)
            == usage::count_of(counts, other),
{
}

/// What a free user has had and what is left make up the limit.
pub proof fn law_remaining_makes_up_the_limit(used: u32, limit: u32)
    requires
        used <= limit,
    ensures
        used + remaining_of(false, used, limit) == limit,
{
}

/// No origin is empty, and each is an entry of the list less the white space
/// around it.
pub proof fn law_origins_are_named(list: Seq<Seq<char>>, i: int)
    requires
        0 <= i < named_entries(list).len(),
    ensures
        named_entries(list)[i].len() > 0,
        exists|j: int|
            0 <= j < list.len() && named_entries(list)[i] == text::trimmed(#[trigger] list[j]),
    decreases list.len(),
{
    let rest = list.drop_last();
    if text::is_blank(list.last()) || i < named_entries(rest).len() {
        law_origins_are_named(rest, i);
        let j = choose|j: int|
            0 <= j < rest.len() && named_entries(rest)[i] == text::trimmed(#[trigger] rest[j]);
        assert(list[j] == rest[j]);
    } else {
        assert(list[list.len() - 1] == list.last());
    }
}

/// How a user stands by the clock: a member whose plan is not `free` and does not
/// end by what the clock was read to say is premium and is never without
/// answers; anyone else is not premium, and is without answers from the limit on.
pub proof fn law_running_members_are_premium(
    settings: &Settings,
    usage: &UsageStore,
    members: &SubscriptionStore,
    user: &str,
    quota: Quota,
)
    requires
        call_ensures(quota_for, (settings, usage, members, user), quota),
    ensures
        exists|now: i64|
            {
                let runs = members@.contains_key(user@) && members@[user@].plan != "free"@ && (
                members@[user@].expires_at is None || members@[user@].expires_at->0 > now);
                &&& #[trigger] clock::was_read(now)
                &&& runs ==> quota.premium && !quota.exhausted()
                &&& !runs ==> !quota.premium && (quota.exhausted() <==> quota.used >= quota.limit)
            },
        quota.used == (if usage@.contains_key(user@) {
            usage@[user@]
        } else {
            0
        }),
        quota.limit == limit_of(settings@),
{
    let now = choose|now: i64|
        clock::was_read(now) && quota == #[trigger] quota_of(
            settings@,
            usage@,
            members@,
            user@,
            now,
        );
    assert(clock::was_read(now));
}

/// How a user stands at a moment: premium and never without answers where the
/// membership runs past it, whatever was used; else without answers from the
/// limit on.
pub proof fn law_standing_at_a_moment(
    vars: Map<Seq<char>, Seq<char>>,
    counts: Map<Seq<char>, u32>,
    records: Map<Seq<char>, subscription::Membership>,
    user: Seq<char>,
    now: i64,
)
    ensures
        ({
            let quota = quota_of(vars, counts, records, user, now);
            let runs = records.contains_key(user) && records[user].plan != "free"@ && (
            records[user].expires_at is None || records[user].expires_at->0 > now);
            &&& quota.premium <==> runs
            &&& runs ==> !quota.exhausted()
            &&& !runs ==> (quota.exhausted() <==> quota.used >= quota.limit)
            &&& counts.contains_key(user) ==> quota.used == counts[user]
            &&& !counts.contains_key(user) ==> quota.used == 0
            &&& quota.limit == limit_of(vars)
        }),
{
}

/// The limit of free users is the number that is set, or ten where none is set
/// that can be read.
pub proof fn law_limit_of_free_users(vars: Map<Seq<char>, Seq<char>>, n: u32)
    ensures
        !vars.contains_key("AI_FREE_LIMIT"@) ==> limit_of(vars) == 10,
        vars.contains_key("AI_FREE_LIMIT"@) && text::parsed_u32(vars["AI_FREE_LIMIT"@]) is None
            ==> limit_of(vars) == 10,
        vars.contains_key("AI_FREE_LIMIT"@) && vars["AI_FREE_LIMIT"@] == text::decimal(n as nat)
            ==> limit_of(vars) == n,
{
    text::law_numbers_are_read_back(n as nat);
}

/// A quota as a client reads it: what is left is -1 for a member, and else what is
/// missing from the limit, or nothing.
pub proof fn law_usage_is_shown(premium: bool, used: u32, limit: u32)
    ensures
        usage_tree(premium, used, limit).member("premium"@) == Some(JsonTree::Bool(premium)),
        usage_tree(premium, used, limit).member("used"@) == Some(JsonTree::Int(used as int)),
        usage_tree(premium, used, limit).member("limit"@) == Some(JsonTree::Int(limit as int)),
        premium ==> usage_tree(premium, used, limit).member("remaining"@) == Some(
            JsonTree::Int(-1),
        ),
        !premium && used <= limit ==> usage_tree(premium, used, limit).member("remaining"@) == Some(
            JsonTree::Int(limit - used),
        ),
        !premium && used > limit ==> usage_tree(premium, used, limit).member("remaining"@) == Some(
            JsonTree::Int(0),
        ),
{
    reveal_strlit("premium");
    reveal_strlit("used");
    reveal_strlit("limit");
    reveal_strlit("remaining");
    assert("premium"@.len() == 7 && "used"@.len() == 4 && "limit"@.len() == 5 && "remaining"@.len()
        == 9);
}

/// What is on record of a prompt as a client reads it: every key in its place,
/// and both numbers.
pub proof fn law_records_are_shown(audit: Audit, i: int)
    ensures
        audit_tree(audit).member("context_memory_count"@) == Some(
            JsonTree::Int(audit.context_memory_count as int),
        ),
        audit_tree(audit).member("sent_chars"@) == Some(JsonTree::Int(audit.sent_chars as int)),
        audit_tree(audit).member("system_prompt_keys"@) matches Some(JsonTree::List(keys))
            && keys.len() == audit.system_prompt_keys@.len(),
        0 <= i < audit.system_prompt_keys@.len() ==> audit_tree(audit).member(
            "system_prompt_keys"@,
        )->0.element(i) == Some(JsonTree::Text(audit.system_prompt_keys@[i]@)),
{
    reveal_strlit("system_prompt_keys");
    reveal_strlit("context_memory_count");
    reveal_strlit("sent_chars");
    assert("system_prompt_keys"@.len() == 18 && "context_memory_count"@.len() == 20
        && "sent_chars"@.len() == 10);
}

proof fn lemma_reply_keys()
    ensures
        "status"@ != "message"@,
        "status"@ != "answer"@,
        "status"@ != "cached"@,
        "status"@ != "model"@,
        "status"@ != "usage"@,
        "status"@ != "audit"@,
        "message"@ != "answer"@,
        "message"@ != "model"@,
        "message"@ != "usage"@,
        "message"@ != "audit"@,
        "answer"@ != "cached"@,
        "answer"@ != "model"@,
        "answer"@ != "usage"@,
        "answer"@ != "audit"@,
        "cached"@ != "model"@,
        "cached"@ != "usage"@,
        "cached"@ != "audit"@,
        "model"@ != "usage"@,
        "model"@ != "audit"@,
        "usage"@ != "audit"@,
{
    reveal_strlit("status");
    reveal_strlit("message");
    reveal_strlit("answer");
    reveal_strlit("cached");
    reveal_strlit("model");
    reveal_strlit("usage");
    reveal_strlit("audit");
    assert("status"@.len() == 6 && "message"@.len() == 7 && "answer"@.len() == 6 && "cached"@.len()
        == 6 && "model"@.len() == 5 && "usage"@.len() == 5 && "audit"@.len() == 5);
    assert("status"@[0] == 's' && "answer"@[0] == 'a' && "cached"@[0] == 'c' && "model"@[0] == 'm'
        && "usage"@[0] == 'u' && "audit"@[0] == 'a');
}

/// A question that a model answered is replied to with the answer and the new
/// count; one that was answered before, with that answer, marked as kept, and the
/// count as it stands.
pub proof fn law_answers_are_passed_on(
    quota: Quota,
    audit: Audit,
    answer: Seq<char>,
    counted: u32,
)
    ensures
        ({
            let fresh = qa_reply(quota, audit, Outcome::Answer(answer), counted);
            &&& fresh.text_under("status"@) == Some("ok"@)
            &&& fresh.text_under("answer"@) == Some(answer)
            &&& fresh.member("cached"@) == Some(JsonTree::Bool(false))
            &&& fresh.text_under("model"@) == Some("LOVEAI"@)
            &&& fresh.member("usage"@) == Some(usage_tree(quota.premium, counted, quota.limit))
            &&& fresh.member("audit"@) == Some(audit_tree(audit))
        }),
        ({
            let kept = qa_reply(quota, audit, Outcome::Cached(answer), counted);
            &&& kept.text_under("status"@) == Some("ok"@)
            &&& kept.text_under("answer"@) == Some(answer)
            &&& kept.member("cached"@) == Some(JsonTree::Bool(true))
            &&& kept.text_under("model"@) == Some("LOVEAI"@)
            &&& kept.member("usage"@) == Some(usage_tree(quota.premium, quota.used, quota.limit))
            &&& kept.member("audit"@) == Some(audit_tree(audit))
        }),
{
    lemma_reply_keys();
}

/// A question without an answer says why: an error by its own words, a missing
/// key and a spent quota by fixed ones; and the count is shown as it stands.
pub proof fn law_missing_answers_are_explained(
    quota: Quota,
    audit: Audit,
    why: Seq<char>,
    counted: u32,
)
    ensures
        ({
            let failed = qa_reply(quota, audit, Outcome::Error(why), counted);
            &&& failed.text_under("status"@) == Some("error"@)
            &&& failed.text_under("message"@) == Some(why)
            &&& failed.member("answer"@) is None
            &&& failed.text_under("model"@) == Some("LOVEAI"@)
            &&& failed.member("usage"@) == Some(usage_tree(quota.premium, quota.used, quota.limit))
            &&& failed.member("audit"@) == Some(audit_tree(audit))
        }),
        ({
            let keyless = qa_reply(quota, audit, Outcome::NeedsApiKey, counted);
            &&& keyless.text_under("status"@) == Some("needs_api_key"@)
            &&& keyless.text_under("message"@) == Some(
                "后端未配置 AI_API_KEY；填入后即返回真实回答（绝不使用假数据）。"@,
            )
            &&& keyless.member("answer"@) is None
            &&& keyless.text_under("model"@) == Some("LOVEAI"@)
            &&& keyless.member("usage"@) == Some(usage_tree(quota.premium, quota.used, quota.limit))
            &&& keyless.member("audit"@) == Some(audit_tree(audit))
        }),
        ({
            let refused = qa_refusal(quota, audit);
            &&& refused.text_under("status"@) == Some("quota_exceeded"@)
            &&& refused.text_under("message"@) == Some("免费次数已用完，升级解锁更多 LOVEAI 关心"@)
            &&& refused.member("answer"@) is None
            &&& refused.text_under("model"@) == Some("LOVEAI"@)
            &&& refused.member("usage"@) == Some(usage_tree(quota.premium, quota.used, quota.limit))
            &&& refused.member("audit"@) == Some(audit_tree(audit))
        }),
{
    lemma_reply_keys();
}

/// An answer of a model is one more on the count of who asked; nothing else is.
pub proof fn law_answers_are_counted(
    counts: Map<Seq<char>, u32>,
    user: Seq<char>,
    answer: Seq<char>,
    why: Seq<char>,
)
    requires
        usage::count_of(counts, user) < u32::MAX,
    ensures
        usage::count_of(counts_after(counts, user, Outcome::Answer(answer)), user)
            == usage::count_of(counts, user) + 1,
        counts_after(counts, user, Outcome::Cached(answer)) == counts,
        counts_after(counts, user, Outcome::NeedsApiKey) == counts,
        counts_after(counts, user, Outcome::Error(why)) == counts,
{
}

/// An answer that lists something is replied to with what it lists under the key,
/// whether it is new or kept: nothing, where it is no JSON, and null, where it
/// does not name the key.
pub proof fn law_lists_are_passed_on(
    key: Seq<char>,
    answer: Seq<char>,
    why: Seq<char>,
    parsed: JsonTree,
)
    requires
        key == "suggestions"@ || key == "questions"@,
    ensures
        ({
            let read = json::json_in(vstd::utf8::encode_utf8(unfenced(answer)));
            let reply = listed_reply(key, Outcome::Answer(answer));
            &&& reply == listed_reply(key, Outcome::Cached(answer))
            &&& reply.text_under("status"@) == Some("ok"@)
            &&& read is None ==> reply.member(key) == Some(JsonTree::List(Seq::empty()))
            &&& read == Some(parsed) && parsed.member(key) is Some ==> reply.member(key)
                == parsed.member(key)
            &&& read == Some(parsed) && parsed.member(key) is None ==> reply.member(key) == Some(
                JsonTree::Null,
            )
        }),
        listed_reply(key, Outcome::NeedsApiKey).text_under("status"@) == Some("needs_api_key"@),
        listed_reply(key, Outcome::NeedsApiKey).member(key) is None,
        listed_reply(key, Outcome::Error(why)).text_under("status"@) == Some("error"@),
        listed_reply(key, Outcome::Error(why)).text_under("message"@) == Some(why),
        listed_reply(key, Outcome::Error(why)).member(key) is None,
{
    lemma_reply_keys();
    reveal_strlit("suggestions");
    reveal_strlit("questions");
    reveal_strlit("status");
    reveal_strlit("message");
    assert("suggestions"@.len() == 11 && "questions"@.len() == 9 && "status"@.len() == 6
        && "message"@.len() == 7);
}

/// A text to send is passed on less the white space around it, whether it is new
/// or kept.
pub proof fn law_texts_are_passed_on(answer: Seq<char>, why: Seq<char>)
    ensures
        content_reply(Outcome::Answer(answer)) == content_reply(Outcome::Cached(answer)),
        content_reply(Outcome::Answer(answer)).text_under("status"@) == Some("ok"@),
        content_reply(Outcome::Answer(answer)).text_under("content"@) == Some(
            text::trimmed(answer),
        ),
        content_reply(Outcome::NeedsApiKey).text_under("status"@) == Some("needs_api_key"@),
        content_reply(Outcome::NeedsApiKey).member("content"@) is None,
        content_reply(Outcome::Error(why)).text_under("status"@) == Some("error"@),
        content_reply(Outcome::Error(why)).text_under("message"@) == Some(why),
        content_reply(Outcome::Error(why)).member("content"@) is None,
{
    lemma_reply_keys();
    reveal_strlit("content");
    reveal_strlit("status");
    reveal_strlit("message");
    assert("content"@.len() == 7 && "status"@.len() == 6 && "message"@.len() == 7);
    assert("content"@[0] == 'c' && "message"@[0] == 'm');
}

/// A picture is passed on by its address; without one, the reply says why.
pub proof fn law_pictures_are_passed_on(url: Seq<char>, why: Seq<char>)
    ensures
        image_reply(Picture::Url(url)).text_under("status"@) == Some("ok"@),
        image_reply(Picture::Url(url)).text_under("image_url"@) == Some(url),
        image_reply(Picture::NeedsConfig).text_under("status"@) == Some("needs_config"@),
        image_reply(Picture::NeedsConfig).text_under("message"@) == Some(
            "未配置生图模型；在 .env 填 AI_IMAGE_MODEL（+ 可选 AI_IMAGE_KEY/BASE）后即可生图。"@,
        ),
        image_reply(Picture::Error(why)).text_under("status"@) == Some("error"@),
        image_reply(Picture::Error(why)).text_under("message"@) == Some(why),
{
    lemma_reply_keys();
    reveal_strlit("image_url");
    reveal_strlit("status");
    assert("image_url"@.len() == 9 && "status"@.len() == 6);
}

/// One more entry in the list of origins is one more origin, less the white space
/// around it, unless it is blank.
pub proof fn law_one_more_origin(list: Seq<Seq<char>>, entry: Seq<char>)
    ensures
        named_entries(Seq::empty()).len() == 0,
        text::is_blank(entry) ==> named_entries(list.push(entry)) == named_entries(list),
        !text::is_blank(entry) ==> named_entries(list.push(entry)) == named_entries(list).push(
            text::trimmed(entry),
        ),
{
    assert(list.push(entry).drop_last() =~= list);
}

/// The origins are the entries, between commas, of the list that is set, or of
/// the usual one where none is.
pub proof fn law_where_origins_come_from(vars: Map<Seq<char>, Seq<char>>)
    ensures
        vars.contains_key("CORS_ALLOWED_ORIGINS"@) ==> origins_of(vars) == named_entries(
            text::pieces(vars["CORS_ALLOWED_ORIGINS"@], ','),
        ),
        !vars.contains_key("CORS_ALLOWED_ORIGINS"@) ==> origins_of(vars) == named_entries(
            text::pieces(
                "https://www.loveaivip.com,https://loveaivip.com,http://localhost:8080,http://127.0.0.1:8080"@,
                ',',
            ),
        ),
{
}

/// An answer between fences is what stands between them, and one without fences
/// is itself, both less the white space around them.
pub proof fn law_fences_come_off(
    body: Seq<char>,
    before: Seq<char>,
    after: Seq<char>,
)
    requires
        body.len() > 0,
        body[0] != '`' && !text::is_white_space(body[0]),
        body.last() != '`' && !text::is_white_space(body.last()),
        before.len() > 0,
        text::all_white(before),
        text::all_white(after),
    ensures
        unfenced(before + body + after) == body,
        unfenced("```json"@ + before + body + after + "```"@) == body,
        unfenced("```"@ + before + body + after + "```"@) == body,
{
    reveal_strlit("```json");
    reveal_strlit("```");
    text::lemma_padded(before, body, after);
    let inner = before + body + after;
    let json = "```json"@ + inner + "```"@;
    let bare = "```"@ + inner + "```"@;
    assert("```json"@ + before + body + after + "```"@ =~= json);
    assert("```"@ + before + body + after + "```"@ =~= bare);
    assert(!text::is_white_space('`'));
    // Without fences.
    assert(body[0] != "```json"@[0] && body[0] != "```"@[0]);
    assert(body.last() != "```"@[2]);
    assert(!"```json"@.is_prefix_of(body));
    assert(!"```"@.is_prefix_of(body));
    assert(!"```"@.is_suffix_of(body)) by {
        if "```"@.is_suffix_of(body) {
            assert("```"@ =~= body.subrange(body.len() - 3, body.len() as int));
            assert(body.subrange(body.len() - 3, body.len() as int)[2] == body.last());
        }
    }
    // With fences.
    text::lemma_trimmed(json);
    assert(text::trimmed(json) == json) by {
        assert(json[0] == '`' && json.last() == '`');
    }
    assert(text::trimmed(bare) == bare) by {
        assert(bare[0] == '`' && bare.last() == '`');
    }
    let open = inner + "```"@;
    assert(open[0] == before[0]);
    assert(text::is_white_space(before[0]));
    assert(json.skip(7) =~= open);
    assert(bare.skip(3) =~= open);
    assert(!"```json"@.is_prefix_of(open));
    assert(!"```"@.is_prefix_of(open));
    assert("```json"@.is_prefix_of(json)) by {
        assert(json.subrange(0, 7) =~= "```json"@);
    }
    assert("```"@.is_prefix_of(bare)) by {
        assert(bare.subrange(0, 3) =~= "```"@);
    }
    assert(!"```json"@.is_prefix_of(bare)) by {
        assert(bare[3] == before[0]);
        assert("```json"@[3] == 'j');
    }
    assert(text::without_prefixes(json, "```json"@) == text::without_prefixes(open, "```json"@));
    assert(text::without_prefixes(bare, "```"@) == text::without_prefixes(open, "```"@));
    assert("```"@.is_suffix_of(open)) by {
        assert(open.subrange(open.len() - 3, open.len() as int) =~= "```"@);
    }
    assert(open.take(open.len() - 3) =~= inner);
    assert(!"```"@.is_suffix_of(inner)) by {
        if "```"@.is_suffix_of(inner) {
            assert("```"@ =~= inner.subrange(inner.len() - 3, inner.len() as int));
            assert(inner.subrange(inner.len() - 3, inner.len() as int)[2] == inner.last());
            if after.len() > 0 {
                assert(inner.last() == after[after.len() - 1]);
            } else {
                assert(inner.last() == body.last());
            }
        }
    }
    assert(text::without_suffixes(open, "```"@) == text::without_suffixes(inner, "```"@));
}

/// A question of a user who has no answers left asks no model and is told so; any
/// other is prepared for the model of its scenario.
pub proof fn law_questions_begin(
    settings: &Settings,
    quota: &Quota,
    req: &QaRequest,
    r: Result<Prepared, Json>,
)
    requires
        call_ensures(qa_start, (settings, quota, req), r),
    ensures
        r is Err <==> !quota.premium && quota.used >= quota.limit,
        r matches Ok(p) ==> prompt::is_qa_prompt(*req, p.resolved) && p.model@ == ai::model_of(
            settings@,
            text::opt_text(req.scenario),
        ),
        r matches Err(json) ==> json@.text_under("status"@) == Some("quota_exceeded"@)
            && json@.member("answer"@) is None && json@.member("usage"@) == Some(
            usage_tree(quota.premium, quota.used, quota.limit),
        ),
{
    lemma_reply_keys();
}

/// Beginning with a user who has no answers left asks no model and says so; with
/// anyone else it prepares the prompt for the model that writes.
pub proof fn law_inspire_begins(
    settings: &Settings,
    quota: &Quota,
    req: &InspireRequest,
    r: Result<Prepared, Json>,
)
    requires
        call_ensures(inspire_start, (settings, quota, req), r),
    ensures
        r is Err <==> !quota.premium && quota.used >= quota.limit,
        r matches Ok(p) ==> inspire::is_inspire_prompt(*req, p.resolved) && p.model@ == ai::model_of(
            settings@,
            Some("generate"@),
        ),
        r matches Err(json) ==> json@.text_under("status"@) == Some("quota_exceeded"@)
            && json@.text_under("message"@) == Some("免费次数已用完，升级解锁更多 LOVEAI 关心"@),
{
    lemma_reply_keys();
}

/// Beginning with a user who has no answers left asks no model and says so; with
/// anyone else it prepares the prompt for the model that writes.
pub proof fn law_ghostwrite_begins(
    settings: &Settings,
    quota: &Quota,
    req: &GhostwriteRequest,
    r: Result<Prepared, Json>,
)
    requires
        call_ensures(ghostwrite_start, (settings, quota, req), r),
    ensures
        r is Err <==> !quota.premium && quota.used >= quota.limit,
        r matches Ok(p) ==> inspire::is_ghostwrite_prompt(*req, p.resolved) && p.model@ == ai::model_of(
            settings@,
            Some("generate"@),
        ),
        r matches Err(json) ==> json@.text_under("status"@) == Some("quota_exceeded"@)
            && json@.text_under("message"@) == Some("免费次数已用完"@),
{
    lemma_reply_keys();
}

/// Beginning with a user who has no answers left asks no model and says so; with
/// anyone else it prepares the prompt for the model that writes.
pub proof fn law_quiz_begins(
    settings: &Settings,
    quota: &Quota,
    req: &QuizRequest,
    r: Result<Prepared, Json>,
)
    requires
        call_ensures(quiz_start, (settings, quota, req), r),
    ensures
        r is Err <==> !quota.premium && quota.used >= quota.limit,
        r matches Ok(p) ==> quiz::is_quiz_prompt(*req, p.resolved) && p.model@ == ai::model_of(
            settings@,
            Some("generate"@),
        ),
        r matches Err(json) ==> json@.text_under("status"@) == Some("quota_exceeded"@)
            && json@.text_under("message"@) == Some("免费次数已用完"@),
{
    lemma_reply_keys();
}

/// A picture is asked for by the description in the request, less the white space
/// around it; without one the request is turned down.
pub proof fn law_pictures_need_a_description(
    request: &Json,
    described: Seq<char>,
    r: Result<String, Json>,
)
    requires
        call_ensures(image_start, (request,), r),
    ensures
        request@.text_under("prompt"@) == Some(described) && !text::is_blank(described) ==> r is Ok
            && r->Ok_0@ == text::trimmed(described),
        request@.text_under("prompt"@) == Some(described) && text::is_blank(described) ==> r is Err,
        request@.text_under("prompt"@) is None ==> r is Err,
        r matches Err(json) ==> json@.text_under("status"@) == Some("error"@) && json@.text_under(
            "message"@,
        ) == Some("提示词为空"@),
{
    lemma_reply_keys();
    reveal_strlit("");
}

/// The service says that it is there, and which one it is.
pub proof fn law_health_is_told(json: Json)
    requires
        call_ensures(health, (), json),
    ensures
        json@.text_under("status"@) == Some("ok"@),
        json@.text_under("service"@) == Some("xinshang_backend"@),
{
    reveal_strlit("status");
    reveal_strlit("service");
    assert("status"@.len() == 6 && "service"@.len() == 7);
}

} // verus!
