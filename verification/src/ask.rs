//! One question to the language model, from the cache to the last vendor.
use crate::ai::{self, build_providers, cache_key, is_failover_worthy, AiOutcome, Outcome, Provider, Vendor};
use crate::json::{Fields, Json, JsonTree};
use crate::prompt::{ChatTurn, ResolvedPrompt};
use crate::settings::Settings;
use crate::text::{self, decimal_text, str_eq};
use std::collections::HashMap;
use vstd::prelude::*;

verus! {

broadcast use vstd::std_specs::hash::group_hash_axioms;

/// The number of answers above which the cache starts afresh.
pub const CACHE_LIMIT: usize = 500;

/// How often a vendor is tried.
pub const ATTEMPTS: u32 = 3;

/// Answers that were given, by the key of what was asked.
pub struct AnswerCache {
    answers: HashMap<u64, String>,
}

impl View for AnswerCache {
    type V = Map<u64, Seq<char>>;

    closed spec fn view(&self) -> Map<u64, Seq<char>> {
        self.answers@.map_values(|s: String| s@)
    }
}

/// The cache after an answer was kept.
pub open spec fn remembered(answers: Map<u64, Seq<char>>, key: u64, answer: Seq<char>) -> Map<
    u64,
    Seq<char>,
> {
    if answers.len() > CACHE_LIMIT {
        Map::empty().insert(key, answer)
    } else {
        answers.insert(key, answer)
    }
}

impl AnswerCache {
    /// An empty cache.
    pub fn new() -> (cache: AnswerCache)
        ensures
            cache@ == Map::<u64, Seq<char>>::empty(),
    {
        let cache = AnswerCache { answers: HashMap::new() };
        assert(cache@ =~= Map::<u64, Seq<char>>::empty());
        cache
    }

    /// The answer under `key`.
    pub fn get(&self, key: u64) -> (r: Option<String>)
        ensures
            match r {
                Some(answer) => self@.contains_key(key) && self@[key] == answer@,
                None => !self@.contains_key(key),
            },
    {
        match self.answers.get(&key) {
            Some(answer) => Some(answer.clone()),
            None => None,
        }
    }

    /// Keeps an answer. A cache that has grown past the limit is emptied first.
    pub fn put(&mut self, key: u64, answer: String)
        ensures
            final(self)@ == remembered(old(self)@, key, answer@),
    {
        assert(self@.dom() =~= self.answers@.dom());
        if self.answers.len() > CACHE_LIMIT {
            self.answers.clear();
        }
        let ghost before = self.answers@;
        self.answers.insert(key, answer);
        assert(before.insert(key, answer).map_values(|s: String| s@) =~= before.map_values(
            |s: String| s@,
        ).insert(key, answer@));
        assert(self@ =~= remembered(old(self)@, key, answer@));
    }
}

/// One message of a conversation with the model.
pub struct Message {
    pub role: &'static str,
    pub content: String,
}

impl View for Message {
    type V = (Seq<char>, Seq<char>);

    open spec fn view(&self) -> (Seq<char>, Seq<char>) {
        (self.role@, self.content@)
    }
}

/// The role under which a turn is sent: what is not the assistant's is the
/// user's.
pub open spec fn role_of(role: Seq<char>) -> Seq<char> {
    if role == "assistant"@ {
        "assistant"@
    } else {
        "user"@
    }
}

/// The messages for a question: the rules, the task with the context, the
/// conversation so far, the question.
pub open spec fn message_list(r: ResolvedPrompt, history: Seq<ChatTurn>) -> Seq<
    (Seq<char>, Seq<char>),
> {
    seq![
        ("system"@, r.system@),
        ("system"@, r.developer@ + "\n\n"@ + r.user_context@),
    ] + history.map_values(|t: ChatTurn| (role_of(t.role@), t.content@)) + seq![("user"@, r.user@)]
}

/// The messages for a question.
pub fn assemble_messages(r: &ResolvedPrompt, history: &[ChatTurn]) -> (messages: Vec<Message>)
    ensures
        messages@.map_values(|m: Message| m@) == message_list(*r, history@),
        messages@.len() == history@.len() + 3,
        messages@[0]@ == ("system"@, r.system@),
        messages@[1]@ == ("system"@, r.developer@ + "\n\n"@ + r.user_context@),
        forall|j: int|
            0 <= j < history@.len() ==> (#[trigger] messages@[2 + j])@ == (
                if history@[j].role@ == "assistant"@ {
                    "assistant"@
                } else {
                    "user"@
                },
                history@[j].content@,
            ),
        messages@.last()@ == ("user"@, r.user@),
{
    let mut task = r.developer.clone();
    task.append("\n\n");
    task.append(r.user_context.as_str());
    let mut messages: Vec<Message> = Vec::new();
    messages.push(Message { role: "system", content: r.system.clone() });
    messages.push(Message { role: "system", content: task });
    let mut i: usize = 0;
    while i < history.len()
        invariant
            i <= history@.len(),
            messages@.len() == 2 + i,
            messages@[0]@ == ("system"@, r.system@),
            messages@[1]@ == ("system"@, r.developer@ + "\n\n"@ + r.user_context@),
            forall|j: int|
                0 <= j < i ==> (#[trigger] messages@[2 + j])@ == (
                    role_of(history@[j].role@),
                    history@[j].content@,
                ),
        decreases history@.len() - i,
    {
        let role = if str_eq(history[i].role.as_str(), "assistant") {
            "assistant"
        } else {
            "user"
        };
        messages.push(Message { role, content: history[i].content.clone() });
        i = i + 1;
    }
    messages.push(Message { role: "user", content: r.user.clone() });
    proof {
        let got = messages@.map_values(|m: Message| m@);
        let want = message_list(*r, history@);
        assert forall|k: int| 0 <= k < want.len() implies got[k] == want[k] by {
            if 2 <= k < 2 + history@.len() {
                assert(messages@[2 + (k - 2)]@ == (
                    role_of(history@[k - 2].role@),
                    history@[k - 2].content@,
                ));
            }
        }
        assert(got =~= want);
    }
    messages
}

/// A message as it is sent.
pub open spec fn message_json(m: (Seq<char>, Seq<char>)) -> JsonTree {
    JsonTree::Object(map!["role"@ => JsonTree::Text(m.0), "content"@ => JsonTree::Text(m.1)])
}

/// The request to a vendor.
pub open spec fn chat_json(model: Seq<char>, messages: Seq<(Seq<char>, Seq<char>)>) -> JsonTree {
    JsonTree::Object(
        map![
            "model"@ => JsonTree::Text(model),
            "messages"@ => JsonTree::List(messages.map_values(|m: (Seq<char>, Seq<char>)| message_json(m))),
            "stream"@ => JsonTree::Bool(false),
        ],
    )
}

/// The request to a vendor.
pub fn chat_body(model: &str, messages: &Vec<Message>) -> (body: Json)
    ensures
        body@ == chat_json(model@, messages@.map_values(|m: Message| m@)),
{
    let mut items: Vec<Json> = Vec::new();
    let mut i: usize = 0;
    while i < messages.len()
        invariant
            i <= messages@.len(),
            items@.len() == i,
            forall|j: int| 0 <= j < i ==> (#[trigger] items@[j])@ == message_json(messages@[j]@),
        decreases messages@.len() - i,
    {
        let message = Fields::new().with("role", Json::text(messages[i].role)).with(
            "content",
            Json::text(messages[i].content.as_str()),
        ).object();
        items.push(message);
        i = i + 1;
    }
    let ghost views = messages@.map_values(|m: Message| m@);
    assert(items@.map_values(|j: Json| j@) =~= views.map_values(
        |m: (Seq<char>, Seq<char>)| message_json(m),
    ));
    Fields::new().with("model", Json::text(model)).with("messages", Json::list(items)).with(
        "stream",
        Json::Bool(false),
    ).object()
}

/// The text in a vendor's reply; empty where there is none.
pub open spec fn reply_text(reply: JsonTree) -> Seq<char> {
    match reply.member("choices"@) {
        Some(choices) => match choices.element(0) {
            Some(choice) => match choice.member("message"@) {
                Some(message) => match message.text_under("content"@) {
                    Some(content) => content,
                    None => Seq::empty(),
                },
                None => Seq::empty(),
            },
            None => Seq::empty(),
        },
        None => Seq::empty(),
    }
}

/// The text in a vendor's reply; empty where there is none.
pub fn completion_text(reply: &Json) -> (r: String)
    ensures
        r@ == reply_text(reply@),
{
    if let Some(choices) = reply.get("choices") {
        if let Some(choice) = choices.at(0) {
            if let Some(message) = choice.get("message") {
                if let Some(content) = message.text_under("content") {
                    return content.to_owned();
                }
            }
        }
    }
    String::new()
}

/// What one attempt at a vendor brought.
pub enum Reply {
    /// A reply with a status of success.
    Answered(Json),
    /// A status of success, but no readable reply; why not.
    Garbled(String),
    /// Any other status.
    Status(u16),
    /// No reply; why not.
    Unreachable(String),
}

/// What came of a vendor.
pub enum ProviderResult {
    Content(String),
    /// The next vendor is worth a try.
    Failover(String),
    /// No vendor would do better.
    Fatal(String),
}

/// The meaning of what came of a vendor.
pub enum VendorResult {
    Content(Seq<char>),
    Failover(Seq<char>),
    Fatal(Seq<char>),
}

impl View for ProviderResult {
    type V = VendorResult;

    open spec fn view(&self) -> VendorResult {
        match *self {
            ProviderResult::Content(s) => VendorResult::Content(s@),
            ProviderResult::Failover(s) => VendorResult::Failover(s@),
            ProviderResult::Fatal(s) => VendorResult::Fatal(s@),
        }
    }
}

/// What to do after an attempt.
pub enum ProviderStep {
    /// Leave the vendor with this result.
    Finish(ProviderResult),
    /// Read the reply's body and leave the vendor with `fatal_result`.
    ReadBody(u16),
    /// Wait so many milliseconds, then try again.
    RetryAfter(u64),
}

/// The meaning of what to do after an attempt.
pub enum VendorStep {
    Finish(VendorResult),
    ReadBody(u16),
    RetryAfter(u64),
}

impl View for ProviderStep {
    type V = VendorStep;

    open spec fn view(&self) -> VendorStep {
        match *self {
            ProviderStep::Finish(r) => VendorStep::Finish(r@),
            ProviderStep::ReadBody(code) => VendorStep::ReadBody(code),
            ProviderStep::RetryAfter(ms) => VendorStep::RetryAfter(ms),
        }
    }
}

/// A status as it is reported.
pub open spec fn status_text(code: u16) -> Seq<char> {
    "HTTP "@ + text::decimal(code as nat)
}

/// Try again, waiting twice as long each time, unless this was the last
/// attempt.
pub open spec fn retry_or_leave(attempt: u32, why: Seq<char>) -> VendorStep {
    if attempt == 0 {
        VendorStep::RetryAfter(400)
    } else if attempt == 1 {
        VendorStep::RetryAfter(800)
    } else {
        VendorStep::Finish(VendorResult::Failover(why))
    }
}

/// What to do after an attempt; attempts are counted from 0.
pub open spec fn step_after(attempt: u32, reply: Reply) -> VendorStep {
    match reply {
        Reply::Answered(json) => VendorStep::Finish(VendorResult::Content(reply_text(json@))),
        Reply::Garbled(why) => VendorStep::Finish(VendorResult::Failover("解析失败: "@ + why@)),
        Reply::Status(code) => if !ai::failover_worthy(code) {
            VendorStep::ReadBody(code)
        } else if code == 401 || code == 403 {
            VendorStep::Finish(VendorResult::Failover(status_text(code)))
        } else {
            retry_or_leave(attempt, status_text(code))
        },
        Reply::Unreachable(why) => retry_or_leave(attempt, "网络错误: "@ + why@),
    }
}

/// A status as it is reported.
fn status_line(code: u16) -> (r: String)
    ensures
        r@ == status_text(code),
{
    let mut r = "HTTP ".to_owned();
    let digits = decimal_text(code as u64);
    r.append(digits.as_str());
    r
}

/// Try again or leave.
fn retry_or_finish(attempt: u32, why: String) -> (r: ProviderStep)
    requires
        attempt < ATTEMPTS,
    ensures
        r@ == retry_or_leave(attempt, why@),
{
    if attempt == 0 {
        ProviderStep::RetryAfter(400)
    } else if attempt == 1 {
        ProviderStep::RetryAfter(800)
    } else {
        ProviderStep::Finish(ProviderResult::Failover(why))
    }
}

/// What to do after an attempt at a vendor; attempts are counted from 0.
pub fn provider_step(attempt: u32, reply: Reply) -> (r: ProviderStep)
    requires
        attempt < ATTEMPTS,
    ensures
        r@ == step_after(attempt, reply),
{
    match reply {
        Reply::Answered(json) => ProviderStep::Finish(ProviderResult::Content(completion_text(&json))),
        Reply::Garbled(why) => {
            let mut message = "解析失败: ".to_owned();
            message.append(why.as_str());
            ProviderStep::Finish(ProviderResult::Failover(message))
        },
        Reply::Status(code) => if !is_failover_worthy(code) {
            ProviderStep::ReadBody(code)
        } else if code == 401 || code == 403 {
            ProviderStep::Finish(ProviderResult::Failover(status_line(code)))
        } else {
            retry_or_finish(attempt, status_line(code))
        },
        Reply::Unreachable(why) => {
            let mut message = "网络错误: ".to_owned();
            message.append(why.as_str());
            retry_or_finish(attempt, message)
        },
    }
}

/// What comes of a vendor whose status no other vendor would better.
pub fn fatal_result(code: u16, body: &str) -> (r: ProviderResult)
    ensures
        r@ == VendorResult::Fatal(status_text(code) + ": "@ + body@),
{
    let mut message = status_line(code);
    message.append(": ");
    message.append(body);
    ProviderResult::Fatal(message)
}

/// Where a vendor takes chat requests.
pub fn chat_url(provider: &Provider) -> (url: String)
    ensures
        url@ == provider@.base + "/chat/completions"@,
{
    let mut url = provider.base.clone();
    url.append("/chat/completions");
    url
}

/// A question that is under way: which vendor is asked, and what is sent.
pub struct AiCall {
    key: u64,
    providers: Vec<Provider>,
    next: usize,
    messages: Vec<Message>,
}

/// The meaning of a question under way.
pub struct Call {
    /// The key under which the answer will be kept.
    pub key: u64,
    /// The vendors, in the order in which they are tried.
    pub vendors: Seq<Vendor>,
    /// The vendor that is asked now.
    pub next: nat,
    /// What is sent.
    pub messages: Seq<(Seq<char>, Seq<char>)>,
}

impl View for AiCall {
    type V = Call;

    closed spec fn view(&self) -> Call {
        Call {
            key: self.key,
            vendors: ai::vendors(self.providers@),
            next: self.next as nat,
            messages: self.messages@.map_values(|m: Message| m@),
        }
    }
}

/// How a question starts.
pub enum Start {
    /// It is settled without asking anybody.
    Settled(AiOutcome),
    /// The vendors are to be asked.
    Ask(AiCall),
}

/// What comes of a vendor's result: an outcome, or nothing yet, and the next
/// vendor is asked.
pub open spec fn outcome_after(call: Call, result: VendorResult) -> Option<Outcome> {
    match result {
        VendorResult::Content(content) => Some(Outcome::Answer(content)),
        VendorResult::Fatal(why) => Some(Outcome::Error(why)),
        VendorResult::Failover(why) => if call.next + 1 == call.vendors.len() {
            Some(Outcome::Error("主备厂商均失败："@ + why))
        } else {
            None
        },
    }
}

/// The cache after a vendor's result: only an answer is kept.
pub open spec fn cache_after(cache: Map<u64, Seq<char>>, call: Call, result: VendorResult) -> Map<
    u64,
    Seq<char>,
> {
    match result {
        VendorResult::Content(content) => remembered(cache, call.key, content),
        _ => cache,
    }
}

impl AiCall {
    /// There is a vendor to ask.
    #[verifier::type_invariant]
    spec fn asks_somebody(&self) -> bool {
        self.next < self.providers@.len()
    }

    /// Starts a question: without a vendor it cannot be asked, and what was
    /// answered before is answered from the cache.
    pub fn start(
        settings: &Settings,
        cache: &AnswerCache,
        resolved: &ResolvedPrompt,
        model: &str,
        history: &[ChatTurn],
    ) -> (r: Start)
        ensures
            ({
                let chain = ai::vendor_chain(settings@, model@);
                let key = ai::digest(ai::key_texts(*resolved, model@, history@));
                if chain.len() == 0 {
                    r matches Start::Settled(outcome) && outcome@ == Outcome::NeedsApiKey
                } else if cache@.contains_key(key) {
                    r matches Start::Settled(outcome) && outcome@ == Outcome::Cached(cache@[key])
                } else {
                    r matches Start::Ask(call) && call@ == (Call {
                        key,
                        vendors: chain,
                        next: 0,
                        messages: message_list(*resolved, history@),
                    })
                }
            }),
    {
        let providers = build_providers(settings, model);
        if providers.len() == 0 {
            return Start::Settled(AiOutcome::NeedsApiKey);
        }
        let key: u64 = cache_key(resolved, model, history);
        if let Some(answer) = cache.get(key) {
            return Start::Settled(AiOutcome::Cached(answer));
        }
        let messages = assemble_messages(resolved, history);
        Start::Ask(AiCall { key, providers, next: 0, messages })
    }

    /// The vendor to ask now.
    pub fn provider(&self) -> (r: &Provider)
        ensures
            self@.next < self@.vendors.len(),
            r@ == self@.vendors[self@.next as int],
    {
        proof {
            use_type_invariant(self);
        }
        &self.providers[self.next]
    }

    /// What to send to the vendor that is asked now.
    pub fn body(&self) -> (body: Json)
        ensures
            body@ == chat_json(self@.vendors[self@.next as int].model, self@.messages),
    {
        proof {
            use_type_invariant(self);
        }
        chat_body(self.providers[self.next].model.as_str(), &self.messages)
    }

    /// Takes in what came of the vendor that was asked: an outcome, or `None`
    /// where the next vendor is to be asked.
    pub fn on_result(&mut self, cache: &mut AnswerCache, result: ProviderResult) -> (r: Option<
        AiOutcome,
    >)
        ensures
            match r {
                Some(outcome) => outcome_after(old(self)@, result@) == Some(outcome@)
                    && final(self)@ == old(self)@,
                None => outcome_after(old(self)@, result@) is None && final(self)@ == (Call {
                    next: old(self)@.next + 1,
                    ..old(self)@
                }),
            },
            final(cache)@ == cache_after(old(cache)@, old(self)@, result@),
    {
        proof {
            use_type_invariant(&*self);
        }
        let count: usize = self.providers.len();
        match result {
            ProviderResult::Content(content) => {
                cache.put(self.key, content.clone());
                Some(AiOutcome::Answer(content))
            },
            ProviderResult::Fatal(why) => Some(AiOutcome::Error(why)),
            ProviderResult::Failover(why) => {
                if self.next + 1 == count {
                    let mut message = "主备厂商均失败：".to_owned();
                    message.append(why.as_str());
                    Some(AiOutcome::Error(message))
                } else {
                    self.next = self.next + 1;
                    None
                }
            },
        }
    }
}

/// A kept answer is found again, and keeping it alters no other answer that is
/// still there.
pub proof fn law_cache_gives_back(
    answers: Map<u64, Seq<char>>,
    key: u64,
    answer: Seq<char>,
    other: u64,
)
    ensures
        remembered(answers, key, answer).contains_key(key),
        remembered(answers, key, answer)[key] == answer,
        other != key && remembered(answers, key, answer).contains_key(other)
            ==> answers.contains_key(other) && remembered(answers, key, answer)[other]
            == answers[other],
{
}

/// What a vendor answers is found again under the key of the question: asked
/// once more, it is settled from the cache.
pub proof fn law_answered_question_is_cached(
    cache: Map<u64, Seq<char>>,
    call: Call,
    content: Seq<char>,
)
    ensures
        outcome_after(call, VendorResult::Content(content)) == Some(Outcome::Answer(content)),
        cache_after(cache, call, VendorResult::Content(content)).contains_key(call.key),
        cache_after(cache, call, VendorResult::Content(content))[call.key] == content,
{
}

/// The cache never holds more than one answer above its limit.
pub proof fn law_cache_is_bounded(answers: Map<u64, Seq<char>>, key: u64, answer: Seq<char>)
    requires
        answers.dom().finite(),
        answers.len() <= CACHE_LIMIT + 1,
    ensures
        remembered(answers, key, answer).dom().finite(),
        remembered(answers, key, answer).len() <= CACHE_LIMIT + 1,
{
    if answers.len() > CACHE_LIMIT {
        assert(remembered(answers, key, answer).dom() =~= set![key]);
    } else {
        assert(remembered(answers, key, answer).dom() =~= answers.dom().insert(key));
    }
}

/// The last attempt is never followed by another, and no wait is skipped
/// before: the second attempt comes after 400 ms, the third after 800.
pub proof fn law_attempts_are_limited(attempt: u32, reply: Reply)
    requires
        attempt < ATTEMPTS,
    ensures
        step_after(attempt, reply) matches VendorStep::RetryAfter(ms) ==> attempt + 1 < ATTEMPTS
            && ms == (if attempt == 0 {
            400int
        } else {
            800int
        }),
{
}

/// The outcome of a question whose vendors come back with `results`, if they
/// settle it.
pub open spec fn settled(call: Call, results: Seq<VendorResult>) -> Option<Outcome>
    decreases results.len(),
{
    if results.len() == 0 {
        None
    } else {
        match outcome_after(call, results[0]) {
            Some(outcome) => Some(outcome),
            None => settled(Call { next: call.next + 1, ..call }, results.skip(1)),
        }
    }
}

/// One result per vendor that is left always settles a question.
pub proof fn law_every_question_is_settled(call: Call, results: Seq<VendorResult>)
    requires
        call.next < call.vendors.len(),
        results.len() >= call.vendors.len() - call.next,
    ensures
        settled(call, results) is Some,
    decreases results.len(),
{
    if outcome_after(call, results[0]) is None {
        law_every_question_is_settled(Call { next: call.next + 1, ..call }, results.skip(1));
    }
}

/// The first vendor that answers gives the answer, whatever the ones before it
/// failed with.
pub proof fn law_first_answer_counts(
    call: Call,
    results: Seq<VendorResult>,
    i: int,
    content: Seq<char>,
)
    requires
        0 <= i < results.len(),
        call.next + i < call.vendors.len(),
        forall|j: int| 0 <= j < i ==> (#[trigger] results[j]) is Failover,
        results[i] == VendorResult::Content(content),
    ensures
        settled(call, results) == Some(Outcome::Answer(content)),
    decreases i,
{
    if i > 0 {
        assert(results[0] is Failover);
        let rest = results.skip(1);
        assert forall|j: int| 0 <= j < i - 1 implies (#[trigger] rest[j]) is Failover by {
            assert(results[j + 1] is Failover);
        }
        law_first_answer_counts(Call { next: call.next + 1, ..call }, rest, i - 1, content);
    }
}

/// A vendor that turns the key down is not tried again, and the next vendor is
/// worth a try; a vendor that turns the question down ends it.
pub proof fn law_refusals_are_final(attempt: u32, code: u16, call: Call, why: Seq<char>)
    ensures
        code == 401 || code == 403 ==> step_after(attempt, Reply::Status(code))
            == VendorStep::Finish(VendorResult::Failover(status_text(code))),
        !ai::failover_worthy(code) ==> step_after(attempt, Reply::Status(code))
            == VendorStep::ReadBody(code),
        outcome_after(call, VendorResult::Fatal(why)) == Some(Outcome::Error(why)),
{
}

/// What goes to a vendor: the rules first, the task with the context second, and
/// the question last; in between every turn of the conversation in its order,
/// under the assistant's name where it was the assistant's and else under the
/// user's.
pub proof fn law_every_turn_keeps_its_speaker(r: ResolvedPrompt, history: Seq<ChatTurn>, j: int)
    ensures
        message_list(r, history).len() == history.len() + 3,
        message_list(r, history)[0] == ("system"@, r.system@),
        message_list(r, history)[1] == ("system"@, r.developer@ + "\n\n"@ + r.user_context@),
        message_list(r, history).last() == ("user"@, r.user@),
        0 <= j < history.len() ==> {
            let message = message_list(r, history)[2 + j];
            &&& message.1 == history[j].content@
            &&& history[j].role@ == "assistant"@ ==> message.0 == "assistant"@
            &&& history[j].role@ != "assistant"@ ==> message.0 == "user"@
        },
{
}

/// One more turn at the end of the conversation is one more message, before the
/// question; all else stays.
pub proof fn law_one_more_turn_is_one_more_message(
    r: ResolvedPrompt,
    history: Seq<ChatTurn>,
    turn: ChatTurn,
)
    ensures
        message_list(r, history.push(turn)) == message_list(r, history).drop_last().push(
            (
                if turn.role@ == "assistant"@ {
                    "assistant"@
                } else {
                    "user"@
                },
                turn.content@,
            ),
        ).push(("user"@, r.user@)),
{
    assert(message_list(r, history.push(turn)) =~= message_list(r, history).drop_last().push(
        (
            if turn.role@ == "assistant"@ {
                "assistant"@
            } else {
                "user"@
            },
            turn.content@,
        ),
    ).push(("user"@, r.user@)));
}

/// Keeping an answer loses no other, as long as there are no more than 500; when
/// there are more, the cache starts afresh with that answer alone.
pub proof fn law_cache_starts_afresh_above_its_limit(
    answers: Map<u64, Seq<char>>,
    key: u64,
    answer: Seq<char>,
    other: u64,
)
    requires
        other != key,
    ensures
        answers.len() <= 500 && answers.contains_key(other) ==> remembered(
            answers,
            key,
            answer,
        ).contains_key(other) && remembered(answers, key, answer)[other] == answers[other],
        answers.len() > 500 ==> !remembered(answers, key, answer).contains_key(other),
{
}

/// What to do after an attempt, for every attempt and every reply: an answer is
/// taken, an unreadable one sends on to the next vendor, and so does a bad key;
/// what no vendor would do better is read to the end; all else is tried three
/// times, after 400 and after 800 milliseconds.
pub proof fn law_steps_after_an_attempt(attempt: u32, json: Json, why: String, code: u16)
    requires
        attempt < 3,
    ensures
        step_after(attempt, Reply::Answered(json)) == VendorStep::Finish(
            VendorResult::Content(reply_text(json@)),
        ),
        step_after(attempt, Reply::Garbled(why)) == VendorStep::Finish(
            VendorResult::Failover("解析失败: "@ + why@),
        ),
        code == 401 || code == 403 ==> step_after(attempt, Reply::Status(code))
            == VendorStep::Finish(
            VendorResult::Failover("HTTP "@ + text::decimal(code as nat)),
        ),
        code == 429 || 500 <= code < 600 ==> step_after(attempt, Reply::Status(code)) == (
        if attempt == 0 {
            VendorStep::RetryAfter(400)
        } else if attempt == 1 {
            VendorStep::RetryAfter(800)
        } else {
            VendorStep::Finish(VendorResult::Failover("HTTP "@ + text::decimal(code as nat)))
        }),
        code != 401 && code != 403 && code != 429 && !(500 <= code < 600) ==> step_after(
            attempt,
            Reply::Status(code),
        ) == VendorStep::ReadBody(code),
        step_after(attempt, Reply::Unreachable(why)) == (if attempt == 0 {
            VendorStep::RetryAfter(400)
        } else if attempt == 1 {
            VendorStep::RetryAfter(800)
        } else {
            VendorStep::Finish(VendorResult::Failover("网络错误: "@ + why@))
        }),
        ATTEMPTS == 3,
        status_text(code) == "HTTP "@ + text::decimal(code as nat),
{
}

/// The text of a reply is the content of the message of its first choice; it is
/// empty where any of these is missing.
pub proof fn law_reply_text_is_the_first_choice(
    reply: JsonTree,
    choices: JsonTree,
    choice: JsonTree,
    message: JsonTree,
)
    ensures
        reply.member("choices"@) == Some(choices) && choices.element(0) == Some(choice)
            && choice.member("message"@) == Some(message) ==> {
            &&& message.text_under("content"@) matches Some(content) ==> reply_text(reply)
                == content
            &&& message.text_under("content"@) is None ==> reply_text(reply).len() == 0
        },
        reply.member("choices"@) is None ==> reply_text(reply).len() == 0,
        reply.member("choices"@) == Some(choices) && choices.element(0) is None ==> reply_text(
            reply,
        ).len() == 0,
        reply.member("choices"@) == Some(choices) && choices.element(0) == Some(choice)
            && choice.member("message"@) is None ==> reply_text(reply).len() == 0,
{
}

/// The request to a vendor names the model and holds every message in its order,
/// and asks for the answer in one piece.
pub proof fn law_chat_request_holds_every_message(
    model: Seq<char>,
    messages: Seq<(Seq<char>, Seq<char>)>,
    i: int,
)
    ensures
        chat_json(model, messages).text_under("model"@) == Some(model),
        chat_json(model, messages).member("stream"@) == Some(JsonTree::Bool(false)),
        ({
            let list = chat_json(model, messages).member_or_null("messages"@);
            &&& list is List
            &&& list.element(messages.len() as int) is None
            &&& 0 <= i < messages.len() ==> {
                &&& list.element(i) matches Some(message) && message.text_under("role"@) == Some(
                    messages[i].0,
                ) && message.text_under("content"@) == Some(messages[i].1)
            }
        }),
{
    reveal_strlit("model");
    reveal_strlit("messages");
    reveal_strlit("stream");
    reveal_strlit("role");
    reveal_strlit("content");
    assert("model"@.len() == 5 && "messages"@.len() == 8 && "stream"@.len() == 6);
    assert("role"@.len() == 4 && "content"@.len() == 7);
    if 0 <= i < messages.len() {
        let list = messages.map_values(|m: (Seq<char>, Seq<char>)| message_json(m));
        assert(list[i] == message_json(messages[i]));
    }
}

/// What comes of a vendor's result: an answer is the outcome, a fatal error is
/// the outcome, and any other error is the outcome only of the last vendor; only
/// an answer is kept.
pub proof fn law_outcomes(call: Call, content: Seq<char>, why: Seq<char>, cache: Map<u64, Seq<char>>)
    ensures
        outcome_after(call, VendorResult::Content(content)) == Some(Outcome::Answer(content)),
        outcome_after(call, VendorResult::Fatal(why)) == Some(Outcome::Error(why)),
        call.next + 1 == call.vendors.len() ==> outcome_after(call, VendorResult::Failover(why))
            == Some(Outcome::Error("主备厂商均失败："@ + why)),
        call.next + 1 < call.vendors.len() ==> outcome_after(call, VendorResult::Failover(why)) is None,
        cache_after(cache, call, VendorResult::Failover(why)) == cache,
        cache_after(cache, call, VendorResult::Fatal(why)) == cache,
{
}

/// The messages of a question: the rules, the task with its context, every turn
/// in its order and under the name of who spoke, and the question.
pub proof fn law_assembled_messages(
    r: &ResolvedPrompt,
    history: &[ChatTurn],
    messages: Vec<Message>,
    j: int,
)
    requires
        call_ensures(assemble_messages, (r, history), messages),
    ensures
        messages@.len() == history@.len() + 3,
        messages@[0].role@ == "system"@ && messages@[0].content@ == r.system@,
        messages@[1].role@ == "system"@ && messages@[1].content@ == r.developer@ + "\n\n"@
            + r.user_context@,
        messages@.last().role@ == "user"@ && messages@.last().content@ == r.user@,
        0 <= j < history@.len() ==> {
            &&& messages@[2 + j].content@ == history@[j].content@
            &&& messages@[2 + j].role@ == "assistant"@ <==> history@[j].role@ == "assistant"@
            &&& messages@[2 + j].role@ == "assistant"@ || messages@[2 + j].role@ == "user"@
        },
{
    reveal_strlit("assistant");
    reveal_strlit("user");
    assert("assistant"@.len() == 9 && "user"@.len() == 4);
    if 0 <= j < history@.len() {
        assert(messages@[2 + j]@.1 == history@[j].content@);
    }
    assert(messages@[0]@.0 == "system"@ && messages@[1]@.0 == "system"@);
    assert(messages@.last()@.0 == "user"@);
}

} // verus!
