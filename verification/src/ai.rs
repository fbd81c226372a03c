//! Asking the language model: which model, which vendor, what is sent, and
//! what becomes of the reply.
use crate::prompt::{ChatTurn, ResolvedPrompt};
use crate::settings::{self, Settings};
use crate::text::{self, str_eq};
use std::collections::hash_map::DefaultHasher;
use std::hash::{Hash, Hasher};
use vstd::prelude::*;

verus! {

pub const ARK_DEFAULT_BASE: &'static str = "https://ark.cn-beijing.volces.com/api/v3";

pub const DEFAULT_MODEL: &'static str = "doubao-pro-32k";

/// What came of asking.
pub enum AiOutcome {
    Answer(String),
    Cached(String),
    NeedsApiKey,
    Error(String),
}

/// The meaning of an outcome.
pub enum Outcome {
    Answer(Seq<char>),
    Cached(Seq<char>),
    NeedsApiKey,
    Error(Seq<char>),
}

impl View for AiOutcome {
    type V = Outcome;

    open spec fn view(&self) -> Outcome {
        match *self {
            AiOutcome::Answer(s) => Outcome::Answer(s@),
            AiOutcome::Cached(s) => Outcome::Cached(s@),
            AiOutcome::NeedsApiKey => Outcome::NeedsApiKey,
            AiOutcome::Error(s) => Outcome::Error(s@),
        }
    }
}

/// The variable that names the model for a scenario.
pub open spec fn model_key_of(scenario: Option<Seq<char>>) -> Seq<char> {
    match scenario {
        Some(s) => if s == "classify"@ || s == "tag"@ {
            "AI_MODEL_LITE"@
        } else if s == "report"@ {
            "AI_MODEL_LONG"@
        } else {
            "AI_MODEL_PRO"@
        },
        None => "AI_MODEL_PRO"@,
    }
}

/// The model for a scenario: the scenario's own, the general one, the default.
pub open spec fn model_of(vars: Map<Seq<char>, Seq<char>>, scenario: Option<Seq<char>>) -> Seq<
    char,
> {
    settings::or_else(
        settings::either(
            settings::picked(vars, model_key_of(scenario)),
            settings::picked(vars, "AI_MODEL"@),
        ),
        DEFAULT_MODEL@,
    )
}

/// A status that another vendor might not answer with: a key that is refused,
/// too many requests, a server error.
pub open spec fn failover_worthy(status: u16) -> bool {
    status == 401 || status == 403 || status == 429 || 500 <= status <= 599
}

/// The variable that names the model for a scenario.
pub fn model_env_key(scenario: Option<&str>) -> (key: &'static str)
    ensures
        key@ == model_key_of(text::opt_str(scenario)),
{
    match scenario {
        Some(s) => if str_eq(s, "classify") || str_eq(s, "tag") {
            "AI_MODEL_LITE"
        } else if str_eq(s, "report") {
            "AI_MODEL_LONG"
        } else {
            "AI_MODEL_PRO"
        },
        None => "AI_MODEL_PRO",
    }
}

/// The model for a scenario.
pub fn resolve_model(settings: &Settings, scenario: Option<&str>) -> (model: String)
    ensures
        model@ == model_of(settings@, text::opt_str(scenario)),
{
    match settings.pick_either(model_env_key(scenario), "AI_MODEL") {
        Some(model) => model,
        None => DEFAULT_MODEL.to_owned(),
    }
}

/// Whether another vendor is worth a try.
pub fn is_failover_worthy(status: u16) -> (r: bool)
    ensures
        r == failover_worthy(status),
{
    status == 401 || status == 403 || status == 429 || (500 <= status && status <= 599)
}

/// A vendor of answers.
pub struct Provider {
    pub base: String,
    pub key: String,
    pub model: String,
}

/// The meaning of a vendor.
pub struct Vendor {
    pub base: Seq<char>,
    pub key: Seq<char>,
    pub model: Seq<char>,
}

impl View for Provider {
    type V = Vendor;

    open spec fn view(&self) -> Vendor {
        Vendor { base: self.base@, key: self.key@, model: self.model@ }
    }
}

/// The meanings of a list of vendors.
pub open spec fn vendors(providers: Seq<Provider>) -> Seq<Vendor> {
    providers.map_values(|p: Provider| p@)
}

/// The first vendor, where it has a key.
pub open spec fn primary_vendor(vars: Map<Seq<char>, Seq<char>>, model: Seq<char>) -> Seq<Vendor> {
    match settings::picked(vars, "AI_API_KEY"@) {
        Some(key) => seq![
            Vendor {
                base: settings::or_else(settings::picked(vars, "AI_BASE_URL"@), ARK_DEFAULT_BASE@),
                key,
                model,
            },
        ],
        None => Seq::empty(),
    }
}

/// The vendor to fall back on, where it has a key. What is not set for it is
/// taken from the first one's settings.
pub open spec fn backup_vendor(vars: Map<Seq<char>, Seq<char>>) -> Seq<Vendor> {
    match settings::picked(vars, "AI_API_KEY_BACKUP"@) {
        Some(key) => seq![
            Vendor {
                base: settings::or_else(
                    settings::either(
                        settings::picked(vars, "AI_BASE_URL_BACKUP"@),
                        settings::picked(vars, "AI_BASE_URL"@),
                    ),
                    ARK_DEFAULT_BASE@,
                ),
                key,
                model: settings::or_else(
                    settings::either(
                        settings::picked(vars, "AI_MODEL_BACKUP"@),
                        settings::picked(vars, "AI_MODEL"@),
                    ),
                    DEFAULT_MODEL@,
                ),
            },
        ],
        None => Seq::empty(),
    }
}

/// The vendors in the order in which they are tried.
pub open spec fn vendor_chain(vars: Map<Seq<char>, Seq<char>>, model: Seq<char>) -> Seq<Vendor> {
    primary_vendor(vars, model) + backup_vendor(vars)
}

/// The vendors in the order in which they are tried.
pub fn build_providers(settings: &Settings, primary_model: &str) -> (r: Vec<Provider>)
    ensures
        vendors(r@) == vendor_chain(settings@, primary_model@),
{
    let mut r: Vec<Provider> = Vec::new();
    if let Some(key) = settings.pick("AI_API_KEY") {
        let base = match settings.pick("AI_BASE_URL") {
            Some(base) => base,
            None => ARK_DEFAULT_BASE.to_owned(),
        };
        r.push(Provider { base, key, model: primary_model.to_owned() });
    }
    assert(vendors(r@) =~= primary_vendor(settings@, primary_model@));
    let ghost first = r@;
    if let Some(key) = settings.pick("AI_API_KEY_BACKUP") {
        let base = match settings.pick_either("AI_BASE_URL_BACKUP", "AI_BASE_URL") {
            Some(base) => base,
            None => ARK_DEFAULT_BASE.to_owned(),
        };
        let model = match settings.pick_either("AI_MODEL_BACKUP", "AI_MODEL") {
            Some(model) => model,
            None => DEFAULT_MODEL.to_owned(),
        };
        r.push(Provider { base, key, model });
    }
    assert(vendors(r@) =~= vendors(first) + backup_vendor(settings@));
    r
}

/// What hashing a text does to the writes that a hasher has seen.
pub uninterp spec fn hashed(writes: Seq<Seq<u8>>, s: Seq<char>) -> Seq<Seq<u8>>;

/// Calls `str::hash` on a `DefaultHasher`. What it writes is a function of the
/// text and of what was written before.
#[verifier::external_body]
fn hash_text(s: &str, state: &mut DefaultHasher)
    ensures
        final(state)@ == hashed(old(state)@, s@),
{
    s.hash(state)
}

/// The writes for a list of texts.
pub open spec fn hashed_all(list: Seq<Seq<char>>) -> Seq<Seq<u8>>
    decreases list.len(),
{
    if list.len() == 0 {
        Seq::empty()
    } else {
        hashed(hashed_all(list.drop_last()), list.last())
    }
}

proof fn lemma_hashed_push(list: Seq<Seq<char>>, s: Seq<char>)
    ensures
        hashed_all(list.push(s)) == hashed(hashed_all(list), s),
{
    assert(list.push(s).drop_last() =~= list);
}

/// The hash of a list of texts.
pub open spec fn digest(list: Seq<Seq<char>>) -> u64 {
    <DefaultHasher as vstd::std_specs::hash::DefaultHasherAdditionalSpecFns>::spec_finish(
        hashed_all(list),
    )
}

/// The roles and contents of a conversation, in turn.
pub open spec fn turn_texts(history: Seq<ChatTurn>) -> Seq<Seq<char>>
    decreases history.len(),
{
    if history.len() == 0 {
        Seq::empty()
    } else {
        turn_texts(history.drop_last()).push(history.last().role@).push(history.last().content@)
    }
}

/// All that decides which answer is asked for.
pub open spec fn key_texts(r: ResolvedPrompt, model: Seq<char>, history: Seq<ChatTurn>) -> Seq<
    Seq<char>,
> {
    seq![r.system@, r.developer@, r.user_context@, r.user@, model] + turn_texts(history)
}

/// The key under which an answer is kept.
pub fn cache_key(r: &ResolvedPrompt, model: &str, history: &[ChatTurn]) -> (key: u64)
    ensures
        key == digest(key_texts(*r, model@, history@)),
{
    let ghost head = seq![r.system@, r.developer@, r.user_context@, r.user@, model@];
    let mut h = DefaultHasher::new();
    hash_text(r.system.as_str(), &mut h);
    hash_text(r.developer.as_str(), &mut h);
    hash_text(r.user_context.as_str(), &mut h);
    hash_text(r.user.as_str(), &mut h);
    hash_text(model, &mut h);
    proof {
        let none = Seq::<Seq<char>>::empty();
        lemma_hashed_push(none, r.system@);
        lemma_hashed_push(none.push(r.system@), r.developer@);
        lemma_hashed_push(none.push(r.system@).push(r.developer@), r.user_context@);
        lemma_hashed_push(none.push(r.system@).push(r.developer@).push(r.user_context@), r.user@);
        let four = none.push(r.system@).push(r.developer@).push(r.user_context@).push(r.user@);
        lemma_hashed_push(four, model@);
        assert(four.push(model@) =~= head);
    }
    let mut i: usize = 0;
    assert(history@.take(0) =~= Seq::<ChatTurn>::empty());
    assert(head + Seq::<Seq<char>>::empty() =~= head);
    while i < history.len()
        invariant
            i <= history@.len(),
            h@ == hashed_all(head + turn_texts(history@.take(i as int))),
        decreases history@.len() - i,
    {
        let ghost before = head + turn_texts(history@.take(i as int));
        hash_text(history[i].role.as_str(), &mut h);
        hash_text(history[i].content.as_str(), &mut h);
        proof {
            let so_far = history@.take(i + 1);
            assert(so_far.drop_last() =~= history@.take(i as int));
            let turn = history@[i as int];
            lemma_hashed_push(before, turn.role@);
            lemma_hashed_push(before.push(turn.role@), turn.content@);
            assert(before.push(turn.role@).push(turn.content@) =~= head + turn_texts(so_far));
        }
        i = i + 1;
    }
    assert(history@.take(history@.len() as int) =~= history@);
    h.finish()
}

proof fn lemma_turn_texts(history: Seq<ChatTurn>)
    ensures
        turn_texts(history).len() == 2 * history.len(),
        forall|i: int|
            0 <= i < history.len() ==> turn_texts(history)[2 * i] == (#[trigger] history[i]).role@
                && turn_texts(history)[2 * i + 1] == history[i].content@,
    decreases history.len(),
{
    if history.len() > 0 {
        let rest = history.drop_last();
        lemma_turn_texts(rest);
        assert forall|i: int| 0 <= i < history.len() implies turn_texts(history)[2 * i] == (
        #[trigger] history[i]).role@ && turn_texts(history)[2 * i + 1] == history[i].content@ by {
            if i < rest.len() {
                assert(rest[i] == history[i]);
            }
        }
    }
}

/// Nothing that goes into a question is left out of the key of its answer:
/// where the same texts are hashed, the prompts, the models and the
/// conversations are the same.
pub proof fn law_cache_key_covers_question(
    a: ResolvedPrompt,
    a_model: Seq<char>,
    a_history: Seq<ChatTurn>,
    b: ResolvedPrompt,
    b_model: Seq<char>,
    b_history: Seq<ChatTurn>,
)
    requires
        key_texts(a, a_model, a_history) == key_texts(b, b_model, b_history),
    ensures
        a.system@ == b.system@,
        a.developer@ == b.developer@,
        a.user_context@ == b.user_context@,
        a.user@ == b.user@,
        a_model == b_model,
        a_history.len() == b_history.len(),
        forall|i: int|
            0 <= i < a_history.len() ==> (#[trigger] a_history[i]).role@ == b_history[i].role@
                && a_history[i].content@ == b_history[i].content@,
{
    let x = key_texts(a, a_model, a_history);
    let y = key_texts(b, b_model, b_history);
    lemma_turn_texts(a_history);
    lemma_turn_texts(b_history);
    assert(x[0] == a.system@ && y[0] == b.system@);
    assert(x[1] == a.developer@ && y[1] == b.developer@);
    assert(x[2] == a.user_context@ && y[2] == b.user_context@);
    assert(x[3] == a.user@ && y[3] == b.user@);
    assert(x[4] == a_model && y[4] == b_model);
    assert(x.len() == 5 + 2 * a_history.len());
    assert(y.len() == 5 + 2 * b_history.len());
    assert forall|i: int| 0 <= i < a_history.len() implies (#[trigger] a_history[i]).role@
        == b_history[i].role@ && a_history[i].content@ == b_history[i].content@ by {
        assert(x[5 + 2 * i] == turn_texts(a_history)[2 * i]);
        assert(y[5 + 2 * i] == turn_texts(b_history)[2 * i]);
        assert(x[5 + 2 * i + 1] == turn_texts(a_history)[2 * i + 1]);
        assert(y[5 + 2 * i + 1] == turn_texts(b_history)[2 * i + 1]);
        assert(b_history[i] == b_history[i]);
    }
}

/// The key is the same whenever the texts are.
pub proof fn law_cache_key_is_stable(
    a: ResolvedPrompt,
    b: ResolvedPrompt,
    model: Seq<char>,
    history: Seq<ChatTurn>,
)
    requires
        a.system@ == b.system@,
        a.developer@ == b.developer@,
        a.user_context@ == b.user_context@,
        a.user@ == b.user@,
    ensures
        digest(key_texts(a, model, history)) == digest(key_texts(b, model, history)),
{
}

/// Which setting names the model: the small one for sorting and tagging, the
/// long one for reports, the large one for all else; and each falls back to the
/// common setting, and that to a model that is always there.
pub proof fn law_models_are_picked_by_scenario(
    vars: Map<Seq<char>, Seq<char>>,
    scenario: Option<Seq<char>>,
)
    ensures
        ({
            let own = match scenario {
                Some(s) => if s == "classify"@ || s == "tag"@ {
                    settings::picked(vars, "AI_MODEL_LITE"@)
                } else if s == "report"@ {
                    settings::picked(vars, "AI_MODEL_LONG"@)
                } else {
                    settings::picked(vars, "AI_MODEL_PRO"@)
                },
                None => settings::picked(vars, "AI_MODEL_PRO"@),
            };
            &&& own matches Some(model) ==> model_of(vars, scenario) == model
            &&& own is None ==> (settings::picked(vars, "AI_MODEL"@) matches Some(model) ==> model_of(
                vars,
                scenario,
            ) == model)
            &&& own is None && settings::picked(vars, "AI_MODEL"@) is None ==> model_of(
                vars,
                scenario,
            ) == "doubao-pro-32k"@
        }),
        scenario == Some("classify"@) || scenario == Some("tag"@) ==> model_key_of(scenario)
            == "AI_MODEL_LITE"@,
        scenario == Some("report"@) ==> model_key_of(scenario) == "AI_MODEL_LONG"@,
        scenario != Some("classify"@) && scenario != Some("tag"@) && scenario != Some("report"@)
            ==> model_key_of(scenario) == "AI_MODEL_PRO"@,
{
    reveal_strlit("classify");
    reveal_strlit("tag");
    reveal_strlit("report");
    assert("classify"@.len() == 8 && "tag"@.len() == 3 && "report"@.len() == 6);
}

/// Another vendor is worth a try after 401, 403, 429 and 500 to 599, and after
/// no other status.
pub proof fn law_failover_statuses(status: u16)
    ensures
        failover_worthy(status) <==> status == 401 || status == 403 || status == 429 || (status
            >= 500 && status < 600),
{
}

/// The vendors that are tried: the first where its key is set, with the model
/// that was picked; then the spare one where its key is set, at its own address
/// or the common one, with its own model or the common one.
pub proof fn law_vendors_are_tried_in_order(vars: Map<Seq<char>, Seq<char>>, model: Seq<char>)
    ensures
        ({
            let chain = vendor_chain(vars, model);
            let first = settings::picked(vars, "AI_API_KEY"@);
            let spare = settings::picked(vars, "AI_API_KEY_BACKUP"@);
            let address = settings::or_else(
                settings::picked(vars, "AI_BASE_URL"@),
                "https://ark.cn-beijing.volces.com/api/v3"@,
            );
            &&& chain.len() == (if first is Some {
                1int
            } else {
                0
            }) + (if spare is Some {
                1int
            } else {
                0
            })
            &&& first matches Some(key) ==> chain[0] == (Vendor { base: address, key, model })
            &&& spare matches Some(key) ==> chain.last() == (Vendor {
                base: settings::or_else(settings::picked(vars, "AI_BASE_URL_BACKUP"@), address),
                key,
                model: settings::or_else(
                    settings::picked(vars, "AI_MODEL_BACKUP"@),
                    settings::or_else(settings::picked(vars, "AI_MODEL"@), "doubao-pro-32k"@),
                ),
            })
        }),
{
}

/// Every text of a question goes into its key, one after another: the four of
/// the prompt, the model, and role and content of every turn.
pub proof fn law_every_text_is_hashed(
    list: Seq<Seq<char>>,
    s: Seq<char>,
    r: ResolvedPrompt,
    model: Seq<char>,
    history: Seq<ChatTurn>,
    turn: ChatTurn,
)
    ensures
        hashed_all(Seq::<Seq<char>>::empty()) == Seq::<Seq<u8>>::empty(),
        hashed_all(list.push(s)) == hashed(hashed_all(list), s),
        digest(list)
            == <DefaultHasher as vstd::std_specs::hash::DefaultHasherAdditionalSpecFns>::spec_finish(
            hashed_all(list),
        ),
        key_texts(r, model, Seq::empty()) == seq![
            r.system@,
            r.developer@,
            r.user_context@,
            r.user@,
            model,
        ],
        key_texts(r, model, history.push(turn)) == key_texts(r, model, history).push(
            turn.role@,
        ).push(turn.content@),
{
    lemma_hashed_push(list, s);
    assert(history.push(turn).drop_last() =~= history);
    assert(key_texts(r, model, Seq::empty()) =~= seq![
        r.system@,
        r.developer@,
        r.user_context@,
        r.user@,
        model,
    ]);
    assert(key_texts(r, model, history.push(turn)) =~= key_texts(r, model, history).push(
        turn.role@,
    ).push(turn.content@));
}

} // verus!
