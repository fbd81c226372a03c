//! The plans on sale, and taking orders for them.
use crate::json::Json;
use crate::settings::{self, Settings};
use crate::text::{self, str_eq, trim};
use vstd::prelude::*;

verus! {

/// A plan on sale. The price is in cents; no days means for life.
pub struct Plan {
    pub id: &'static str,
    pub name: &'static str,
    pub price_cents: u32,
    pub days: Option<u32>,
    pub tagline: &'static str,
}

/// The meaning of a plan.
#[verifier::ext_equal]
pub struct PlanTerms {
    pub id: Seq<char>,
    pub name: Seq<char>,
    pub price_cents: u32,
    pub days: Option<u32>,
    pub tagline: Seq<char>,
}

impl View for Plan {
    type V = PlanTerms;

    open spec fn view(&self) -> PlanTerms {
        PlanTerms {
            id: self.id@,
            name: self.name@,
            price_cents: self.price_cents,
            days: self.days,
            tagline: self.tagline@,
        }
    }
}

/// The plan that is paid by the month.
pub open spec fn month_plan() -> PlanTerms {
    PlanTerms {
        id: "plus_month"@,
        name: "Plus 月卡"@,
        price_cents: 1800,
        days: Some(30),
        tagline: "无限 LOVEAI + 语音对话 + 生图"@,
    }
}

/// The plan that is paid by the year.
pub open spec fn year_plan() -> PlanTerms {
    PlanTerms {
        id: "plus_year"@,
        name: "Plus 年卡"@,
        price_cents: 9800,
        days: Some(365),
        tagline: "全部 Plus + 优先新功能（≈¥8/月）"@,
    }
}

/// The plan that is paid once.
pub open spec fn life_plan() -> PlanTerms {
    PlanTerms {
        id: "plus_life"@,
        name: "Plus 终身"@,
        price_cents: 19800,
        days: None,
        tagline: "全部 Plus + 永久解锁"@,
    }
}

/// The plans on sale, in the order in which they are shown.
pub open spec fn catalogue() -> Seq<PlanTerms> {
    seq![month_plan(), year_plan(), life_plan()]
}

/// The plan with the given id.
pub open spec fn plan_with(id: Seq<char>) -> Option<PlanTerms> {
    if id == month_plan().id {
        Some(month_plan())
    } else if id == year_plan().id {
        Some(year_plan())
    } else if id == life_plan().id {
        Some(life_plan())
    } else {
        None
    }
}

/// The payment channel that is ready for use: it is named, and the merchant's
/// id and key are set.
pub open spec fn ready_channel(vars: Map<Seq<char>, Seq<char>>) -> Option<Seq<char>> {
    if settings::picked(vars, "PAY_PROVIDER"@) is Some && settings::picked(vars, "PAY_MERCHANT_ID"@) is Some && settings::picked(
        vars,
        "PAY_KEY"@,
    ) is Some {
        Some(text::trimmed(vars["PAY_PROVIDER"@]))
    } else {
        None
    }
}

fn month() -> (plan: Plan)
    ensures
        plan@ == month_plan(),
{
    Plan {
        id: "plus_month",
        name: "Plus 月卡",
        price_cents: 1800,
        days: Some(30),
        tagline: "无限 LOVEAI + 语音对话 + 生图",
    }
}

fn year() -> (plan: Plan)
    ensures
        plan@ == year_plan(),
{
    Plan {
        id: "plus_year",
        name: "Plus 年卡",
        price_cents: 9800,
        days: Some(365),
        tagline: "全部 Plus + 优先新功能（≈¥8/月）",
    }
}

fn life() -> (plan: Plan)
    ensures
        plan@ == life_plan(),
{
    Plan {
        id: "plus_life",
        name: "Plus 终身",
        price_cents: 19800,
        days: None,
        tagline: "全部 Plus + 永久解锁",
    }
}

/// The plans on sale.
pub fn plans() -> (plans: Vec<Plan>)
    ensures
        plans@.map_values(|p: Plan| p@) == catalogue(),
{
    let plans = vec![month(), year(), life()];
    assert(plans@.map_values(|p: Plan| p@) =~= catalogue());
    plans
}

/// The plan with the given id.
pub fn find_plan(id: &str) -> (r: Option<Plan>)
    ensures
        match r {
            Some(plan) => plan_with(id@) == Some(plan@),
            None => plan_with(id@) is None,
        },
{
    if str_eq(id, "plus_month") {
        Some(month())
    } else if str_eq(id, "plus_year") {
        Some(year())
    } else if str_eq(id, "plus_life") {
        Some(life())
    } else {
        None
    }
}

/// The payment channel that is ready for use.
pub fn provider(settings: &Settings) -> (r: Option<String>)
    ensures
        match r {
            Some(channel) => ready_channel(settings@) == Some(channel@),
            None => ready_channel(settings@) is None,
        },
{
    let channel = match settings.var("PAY_PROVIDER") {
        Some(value) => trim(value),
        None => return None,
    };
    if channel.is_empty() {
        return None;
    }
    if settings.pick("PAY_MERCHANT_ID").is_some() && settings.pick("PAY_KEY").is_some() {
        Some(channel.to_owned())
    } else {
        None
    }
}

/// What came of an order.
pub enum OrderOutcome {
    /// No payment channel takes orders.
    NeedsConfig,
    /// The order stands: the channel, its number and how to pay.
    Ready { provider: String, order_id: String, pay_payload: Json },
    /// The order failed.
    Error(String),
}

/// Places an order. No channel takes orders yet, so none is ever claimed to
/// stand.
pub fn create_order(_plan: &Plan, _user: &str) -> (r: OrderOutcome)
    ensures
        r is NeedsConfig,
{
    OrderOutcome::NeedsConfig
}

/// The user and plan that a payment notice vouches for. No channel's notices
/// can be checked yet, so none is believed.
pub fn verify_webhook(_payload: &Json) -> (r: Option<(String, String)>)
    ensures
        r is None,
{
    None
}

/// A plan that is found is on sale and has the id that was asked for.
pub proof fn law_found_plan_is_on_sale(id: Seq<char>)
    ensures
        match plan_with(id) {
            Some(plan) => catalogue().contains(plan) && plan.id == id,
            None => forall|i: int| 0 <= i < catalogue().len() ==> (#[trigger] catalogue()[i]).id
                != id,
        },
{
    assert(catalogue()[0] == month_plan() && catalogue()[1] == year_plan() && catalogue()[2]
        == life_plan());
    match plan_with(id) {
        Some(plan) => {
            assert(catalogue().contains(plan)) by {
                if plan == month_plan() {
                    assert(catalogue()[0] == plan);
                } else if plan == year_plan() {
                    assert(catalogue()[1] == plan);
                } else {
                    assert(catalogue()[2] == plan);
                }
            }
        },
        None => {},
    }
}

/// The plans on sale: a month for 18.00, a year for 98.00, and life for 198.00,
/// each under its id, and there are no others.
pub proof fn law_what_is_on_sale(id: Seq<char>)
    ensures
        plan_with("plus_month"@) matches Some(p) && p.id == "plus_month"@ && p.price_cents == 1800
            && p.days == Some(30u32) && p.name == "Plus 月卡"@ && p.tagline
            == "无限 LOVEAI + 语音对话 + 生图"@,
        plan_with("plus_year"@) matches Some(p) && p.id == "plus_year"@ && p.price_cents == 9800
            && p.days == Some(365u32) && p.name == "Plus 年卡"@ && p.tagline
            == "全部 Plus + 优先新功能（≈¥8/月）"@,
        plan_with("plus_life"@) matches Some(p) && p.id == "plus_life"@ && p.price_cents == 19800
            && p.days is None && p.name == "Plus 终身"@ && p.tagline == "全部 Plus + 永久解锁"@,
        plan_with(id) is Some <==> id == "plus_month"@ || id == "plus_year"@ || id == "plus_life"@,
        catalogue() == seq![
            plan_with("plus_month"@)->0,
            plan_with("plus_year"@)->0,
            plan_with("plus_life"@)->0,
        ],
{
    reveal_strlit("plus_month");
    reveal_strlit("plus_year");
    reveal_strlit("plus_life");
    assert("plus_month"@.len() == 10 && "plus_year"@[5] == 'y' && "plus_life"@[5] == 'l');
    assert(catalogue() =~= seq![
        plan_with("plus_month"@)->0,
        plan_with("plus_year"@)->0,
        plan_with("plus_life"@)->0,
    ]);
}

/// A payment channel is ready where it is named and merchant and key are set,
/// none of them blank; it goes by its name less the white space around it.
pub proof fn law_ready_channels(vars: Map<Seq<char>, Seq<char>>)
    ensures
        ready_channel(vars) is Some <==> settings::picked(vars, "PAY_PROVIDER"@) is Some
            && settings::picked(vars, "PAY_MERCHANT_ID"@) is Some && settings::picked(
            vars,
            "PAY_KEY"@,
        ) is Some,
        ready_channel(vars) matches Some(name) ==> name == text::trimmed(vars["PAY_PROVIDER"@]),
{
}

} // verus!
