//! What members see of their membership, and how they come by one.
use crate::access;
use crate::json::{Fields, Json, JsonTree};
use crate::pay::{self, create_order, find_plan, plans, provider, OrderOutcome, Plan, PlanTerms};
use crate::clock::{self, now_secs};
use crate::reply::{self, one_text_json, requested, status_message_json, Response};
use crate::settings::{self, Settings};
use crate::subscription::{self, Membership, SubRecord, SubscriptionStore};
use crate::text::{self, blank, str_eq, trim};
use vstd::prelude::*;

verus! {

/// The plan that every purchase and gift gives.
pub const PLUS: &'static str = "plus";

/// The days of a plan.
pub open spec fn days_tree(days: Option<u32>) -> JsonTree {
    match days {
        Some(d) => JsonTree::Int(d as int),
        None => JsonTree::Null,
    }
}

/// The end of a membership.
pub open spec fn end_tree(expires_at: Option<i64>) -> JsonTree {
    match expires_at {
        Some(end) => JsonTree::Int(end as int),
        None => JsonTree::Null,
    }
}

/// A plan as a client reads it.
pub open spec fn plan_tree(plan: PlanTerms) -> JsonTree {
    JsonTree::Object(
        map![
            "id"@ => JsonTree::Text(plan.id),
            "name"@ => JsonTree::Text(plan.name),
            "price_cents"@ => JsonTree::Int(plan.price_cents as int),
            "days"@ => days_tree(plan.days),
            "tagline"@ => JsonTree::Text(plan.tagline),
        ],
    )
}

/// The plans on sale as a client reads them.
pub open spec fn plans_tree() -> JsonTree {
    JsonTree::List(pay::catalogue().map_values(|p: PlanTerms| plan_tree(p)))
}

fn end_json(expires_at: Option<i64>) -> (json: Json)
    ensures
        json@ == end_tree(expires_at),
{
    match expires_at {
        Some(end) => Json::Signed(end),
        None => Json::Null,
    }
}

fn plan_json(plan: &Plan) -> (json: Json)
    ensures
        json@ == plan_tree(plan@),
{
    let days = match plan.days {
        Some(d) => Json::Unsigned(d as u64),
        None => Json::Null,
    };
    Fields::new().with("id", Json::text(plan.id)).with("name", Json::text(plan.name)).with(
        "price_cents",
        Json::Unsigned(plan.price_cents as u64),
    ).with("days", days).with("tagline", Json::text(plan.tagline)).object()
}

/// The plans on sale as a client reads them.
pub fn plans_json() -> (json: Json)
    ensures
        json@ == plans_tree(),
{
    let plans = plans();
    let mut items: Vec<Json> = Vec::new();
    let mut i: usize = 0;
    while i < plans.len()
        invariant
            i <= plans@.len(),
            items@.len() == i,
            forall|j: int| 0 <= j < i ==> (#[trigger] items@[j])@ == plan_tree(plans@[j]@),
        decreases plans@.len() - i,
    {
        items.push(plan_json(&plans[i]));
        i = i + 1;
    }
    let ghost sold = plans@.map_values(|p: Plan| p@);
    assert forall|j: int| 0 <= j < items@.len() implies (#[trigger] items@[j])@ == plan_tree(
        pay::catalogue()[j],
    ) by {
        assert(sold[j] == plans@[j]@);
    }
    assert(items@.map_values(|j: Json| j@) =~= pay::catalogue().map_values(
        |p: PlanTerms| plan_tree(p),
    ));
    Json::list(items)
}

/// What members see of their membership.
pub open spec fn status_tree(record: Membership, premium: bool, pay_ready: bool) -> JsonTree {
    JsonTree::Object(
        map![
            "status"@ => JsonTree::Text("ok"@),
            "plan"@ => JsonTree::Text(record.plan),
            "premium"@ => JsonTree::Bool(premium),
            "expires_at"@ => end_tree(record.expires_at),
            "pay_ready"@ => JsonTree::Bool(pay_ready),
            "plans"@ => plans_tree(),
        ],
    )
}

/// What `user` sees of the membership at `now`.
pub fn sub_status_at(
    settings: &Settings,
    members: &SubscriptionStore,
    user: &str,
    now: i64,
) -> (json: Json)
    ensures
        json@ == status_tree(
            subscription::status_of(members@, user@),
            subscription::status_of(members@, user@).premium(now),
            pay::ready_channel(settings@) is Some,
        ),
{
    let record = members.status(user);
    let premium = members.is_premium_at(user, now);
    Fields::new().with("status", Json::text("ok")).with(
        "plan",
        Json::text(record.plan.as_str()),
    ).with("premium", Json::Bool(premium)).with("expires_at", end_json(record.expires_at)).with(
        "pay_ready",
        Json::Bool(provider(settings).is_some()),
    ).with("plans", plans_json()).object()
}

/// What `user` sees of the membership by the clock.
pub fn sub_status(settings: &Settings, members: &SubscriptionStore, user: &str) -> (json: Json)
    ensures
        exists|now: i64|
            clock::was_read(now) && json@ == status_tree(
                subscription::status_of(members@, user@),
                #[trigger] subscription::status_of(members@, user@).premium(now),
                pay::ready_channel(settings@) is Some,
            ),
{
    let now: i64 = now_secs();
    sub_status_at(settings, members, user, now)
}

/// The reply to an order.
pub open spec fn order_tree(plan: PlanTerms, outcome: OrderOutcome) -> JsonTree {
    match outcome {
        OrderOutcome::NeedsConfig => JsonTree::Object(
            map![
                "status"@ => JsonTree::Text("needs_config"@),
                "message"@ => JsonTree::Text("支付即将开通：商户号配置好后即可购买。"@),
                "plan"@ => JsonTree::Text(plan.id),
                "price_cents"@ => JsonTree::Int(plan.price_cents as int),
            ],
        ),
        OrderOutcome::Ready { provider, order_id, pay_payload } => JsonTree::Object(
            map![
                "status"@ => JsonTree::Text("ok"@),
                "provider"@ => JsonTree::Text(provider@),
                "order_id"@ => JsonTree::Text(order_id@),
                "pay"@ => pay_payload@,
            ],
        ),
        OrderOutcome::Error(message) => reply::status_message("error"@, message@),
    }
}

/// The reply to an order.
pub fn order_reply(plan: &Plan, outcome: OrderOutcome) -> (json: Json)
    ensures
        json@ == order_tree(plan@, outcome),
{
    match outcome {
        OrderOutcome::NeedsConfig => Fields::new().with(
            "status",
            Json::text("needs_config"),
        ).with("message", Json::text("支付即将开通：商户号配置好后即可购买。")).with(
            "plan",
            Json::text(plan.id),
        ).with("price_cents", Json::Unsigned(plan.price_cents as u64)).object(),
        OrderOutcome::Ready { provider, order_id, pay_payload } => Fields::new().with(
            "status",
            Json::text("ok"),
        ).with("provider", Json::text(provider.as_str())).with(
            "order_id",
            Json::text(order_id.as_str()),
        ).with("pay", pay_payload).object(),
        OrderOutcome::Error(message) => status_message_json("error", message.as_str()),
    }
}

/// Takes an order for the plan that a request names.
pub fn sub_order(request: &Json, user: &str) -> (json: Json)
    ensures
        json@ == match pay::plan_with(
            text::trimmed(reply::text_or_empty(request@, "plan"@)),
        ) {
            Some(plan) => order_tree(plan, OrderOutcome::NeedsConfig),
            None => reply::status_message("error"@, "未知套餐"@),
        },
{
    match find_plan(trim(requested(request, "plan"))) {
        Some(plan) => {
            let outcome = create_order(&plan, user);
            order_reply(&plan, outcome)
        },
        None => status_message_json("error", "未知套餐"),
    }
}

/// The name under which a payment event is noted: its own, or that of the user
/// and the plan.
pub open spec fn event_name(
    event: Option<Seq<char>>,
    user: Seq<char>,
    plan: Seq<char>,
) -> Seq<char> {
    settings::or_else(event, user + ":"@ + plan)
}

/// What a payment notice says, where it is believed: who paid for what, and the
/// name of the event if it has one.
pub struct Payment {
    pub user: String,
    pub plan: String,
    pub event: Option<String>,
}

/// The meaning of a payment notice.
pub struct Paid {
    pub user: Seq<char>,
    pub plan: Seq<char>,
    pub event: Option<Seq<char>>,
}

impl View for Payment {
    type V = Paid;

    open spec fn view(&self) -> Paid {
        Paid { user: self.user@, plan: self.plan@, event: text::opt_text(self.event) }
    }
}

/// The payment notice extends a membership: it is for a plan on sale, and was
/// not acted upon before.
pub open spec fn extends(payment: Paid, processed: Set<Seq<char>>) -> bool {
    pay::plan_with(payment.plan) is Some && !processed.contains(
        event_name(payment.event, payment.user, payment.plan),
    )
}

/// The days that a payment notice gives.
pub open spec fn paid_days(payment: Paid) -> Option<u32> {
    pay::plan_with(payment.plan)->0.days
}

/// The memberships after a payment notice at `now`.
pub open spec fn paid_records(
    records: Map<Seq<char>, Membership>,
    processed: Set<Seq<char>>,
    payment: Paid,
    now: i64,
) -> Map<Seq<char>, Membership> {
    if extends(payment, processed) && subscription::end_fits(
        records,
        payment.user,
        paid_days(payment),
        now,
    ) {
        records.insert(
            payment.user,
            subscription::activated(records, payment.user, PLUS@, paid_days(payment), now),
        )
    } else {
        records
    }
}

/// The events that were acted upon after a payment notice.
pub open spec fn paid_events(processed: Set<Seq<char>>, payment: Paid) -> Set<Seq<char>> {
    if pay::plan_with(payment.plan) is Some {
        processed.insert(event_name(payment.event, payment.user, payment.plan))
    } else {
        processed
    }
}

/// The status of the reply to a payment notice.
pub open spec fn notice_status(payment: Option<Paid>) -> u16 {
    match payment {
        Some(p) => if pay::plan_with(p.plan) is Some {
            200
        } else {
            400
        },
        None => 400,
    }
}

/// The body of the reply to a payment notice.
pub open spec fn notice_body(payment: Option<Paid>) -> JsonTree {
    match payment {
        Some(p) => if pay::plan_with(p.plan) is Some {
            reply::one_text("status"@, "ok"@)
        } else {
            reply::status_message("error"@, "未知套餐"@)
        },
        None => reply::status_message("error"@, "验签失败或未配置"@),
    }
}

/// The meaning of a payment notice that may not be believed.
pub open spec fn opt_paid(payment: Option<Payment>) -> Option<Paid> {
    match payment {
        Some(p) => Some(p@),
        None => None,
    }
}

/// What a payment notice at `now` leaves behind.
pub open spec fn noticed_at(
    records: Map<Seq<char>, Membership>,
    processed: Set<Seq<char>>,
    payment: Option<Paid>,
    now: i64,
    new_records: Map<Seq<char>, Membership>,
) -> bool {
    new_records == match payment {
        Some(p) => paid_records(records, processed, p, now),
        None => records,
    }
}

/// Acts upon a payment notice at `now`. `payment` is what the notice says, or
/// `None` where it is not believed. A notice that comes again changes nothing;
/// nor does one whose end no `i64` can hold.
pub fn sub_webhook_at(
    members: &mut SubscriptionStore,
    payment: Option<Payment>,
    now: i64,
) -> (r: Response)
    ensures
        r.status == notice_status(opt_paid(payment)),
        r.body@ == notice_body(opt_paid(payment)),
        noticed_at(
            old(members)@,
            old(members).processed(),
            opt_paid(payment),
            now,
            final(members)@,
        ),
        final(members).processed() == match opt_paid(payment) {
            Some(p) => paid_events(old(members).processed(), p),
            None => old(members).processed(),
        },
{
    let payment = match payment {
        Some(payment) => payment,
        None => return Response {
            status: 400,
            body: status_message_json("error", "验签失败或未配置"),
        },
    };
    let ghost paid = payment@;
    let plan = match find_plan(payment.plan.as_str()) {
        Some(plan) => plan,
        None => return Response { status: 400, body: status_message_json("error", "未知套餐") },
    };
    let event = match payment.event {
        Some(event) => event,
        None => {
            let mut event = payment.user.clone();
            event.append(":");
            event.append(payment.plan.as_str());
            event
        },
    };
    assert(event@ == event_name(paid.event, paid.user, paid.plan));
    if members.mark_processed(event.as_str()) {
        let _record = members.try_activate_at(payment.user.as_str(), PLUS, plan.days, now);
    }
    Response { status: 200, body: one_text_json("status", "ok") }
}

/// Acts upon a payment notice by the clock.
pub fn sub_webhook(members: &mut SubscriptionStore, payment: Option<Payment>) -> (r: Response)
    ensures
        r.status == notice_status(opt_paid(payment)),
        r.body@ == notice_body(opt_paid(payment)),
        exists|now: i64|
            clock::was_read(now) && #[trigger] noticed_at(
                old(members)@,
                old(members).processed(),
                opt_paid(payment),
                now,
                final(members)@,
            ),
        final(members).processed() == match opt_paid(payment) {
            Some(p) => paid_events(old(members).processed(), p),
            None => old(members).processed(),
        },
{
    let now: i64 = now_secs();
    sub_webhook_at(members, payment, now)
}

/// The header shows the administrator's token, and there is one.
pub open spec fn is_admin(vars: Map<Seq<char>, Seq<char>>, header: Option<Seq<char>>) -> bool {
    match settings::picked(vars, "ADMIN_TOKEN"@) {
        Some(token) => settings::or_else(header, ""@) == token,
        None => false,
    }
}

/// Whom a gift is for: the user whom the request names, else the one whom its
/// header names.
pub open spec fn gift_user(request: JsonTree, header: Option<Seq<char>>) -> Seq<char> {
    match request.text_under("user"@) {
        Some(user) => if text::is_blank(user) {
            access::named_user(header)
        } else {
            user
        },
        None => access::named_user(header),
    }
}

/// The days of a gift: those that the request gives, less what a `u32` cannot
/// hold, else those of the plan that it names, else 30.
pub open spec fn gift_days(request: JsonTree) -> Option<u32> {
    let days = match request.member("days"@) {
        Some(days) => days.natural(),
        None => None,
    };
    match days {
        Some(d) => Some((d % 0x1_0000_0000) as u32),
        None => match pay::plan_with(
            text::trimmed(settings::or_else(request.text_under("plan"@), "plus_month"@)),
        ) {
            Some(plan) => plan.days,
            None => Some(30),
        },
    }
}

/// Whether the header shows the administrator's token.
pub fn admin(settings: &Settings, header: Option<&str>) -> (r: bool)
    ensures
        r == is_admin(settings@, text::opt_str(header)),
{
    let provided = match header {
        Some(token) => token,
        None => "",
    };
    match settings.pick("ADMIN_TOKEN") {
        Some(token) => str_eq(provided, token.as_str()),
        None => false,
    }
}

/// Whom a gift is for.
pub fn grant_user(request: &Json, header: Option<&str>) -> (user: String)
    ensures
        user@ == gift_user(request@, text::opt_str(header)),
{
    match request.text_under("user") {
        Some(user) => if blank(user) {
            access::user_from(header)
        } else {
            user.to_owned()
        },
        None => access::user_from(header),
    }
}

/// The days of a gift.
pub fn grant_days(request: &Json) -> (days: Option<u32>)
    ensures
        days == gift_days(request@),
{
    if let Some(days) = request.get("days") {
        if let Some(d) = days.as_natural() {
            return Some((d % 0x1_0000_0000) as u32);
        }
    }
    let plan = match request.text_under("plan") {
        Some(plan) => plan,
        None => "plus_month",
    };
    match find_plan(trim(plan)) {
        Some(plan) => plan.days,
        None => Some(30),
    }
}

/// The reply to a gift.
pub open spec fn grant_tree(user: Seq<char>, record: Membership) -> JsonTree {
    JsonTree::Object(
        map![
            "status"@ => JsonTree::Text("ok"@),
            "user"@ => JsonTree::Text(user),
            "plan"@ => JsonTree::Text(record.plan),
            "expires_at"@ => end_tree(record.expires_at),
        ],
    )
}

/// The reply to a gift.
pub fn grant_reply(user: &str, record: &SubRecord) -> (json: Json)
    ensures
        json@ == grant_tree(user@, record@),
{
    Fields::new().with("status", Json::text("ok")).with("user", Json::text(user)).with(
        "plan",
        Json::text(record.plan.as_str()),
    ).with("expires_at", end_json(record.expires_at)).object()
}

/// What a gift at `now` returns and leaves behind. Without the administrator's
/// token there is none; nor is there one whose end no `i64` can hold.
pub open spec fn granted_at(
    admin: bool,
    records: Map<Seq<char>, Membership>,
    user: Seq<char>,
    days: Option<u32>,
    now: i64,
    r: Result<Json, u16>,
    new_records: Map<Seq<char>, Membership>,
) -> bool {
    if !admin {
        r == Err::<Json, u16>(403) && new_records == records
    } else if !subscription::end_fits(records, user, days, now) {
        r == Err::<Json, u16>(500) && new_records == records
    } else {
        let record = subscription::activated(records, user, PLUS@, days, now);
        &&& r matches Ok(json) && json@ == grant_tree(user, record)
        &&& new_records == records.insert(user, record)
    }
}

/// Gives a membership by hand at `now`.
pub fn sub_grant_at(
    settings: &Settings,
    members: &mut SubscriptionStore,
    admin_header: Option<&str>,
    user_header: Option<&str>,
    request: &Json,
    now: i64,
) -> (r: Result<Json, u16>)
    ensures
        granted_at(
            is_admin(settings@, text::opt_str(admin_header)),
            old(members)@,
            gift_user(request@, text::opt_str(user_header)),
            gift_days(request@),
            now,
            r,
            final(members)@,
        ),
        final(members).processed() == old(members).processed(),
{
    if !admin(settings, admin_header) {
        return Err(403);
    }
    let target = grant_user(request, user_header);
    match members.try_activate_at(target.as_str(), PLUS, grant_days(request), now) {
        Some(record) => Ok(grant_reply(target.as_str(), &record)),
        None => Err(500),
    }
}

/// Gives a membership by hand, by the clock.
pub fn sub_grant(
    settings: &Settings,
    members: &mut SubscriptionStore,
    admin_header: Option<&str>,
    user_header: Option<&str>,
    request: &Json,
) -> (r: Result<Json, u16>)
    ensures
        exists|now: i64|
            clock::was_read(now) && #[trigger] granted_at(
                is_admin(settings@, text::opt_str(admin_header)),
                old(members)@,
                gift_user(request@, text::opt_str(user_header)),
                gift_days(request@),
                now,
                r,
                final(members)@,
            ),
        final(members).processed() == old(members).processed(),
{
    let now: i64 = now_secs();
    sub_grant_at(settings, members, admin_header, user_header, request, now)
}

/// A payment notice that comes again changes nothing, whenever that is.
pub proof fn law_notice_counts_once(
    records: Map<Seq<char>, Membership>,
    processed: Set<Seq<char>>,
    payment: Paid,
    later: i64,
)
    ensures
        paid_records(records, paid_events(processed, payment), payment, later) == records,
        paid_events(paid_events(processed, payment), payment) == paid_events(processed, payment),
{
    assert(paid_events(paid_events(processed, payment), payment) =~= paid_events(
        processed,
        payment,
    ));
}

/// A payment notice for a plan on sale that was not acted upon makes its user a
/// paying member.
pub proof fn law_notice_makes_a_member(
    records: Map<Seq<char>, Membership>,
    processed: Set<Seq<char>>,
    payment: Paid,
    now: i64,
)
    requires
        extends(payment, processed),
        subscription::end_fits(records, payment.user, paid_days(payment), now),
    ensures
        subscription::status_of(
            paid_records(records, processed, payment, now),
            payment.user,
        ).premium(now),
{
    reveal_strlit("plus");
    reveal_strlit("free");
    assert("plus"@[0] != "free"@[0]);
}

/// A payment notice touches nobody's membership but its user's.
pub proof fn law_notice_is_personal(
    records: Map<Seq<char>, Membership>,
    processed: Set<Seq<char>>,
    payment: Paid,
    now: i64,
    other: Seq<char>,
)
    requires
        other != payment.user,
    ensures
        subscription::status_of(paid_records(records, processed, payment, now), other)
            == subscription::status_of(records, other),
{
}

/// Where no administrator's token is set, no header shows it.
pub proof fn law_no_token_no_admin(
    vars: Map<Seq<char>, Seq<char>>,
    header: Option<Seq<char>>,
)
    requires
        settings::picked(vars, "ADMIN_TOKEN"@) is None,
    ensures
        !is_admin(vars, header),
{
}

/// A notice that is not believed changes no membership and no event, and is
/// turned down.
pub proof fn law_unbelieved_notice_changes_nothing(
    records: Map<Seq<char>, Membership>,
    processed: Set<Seq<char>>,
    now: i64,
    new_records: Map<Seq<char>, Membership>,
)
    requires
        noticed_at(records, processed, None, now, new_records),
    ensures
        new_records == records,
        notice_status(None) == 400,
{
}

/// What a client reads of a plan: its id, its name, its price, its line, and its
/// days or, for life, null.
pub proof fn law_plans_are_shown(plan: PlanTerms, days: u32)
    ensures
        plan_tree(plan).text_under("id"@) == Some(plan.id),
        plan_tree(plan).text_under("name"@) == Some(plan.name),
        plan_tree(plan).member("price_cents"@) == Some(JsonTree::Int(plan.price_cents as int)),
        plan_tree(plan).text_under("tagline"@) == Some(plan.tagline),
        plan.days is None ==> plan_tree(plan).member("days"@) == Some(JsonTree::Null),
        plan.days == Some(days) ==> plan_tree(plan).member("days"@) == Some(
            JsonTree::Int(days as int),
        ),
{
    reveal_strlit("id");
    reveal_strlit("name");
    reveal_strlit("price_cents");
    reveal_strlit("days");
    reveal_strlit("tagline");
    assert("id"@.len() == 2 && "name"@.len() == 4 && "price_cents"@.len() == 11 && "days"@.len()
        == 4 && "tagline"@.len() == 7);
    assert("name"@[0] == 'n' && "days"@[0] == 'd');
}

/// A client reads all three plans, from the shortest to the longest.
pub proof fn law_all_plans_are_shown()
    ensures
        plans_tree() matches JsonTree::List(shown) && shown.len() == 3,
        plans_tree().element(0) == Some(plan_tree(pay::plan_with("plus_month"@)->0)),
        plans_tree().element(1) == Some(plan_tree(pay::plan_with("plus_year"@)->0)),
        plans_tree().element(2) == Some(plan_tree(pay::plan_with("plus_life"@)->0)),
{
    pay::law_what_is_on_sale("plus_month"@);
}

proof fn lemma_member_keys()
    ensures
        "status"@ != "plan"@,
        "status"@ != "premium"@,
        "status"@ != "expires_at"@,
        "status"@ != "pay_ready"@,
        "status"@ != "plans"@,
        "status"@ != "user"@,
        "plan"@ != "premium"@,
        "plan"@ != "expires_at"@,
        "plan"@ != "pay_ready"@,
        "plan"@ != "plans"@,
        "plan"@ != "user"@,
        "premium"@ != "expires_at"@,
        "premium"@ != "pay_ready"@,
        "premium"@ != "plans"@,
        "expires_at"@ != "pay_ready"@,
        "expires_at"@ != "plans"@,
        "expires_at"@ != "user"@,
        "pay_ready"@ != "plans"@,
{
    reveal_strlit("status");
    reveal_strlit("plan");
    reveal_strlit("premium");
    reveal_strlit("expires_at");
    reveal_strlit("pay_ready");
    reveal_strlit("plans");
    reveal_strlit("user");
    assert("status"@.len() == 6 && "plan"@.len() == 4 && "premium"@.len() == 7
        && "expires_at"@.len() == 10 && "pay_ready"@.len() == 9 && "plans"@.len() == 5
        && "user"@.len() == 4);
    assert("plan"@[0] == 'p' && "user"@[0] == 'u');
}

/// What members see: their plan, whether it is premium, its end or, without one,
/// null, whether there is a way to pay, and the plans on sale.
pub proof fn law_memberships_are_shown(record: Membership, premium: bool, ready: bool, end: i64)
    ensures
        ({
            let shown = status_tree(record, premium, ready);
            &&& shown.text_under("status"@) == Some("ok"@)
            &&& shown.text_under("plan"@) == Some(record.plan)
            &&& shown.member("premium"@) == Some(JsonTree::Bool(premium))
            &&& record.expires_at is None ==> shown.member("expires_at"@) == Some(JsonTree::Null)
            &&& record.expires_at == Some(end) ==> shown.member("expires_at"@) == Some(
                JsonTree::Int(end as int),
            )
            &&& shown.member("pay_ready"@) == Some(JsonTree::Bool(ready))
            &&& shown.member("plans"@) == Some(plans_tree())
        }),
{
    lemma_member_keys();
}

/// Members whose plan is not `free` and does not end by what the clock was read
/// to say see themselves as premium, and nobody else does.
pub proof fn law_members_see_themselves_as_premium(
    settings: &Settings,
    members: &SubscriptionStore,
    user: &str,
    json: Json,
)
    requires
        call_ensures(sub_status, (settings, members, user), json),
    ensures
        exists|now: i64|
            #![trigger clock::was_read(now)]
            clock::was_read(now) && json@.member("premium"@) == Some(
                JsonTree::Bool(
                    members@.contains_key(user@) && members@[user@].plan != "free"@ && (
                    members@[user@].expires_at is None || members@[user@].expires_at->0 > now),
                ),
            ),
        json@.text_under("plan"@) == Some(
            if members@.contains_key(user@) {
                members@[user@].plan
            } else {
                "free"@
            },
        ),
        json@.member("pay_ready"@) == Some(JsonTree::Bool(pay::ready_channel(settings@) is Some)),
{
    lemma_member_keys();
    let now = choose|now: i64|
        clock::was_read(now) && json@ == status_tree(
            subscription::status_of(members@, user@),
            #[trigger] subscription::status_of(members@, user@).premium(now),
            pay::ready_channel(settings@) is Some,
        );
    assert(clock::was_read(now));
}

/// The reply to an order: what the plan is and costs, where payment is not set
/// up; where to pay, where it is; and the error, where there is one.
pub proof fn law_orders_are_replied_to(
    plan: PlanTerms,
    provider: String,
    order_id: String,
    pay_payload: Json,
    why: String,
)
    ensures
        ({
            let unset = order_tree(plan, OrderOutcome::NeedsConfig);
            &&& unset.text_under("status"@) == Some("needs_config"@)
            &&& unset.text_under("message"@) == Some("支付即将开通：商户号配置好后即可购买。"@)
            &&& unset.text_under("plan"@) == Some(plan.id)
            &&& unset.member("price_cents"@) == Some(JsonTree::Int(plan.price_cents as int))
        }),
        ({
            let ready = order_tree(plan, OrderOutcome::Ready { provider, order_id, pay_payload });
            &&& ready.text_under("status"@) == Some("ok"@)
            &&& ready.text_under("provider"@) == Some(provider@)
            &&& ready.text_under("order_id"@) == Some(order_id@)
            &&& ready.member("pay"@) == Some(pay_payload@)
        }),
        order_tree(plan, OrderOutcome::Error(why)).text_under("status"@) == Some("error"@),
        order_tree(plan, OrderOutcome::Error(why)).text_under("message"@) == Some(why@),
{
    reveal_strlit("status");
    reveal_strlit("message");
    reveal_strlit("plan");
    reveal_strlit("price_cents");
    reveal_strlit("provider");
    reveal_strlit("order_id");
    reveal_strlit("pay");
    assert("status"@.len() == 6 && "message"@.len() == 7 && "plan"@.len() == 4
        && "price_cents"@.len() == 11 && "provider"@.len() == 8 && "order_id"@.len() == 8
        && "pay"@.len() == 3);
    assert("provider"@[0] == 'p' && "order_id"@[0] == 'o');
}

/// A payment event goes by its own name, or by user and plan with a colon between
/// them.
pub proof fn law_events_are_named(event: Seq<char>, user: Seq<char>, plan: Seq<char>)
    ensures
        event_name(Some(event), user, plan) == event,
        event_name(None, user, plan) == user + seq![':'] + plan,
{
    reveal_strlit(":");
    assert(":"@ =~= seq![':']);
}

/// What a payment notice leaves behind: the plan `plus` for its user, for the days
/// of the plan that was paid for, where that is on sale, was not acted upon
/// before, and has an end that can be kept; and else nothing new.
pub proof fn law_payments_are_honoured(
    records: Map<Seq<char>, Membership>,
    processed: Set<Seq<char>>,
    payment: Paid,
    now: i64,
    new_records: Map<Seq<char>, Membership>,
)
    requires
        noticed_at(records, processed, Some(payment), now, new_records),
    ensures
        ({
            let sold = pay::plan_with(payment.plan);
            let event = event_name(payment.event, payment.user, payment.plan);
            if sold is Some && !processed.contains(event) && subscription::end_fits(
                records,
                payment.user,
                sold->0.days,
                now,
            ) {
                &&& new_records.contains_key(payment.user)
                &&& new_records[payment.user].plan == "plus"@
                &&& new_records[payment.user] == subscription::activated(
                    records,
                    payment.user,
                    "plus"@,
                    sold->0.days,
                    now,
                )
                &&& new_records.remove(payment.user) == records.remove(payment.user)
            } else {
                new_records == records
            }
        }),
        pay::plan_with(payment.plan) is Some ==> paid_events(processed, payment)
            == processed.insert(event_name(payment.event, payment.user, payment.plan)),
        pay::plan_with(payment.plan) is None ==> paid_events(processed, payment) == processed,
{
    assert(new_records.remove(payment.user) =~= records.remove(payment.user));
}

/// How a payment notice is replied to: 200 where it is believed and for a plan on
/// sale, and else 400 with the reason.
pub proof fn law_notices_are_replied_to(payment: Paid)
    ensures
        pay::plan_with(payment.plan) is Some ==> notice_status(Some(payment)) == 200
            && notice_body(Some(payment)).text_under("status"@) == Some("ok"@),
        pay::plan_with(payment.plan) is None ==> notice_status(Some(payment)) == 400
            && notice_body(Some(payment)).text_under("status"@) == Some("error"@) && notice_body(
            Some(payment),
        ).text_under("message"@) == Some("未知套餐"@),
        notice_status(None) == 400,
        notice_body(None).text_under("status"@) == Some("error"@),
        notice_body(None).text_under("message"@) == Some("验签失败或未配置"@),
{
    reveal_strlit("status");
    reveal_strlit("message");
    assert("status"@.len() == 6 && "message"@.len() == 7);
}

/// The administrator is whoever shows the token that is set, letter for letter; a
/// blank token is none.
pub proof fn law_who_is_administrator(
    vars: Map<Seq<char>, Seq<char>>,
    header: Option<Seq<char>>,
)
    ensures
        is_admin(vars, header) <==> header is Some && vars.contains_key("ADMIN_TOKEN"@)
            && !text::is_blank(vars["ADMIN_TOKEN"@]) && header->0 == vars["ADMIN_TOKEN"@],
{
    reveal_strlit("");
    if header is None && vars.contains_key("ADMIN_TOKEN"@) && vars["ADMIN_TOKEN"@] == ""@ {
        assert(text::all_white(vars["ADMIN_TOKEN"@]));
        text::law_trimming_takes_white_space(vars["ADMIN_TOKEN"@]);
    }
}

/// A gift is for the user whom the request names, or else for whom its header
/// names.
pub proof fn law_whom_gifts_are_for(request: JsonTree, header: Option<Seq<char>>, user: Seq<char>)
    ensures
        request.text_under("user"@) == Some(user) && !text::is_blank(user) ==> gift_user(
            request,
            header,
        ) == user,
        request.text_under("user"@) is None || text::is_blank(request.text_under("user"@)->0)
            ==> gift_user(request, header) == access::named_user(header),
{
}

/// A request without its days.
pub open spec fn without_days(request: JsonTree) -> JsonTree {
    match request {
        JsonTree::Object(members) => JsonTree::Object(members.remove("days"@)),
        other => other,
    }
}

/// A gift is for the days that the request gives, in 32 bits; without days, for
/// those of the plan that it names, a month where it names none or one that is
/// not on sale.
pub proof fn law_how_long_gifts_last(request: JsonTree, n: int)
    ensures
        request.member("days"@) == Some(JsonTree::Int(n)) && 0 <= n <= u32::MAX ==> gift_days(
            request,
        ) == Some(n as u32),
        request.member("days"@) == Some(JsonTree::Int(n)) && u32::MAX < n <= u64::MAX ==> gift_days(
            request,
        ) == Some((n % 0x1_0000_0000) as u32),
        request.member("days"@) is None && request.text_under("plan"@) is None ==> gift_days(
            request,
        ) == Some(30u32),
        request.member("days"@) is None && request.text_under("plan"@) is Some ==> {
            let named = text::trimmed(request.text_under("plan"@)->0);
            &&& named == "plus_month"@ ==> gift_days(request) == Some(30u32)
            &&& named == "plus_year"@ ==> gift_days(request) == Some(365u32)
            &&& named == "plus_life"@ ==> gift_days(request) is None
            &&& named != "plus_month"@ && named != "plus_year"@ && named != "plus_life"@
                ==> gift_days(request) == Some(30u32)
        },
        request.member("days"@) matches Some(days) && days.natural() is None ==> gift_days(request)
            == gift_days(without_days(request)),
{
    pay::law_what_is_on_sale("plus_month"@);
    reveal_strlit("plus_month");
    let none = Seq::<char>::empty();
    assert("plus_month"@[0] == 'p' && "plus_month"@.last() == 'h');
    assert(!text::is_white_space('p') && !text::is_white_space('h'));
    text::lemma_padded(none, "plus_month"@, none);
    reveal_strlit("days");
    reveal_strlit("plan");
    assert("days"@[0] == 'd' && "plan"@[0] == 'p');
    if request.text_under("plan"@) is Some {
        pay::law_what_is_on_sale(text::trimmed(request.text_under("plan"@)->0));
    }
}

/// The reply to a gift: who has what plan until when, or, without an end, null.
pub proof fn law_gifts_are_replied_to(user: Seq<char>, record: Membership, end: i64)
    ensures
        grant_tree(user, record).text_under("status"@) == Some("ok"@),
        grant_tree(user, record).text_under("user"@) == Some(user),
        grant_tree(user, record).text_under("plan"@) == Some(record.plan),
        record.expires_at is None ==> grant_tree(user, record).member("expires_at"@) == Some(
            JsonTree::Null,
        ),
        record.expires_at == Some(end) ==> grant_tree(user, record).member("expires_at"@) == Some(
            JsonTree::Int(end as int),
        ),
{
    lemma_member_keys();
}

/// A gift comes from the administrator alone: without the token it is refused
/// with 403 and changes nothing; with it, its user has the plan `plus`, and nobody
/// else's membership changes.
pub proof fn law_gifts_come_from_the_administrator(
    admin: bool,
    records: Map<Seq<char>, Membership>,
    user: Seq<char>,
    days: Option<u32>,
    now: i64,
    r: Result<Json, u16>,
    new_records: Map<Seq<char>, Membership>,
)
    requires
        granted_at(admin, records, user, days, now, r, new_records),
    ensures
        !admin ==> r is Err && r->Err_0 == 403 && new_records == records,
        r is Ok <==> admin && subscription::end_fits(records, user, days, now),
        r is Err ==> new_records == records,
        r is Err && admin ==> r->Err_0 == 500,
        r matches Ok(json) ==> {
            &&& new_records.contains_key(user)
            &&& new_records[user] == subscription::activated(records, user, "plus"@, days, now)
            &&& new_records[user].plan == "plus"@
            &&& new_records.remove(user) == records.remove(user)
            &&& json@ == grant_tree(user, new_records[user])
        },
{
    assert(new_records.remove(user) =~= records.remove(user));
}

/// An order for a plan on sale, whatever the white space around its id, is told
/// what the plan is and costs; any other is told that there is no such plan.
pub proof fn law_orders_name_a_plan(request: &Json, user: &str, json: Json, id: Seq<char>)
    requires
        call_ensures(sub_order, (request, user), json),
        request@.text_under("plan"@) == Some(id),
    ensures
        pay::plan_with(text::trimmed(id)) matches Some(plan) ==> json@.text_under("status"@)
            == Some("needs_config"@) && json@.text_under("plan"@) == Some(text::trimmed(id))
            && json@.member("price_cents"@) == Some(JsonTree::Int(plan.price_cents as int)),
        pay::plan_with(text::trimmed(id)) is None ==> json@.text_under("status"@) == Some("error"@)
            && json@.text_under("message"@) == Some("未知套餐"@),
{
    reveal_strlit("status");
    reveal_strlit("message");
    reveal_strlit("plan");
    reveal_strlit("price_cents");
    assert("status"@.len() == 6 && "message"@.len() == 7 && "plan"@.len() == 4
        && "price_cents"@.len() == 11);
}

} // verus!
