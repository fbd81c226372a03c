//! Who is a paying member, and until when.
use crate::clock::{self, now_secs};
use crate::table::{self, Table};
use crate::text::str_eq;
use vstd::prelude::*;

verus! {

/// Seconds in a day.
pub const DAY_SECS: i64 = 86_400;

/// The membership of one user.
pub struct SubRecord {
    /// `free` or the name of a paid plan.
    pub plan: String,
    /// Unix seconds; `None` where nothing runs out.
    pub expires_at: Option<i64>,
}

/// The meaning of a membership record.
pub struct Membership {
    pub plan: Seq<char>,
    pub expires_at: Option<i64>,
}

/// The membership of a user who never paid.
pub open spec fn free_membership() -> Membership {
    Membership { plan: "free"@, expires_at: None }
}

impl Membership {
    /// Paid, and not run out at `now`.
    pub open spec fn premium(self, now: i64) -> bool {
        self.plan != "free"@ && match self.expires_at {
            Some(end) => end > now,
            None => true,
        }
    }

    /// Lasts longer than `other`: a membership for life outlasts any other.
    pub open spec fn outlasts(self, other: Membership) -> bool {
        match (self.expires_at, other.expires_at) {
            (None, Some(_)) => true,
            (Some(a), Some(b)) => a > b,
            _ => false,
        }
    }

    /// Worth more than `other`: paid against free, or paid for longer.
    pub open spec fn better_than(self, other: Membership) -> bool {
        self.plan != "free"@ && (other.plan == "free"@ || self.outlasts(other))
    }
}

/// The membership of `user`; a user without a record is free.
pub open spec fn status_of(records: Map<Seq<char>, Membership>, user: Seq<char>) -> Membership {
    if records.contains_key(user) {
        records[user]
    } else {
        free_membership()
    }
}

/// A paid membership that never runs out.
pub open spec fn lifelong(records: Map<Seq<char>, Membership>, user: Seq<char>) -> bool {
    records.contains_key(user) && records[user].plan != "free"@ && records[user].expires_at is None
}

/// The moment from which an activation at `now` counts: the end of what still
/// runs, else `now`.
pub open spec fn base_of(
    records: Map<Seq<char>, Membership>,
    user: Seq<char>,
    now: i64,
) -> i64 {
    if records.contains_key(user) {
        match records[user].expires_at {
            Some(end) => if end > now {
                end
            } else {
                now
            },
            None => now,
        }
    } else {
        now
    }
}

/// The end of an activation at `now` for a number of days.
pub open spec fn end_of(
    records: Map<Seq<char>, Membership>,
    user: Seq<char>,
    days: u32,
    now: i64,
) -> int {
    base_of(records, user, now) + days * DAY_SECS
}

/// The membership that an activation at `now` gives. What never runs out is not
/// cut down to some days.
pub open spec fn activated(
    records: Map<Seq<char>, Membership>,
    user: Seq<char>,
    plan: Seq<char>,
    days: Option<u32>,
    now: i64,
) -> Membership {
    Membership {
        plan,
        expires_at: match days {
            Some(d) => if lifelong(records, user) {
                None
            } else {
                Some(end_of(records, user, d, now) as i64)
            },
            None => None,
        },
    }
}

/// The end of an activation, if it has one, can be written down.
pub open spec fn end_fits(
    records: Map<Seq<char>, Membership>,
    user: Seq<char>,
    days: Option<u32>,
    now: i64,
) -> bool {
    match days {
        Some(d) => lifelong(records, user) || end_of(records, user, d, now) <= i64::MAX,
        None => true,
    }
}

/// The records after the account took over the device's membership, if that
/// one is worth more.
pub open spec fn merged_records(
    records: Map<Seq<char>, Membership>,
    device: Seq<char>,
    account: Seq<char>,
) -> Map<Seq<char>, Membership> {
    if status_of(records, device).better_than(status_of(records, account)) {
        records.insert(account, status_of(records, device))
    } else {
        records
    }
}

/// The memberships of a table of records.
pub open spec fn memberships(records: Map<Seq<char>, SubRecord>) -> Map<Seq<char>, Membership> {
    records.map_values(|r: SubRecord| r@)
}

impl View for SubRecord {
    type V = Membership;

    open spec fn view(&self) -> Membership {
        Membership { plan: self.plan@, expires_at: self.expires_at }
    }
}

impl Clone for SubRecord {
    fn clone(&self) -> (r: SubRecord)
        ensures
            r == *self,
    {
        SubRecord { plan: self.plan.clone(), expires_at: self.expires_at }
    }
}

impl SubRecord {
    /// The record of a user who never paid.
    pub fn free() -> (r: SubRecord)
        ensures
            r@ == free_membership(),
    {
        SubRecord { plan: "free".to_owned(), expires_at: None }
    }

    /// Whether this is a paid membership that runs at `now`.
    pub fn is_premium(&self, now: i64) -> (r: bool)
        ensures
            r == self@.premium(now),
    {
        !str_eq(self.plan.as_str(), "free") && match self.expires_at {
            Some(end) => end > now,
            None => true,
        }
    }

    /// Whether this membership is worth more than `other`.
    pub fn is_better_than(&self, other: &SubRecord) -> (r: bool)
        ensures
            r == self@.better_than(other@),
    {
        if str_eq(self.plan.as_str(), "free") {
            return false;
        }
        if str_eq(other.plan.as_str(), "free") {
            return true;
        }
        match (self.expires_at, other.expires_at) {
            (None, Some(_)) => true,
            (Some(a), Some(b)) => a > b,
            _ => false,
        }
    }
}

/// The memberships of all users, and which payment events were acted upon.
pub struct SubscriptionStore {
    records: Table<SubRecord>,
    handled: Table<bool>,
}

impl View for SubscriptionStore {
    type V = Map<Seq<char>, Membership>;

    closed spec fn view(&self) -> Map<Seq<char>, Membership> {
        memberships(self.records@)
    }
}

impl SubscriptionStore {
    /// The payment events that were acted upon.
    pub closed spec fn processed(&self) -> Set<Seq<char>> {
        self.handled@.dom()
    }

    /// The store of the records that were read back; an empty one if there
    /// were none to read.
    pub fn load(entries: Option<Vec<(String, SubRecord)>>) -> (store: SubscriptionStore)
        ensures
            store@ == match entries {
                Some(list) => memberships(table::entries_map(list@)),
                None => Map::<Seq<char>, Membership>::empty(),
            },
            store.processed() == Set::<Seq<char>>::empty(),
    {
        let records = match entries {
            Some(list) => Table::from_entries(list),
            None => Table::new(),
        };
        let store = SubscriptionStore { records, handled: Table::new() };
        assert(memberships(Map::<Seq<char>, SubRecord>::empty()) =~= Map::<
            Seq<char>,
            Membership,
        >::empty());
        assert(store.processed() =~= Set::<Seq<char>>::empty());
        store
    }

    /// The records to store. Loading them gives the same memberships back.
    pub fn entries(&self) -> (r: &Vec<(String, SubRecord)>)
        ensures
            memberships(table::entries_map(r@)) == self@,
            table::distinct_names(r@),
    {
        self.records.entries()
    }

    /// The membership of `user`.
    pub fn status(&self, user: &str) -> (r: SubRecord)
        ensures
            r@ == status_of(self@, user@),
    {
        match self.records.get(user) {
            Some(record) => record.clone(),
            None => SubRecord::free(),
        }
    }

    /// Whether `user` is a paying member at `now`.
    pub fn is_premium_at(&self, user: &str, now: i64) -> (r: bool)
        ensures
            r == status_of(self@, user@).premium(now),
    {
        self.status(user).is_premium(now)
    }

    /// Whether `user` is a paying member by the clock.
    pub fn is_premium(&self, user: &str) -> (r: bool)
        ensures
            exists|now: i64|
                clock::was_read(now) && r == #[trigger] status_of(self@, user@).premium(now),
    {
        let now: i64 = now_secs();
        self.is_premium_at(user, now)
    }

    /// Puts a record under `user`.
    fn put(&mut self, user: &str, record: SubRecord)
        ensures
            final(self)@ == old(self)@.insert(user@, record@),
            final(self).processed() == old(self).processed(),
    {
        let ghost before = self.records@;
        self.records.insert(user.to_owned(), record);
        assert(memberships(before.insert(user@, record)) =~= memberships(before).insert(
            user@,
            record@,
        ));
    }

    /// The moment from which an activation at `now` counts.
    fn base(&self, user: &str, now: i64) -> (base: i64)
        ensures
            base == base_of(self@, user@, now),
    {
        match self.records.get(user) {
            Some(record) => match record.expires_at {
                Some(end) => if end > now {
                    end
                } else {
                    now
                },
                None => now,
            },
            None => now,
        }
    }

    /// Whether `user` is a paying member for life.
    fn is_lifelong(&self, user: &str) -> (r: bool)
        ensures
            r == lifelong(self@, user@),
    {
        match self.records.get(user) {
            Some(record) => !str_eq(record.plan.as_str(), "free") && record.expires_at.is_none(),
            None => false,
        }
    }

    /// Activates or renews a membership at `now`: for life without `days`, else
    /// for so many days on top of what still runs. A member for life stays one.
    /// Returns the new record.
    pub fn activate_at(&mut self, user: &str, plan: &str, days: Option<u32>, now: i64) -> (r:
        SubRecord)
        requires
            end_fits(old(self)@, user@, days, now),
        ensures
            r@ == activated(old(self)@, user@, plan@, days, now),
            final(self)@ == old(self)@.insert(user@, r@),
            final(self).processed() == old(self).processed(),
    {
        let base: i64 = self.base(user, now);
        let expires_at = match days {
            Some(d) => if self.is_lifelong(user) {
                None
            } else {
                Some(base + d as i64 * DAY_SECS)
            },
            None => None,
        };
        let record = SubRecord { plan: plan.to_owned(), expires_at };
        self.put(user, record.clone());
        record
    }

    /// Activates or renews a membership at `now`. `None`, with nothing changed,
    /// if its end is past what an `i64` can hold.
    pub fn try_activate_at(
        &mut self,
        user: &str,
        plan: &str,
        days: Option<u32>,
        now: i64,
    ) -> (r: Option<SubRecord>)
        ensures
            activation_at(old(self)@, user@, plan@, days, now, r, final(self)@),
            final(self).processed() == old(self).processed(),
    {
        let base: i64 = self.base(user, now);
        let fits = match days {
            Some(d) => self.is_lifelong(user) || base <= i64::MAX - d as i64 * DAY_SECS,
            None => true,
        };
        if fits {
            Some(self.activate_at(user, plan, days, now))
        } else {
            None
        }
    }

    /// Activates or renews a membership by the clock. `None`, with nothing
    /// changed, if its end is past what an `i64` can hold.
    pub fn activate(&mut self, user: &str, plan: &str, days: Option<u32>) -> (r: Option<SubRecord>)
        ensures
            exists|now: i64|
                clock::was_read(now) && #[trigger] activation_at(
                    old(self)@,
                    user@,
                    plan@,
                    days,
                    now,
                    r,
                    final(self)@,
                ),
            final(self).processed() == old(self).processed(),
    {
        let now: i64 = now_secs();
        self.try_activate_at(user, plan, days, now)
    }

    /// Lets an account take over a device's membership if that one is worth
    /// more.
    pub fn merge_better(&mut self, from_device: &str, to_account: &str)
        ensures
            final(self)@ == merged_records(old(self)@, from_device@, to_account@),
            final(self).processed() == old(self).processed(),
    {
        let device = self.status(from_device);
        let account = self.status(to_account);
        if device.is_better_than(&account) {
            self.put(to_account, device);
        }
    }

    /// Notes a payment event; `true` if it was not noted before.
    pub fn mark_processed(&mut self, event: &str) -> (fresh: bool)
        ensures
            fresh == !old(self).processed().contains(event@),
            final(self).processed() == old(self).processed().insert(event@),
            final(self)@ == old(self)@,
    {
        let fresh = self.handled.get(event).is_none();
        let ghost before = self.handled@;
        self.handled.insert(event.to_owned(), true);
        assert(before.insert(event@, true).dom() =~= before.dom().insert(event@));
        fresh
    }
}

/// What an activation at `now` returns and leaves behind.
pub open spec fn activation_at(
    before: Map<Seq<char>, Membership>,
    user: Seq<char>,
    plan: Seq<char>,
    days: Option<u32>,
    now: i64,
    r: Option<SubRecord>,
    after: Map<Seq<char>, Membership>,
) -> bool {
    match r {
        Some(record) => {
            &&& end_fits(before, user, days, now)
            &&& record@ == activated(before, user, plan, days, now)
            &&& after == before.insert(user, record@)
        },
        None => !end_fits(before, user, days, now) && after == before,
    }
}

/// A membership for life of a paid plan is premium at any time.
pub proof fn law_activated_for_life(
    records: Map<Seq<char>, Membership>,
    user: Seq<char>,
    plan: Seq<char>,
    now: i64,
    later: i64,
)
    requires
        plan != "free"@,
    ensures
        activated(records, user, plan, None, now).premium(later),
{
}

/// A paid plan that is activated for some days, on no membership for life, is
/// premium until exactly the base plus those days.
pub proof fn law_activated_for_days(
    records: Map<Seq<char>, Membership>,
    user: Seq<char>,
    plan: Seq<char>,
    days: u32,
    now: i64,
    later: i64,
)
    requires
        plan != "free"@,
        !lifelong(records, user),
        end_fits(records, user, Some(days), now),
    ensures
        activated(records, user, plan, Some(days), now).premium(later) <==> later < end_of(
            records,
            user,
            days,
            now,
        ),
        days > 0 ==> activated(records, user, plan, Some(days), now).premium(now),
{
}

/// An activation of a paid plan never shortens a paid term: the new membership
/// lasts at least as long as the old one, and is premium whenever that was.
pub proof fn law_activation_never_shortens(
    records: Map<Seq<char>, Membership>,
    user: Seq<char>,
    plan: Seq<char>,
    days: Option<u32>,
    now: i64,
    later: i64,
)
    requires
        plan != "free"@,
        status_of(records, user).plan != "free"@,
        end_fits(records, user, days, now),
    ensures
        !status_of(records, user).outlasts(activated(records, user, plan, days, now)),
        status_of(records, user).premium(later) ==> activated(
            records,
            user,
            plan,
            days,
            now,
        ).premium(later),
{
}

/// A member for life stays one, whatever is activated on top.
pub proof fn law_life_stays_life(
    records: Map<Seq<char>, Membership>,
    user: Seq<char>,
    plan: Seq<char>,
    days: Option<u32>,
    now: i64,
)
    requires
        lifelong(records, user),
    ensures
        end_fits(records, user, days, now),
        activated(records, user, plan, days, now).expires_at is None,
{
}

/// Renewing adds up: two activations in a row, the second before the first
/// runs out, last as long as one for all the days. A member for life has no days
/// to add up.
pub proof fn law_renewal_adds_up(
    records: Map<Seq<char>, Membership>,
    user: Seq<char>,
    plan: Seq<char>,
    first: u32,
    second: u32,
    now: i64,
    later: i64,
)
    requires
        !lifelong(records, user),
        end_of(records, user, first, now) + second * DAY_SECS <= i64::MAX,
        later < end_of(records, user, first, now),
    ensures
        ({
            let once = records.insert(user, activated(records, user, plan, Some(first), now));
            let all = base_of(records, user, now) + (first + second) * DAY_SECS;
            &&& end_of(once, user, second, later) == all
            &&& activated(once, user, plan, Some(second), later).expires_at == Some(all as i64)
        }),
{
    let once = records.insert(user, activated(records, user, plan, Some(first), now));
    assert(end_of(records, user, first, now) <= i64::MAX);
    assert(base_of(once, user, later) == end_of(records, user, first, now));
    assert((first + second) * DAY_SECS == first * DAY_SECS + second * DAY_SECS) by (nonlinear_arith);
}

/// An activation changes nobody else's membership.
pub proof fn law_activation_is_personal(
    records: Map<Seq<char>, Membership>,
    user: Seq<char>,
    plan: Seq<char>,
    days: Option<u32>,
    now: i64,
    other: Seq<char>,
)
    requires
        other != user,
    ensures
        status_of(
            records.insert(user, activated(records, user, plan, days, now)),
            other,
        ) == status_of(records, other),
{
}

/// Taking over a device's membership twice is the same as once.
pub proof fn law_merge_better_is_idempotent(
    records: Map<Seq<char>, Membership>,
    device: Seq<char>,
    account: Seq<char>,
)
    ensures
        merged_records(merged_records(records, device, account), device, account)
            == merged_records(records, device, account),
{
}

/// Taking over a device's membership costs neither side: at any time the
/// account is premium if it or the device was, and nobody else changes.
pub proof fn law_merge_better_loses_nothing(
    records: Map<Seq<char>, Membership>,
    device: Seq<char>,
    account: Seq<char>,
    other: Seq<char>,
    now: i64,
)
    ensures
        ({
            let after = merged_records(records, device, account);
            &&& status_of(after, account).premium(now) <==> status_of(records, account).premium(now)
                || status_of(records, device).premium(now)
            &&& other != account ==> status_of(after, other) == status_of(records, other)
        }),
{
}

/// Loading the records that were stored, in whatever order they come back,
/// gives every membership back.
pub proof fn law_reload_keeps_memberships(
    stored: Seq<(String, SubRecord)>,
    loaded: Seq<(String, SubRecord)>,
)
    requires
        table::distinct_names(stored),
        table::distinct_names(loaded),
        table::entries_within(stored, loaded),
        table::entries_within(loaded, stored),
    ensures
        memberships(table::entries_map(loaded)) == memberships(table::entries_map(stored)),
{
    table::lemma_same_entries(stored, loaded);
    assert(memberships(table::entries_map(loaded)) =~= table::entries_map(loaded).map_values(|v: SubRecord| v@));
    assert(memberships(table::entries_map(stored)) =~= table::entries_map(stored).map_values(|v: SubRecord| v@));
}

/// Who is premium: whoever has a record of a plan other than `free` that has no
/// end or one that lies ahead; and nobody else.
pub proof fn law_who_is_premium(
    records: Map<Seq<char>, Membership>,
    user: Seq<char>,
    now: i64,
)
    ensures
        status_of(records, user).premium(now) <==> records.contains_key(user) && records[user].plan
            != "free"@ && (records[user].expires_at is None || records[user].expires_at->0 > now),
        records.contains_key(user) ==> status_of(records, user) == records[user],
        !records.contains_key(user) ==> status_of(records, user).plan == "free"@ && status_of(
            records,
            user,
        ).expires_at is None,
{
}

/// When an activation ends: never without days, and never on a membership for
/// life; else so many days of 86400 seconds after the end of what still runs, or
/// after now.
pub proof fn law_when_an_activation_ends(
    records: Map<Seq<char>, Membership>,
    user: Seq<char>,
    plan: Seq<char>,
    days: u32,
    now: i64,
)
    ensures
        activated(records, user, plan, None, now).expires_at is None,
        activated(records, user, plan, None, now).plan == plan,
        activated(records, user, plan, Some(days), now).plan == plan,
        ({
            let running = records.contains_key(user) && records[user].expires_at is Some
                && records[user].expires_at->0 > now;
            let for_life = records.contains_key(user) && records[user].plan != "free"@
                && records[user].expires_at is None;
            let end = (if running {
                records[user].expires_at->0
            } else {
                now
            }) + days * 86400;
            &&& for_life ==> activated(records, user, plan, Some(days), now).expires_at is None
            &&& for_life ==> end_fits(records, user, Some(days), now)
            &&& !for_life ==> (end_fits(records, user, Some(days), now) <==> end <= i64::MAX)
            &&& !for_life && end <= i64::MAX ==> activated(
                records,
                user,
                plan,
                Some(days),
                now,
            ).expires_at == Some(end as i64)
        }),
        end_fits(records, user, None, now),
{
}

/// Which of two memberships is worth more: a paid one against a free one, and of
/// two paid ones the one that never ends or ends later.
pub proof fn law_what_is_worth_more(a: Membership, b: Membership)
    ensures
        a.better_than(b) <==> a.plan != "free"@ && (b.plan == "free"@ || (b.expires_at is Some && (
        a.expires_at is None || a.expires_at->0 > b.expires_at->0))),
        !(a.better_than(b) && b.better_than(a)),
{
}

/// What an account has after it took over a device's membership is one of the
/// two, and the other is worth no more.
pub proof fn law_take_over_keeps_the_better(
    records: Map<Seq<char>, Membership>,
    device: Seq<char>,
    account: Seq<char>,
)
    ensures
        ({
            let after = status_of(merged_records(records, device, account), account);
            &&& after == status_of(records, account) || after == status_of(records, device)
            &&& !status_of(records, account).better_than(after)
            &&& !status_of(records, device).better_than(after)
        }),
{
}

/// What an activation leaves behind: the record that it returns, under its user
/// and for the plan that was asked for, with nobody else's changed; or nothing
/// new, exactly where its end cannot be written down.
pub proof fn law_activations_are_kept(
    before: Map<Seq<char>, Membership>,
    user: Seq<char>,
    plan: Seq<char>,
    days: Option<u32>,
    now: i64,
    r: Option<SubRecord>,
    after: Map<Seq<char>, Membership>,
)
    requires
        activation_at(before, user, plan, days, now, r, after),
    ensures
        r is Some <==> end_fits(before, user, days, now),
        r is None ==> after == before,
        r matches Some(record) ==> {
            &&& record.plan@ == plan
            &&& after.contains_key(user) && after[user].plan == plan
            &&& after[user].expires_at == record.expires_at
            &&& record.expires_at == activated(before, user, plan, days, now).expires_at
            &&& after.remove(user) == before.remove(user)
        },
{
    assert(after.remove(user) =~= before.remove(user));
}

/// Whoever is activated for a day or more is a paying member from then on, up to
/// the end.
pub proof fn law_activation_makes_a_member(
    before: Map<Seq<char>, Membership>,
    user: Seq<char>,
    plan: Seq<char>,
    days: Option<u32>,
    now: i64,
    r: Option<SubRecord>,
    after: Map<Seq<char>, Membership>,
)
    requires
        activation_at(before, user, plan, days, now, r, after),
        r is Some,
        plan != "free"@,
        days matches Some(d) ==> d > 0,
    ensures
        status_of(after, user).premium(now),
{
}

/// The memberships of a table are its records, plan for plan and end for end.
pub proof fn law_records_are_memberships(records: Map<Seq<char>, SubRecord>, user: Seq<char>)
    ensures
        memberships(records).contains_key(user) <==> records.contains_key(user),
        records.contains_key(user) ==> memberships(records)[user].plan == records[user].plan@
            && memberships(records)[user].expires_at == records[user].expires_at,
{
}

} // verus!
