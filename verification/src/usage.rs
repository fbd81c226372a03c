//! How many answers each user has had.
use crate::table::{self, Table};
use crate::text::{self, str_eq};
use std::collections::HashMap;
use vstd::prelude::*;

verus! {

/// The number of answers per user. What is counted here is what quotas go by.
pub struct UsageStore {
    counts: Table<u32>,
}

/// The count of `user`; a user without an entry has none.
pub open spec fn count_of(counts: Map<Seq<char>, u32>, user: Seq<char>) -> u32 {
    if counts.contains_key(user) {
        counts[user]
    } else {
        0
    }
}

/// The counts after one more answer for `user`.
pub open spec fn incremented(counts: Map<Seq<char>, u32>, user: Seq<char>) -> Map<Seq<char>, u32> {
    counts.insert(user, (count_of(counts, user) + 1) as u32)
}

/// The larger of the counts of a device and of an account.
pub open spec fn higher_count(
    counts: Map<Seq<char>, u32>,
    device: Seq<char>,
    account: Seq<char>,
) -> u32 {
    if count_of(counts, device) > count_of(counts, account) {
        count_of(counts, device)
    } else {
        count_of(counts, account)
    }
}

/// The counts after the account took over what the device had used.
pub open spec fn merged(
    counts: Map<Seq<char>, u32>,
    device: Seq<char>,
    account: Seq<char>,
) -> Map<Seq<char>, u32> {
    if device == account {
        counts
    } else {
        counts.insert(account, higher_count(counts, device, account))
    }
}

/// The counts that `serde_json::from_str` reads in a text, if it accepts it as
/// an object of `u32` values.
pub uninterp spec fn counts_in_json(text: Seq<char>) -> Option<Map<Seq<char>, u32>>;

/// The counts that a stored text stands for: none, where there is no text or
/// it cannot be read.
pub open spec fn stored_counts(text: Option<Seq<char>>) -> Map<Seq<char>, u32> {
    match text {
        Some(t) => match counts_in_json(t) {
            Some(counts) => counts,
            None => Map::empty(),
        },
        None => Map::empty(),
    }
}

/// Calls `serde_json::from_str` for a `HashMap<String, u32>`. Which texts it
/// accepts, and what it reads in them, is a function of the text.
#[verifier::external_body]
fn counts_from_json(text: &str) -> (r: Option<Vec<(String, u32)>>)
    ensures
        match r {
            Some(entries) => counts_in_json(text@) == Some(table::entries_map(entries@)),
            None => counts_in_json(text@) is None,
        },
{
    serde_json::from_str::<HashMap<String, u32>>(text).ok().map(|m| m.into_iter().collect())
}

/// Calls `serde_json::to_string` on a `HashMap<String, u32>`. It succeeds, and
/// reading the text gives the same counts back. In what order they stand in
/// the text is left open.
#[verifier::external_body]
fn counts_to_json(entries: &Vec<(String, u32)>) -> (r: Option<String>)
    ensures
        r is Some,
        counts_in_json(r->0@) == Some(table::entries_map(entries@)),
{
    serde_json::to_string(&entries.iter().cloned().collect::<HashMap<String, u32>>()).ok()
}

impl View for UsageStore {
    type V = Map<Seq<char>, u32>;

    closed spec fn view(&self) -> Map<Seq<char>, u32> {
        self.counts@
    }
}

impl UsageStore {
    /// The store that a stored text stands for.
    pub fn load(text: Option<&str>) -> (store: UsageStore)
        ensures
            store@ == stored_counts(text::opt_str(text)),
    {
        let entries = match text {
            Some(t) => counts_from_json(t),
            None => None,
        };
        match entries {
            Some(entries) => UsageStore { counts: Table::from_entries(entries) },
            None => UsageStore { counts: Table::new() },
        }
    }

    /// The text to store. Loading it gives the same counts back.
    pub fn to_json(&self) -> (text: String)
        ensures
            counts_in_json(text@) == Some(self@),
            stored_counts(Some(text@)) == self@,
    {
        match counts_to_json(self.counts.entries()) {
            Some(text) => text,
            None => String::new(),
        }
    }

    /// The count of `user`.
    pub fn get(&self, user: &str) -> (count: u32)
        ensures
            count == count_of(self@, user@),
    {
        match self.counts.get(user) {
            Some(count) => *count,
            None => 0,
        }
    }

    /// Counts one more answer for `user` and returns the new count.
    pub fn increment(&mut self, user: &str) -> (count: u32)
        requires
            count_of(old(self)@, user@) < u32::MAX,
        ensures
            final(self)@ == incremented(old(self)@, user@),
            count == count_of(old(self)@, user@) + 1,
    {
        let count: u32 = self.get(user) + 1;
        self.counts.insert(user.to_owned(), count);
        count
    }

    /// Lets an account take over what a device has used: the account's count
    /// becomes the larger of the two. Returns the account's count.
    pub fn merge_max(&mut self, from_device: &str, to_account: &str) -> (count: u32)
        ensures
            final(self)@ == merged(old(self)@, from_device@, to_account@),
            count == count_of(final(self)@, to_account@),
            count == higher_count(old(self)@, from_device@, to_account@),
    {
        if str_eq(from_device, to_account) {
            return self.get(to_account);
        }
        let device: u32 = self.get(from_device);
        let account: u32 = self.get(to_account);
        let count: u32 = if device > account { device } else { account };
        self.counts.insert(to_account.to_owned(), count);
        count
    }
}

/// Taking over a device's count twice is the same as once.
pub proof fn law_merge_is_idempotent(
    counts: Map<Seq<char>, u32>,
    device: Seq<char>,
    account: Seq<char>,
)
    ensures
        merged(merged(counts, device, account), device, account) == merged(counts, device, account),
{
    assert(merged(merged(counts, device, account), device, account) =~= merged(
        counts,
        device,
        account,
    ));
}

/// Taking over a device's count lowers nobody's count and touches nobody's but
/// the account's.
pub proof fn law_merge_never_lowers(
    counts: Map<Seq<char>, u32>,
    device: Seq<char>,
    account: Seq<char>,
    user: Seq<char>,
)
    ensures
        count_of(merged(counts, device, account), user) >= count_of(counts, user),
        user != account ==> count_of(merged(counts, device, account), user) == count_of(
            counts,
            user,
        ),
        count_of(merged(counts, device, account), account) >= count_of(counts, device),
{
}

/// One more answer for a user is one more in that user's count and changes no
/// other.
pub proof fn law_increment_counts_one(
    counts: Map<Seq<char>, u32>,
    user: Seq<char>,
    other: Seq<char>,
)
    requires
        count_of(counts, user) < u32::MAX,
    ensures
        count_of(incremented(counts, user), user) == count_of(counts, user) + 1,
        other != user ==> count_of(incremented(counts, user), other) == count_of(counts, other),
{
}

/// The account's count after a take-over is the larger of the two; a user who was
/// never counted has none; and one more answer is one more.
pub proof fn law_counts(
    counts: Map<Seq<char>, u32>,
    device: Seq<char>,
    account: Seq<char>,
)
    ensures
        count_of(merged(counts, device, account), account) == vstd::math::max(
            count_of(counts, device) as int,
            count_of(counts, account) as int,
        ),
        higher_count(counts, device, account) == vstd::math::max(
            count_of(counts, device) as int,
            count_of(counts, account) as int,
        ),
        !counts.contains_key(account) ==> count_of(counts, account) == 0,
        counts.contains_key(account) ==> count_of(counts, account) == counts[account],
        device == account ==> merged(counts, device, account) == counts,
        stored_counts(None) == Map::<Seq<char>, u32>::empty(),
{
}

/// A stored text gives the counts that are read in it, and none where it cannot
/// be read.
pub proof fn law_stored_counts_are_read(text: Seq<char>)
    ensures
        counts_in_json(text) matches Some(counts) ==> stored_counts(Some(text)) == counts,
        counts_in_json(text) is None ==> stored_counts(Some(text)) == Map::<
            Seq<char>,
            u32,
        >::empty(),
{
}

} // verus!
