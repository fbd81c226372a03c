//! Who is asking: devices, accounts, and the way from the one to the other.
use crate::auth::{self, TokenReading, User, UserStore};
use crate::clock;
use crate::ids;
use crate::json::{self, Fields, Json, JsonTree};
use crate::reply::{self, one_text_json, requested, Response};
use crate::settings::{self, Settings};
use crate::subscription::{self, Membership, SubscriptionStore};
use crate::text::{self, blank, str_eq, strip_prefix, trim};
use crate::usage::{self, UsageStore};
use vstd::prelude::*;

verus! {

/// The user of a request that names none.
pub const ANONYMOUS: &'static str = "anonymous";

/// The user whom a request names by itself.
pub open spec fn named_user(header: Option<Seq<char>>) -> Seq<char> {
    match header {
        Some(name) => if text::is_blank(name) {
            ANONYMOUS@
        } else {
            name
        },
        None => ANONYMOUS@,
    }
}

/// The token in an authorization header: what stands behind `Bearer `, with or
/// without a capital, less the white space around it.
pub open spec fn bearer_token(header: Seq<char>) -> Option<Seq<char>> {
    if "Bearer "@.is_prefix_of(header) {
        Some(text::trimmed(header.skip("Bearer "@.len() as int)))
    } else if "bearer "@.is_prefix_of(header) {
        Some(text::trimmed(header.skip("bearer "@.len() as int)))
    } else {
        None
    }
}

/// The account that an authorization header vouches for, the time aside.
pub open spec fn vouched_account(
    vars: Map<Seq<char>, Seq<char>>,
    authorization: Option<Seq<char>>,
) -> Option<Seq<char>> {
    match authorization {
        Some(header) => match bearer_token(header) {
            Some(token) => match auth::sound_claims(token, auth::secret_of(vars)) {
                Some(claims) => auth::claimed_user(claims),
                None => None,
            },
            None => None,
        },
        None => None,
    }
}

/// The account that an authorization header vouches for at `now`.
pub open spec fn vouched_at(
    vars: Map<Seq<char>, Seq<char>>,
    authorization: Option<Seq<char>>,
    now: u64,
) -> Option<Seq<char>> {
    match authorization {
        Some(header) => match bearer_token(header) {
            Some(token) => auth::user_at(auth::sound_claims(token, auth::secret_of(vars)), now),
            None => None,
        },
        None => None,
    }
}

/// `account` is the one that an authorization header was found to vouch for:
/// none without a token, else the one whom the token named when it was read.
pub open spec fn found_to_vouch(
    vars: Map<Seq<char>, Seq<char>>,
    authorization: Option<Seq<char>>,
    account: Option<Seq<char>>,
) -> bool {
    match authorization {
        Some(header) => match bearer_token(header) {
            Some(token) => exists|reading: TokenReading| #[trigger]
                auth::token_was_read(token, auth::secret_of(vars), reading) && account
                    == auth::user_read(reading),
            None => account is None,
        },
        None => account is None,
    }
}

/// The user whom a request names in its `X-User-Id` header.
pub fn user_from(header: Option<&str>) -> (user: String)
    ensures
        user@ == named_user(text::opt_str(header)),
{
    match header {
        Some(name) => if blank(name) {
            ANONYMOUS.to_owned()
        } else {
            name.to_owned()
        },
        None => ANONYMOUS.to_owned(),
    }
}

/// The token in an authorization header.
pub fn token_in(header: &str) -> (r: Option<&str>)
    ensures
        text::opt_str(r) == bearer_token(header@),
{
    match strip_prefix(header, "Bearer ") {
        Some(token) => Some(trim(token)),
        None => match strip_prefix(header, "bearer ") {
            Some(token) => Some(trim(token)),
            None => None,
        },
    }
}

/// The account that an authorization header vouches for. Its token is judged by
/// the moment of the clock, which is left open.
pub fn auth_user(settings: &Settings, authorization: Option<&str>) -> (r: Option<String>)
    ensures
        found_to_vouch(settings@, text::opt_str(authorization), text::opt_text(r)),
        exists|now: u64|
            text::opt_text(r) == #[trigger] vouched_at(
                settings@,
                text::opt_str(authorization),
                now,
            ),
{
    match authorization {
        Some(header) => match token_in(header) {
            Some(token) => {
                let r = auth::verify(settings, token);
                let ghost now = choose|now: u64|
                    text::opt_text(r) == #[trigger] auth::user_at(
                        auth::sound_claims(token@, auth::secret_of(settings@)),
                        now,
                    );
                assert(text::opt_text(r) == vouched_at(
                    settings@,
                    text::opt_str(authorization),
                    now,
                ));
                r
            },
            None => {
                assert(vouched_at(settings@, text::opt_str(authorization), 0) is None);
                None
            },
        },
        None => {
            assert(vouched_at(settings@, text::opt_str(authorization), 0) is None);
            None
        },
    }
}

/// The user of a request: the account, if one is vouched for, else whom the
/// request names by itself.
pub fn user_or_device(account: Option<String>, header: Option<&str>) -> (user: String)
    ensures
        user@ == settings::or_else(
            text::opt_text(account),
            named_user(text::opt_str(header)),
        ),
{
    match account {
        Some(account) => account,
        None => user_from(header),
    }
}

/// The user of a request, by its two headers. It is the account that is vouched
/// for, or, without one that is in time, whom the request names by itself.
pub fn current_user(
    settings: &Settings,
    authorization: Option<&str>,
    header: Option<&str>,
) -> (user: String)
    ensures
        user@ == named_user(text::opt_str(header)) || Some(user@) == vouched_account(
            settings@,
            text::opt_str(authorization),
        ),
        exists|account: Option<Seq<char>>| #[trigger]
            found_to_vouch(settings@, text::opt_str(authorization), account) && user@ == match account {
                Some(id) => id,
                None => named_user(text::opt_str(header)),
            },
{
    let account = auth_user(settings, authorization);
    let ghost found = text::opt_text(account);
    let user = user_or_device(account, header);
    assert(found_to_vouch(settings@, text::opt_str(authorization), found));
    user
}

/// There is something to take over: the device is a device, and not the account
/// itself.
pub open spec fn migrates(device: Seq<char>, account: Seq<char>) -> bool {
    device != account && device != ANONYMOUS@
}

/// The counts after an account took over a device's.
pub open spec fn migrated_counts(
    counts: Map<Seq<char>, u32>,
    device: Seq<char>,
    account: Seq<char>,
) -> Map<Seq<char>, u32> {
    if migrates(device, account) {
        usage::merged(counts, device, account)
    } else {
        counts
    }
}

/// The memberships after an account took over a device's.
pub open spec fn migrated_records(
    records: Map<Seq<char>, Membership>,
    device: Seq<char>,
    account: Seq<char>,
) -> Map<Seq<char>, Membership> {
    if migrates(device, account) {
        subscription::merged_records(records, device, account)
    } else {
        records
    }
}

/// Lets an account take over what the device of a request has used and paid
/// for.
pub fn migrate_device_to_account(
    usage: &mut UsageStore,
    members: &mut SubscriptionStore,
    header: Option<&str>,
    account_id: &str,
)
    ensures
        final(usage)@ == migrated_counts(
            old(usage)@,
            named_user(text::opt_str(header)),
            account_id@,
        ),
        final(members)@ == migrated_records(
            old(members)@,
            named_user(text::opt_str(header)),
            account_id@,
        ),
        final(members).processed() == old(members).processed(),
{
    let device = user_from(header);
    if str_eq(device.as_str(), account_id) || str_eq(device.as_str(), ANONYMOUS) {
        return;
    }
    let _count: u32 = usage.merge_max(device.as_str(), account_id);
    members.merge_better(device.as_str(), account_id);
}

/// What an account shows of itself.
pub open spec fn account_json(id: Seq<char>, email: Seq<char>) -> JsonTree {
    JsonTree::Object(map!["id"@ => JsonTree::Text(id), "email"@ => JsonTree::Text(email)])
}

/// The reply to whoever has come in: a token and the account.
pub open spec fn welcome_json(token: Seq<char>, id: Seq<char>, email: Seq<char>) -> JsonTree {
    JsonTree::Object(
        map!["token"@ => JsonTree::Text(token), "user"@ => account_json(id, email)],
    )
}

/// What an account shows of itself.
fn show_account(user: &User) -> (json: Json)
    ensures
        json@ == account_json(user.id@, user.email@),
{
    Fields::new().with("id", Json::text(user.id.as_str())).with(
        "email",
        Json::text(user.email.as_str()),
    ).object()
}

/// The reply to whoever has come in with a token.
pub fn welcome(token: &str, user: &User) -> (json: Json)
    ensures
        json@ == welcome_json(token@, user.id@, user.email@),
{
    Fields::new().with("token", Json::text(token)).with("user", show_account(user)).object()
}

/// The reply welcomes the account with a token that was issued for it.
pub open spec fn welcomes(
    vars: Map<Seq<char>, Seq<char>>,
    r: Response,
    id: Seq<char>,
    email: Seq<char>,
) -> bool {
    r.status == 200 && exists|token: Seq<char>, clock: i64|
        clock::was_read(clock) && #[trigger] auth::is_issued(
            token,
            id,
            auth::secret_of(vars),
            auth::moment_for(clock),
        ) && r.body@ == welcome_json(token, id, email)
}

/// Lets an account in: it takes over what the device has, and gets a token.
fn let_in(
    settings: &Settings,
    usage: &mut UsageStore,
    members: &mut SubscriptionStore,
    header: Option<&str>,
    user: &User,
) -> (r: Response)
    ensures
        welcomes(settings@, r, user.id@, user.email@),
        final(usage)@ == migrated_counts(old(usage)@, named_user(text::opt_str(header)), user.id@),
        final(members)@ == migrated_records(
            old(members)@,
            named_user(text::opt_str(header)),
            user.id@,
        ),
        final(members).processed() == old(members).processed(),
{
    migrate_device_to_account(usage, members, header, user.id.as_str());
    let token = auth::issue(settings, user.id.as_str());
    let ghost clock = choose|clock: i64| #[trigger]
        clock::was_read(clock) && auth::is_issued(
            token@,
            user.id@,
            auth::secret_of(settings@),
            auth::moment_for(clock),
        );
    let r = Response { status: 200, body: welcome(token.as_str(), user) };
    assert(auth::is_issued(
        token@,
        user.id@,
        auth::secret_of(settings@),
        auth::moment_for(clock),
    ) && r.body@ == welcome_json(token@, user.id@, user.email@));
    r
}

/// The address is worth an account that is not there yet, and so is the
/// password.
pub open spec fn may_register(
    users: Map<Seq<char>, auth::Account>,
    email: Seq<char>,
    password: Seq<char>,
) -> bool {
    auth::email_ok(auth::email_key(email)) && auth::password_ok(password)
        && auth::password_hashable(password) && !users.contains_key(auth::email_key(email))
}

/// The address is taken, and nothing else is wrong.
pub open spec fn is_taken(
    users: Map<Seq<char>, auth::Account>,
    email: Seq<char>,
    password: Seq<char>,
) -> bool {
    auth::email_ok(auth::email_key(email)) && auth::password_ok(password) && users.contains_key(
        auth::email_key(email),
    )
}

/// `account` is a new account under the address, which the password opens.
pub open spec fn is_new_account(
    before: Map<Seq<char>, auth::Account>,
    after: Map<Seq<char>, auth::Account>,
    email: Seq<char>,
    password: Seq<char>,
    account: auth::Account,
) -> bool {
    &&& after == before.insert(auth::email_key(email), account)
    &&& account.email == auth::email_key(email)
    &&& auth::is_account_id(account.id)
    &&& ids::was_drawn_simple(account.id.skip(5))
    &&& clock::was_read(account.created_at)
    &&& auth::was_hashed(vstd::utf8::encode_utf8(password), account.pass_hash)
    &&& auth::HASH_PREFIX@.is_prefix_of(account.pass_hash)
    &&& auth::login_of(after, email, password) == Some(account)
}

/// What registering leaves behind: a new account that took over what the device
/// has, or nothing new.
pub open spec fn registered(
    vars: Map<Seq<char>, Seq<char>>,
    device: Seq<char>,
    email: Seq<char>,
    password: Seq<char>,
    users: Map<Seq<char>, auth::Account>,
    counts: Map<Seq<char>, u32>,
    records: Map<Seq<char>, Membership>,
    new_users: Map<Seq<char>, auth::Account>,
    new_counts: Map<Seq<char>, u32>,
    new_records: Map<Seq<char>, Membership>,
    r: Response,
) -> bool {
    if may_register(users, email, password) {
        exists|account: auth::Account| #[trigger]
            is_new_account(users, new_users, email, password, account) && welcomes(
                vars,
                r,
                account.id,
                account.email,
            ) && new_counts == migrated_counts(counts, device, account.id) && new_records
                == migrated_records(records, device, account.id)
    } else {
        &&& new_users == users && new_counts == counts && new_records == records
        &&& if is_taken(users, email, password) {
            r.status == 409 && r.body@ == reply::one_text("error"@, "email_taken"@)
        } else {
            r.status == 400 && r.body@ == reply::one_text("error"@, "invalid"@)
        }
    }
}

/// Registers an account for the address and password of a request.
pub fn auth_register(
    settings: &Settings,
    users: &mut UserStore,
    usage: &mut UsageStore,
    members: &mut SubscriptionStore,
    header: Option<&str>,
    request: &Json,
) -> (r: Response)
    ensures
        registered(
            settings@,
            named_user(text::opt_str(header)),
            reply::text_or_empty(request@, "email"@),
            reply::text_or_empty(request@, "password"@),
            old(users)@,
            old(usage)@,
            old(members)@,
            final(users)@,
            final(usage)@,
            final(members)@,
            r,
        ),
        final(members).processed() == old(members).processed(),
{
    let email = requested(request, "email");
    let password = requested(request, "password");
    let ghost before = users@;
    match users.register(email, password) {
        Ok(user) => {
            assert(is_new_account(before, users@, email@, password@, user@));
            let_in(settings, usage, members, header, &user)
        },
        Err(e) => {
            proof {
                reveal_strlit("email_taken");
                reveal_strlit("invalid");
                assert("invalid"@.len() != "email_taken"@.len());
            }
            if str_eq(e, "email_taken") {
                Response { status: 409, body: one_text_json("error", "email_taken") }
            } else {
                Response { status: 400, body: one_text_json("error", "invalid") }
            }
        },
    }
}

/// Logs in with the address and password of a request.
pub fn auth_login(
    settings: &Settings,
    users: &UserStore,
    usage: &mut UsageStore,
    members: &mut SubscriptionStore,
    header: Option<&str>,
    request: &Json,
) -> (r: Response)
    ensures
        match auth::login_of(
            users@,
            reply::text_or_empty(request@, "email"@),
            reply::text_or_empty(request@, "password"@),
        ) {
            Some(account) => {
                &&& welcomes(settings@, r, account.id, account.email)
                &&& final(usage)@ == migrated_counts(
                    old(usage)@,
                    named_user(text::opt_str(header)),
                    account.id,
                )
                &&& final(members)@ == migrated_records(
                    old(members)@,
                    named_user(text::opt_str(header)),
                    account.id,
                )
            },
            None => {
                &&& r.status == 401 && r.body@ == reply::one_text("error"@, "bad_credentials"@)
                &&& final(usage)@ == old(usage)@
                &&& final(members)@ == old(members)@
            },
        },
        final(members).processed() == old(members).processed(),
{
    match users.login(requested(request, "email"), requested(request, "password")) {
        Some(user) => let_in(settings, usage, members, header, &user),
        None => Response { status: 401, body: one_text_json("error", "bad_credentials") },
    }
}

/// The reply about the account with the given id.
pub open spec fn shows_account(
    users: Map<Seq<char>, auth::Account>,
    id: Option<Seq<char>>,
    r: Response,
) -> bool {
    let unknown = r.status == 401 && r.body@ == reply::one_text("error"@, "unauthorized"@);
    match id {
        Some(id) => {
            ||| unknown && forall|key: Seq<char>| !#[trigger] auth::has_id(users, key, id)
            ||| r.status == 200 && exists|key: Seq<char>| #[trigger]
                auth::has_id(users, key, id) && r.body@ == account_json(
                    users[key].id,
                    users[key].email,
                )
        },
        None => unknown,
    }
}

/// The account with the given id, if one is vouched for and there is one.
pub fn account_reply(users: &UserStore, id: Option<String>) -> (r: Response)
    ensures
        shows_account(users@, text::opt_text(id), r),
{
    if let Some(id) = id {
        if let Some(user) = users.get(id.as_str()) {
            let ghost key = choose|key: Seq<char>| #[trigger]
                auth::has_id(users@, key, id@) && users@[key] == user@;
            let r = Response { status: 200, body: show_account(&user) };
            assert(auth::has_id(users@, key, id@) && r.body@ == account_json(
                users@[key].id,
                users@[key].email,
            ));
            assert(auth::has_id(users@, key, Some(id@)->0));
            return r;
        }
    }
    Response { status: 401, body: one_text_json("error", "unauthorized") }
}

/// The account whose token comes with a request.
pub fn auth_me(settings: &Settings, users: &UserStore, authorization: Option<&str>) -> (r: Response)
    ensures
        shows_account(users@, vouched_account(settings@, text::opt_str(authorization)), r)
            || shows_account(users@, None, r),
        exists|account: Option<Seq<char>>| #[trigger]
            found_to_vouch(settings@, text::opt_str(authorization), account) && shows_account(
                users@,
                account,
                r,
            ),
{
    let account = auth_user(settings, authorization);
    let ghost found = text::opt_text(account);
    let r = account_reply(users, account);
    assert(found_to_vouch(settings@, text::opt_str(authorization), found));
    r
}

/// Coming in twice from the same device changes no more than coming in once.
pub proof fn law_migration_is_idempotent(
    counts: Map<Seq<char>, u32>,
    records: Map<Seq<char>, Membership>,
    device: Seq<char>,
    account: Seq<char>,
)
    ensures
        migrated_counts(migrated_counts(counts, device, account), device, account)
            == migrated_counts(counts, device, account),
        migrated_records(migrated_records(records, device, account), device, account)
            == migrated_records(records, device, account),
{
    usage::law_merge_is_idempotent(counts, device, account);
    subscription::law_merge_better_is_idempotent(records, device, account);
}

/// A request that names nobody moves nothing into an account.
pub proof fn law_nameless_request_moves_nothing(
    counts: Map<Seq<char>, u32>,
    records: Map<Seq<char>, Membership>,
    header: Option<Seq<char>>,
    account: Seq<char>,
)
    requires
        header matches Some(name) ==> text::is_blank(name),
    ensures
        migrated_counts(counts, named_user(header), account) == counts,
        migrated_records(records, named_user(header), account) == records,
{
}

/// No header that a request can make up by itself vouches for an account: that
/// takes a token which the secret signed.
pub proof fn law_account_takes_a_token(
    vars: Map<Seq<char>, Seq<char>>,
    authorization: Option<Seq<char>>,
)
    ensures
        vouched_account(vars, authorization) is Some ==> authorization is Some && bearer_token(
            authorization->0,
        ) is Some && auth::sound_claims(
            bearer_token(authorization->0)->0,
            auth::secret_of(vars),
        ) is Some,
{
}

/// The account comes before the name: where the token of a request was read to
/// name an account, the user is that account, whatever the request calls itself;
/// what it calls itself counts only where the token was read to name none, or
/// there is no token.
pub proof fn law_accounts_come_before_names(
    settings: &Settings,
    authorization: Option<&str>,
    header: Option<&str>,
    user: String,
)
    requires
        call_ensures(current_user, (settings, authorization, header), user),
    ensures
        ({
            let name = if header is Some && !text::is_blank(header->0@) {
                header->0@
            } else {
                "anonymous"@
            };
            if authorization is Some && bearer_token(authorization->0@) is Some {
                let token = bearer_token(authorization->0@)->0;
                let secret = auth::secret_of(settings@);
                exists|reading: TokenReading, now: u64|
                    {
                        &&& auth::token_was_read(token, secret, reading)
                        &&& #[trigger] auth::read_at(token, secret, reading, now)
                        &&& reading matches TokenReading::Claims(claims) ==> auth::sound_claims(
                            token,
                            secret,
                        ) == Some(json::value_tree(claims)) && user@ == match auth::claimed_user(
                            json::value_tree(claims),
                        ) {
                            Some(id) => id,
                            None => name,
                        }
                        &&& !(reading is Claims) ==> user@ == name
                    }
            } else {
                user@ == name
            }
        }),
{
    let vouched = choose|account: Option<Seq<char>>| #[trigger]
        found_to_vouch(settings@, text::opt_str(authorization), account) && user@ == match account {
            Some(id) => id,
            None => named_user(text::opt_str(header)),
        };
    if authorization is Some && bearer_token(authorization->0@) is Some {
        let token = bearer_token(authorization->0@)->0;
        let secret = auth::secret_of(settings@);
        let reading = choose|reading: TokenReading| #[trigger]
            auth::token_was_read(token, secret, reading) && vouched == auth::user_read(reading);
        auth::law_readings_are_so(token, secret, reading);
        let now = choose|now: u64| #[trigger] auth::read_at(token, secret, reading, now);
        assert(auth::token_was_read(token, secret, reading) && auth::read_at(
            token,
            secret,
            reading,
            now,
        ));
    }
}

/// A token that was issued makes its account the user of the request that shows
/// it, whatever the request calls itself, up to 30 days and a minute after the
/// moment of issue.
pub proof fn law_issued_tokens_name_the_user(
    settings: &Settings,
    authorization: Option<&str>,
    header: Option<&str>,
    user: String,
    id: Seq<char>,
    issued: i64,
)
    requires
        authorization is Some,
        bearer_token(authorization->0@) is Some,
        auth::is_issued(
            bearer_token(authorization->0@)->0,
            id,
            auth::secret_of(settings@),
            issued,
        ),
        call_ensures(current_user, (settings, authorization, header), user),
    ensures
        exists|reading: TokenReading, now: u64|
            {
                &&& auth::token_was_read(
                    bearer_token(authorization->0@)->0,
                    auth::secret_of(settings@),
                    reading,
                )
                &&& #[trigger] auth::read_at(
                    bearer_token(authorization->0@)->0,
                    auth::secret_of(settings@),
                    reading,
                    now,
                )
                &&& now <= issued + 2_592_060 ==> user@ == id
                &&& now > issued + 2_592_060 ==> user@ == named_user(text::opt_str(header))
            },
{
    let vouched = choose|account: Option<Seq<char>>| #[trigger]
        found_to_vouch(settings@, text::opt_str(authorization), account) && user@ == match account {
            Some(id) => id,
            None => named_user(text::opt_str(header)),
        };
    let token = bearer_token(authorization->0@)->0;
    let secret = auth::secret_of(settings@);
    let reading = choose|reading: TokenReading| #[trigger]
        auth::token_was_read(token, secret, reading) && vouched == auth::user_read(reading);
    auth::law_readings_are_so(token, secret, reading);
    let now = choose|now: u64| #[trigger] auth::read_at(token, secret, reading, now);
    auth::law_issued_tokens_are_read(token, id, secret, issued, reading, now);
    assert(auth::token_was_read(token, secret, reading) && auth::read_at(
        token,
        secret,
        reading,
        now,
    ));
}

/// The account that is found is the one that the header vouches for at some
/// moment.
pub proof fn law_found_accounts_are_vouched_for(
    vars: Map<Seq<char>, Seq<char>>,
    authorization: Option<Seq<char>>,
    account: Option<Seq<char>>,
)
    requires
        found_to_vouch(vars, authorization, account),
    ensures
        exists|now: u64| account == #[trigger] vouched_at(vars, authorization, now),
        account is Some ==> account == vouched_account(vars, authorization),
{
    if authorization is Some && bearer_token(authorization->0) is Some {
        let token = bearer_token(authorization->0)->0;
        let secret = auth::secret_of(vars);
        let reading = choose|reading: TokenReading| #[trigger]
            auth::token_was_read(token, secret, reading) && account == auth::user_read(reading);
        auth::law_readings_are_so(token, secret, reading);
        let now = choose|now: u64| #[trigger] auth::read_at(token, secret, reading, now);
        assert(account == vouched_at(vars, authorization, now));
    } else {
        assert(account == vouched_at(vars, authorization, 0));
    }
}

/// A request goes by the name in its header, as it is written, or is anonymous
/// where that is blank or not there.
pub proof fn law_names_of_requests(name: Seq<char>)
    ensures
        named_user(None) == "anonymous"@,
        text::is_blank(name) ==> named_user(Some(name)) == "anonymous"@,
        !text::is_blank(name) ==> named_user(Some(name)) == name,
{
}

/// The token of an authorization header is what follows `Bearer ` or `bearer `,
/// less the white space around it, and no other header has one.
pub proof fn law_tokens_in_headers(token: Seq<char>, header: Seq<char>)
    ensures
        bearer_token("Bearer "@ + token) == Some(text::trimmed(token)),
        bearer_token("bearer "@ + token) == Some(text::trimmed(token)),
        bearer_token(header) is Some ==> header.len() >= 7 && (header.take(7) == "Bearer "@
            || header.take(7) == "bearer "@),
        vouched_account(Map::empty(), None) is None,
{
    reveal_strlit("Bearer ");
    reveal_strlit("bearer ");
    let upper = "Bearer "@ + token;
    let lower = "bearer "@ + token;
    assert(upper.skip(7) =~= token);
    assert(lower.skip(7) =~= token);
    assert(upper.subrange(0, 7) =~= "Bearer "@);
    assert(lower.subrange(0, 7) =~= "bearer "@);
    assert(lower[0] != "Bearer "@[0]);
    if bearer_token(header) is Some {
        assert(header.take(7) =~= header.subrange(0, 7));
    }
}

/// An account takes over the device's count where that is higher, and nobody
/// else's count changes; a request that names nobody, or names the account
/// itself, changes none.
pub proof fn law_counts_are_taken_over(
    counts: Map<Seq<char>, u32>,
    device: Seq<char>,
    account: Seq<char>,
    other: Seq<char>,
)
    ensures
        device == "anonymous"@ || device == account ==> migrated_counts(counts, device, account)
            == counts,
        device != "anonymous"@ ==> usage::count_of(
            migrated_counts(counts, device, account),
            account,
        ) == vstd::math::max(
            usage::count_of(counts, device) as int,
            usage::count_of(counts, account) as int,
        ),
        other != account ==> usage::count_of(migrated_counts(counts, device, account), other)
            == usage::count_of(counts, other),
{
    usage::law_counts(counts, device, account);
}

/// An account takes over the device's membership where that is worth more, and
/// nobody else's changes; a request that names nobody, or names the account
/// itself, changes none.
pub proof fn law_memberships_are_taken_over(
    records: Map<Seq<char>, Membership>,
    device: Seq<char>,
    account: Seq<char>,
    other: Seq<char>,
)
    ensures
        device == "anonymous"@ || device == account ==> migrated_records(records, device, account)
            == records,
        device != "anonymous"@ && device != account ==> {
            let after = subscription::status_of(
                migrated_records(records, device, account),
                account,
            );
            let of_device = subscription::status_of(records, device);
            let of_account = subscription::status_of(records, account);
            after == (if of_device.better_than(of_account) {
                of_device
            } else {
                of_account
            })
        },
        other != account ==> subscription::status_of(
            migrated_records(records, device, account),
            other,
        ) == subscription::status_of(records, other),
{
}

/// Whoever has come in is told a token and the account, and an account shows its
/// id and its address and nothing else.
pub proof fn law_welcomes_are_complete(token: Seq<char>, id: Seq<char>, email: Seq<char>)
    ensures
        welcome_json(token, id, email).text_under("token"@) == Some(token),
        welcome_json(token, id, email).member("user"@) == Some(account_json(id, email)),
        account_json(id, email).text_under("id"@) == Some(id),
        account_json(id, email).text_under("email"@) == Some(email),
        account_json(id, email) matches JsonTree::Object(members) && members.dom() == set![
            "id"@,
            "email"@,
        ],
{
    reveal_strlit("token");
    reveal_strlit("user");
    reveal_strlit("id");
    reveal_strlit("email");
    assert("token"@.len() == 5 && "user"@.len() == 4 && "id"@.len() == 2 && "email"@.len() == 5);
    assert(account_json(id, email)->Object_0.dom() =~= set!["id"@, "email"@]);
}

/// How registering is replied to: 200 where the address and the password are
/// worth an account and the address is free, and then the account can be logged
/// in to; 409 where only the address is taken; 400 in any other case; and without
/// an account nothing changes.
pub proof fn law_registering_is_replied_to(
    vars: Map<Seq<char>, Seq<char>>,
    device: Seq<char>,
    email: Seq<char>,
    password: Seq<char>,
    users: Map<Seq<char>, auth::Account>,
    counts: Map<Seq<char>, u32>,
    records: Map<Seq<char>, Membership>,
    new_users: Map<Seq<char>, auth::Account>,
    new_counts: Map<Seq<char>, u32>,
    new_records: Map<Seq<char>, Membership>,
    r: Response,
)
    requires
        registered(
            vars,
            device,
            email,
            password,
            users,
            counts,
            records,
            new_users,
            new_counts,
            new_records,
            r,
        ),
    ensures
        ({
            let key = text::lowercase_of(text::trimmed(email));
            let size = vstd::utf8::encode_utf8(password).len();
            let worth = auth::email_ok(key) && size >= 6;
            &&& r.status == 200 <==> worth && size < 0x1_0000_0000 && !users.contains_key(key)
            &&& r.status == 409 <==> worth && users.contains_key(key)
            &&& r.status == 200 || r.status == 409 || r.status == 400
            &&& r.status == 409 ==> r.body@.text_under("error"@) == Some("email_taken"@)
            &&& r.status == 400 ==> r.body@.text_under("error"@) == Some("invalid"@)
            &&& r.status != 200 ==> new_users == users && new_counts == counts && new_records
                == records
            &&& r.status == 200 ==> {
                let account = new_users[key];
                &&& new_users == users.insert(key, account)
                &&& account.email == key
                &&& auth::login_of(new_users, email, password) == Some(account)
                &&& welcomes(vars, r, account.id, key)
                &&& new_counts == migrated_counts(counts, device, account.id)
                &&& new_records == migrated_records(records, device, account.id)
            }
        }),
{
}

/// What comes of asking for the own account: the account with the id, whole, or
/// 401 where no account has it or no token was taken.
pub proof fn law_own_accounts_are_shown(
    users: Map<Seq<char>, auth::Account>,
    key: Seq<char>,
    id: Seq<char>,
    r: Response,
)
    ensures
        shows_account(users, None, r) ==> r.status == 401 && r.body@.text_under("error"@) == Some(
            "unauthorized"@,
        ),
        shows_account(users, Some(id), r) && users.contains_key(key) && users[key].id == id
            ==> r.status == 200 && r.body@.text_under("id"@) == Some(id),
        shows_account(users, Some(id), r) ==> r.status == 200 || r.status == 401,
{
    if shows_account(users, Some(id), r) && users.contains_key(key) && users[key].id == id {
        let given = Some(id);
        assert(auth::has_id(users, key, given->0));
        let found = choose|found: Seq<char>| #[trigger]
            auth::has_id(users, found, given->0) && r.body@ == account_json(
                users[found].id,
                users[found].email,
            );
        law_welcomes_are_complete(id, id, users[found].email);
    }
}

/// Whoever is welcomed gets a token that was issued for the account by the clock,
/// and is shown the account.
pub proof fn law_welcomes_bring_a_token(
    vars: Map<Seq<char>, Seq<char>>,
    r: Response,
    id: Seq<char>,
    email: Seq<char>,
)
    requires
        welcomes(vars, r, id, email),
    ensures
        r.status == 200,
        r.body@.member("user"@) == Some(account_json(id, email)),
        exists|token: Seq<char>, clock: i64|
            clock::was_read(clock) && #[trigger] auth::is_issued(
                token,
                id,
                auth::secret_of(vars),
                auth::moment_for(clock),
            ) && r.body@.text_under("token"@) == Some(token),
{
    let (token, clock) = choose|token: Seq<char>, clock: i64|
        clock::was_read(clock) && #[trigger] auth::is_issued(
            token,
            id,
            auth::secret_of(vars),
            auth::moment_for(clock),
        ) && r.body@ == welcome_json(token, id, email);
    law_welcomes_are_complete(token, id, email);
    assert(auth::is_issued(token, id, auth::secret_of(vars), auth::moment_for(clock)));
}

/// A new account has an id that was drawn for it, the time at which it was opened,
/// and a hash of its password, which opens it.
pub proof fn law_new_accounts(
    before: Map<Seq<char>, auth::Account>,
    after: Map<Seq<char>, auth::Account>,
    email: Seq<char>,
    password: Seq<char>,
    account: auth::Account,
)
    requires
        is_new_account(before, after, email, password, account),
    ensures
        ({
            let key = text::lowercase_of(text::trimmed(email));
            &&& after == before.insert(key, account)
            &&& account.email == key
            &&& account.id == "acct_"@ + account.id.skip(5)
            &&& ids::was_drawn_simple(account.id.skip(5))
            &&& clock::was_read(account.created_at)
            &&& auth::was_hashed(vstd::utf8::encode_utf8(password), account.pass_hash)
            &&& auth::password_matches(account.pass_hash, vstd::utf8::encode_utf8(password))
            &&& auth::login_of(after, email, password) == Some(account)
        }),
{
    auth::law_account_ids(account.id, account.id);
}

} // verus!
