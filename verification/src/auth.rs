//! Accounts: registering, logging in, and the tokens that say who is asking.
use crate::clock::{self, now_secs};
use crate::ids::{self, random_simple_uuid};
use crate::json::{self, Fields, Json, JsonTree};
use crate::settings::{self, Settings};
use crate::table::{self, Table};
use crate::text::{self, chars_of, lowercase, str_eq, trim};
use argon2::password_hash::rand_core::OsRng;
use argon2::password_hash::{PasswordHash, PasswordHasher, PasswordVerifier, SaltString};
use argon2::Argon2;
use jsonwebtoken::{decode, encode, DecodingKey, EncodingKey, Header, Validation};
use vstd::prelude::*;

verus! {

/// An account. The id is what everything else goes by; the address is only for
/// logging in; of the password nothing but a hash is kept.
pub struct User {
    pub id: String,
    pub email: String,
    pub pass_hash: String,
    pub created_at: i64,
}

/// The meaning of an account.
pub struct Account {
    pub id: Seq<char>,
    pub email: Seq<char>,
    pub pass_hash: Seq<char>,
    pub created_at: i64,
}

impl View for User {
    type V = Account;

    open spec fn view(&self) -> Account {
        Account {
            id: self.id@,
            email: self.email@,
            pass_hash: self.pass_hash@,
            created_at: self.created_at,
        }
    }
}

impl Clone for User {
    fn clone(&self) -> (r: User)
        ensures
            r == *self,
    {
        User {
            id: self.id.clone(),
            email: self.email.clone(),
            pass_hash: self.pass_hash.clone(),
            created_at: self.created_at,
        }
    }
}

/// The longest password that can be hashed, in bytes.
pub const MAX_PASSWORD_LEN: u64 = 0xffff_ffff;

/// The form in which an address is kept and looked up.
pub open spec fn email_key(email: Seq<char>) -> Seq<char> {
    text::lowercase_of(text::trimmed(email))
}

/// An address worth an account: three bytes or more, with an `@` that is
/// neither first nor last.
pub open spec fn email_ok(key: Seq<char>) -> bool {
    vstd::utf8::encode_utf8(key).len() >= 3 && key.contains('@') && key.first() != '@' && key.last()
        != '@'
}

/// A password of six bytes or more.
pub open spec fn password_ok(password: Seq<char>) -> bool {
    vstd::utf8::encode_utf8(password).len() >= 6
}

/// A password that can be hashed.
pub open spec fn password_hashable(password: Seq<char>) -> bool {
    vstd::utf8::encode_utf8(password).len() <= MAX_PASSWORD_LEN
}

/// Whether a password fits a hash, as `argon2` checks it.
pub uninterp spec fn password_matches(hash: Seq<char>, password: Seq<u8>) -> bool;

/// A number of lanes of nine digits or more stands at position `i`.
pub open spec fn lanes_at(hash: Seq<char>, i: int) -> bool {
    &&& 0 <= i && i + 11 <= hash.len() && hash[i] == 'p' && hash[i + 1] == '='
    &&& forall|j: int| i + 2 <= j < i + 11 ==> text::is_digit(#[trigger] hash[j])
}

/// The hash asks for more lanes than there can be. No password fits it.
pub open spec fn too_many_lanes(hash: Seq<char>) -> bool {
    exists|i: int| lanes_at(hash, i)
}

/// How the hashes of new accounts begin: with the name of the algorithm.
pub const HASH_PREFIX: &'static str = "$argon2id$";

/// Calls `argon2`: `PasswordHash::new` on the hash and, where that can be read,
/// `Argon2::verify_password` with the default parameters. The result is a
/// function of hash and password. A number of lanes of nine digits or more is
/// left out: it is more than `argon2` takes, but it may overflow before it is
/// refused. The memory and the time that the hash asks for must be there.
#[verifier::external_body]
fn check_password(hash: &str, password: &[u8]) -> (r: bool)
    requires
        !too_many_lanes(hash@),
    ensures
        r == password_matches(hash@, password@),
{
    match PasswordHash::new(hash) {
        Ok(parsed) => Argon2::default().verify_password(password, &parsed).is_ok(),
        Err(_) => false,
    }
}

/// Calls `argon2`: `PasswordHasher::hash_password` with the default parameters
/// and a salt that `SaltString::generate` draws at random. It fails only on a
/// password that is too long. The hash fits the password, names the algorithm
/// first, and asks for a single lane. Which hash it is, is left to chance.
#[verifier::external_body]
fn hash_password(password: &[u8]) -> (r: Option<String>)
    ensures
        r is Some <==> password@.len() <= MAX_PASSWORD_LEN,
        r matches Some(hash) ==> password_matches(hash@, password@) && !too_many_lanes(hash@)
            && HASH_PREFIX@.is_prefix_of(hash@),
{
    let salt = SaltString::generate(&mut OsRng);
    Argon2::default().hash_password(password, &salt).ok().map(|hash| hash.to_string())
}

/// `hash` was made by chance of the password.
pub closed spec fn was_hashed(password: Seq<u8>, hash: Seq<char>) -> bool {
    exists|p: &[u8], r: Option<String>| #[trigger]
        call_ensures(hash_password, (p,), r) && p@ == password && text::opt_text(r) == Some(hash)
}

/// Whether a number of lanes of nine digits or more stands at position `i`.
fn names_lanes_at(chars: &Vec<char>, i: usize) -> (r: bool)
    requires
        i + 11 <= chars@.len(),
    ensures
        r == lanes_at(chars@, i as int),
{
    let len: usize = chars.len();
    if chars[i] != 'p' || chars[i + 1] != '=' {
        return false;
    }
    let mut j: usize = i + 2;
    while j < i + 11
        invariant
            len == chars@.len(),
            i + 2 <= j <= i + 11 <= len,
            forall|k: int| i + 2 <= k < j ==> text::is_digit(#[trigger] chars@[k]),
        decreases i + 11 - j,
    {
        if chars[j] < '0' || chars[j] > '9' {
            assert(!text::is_digit(chars@[j as int]));
            return false;
        }
        j = j + 1;
    }
    true
}

/// Whether a hash asks for more lanes than there can be.
pub fn names_too_many_lanes(hash: &str) -> (r: bool)
    ensures
        r == too_many_lanes(hash@),
{
    let chars = chars_of(hash);
    let len: usize = chars.len();
    let mut i: usize = 0;
    while i < len && len - i >= 11
        invariant
            chars@ == hash@,
            len == chars@.len(),
            i <= len,
            forall|k: int| 0 <= k < i ==> !lanes_at(hash@, k),
        decreases len - i,
    {
        if names_lanes_at(&chars, i) {
            assert(lanes_at(hash@, i as int));
            return true;
        }
        i = i + 1;
    }
    false
}

/// The account that a log-in opens.
pub open spec fn login_of(
    users: Map<Seq<char>, Account>,
    email: Seq<char>,
    password: Seq<char>,
) -> Option<Account> {
    if users.contains_key(email_key(email)) && !too_many_lanes(users[email_key(email)].pass_hash)
        && password_matches(
        users[email_key(email)].pass_hash,
        vstd::utf8::encode_utf8(password),
    ) {
        Some(users[email_key(email)])
    } else {
        None
    }
}

/// The accounts of a table of users.
pub open spec fn accounts(users: Map<Seq<char>, User>) -> Map<Seq<char>, Account> {
    users.map_values(|u: User| u@)
}

/// An account has the id `id`.
pub open spec fn has_id(users: Map<Seq<char>, Account>, key: Seq<char>, id: Seq<char>) -> bool {
    users.contains_key(key) && users[key].id == id
}

/// The id of an account is one that registering gives.
pub open spec fn is_account_id(id: Seq<char>) -> bool {
    id.len() == 37 && id.take(5) == "acct_"@ && ids::is_simple_uuid(id.skip(5))
}

/// The form in which an address is kept and looked up: without white space
/// around it, and in lower case.
pub fn normalize_email(email: &str) -> (key: String)
    ensures
        key@ == email_key(email@),
        text::all_ascii(text::trimmed(email@)) ==> key@ == text::trimmed(email@).map_values(
            |c: char| text::ascii_lower(c),
        ),
        text::all_ascii(text::trimmed(email@)) ==> email_key(key@) == key@,
{
    let key = lowercase(trim(email));
    proof {
        let kept = text::trimmed(email@);
        text::lemma_trimmed(email@);
        if text::all_ascii(kept) {
            assert(text::is_trimmed(key@)) by {
                if kept.len() > 0 {
                    assert(key@[0] == text::ascii_lower(kept[0]));
                    assert(key@.last() == text::ascii_lower(kept.last()));
                }
            }
            text::lemma_trimmed(key@);
        }
    }
    key
}

/// Whether an address, in the form in which it is kept, is worth an account.
pub fn is_valid_email(key: &str) -> (r: bool)
    ensures
        r == email_ok(key@),
{
    let chars = chars_of(key);
    let n: usize = chars.len();
    if n == 0 {
        return false;
    }
    let mut found = false;
    let mut i: usize = 0;
    while i < n
        invariant
            i <= n,
            n == chars@.len(),
            chars@ == key@,
            found <==> exists|j: int| 0 <= j < i && chars@[j] == '@',
        decreases n - i,
    {
        if chars[i] == '@' {
            found = true;
        }
        i = i + 1;
    }
    key.as_bytes().len() >= 3 && found && chars[0] != '@' && chars[n - 1] != '@'
}

/// Whether a password is long enough.
pub fn is_valid_password(password: &str) -> (r: bool)
    ensures
        r == password_ok(password@),
{
    password.as_bytes().len() >= 6
}

/// All accounts, by address.
pub struct UserStore {
    users: Table<User>,
}

impl View for UserStore {
    type V = Map<Seq<char>, Account>;

    closed spec fn view(&self) -> Map<Seq<char>, Account> {
        accounts(self.users@)
    }
}

impl UserStore {
    /// The store of the accounts that were read back; an empty one if there
    /// were none to read.
    pub fn load(entries: Option<Vec<(String, User)>>) -> (store: UserStore)
        ensures
            store@ == match entries {
                Some(list) => accounts(table::entries_map(list@)),
                None => Map::<Seq<char>, Account>::empty(),
            },
    {
        let users = match entries {
            Some(list) => Table::from_entries(list),
            None => Table::new(),
        };
        assert(accounts(Map::<Seq<char>, User>::empty()) =~= Map::<Seq<char>, Account>::empty());
        UserStore { users }
    }

    /// The accounts to store. Loading them gives the same accounts back.
    pub fn entries(&self) -> (r: &Vec<(String, User)>)
        ensures
            accounts(table::entries_map(r@)) == self@,
            table::distinct_names(r@),
    {
        self.users.entries()
    }

    /// Opens an account under an address in the form in which it is kept, with
    /// what was drawn for it. Without a hash there is no account.
    pub fn enroll(
        &mut self,
        key: String,
        pass_hash: Option<String>,
        id: String,
        created_at: i64,
    ) -> (r: Result<User, &'static str>)
        ensures
            match r {
                Ok(user) => {
                    &&& !old(self)@.contains_key(key@)
                    &&& pass_hash is Some
                    &&& user@ == (Account {
                        id: id@,
                        email: key@,
                        pass_hash: pass_hash->0@,
                        created_at,
                    })
                    &&& final(self)@ == old(self)@.insert(key@, user@)
                },
                Err(e) => {
                    &&& final(self)@ == old(self)@
                    &&& if old(self)@.contains_key(key@) {
                        e@ == "email_taken"@
                    } else {
                        pass_hash is None && e@ == "invalid"@
                    }
                },
            },
    {
        if self.users.get(key.as_str()).is_some() {
            return Err("email_taken");
        }
        match pass_hash {
            Some(pass_hash) => {
                let user = User { id, email: key.clone(), pass_hash, created_at };
                let ghost before = self.users@;
                self.users.insert(key, user.clone());
                assert(accounts(before.insert(key@, user)) =~= accounts(before).insert(
                    key@,
                    user@,
                ));
                Ok(user)
            },
            None => Err("invalid"),
        }
    }

    /// Registers an account. The address must look like one, the password must
    /// be long enough, and the address must not be taken. The id, the hash and
    /// the time of a new account are left open, but for what is said here; the
    /// new account can be logged in to with the password.
    pub fn register(&mut self, email: &str, password: &str) -> (r: Result<User, &'static str>)
        ensures
            match r {
                Ok(user) => {
                    &&& email_ok(email_key(email@)) && password_ok(password@) && password_hashable(
                        password@,
                    )
                    &&& !old(self)@.contains_key(email_key(email@))
                    &&& user@.email == email_key(email@)
                    &&& is_account_id(user@.id)
                    &&& ids::was_drawn_simple(user@.id.skip(5))
                    &&& clock::was_read(user@.created_at)
                    &&& was_hashed(vstd::utf8::encode_utf8(password@), user@.pass_hash)
                    &&& HASH_PREFIX@.is_prefix_of(user@.pass_hash)
                    &&& password_matches(user@.pass_hash, vstd::utf8::encode_utf8(password@))
                    &&& final(self)@ == old(self)@.insert(email_key(email@), user@)
                    &&& login_of(final(self)@, email@, password@) == Some(user@)
                },
                Err(e) => {
                    &&& final(self)@ == old(self)@
                    &&& if !email_ok(email_key(email@)) || !password_ok(password@) {
                        e@ == "invalid"@
                    } else if old(self)@.contains_key(email_key(email@)) {
                        e@ == "email_taken"@
                    } else {
                        !password_hashable(password@) && e@ == "invalid"@
                    }
                },
            },
    {
        let key = normalize_email(email);
        if !is_valid_email(key.as_str()) || !is_valid_password(password) {
            return Err("invalid");
        }
        if self.users.get(key.as_str()).is_some() {
            return Err("email_taken");
        }
        let pass_hash = hash_password(password.as_bytes());
        proof {
            assert(pass_hash is Some ==> was_hashed(
                vstd::utf8::encode_utf8(password@),
                pass_hash->0@,
            ));
        }
        let drawn = random_simple_uuid();
        let mut id = "acct_".to_owned();
        id.append(drawn.as_str());
        proof {
            reveal_strlit("acct_");
            assert(id@.take(5) =~= "acct_"@);
            assert(id@.skip(5) =~= drawn@);
            ids::lemma_drawn_simple(drawn);
        }
        let created_at: i64 = now_secs();
        self.enroll(key, pass_hash, id, created_at)
    }

    /// The account under an address, where its password was found to fit.
    pub fn login_checked(&self, email: &str, fits: bool) -> (r: Option<User>)
        ensures
            match r {
                Some(user) => fits && self@.contains_key(email_key(email@))
                    && self@[email_key(email@)] == user@,
                None => !fits || !self@.contains_key(email_key(email@)),
            },
    {
        if !fits {
            return None;
        }
        let key = normalize_email(email);
        match self.users.get(key.as_str()) {
            Some(user) => Some(user.clone()),
            None => None,
        }
    }

    /// Logs in: the account under the address, if the password fits. An address
    /// of ASCII characters is as good as the form in which it is kept.
    pub fn login(&self, email: &str, password: &str) -> (r: Option<User>)
        ensures
            match r {
                Some(user) => login_of(self@, email@, password@) == Some(user@),
                None => login_of(self@, email@, password@) is None,
            },
            text::all_ascii(text::trimmed(email@)) ==> login_of(
                self@,
                email_key(email@),
                password@,
            ) == login_of(self@, email@, password@),
    {
        let key = normalize_email(email);
        let fits = match self.users.get(key.as_str()) {
            Some(user) => !names_too_many_lanes(user.pass_hash.as_str()) && check_password(
                user.pass_hash.as_str(),
                password.as_bytes(),
            ),
            None => false,
        };
        self.login_checked(email, fits)
    }

    /// An account with the given id, if there is one.
    pub fn get(&self, id: &str) -> (r: Option<User>)
        ensures
            match r {
                Some(user) => exists|key: Seq<char>| #[trigger]
                    has_id(self@, key, id@) && self@[key] == user@,
                None => forall|key: Seq<char>| !#[trigger] has_id(self@, key, id@),
            },
    {
        let entries = self.users.entries();
        proof {
            table::lemma_entries_map(entries@);
        }
        let mut i: usize = 0;
        while i < entries.len()
            invariant
                i <= entries@.len(),
                self@ == accounts(table::entries_map(entries@)),
                forall|j: int|
                    0 <= j < entries@.len() ==> table::entries_map(entries@).contains_key(
                        (#[trigger] entries@[j]).0@,
                    ) && table::entries_map(entries@)[entries@[j].0@] == entries@[j].1,
                forall|j: int| 0 <= j < i ==> (#[trigger] entries@[j]).1.id@ != id@,
            decreases entries@.len() - i,
        {
            if str_eq(entries[i].1.id.as_str(), id) {
                assert(has_id(self@, entries@[i as int].0@, id@));
                return Some(entries[i].1.clone());
            }
            i = i + 1;
        }
        assert forall|key: Seq<char>| !#[trigger] has_id(self@, key, id@) by {
            if self@.contains_key(key) {
                let j = choose|j: int| 0 <= j < entries@.len() && (#[trigger] entries@[j]).0@ == key;
                assert(self@[key] == entries@[j].1@);
            }
        }
        None
    }
}

/// How long a token lives: 30 days.
pub const TOKEN_TTL_SECS: i64 = 2_592_000;

/// The signing secret of a local start without configuration.
pub const DEV_FALLBACK_SECRET: &'static str = "loveai-dev-insecure-secret-change-me";

/// What a token says: whose it is, and until when.
pub open spec fn token_claims(user: Seq<char>, exp: int) -> JsonTree {
    JsonTree::Object(
        map!["sub"@ => JsonTree::Text(user), "exp"@ => JsonTree::Int(exp)],
    )
}

/// The user whom claims name: the text under `sub`, beside an `exp` that an
/// `i64` can hold.
pub open spec fn claimed_user(claims: JsonTree) -> Option<Seq<char>> {
    match claims.member("exp"@) {
        Some(JsonTree::Int(exp)) => if i64::MIN <= exp <= i64::MAX {
            claims.text_under("sub"@)
        } else {
            None
        },
        _ => None,
    }
}

/// How long past its expiry a token is still taken, so that clocks may differ.
pub const TOKEN_LEEWAY_SECS: u64 = 60;

/// At `now`, in seconds since the Unix epoch, claims with an integer for an
/// expiry are not past it by more than the leeway.
pub open spec fn in_time(claims: JsonTree, now: u64) -> bool {
    claims.member("exp"@) matches Some(JsonTree::Int(exp)) && now <= exp + TOKEN_LEEWAY_SECS
}

/// The user whom the sound claims of a token name at `now`, if they are in time.
pub open spec fn user_at(sound: Option<JsonTree>, now: u64) -> Option<Seq<char>> {
    match sound {
        Some(claims) => if in_time(claims, now) {
            claimed_user(claims)
        } else {
            None
        },
        None => None,
    }
}

/// The secret that the settings give, or the one of a local start.
pub open spec fn secret_of(vars: Map<Seq<char>, Seq<char>>) -> Seq<u8> {
    vstd::utf8::encode_utf8(
        settings::or_else(settings::picked(vars, "AUTH_JWT_SECRET"@), DEV_FALLBACK_SECRET@),
    )
}

/// The token that `jsonwebtoken::encode` makes of claims and a secret.
pub uninterp spec fn signed_token(claims: JsonTree, secret: Seq<u8>) -> Seq<char>;

/// The claims of a token, where `jsonwebtoken::decode` finds nothing amiss with
/// it but, at some times, the time.
pub uninterp spec fn sound_claims(token: Seq<char>, secret: Seq<u8>) -> Option<JsonTree>;

/// What came of reading a token.
pub enum TokenReading {
    Claims(serde_json::Value),
    OutOfTime,
    Refused,
}

/// Calls `jsonwebtoken::encode` with its default header, which is HMAC with
/// SHA-256. On a JSON value it never fails, and the token is a function of the
/// claims and the secret. Decoding it with the same secret, claims about a user
/// with an expiry from the epoch on are given back.
#[verifier::external_body]
fn sign_claims(claims: &serde_json::Value, secret: &[u8]) -> (r: Option<String>)
    ensures
        r is Some,
        r->0@ == signed_token(json::value_tree(*claims), secret@),
        forall|user: Seq<char>, exp: int|
            0 <= exp <= u64::MAX && json::value_tree(*claims) == #[trigger] token_claims(user, exp)
                ==> sound_claims(r->0@, secret@) == Some(token_claims(user, exp)),
{
    encode(&Header::default(), claims, &EncodingKey::from_secret(secret)).ok()
}

/// What `reading` says of a token is so at `now`: sound claims come out where
/// they are in time, and a token with sound claims is out of time where they are
/// not. Claims whose expiry is no integer are left open in this.
pub open spec fn read_at(token: Seq<char>, secret: Seq<u8>, reading: TokenReading, now: u64) -> bool {
    let sound = sound_claims(token, secret);
    match reading {
        TokenReading::Claims(claims) => {
            &&& sound == Some(json::value_tree(claims))
            &&& json::value_tree(claims).member("exp"@) matches Some(JsonTree::Int(exp)) ==> in_time(
                json::value_tree(claims),
                now,
            )
        },
        TokenReading::OutOfTime => sound is Some ==> !in_time(sound->0, now),
        TokenReading::Refused => sound is None,
    }
}

/// Calls `jsonwebtoken::decode` with its default checks: the signature, the
/// shape of the claims, that an expiry is there and there is no audience, and
/// that the expiry is not past by more than a leeway of 60 seconds. By which
/// moment it judges the expiry is left to the clock, which must stand a minute
/// past the Unix epoch or later; all else is a function of token and secret.
#[verifier::external_body]
fn read_token(token: &str, secret: &[u8]) -> (r: TokenReading)
    ensures
        exists|now: u64| #[trigger] read_at(token@, secret@, r, now),
{
    match decode(token, &DecodingKey::from_secret(secret), &Validation::default()) {
        Ok(data) => TokenReading::Claims(data.claims),
        Err(e) => match e.kind() {
            jsonwebtoken::errors::ErrorKind::ExpiredSignature => TokenReading::OutOfTime,
            _ => TokenReading::Refused,
        },
    }
}

/// `reading` is what came of reading the token with the secret.
pub closed spec fn token_was_read(
    token: Seq<char>,
    secret: Seq<u8>,
    reading: TokenReading,
) -> bool {
    exists|t: &str, k: &[u8]| #[trigger]
        call_ensures(read_token, (t, k), reading) && t@ == token && k@ == secret
}

/// The user whom a token names, as it was read.
pub open spec fn user_read(reading: TokenReading) -> Option<Seq<char>> {
    match reading {
        TokenReading::Claims(claims) => claimed_user(json::value_tree(claims)),
        TokenReading::OutOfTime => None,
        TokenReading::Refused => None,
    }
}

/// Whatever is read of a token is so at some moment.
pub proof fn law_readings_are_so(token: Seq<char>, secret: Seq<u8>, reading: TokenReading)
    requires
        token_was_read(token, secret, reading),
    ensures
        exists|now: u64| #[trigger] read_at(token, secret, reading, now),
{
}

/// The secret to sign and check tokens with.
pub fn jwt_secret(settings: &Settings) -> (secret: Vec<u8>)
    ensures
        secret@ == secret_of(settings@),
{
    match settings.pick("AUTH_JWT_SECRET") {
        Some(secret) => vstd::slice::slice_to_vec(secret.as_str().as_bytes()),
        None => vstd::slice::slice_to_vec(DEV_FALLBACK_SECRET.as_bytes()),
    }
}

/// The user whom the claims of a token name.
pub fn user_in_claims(claims: &Json) -> (r: Option<String>)
    ensures
        match r {
            Some(user) => claimed_user(claims@) == Some(user@),
            None => claimed_user(claims@) is None,
        },
{
    let fits = match claims.get("exp") {
        Some(Json::Unsigned(exp)) => *exp <= 0x7fff_ffff_ffff_ffff,
        Some(Json::Signed(_)) => true,
        _ => false,
    };
    if !fits {
        return None;
    }
    match claims.text_under("sub") {
        Some(user) => Some(user.to_owned()),
        None => None,
    }
}

/// The user whom a token names, as it was read: only sound claims in time name
/// one.
pub fn user_of_reading(reading: TokenReading) -> (r: Option<String>)
    ensures
        text::opt_text(r) == match reading {
            TokenReading::Claims(claims) => claimed_user(json::value_tree(claims)),
            TokenReading::OutOfTime => None,
            TokenReading::Refused => None,
        },
{
    match reading {
        TokenReading::Claims(claims) => user_in_claims(&Json::from_value(claims)),
        TokenReading::OutOfTime => None,
        TokenReading::Refused => None,
    }
}

/// A token for `user_id` that was issued at `now`.
pub fn issue_at(user_id: &str, secret: &[u8], now: i64) -> (token: String)
    requires
        now + TOKEN_TTL_SECS <= i64::MAX,
    ensures
        token@ == signed_token(token_claims(user_id@, now + TOKEN_TTL_SECS), secret@),
        now + TOKEN_TTL_SECS >= 0 ==> sound_claims(token@, secret@) == Some(
            token_claims(user_id@, now + TOKEN_TTL_SECS),
        ),
{
    let exp: i64 = now + TOKEN_TTL_SECS;
    let claims = Fields::new().with("sub", Json::text(user_id)).with(
        "exp",
        Json::Signed(exp),
    ).object();
    assert(claims@ == token_claims(user_id@, exp as int));
    match sign_claims(&claims.to_value(), secret) {
        Some(token) => token,
        None => String::new(),
    }
}

/// The token was issued at `now` for `user`, and names no one else.
pub open spec fn is_issued(token: Seq<char>, user: Seq<char>, secret: Seq<u8>, now: i64) -> bool {
    &&& 0 <= now <= i64::MAX - TOKEN_TTL_SECS
    &&& token == signed_token(token_claims(user, now + TOKEN_TTL_SECS), secret)
    &&& sound_claims(token, secret) == Some(token_claims(user, now + TOKEN_TTL_SECS))
}

/// The moment of issue for what the clock says.
pub open spec fn moment_for(clock: i64) -> i64 {
    if clock < 0 {
        0
    } else if clock > i64::MAX - TOKEN_TTL_SECS {
        (i64::MAX - TOKEN_TTL_SECS) as i64
    } else {
        clock
    }
}

/// The moment of issue for what the clock says: that, or the nearest moment from
/// the epoch on whose expiry an `i64` can hold.
pub fn issue_moment(clock: i64) -> (now: i64)
    ensures
        now == (if clock < 0 {
            0
        } else if clock > i64::MAX - TOKEN_TTL_SECS {
            i64::MAX - TOKEN_TTL_SECS
        } else {
            clock as int
        }),
        now == moment_for(clock),
{
    if clock < 0 {
        0
    } else if clock > i64::MAX - TOKEN_TTL_SECS {
        i64::MAX - TOKEN_TTL_SECS
    } else {
        clock
    }
}

/// A token for `user_id`, issued at the time of the clock, which is left open.
pub fn issue_with(user_id: &str, secret: &[u8]) -> (token: String)
    ensures
        exists|now: i64| #[trigger] is_issued(token@, user_id@, secret@, now),
        exists|clock: i64| #[trigger]
            clock::was_read(clock) && is_issued(token@, user_id@, secret@, moment_for(clock)),
{
    let clock: i64 = now_secs();
    let now: i64 = issue_moment(clock);
    let token = issue_at(user_id, secret, now);
    assert(is_issued(token@, user_id@, secret@, now));
    token
}

/// The user of a token, where the secret signed it and it is in time. It is
/// judged by the moment of the clock, which is left open.
pub fn verify_with(token: &str, secret: &[u8]) -> (r: Option<String>)
    ensures
        exists|reading: TokenReading, now: u64|
            token_was_read(token@, secret@, reading) && #[trigger] read_at(
                token@,
                secret@,
                reading,
                now,
            ) && text::opt_text(r) == user_read(reading),
        exists|now: u64|
            text::opt_text(r) == #[trigger] user_at(sound_claims(token@, secret@), now),
{
    let reading = read_token(token, secret);
    let ghost now = choose|now: u64| #[trigger] read_at(token@, secret@, reading, now);
    assert(token_was_read(token@, secret@, reading));
    assert(read_at(token@, secret@, reading, now));
    let r = user_of_reading(reading);
    assert(text::opt_text(r) == user_at(sound_claims(token@, secret@), now));
    r
}

/// A token for `user_id`, signed with the secret of the settings.
pub fn issue(settings: &Settings, user_id: &str) -> (token: String)
    ensures
        exists|now: i64| #[trigger] is_issued(token@, user_id@, secret_of(settings@), now),
        exists|clock: i64| #[trigger]
            clock::was_read(clock) && is_issued(
                token@,
                user_id@,
                secret_of(settings@),
                moment_for(clock),
            ),
{
    let secret = jwt_secret(settings);
    issue_with(user_id, secret.as_slice())
}

/// The user of a token that was signed with the secret of the settings.
pub fn verify(settings: &Settings, token: &str) -> (r: Option<String>)
    ensures
        exists|reading: TokenReading, now: u64|
            token_was_read(token@, secret_of(settings@), reading) && #[trigger] read_at(
                token@,
                secret_of(settings@),
                reading,
                now,
            ) && text::opt_text(r) == user_read(reading),
        exists|now: u64|
            text::opt_text(r) == #[trigger] user_at(
                sound_claims(token@, secret_of(settings@)),
                now,
            ),
{
    let secret = jwt_secret(settings);
    verify_with(token, secret.as_slice())
}

/// The claims about a user name that user and nobody else.
pub proof fn law_claims_name_their_user(user: Seq<char>, exp: int)
    requires
        i64::MIN <= exp <= i64::MAX,
    ensures
        claimed_user(token_claims(user, exp)) == Some(user),
{
    reveal_strlit("sub");
    reveal_strlit("exp");
    assert("sub"@[0] != "exp"@[0]);
}

/// A token that was issued names the user whom it was issued for.
pub proof fn law_issued_token_names_its_user(
    token: Seq<char>,
    user: Seq<char>,
    secret: Seq<u8>,
    now: i64,
)
    requires
        is_issued(token, user, secret, now),
    ensures
        sound_claims(token, secret) matches Some(claims) && claimed_user(claims) == Some(user),
{
    law_claims_name_their_user(user, now + TOKEN_TTL_SECS);
}

/// A token names the user whom it was issued for until 30 days and the leeway
/// have passed, and nobody from then on.
pub proof fn law_token_lives_thirty_days(
    token: Seq<char>,
    user: Seq<char>,
    secret: Seq<u8>,
    issued: i64,
    now: u64,
)
    requires
        is_issued(token, user, secret, issued),
    ensures
        user_at(sound_claims(token, secret), now) == (if now <= issued + TOKEN_TTL_SECS
            + TOKEN_LEEWAY_SECS {
            Some(user)
        } else {
            None
        }),
{
    law_claims_name_their_user(user, issued + TOKEN_TTL_SECS);
}

/// Two spellings of an address that are kept in the same form open the same
/// account.
pub proof fn law_login_ignores_spelling(
    users: Map<Seq<char>, Account>,
    a: Seq<char>,
    b: Seq<char>,
    password: Seq<char>,
)
    requires
        email_key(a) == email_key(b),
    ensures
        login_of(users, a, password) == login_of(users, b, password),
{
}

/// Where the form in which an address is kept is kept as it is, logging in with
/// that form is the same as logging in with the address. `normalize_email` gives
/// the premise for addresses of ASCII characters.
pub proof fn law_login_by_kept_form(
    users: Map<Seq<char>, Account>,
    email: Seq<char>,
    password: Seq<char>,
)
    requires
        email_key(email_key(email)) == email_key(email),
    ensures
        login_of(users, email_key(email), password) == login_of(users, email, password),
{
}

/// A new account whose id is nobody else's is the one that is found by that id.
pub proof fn law_new_account_is_found_by_its_id(
    users: Map<Seq<char>, Account>,
    key: Seq<char>,
    account: Account,
    found: Seq<char>,
)
    requires
        forall|other: Seq<char>| !#[trigger] has_id(users, other, account.id),
    ensures
        has_id(users.insert(key, account), key, account.id),
        has_id(users.insert(key, account), found, account.id) ==> found == key,
{
    if found != key {
        assert(!has_id(users, found, account.id));
    }
}

/// A new account changes no log-in under another address.
pub proof fn law_registering_is_personal(
    users: Map<Seq<char>, Account>,
    email: Seq<char>,
    account: Account,
    other: Seq<char>,
    password: Seq<char>,
)
    requires
        email_key(other) != email_key(email),
    ensures
        login_of(users.insert(email_key(email), account), other, password) == login_of(
            users,
            other,
            password,
        ),
{
}

/// A hash that asks for more lanes than there can be opens for no password.
pub proof fn law_too_many_lanes_open_nothing(
    users: Map<Seq<char>, Account>,
    email: Seq<char>,
    password: Seq<char>,
)
    requires
        users.contains_key(email_key(email)),
        too_many_lanes(users[email_key(email)].pass_hash),
    ensures
        login_of(users, email, password) is None,
{
}

/// A wrong password opens nothing.
pub proof fn law_wrong_password_opens_nothing(
    users: Map<Seq<char>, Account>,
    email: Seq<char>,
    password: Seq<char>,
)
    requires
        users.contains_key(email_key(email)) ==> !password_matches(
            users[email_key(email)].pass_hash,
            vstd::utf8::encode_utf8(password),
        ),
    ensures
        login_of(users, email, password) is None,
{
}

/// Accounts that are written down and read back, in whatever order, are the
/// same accounts.
pub proof fn law_reload_keeps_accounts(stored: Seq<(String, User)>, loaded: Seq<(String, User)>)
    requires
        table::distinct_names(stored),
        table::distinct_names(loaded),
        table::entries_within(stored, loaded),
        table::entries_within(loaded, stored),
    ensures
        accounts(table::entries_map(loaded)) == accounts(table::entries_map(stored)),
{
    table::lemma_same_entries(stored, loaded);
    assert(accounts(table::entries_map(loaded)) =~= table::entries_map(loaded).map_values(
        |v: User| v@,
    ));
    assert(accounts(table::entries_map(stored)) =~= table::entries_map(stored).map_values(
        |v: User| v@,
    ));
}

/// What is read of a token that was issued: its user, up to 30 days and a minute
/// after the moment of issue, and nobody later.
pub proof fn law_issued_tokens_are_read(
    token: Seq<char>,
    user: Seq<char>,
    secret: Seq<u8>,
    issued: i64,
    reading: TokenReading,
    now: u64,
)
    requires
        is_issued(token, user, secret, issued),
        read_at(token, secret, reading, now),
    ensures
        now <= issued + 2_592_060 ==> user_read(reading) == Some(user),
        now > issued + 2_592_060 ==> user_read(reading) is None,
{
    law_claims_name_their_user(user, issued + TOKEN_TTL_SECS);
    reveal_strlit("sub");
    reveal_strlit("exp");
    assert("sub"@[0] != "exp"@[0]);
}

/// A token that was issued is taken: checked with the secret that signed it, it
/// names its user up to 30 days and a minute after the moment of issue, and nobody
/// later.
pub proof fn law_issued_tokens_are_taken(
    user_id: &str,
    secret: &[u8],
    issued: i64,
    token: String,
    shown: &str,
    r: Option<String>,
)
    requires
        0 <= issued <= i64::MAX - 2_592_000,
        call_ensures(issue_at, (user_id, secret, issued), token),
        shown@ == token@,
        call_ensures(verify_with, (shown, secret), r),
    ensures
        exists|reading: TokenReading, now: u64|
            token_was_read(shown@, secret@, reading) && #[trigger] read_at(
                shown@,
                secret@,
                reading,
                now,
            ) && text::opt_text(r) == (if now <= issued + 2_592_060 {
                Some(user_id@)
            } else {
                None
            }),
{
    let (reading, now) = choose|reading: TokenReading, now: u64|
        token_was_read(shown@, secret@, reading) && #[trigger] read_at(
            shown@,
            secret@,
            reading,
            now,
        ) && text::opt_text(r) == user_read(reading);
    assert(is_issued(token@, user_id@, secret@, issued));
    law_issued_tokens_are_read(token@, user_id@, secret@, issued, reading, now);
}

/// Whoever is named by a token is named by what its sound claims hold under
/// `sub`, beside an expiry that is an integer of 64 bits with a sign.
pub proof fn law_claims_are_read(claims: JsonTree, now: u64)
    ensures
        claimed_user(claims) is Some <==> claims.member("exp"@) is Some && claims.member(
            "exp"@,
        )->0 is Int && -0x8000_0000_0000_0000 <= claims.member("exp"@)->0->Int_0
            <= 0x7fff_ffff_ffff_ffff && claims.member("sub"@) is Some && claims.member("sub"@)->0 is Text,
        claimed_user(claims) matches Some(user) ==> claims.member("sub"@) == Some(
            JsonTree::Text(user),
        ),
        user_at(None, now) is None,
        user_at(Some(claims), now) == (if claims.member("exp"@) is Some && claims.member(
            "exp"@,
        )->0 is Int && now <= claims.member("exp"@)->0->Int_0 + 60 {
            claimed_user(claims)
        } else {
            None
        }),
{
}

/// The secret is the one that is set, or, where none is set to more than white
/// space, the one of a local start.
pub proof fn law_secrets(vars: Map<Seq<char>, Seq<char>>)
    ensures
        vars.contains_key("AUTH_JWT_SECRET"@) && !text::is_blank(vars["AUTH_JWT_SECRET"@])
            ==> secret_of(vars) == vstd::utf8::encode_utf8(vars["AUTH_JWT_SECRET"@]),
        !vars.contains_key("AUTH_JWT_SECRET"@) || text::is_blank(vars["AUTH_JWT_SECRET"@])
            ==> secret_of(vars) == vstd::utf8::encode_utf8(
            "loveai-dev-insecure-secret-change-me"@,
        ),
{
}

/// Tokens are issued for the moment of the clock, as long as it stands from the
/// epoch on and 30 days before the end of what 64 bits can hold.
pub proof fn law_tokens_are_issued_by_the_clock(user_id: &str, secret: &[u8], token: String)
    requires
        call_ensures(issue_with, (user_id, secret), token),
    ensures
        exists|clock: i64|
            #![trigger clock::was_read(clock)]
            clock::was_read(clock) && (0 <= clock <= i64::MAX - 2_592_000 ==> is_issued(
                token@,
                user_id@,
                secret@,
                clock,
            ) && token@ == signed_token(token_claims(user_id@, clock + 2_592_000), secret@)),
{
    let clock = choose|clock: i64| #[trigger]
        clock::was_read(clock) && is_issued(token@, user_id@, secret@, moment_for(clock));
    assert(clock::was_read(clock));
}

/// An address is worth an account where it has three bytes or more, an `@` with
/// something on both sides, and none at either end; a password, where it has six
/// bytes or more; and it can be hashed where 32 bits can count its bytes.
pub proof fn law_what_is_worth_an_account(key: Seq<char>, password: Seq<char>)
    ensures
        email_ok(key) <==> vstd::utf8::encode_utf8(key).len() >= 3 && key[0] != '@' && key[key.len()
            - 1] != '@' && exists|i: int| 0 < i < key.len() - 1 && #[trigger] key[i] == '@',
        password_ok(password) <==> vstd::utf8::encode_utf8(password).len() >= 6,
        password_hashable(password) <==> vstd::utf8::encode_utf8(password).len() < 0x1_0000_0000,
{
    if key.contains('@') {
        let i = choose|i: int| 0 <= i < key.len() && key[i] == '@';
        if key[0] != '@' && key[key.len() - 1] != '@' {
            assert(0 < i < key.len() - 1 && key[i] == '@');
        }
    }
}

/// A log-in opens the account under the address, less the white space around it
/// and in lower case, where the password fits its hash, and no other.
pub proof fn law_what_a_log_in_opens(
    users: Map<Seq<char>, Account>,
    email: Seq<char>,
    password: Seq<char>,
)
    ensures
        ({
            let key = text::lowercase_of(text::trimmed(email));
            &&& login_of(users, email, password) is Some <==> users.contains_key(key)
                && !too_many_lanes(users[key].pass_hash) && password_matches(
                users[key].pass_hash,
                vstd::utf8::encode_utf8(password),
            )
            &&& login_of(users, email, password) matches Some(account) ==> account == users[key]
        }),
{
}

/// The id of an account is `acct_` and a UUID without hyphens.
pub proof fn law_account_ids(drawn: Seq<char>, id: Seq<char>)
    ensures
        ids::is_simple_uuid(drawn) ==> is_account_id("acct_"@ + drawn),
        is_account_id(id) ==> id == "acct_"@ + id.skip(5) && ids::is_simple_uuid(id.skip(5)),
{
    reveal_strlit("acct_");
    assert(("acct_"@ + drawn).take(5) =~= "acct_"@);
    assert(("acct_"@ + drawn).skip(5) =~= drawn);
    if is_account_id(id) {
        assert(id =~= id.take(5) + id.skip(5));
    }
}

/// A hash asks for too many lanes where `p=` stands in it before nine digits.
pub proof fn law_lanes_are_counted(before: Seq<char>, digits: Seq<char>, after: Seq<char>)
    requires
        digits.len() == 9,
        forall|i: int| 0 <= i < 9 ==> '0' <= #[trigger] digits[i] <= '9',
    ensures
        too_many_lanes(before + seq!['p', '='] + digits + after),
{
    let hash = before + seq!['p', '='] + digits + after;
    let at = before.len() as int;
    assert(hash[at] == 'p' && hash[at + 1] == '=');
    assert forall|j: int| at + 2 <= j < at + 11 implies text::is_digit(#[trigger] hash[j]) by {
        assert(hash[j] == digits[j - at - 2]);
    }
    assert(lanes_at(hash, at));
}

/// What was read of a token came from reading that token with that secret, and
/// what was hashed came from hashing that password.
proof fn law_tokens_and_passwords_are_handed_on(
    token: Seq<char>,
    secret: Seq<u8>,
    reading: TokenReading,
    password: Seq<u8>,
    hash: Seq<char>,
)
    ensures
        token_was_read(token, secret, reading) ==> exists|t: &str, k: &[u8]| #[trigger]
            call_ensures(read_token, (t, k), reading) && t@ == token && k@ == secret,
        was_hashed(password, hash) ==> exists|p: &[u8], r: Option<String>| #[trigger]
            call_ensures(hash_password, (p,), r) && p@ == password && r is Some && r->0@ == hash,
{
}

/// The accounts of a table are its users, field for field.
pub proof fn law_users_are_accounts(users: Map<Seq<char>, User>, key: Seq<char>)
    ensures
        accounts(users).contains_key(key) <==> users.contains_key(key),
        users.contains_key(key) ==> {
            let account = accounts(users)[key];
            &&& account.id == users[key].id@
            &&& account.email == users[key].email@
            &&& account.pass_hash == users[key].pass_hash@
            &&& account.created_at == users[key].created_at
        },
{
}

/// A token says whose it is and until when, and nothing else.
pub proof fn law_what_a_token_says(user: Seq<char>, exp: int, other: Seq<char>)
    ensures
        token_claims(user, exp).member("sub"@) == Some(JsonTree::Text(user)),
        token_claims(user, exp).member("exp"@) == Some(JsonTree::Int(exp)),
        other != "sub"@ && other != "exp"@ ==> token_claims(user, exp).member(other) is None,
{
    reveal_strlit("sub");
    reveal_strlit("exp");
    assert("sub"@[0] != "exp"@[0]);
}

/// The moment of issue is what the clock says, brought into the span from the
/// epoch to 30 days before the end of what 64 bits can hold.
pub proof fn law_moments_of_issue(clock: i64)
    ensures
        0 <= moment_for(clock) <= i64::MAX - 2_592_000,
        0 <= clock <= i64::MAX - 2_592_000 ==> moment_for(clock) == clock,
        clock < 0 ==> moment_for(clock) == 0,
        clock > i64::MAX - 2_592_000 ==> moment_for(clock) == i64::MAX - 2_592_000,
{
}

} // verus!
