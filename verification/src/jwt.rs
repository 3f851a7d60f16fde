//! Session tokens: HMAC-SHA256 signed JWTs that carry a user id and an expiry.
//!
//! A token's claims are `user_id` and `expires`, the latter a Unix timestamp in
//! decimal. A token is accepted while its expiry lies after the current time.
use vstd::prelude::*;
use std::collections::BTreeMap;
use hmac::digest::KeyInit;
use hmac::Hmac;
use sha2::Sha256;
use ::jwt::{SignWithKey, VerifyWithKey};
use time::OffsetDateTime;
use crate::cookies::{authorization_cookie, CookieJar};
use crate::decimal::{decimal_text, format_i64, i64_of_decimal, lemma_decimal_round_trip, parse_i64};
use crate::entries::{distinct_names, lookup, pairs_map, pairs_view};

verus! {

#[verifier::external_type_specification]
#[verifier::external_body]
pub struct ExJwtError(::jwt::Error);

/// The claims that `jwt`'s `verify_with_key` gives for `token`, read as a
/// `BTreeMap<String, String>`, under an HMAC-SHA256 key made from `secret`;
/// `None` where it reports an error (a malformed token, a header or algorithm
/// that does not fit, a signature that does not check, claims that are not a
/// map of strings).
pub uninterp spec fn verified_claims(token: Seq<char>, secret: Seq<u8>) -> Option<Map<Seq<char>, Seq<char>>>;

/// The token that `jwt`'s `sign_with_key` makes of the claims `claims` under an
/// HMAC-SHA256 key made from `secret`.
pub uninterp spec fn signed_token(claims: Map<Seq<char>, Seq<char>>, secret: Seq<u8>) -> Seq<char>;

/// Whether `time`'s `OffsetDateTime::from_unix_timestamp` accepts `t`: the
/// instants from -9999-01-01 00:00:00 to 9999-12-31 23:59:59 UTC, the range of
/// dates of `time` without its `large-dates` feature, which nothing here enables.
pub open spec fn timestamp_representable(t: i64) -> bool {
    -377_705_116_800 <= t && t <= 253_402_300_799
}

/// Signs `claims` (no name twice) with `jwt`'s `sign_with_key` under an
/// HMAC-SHA256 key made from `secret` by `hmac`'s `new_from_slice`; the pairs
/// are gathered into a `BTreeMap` first. Claimed, as the sources show: the key
/// is made from a secret of any length, and signing a map of strings only
/// serialises it to JSON and computes the HMAC, so it succeeds; the token is
/// the named result; and `verify_with_key` under the same secret gives the
/// claims back (the token is the base64 JSON of an `HS256` header and of the
/// claims, and the HMAC over both).
#[verifier::external_body]
fn sign_claims(claims: &Vec<(String, String)>, secret: &[u8]) -> (r: Result<String, ::jwt::Error>)
    requires
        distinct_names(pairs_view(claims@)),
    ensures
        r is Ok,
        r matches Ok(t) ==> t@ == signed_token(pairs_map(pairs_view(claims@)), secret@)
            && verified_claims(t@, secret@) == Some(pairs_map(pairs_view(claims@))),
{
    let key: Hmac<Sha256> = Hmac::new_from_slice(secret)?;
    let map: BTreeMap<&str, &str> = claims.iter().map(|p| (p.0.as_str(), p.1.as_str())).collect();
    map.sign_with_key(&key)
}

/// Verifies `token` with `jwt`'s `verify_with_key` under an HMAC-SHA256 key made
/// from `secret` by `hmac`'s `new_from_slice` (which accepts a key of any
/// length), reading the claims as a `BTreeMap<String, String>`. Claimed: the
/// result is the named one, its pairs in the map's order, so no name repeats.
#[verifier::external_body]
fn verify_claims(token: &str, secret: &[u8]) -> (r: Option<Vec<(String, String)>>)
    ensures
        match r {
            Some(v) => verified_claims(token@, secret@) == Some(pairs_map(pairs_view(v@)))
                && distinct_names(pairs_view(v@)),
            None => verified_claims(token@, secret@) is None,
        },
{
    let key: Hmac<Sha256> = match Hmac::new_from_slice(secret) {
        Ok(k) => k,
        Err(_) => return None,
    };
    let claims: BTreeMap<String, String> = match token.verify_with_key(&key) {
        Ok(c) => c,
        Err(_) => return None,
    };
    Some(claims.into_iter().collect())
}

/// The current time from `time`'s `OffsetDateTime::now_utc`, as its Unix
/// timestamp (whole seconds, rounded down) and its nanoseconds within that
/// second. Claimed: like every value of that type, the timestamp is one that
/// `from_unix_timestamp` accepts, and the nanoseconds are below a second.
/// Which instant it is depends on the clock and is not stated.
#[verifier::external_body]
pub(crate) fn now_unix_time() -> (r: (i64, u32))
    ensures
        timestamp_representable(r.0),
        r.1 < 1_000_000_000,
{
    let now = OffsetDateTime::now_utc();
    (now.unix_timestamp(), now.nanosecond())
}

/// Whether `time`'s `OffsetDateTime::from_unix_timestamp` accepts `t`.
/// Claimed, as its source shows: exactly the timestamps of its range of dates.
#[verifier::external_body]
fn timestamp_accepted(t: i64) -> (r: bool)
    ensures
        r == timestamp_representable(t),
{
    OffsetDateTime::from_unix_timestamp(t).is_ok()
}

/// Name of the claim that carries the user id.
pub open spec fn user_id_claim() -> Seq<char> {
    "user_id"@
}

/// Name of the claim that carries the expiry.
pub open spec fn expires_claim() -> Seq<char> {
    "expires"@
}

/// An instant after the Unix epoch by a number of seconds that both `i64` and
/// the dates of `time` can hold.
pub open spec fn expiry_in_range(e: int) -> bool {
    i64::MIN <= e <= i64::MAX && timestamp_representable(e as i64)
}

/// The claims of a token issued for `user_id` that expires at `expires`.
pub open spec fn issued_claims(user_id: Seq<char>, expires: int) -> Map<Seq<char>, Seq<char>> {
    Map::<Seq<char>, Seq<char>>::empty().insert(user_id_claim(), user_id).insert(
        expires_claim(),
        decimal_text(expires),
    )
}

/// The user that claims name at the time `now`: their `user_id`, when they
/// also carry an `expires` that reads as a timestamp later than `now`.
pub open spec fn claims_user(claims: Map<Seq<char>, Seq<char>>, now: int) -> Option<Seq<char>> {
    if !claims.contains_key(user_id_claim()) || !claims.contains_key(expires_claim()) {
        None
    } else {
        match i64_of_decimal(claims[expires_claim()]) {
            Some(t) => if t > now {
                Some(claims[user_id_claim()])
            } else {
                None
            },
            None => None,
        }
    }
}

/// The expiry of the claims, where it is read at all, is an instant that
/// `time` can represent; elsewhere checking the claims has no meaning.
pub open spec fn expiry_checkable(claims: Map<Seq<char>, Seq<char>>) -> bool {
    (claims.contains_key(user_id_claim()) && claims.contains_key(expires_claim())
        && i64_of_decimal(claims[expires_claim()]) is Some) ==> timestamp_representable(
        i64_of_decimal(claims[expires_claim()])->0,
    )
}

/// The token either fails verification or carries checkable claims.
pub open spec fn token_checkable(token: Seq<char>, secret: Seq<u8>) -> bool {
    verified_claims(token, secret) matches Some(c) ==> expiry_checkable(c)
}

/// The view of an optional string.
pub open spec fn option_view(o: Option<String>) -> Option<Seq<char>> {
    match o {
        Some(s) => Some(s@),
        None => None,
    }
}

/// Validity of `token` under `secret` at some instant `now` that `time` can
/// represent: `None` when it fails verification, else the user its claims name
/// at `now`.
pub open spec fn token_user_at(token: Seq<char>, secret: Seq<u8>, now: i64) -> Option<Seq<char>> {
    match verified_claims(token, secret) {
        Some(c) => claims_user(c, now as int),
        None => None,
    }
}

/// How long an issued token stays valid: whole seconds and nanoseconds.
pub struct Duration {
    secs: u64,
    nanos: u32,
}

impl Duration {
    #[verifier::type_invariant]
    closed spec fn below_a_second(&self) -> bool {
        self.nanos < 1_000_000_000
    }

    /// The whole seconds of the duration.
    pub closed spec fn whole_seconds(&self) -> u64 {
        self.secs
    }

    /// The nanoseconds beyond the whole seconds.
    pub closed spec fn extra_nanos(&self) -> u32 {
        self.nanos
    }

    /// A duration of `secs` whole seconds.
    pub fn from_secs(secs: u64) -> (r: Duration)
        ensures
            r.whole_seconds() == secs,
            r.extra_nanos() == 0,
    {
        Duration { secs, nanos: 0 }
    }

    /// A duration of `secs` seconds and `nanos` nanoseconds; whole seconds in
    /// `nanos` are carried into the seconds.
    pub fn new(secs: u64, nanos: u32) -> (r: Duration)
        requires
            secs + nanos / 1_000_000_000 <= u64::MAX,
        ensures
            r.whole_seconds() == secs + nanos / 1_000_000_000,
            r.extra_nanos() == nanos % 1_000_000_000,
    {
        Duration { secs: secs + (nanos / 1_000_000_000) as u64, nanos: nanos % 1_000_000_000 }
    }

    /// The whole seconds of the duration.
    pub fn as_secs(&self) -> (r: u64)
        ensures
            r == self.whole_seconds(),
    {
        self.secs
    }

    /// The nanoseconds beyond the whole seconds, below a second.
    pub fn subsec_nanos(&self) -> (r: u32)
        ensures
            r == self.extra_nanos(),
            r < 1_000_000_000,
    {
        proof {
            use_type_invariant(self);
        }
        self.nanos
    }
}

/// Why no token was issued.
#[derive(PartialEq, Eq, Structural, Debug, Clone, Copy)]
pub enum TokenError {
    /// The expiry lies beyond the dates that can be represented.
    ExpiryOutOfRange,
}

/// The Unix timestamp (whole seconds, rounded down) of the instant `now_secs`
/// seconds and `now_nanos` nanoseconds after the epoch, moved on by `secs`
/// seconds and `nanos` nanoseconds.
pub open spec fn expiry_of(now_secs: int, now_nanos: int, secs: int, nanos: int) -> int {
    now_secs + secs + (now_nanos + nanos) / 1_000_000_000
}

/// The token issued for `user_id`, expiring at `expires`, signed with `secret`.
pub open spec fn issued_token(user_id: Seq<char>, expires: int, secret: Seq<u8>) -> Seq<char> {
    signed_token(issued_claims(user_id, expires), secret)
}

/// What issuing a token for `user_id` at the instant (`now_secs`, `now_nanos`)
/// for the duration (`secs`, `nanos`) gives: the token expiring at the end of
/// the duration, or the error when that expiry cannot be represented.
pub open spec fn issue_outcome(
    user_id: Seq<char>,
    secs: int,
    nanos: int,
    secret: Seq<u8>,
    now_secs: int,
    now_nanos: int,
) -> Result<Seq<char>, TokenError> {
    let expires = expiry_of(now_secs, now_nanos, secs, nanos);
    if expiry_in_range(expires) {
        Ok(issued_token(user_id, expires, secret))
    } else {
        Err(TokenError::ExpiryOutOfRange)
    }
}

/// The view of the outcome of issuing a token.
pub open spec fn token_result_view(r: Result<String, TokenError>) -> Result<Seq<char>, TokenError> {
    match r {
        Ok(t) => Ok(t@),
        Err(e) => Err(e),
    }
}

/// Issues a token for `user_id` signed with `secret`, at the instant `now_secs`
/// seconds and `now_nanos` nanoseconds after the Unix epoch, expiring
/// `duration` later. The expiry is that instant moved on by the duration,
/// rounded down to whole seconds; it can be issued exactly when `time` can
/// represent it, and verifying the token gives its claims back.
pub fn issue_token_at(user_id: &str, duration: &Duration, secret: &[u8], now_secs: i64, now_nanos: u32) -> (r: Result<
    String,
    TokenError,
>)
    ensures
        token_result_view(r) == issue_outcome(
            user_id@,
            duration.whole_seconds() as int,
            duration.extra_nanos() as int,
            secret@,
            now_secs as int,
            now_nanos as int,
        ),
        r is Ok ==> verified_claims(token_result_view(r)->Ok_0, secret@) == Some(
            issued_claims(
                user_id@,
                expiry_of(now_secs as int, now_nanos as int, duration.whole_seconds() as int, duration.extra_nanos() as int),
            ),
        ),
{
    let carry: u64 = (now_nanos as u64 + duration.subsec_nanos() as u64) / 1_000_000_000;
    let expiry: i128 = now_secs as i128 + duration.as_secs() as i128 + carry as i128;
    if expiry > i64::MAX as i128 {
        return Err(TokenError::ExpiryOutOfRange);
    }
    let expires = expiry as i64;
    if !timestamp_accepted(expires) {
        return Err(TokenError::ExpiryOutOfRange);
    }
    let claims = vec![
        ("user_id".to_owned(), user_id.to_owned()),
        ("expires".to_owned(), format_i64(expires)),
    ];
    proof {
        reveal_strlit("user_id");
        reveal_strlit("expires");
        let s = pairs_view(claims@);
        assert(s.len() == 2);
        assert(s[0] == (user_id_claim(), user_id@));
        assert(s[1] == (expires_claim(), decimal_text(expires as int)));
        assert(s[0].0[0] != s[1].0[0]);
        assert(distinct_names(s));
        assert(s.drop_last().drop_last() =~= Seq::<(Seq<char>, Seq<char>)>::empty());
        assert(s.drop_last().last() == s[0]);
        assert(pairs_map(s.drop_last().drop_last()) == Map::<Seq<char>, Seq<char>>::empty());
        assert(s.drop_last().len() == 1);
        assert(pairs_map(s.drop_last()) == Map::<Seq<char>, Seq<char>>::empty().insert(s[0].0, s[0].1));
        assert(pairs_map(s) =~= issued_claims(user_id@, expires as int));
    }
    match sign_claims(&claims, secret) {
        Ok(t) => Ok(t),
        Err(_) => Err(TokenError::ExpiryOutOfRange),
    }
}

/// Issues a token for `user_id` signed with `secret`, expiring `duration`
/// after the current time: `issue_token_at` at the instant the clock gives.
pub fn generate_jwt(user_id: &str, duration: Duration, secret: &[u8]) -> (r: Result<String, TokenError>)
    ensures
        exists|now_secs: i64, now_nanos: u32|
            #![trigger issue_outcome(user_id@, duration.whole_seconds() as int, duration.extra_nanos() as int, secret@, now_secs as int, now_nanos as int)]
            {
                &&& timestamp_representable(now_secs)
                &&& now_nanos < 1_000_000_000
                &&& token_result_view(r) == issue_outcome(
                    user_id@,
                    duration.whole_seconds() as int,
                    duration.extra_nanos() as int,
                    secret@,
                    now_secs as int,
                    now_nanos as int,
                )
                &&& r is Ok ==> verified_claims(token_result_view(r)->Ok_0, secret@) == Some(
                    issued_claims(
                        user_id@,
                        expiry_of(now_secs as int, now_nanos as int, duration.whole_seconds() as int, duration.extra_nanos() as int),
                    ),
                )
            },
{
    let now = now_unix_time();
    issue_token_at(user_id, &duration, secret, now.0, now.1)
}

/// The user that claims name at the time `now` (a Unix timestamp): the claims
/// must carry a `user_id` and an `expires` that reads as a timestamp after `now`.
/// An instant at a whole second lies after the current instant exactly when it
/// lies after the current instant's whole-second timestamp, so `now` is that.
pub fn check_claims(claims: &Vec<(String, String)>, now: i64) -> (r: Option<String>)
    requires
        distinct_names(pairs_view(claims@)),
        expiry_checkable(pairs_map(pairs_view(claims@))),
    ensures
        option_view(r) == claims_user(pairs_map(pairs_view(claims@)), now as int),
{
    let user_id = match lookup(claims, "user_id") {
        Some(u) => u,
        None => return None,
    };
    let expires = match lookup(claims, "expires") {
        Some(e) => e,
        None => return None,
    };
    let timestamp = match parse_i64(expires.as_str()) {
        Some(t) => t,
        None => return None,
    };
    if timestamp > now {
        Some(user_id)
    } else {
        None
    }
}

/// Whether the claims of `token` under `secret`, if it verifies, can be
/// checked: their expiry, where it is read, is an instant `time` represents.
pub fn token_expiry_checkable(token: &str, secret: &[u8]) -> (r: bool)
    ensures
        r == token_checkable(token@, secret@),
{
    let claims = match verify_claims(token, secret) {
        Some(c) => c,
        None => return true,
    };
    if lookup(&claims, "user_id").is_none() {
        return true;
    }
    match lookup(&claims, "expires") {
        None => true,
        Some(e) => match parse_i64(e.as_str()) {
            None => true,
            Some(t) => timestamp_accepted(t),
        },
    }
}

/// The user that `token` names, when it verifies under `secret` and has not
/// expired at the current time.
pub fn validate_jwt(token: &str, secret: &[u8]) -> (r: Option<String>)
    requires
        token_checkable(token@, secret@),
    ensures
        verified_claims(token@, secret@) is None ==> r is None,
        verified_claims(token@, secret@) is Some ==> exists|now: i64|
            timestamp_representable(now) && option_view(r) == #[trigger] token_user_at(token@, secret@, now),
{
    let claims = match verify_claims(token, secret) {
        Some(c) => c,
        None => return None,
    };
    let now = now_unix_time().0;
    let r = check_claims(&claims, now);
    assert(option_view(r) == token_user_at(token@, secret@, now));
    r
}

/// The user that the request's session cookie names, when the cookie is there,
/// verifies under `secret` and has not expired at the current time.
pub fn validate_from_cookie(cookies: &CookieJar, secret: &[u8]) -> (r: Option<String>)
    requires
        cookies@.contains_key(authorization_cookie()) ==> token_checkable(
            cookies@[authorization_cookie()],
            secret@,
        ),
    ensures
        !cookies@.contains_key(authorization_cookie()) ==> r is None,
        cookies@.contains_key(authorization_cookie()) ==> (verified_claims(
            cookies@[authorization_cookie()],
            secret@,
        ) is None ==> r is None),
        cookies@.contains_key(authorization_cookie()) && verified_claims(
            cookies@[authorization_cookie()],
            secret@,
        ) is Some ==> exists|now: i64|
            timestamp_representable(now) && option_view(r) == #[trigger] token_user_at(
                cookies@[authorization_cookie()],
                secret@,
                now,
            ),
{
    match cookies.get("Authorization") {
        Some(token) => validate_jwt(token.as_str(), secret),
        None => None,
    }
}

/// A token issued for a user is accepted as that user's until it expires, and
/// its expiry can always be checked.
pub proof fn law_issued_token_names_user(
    token: Seq<char>,
    secret: Seq<u8>,
    user_id: Seq<char>,
    expires: i64,
    now: i64,
)
    requires
        verified_claims(token, secret) == Some(issued_claims(user_id, expires as int)),
        timestamp_representable(expires),
    ensures
        token_checkable(token, secret),
        token_user_at(token, secret, now) == if expires > now {
            Some(user_id)
        } else {
            None
        },
{
    reveal_strlit("user_id");
    reveal_strlit("expires");
    lemma_decimal_round_trip(expires);
    let c = issued_claims(user_id, expires as int);
    assert(user_id_claim() != expires_claim()) by {
        assert(user_id_claim()[0] != expires_claim()[0]);
    }
    assert(c[expires_claim()] == decimal_text(expires as int));
    assert(c[user_id_claim()] == user_id);
}

/// Moving an instant on by a duration of whole seconds moves its whole-second
/// timestamp on by exactly those seconds; a duration with extra nanoseconds
/// moves it on by those seconds or one more.
pub proof fn law_expiry_is_instant_plus_duration(now_secs: int, now_nanos: int, secs: int, nanos: int)
    requires
        0 <= now_nanos < 1_000_000_000,
        0 <= nanos < 1_000_000_000,
    ensures
        now_secs + secs <= expiry_of(now_secs, now_nanos, secs, nanos) <= now_secs + secs + 1,
        nanos == 0 ==> expiry_of(now_secs, now_nanos, secs, nanos) == now_secs + secs,
{
}

/// Claims that name a user and carry an expiry `t` (in decimal) name that user
/// at every instant before `t` and no one from `t` on, whoever the user is and
/// whatever else the claims hold.
pub proof fn law_claims_accepted_until_expiry(
    claims: Map<Seq<char>, Seq<char>>,
    user_id: Seq<char>,
    expires: i64,
    now: i64,
)
    requires
        claims.contains_key(user_id_claim()),
        claims[user_id_claim()] == user_id,
        claims.contains_key(expires_claim()),
        claims[expires_claim()] == decimal_text(expires as int),
    ensures
        claims_user(claims, now as int) == if now < expires {
            Some(user_id)
        } else {
            None
        },
{
    lemma_decimal_round_trip(expires);
}

/// A token issued at an instant (`issued_secs`, `issued_nanos`) for a duration
/// of `secs` whole seconds is accepted as its user's at exactly the instants
/// before `issued_secs + secs`, and refused from then on.
pub proof fn law_token_lifetime(
    token: Seq<char>,
    secret: Seq<u8>,
    user_id: Seq<char>,
    issued_secs: i64,
    issued_nanos: u32,
    secs: u64,
    now: i64,
)
    requires
        issued_nanos < 1_000_000_000,
        expiry_in_range(issued_secs + secs),
        verified_claims(token, secret) == Some(
            issued_claims(user_id, expiry_of(issued_secs as int, issued_nanos as int, secs as int, 0)),
        ),
    ensures
        token_checkable(token, secret),
        token_user_at(token, secret, now) == if now < issued_secs + secs {
            Some(user_id)
        } else {
            None
        },
{
    law_expiry_is_instant_plus_duration(issued_secs as int, issued_nanos as int, secs as int, 0);
    law_issued_token_names_user(token, secret, user_id, (issued_secs + secs) as i64, now);
}

} // verus!
