//! What each page request is answered with: which template is rendered with
//! which values, which cookies change, where a request is sent on.
//!
//! Pages are plain data here; the server renders the named template with the
//! listed values.
use vstd::prelude::*;
use crate::autoauth::UserContext;
use crate::config::AppConfig;
use crate::cookies::{authorization_cookie, CookieJar};
use crate::database::{user_error_debug_text, UserError};
use crate::entries::pairs_view;
use crate::jwt::{
    expiry_in_range, expiry_of, issue_token_at, issued_claims, issued_token, law_token_lifetime,
    now_unix_time, timestamp_representable, token_checkable, token_user_at, verified_claims, Duration,
    TokenError,
};

verus! {

/// A page: the HTTP status it is sent with, the template to render and the
/// values it is rendered with.
pub struct Page {
    pub status: u16,
    pub template: String,
    pub context: Vec<(String, String)>,
}

/// The page is sent with `status` and renders `template` with exactly the
/// values `context`, in order.
pub open spec fn page_with_status(
    p: Page,
    status: u16,
    template: Seq<char>,
    context: Seq<(Seq<char>, Seq<char>)>,
) -> bool {
    p.status == status && p.template@ == template && pairs_view(p.context@) == context
}

/// The page is sent with status 200 (OK) and renders `template` with exactly
/// the values `context`, in order.
pub open spec fn page_is(p: Page, template: Seq<char>, context: Seq<(Seq<char>, Seq<char>)>) -> bool {
    page_with_status(p, 200, template, context)
}

/// HTTP status of a form whose values break the form's rules (422,
/// Unprocessable Entity).
pub const UNPROCESSABLE: u16 = 422;

/// A redirection to another location.
pub struct Redirect {
    pub location: String,
}

/// How long a session token issued at login stays valid, in seconds (a day).
pub const SESSION_SECONDS: u64 = 60 * 60 * 24;

/// The credentials that a login or registration form carries.
pub struct AuthRequest {
    pub username: String,
    pub password: String,
}

/// The profile form.
pub struct ProfileData {
    pub full_name: String,
    pub address1: String,
    pub address2: Option<String>,
    pub city: String,
    pub state: String,
    pub zip: String,
}

/// The fuel-quote form.
pub struct QuoteData {
    pub gallons_requested: String,
    pub address: String,
    pub delivery_date: String,
}

/// Each field of the profile form has a length (in characters) in its range:
/// a full name of 1 to 50, a first address and a city of 1 to 100, a second
/// address, when given, of 1 to 100, a state of exactly 2 and a zip code of 5
/// to 9.
pub open spec fn profile_lengths_valid(form: ProfileData) -> bool {
    &&& 1 <= form.full_name@.len() <= 50
    &&& 1 <= form.address1@.len() <= 100
    &&& form.address2 matches Some(a) ==> 1 <= a@.len() <= 100
    &&& 1 <= form.city@.len() <= 100
    &&& form.state@.len() == 2
    &&& 5 <= form.zip@.len() <= 9
}

fn length_within(field: &String, min: usize, max: usize) -> (r: bool)
    ensures
        r == (min <= field@.len() <= max),
{
    let n = field.as_str().unicode_len();
    min <= n && n <= max
}

/// Every required field of the profile form is filled in.
pub open spec fn profile_complete(form: ProfileData) -> bool {
    &&& form.full_name@.len() > 0
    &&& form.address1@.len() > 0
    &&& form.city@.len() > 0
    &&& form.state@.len() > 0
    &&& form.zip@.len() > 0
}

fn entry(name: &str, value: String) -> (r: (String, String))
    ensures
        r.0@ == name@,
        r.1@ == value@,
{
    (name.to_owned(), value)
}

fn page(template: &str, context: Vec<(String, String)>) -> (r: Page)
    ensures
        r.status == 200,
        r.template@ == template@,
        r.context@ == context@,
{
    Page { status: 200, template: template.to_owned(), context }
}

/// The home page, greeting the user when the request is authenticated.
pub fn index(ctx: &UserContext) -> (r: Page)
    ensures
        match ctx.0 {
            Some(user) => page_is(r, "home"@, seq![("user"@, user@)]),
            None => page_is(r, "home"@, seq![]),
        },
{
    match &ctx.0 {
        Some(user_id) => {
            let r = page("home", vec![entry("user", user_id.clone())]);
            assert(pairs_view(r.context@) =~= seq![("user"@, user_id@)]);
            r
        },
        None => {
            let r = page("home", Vec::new());
            assert(pairs_view(r.context@) =~= seq![]);
            r
        },
    }
}

/// The login page.
pub fn login_page() -> (r: Page)
    ensures
        page_is(r, "login_page"@, seq![]),
{
    let r = page("login_page", Vec::new());
    assert(pairs_view(r.context@) =~= seq![]);
    r
}

/// Answers a login at the instant `now_secs` seconds and `now_nanos`
/// nanoseconds after the Unix epoch, given what authentication of the form's
/// credentials gave: a refusal shows the login page with the error; a success
/// issues a session token for the user, valid for a day from that instant and
/// signed with the configured secret, sets it as the `Authorization` cookie and
/// shows the login page with `OK`. No token can be issued when its expiry lies
/// beyond the dates that can be represented; then the error is returned and no
/// cookie changes.
pub fn login_request_at(
    auth_result: &Result<(), UserError>,
    form: &AuthRequest,
    config: &AppConfig,
    cookies: &mut CookieJar,
    now_secs: i64,
    now_nanos: u32,
) -> (r: Result<Page, TokenError>)
    ensures
        match auth_result {
            Err(e) => final(cookies)@ == old(cookies)@ && (r matches Ok(p) && page_is(
                p,
                "login_page"@,
                seq![("error"@, user_error_debug_text(*e))],
            )),
            Ok(()) => {
                let expires = expiry_of(now_secs as int, now_nanos as int, SESSION_SECONDS as int, 0);
                let secret = vstd::utf8::encode_utf8(config.jwt_secret@);
                let token = issued_token(form.username@, expires, secret);
                &&& expiry_in_range(expires) ==> {
                    &&& r matches Ok(p) && page_is(p, "login_page"@, seq![("message"@, "OK"@)])
                    &&& final(cookies)@ == old(cookies)@.insert(authorization_cookie(), token)
                    &&& verified_claims(token, secret) == Some(issued_claims(form.username@, expires))
                }
                &&& !expiry_in_range(expires) ==> {
                    &&& r matches Err(TokenError::ExpiryOutOfRange)
                    &&& final(cookies)@ == old(cookies)@
                }
            },
        },
{
    match auth_result {
        Err(e) => {
            let r = page("login_page", vec![entry("error", e.debug_text())]);
            assert(pairs_view(r.context@) =~= seq![("error"@, user_error_debug_text(*e))]);
            Ok(r)
        },
        Ok(()) => {
            let secret = config.secret_as_bytes();
            let duration = Duration::from_secs(SESSION_SECONDS);
            match issue_token_at(form.username.as_str(), &duration, *secret, now_secs, now_nanos) {
                Ok(token) => {
                    cookies.add("Authorization", token);
                    let r = page("login_page", vec![entry("message", "OK".to_owned())]);
                    assert(pairs_view(r.context@) =~= seq![("message"@, "OK"@)]);
                    Ok(r)
                },
                Err(e) => Err(e),
            }
        },
    }
}

/// Answers a login at the current time: `login_request_at` at the instant the
/// clock gives.
pub fn login_request(
    auth_result: &Result<(), UserError>,
    form: &AuthRequest,
    config: &AppConfig,
    cookies: &mut CookieJar,
) -> (r: Result<Page, TokenError>)
    ensures
        match auth_result {
            Err(e) => final(cookies)@ == old(cookies)@ && (r matches Ok(p) && page_is(
                p,
                "login_page"@,
                seq![("error"@, user_error_debug_text(*e))],
            )),
            Ok(()) => exists|now_secs: i64, now_nanos: u32|
                #![trigger expiry_of(now_secs as int, now_nanos as int, SESSION_SECONDS as int, 0)]
                {
                    let expires = expiry_of(now_secs as int, now_nanos as int, SESSION_SECONDS as int, 0);
                    let secret = vstd::utf8::encode_utf8(config.jwt_secret@);
                    let token = issued_token(form.username@, expires, secret);
                    &&& timestamp_representable(now_secs)
                    &&& now_nanos < 1_000_000_000
                    &&& expiry_in_range(expires) ==> {
                        &&& r matches Ok(p) && page_is(p, "login_page"@, seq![("message"@, "OK"@)])
                        &&& final(cookies)@ == old(cookies)@.insert(authorization_cookie(), token)
                        &&& verified_claims(token, secret) == Some(issued_claims(form.username@, expires))
                    }
                    &&& !expiry_in_range(expires) ==> {
                        &&& r matches Err(TokenError::ExpiryOutOfRange)
                        &&& final(cookies)@ == old(cookies)@
                    }
                },
        },
{
    let now = now_unix_time();
    login_request_at(auth_result, form, config, cookies, now.0, now.1)
}

/// After a successful login at an instant (`login_secs`, `login_nanos`), the
/// session cookie it set names the logged-in user at every instant before 24
/// hours (86400 seconds) after the login second, and names no one from then on.
pub proof fn law_login_session(
    cookies: Map<Seq<char>, Seq<char>>,
    secret: Seq<u8>,
    user: Seq<char>,
    login_secs: i64,
    login_nanos: u32,
    now: i64,
)
    requires
        login_nanos < 1_000_000_000,
        expiry_in_range(expiry_of(login_secs as int, login_nanos as int, SESSION_SECONDS as int, 0)),
        cookies.contains_key(authorization_cookie()),
        verified_claims(cookies[authorization_cookie()], secret) == Some(
            issued_claims(user, expiry_of(login_secs as int, login_nanos as int, SESSION_SECONDS as int, 0)),
        ),
    ensures
        token_checkable(cookies[authorization_cookie()], secret),
        token_user_at(cookies[authorization_cookie()], secret, now) == if now < login_secs + 86400 {
            Some(user)
        } else {
            None
        },
{
    law_token_lifetime(cookies[authorization_cookie()], secret, user, login_secs, login_nanos, SESSION_SECONDS, now);
}

/// Answers a registration, given what registering the form's credentials
/// gave: the login page, asking the new user to log in or showing the error.
pub fn register_request(register_result: &Result<String, UserError>) -> (r: Page)
    ensures
        match register_result {
            Ok(_) => page_is(r, "login_page"@, seq![("error"@, "Registered, now please log in."@)]),
            Err(e) => page_is(r, "login_page"@, seq![("error"@, user_error_debug_text(*e))]),
        },
{
    match register_result {
        Ok(_) => {
            let r = page("login_page", vec![entry("error", "Registered, now please log in.".to_owned())]);
            assert(pairs_view(r.context@) =~= seq![("error"@, "Registered, now please log in."@)]);
            r
        },
        Err(e) => {
            let r = page("login_page", vec![entry("error", e.debug_text())]);
            assert(pairs_view(r.context@) =~= seq![("error"@, user_error_debug_text(*e))]);
            r
        },
    }
}

/// Logs out: removes the session cookie and sends the request to the home page.
pub fn logout(cookies: &mut CookieJar) -> (r: Redirect)
    ensures
        final(cookies)@ == old(cookies)@.remove(authorization_cookie()),
        r.location@ == "/"@,
{
    cookies.remove("Authorization");
    Redirect { location: "/".to_owned() }
}

/// The profile page, filled in with example data.
pub fn profile() -> (r: Page)
    ensures
        page_is(
            r,
            "profile_management"@,
            seq![
                ("full_name"@, "John Doe"@),
                ("address1"@, "5113 Rainflower Cir S"@),
                ("address2"@, "5113 Rainflower Cir S"@),
                ("city"@, "League City"@),
                ("state"@, "TX"@),
                ("zip"@, "77573"@),
            ],
        ),
{
    let r = page(
        "profile_management",
        vec![
            entry("full_name", "John Doe".to_owned()),
            entry("address1", "5113 Rainflower Cir S".to_owned()),
            entry("address2", "5113 Rainflower Cir S".to_owned()),
            entry("city", "League City".to_owned()),
            entry("state", "TX".to_owned()),
            entry("zip", "77573".to_owned()),
        ],
    );
    assert(pairs_view(r.context@) =~= seq![
        ("full_name"@, "John Doe"@),
        ("address1"@, "5113 Rainflower Cir S"@),
        ("address2"@, "5113 Rainflower Cir S"@),
        ("city"@, "League City"@),
        ("state"@, "TX"@),
        ("zip"@, "77573"@),
    ]);
    r
}

/// Answers the profile form: an error when a required field is empty, another
/// (with status 422) when a field's length is out of its range, else a
/// confirmation.
pub fn profile_submit(form: &ProfileData) -> (r: Page)
    ensures
        !profile_complete(*form) ==> page_is(
            r,
            "profile_management"@,
            seq![("error"@, "Missing required fields"@)],
        ),
        profile_complete(*form) && !profile_lengths_valid(*form) ==> page_with_status(
            r,
            UNPROCESSABLE,
            "profile_management"@,
            seq![("error"@, "Invalid field length"@)],
        ),
        profile_complete(*form) && profile_lengths_valid(*form) ==> page_is(
            r,
            "profile_management"@,
            seq![("message"@, "Profile updated"@)],
        ),
{
    if form.full_name.as_str().is_empty() || form.address1.as_str().is_empty() || form.city.as_str().is_empty()
        || form.state.as_str().is_empty() || form.zip.as_str().is_empty() {
        let r = page("profile_management", vec![entry("error", "Missing required fields".to_owned())]);
        assert(pairs_view(r.context@) =~= seq![("error"@, "Missing required fields"@)]);
        return r;
    }
    let address2_ok = match &form.address2 {
        Some(a) => length_within(a, 1, 100),
        None => true,
    };
    if !length_within(&form.full_name, 1, 50) || !length_within(&form.address1, 1, 100) || !address2_ok
        || !length_within(&form.city, 1, 100) || !length_within(&form.state, 2, 2) || !length_within(
        &form.zip,
        5,
        9,
    ) {
        let r = Page {
            status: UNPROCESSABLE,
            template: "profile_management".to_owned(),
            context: vec![entry("error", "Invalid field length".to_owned())],
        };
        assert(pairs_view(r.context@) =~= seq![("error"@, "Invalid field length"@)]);
        return r;
    }
    let r = page("profile_management", vec![entry("message", "Profile updated".to_owned())]);
    assert(pairs_view(r.context@) =~= seq![("message"@, "Profile updated"@)]);
    r
}

/// The fuel-quote form.
pub fn quote() -> (r: Page)
    ensures
        page_is(r, "fuel_quote_form"@, seq![]),
{
    let r = page("fuel_quote_form", Vec::new());
    assert(pairs_view(r.context@) =~= seq![]);
    r
}

/// Answers the fuel-quote form with the quote it describes.
pub fn quote_submit(form: &QuoteData) -> (r: Page)
    ensures
        page_is(
            r,
            "fuel_quote"@,
            seq![
                ("gallons_requested"@, form.gallons_requested@),
                ("address"@, form.address@),
                ("delivery_date"@, form.delivery_date@),
            ],
        ),
{
    let r = page(
        "fuel_quote",
        vec![
            entry("gallons_requested", form.gallons_requested.clone()),
            entry("address", form.address.clone()),
            entry("delivery_date", form.delivery_date.clone()),
        ],
    );
    assert(pairs_view(r.context@) =~= seq![
        ("gallons_requested"@, form.gallons_requested@),
        ("address"@, form.address@),
        ("delivery_date"@, form.delivery_date@),
    ]);
    r
}

/// The quote with the given id.
pub fn quote_id(id: &str) -> (r: Page)
    ensures
        page_is(r, "fuel_quote"@, seq![("curr_id"@, id@)]),
{
    let r = page("fuel_quote", vec![entry("curr_id", id.to_owned())]);
    assert(pairs_view(r.context@) =~= seq![("curr_id"@, id@)]);
    r
}

/// The history of quotes.
pub fn quote_history() -> (r: Page)
    ensures
        page_is(r, "fuel_quote_history"@, seq![]),
{
    let r = page("fuel_quote_history", Vec::new());
    assert(pairs_view(r.context@) =~= seq![]);
    r
}

} // verus!
