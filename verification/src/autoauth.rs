//! Who a request comes from, as its session cookie says.
use vstd::prelude::*;
use crate::cookies::{authorization_cookie, CookieJar};
use crate::jwt::{token_checkable, token_expiry_checkable, token_user_at, validate_from_cookie, option_view, timestamp_representable, verified_claims};

verus! {

/// The user a request is authenticated as, if any.
pub struct UserContext(pub Option<String>);

impl UserContext {
    /// The user that the request's session cookie names under `secret`, if the
    /// cookie is there, verifies, carries an expiry that can be checked, and has
    /// not expired at the current time.
    pub fn from_cookies(cookies: &CookieJar, secret: &[u8]) -> (r: UserContext)
        ensures
            !cookies@.contains_key(authorization_cookie()) ==> r.0 is None,
            cookies@.contains_key(authorization_cookie()) ==> {
                let token = cookies@[authorization_cookie()];
                &&& !token_checkable(token, secret@) ==> r.0 is None
                &&& verified_claims(token, secret@) is None ==> r.0 is None
                &&& token_checkable(token, secret@) && verified_claims(token, secret@) is Some
                    ==> exists|now: i64| timestamp_representable(now)
                        && option_view(r.0) == #[trigger] token_user_at(token, secret@, now)
            },
    {
        match cookies.get("Authorization") {
            None => UserContext(None),
            Some(token) => {
                if token_expiry_checkable(token.as_str(), secret) {
                    UserContext(validate_from_cookie(cookies, secret))
                } else {
                    UserContext(None)
                }
            },
        }
    }
}

} // verus!
