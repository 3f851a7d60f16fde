use backend::autoauth::UserContext;
use backend::config::AppConfig;
use backend::cookies::CookieJar;
use backend::jwt::validate_jwt;
use backend::database::{authenticate_user, register_user, AuthenticationError, StoredCredentials, UserError};
use backend::routes::{
    index, login_page, login_request, login_request_at, logout, profile, profile_submit, quote, quote_history, quote_id,
    quote_submit, register_request, AuthRequest, Page, ProfileData, QuoteData,
};

fn context(page: &Page) -> Vec<(&str, &str)> {
    page.context.iter().map(|(k, v)| (k.as_str(), v.as_str())).collect()
}

fn config() -> AppConfig {
    AppConfig::with_defaults(None, None, None)
}

fn profile_form(full_name: &str, address1: &str, address2: Option<&str>, city: &str, state: &str, zip: &str) -> ProfileData {
    ProfileData {
        full_name: full_name.to_string(),
        address1: address1.to_string(),
        address2: address2.map(|s| s.to_string()),
        city: city.to_string(),
        state: state.to_string(),
        zip: zip.to_string(),
    }
}

#[test]
fn test_index() {
    let page = index(&UserContext(None));
    assert_eq!(page.template, "home");
    assert!(page.context.is_empty());
}

#[test]
fn test_index_while_logged_in() {
    let conf = config();
    let creds = register_user(false, "password").ok().unwrap();
    let registered = register_request(&Ok(creds.user_id.clone()));
    assert_eq!(context(&registered), vec![("error", "Registered, now please log in.")]);
    let stored = Some(StoredCredentials { password_hash: creds.password_hash, password_salt: creds.password_salt });
    let auth = authenticate_user(&stored, "password").map_err(UserError::Authentication);
    let mut cookies = CookieJar::new();
    let form = AuthRequest { username: "test".to_string(), password: "password".to_string() };
    let page = login_request(&auth, &form, &conf, &mut cookies).unwrap();
    assert_eq!(context(&page), vec![("message", "OK")]);
    let ctx = UserContext::from_cookies(&cookies, &conf.secret_as_bytes());
    assert_eq!(ctx.0, Some("test".to_string()));
    let home = index(&ctx);
    assert_eq!(home.template, "home");
    assert_eq!(context(&home), vec![("user", "test")]);
}

#[test]
fn test_user_creation() {
    let creds = register_user(false, "test").ok().unwrap();
    let page = register_request(&Ok(creds.user_id.clone()));
    assert_eq!(page.template, "login_page");
    let stored = Some(StoredCredentials { password_hash: creds.password_hash, password_salt: creds.password_salt });
    let r = authenticate_user(&stored, "test");
    assert!(r.is_ok())
}

#[test]
fn test_user_auth() {
    let conf = config();
    let creds = register_user(false, "password").ok().unwrap();
    let stored = Some(StoredCredentials { password_hash: creds.password_hash, password_salt: creds.password_salt });
    let form = AuthRequest { username: "test".to_string(), password: "password".to_string() };
    let mut cookies = CookieJar::new();
    let auth = authenticate_user(&stored, &form.password).map_err(UserError::Authentication);
    let page = login_request(&auth, &form, &conf, &mut cookies).unwrap();
    assert_eq!(page.template, "login_page");
    match cookies.get("Authorization") {
        Some(_jwt) => {}
        None => panic!("Authorization header not present"),
    }
    let redirect = logout(&mut cookies);
    assert_eq!(redirect.location, "/");
    assert!(cookies.get("Authorization").is_none())
}

#[test]
fn failed_login_shows_error_and_sets_no_cookie() {
    let conf = config();
    let form = AuthRequest { username: "nobody".to_string(), password: "pw".to_string() };
    let mut cookies = CookieJar::new();
    let auth = Err(UserError::Authentication(AuthenticationError::UsernameDoesNotExist));
    let page = login_request(&auth, &form, &conf, &mut cookies).unwrap();
    assert_eq!(page.template, "login_page");
    assert_eq!(context(&page), vec![("error", "UsernameDoesNotExist")]);
    assert!(cookies.get("Authorization").is_none());
    let refused = register_request(&Err(UserError::Storage("Database(locked)".to_string())));
    assert_eq!(context(&refused), vec![("error", "Database(locked)")]);
}

#[test]
fn test_profile_submit() {
    let page = profile_submit(&profile_form("John Doe", "address1", Some("address2"), "city", "st", "12345"));
    assert_eq!(page.template, "profile_management");
    assert_eq!(context(&page), vec![("message", "Profile updated")]);
}

#[test]
fn empty_required_profile_fields_are_refused() {
    let error = vec![("error", "Missing required fields")];
    assert_eq!(context(&profile_submit(&profile_form("", "a", Some("b"), "c", "s", "z"))), error);
    assert_eq!(context(&profile_submit(&profile_form("n", "", Some("b"), "c", "s", "z"))), error);
    assert_eq!(context(&profile_submit(&profile_form("n", "a", Some("b"), "", "s", "z"))), error);
    assert_eq!(context(&profile_submit(&profile_form("n", "a", Some("b"), "c", "", "z"))), error);
    assert_eq!(context(&profile_submit(&profile_form("n", "a", Some("b"), "c", "s", ""))), error);
    assert_eq!(context(&profile_submit(&profile_form("n", "a", None, "c", "", "z"))), error);
}

#[test]
fn profile_field_lengths() {
    let ok = vec![("message", "Profile updated")];
    let bad = vec![("error", "Invalid field length")];
    let long_name = "heyblooblobhiblakemissyouuuuhopeyou'reenjoyingyour...food";
    let long_text = "x".repeat(101);
    assert_eq!(context(&profile_submit(&profile_form("John Doe", "5113 Rainflower Cir S", None, "Houston", "TX", "77578"))), ok);
    assert_eq!(context(&profile_submit(&profile_form(long_name, "a", None, "Houston", "TX", "77578"))), bad);
    assert_eq!(context(&profile_submit(&profile_form(&"n".repeat(50), &"a".repeat(100), Some(&"b".repeat(100)), &"c".repeat(100), "TX", "123456789"))), ok);
    assert_eq!(context(&profile_submit(&profile_form("n", &long_text, None, "c", "TX", "77578"))), bad);
    assert_eq!(context(&profile_submit(&profile_form("n", "a", Some(&long_text), "c", "TX", "77578"))), bad);
    assert_eq!(context(&profile_submit(&profile_form("n", "a", Some(""), "c", "TX", "77578"))), bad);
    assert_eq!(context(&profile_submit(&profile_form("n", "a", None, &long_text, "TX", "77578"))), bad);
    assert_eq!(context(&profile_submit(&profile_form("n", "a", None, "c", "TXX", "77578"))), bad);
    assert_eq!(context(&profile_submit(&profile_form("n", "a", None, "c", "TX", "3141592653589793"))), bad);
    assert_eq!(context(&profile_submit(&profile_form("n", "a", None, "c", "TX", "7757"))), bad);
    // lengths count characters, not bytes
    assert_eq!(context(&profile_submit(&profile_form(&"é".repeat(50), "a", None, "c", "TX", "77578"))), ok);
    assert_eq!(profile_submit(&profile_form(long_name, "a", None, "Houston", "TX", "77578")).status, 422);
    assert_eq!(profile_submit(&profile_form("n", "a", None, "Houston", "TX", "77578")).status, 200);
    assert_eq!(profile_submit(&profile_form("", "a", None, "Houston", "TX", "77578")).status, 200);
}

#[test]
fn login_at_a_given_instant() {
    let conf = config();
    let form = AuthRequest { username: "gina".to_string(), password: "pw".to_string() };
    let mut cookies = CookieJar::new();
    let page = login_request_at(&Ok(()), &form, &conf, &mut cookies, 1_000, 0).unwrap();
    assert_eq!(context(&page), vec![("message", "OK")]);
    let token = cookies.get("Authorization").unwrap();
    // expired long ago at the real current time
    assert_eq!(validate_jwt(&token, &conf.secret_as_bytes()), None);
    let mut untouched = CookieJar::new();
    let late = login_request_at(&Ok(()), &form, &conf, &mut untouched, 253_402_300_000, 0);
    assert!(late.is_err());
    assert!(untouched.get("Authorization").is_none());
    let now = std::time::SystemTime::now().duration_since(std::time::UNIX_EPOCH).unwrap().as_secs() as i64;
    let mut fresh = CookieJar::new();
    login_request_at(&Ok(()), &form, &conf, &mut fresh, now, 0).unwrap();
    assert_eq!(validate_jwt(&fresh.get("Authorization").unwrap(), &conf.secret_as_bytes()), Some("gina".to_string()));
}

#[test]
fn test_form_submit() {
    let form = QuoteData {
        gallons_requested: "10".to_string(),
        address: "address1".to_string(),
        delivery_date: "2024-03-26".to_string(),
    };
    let page = quote_submit(&form);
    assert_eq!(page.template, "fuel_quote");
    assert_eq!(
        context(&page),
        vec![("gallons_requested", "10"), ("address", "address1"), ("delivery_date", "2024-03-26")]
    );
}

#[test]
fn test_quote_id() {
    let page = quote_id("1");
    assert_eq!(page.template, "fuel_quote");
    assert_eq!(context(&page), vec![("curr_id", "1")]);
    let page = quote_id("2");
    assert_eq!(context(&page), vec![("curr_id", "2")]);
}

#[test]
fn static_pages() {
    assert_eq!(login_page().template, "login_page");
    assert!(login_page().context.is_empty());
    assert_eq!(quote().template, "fuel_quote_form");
    assert_eq!(quote_history().template, "fuel_quote_history");
    let p = profile();
    assert_eq!(p.template, "profile_management");
    assert_eq!(context(&p)[0], ("full_name", "John Doe"));
    assert_eq!(context(&p)[5], ("zip", "77573"));
}
