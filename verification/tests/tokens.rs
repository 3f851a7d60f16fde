use backend::autoauth::UserContext;
use backend::config::{default_database_uri, default_jwt_secret, default_max_connections, AppConfig};
use backend::cookies::CookieJar;
use backend::decimal::{format_i64, parse_i64};
use backend::jwt::{check_claims, generate_jwt, issue_token_at, token_expiry_checkable, validate_from_cookie, validate_jwt, Duration, TokenError};
use hmac::digest::KeyInit;
use hmac::Hmac;
use jwt::{SignWithKey, VerifyWithKey};
use sha2::Sha256;
use std::collections::BTreeMap;

fn sign(claims: &[(&str, &str)], secret: &[u8]) -> String {
    let key: Hmac<Sha256> = Hmac::new_from_slice(secret).unwrap();
    let map: BTreeMap<&str, &str> = claims.iter().cloned().collect();
    map.sign_with_key(&key).unwrap()
}

#[test]
fn issued_token_validates_to_its_user() {
    let token = generate_jwt("alice", Duration::from_secs(3600), b"secret").unwrap();
    assert_eq!(validate_jwt(&token, b"secret"), Some("alice".to_string()));
    assert_eq!(validate_jwt(&token, b"other secret"), None);
    assert_eq!(validate_jwt("not a token", b"secret"), None);
}

#[test]
fn expired_token_is_refused() {
    let token = generate_jwt("alice", Duration::from_secs(0), b"secret").unwrap();
    assert_eq!(validate_jwt(&token, b"secret"), None);
    let old = sign(&[("user_id", "bob"), ("expires", "1000")], b"k");
    assert_eq!(validate_jwt(&old, b"k"), None);
    let future = sign(&[("user_id", "bob"), ("expires", "+99999999999")], b"k");
    assert_eq!(validate_jwt(&future, b"k"), Some("bob".to_string()));
}

#[test]
fn claims_without_user_or_expiry_are_refused() {
    let no_user = sign(&[("expires", "99999999999")], b"k");
    assert_eq!(validate_jwt(&no_user, b"k"), None);
    let no_expiry = sign(&[("user_id", "bob")], b"k");
    assert_eq!(validate_jwt(&no_expiry, b"k"), None);
    let bad_expiry = sign(&[("user_id", "bob"), ("expires", "soon")], b"k");
    assert_eq!(validate_jwt(&bad_expiry, b"k"), None);
}

#[test]
fn unrepresentable_expiry_is_not_checkable() {
    let far = sign(&[("user_id", "bob"), ("expires", "9000000000000000000")], b"k");
    assert!(!token_expiry_checkable(&far, b"k"));
    let mut jar = CookieJar::new();
    jar.add("Authorization", far);
    assert_eq!(UserContext::from_cookies(&jar, b"k").0, None);
    let near = sign(&[("user_id", "bob"), ("expires", "99999999999")], b"k");
    assert!(token_expiry_checkable(&near, b"k"));
    assert!(token_expiry_checkable("garbage", b"k"));
}

#[test]
fn check_claims_compares_with_now() {
    let claims = vec![
        ("expires".to_string(), "100".to_string()),
        ("user_id".to_string(), "carol".to_string()),
    ];
    assert_eq!(check_claims(&claims, 99), Some("carol".to_string()));
    assert_eq!(check_claims(&claims, 100), None);
    assert_eq!(check_claims(&claims, -5), Some("carol".to_string()));
}

#[test]
fn huge_lifetime_cannot_be_issued() {
    assert!(generate_jwt("alice", Duration::from_secs(u64::MAX), b"secret").is_err());
    assert_eq!(Duration::from_secs(7).as_secs(), 7);
}

#[test]
fn cookie_session() {
    let mut jar = CookieJar::new();
    assert_eq!(validate_from_cookie(&jar, b"s"), None);
    let token = generate_jwt("dave", Duration::from_secs(60), b"s").unwrap();
    jar.add("Other", "x".to_string());
    jar.add("Authorization", "stale".to_string());
    jar.add("Authorization", token);
    assert_eq!(validate_from_cookie(&jar, b"s"), Some("dave".to_string()));
    assert_eq!(UserContext::from_cookies(&jar, b"s").0, Some("dave".to_string()));
    jar.remove("Authorization");
    assert_eq!(jar.get("Authorization"), None);
    assert_eq!(jar.get("Other"), Some("x".to_string()));
    assert_eq!(UserContext::from_cookies(&jar, b"s").0, None);
}

#[test]
fn decimal_text_round_trips() {
    for n in [0i64, 7, -7, 10, 1711929600, i64::MAX, i64::MIN] {
        let text = format_i64(n);
        assert_eq!(text, n.to_string());
        assert_eq!(parse_i64(&text), Some(n));
    }
    assert_eq!(parse_i64("+42"), Some(42));
    assert_eq!(parse_i64("007"), Some(7));
    assert_eq!(parse_i64(""), None);
    assert_eq!(parse_i64("-"), None);
    assert_eq!(parse_i64("+"), None);
    assert_eq!(parse_i64("1 "), None);
    assert_eq!(parse_i64("9223372036854775808"), None);
    assert_eq!(parse_i64("-9223372036854775809"), None);
    assert_eq!(parse_i64("99999999999999999999999"), None);
}

#[test]
fn config_defaults() {
    assert_eq!(default_database_uri(), "sqlite://database.db");
    assert_eq!(default_max_connections(), 1);
    assert_eq!(default_jwt_secret(), "debug");
    let c = AppConfig::with_defaults(None, Some(4), None);
    assert_eq!(c.database_uri, "sqlite://database.db");
    assert_eq!(c.max_connections, 4);
    assert_eq!(c.jwt_secret, "debug");
    let d = AppConfig::with_defaults(Some("sqlite://x.db".to_string()), None, Some("s3".to_string()));
    assert_eq!(d.database_uri, "sqlite://x.db");
    assert_eq!(d.max_connections, 1);
    assert_eq!(**d.secret_as_bytes(), b"s3"[..]);
}

#[test]
fn issued_token_carries_user_and_expiry() {
    let before = std::time::SystemTime::now().duration_since(std::time::UNIX_EPOCH).unwrap().as_secs() as i64;
    let token = generate_jwt("erin", Duration::from_secs(86400), b"k").unwrap();
    let after = std::time::SystemTime::now().duration_since(std::time::UNIX_EPOCH).unwrap().as_secs() as i64;
    let key: Hmac<Sha256> = Hmac::new_from_slice(b"k").unwrap();
    let claims: BTreeMap<String, String> = token.as_str().verify_with_key(&key).unwrap();
    assert_eq!(claims.len(), 2);
    assert_eq!(claims["user_id"], "erin");
    let expires: i64 = claims["expires"].parse().unwrap();
    assert!(before + 86400 <= expires && expires <= after + 86400);
}

#[test]
fn issue_token_at_given_instant() {
    let key: Hmac<Sha256> = Hmac::new_from_slice(b"k").unwrap();
    let d = Duration::new(5, 1_500_000_000);
    assert_eq!(d.as_secs(), 6);
    assert_eq!(d.subsec_nanos(), 500_000_000);
    let token = issue_token_at("frank", &d, b"k", 1000, 600_000_000).unwrap();
    let claims: BTreeMap<String, String> = token.as_str().verify_with_key(&key).unwrap();
    assert_eq!(claims["expires"], "1007");
    assert_eq!(claims["user_id"], "frank");
    let token = issue_token_at("frank", &Duration::from_secs(5), b"k", 1000, 999_999_999).unwrap();
    let claims: BTreeMap<String, String> = token.as_str().verify_with_key(&key).unwrap();
    assert_eq!(claims["expires"], "1005");
    assert_eq!(issue_token_at("frank", &Duration::from_secs(86400), b"k", 253402300799, 0), Err(TokenError::ExpiryOutOfRange));
    assert_eq!(issue_token_at("frank", &Duration::from_secs(1), b"k", i64::MAX, 0), Err(TokenError::ExpiryOutOfRange));
    assert!(issue_token_at("frank", &Duration::from_secs(0), b"k", 253402300799, 0).is_ok());
    assert_eq!(
        issue_token_at("frank", &Duration::from_secs(1), b"k", 100, 0),
        issue_token_at("frank", &Duration::from_secs(1), b"k", 100, 0)
    );
}
