use backend::database::{
    authenticate_user, credentials_from, is_filled, register_user, update_profile, AccountCreationError, AuthenticationError,
    StoredCredentials, UserError, CREDENTIAL_LEN,
};

fn stored_from(password: &str) -> StoredCredentials {
    let creds = register_user(false, password).ok().expect("registration succeeds");
    StoredCredentials { password_hash: creds.password_hash, password_salt: creds.password_salt }
}

#[test]
fn test_create_user() {
    let username_taken = false;
    let success = register_user(username_taken, "test");
    assert!(success.is_ok());
    // a second user with the same name: the name is now taken
    let should_fail_dupe_username = register_user(true, "test");
    assert!(should_fail_dupe_username.is_err());
    let should_fail_empty_password = register_user(false, "");
    assert!(should_fail_empty_password.is_err());
}

#[test]
fn test_authenticate_user() {
    let stored = Some(stored_from("password"));
    let auth_ok_res = authenticate_user(&stored, "password");
    assert!(auth_ok_res.is_ok());
    let auth_bad_password = authenticate_user(&stored, "wrongpassword");
    assert!(auth_bad_password.is_err());
    let auth_bad_username = authenticate_user(&None, "password");
    assert!(auth_bad_username.is_err());
}

#[test]
fn test_update_profile() {
    let full_name = Some("John Doe");
    let address1 = Some("5113 Rainflower Circle S");
    let city1 = Some("League City");
    let state1 = Some("TX");
    let zip1 = Some("77573");
    let address2 = Some("1600 Pennsylvania Ave NW");
    let city2 = Some("Washington");
    let state2 = Some("DC");
    let zip2 = Some("20500");

    let all = update_profile(true, full_name, address1, city1, state1, zip1, address2, city2, state2, zip2);
    assert!(all.outcome.is_ok());
    assert!(all.write_primary && all.write_secondary);

    let no_address2 = update_profile(true, full_name, address1, city1, state1, zip1, None, None, None, None);
    assert!(no_address2.outcome.is_ok());
    assert!(no_address2.write_primary && !no_address2.write_secondary);

    let missing_zip = update_profile(true, full_name, address1, city1, state1, Some(""), None, None, None, None);
    assert!(missing_zip.outcome.is_err());

    let missing_zip2 = update_profile(true, full_name, address1, city1, state1, zip1, address2, city2, state2, Some(""));
    assert!(missing_zip2.outcome.is_err());
}

#[test]
fn registration_errors_are_exact() {
    assert!(matches!(
        register_user(true, "secret"),
        Err(UserError::AccountCreation(AccountCreationError::UsernameInUse))
    ));
    assert!(matches!(
        register_user(true, ""),
        Err(UserError::AccountCreation(AccountCreationError::UsernameInUse))
    ));
    assert!(matches!(
        register_user(false, ""),
        Err(UserError::AccountCreation(AccountCreationError::EmptyPassword))
    ));
}

#[test]
fn registration_hashes_with_fresh_salt() {
    let a = register_user(false, "password").ok().unwrap();
    let b = register_user(false, "password").ok().unwrap();
    assert_eq!(a.password_salt.len(), CREDENTIAL_LEN);
    assert_eq!(a.password_hash.len(), CREDENTIAL_LEN);
    assert_ne!(a.password_hash, b"password".to_vec());
    assert_ne!(a.password_salt, b.password_salt);
    assert_ne!(a.password_hash, b.password_hash);
    assert_ne!(a.user_id, b.user_id);
}

#[test]
fn user_ids_are_hyphenated_v4_uuids() {
    let id = register_user(false, "pw").ok().unwrap().user_id;
    assert_eq!(id.len(), 36);
    let chars: Vec<char> = id.chars().collect();
    for (i, c) in chars.iter().enumerate() {
        if i == 8 || i == 13 || i == 18 || i == 23 {
            assert_eq!(*c, '-');
        } else {
            assert!(c.is_ascii_hexdigit() && !c.is_ascii_uppercase());
        }
    }
    assert_eq!(chars[14], '4');
}

#[test]
fn authentication_errors_are_exact() {
    let stored = Some(stored_from("right"));
    assert_eq!(authenticate_user(&stored, "wrong"), Err(AuthenticationError::IncorrectPassword));
    assert_eq!(authenticate_user(&None, "right"), Err(AuthenticationError::UsernameDoesNotExist));
    let empty_hash = Some(StoredCredentials { password_hash: Vec::new(), password_salt: vec![1; 64] });
    assert_eq!(authenticate_user(&empty_hash, ""), Err(AuthenticationError::IncorrectPassword));
}

#[test]
fn profile_update_refusals() {
    let name = Some("John Doe");
    let missing_user = update_profile(false, name, name, name, name, name, None, None, None, None);
    assert!(!missing_user.write_primary && !missing_user.write_secondary);
    assert!(matches!(
        missing_user.outcome,
        Err(UserError::Authentication(AuthenticationError::UsernameDoesNotExist))
    ));
    let missing_city = update_profile(true, name, name, None, name, name, None, None, None, None);
    assert!(!missing_city.write_primary);
    assert!(matches!(
        missing_city.outcome,
        Err(UserError::AccountCreation(AccountCreationError::EmptyPassword))
    ));
    let partial_second = update_profile(true, name, name, name, name, name, name, None, name, name);
    assert!(partial_second.write_primary && !partial_second.write_secondary);
    assert!(partial_second.outcome.is_err());
}

#[test]
fn error_texts() {
    assert_eq!(AccountCreationError::UsernameInUse.message(), "Username already exists");
    assert_eq!(AccountCreationError::EmptyPassword.message(), "Empty passwords are not permitted");
    assert_eq!(AuthenticationError::UsernameDoesNotExist.message(), "Username does not exist");
    assert_eq!(AuthenticationError::IncorrectPassword.message(), "Incorrect password");
    assert_eq!(UserError::Authentication(AuthenticationError::IncorrectPassword).debug_text(), "IncorrectPassword");
    assert_eq!(UserError::Storage("PoolTimedOut".to_string()).debug_text(), "PoolTimedOut");
    assert!(is_filled(Some("x")));
    assert!(!is_filled(Some("")));
    assert!(!is_filled(None));
}

#[test]
fn credentials_from_drawn_bytes() {
    let salt = vec![7u8; 64];
    let id = vec![0xffu8; 16];
    let a = credentials_from("pw", salt.clone(), id.clone());
    let b = credentials_from("pw", salt.clone(), id.clone());
    assert_eq!(a.password_salt, salt);
    assert_eq!(a.password_hash, b.password_hash);
    assert_eq!(a.password_hash.len(), 64);
    assert_eq!(a.user_id, "ffffffff-ffff-4fff-bfff-ffffffffffff");
    let zero = credentials_from("pw", salt.clone(), vec![0u8; 16]);
    assert_eq!(zero.user_id, "00000000-0000-4000-8000-000000000000");
    let other = credentials_from("other", salt, id);
    assert_ne!(a.password_hash, other.password_hash);
    let stored = Some(StoredCredentials { password_hash: a.password_hash, password_salt: a.password_salt });
    assert!(authenticate_user(&stored, "pw").is_ok());
}
