//! Accounts: what is stored when a user registers, when a login succeeds, and
//! which profile writes a profile update makes.
//!
//! The queries themselves run against the database outside this crate; the
//! functions here take what the queries found and decide the rest.
use vstd::prelude::*;
use std::num::NonZeroU32;
use ring::pbkdf2;
use ring::rand::{SecureRandom, SystemRandom};
use uuid::Builder;
use vstd::utf8::encode_utf8;

verus! {

/// Bytes in a password hash and in its salt (the output length of SHA-512).
pub const CREDENTIAL_LEN: usize = 64;

/// PBKDF2 iterations used to hash passwords.
pub const PBKDF2_ITERATIONS: u32 = 100_000;

/// Inputs to the hash of at most this many bytes are far below what SHA-512
/// can take; `ring` panics or fails only on inputs about twice as long.
pub open spec fn hash_input_limit() -> int {
    0x1000_0000_0000_0000
}

/// The key that PBKDF2 with HMAC-SHA512 derives, as `ring`'s `pbkdf2::derive`
/// computes it, from `iterations`, `salt` and `secret`, `len` bytes long.
pub uninterp spec fn pbkdf2_hmac_sha512(iterations: u32, salt: Seq<u8>, secret: Seq<u8>, len: nat) -> Seq<u8>;

/// A stored hash is the key derived from the password and salt, as long as
/// the hash itself (and not empty).
pub open spec fn password_matches(hash: Seq<u8>, salt: Seq<u8>, password: Seq<u8>) -> bool {
    hash.len() > 0 && pbkdf2_hmac_sha512(PBKDF2_ITERATIONS, salt, password, hash.len()) == hash
}

/// A login with these stored credentials and this password is sure to succeed:
/// the password matches, and all three are within the sizes `ring` handles.
pub open spec fn authentication_succeeds(hash: Seq<u8>, salt: Seq<u8>, password: Seq<u8>) -> bool {
    &&& password_matches(hash, salt, password)
    &&& hash.len() <= 64 * 0xFFFF_FFFF
    &&& salt.len() < hash_input_limit()
    &&& password.len() < hash_input_limit()
}

/// A user id as `uuid` writes a random (version 4) UUID: 36 characters, lower
/// case hex digits in groups of 8, 4, 4, 4 and 12 joined by hyphens, the
/// version digit `4`.
pub open spec fn is_hyphenated_v4(s: Seq<char>) -> bool {
    &&& s.len() == 36
    &&& forall|i: int|
        0 <= i < 36 ==> if i == 8 || i == 13 || i == 18 || i == 23 {
            #[trigger] s[i] == '-'
        } else {
            ('0' <= s[i] && s[i] <= '9') || ('a' <= s[i] && s[i] <= 'f')
        }
    &&& s[14] == '4'
}

/// `ring`'s `pbkdf2::derive` with `PBKDF2_HMAC_SHA512` into a buffer of `len`
/// bytes. Claimed: the buffer is the named key. The limits in `requires` keep
/// it from the inputs on which it panics.
#[verifier::external_body]
fn pbkdf2_derive(iterations: u32, salt: &[u8], secret: &[u8], len: usize) -> (r: Vec<u8>)
    requires
        iterations > 0,
        len <= 64 * 0xFFFF_FFFFusize,
        salt@.len() < hash_input_limit(),
        secret@.len() < hash_input_limit(),
    ensures
        r@ == pbkdf2_hmac_sha512(iterations, salt@, secret@, len as nat),
        r@.len() == len,
{
    let mut out = vec![0u8; len];
    pbkdf2::derive(pbkdf2::PBKDF2_HMAC_SHA512, NonZeroU32::new(iterations).unwrap(), salt, secret, &mut out);
    out
}

/// `ring`'s `pbkdf2::verify` with `PBKDF2_HMAC_SHA512`: whether it returns `Ok`.
/// Claimed, as its source shows: it succeeds only when `derived` is not empty
/// and equals the key derived to its length, and it does succeed then for
/// inputs within the limits and a `derived` of at most 2^32 - 1 blocks.
#[verifier::external_body]
fn pbkdf2_verify(iterations: u32, salt: &[u8], secret: &[u8], derived: &[u8]) -> (r: bool)
    requires
        iterations > 0,
    ensures
        r ==> derived@.len() > 0 && pbkdf2_hmac_sha512(iterations, salt@, secret@, derived@.len()) == derived@,
        (derived@.len() > 0 && pbkdf2_hmac_sha512(iterations, salt@, secret@, derived@.len()) == derived@
            && derived@.len() <= 64 * 0xFFFF_FFFF && salt@.len() < hash_input_limit()
            && secret@.len() < hash_input_limit()) ==> r,
{
    pbkdf2::verify(pbkdf2::PBKDF2_HMAC_SHA512, NonZeroU32::new(iterations).unwrap(), salt, secret, derived).is_ok()
}

/// `len` bytes from `ring`'s `SystemRandom`, or `None` when it reports that
/// the system's generator failed. Claimed: the length. Which bytes come is
/// chance and is not stated.
#[verifier::external_body]
fn random_bytes(len: usize) -> (r: Option<Vec<u8>>)
    ensures
        r matches Some(v) ==> v@.len() == len,
{
    let mut buf = vec![0u8; len];
    match SystemRandom::new().fill(&mut buf) {
        Ok(()) => Some(buf),
        Err(_) => None,
    }
}

/// The lower-case hex digit of a value below 16.
pub open spec fn hex_digit(n: int) -> char {
    if n < 10 {
        (n + ('0' as int)) as char
    } else {
        (n - 10 + ('a' as int)) as char
    }
}

/// Byte `i` of a version-4 UUID made from 16 random bytes: byte 6 carries the
/// version 4 in its high half, byte 8 the RFC 4122 variant in its top two bits.
pub open spec fn uuid_byte(bytes: Seq<u8>, i: int) -> u8 {
    if i == 6 {
        (bytes[6] & 0x0f) | 0x40
    } else if i == 8 {
        (bytes[8] & 0x3f) | 0x80
    } else {
        bytes[i]
    }
}

/// The hex digits, high half first, of the UUID bytes `from` up to `to`.
pub open spec fn uuid_hex(bytes: Seq<u8>, from: int, to: int) -> Seq<char> {
    Seq::new(
        (2 * (to - from)) as nat,
        |k: int|
            if k % 2 == 0 {
                hex_digit((uuid_byte(bytes, from + k / 2) / 16) as int)
            } else {
                hex_digit((uuid_byte(bytes, from + k / 2) % 16) as int)
            },
    )
}

/// The hyphenated text of the version-4 UUID made from 16 random bytes.
pub open spec fn uuid_v4_text(bytes: Seq<u8>) -> Seq<char> {
    uuid_hex(bytes, 0, 4) + seq!['-'] + uuid_hex(bytes, 4, 6) + seq!['-'] + uuid_hex(bytes, 6, 8) + seq!['-']
        + uuid_hex(bytes, 8, 10) + seq!['-'] + uuid_hex(bytes, 10, 16)
}

/// `uuid`'s `Builder::from_random_bytes(bytes).into_uuid()`, written by its
/// `Display`. Claimed, as its source shows: the bytes with the version and
/// variant bits set, written as lower-case hex in groups of 8, 4, 4, 4 and 12
/// digits joined by hyphens.
#[verifier::external_body]
fn uuid_text_from_random_bytes(bytes: &[u8]) -> (r: String)
    requires
        bytes@.len() == 16,
    ensures
        r@ == uuid_v4_text(bytes@),
{
    let mut array = [0u8; 16];
    array.copy_from_slice(bytes);
    Builder::from_random_bytes(array).into_uuid().to_string()
}

proof fn lemma_hex_digit(n: int)
    requires
        0 <= n < 16,
    ensures
        ('0' <= hex_digit(n) && hex_digit(n) <= '9') || ('a' <= hex_digit(n) && hex_digit(n) <= 'f'),
{
}

/// The text of a version-4 UUID has the hyphenated form.
pub proof fn lemma_uuid_v4_text_form(bytes: Seq<u8>)
    requires
        bytes.len() == 16,
    ensures
        is_hyphenated_v4(uuid_v4_text(bytes)),
{
    let t = uuid_v4_text(bytes);
    let g0 = uuid_hex(bytes, 0, 4);
    let g1 = uuid_hex(bytes, 4, 6);
    let g2 = uuid_hex(bytes, 6, 8);
    let g3 = uuid_hex(bytes, 8, 10);
    let g4 = uuid_hex(bytes, 10, 16);
    assert(t.len() == 36);
    assert forall|k: int, from: int, to: int| 0 <= from && to <= 16 && 0 <= k < 2 * (to - from) implies
        ('0' <= #[trigger] uuid_hex(bytes, from, to)[k] && uuid_hex(bytes, from, to)[k] <= '9')
        || ('a' <= uuid_hex(bytes, from, to)[k] && uuid_hex(bytes, from, to)[k] <= 'f') by {
        let b = uuid_byte(bytes, from + k / 2);
        lemma_hex_digit((b / 16) as int);
        lemma_hex_digit((b % 16) as int);
    }
    assert forall|i: int| 0 <= i < 36 implies if i == 8 || i == 13 || i == 18 || i == 23 {
        #[trigger] t[i] == '-'
    } else {
        ('0' <= t[i] && t[i] <= '9') || ('a' <= t[i] && t[i] <= 'f')
    } by {
        if i < 8 {
            assert(t[i] == g0[i]);
        } else if i == 8 {
        } else if i < 13 {
            assert(t[i] == g1[i - 9]);
        } else if i == 13 {
        } else if i < 18 {
            assert(t[i] == g2[i - 14]);
        } else if i == 18 {
        } else if i < 23 {
            assert(t[i] == g3[i - 19]);
        } else if i == 23 {
        } else {
            assert(t[i] == g4[i - 24]);
        }
    }
    let x = bytes[6];
    assert(((x & 0x0f) | 0x40) / 16 == 4) by (bit_vector);
    assert(t[14] == g2[0]);
}

/// Why an account could not be created.
#[derive(PartialEq, Eq, Structural, Debug, Clone, Copy)]
pub enum AccountCreationError {
    UsernameInUse,
    EmptyPassword,
}

/// Why a login was refused.
#[derive(PartialEq, Eq, Structural, Debug, Clone, Copy)]
pub enum AuthenticationError {
    UsernameDoesNotExist,
    IncorrectPassword,
}

impl AccountCreationError {
    /// The message shown for the error.
    pub fn message(&self) -> (r: String)
        ensures
            r@ == match self {
                AccountCreationError::UsernameInUse => "Username already exists"@,
                AccountCreationError::EmptyPassword => "Empty passwords are not permitted"@,
            },
    {
        match self {
            AccountCreationError::UsernameInUse => "Username already exists".to_owned(),
            AccountCreationError::EmptyPassword => "Empty passwords are not permitted".to_owned(),
        }
    }

    /// The name of the variant, as its debug form writes it.
    pub fn debug_text(&self) -> (r: String)
        ensures
            r@ == match self {
                AccountCreationError::UsernameInUse => "UsernameInUse"@,
                AccountCreationError::EmptyPassword => "EmptyPassword"@,
            },
    {
        match self {
            AccountCreationError::UsernameInUse => "UsernameInUse".to_owned(),
            AccountCreationError::EmptyPassword => "EmptyPassword".to_owned(),
        }
    }
}

impl AuthenticationError {
    /// The message shown for the error.
    pub fn message(&self) -> (r: String)
        ensures
            r@ == match self {
                AuthenticationError::UsernameDoesNotExist => "Username does not exist"@,
                AuthenticationError::IncorrectPassword => "Incorrect password"@,
            },
    {
        match self {
            AuthenticationError::UsernameDoesNotExist => "Username does not exist".to_owned(),
            AuthenticationError::IncorrectPassword => "Incorrect password".to_owned(),
        }
    }

    /// The name of the variant, as its debug form writes it.
    pub fn debug_text(&self) -> (r: String)
        ensures
            r@ == match self {
                AuthenticationError::UsernameDoesNotExist => "UsernameDoesNotExist"@,
                AuthenticationError::IncorrectPassword => "IncorrectPassword"@,
            },
    {
        match self {
            AuthenticationError::UsernameDoesNotExist => "UsernameDoesNotExist".to_owned(),
            AuthenticationError::IncorrectPassword => "IncorrectPassword".to_owned(),
        }
    }
}

/// Any failure of an account operation.
#[derive(Debug)]
pub enum UserError {
    AccountCreation(AccountCreationError),
    Authentication(AuthenticationError),
    /// The database failed; the text is its error's debug form.
    Storage(String),
    /// The system's random generator failed.
    RandomnessUnavailable,
}

/// The debug form of a failure: that of the error inside it.
pub open spec fn user_error_debug_text(e: UserError) -> Seq<char> {
    match e {
        UserError::AccountCreation(AccountCreationError::UsernameInUse) => "UsernameInUse"@,
        UserError::AccountCreation(AccountCreationError::EmptyPassword) => "EmptyPassword"@,
        UserError::Authentication(AuthenticationError::UsernameDoesNotExist) => "UsernameDoesNotExist"@,
        UserError::Authentication(AuthenticationError::IncorrectPassword) => "IncorrectPassword"@,
        UserError::Storage(text) => text@,
        UserError::RandomnessUnavailable => "RandomnessUnavailable"@,
    }
}

impl UserError {
    /// The debug form of the failure: that of the error inside it.
    pub fn debug_text(&self) -> (r: String)
        ensures
            r@ == user_error_debug_text(*self),
    {
        match self {
            UserError::AccountCreation(e) => e.debug_text(),
            UserError::Authentication(e) => e.debug_text(),
            UserError::Storage(text) => text.clone(),
            UserError::RandomnessUnavailable => "RandomnessUnavailable".to_owned(),
        }
    }
}

/// What is stored for a new account.
pub struct Credentials {
    pub user_id: String,
    pub password_hash: Vec<u8>,
    pub password_salt: Vec<u8>,
}

/// What is stored for an existing account and checked at login.
pub struct StoredCredentials {
    pub password_hash: Vec<u8>,
    pub password_salt: Vec<u8>,
}

/// The credentials of a new account with `password`, from the drawn `salt`
/// and the drawn 16 bytes of its id: the salt, the password's PBKDF2 hash under
/// that salt, and the version-4 UUID text of the id bytes.
pub fn credentials_from(password: &str, salt: Vec<u8>, id_bytes: Vec<u8>) -> (c: Credentials)
    requires
        encode_utf8(password@).len() < hash_input_limit(),
        salt@.len() < hash_input_limit(),
        id_bytes@.len() == 16,
    ensures
        c.password_salt@ == salt@,
        c.password_hash@ == pbkdf2_hmac_sha512(
            PBKDF2_ITERATIONS,
            salt@,
            encode_utf8(password@),
            CREDENTIAL_LEN as nat,
        ),
        c.password_hash@.len() == CREDENTIAL_LEN,
        c.user_id@ == uuid_v4_text(id_bytes@),
        is_hyphenated_v4(c.user_id@),
{
    let hash = pbkdf2_derive(PBKDF2_ITERATIONS, salt.as_slice(), password.as_bytes(), CREDENTIAL_LEN);
    let user_id = uuid_text_from_random_bytes(id_bytes.as_slice());
    proof {
        lemma_uuid_v4_text_form(id_bytes@);
    }
    Credentials { user_id, password_hash: hash, password_salt: salt }
}

/// Decides a registration, given whether the username is already taken:
/// refuses a taken name, then an empty password; otherwise draws a random salt
/// and random id bytes and makes the account's credentials from them
/// (`credentials_from`), or reports that the random generator failed.
pub fn register_user(username_taken: bool, password: &str) -> (r: Result<Credentials, UserError>)
    requires
        encode_utf8(password@).len() < hash_input_limit(),
    ensures
        username_taken ==> r matches Err(UserError::AccountCreation(AccountCreationError::UsernameInUse)),
        !username_taken && password@.len() == 0 ==> r matches Err(
            UserError::AccountCreation(AccountCreationError::EmptyPassword),
        ),
        !username_taken && password@.len() > 0 ==> (r is Ok || r matches Err(UserError::RandomnessUnavailable)),
        r matches Ok(c) ==> {
            &&& c.password_salt@.len() == CREDENTIAL_LEN
            &&& c.password_hash@.len() == CREDENTIAL_LEN
            &&& c.password_hash@ == pbkdf2_hmac_sha512(
                PBKDF2_ITERATIONS,
                c.password_salt@,
                encode_utf8(password@),
                CREDENTIAL_LEN as nat,
            )
            &&& exists|id_bytes: Seq<u8>| id_bytes.len() == 16 && c.user_id@ == #[trigger] uuid_v4_text(id_bytes)
            &&& is_hyphenated_v4(c.user_id@)
        },
{
    if username_taken {
        return Err(UserError::AccountCreation(AccountCreationError::UsernameInUse));
    }
    if password.is_empty() {
        return Err(UserError::AccountCreation(AccountCreationError::EmptyPassword));
    }
    let salt = match random_bytes(CREDENTIAL_LEN) {
        Some(s) => s,
        None => return Err(UserError::RandomnessUnavailable),
    };
    let id_bytes = match random_bytes(16) {
        Some(b) => b,
        None => return Err(UserError::RandomnessUnavailable),
    };
    Ok(credentials_from(password, salt, id_bytes))
}

/// Decides a login, given the stored credentials of the username (`None` when
/// there is no such user): the password must hash, with the stored salt, to
/// the stored hash.
pub fn authenticate_user(stored: &Option<StoredCredentials>, password: &str) -> (r: Result<(), AuthenticationError>)
    ensures
        stored is None ==> r == Err::<(), AuthenticationError>(AuthenticationError::UsernameDoesNotExist),
        stored matches Some(s) ==> {
            &&& r is Ok ==> password_matches(s.password_hash@, s.password_salt@, encode_utf8(password@))
            &&& authentication_succeeds(s.password_hash@, s.password_salt@, encode_utf8(password@)) ==> r is Ok
            &&& r is Err ==> r == Err::<(), AuthenticationError>(AuthenticationError::IncorrectPassword)
        },
{
    match stored {
        None => Err(AuthenticationError::UsernameDoesNotExist),
        Some(s) => {
            if pbkdf2_verify(
                PBKDF2_ITERATIONS,
                s.password_salt.as_slice(),
                password.as_bytes(),
                s.password_hash.as_slice(),
            ) {
                Ok(())
            } else {
                Err(AuthenticationError::IncorrectPassword)
            }
        },
    }
}

/// A password that was registered is accepted at login: the hash and salt
/// stored at registration, with that password, make a login that succeeds.
pub proof fn law_registered_password_authenticates(hash: Seq<u8>, salt: Seq<u8>, password: Seq<u8>)
    requires
        hash == pbkdf2_hmac_sha512(PBKDF2_ITERATIONS, salt, password, CREDENTIAL_LEN as nat),
        hash.len() == CREDENTIAL_LEN,
        salt.len() == CREDENTIAL_LEN,
        password.len() < hash_input_limit(),
    ensures
        authentication_succeeds(hash, salt, password),
{
}

/// A login with another password succeeds only where the two passwords give
/// the same PBKDF2 key under the stored salt.
pub proof fn law_other_password_needs_same_key(hash: Seq<u8>, salt: Seq<u8>, password: Seq<u8>, other: Seq<u8>)
    requires
        hash == pbkdf2_hmac_sha512(PBKDF2_ITERATIONS, salt, password, CREDENTIAL_LEN as nat),
        hash.len() == CREDENTIAL_LEN,
        password_matches(hash, salt, other),
    ensures
        pbkdf2_hmac_sha512(PBKDF2_ITERATIONS, salt, other, CREDENTIAL_LEN as nat)
            == pbkdf2_hmac_sha512(PBKDF2_ITERATIONS, salt, password, CREDENTIAL_LEN as nat),
{
}

/// A form field that is given and not empty.
pub open spec fn filled(field: Option<&str>) -> bool {
    field matches Some(s) && s@.len() > 0
}

/// Whether a form field is given and not empty.
pub fn is_filled(field: Option<&str>) -> (r: bool)
    ensures
        r == filled(field),
{
    match field {
        Some(s) => !s.is_empty(),
        None => false,
    }
}

/// The writes a profile update makes and what it answers.
pub struct ProfileUpdate {
    /// Whether the name and first address are written.
    pub write_primary: bool,
    /// Whether the second address is written (after the first write).
    pub write_secondary: bool,
    /// What the update answers once the writes are made.
    pub outcome: Result<(), UserError>,
}

/// Decides a profile update, given whether the user's profile exists: the
/// name and first address must all be filled in, and, if a second address is
/// given, it and its city, state and zip code must be filled in too. The first
/// write is made before the second address is checked.
pub fn update_profile(
    profile_exists: bool,
    full_name: Option<&str>,
    address1: Option<&str>,
    city1: Option<&str>,
    state1: Option<&str>,
    zip1: Option<&str>,
    address2: Option<&str>,
    city2: Option<&str>,
    state2: Option<&str>,
    zip2: Option<&str>,
) -> (r: ProfileUpdate)
    ensures
        !profile_exists ==> !r.write_primary && !r.write_secondary && r.outcome matches Err(
            UserError::Authentication(AuthenticationError::UsernameDoesNotExist),
        ),
        profile_exists && !(filled(full_name) && filled(address1) && filled(city1) && filled(state1)
            && filled(zip1)) ==> !r.write_primary && !r.write_secondary && r.outcome matches Err(
            UserError::AccountCreation(AccountCreationError::EmptyPassword),
        ),
        profile_exists && filled(full_name) && filled(address1) && filled(city1) && filled(state1)
            && filled(zip1) ==> {
            &&& r.write_primary
            &&& address2 is None ==> !r.write_secondary && r.outcome is Ok
            &&& address2 is Some && !(filled(address2) && filled(city2) && filled(state2) && filled(zip2))
                ==> !r.write_secondary
                && (r.outcome matches Err(UserError::AccountCreation(AccountCreationError::EmptyPassword)))
            &&& filled(address2) && filled(city2) && filled(state2) && filled(zip2) ==> r.write_secondary
                && r.outcome is Ok
        },
{
    if !profile_exists {
        return ProfileUpdate {
            write_primary: false,
            write_secondary: false,
            outcome: Err(UserError::Authentication(AuthenticationError::UsernameDoesNotExist)),
        };
    }
    if !is_filled(full_name) || !is_filled(address1) || !is_filled(city1) || !is_filled(state1)
        || !is_filled(zip1) {
        return ProfileUpdate {
            write_primary: false,
            write_secondary: false,
            outcome: Err(UserError::AccountCreation(AccountCreationError::EmptyPassword)),
        };
    }
    if address2.is_some() {
        if !is_filled(address2) || !is_filled(city2) || !is_filled(state2) || !is_filled(zip2) {
            return ProfileUpdate {
                write_primary: true,
                write_secondary: false,
                outcome: Err(UserError::AccountCreation(AccountCreationError::EmptyPassword)),
            };
        }
        return ProfileUpdate { write_primary: true, write_secondary: true, outcome: Ok(()) };
    }
    ProfileUpdate { write_primary: true, write_secondary: false, outcome: Ok(()) }
}

} // verus!
