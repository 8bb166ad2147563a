use argon2::password_hash::rand_core::OsRng;
use argon2::password_hash::{PasswordHash, PasswordHasher, PasswordVerifier, Salt, SaltString};
use argon2::Argon2;
use vstd::prelude::*;

verus! {

/// Why a login was refused.
#[derive(Clone, Copy, Debug, PartialEq, Eq)]
pub enum LoginError {
    /// No such user, or the password does not match; the two are not told
    /// apart.
    WrongUsernameOrPassword,
    /// The stored hash could not be read.
    PasswordError,
}

/// Whether `stored` parses as a PHC password-hash string.
pub uninterp spec fn phc_well_formed(stored: Seq<char>) -> bool;

/// Whether Argon2, run with the algorithm, version, parameters and salt that
/// the PHC string `stored` records, reproduces its output from `password`.
pub uninterp spec fn argon2_accepts(password: Seq<char>, stored: Seq<char>) -> bool;

/// `stored` is a hash of `password` that verification will accept.
pub open spec fn hashed_from(stored: Seq<char>, password: Seq<char>) -> bool {
    phc_well_formed(stored) && argon2_accepts(password, stored)
}

/// A character of the B64 alphabet: `A-Z`, `a-z`, `0-9`, `+` and `/`.
pub open spec fn is_b64_char(c: char) -> bool {
    ('A' <= c && c <= 'Z') || ('a' <= c && c <= 'z') || ('0' <= c && c <= '9') || c == '+' || c
        == '/'
}

/// A B64 character whose value is a multiple of sixteen, the only ones that
/// can end the unpadded B64 text of sixteen bytes: the last character carries
/// two bits of data and four zero bits.
pub open spec fn is_b64_final_char(c: char) -> bool {
    c == 'A' || c == 'Q' || c == 'g' || c == 'w'
}

/// The unpadded B64 text of sixteen bytes, as `SaltString::generate` writes
/// a salt: twenty-two characters, the last of which carries no stray bits.
pub open spec fn is_salt_text(s: Seq<char>) -> bool {
    &&& s.len() == 22
    &&& forall|i: int| 0 <= i < 21 ==> is_b64_char(#[trigger] s[i])
    &&& is_b64_final_char(s[21])
}

/// The longest password, in characters, whose UTF-8 encoding Argon2 accepts
/// whatever the characters: four bytes each stay within `u32::MAX` bytes.
pub const MAX_PASSWORD_CHARS: usize = 1073741823;

/// Relies on `password_hash::SaltString::generate` with the operating
/// system's generator: sixteen random bytes, written as unpadded B64 text.
#[verifier::external_body]
fn random_salt() -> (r: String)
    ensures
        is_salt_text(r@),
{
    SaltString::generate(&mut OsRng).as_str().to_string()
}

/// Relies on `PasswordHasher::hash_password` of `Argon2::default()`: on
/// success its PHC string records algorithm, parameters and salt, so that
/// `PasswordVerifier::verify_password` recomputes the same output from the
/// same password. It fails only on a salt text that `Salt::from_b64` or B64
/// decoding refuses, or on a password longer than `u32::MAX` bytes.
#[verifier::external_body]
fn argon2_hash(password: &str, salt: &str) -> (r: Option<String>)
    ensures
        r matches Some(h) ==> hashed_from(h@, password@),
        is_salt_text(salt@) && password@.len() <= MAX_PASSWORD_CHARS ==> r is Some,
{
    let salt = match Salt::from_b64(salt) {
        Ok(s) => s,
        Err(_) => return None,
    };
    match Argon2::default().hash_password(password.as_bytes(), salt) {
        Ok(h) => Some(h.to_string()),
        Err(_) => None,
    }
}

/// Relies on `password_hash::PasswordHash::new`: whether the string parses.
#[verifier::external_body]
fn phc_parses(stored: &str) -> (r: bool)
    ensures
        r == phc_well_formed(stored@),
{
    PasswordHash::new(stored).is_ok()
}

/// Relies on `PasswordVerifier::verify_password` of `Argon2::default()` on
/// the parsed hash: whether the password reproduces the stored output.
#[verifier::external_body]
fn argon2_verify(password: &str, stored: &str) -> (r: bool)
    requires
        phc_well_formed(stored@),
    ensures
        r == argon2_accepts(password@, stored@),
{
    match PasswordHash::new(stored) {
        Ok(h) => Argon2::default().verify_password(password.as_bytes(), &h).is_ok(),
        Err(_) => false,
    }
}

/// Hashes a password for storage, under a fresh random salt. It succeeds on
/// every password of at most `MAX_PASSWORD_CHARS` characters.
pub fn hash_password(password: &str) -> (r: Option<String>)
    ensures
        r matches Some(h) ==> hashed_from(h@, password@),
        password@.len() <= MAX_PASSWORD_CHARS ==> r is Some,
{
    let salt = random_salt();
    argon2_hash(password, salt.as_str())
}

/// The outcome of a login, given what the user table held for the name
/// (`user_id` is `None` when no row matched), whether the stored hash was well
/// formed, and whether it accepted the password.
pub open spec fn login_result(user_id: Option<i32>, well_formed: bool, accepted: bool) -> Result<
    i32,
    LoginError,
> {
    match user_id {
        None => Err(LoginError::WrongUsernameOrPassword),
        Some(id) => if !well_formed {
            Err(LoginError::PasswordError)
        } else if accepted {
            Ok(id)
        } else {
            Err(LoginError::WrongUsernameOrPassword)
        },
    }
}

/// Decides a login from the looked-up user, whether the stored hash parsed,
/// and whether it accepted the password.
pub fn login_outcome(user_id: Option<i32>, well_formed: bool, accepted: bool) -> (r: Result<
    i32,
    LoginError,
>)
    ensures
        r == login_result(user_id, well_formed, accepted),
{
    match user_id {
        None => Err(LoginError::WrongUsernameOrPassword),
        Some(id) => if !well_formed {
            Err(LoginError::PasswordError)
        } else if accepted {
            Ok(id)
        } else {
            Err(LoginError::WrongUsernameOrPassword)
        },
    }
}

/// The outcome of checking `attempted` against the user row found for a name:
/// its id and stored hash, or nothing.
pub open spec fn verify_result(record: Option<(i32, Seq<char>)>, attempted: Seq<char>) -> Result<
    i32,
    LoginError,
> {
    match record {
        None => login_result(None, false, false),
        Some((id, stored)) => login_result(
            Some(id),
            phc_well_formed(stored),
            phc_well_formed(stored) && argon2_accepts(attempted, stored),
        ),
    }
}

/// The view of a user row as found by name.
pub open spec fn record_view(record: Option<(i32, String)>) -> Option<(i32, Seq<char>)> {
    match record {
        Some((id, stored)) => Some((id, stored@)),
        None => None,
    }
}

/// Checks a login attempt against the user row found for the name (its id
/// and stored hash), or against nothing when no row matched. A missing user
/// and a wrong password give the same error; only a stored hash that does not
/// parse gives `PasswordError`.
pub fn verify_password(record: Option<(i32, String)>, attempted: &str) -> (r: Result<i32, LoginError>)
    ensures
        r == verify_result(record_view(record), attempted@),
{
    match record {
        None => login_outcome(None, false, false),
        Some((id, stored)) => {
            let well_formed = phc_parses(stored.as_str());
            let accepted = if well_formed {
                argon2_verify(attempted, stored.as_str())
            } else {
                false
            };
            login_outcome(Some(id), well_formed, accepted)
        },
    }
}

/// A password hashed for storage verifies, for the user it was stored under.
pub proof fn lemma_stored_password_verifies(user_id: i32, password: Seq<char>, stored: Seq<char>)
    requires
        hashed_from(stored, password),
    ensures
        verify_result(Some((user_id, stored)), password) == Ok::<i32, LoginError>(user_id),
{
}

/// Against a well-formed stored hash, a password that it does not accept is
/// refused as a wrong username or password, never as a hash error; an unknown
/// user is refused the same way.
pub proof fn lemma_wrong_password_refused(
    user_id: i32,
    wrong: Seq<char>,
    stored: Seq<char>,
)
    requires
        phc_well_formed(stored),
        !argon2_accepts(wrong, stored),
    ensures
        verify_result(Some((user_id, stored)), wrong) == Err::<i32, LoginError>(
            LoginError::WrongUsernameOrPassword,
        ),
        verify_result(None, wrong) == Err::<i32, LoginError>(LoginError::WrongUsernameOrPassword),
{
}

} // verus!
