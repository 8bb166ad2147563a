use vstd::prelude::*;
use crate::cookie::{set_cookie_header, set_cookie_text};
use crate::password::{LoginError, record_view, verify_password, verify_result};
use crate::session::{COOKIE_AUTH_LEN, CookieSession, PasswordDatabase, all_alphanumeric};

verus! {

/// The page to return to after logging in.
#[derive(Clone, Debug)]
pub struct RedirectUrlQuery {
    /// Where to go; the site root when absent.
    pub redirect: Option<String>,
}

impl RedirectUrlQuery {
    /// Where to send the user after logging in: the page asked for, or the
    /// site root.
    pub fn target(&self) -> (r: String)
        ensures
            match self.redirect {
                Some(url) => r@ == url@,
                None => r@ == "/"@,
            },
    {
        match &self.redirect {
            Some(url) => url.clone(),
            None => "/".to_owned(),
        }
    }
}

/// A submitted login form.
#[derive(Clone, Debug)]
pub struct LogIn {
    /// Username.
    pub username: String,
    /// Password.
    pub password: String,
    /// `"true"` when the user asked to stay logged in.
    pub remember: String,
}

/// Ends a login once the password check is decided: on success opens a
/// session for the user and returns the `Set-Cookie` value that carries it
/// (`remember` is the form's field); on failure returns the error and leaves
/// the sessions as they were.
pub fn open_session(pdb: &mut PasswordDatabase, verified: Result<i32, LoginError>, remember: &str) -> (r:
    Result<String, LoginError>)
    ensures
        final(pdb).develop_mode == old(pdb).develop_mode,
        match verified {
            Ok(user_id) => match r {
                Ok(header) => exists|c: [u8; COOKIE_AUTH_LEN]|
                    all_alphanumeric(c@) && final(pdb).sessions@ == old(pdb).sessions@.push(
                        CookieSession { cookie: c, user_id },
                    ) && header@ == set_cookie_text(c@, remember@ == "true"@),
                Err(_) => false,
            },
            Err(e) => r == Err::<String, LoginError>(e) && final(pdb).sessions@ == old(pdb).sessions@,
        },
{
    match verified {
        Ok(user_id) => {
            let cookie = pdb.create_session(user_id);
            let header = set_cookie_header(&cookie, remember);
            Ok(header)
        },
        Err(e) => Err(e),
    }
}

/// Checks a login form against the user row found for its username (id and
/// stored hash, or nothing), then ends the login as `open_session` says.
pub fn check_username_password(
    pdb: &mut PasswordDatabase,
    record: Option<(i32, String)>,
    log_in: &LogIn,
) -> (r: Result<String, LoginError>)
    ensures
        final(pdb).develop_mode == old(pdb).develop_mode,
        match verify_result(record_view(record), log_in.password@) {
            Ok(user_id) => match r {
                Ok(header) => exists|c: [u8; COOKIE_AUTH_LEN]|
                    all_alphanumeric(c@) && final(pdb).sessions@ == old(pdb).sessions@.push(
                        CookieSession { cookie: c, user_id },
                    ) && header@ == set_cookie_text(c@, log_in.remember@ == "true"@),
                Err(_) => false,
            },
            Err(e) => r == Err::<String, LoginError>(e) && final(pdb).sessions@ == old(pdb).sessions@,
        },
{
    let verified = verify_password(record, log_in.password.as_str());
    open_session(pdb, verified, log_in.remember.as_str())
}

/// The HTTP status and message for a refused login: 500 when the stored hash
/// was unreadable, 401 otherwise.
pub fn login_error_response(e: LoginError) -> (r: (u16, &'static str))
    ensures
        e == LoginError::PasswordError ==> r.0 == 500 && r.1@ == "Error fetching info"@,
        e == LoginError::WrongUsernameOrPassword ==> r.0 == 401 && r.1@
            == "Wrong username/password"@,
{
    match e {
        LoginError::PasswordError => (500, "Error fetching info"),
        LoginError::WrongUsernameOrPassword => (401, "Wrong username/password"),
    }
}

} // verus!
