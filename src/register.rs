use vstd::prelude::*;
use crate::password::{MAX_PASSWORD_CHARS, hash_password, hashed_from};
use crate::session::{all_alphanumeric, is_alphanumeric, random_alphanumeric_bytes};
use crate::text::{ascii_chars, ascii_string};

verus! {

/// Length in characters of device input tokens and registration tokens.
pub const INPUT_TOKEN_LEN: usize = 64;

/// Why a registration failed.
#[derive(Clone, Copy, Debug, PartialEq, Eq)]
pub enum RegisterError {
    /// The registration token was missing, unknown or already used.
    Token,
    /// The database refused to store the user or their input token.
    DB,
    /// The password could not be hashed.
    Password,
}

/// A registration request: a username, a password and, unless an
/// administrator is being created, a registration token.
#[derive(Clone, Debug)]
pub struct SignUp {
    /// Username.
    pub username: String,
    /// Password.
    pub password: String,
    /// Registration token.
    pub token: Option<String>,
}

impl SignUp {
    /// Creates a new `SignUp`.
    pub fn new(username: &str, password: &str, token: Option<&str>) -> (r: SignUp)
        ensures
            r.username@ == username@,
            r.password@ == password@,
            match token {
                Some(t) => r.token matches Some(u) && u@ == t@,
                None => r.token is None,
            },
    {
        SignUp {
            username: username.to_owned(),
            password: password.to_owned(),
            token: match token {
                Some(t) => Some(t.to_owned()),
                None => None,
            },
        }
    }
}

/// Creates a random token of ASCII letters and digits, of the length and
/// alphabet of session cookies: a device input token, or a registration token.
pub fn random_token() -> (r: String)
    ensures
        r@.len() == INPUT_TOKEN_LEN,
        exists|b: Seq<u8>| all_alphanumeric(b) && r@ == ascii_chars(b),
{
    let bytes = random_alphanumeric_bytes(INPUT_TOKEN_LEN);
    assert forall|j: int| 0 <= j < bytes@.len() implies bytes@[j] < 128 by {
        assert(is_alphanumeric(bytes@[j]));
    }
    ascii_string(bytes)
}

/// What the registration flow asks the database to do next, or its result.
pub enum RegisterAction {
    /// Mark this registration token used, if it exists and is unused, in one
    /// statement; report whether it was marked.
    ConsumeToken(String),
    /// Insert the user; report their new id, or that the insert failed.
    InsertUser { username: String, password_hash: String, is_admin: bool },
    /// Store this input token, valid, for the user; report whether it worked.
    CreateInputToken { user_id: i32, token: String },
    /// The registration is over, with this result.
    Finish(Result<(), RegisterError>),
}

/// What the database reported for the last action.
pub enum RegisterEvent {
    /// Whether the registration token was consumed.
    TokenConsumed(bool),
    /// The new user's id, or `None` when the insert failed.
    UserInserted(Option<i32>),
    /// Whether the input token was stored.
    InputTokenCreated(bool),
}

/// Where a registration stands.
#[derive(Clone, Copy, Debug, PartialEq, Eq)]
pub enum RegisterStage {
    /// Waiting for the registration token to be consumed.
    AwaitingToken,
    /// Waiting for the user row to be inserted.
    AwaitingInsert,
    /// Waiting for the input token to be stored.
    AwaitingInputToken,
    /// Over.
    Done,
}

/// One registration in progress: the user to create, with their hashed
/// password, and the stage reached.
pub struct Registration {
    /// The username to register.
    pub username: String,
    /// The password's hash, empty when hashing failed.
    pub password_hash: String,
    /// Whether an administrator is being created, which needs no token.
    pub is_admin: bool,
    /// The stage reached.
    pub stage: RegisterStage,
}

/// The action that consumes the registration token that a request carries;
/// a request without one has none to consume.
pub open spec fn consumes_given_token(a: RegisterAction, token: Option<String>) -> bool {
    match token {
        Some(t) => consumes_token(a, t@),
        None => false,
    }
}

/// The action that inserts the registration's user.
pub open spec fn is_insert_of(a: RegisterAction, reg: Registration) -> bool {
    match a {
        RegisterAction::InsertUser { username, password_hash, is_admin } => username@
            == reg.username@ && password_hash@ == reg.password_hash@ && is_admin == reg.is_admin,
        _ => false,
    }
}

/// The action that consumes registration token `t`.
pub open spec fn consumes_token(a: RegisterAction, t: Seq<char>) -> bool {
    match a {
        RegisterAction::ConsumeToken(u) => u@ == t,
        _ => false,
    }
}

/// The action that stores a fresh input token for user `id`: ASCII letters
/// and digits, `INPUT_TOKEN_LEN` of them.
pub open spec fn creates_input_token(a: RegisterAction, id: i32) -> bool {
    match a {
        RegisterAction::CreateInputToken { user_id, token } => user_id == id && token@.len()
            == INPUT_TOKEN_LEN && exists|b: Seq<u8>| all_alphanumeric(b) && token@ == ascii_chars(b),
        _ => false,
    }
}

impl Registration {
    /// Starts registering `sign_up` once the password hash is known (`None`
    /// when hashing failed). A failed hash ends the registration with
    /// `Password`; an administrator goes straight to the insert; anyone else
    /// must first consume their registration token, and without one the
    /// registration ends with `Token`.
    pub fn after_hash(sign_up: SignUp, is_admin: bool, hash: Option<String>) -> (r: (
        Registration,
        RegisterAction,
    ))
        ensures
            r.0.username@ == sign_up.username@,
            r.0.is_admin == is_admin,
            match hash {
                None => r.0.stage == RegisterStage::Done && r.1 == RegisterAction::Finish(
                    Err(RegisterError::Password),
                ),
                Some(h) => r.0.password_hash@ == h@ && if is_admin {
                    r.0.stage == RegisterStage::AwaitingInsert && is_insert_of(r.1, r.0)
                } else if sign_up.token is None {
                    r.0.stage == RegisterStage::Done && r.1 == RegisterAction::Finish(
                        Err(RegisterError::Token),
                    )
                } else {
                    r.0.stage == RegisterStage::AwaitingToken && consumes_given_token(
                        r.1,
                        sign_up.token,
                    )
                },
            },
    {
        let SignUp { username, password: _, token } = sign_up;
        match hash {
            None => {
                let reg = Registration {
                    username,
                    password_hash: String::new(),
                    is_admin,
                    stage: RegisterStage::Done,
                };
                (reg, RegisterAction::Finish(Err(RegisterError::Password)))
            },
            Some(password_hash) => {
                if is_admin {
                    let reg = Registration {
                        username: username.clone(),
                        password_hash: password_hash.clone(),
                        is_admin,
                        stage: RegisterStage::AwaitingInsert,
                    };
                    (reg, RegisterAction::InsertUser { username, password_hash, is_admin })
                } else {
                    match token {
                        Some(t) => {
                            let reg = Registration {
                                username,
                                password_hash,
                                is_admin,
                                stage: RegisterStage::AwaitingToken,
                            };
                            (reg, RegisterAction::ConsumeToken(t))
                        },
                        None => {
                            let reg = Registration {
                                username,
                                password_hash,
                                is_admin,
                                stage: RegisterStage::Done,
                            };
                            (reg, RegisterAction::Finish(Err(RegisterError::Token)))
                        },
                    }
                }
            },
        }
    }

    /// Starts registering `sign_up`: hashes the password under a fresh salt,
    /// then goes on as `after_hash` says. A password of at most
    /// `MAX_PASSWORD_CHARS` characters is always hashed, so such a request
    /// goes on to the database unless it is not an administrator's and carries
    /// no registration token, which ends with `Token`.
    pub fn start(sign_up: SignUp, is_admin: bool) -> (r: (Registration, RegisterAction))
        ensures
            r.0.username@ == sign_up.username@,
            r.0.is_admin == is_admin,
            sign_up.password@.len() <= MAX_PASSWORD_CHARS && (is_admin || sign_up.token is Some)
                ==> r.0.stage != RegisterStage::Done,
            sign_up.password@.len() <= MAX_PASSWORD_CHARS && !is_admin && sign_up.token is None
                ==> r.1 == RegisterAction::Finish(Err(RegisterError::Token)),
            r.0.stage == RegisterStage::Done ==> r.1 == RegisterAction::Finish(
                Err(RegisterError::Password),
            ) || (!is_admin && sign_up.token is None && r.1 == RegisterAction::Finish(
                Err(RegisterError::Token),
            )),
            r.0.stage != RegisterStage::Done ==> hashed_from(r.0.password_hash@, sign_up.password@),
            r.0.stage == RegisterStage::AwaitingInsert ==> is_admin && is_insert_of(r.1, r.0),
            r.0.stage == RegisterStage::AwaitingToken ==> !is_admin && consumes_given_token(
                r.1,
                sign_up.token,
            ),
            r.0.stage == RegisterStage::Done || r.0.stage == RegisterStage::AwaitingInsert
                || r.0.stage == RegisterStage::AwaitingToken,
    {
        let hash = hash_password(sign_up.password.as_str());
        Registration::after_hash(sign_up, is_admin, hash)
    }

    /// Takes the database's report on the last action and says what to do
    /// next. A token that was not consumed ends with `Token`; a failed insert
    /// or input-token store ends with `DB`; an inserted user gets a fresh
    /// input token; a stored input token ends with success. A report that
    /// does not answer the pending action ends with `DB`.
    pub fn on_event(&mut self, event: RegisterEvent) -> (r: RegisterAction)
        ensures
            final(self).username@ == old(self).username@,
            final(self).password_hash@ == old(self).password_hash@,
            final(self).is_admin == old(self).is_admin,
            match (old(self).stage, event) {
                (RegisterStage::AwaitingToken, RegisterEvent::TokenConsumed(true)) => final(self).stage
                    == RegisterStage::AwaitingInsert && is_insert_of(r, *old(self)),
                (RegisterStage::AwaitingToken, RegisterEvent::TokenConsumed(false)) => final(self).stage
                    == RegisterStage::Done && r == RegisterAction::Finish(Err(RegisterError::Token)),
                (RegisterStage::AwaitingInsert, RegisterEvent::UserInserted(Some(id))) => final(self).stage == RegisterStage::AwaitingInputToken && creates_input_token(r, id),
                (RegisterStage::AwaitingInputToken, RegisterEvent::InputTokenCreated(true)) => final(self).stage == RegisterStage::Done && r == RegisterAction::Finish(Ok(())),
                _ => final(self).stage == RegisterStage::Done && r == RegisterAction::Finish(
                    Err(RegisterError::DB),
                ),
            },
    {
        match (self.stage, event) {
            (RegisterStage::AwaitingToken, RegisterEvent::TokenConsumed(true)) => {
                self.stage = RegisterStage::AwaitingInsert;
                RegisterAction::InsertUser {
                    username: self.username.clone(),
                    password_hash: self.password_hash.clone(),
                    is_admin: self.is_admin,
                }
            },
            (RegisterStage::AwaitingToken, RegisterEvent::TokenConsumed(false)) => {
                self.stage = RegisterStage::Done;
                RegisterAction::Finish(Err(RegisterError::Token))
            },
            (RegisterStage::AwaitingInsert, RegisterEvent::UserInserted(Some(id))) => {
                self.stage = RegisterStage::AwaitingInputToken;
                let token = random_token();
                RegisterAction::CreateInputToken { user_id: id, token }
            },
            (RegisterStage::AwaitingInputToken, RegisterEvent::InputTokenCreated(true)) => {
                self.stage = RegisterStage::Done;
                RegisterAction::Finish(Ok(()))
            },
            _ => {
                self.stage = RegisterStage::Done;
                RegisterAction::Finish(Err(RegisterError::DB))
            },
        }
    }
}

/// The HTTP status and message for the end of a registration: 200 on
/// success, 401 for a bad registration token, 500 for a database or hashing
/// failure.
pub fn register_response(r: Result<(), RegisterError>) -> (out: (u16, &'static str))
    ensures
        r is Ok ==> out.0 == 200 && out.1@ == "New user created"@,
        r == Err::<(), RegisterError>(RegisterError::Token) ==> out.0 == 401 && out.1@
            == "Incorrect token"@,
        r == Err::<(), RegisterError>(RegisterError::DB) ==> out.0 == 500 && out.1@
            == "Internal database error"@,
        r == Err::<(), RegisterError>(RegisterError::Password) ==> out.0 == 500 && out.1@
            == "Password error"@,
{
    match r {
        Ok(()) => (200, "New user created"),
        Err(RegisterError::Token) => (401, "Incorrect token"),
        Err(RegisterError::DB) => (500, "Internal database error"),
        Err(RegisterError::Password) => (500, "Password error"),
    }
}

} // verus!
