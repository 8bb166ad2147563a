use overland_client::password::verify_password;
use overland_client::register::{
    register_response, RegisterAction, RegisterError, RegisterEvent, RegisterStage, Registration,
    SignUp, INPUT_TOKEN_LEN,
};

/// A stand-in for the tables that registration writes.
struct Tables {
    users: Vec<(i32, String, String, bool)>,
    register_tokens: Vec<(String, bool)>,
    input_tokens: Vec<(String, i32)>,
}

impl Tables {
    fn new(tokens: &[&str]) -> Tables {
        Tables {
            users: vec![],
            register_tokens: tokens.iter().map(|t| (t.to_string(), false)).collect(),
            input_tokens: vec![],
        }
    }

    fn consume(&mut self, token: &str) -> bool {
        for (t, used) in self.register_tokens.iter_mut() {
            if t == token && !*used {
                *used = true;
                return true;
            }
        }
        false
    }

    fn answer(&mut self, action: RegisterAction) -> Result<RegisterEvent, Result<(), RegisterError>> {
        match action {
            RegisterAction::ConsumeToken(t) => Ok(RegisterEvent::TokenConsumed(self.consume(&t))),
            RegisterAction::InsertUser { username, password_hash, is_admin } => {
                if self.users.iter().any(|u| u.1 == username) {
                    return Ok(RegisterEvent::UserInserted(None));
                }
                let id = self.users.len() as i32 + 1;
                self.users.push((id, username, password_hash, is_admin));
                Ok(RegisterEvent::UserInserted(Some(id)))
            }
            RegisterAction::CreateInputToken { user_id, token } => {
                self.input_tokens.push((token, user_id));
                Ok(RegisterEvent::InputTokenCreated(true))
            }
            RegisterAction::Finish(r) => Err(r),
        }
    }

    fn register(&mut self, sign_up: SignUp, is_admin: bool) -> Result<(), RegisterError> {
        let (mut reg, mut action) = Registration::start(sign_up, is_admin);
        loop {
            match self.answer(action) {
                Ok(event) => action = reg.on_event(event),
                Err(r) => return r,
            }
        }
    }

    fn finish(&mut self, reg: &mut Registration, mut action: RegisterAction) -> Result<(), RegisterError> {
        loop {
            match self.answer(action) {
                Ok(event) => action = reg.on_event(event),
                Err(r) => return r,
            }
        }
    }
}

#[test]
fn sign_up_new_copies_fields() {
    let s = SignUp::new("ann", "pw", Some("tok"));
    assert_eq!(s.username, "ann");
    assert_eq!(s.password, "pw");
    assert_eq!(s.token, Some("tok".to_string()));
    assert_eq!(SignUp::new("a", "b", None).token, None);
}

#[test]
fn admin_needs_no_token() {
    let mut db = Tables::new(&[]);
    assert_eq!(db.register(SignUp::new("root", "hunter2", None), true), Ok(()));
    assert_eq!(db.users.len(), 1);
    assert!(db.users[0].3);
    assert_eq!(db.input_tokens.len(), 1);
    assert_eq!(db.input_tokens[0].1, db.users[0].0);
    assert_eq!(db.input_tokens[0].0.len(), INPUT_TOKEN_LEN);
    assert!(db.input_tokens[0].0.chars().all(|c| c.is_ascii_alphanumeric()));
    let stored = db.users[0].2.clone();
    assert_eq!(verify_password(Some((db.users[0].0, stored)), "hunter2"), Ok(1));
}

#[test]
fn user_without_token_is_refused() {
    let mut db = Tables::new(&["t"]);
    assert_eq!(db.register(SignUp::new("ann", "pw", None), false), Err(RegisterError::Token));
    assert_eq!(db.register(SignUp::new("ann", "pw", Some("bad")), false), Err(RegisterError::Token));
    assert!(db.users.is_empty());
    assert!(!db.register_tokens[0].1);
}

#[test]
fn token_registers_once() {
    let mut db = Tables::new(&["t"]);
    assert_eq!(db.register(SignUp::new("ann", "pw", Some("t")), false), Ok(()));
    assert_eq!(db.register(SignUp::new("bob", "pw", Some("t")), false), Err(RegisterError::Token));
    assert_eq!(db.users.len(), 1);
    assert_eq!(db.users[0].1, "ann");
    assert!(db.register_tokens[0].1);
}

#[test]
fn racing_registrations_on_one_token() {
    let mut db = Tables::new(&["t"]);
    let (mut a, act_a) = Registration::start(SignUp::new("ann", "pw", Some("t")), false);
    let (mut b, act_b) = Registration::start(SignUp::new("bob", "pw", Some("t")), false);
    // Both ask to consume before either inserts.
    let ev_b = db.answer(act_b).unwrap();
    let ev_a = db.answer(act_a).unwrap();
    let next_a = a.on_event(ev_a);
    let next_b = b.on_event(ev_b);
    let ra = db.finish(&mut a, next_a);
    let rb = db.finish(&mut b, next_b);
    assert_eq!(ra, Err(RegisterError::Token));
    assert_eq!(rb, Ok(()));
    assert_eq!(db.users.len(), 1);
    assert!(db.register_tokens[0].1);
}

#[test]
fn duplicate_username_is_a_database_error() {
    let mut db = Tables::new(&["t1", "t2"]);
    assert_eq!(db.register(SignUp::new("ann", "pw", Some("t1")), false), Ok(()));
    assert_eq!(db.register(SignUp::new("ann", "pw", Some("t2")), false), Err(RegisterError::DB));
    assert_eq!(db.users.len(), 1);
}

#[test]
fn failed_hash_ends_with_password_error() {
    let (reg, action) = Registration::after_hash(SignUp::new("a", "b", Some("t")), false, None);
    assert_eq!(reg.stage, RegisterStage::Done);
    assert!(matches!(action, RegisterAction::Finish(Err(RegisterError::Password))));
}

#[test]
fn hash_then_token_then_insert() {
    let (mut reg, action) =
        Registration::after_hash(SignUp::new("a", "b", Some("t")), false, Some("H".to_string()));
    assert_eq!(reg.stage, RegisterStage::AwaitingToken);
    assert!(matches!(action, RegisterAction::ConsumeToken(ref t) if t == "t"));
    let action = reg.on_event(RegisterEvent::TokenConsumed(true));
    match action {
        RegisterAction::InsertUser { username, password_hash, is_admin } => {
            assert_eq!(username, "a");
            assert_eq!(password_hash, "H");
            assert!(!is_admin);
        }
        _ => panic!("expected an insert"),
    }
    let action = reg.on_event(RegisterEvent::UserInserted(Some(6)));
    assert!(matches!(action, RegisterAction::CreateInputToken { user_id: 6, .. }));
    let action = reg.on_event(RegisterEvent::InputTokenCreated(false));
    assert!(matches!(action, RegisterAction::Finish(Err(RegisterError::DB))));
}

#[test]
fn missing_token_is_refused_without_asking_the_database() {
    let (reg, action) =
        Registration::after_hash(SignUp::new("a", "b", None), false, Some("H".to_string()));
    assert_eq!(reg.stage, RegisterStage::Done);
    assert!(matches!(action, RegisterAction::Finish(Err(RegisterError::Token))));
    let (reg, action) = Registration::start(SignUp::new("a", "b", None), false);
    assert_eq!(reg.stage, RegisterStage::Done);
    assert!(matches!(action, RegisterAction::Finish(Err(RegisterError::Token))));
}

#[test]
fn failed_hash_comes_before_missing_token() {
    let (_, action) = Registration::after_hash(SignUp::new("a", "b", None), false, None);
    assert!(matches!(action, RegisterAction::Finish(Err(RegisterError::Password))));
}

#[test]
fn report_out_of_turn_is_a_database_error() {
    let (mut reg, _) = Registration::after_hash(SignUp::new("a", "b", None), true, Some("H".to_string()));
    assert_eq!(reg.stage, RegisterStage::AwaitingInsert);
    let action = reg.on_event(RegisterEvent::TokenConsumed(true));
    assert!(matches!(action, RegisterAction::Finish(Err(RegisterError::DB))));
    assert_eq!(reg.stage, RegisterStage::Done);
}

#[test]
fn register_statuses() {
    assert_eq!(register_response(Ok(())), (200, "New user created"));
    assert_eq!(register_response(Err(RegisterError::Token)), (401, "Incorrect token"));
    assert_eq!(register_response(Err(RegisterError::DB)), (500, "Internal database error"));
    assert_eq!(register_response(Err(RegisterError::Password)), (500, "Password error"));
}

#[test]
fn start_hashes_the_password() {
    let (reg, action) = Registration::start(SignUp::new("ann", "correct horse", Some("t")), false);
    assert_eq!(reg.stage, RegisterStage::AwaitingToken);
    assert!(reg.password_hash.starts_with("$argon2id$"));
    assert_eq!(verify_password(Some((2, reg.password_hash.clone())), "correct horse"), Ok(2));
    assert!(matches!(action, RegisterAction::ConsumeToken(ref t) if t == "t"));
    let (reg, _) = Registration::start(SignUp::new("ann", "", None), true);
    assert_eq!(reg.stage, RegisterStage::AwaitingInsert);
}

#[test]
fn empty_token_in_the_table_is_never_consumed_for_a_missing_token() {
    let mut db = Tables::new(&[""]);
    assert_eq!(db.register(SignUp::new("ann", "pw", None), false), Err(RegisterError::Token));
    assert!(db.users.is_empty());
    assert!(!db.register_tokens[0].1);
}
