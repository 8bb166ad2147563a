use overland_client::gate::{AuthGate, GateStep};
use overland_client::identity::CurrentUser;
use overland_client::login::{check_username_password, LogIn};
use overland_client::register::{RegisterAction, RegisterEvent, Registration, SignUp};
use overland_client::session::{PasswordDatabase, COOKIE_NAME};

#[test]
fn admin_registers_logs_in_and_is_recognised() {
    // Register the administrator: no token is asked for.
    let (mut reg, action) = Registration::start(SignUp::new("root", "hunter2", None), true);
    let stored = match action {
        RegisterAction::InsertUser { username, password_hash, is_admin } => {
            assert_eq!(username, "root");
            assert!(is_admin);
            password_hash
        }
        _ => panic!("expected an insert"),
    };
    let action = reg.on_event(RegisterEvent::UserInserted(Some(1)));
    assert!(matches!(action, RegisterAction::CreateInputToken { user_id: 1, .. }));
    let action = reg.on_event(RegisterEvent::InputTokenCreated(true));
    assert!(matches!(action, RegisterAction::Finish(Ok(()))));

    // Log in with the same credentials.
    let mut db = PasswordDatabase::new();
    let form = LogIn {
        username: "root".to_string(),
        password: "hunter2".to_string(),
        remember: "false".to_string(),
    };
    let set_cookie = check_username_password(&mut db, Some((1, stored)), &form).unwrap();
    let prefix = format!("{}=", COOKIE_NAME);
    assert!(set_cookie.starts_with(&prefix));
    let pair = set_cookie.split("; ").next().unwrap().to_string();

    // The cookie identifies the user on the next request.
    let (_, step) = AuthGate::begin(&db, Some(&pair), "");
    match step {
        GateStep::Accept(user) => assert_eq!(user, CurrentUser { user_id: 1, is_admin: false }),
        _ => panic!("expected the session to resolve"),
    }
}
