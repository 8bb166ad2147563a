use overland_client::gate::{AuthGate, GateStep};
use overland_client::identity::CurrentUser;
use overland_client::query::token_candidates;
use overland_client::session::{PasswordDatabase, COOKIE_NAME};

fn cookie_text(cookie: &[u8]) -> String {
    format!("{}={}", COOKIE_NAME, String::from_utf8(cookie.to_vec()).unwrap())
}

fn accepted(step: &GateStep) -> Option<CurrentUser> {
    match step {
        GateStep::Accept(u) => Some(*u),
        _ => None,
    }
}

fn looked_up(step: &GateStep) -> Option<String> {
    match step {
        GateStep::LookupToken(t) => Some(t.clone()),
        _ => None,
    }
}

#[test]
fn token_candidates_in_order() {
    assert_eq!(
        token_candidates("a=1&token=abc&token=x=y&tokens=q&token=def"),
        vec!["abc".to_string(), "def".to_string()]
    );
    assert!(token_candidates("").is_empty());
    assert!(token_candidates("token").is_empty());
    assert_eq!(token_candidates("token="), vec!["".to_string()]);
}

#[test]
fn develop_mode_accepts_anything_as_admin() {
    let mut db = PasswordDatabase::new();
    db.set_develop();
    let admin = CurrentUser { user_id: 1, is_admin: true };
    for (header, query) in [
        (None, ""),
        (Some("garbage"), "token=nope"),
        (Some("__Secure-roverland-auth=xyz"), "%%%&&=="),
    ] {
        let (_, step) = AuthGate::begin(&db, header, query);
        assert_eq!(accepted(&step), Some(admin));
    }
}

#[test]
fn session_cookie_accepts_as_plain_user() {
    let mut db = PasswordDatabase::new();
    let cookie = db.create_session(12);
    let header = format!("lang=en; {}", cookie_text(&cookie));
    let (_, step) = AuthGate::begin(&db, Some(&header), "token=ignored");
    assert_eq!(accepted(&step), Some(CurrentUser { user_id: 12, is_admin: false }));
}

#[test]
fn token_parameters_are_tried_in_turn() {
    let db = PasswordDatabase::new();
    let (mut gate, step) = AuthGate::begin(&db, Some("other=1"), "token=t1&x=2&token=t2");
    assert_eq!(looked_up(&step), Some("t1".to_string()));
    let step = gate.on_token(None);
    assert_eq!(looked_up(&step), Some("t2".to_string()));
    let step = gate.on_token(Some((5, true)));
    assert_eq!(accepted(&step), Some(CurrentUser { user_id: 5, is_admin: true }));
}

#[test]
fn unknown_tokens_are_rejected() {
    let db = PasswordDatabase::new();
    let (mut gate, step) = AuthGate::begin(&db, None, "token=t1");
    assert_eq!(looked_up(&step), Some("t1".to_string()));
    let step = gate.on_token(None);
    assert!(matches!(step, GateStep::Reject));
}

#[test]
fn request_without_credentials_is_rejected() {
    let mut db = PasswordDatabase::new();
    let cookie = db.create_session(2);
    let mut wrong = cookie;
    wrong[10] = if wrong[10] == b'q' { b'r' } else { b'q' };
    let header = cookie_text(&wrong);
    for (h, q) in [(None, ""), (Some(header.as_str()), "a=b"), (Some("x=y"), "tok=1")] {
        let (_, step) = AuthGate::begin(&db, h, q);
        assert!(matches!(step, GateStep::Reject));
    }
    let (_, step) = AuthGate::begin(&db, Some(&format!("{}=", COOKIE_NAME)), "");
    assert!(matches!(step, GateStep::Reject));
}
