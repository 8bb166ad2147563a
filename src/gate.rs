use vstd::prelude::*;
use vstd::string::*;
use vstd::utf8::encode_utf8;
use crate::cookie::{cookie_lookup, get_cookie_map, parse_cookie_header};
use crate::identity::CurrentUser;
use crate::query::{query_tokens, token_candidates};
use crate::session::{
    COOKIE_AUTH_LEN, COOKIE_NAME, CookieSession, PasswordDatabase, all_alphanumeric, is_alphanumeric,
    lemma_lookup_after_push, lookup_session,
};
use crate::text::{ascii_chars, lemma_split_pair, lemma_split_whole};
use crate::cookie::{cookie_pair, cookie_pairs};
use vstd::utf8::{is_ascii_chars, is_ascii_chars_encode_utf8};

verus! {

/// The header text of an optional `&str`.
pub open spec fn opt_text(h: Option<&str>) -> Option<Seq<char>> {
    match h {
        Some(s) => Some(s@),
        None => None,
    }
}

/// The user whose session cookie a request's `Cookie` header presents, if
/// any.
pub open spec fn session_user(sessions: Seq<CookieSession>, header: Option<Seq<char>>) -> Option<
    i32,
> {
    match cookie_lookup(parse_cookie_header(header), COOKIE_NAME@) {
        Some(v) => lookup_session(sessions, encode_utf8(v)),
        None => None,
    }
}

/// The identity that develop mode gives every request.
pub open spec fn develop_identity() -> CurrentUser {
    CurrentUser { user_id: 1, is_admin: true }
}

/// What the authorization of a request asks for next.
pub enum GateStep {
    /// The request is authenticated as this identity.
    Accept(CurrentUser),
    /// Look up this device token and report the result with `on_token`.
    LookupToken(String),
    /// No credential resolved: the request is refused.
    Reject,
}

/// The authorization of one request: a session cookie first, then each
/// `token` query parameter in turn, until one resolves.
pub struct AuthGate {
    tokens: Vec<String>,
    next: usize,
}

impl AuthGate {
    /// The `token` parameters not yet looked up.
    pub closed spec fn pending(&self) -> Seq<Seq<char>> {
        self.tokens@.map_values(|t: String| t@).subrange(self.next as int, self.tokens@.len() as int)
    }

    /// The position of the next parameter lies within the parameters.
    pub closed spec fn wf(&self) -> bool {
        self.next <= self.tokens@.len()
    }

    /// Starts resolving a request from the store's state, the request's
    /// `Cookie` header and its query string. Develop mode accepts at once as
    /// the administrator; else a matching session accepts as its user, not
    /// as an administrator; else the first `token` parameter is to be looked
    /// up; with none, the request is refused.
    pub fn begin(db: &PasswordDatabase, cookie_header: Option<&str>, query: &str) -> (r: (
        AuthGate,
        GateStep,
    ))
        ensures
            r.0.wf(),
            db.develop_mode ==> r.1 == GateStep::Accept(develop_identity()),
            !db.develop_mode && session_user(db.sessions@, opt_text(cookie_header)) is Some ==> r.1
                == GateStep::Accept(
                CurrentUser {
                    user_id: session_user(db.sessions@, opt_text(cookie_header))->0,
                    is_admin: false,
                },
            ),
            !db.develop_mode && session_user(db.sessions@, opt_text(cookie_header)) is None
                ==> match r.1 {
                GateStep::LookupToken(t) => query_tokens(query@).len() > 0 && t@ == query_tokens(
                    query@,
                )[0] && r.0.pending() == query_tokens(query@).drop_first(),
                GateStep::Reject => query_tokens(query@).len() == 0,
                GateStep::Accept(_) => false,
            },
    {
        if db.develop_mode {
            let g = AuthGate { tokens: Vec::new(), next: 0 };
            return (g, GateStep::Accept(CurrentUser { user_id: 1, is_admin: true }));
        }
        let cookies = get_cookie_map(cookie_header);
        let by_cookie = match cookies.get(COOKIE_NAME) {
            Some(v) => db.resolve_session(v.as_str().as_bytes()),
            None => None,
        };
        if let Some(user_id) = by_cookie {
            let g = AuthGate { tokens: Vec::new(), next: 0 };
            return (g, GateStep::Accept(CurrentUser { user_id, is_admin: false }));
        }
        let tokens = token_candidates(query);
        let mut g = AuthGate { tokens, next: 0 };
        let step = g.advance();
        (g, step)
    }

    /// Reports the outcome of the last lookup: the owner of the token
    /// and their admin flag, or nothing. A found token accepts with that
    /// identity; else the next `token` parameter is to be looked up; with none
    /// left, the request is refused.
    pub fn on_token(&mut self, found: Option<(i32, bool)>) -> (r: GateStep)
        requires
            old(self).wf(),
        ensures
            final(self).wf(),
            match found {
                Some((user_id, is_admin)) => r == GateStep::Accept(CurrentUser { user_id, is_admin }),
                None => match r {
                    GateStep::LookupToken(t) => old(self).pending().len() > 0 && t@ == old(self).pending()[0] && final(self).pending() == old(self).pending().drop_first(),
                    GateStep::Reject => old(self).pending().len() == 0,
                    GateStep::Accept(_) => false,
                },
            },
    {
        match found {
            Some((user_id, is_admin)) => GateStep::Accept(CurrentUser { user_id, is_admin }),
            None => self.advance(),
        }
    }

    /// Moves to the next pending parameter, or refuses when none is left.
    fn advance(&mut self) -> (r: GateStep)
        requires
            old(self).wf(),
        ensures
            final(self).wf(),
            match r {
                GateStep::LookupToken(t) => old(self).pending().len() > 0 && t@ == old(self).pending()[0] && final(self).pending() == old(self).pending().drop_first(),
                GateStep::Reject => old(self).pending().len() == 0,
                GateStep::Accept(_) => false,
            },
    {
        if self.next < self.tokens.len() {
            let t = self.tokens[self.next].clone();
            self.next = self.next + 1;
            proof {
                let all = self.tokens@.map_values(|t: String| t@);
                assert(old(self).pending().drop_first() =~= all.subrange(
                    self.next as int,
                    all.len() as int,
                ));
            }
            GateStep::LookupToken(t)
        } else {
            GateStep::Reject
        }
    }
}

/// A request whose `Cookie` header presents the cookie of a session opened at
/// login resolves to that session's user, where no earlier session holds the
/// same cookie.
pub proof fn lemma_login_cookie_resolves(
    sessions: Seq<CookieSession>,
    cookie: [u8; COOKIE_AUTH_LEN],
    user_id: i32,
)
    requires
        lookup_session(sessions, cookie@) is None,
        all_alphanumeric(cookie@),
    ensures
        session_user(
            sessions.push(CookieSession { cookie, user_id }),
            Some(COOKIE_NAME@ + seq!['='] + ascii_chars(cookie@)),
        ) == Some(user_id),
{
    reveal_strlit("__Secure-roverland-auth");
    let name = COOKIE_NAME@;
    let value = ascii_chars(cookie@);
    let h = name + seq!['='] + value;
    assert forall|k: int| 0 <= k < value.len() implies is_alphanumeric(value[k] as u8) && value[k]
        != '=' && value[k] != ';' && '\0' <= value[k] <= '\u{7f}' by {
        assert(value[k] == cookie@[k] as char);
        assert(is_alphanumeric(cookie@[k]));
    }
    assert forall|k: int| 0 <= k < name.len() implies name[k] != '=' && name[k] != ';' by {}
    assert forall|k: int| 0 <= k < h.len() implies h[k] != ';' by {
        if k < name.len() {
            assert(h[k] == name[k]);
        } else if k > name.len() {
            assert(h[k] == value[k - name.len() - 1]);
        }
    }
    lemma_split_whole(h, seq![';', ' ']);
    lemma_split_pair(name, '=', value);
    assert(cookie_pair(h) == Some((name, value)));
    assert(seq![h].drop_last() =~= Seq::<Seq<char>>::empty());
    assert(seq![h].last() == h);
    assert(cookie_pairs(Seq::<Seq<char>>::empty()) == Seq::<(Seq<char>, Seq<char>)>::empty());
    assert(cookie_pairs(seq![h]) == Seq::<(Seq<char>, Seq<char>)>::empty().push((name, value)));
    assert(parse_cookie_header(Some(h)) == seq![(name, value)]);
    assert(cookie_lookup(seq![(name, value)], name) == Some(value));
    assert(is_ascii_chars(value));
    is_ascii_chars_encode_utf8(value);
    assert forall|k: int| 0 <= k < cookie@.len() implies encode_utf8(value)[k] == cookie@[k] by {
        assert(value[k] == cookie@[k] as char);
        assert(value[k] as u8 == cookie@[k]);
    }
    assert(encode_utf8(value) =~= cookie@);
    lemma_lookup_after_push(sessions, CookieSession { cookie, user_id }, cookie@);
}

} // verus!
