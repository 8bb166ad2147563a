use rand::Rng;
use vstd::prelude::*;

verus! {

/// Length in bytes of a session cookie.
pub const COOKIE_AUTH_LEN: usize = 64;

/// Name of the cookie that carries the session.
pub const COOKIE_NAME: &'static str = "__Secure-roverland-auth";

/// An ASCII letter or digit, the alphabet of cookies and tokens.
pub open spec fn is_alphanumeric(b: u8) -> bool {
    (48 <= b && b <= 57) || (65 <= b && b <= 90) || (97 <= b && b <= 122)
}

/// Every byte of `s` is an ASCII letter or digit.
pub open spec fn all_alphanumeric(s: Seq<u8>) -> bool {
    forall|i: int| 0 <= i < s.len() ==> is_alphanumeric(#[trigger] s[i])
}

/// Relies on rand's `Alphanumeric` distribution sampled from the thread-local
/// generator: one byte drawn from `A-Z`, `a-z` and `0-9`.
#[verifier::external_body]
fn random_alphanumeric() -> (r: u8)
    ensures
        is_alphanumeric(r),
{
    rand::thread_rng().sample(rand::distributions::Alphanumeric)
}

/// Fills `n` bytes with random letters and digits.
pub fn random_alphanumeric_bytes(n: usize) -> (r: Vec<u8>)
    ensures
        r@.len() == n,
        all_alphanumeric(r@),
{
    let mut v: Vec<u8> = Vec::new();
    while v.len() < n
        invariant
            v@.len() <= n,
            all_alphanumeric(v@),
        decreases n - v@.len(),
    {
        let b = random_alphanumeric();
        v.push(b);
    }
    v
}

/// Creates a random cookie made of ASCII letters and digits.
pub fn random_cookie() -> (r: [u8; COOKIE_AUTH_LEN])
    ensures
        all_alphanumeric(r@),
{
    let mut cookie = [48u8; COOKIE_AUTH_LEN];
    let mut i: usize = 0;
    while i < COOKIE_AUTH_LEN
        invariant
            i <= COOKIE_AUTH_LEN,
            cookie@.len() == COOKIE_AUTH_LEN,
            all_alphanumeric(cookie@),
        decreases COOKIE_AUTH_LEN - i,
    {
        let b = random_alphanumeric();
        cookie[i] = b;
        i = i + 1;
    }
    cookie
}

/// One login session: a cookie bound to a user.
#[derive(Clone, Copy, Debug)]
pub struct CookieSession {
    /// The cookie handed to the client.
    pub cookie: [u8; COOKIE_AUTH_LEN],
    /// The user the cookie authenticates.
    pub user_id: i32,
}

/// The user of the first session in `sessions` whose cookie is exactly
/// `presented`, if there is one.
pub open spec fn lookup_session(sessions: Seq<CookieSession>, presented: Seq<u8>) -> Option<i32>
    decreases sessions.len(),
{
    if sessions.len() == 0 {
        None
    } else if sessions[0].cookie@ == presented {
        Some(sessions[0].user_id)
    } else {
        lookup_session(sessions.drop_first(), presented)
    }
}

/// Compares a stored cookie with a presented value over the whole stored
/// length, without stopping at the first differing byte.
pub fn cookie_matches(stored: &[u8; COOKIE_AUTH_LEN], presented: &[u8]) -> (r: bool)
    ensures
        r == (stored@ == presented@),
{
    if presented.len() != COOKIE_AUTH_LEN {
        return false;
    }
    let mut diff: u8 = 0;
    let mut i: usize = 0;
    assert(stored@.subrange(0, 0) =~= presented@.subrange(0, 0));
    while i < COOKIE_AUTH_LEN
        invariant
            i <= COOKIE_AUTH_LEN,
            presented@.len() == COOKIE_AUTH_LEN,
            stored@.len() == COOKIE_AUTH_LEN,
            (diff == 0) == (stored@.subrange(0, i as int) == presented@.subrange(0, i as int)),
        decreases COOKIE_AUTH_LEN - i,
    {
        let a = stored[i];
        let b = presented[i];
        let next = diff | (a ^ b);
        assert((next == 0) == (diff == 0 && a == b)) by (bit_vector)
            requires
                next == diff | (a ^ b),
        ;
        proof {
            let s0 = stored@.subrange(0, i as int);
            let p0 = presented@.subrange(0, i as int);
            let s1 = stored@.subrange(0, i + 1);
            let p1 = presented@.subrange(0, i + 1);
            assert(s1 =~= s0.push(a));
            assert(p1 =~= p0.push(b));
            if s1 == p1 {
                assert(s0 =~= s1.drop_last());
                assert(p0 =~= p1.drop_last());
                assert(s1[i as int] == p1[i as int]);
            }
        }
        diff = next;
        i = i + 1;
    }
    assert(stored@.subrange(0, COOKIE_AUTH_LEN as int) =~= stored@);
    assert(presented@.subrange(0, COOKIE_AUTH_LEN as int) =~= presented@);
    diff == 0
}

/// The in-memory session state of the server: the login sessions, in order of
/// creation, and the develop-mode switch.
pub struct PasswordDatabase {
    /// Active sessions, oldest first.
    pub sessions: Vec<CookieSession>,
    /// When set, every request is treated as coming from the administrator.
    pub develop_mode: bool,
}

impl PasswordDatabase {
    /// An empty store, develop mode off.
    pub fn new() -> (r: PasswordDatabase)
        ensures
            r.sessions@.len() == 0,
            !r.develop_mode,
    {
        PasswordDatabase { sessions: Vec::new(), develop_mode: false }
    }

    /// Turns develop mode on.
    pub fn set_develop(&mut self)
        ensures
            final(self).develop_mode,
            final(self).sessions@ == old(self).sessions@,
    {
        self.develop_mode = true;
    }

    /// Opens a session for `user_id` under a fresh random cookie and returns
    /// the cookie.
    pub fn create_session(&mut self, user_id: i32) -> (r: [u8; COOKIE_AUTH_LEN])
        ensures
            all_alphanumeric(r@),
            final(self).sessions@ == old(self).sessions@.push(
                CookieSession { cookie: r, user_id },
            ),
            final(self).develop_mode == old(self).develop_mode,
    {
        let cookie = random_cookie();
        self.sessions.push(CookieSession { cookie, user_id });
        cookie
    }

    /// The user bound to the first session whose cookie equals `presented`
    /// byte for byte.
    pub fn resolve_session(&self, presented: &[u8]) -> (r: Option<i32>)
        ensures
            r == lookup_session(self.sessions@, presented@),
    {
        let n = self.sessions.len();
        let mut i: usize = 0;
        assert(self.sessions@.subrange(0, n as int) =~= self.sessions@);
        while i < n
            invariant
                n == self.sessions@.len(),
                i <= n,
                lookup_session(self.sessions@, presented@) == lookup_session(
                    self.sessions@.subrange(i as int, n as int),
                    presented@,
                ),
            decreases n - i,
        {
            let s = &self.sessions[i];
            if cookie_matches(&s.cookie, presented) {
                return Some(s.user_id);
            }
            assert(self.sessions@.subrange(i as int, n as int).drop_first() =~= self.sessions@.subrange(
                i + 1,
                n as int,
            ));
            i = i + 1;
        }
        None
    }
}

/// Looking a cookie up after a session was appended finds what it found
/// before, or else the appended session when its cookie matches.
pub proof fn lemma_lookup_after_push(sessions: Seq<CookieSession>, s: CookieSession, presented: Seq<u8>)
    ensures
        lookup_session(sessions.push(s), presented) == match lookup_session(sessions, presented) {
            Some(u) => Some(u),
            None => if s.cookie@ == presented {
                Some(s.user_id)
            } else {
                None
            },
        },
    decreases sessions.len(),
{
    if sessions.len() > 0 {
        assert(sessions.push(s).drop_first() =~= sessions.drop_first().push(s));
        assert(sessions.push(s)[0] == sessions[0]);
        lemma_lookup_after_push(sessions.drop_first(), s, presented);
    } else {
        assert(sessions.push(s).drop_first() =~= Seq::<CookieSession>::empty());
        assert(sessions.push(s)[0] == s);
        assert(lookup_session(Seq::<CookieSession>::empty(), presented) is None);
    }
}

/// A session opened under a cookie that no earlier session holds resolves,
/// from that exact cookie, to its user; a cookie that differs from it in one
/// byte, and that no earlier session holds either, resolves to nobody.
pub proof fn lemma_session_round_trip(
    sessions: Seq<CookieSession>,
    cookie: [u8; COOKIE_AUTH_LEN],
    user_id: i32,
    mutated: Seq<u8>,
    pos: int,
)
    requires
        lookup_session(sessions, cookie@) is None,
        lookup_session(sessions, mutated) is None,
        mutated.len() == cookie@.len(),
        0 <= pos < mutated.len(),
        mutated[pos] != cookie@[pos],
        forall|j: int| 0 <= j < mutated.len() && j != pos ==> mutated[j] == cookie@[j],
    ensures
        lookup_session(sessions.push(CookieSession { cookie, user_id }), cookie@) == Some(user_id),
        lookup_session(sessions.push(CookieSession { cookie, user_id }), mutated) is None,
{
    let s = CookieSession { cookie, user_id };
    lemma_lookup_after_push(sessions, s, cookie@);
    lemma_lookup_after_push(sessions, s, mutated);
    assert(s.cookie@ != mutated);
}

} // verus!
