use vstd::prelude::*;
use vstd::string::*;
use crate::session::{COOKIE_AUTH_LEN, COOKIE_NAME, all_alphanumeric, is_alphanumeric};
use crate::text::{ascii_chars, ascii_string, split_on, split_text};

verus! {

/// Name and value of one `name=value` piece of a cookie header: the text
/// before the first `=` and the text up to the next one. A piece without `=`
/// carries no cookie.
pub open spec fn cookie_pair(piece: Seq<char>) -> Option<(Seq<char>, Seq<char>)> {
    let parts = split_on(piece, seq!['=']);
    if parts.len() >= 2 {
        Some((parts[0], parts[1]))
    } else {
        None
    }
}

/// The cookies named by a sequence of pieces, in order.
pub open spec fn cookie_pairs(pieces: Seq<Seq<char>>) -> Seq<(Seq<char>, Seq<char>)>
    decreases pieces.len(),
{
    if pieces.len() == 0 {
        seq![]
    } else {
        let rest = cookie_pairs(pieces.drop_last());
        match cookie_pair(pieces.last()) {
            Some(p) => rest.push(p),
            None => rest,
        }
    }
}

/// The cookies of a `Cookie` header, whose pieces are separated by `"; "`.
pub open spec fn parse_cookie_header(header: Option<Seq<char>>) -> Seq<(Seq<char>, Seq<char>)> {
    match header {
        Some(h) => cookie_pairs(split_on(h, seq![';', ' '])),
        None => seq![],
    }
}

/// The value of the last cookie called `name`: a later cookie of the same
/// name replaces an earlier one.
pub open spec fn cookie_lookup(pairs: Seq<(Seq<char>, Seq<char>)>, name: Seq<char>) -> Option<
    Seq<char>,
>
    decreases pairs.len(),
{
    if pairs.len() == 0 {
        None
    } else if pairs.last().0 == name {
        Some(pairs.last().1)
    } else {
        cookie_lookup(pairs.drop_last(), name)
    }
}

/// The cookies that a request carries, by name.
pub struct CookieMap {
    pairs: Vec<(String, String)>,
}

impl View for CookieMap {
    type V = Seq<(Seq<char>, Seq<char>)>;

    closed spec fn view(&self) -> Self::V {
        self.pairs@.map_values(|p: (String, String)| (p.0@, p.1@))
    }
}

impl CookieMap {
    /// Whether no cookie was found.
    pub fn is_empty(&self) -> (r: bool)
        ensures
            r == (self@.len() == 0),
    {
        self.pairs.len() == 0
    }

    /// The value of the cookie called `name`; of the last one where the
    /// header names it twice.
    pub fn get(&self, name: &str) -> (r: Option<&String>)
        ensures
            match r {
                Some(v) => cookie_lookup(self@, name@) == Some(v@),
                None => cookie_lookup(self@, name@) is None,
            },
    {
        let key = name.to_owned();
        let n = self.pairs.len();
        let mut found: Option<&String> = None;
        let mut i: usize = 0;
        while i < n
            invariant
                n == self.pairs@.len(),
                i <= n,
                key@ == name@,
                match found {
                    Some(v) => cookie_lookup(self@.subrange(0, i as int), name@) == Some(v@),
                    None => cookie_lookup(self@.subrange(0, i as int), name@) is None,
                },
            decreases n - i,
        {
            assert(self@.subrange(0, i + 1).drop_last() =~= self@.subrange(0, i as int));
            if self.pairs[i].0 == key {
                found = Some(&self.pairs[i].1);
            }
            i = i + 1;
        }
        assert(self@.subrange(0, n as int) =~= self@);
        found
    }
}

/// Reads a `Cookie` header into its `name=value` pairs. A missing header
/// gives no cookies; a piece without `=` is passed over.
pub fn get_cookie_map(header: Option<&str>) -> (r: CookieMap)
    ensures
        r@ == parse_cookie_header(
            match header {
                Some(h) => Some(h@),
                None => None,
            },
        ),
{
    let mut pairs: Vec<(String, String)> = Vec::new();
    match header {
        None => {
            let r = CookieMap { pairs };
            assert(r@ =~= seq![]);
            r
        },
        Some(h) => {
            let sep = "; ";
            proof {
                reveal_strlit("; ");
            }
            assert(sep@ =~= seq![';', ' ']);
            let pieces = split_text(h, sep);
            let ghost ps = pieces@.map_values(|p: String| p@);
            let eq = "=";
            proof {
                reveal_strlit("=");
            }
            assert(eq@ =~= seq!['=']);
            let n = pieces.len();
            let mut i: usize = 0;
            while i < n
                invariant
                    n == pieces@.len(),
                    i <= n,
                    eq@ == seq!['='],
                    ps == pieces@.map_values(|p: String| p@),
                    ps == split_on(h@, seq![';', ' ']),
                    pairs@.map_values(|p: (String, String)| (p.0@, p.1@)) == cookie_pairs(
                        ps.subrange(0, i as int),
                    ),
                decreases n - i,
            {
                let parts = split_text(pieces[i].as_str(), eq);
                let ghost old_pairs = pairs@;
                assert(ps.subrange(0, i + 1).drop_last() =~= ps.subrange(0, i as int));
                assert(ps.subrange(0, i + 1).last() == pieces@[i as int]@);
                if parts.len() >= 2 {
                    let name = parts[0].clone();
                    let value = parts[1].clone();
                    pairs.push((name, value));
                    assert(pairs@.map_values(|p: (String, String)| (p.0@, p.1@)) =~= old_pairs.map_values(
                        |p: (String, String)| (p.0@, p.1@),
                    ).push((parts@[0]@, parts@[1]@)));
                }
                i = i + 1;
            }
            assert(ps.subrange(0, n as int) =~= ps);
            CookieMap { pairs }
        },
    }
}

/// The `Set-Cookie` value that opens a session: the cookie, marked secure and
/// same-site, kept for two days when the user asked to be remembered.
pub open spec fn set_cookie_text(cookie: Seq<u8>, remember: bool) -> Seq<char> {
    COOKIE_NAME@ + seq!['='] + ascii_chars(cookie) + "; Secure; SameSite=Strict"@ + if remember {
        "; Max-Age=172800"@
    } else {
        seq![]
    }
}

/// Builds the `Set-Cookie` header value for `cookie`; `remember` is the login
/// form's field, and only `"true"` asks for a lasting cookie.
pub fn set_cookie_header(cookie: &[u8; COOKIE_AUTH_LEN], remember: &str) -> (r: String)
    requires
        all_alphanumeric(cookie@),
    ensures
        r@ == set_cookie_text(cookie@, remember@ == "true"@),
{
    let mut bytes: Vec<u8> = Vec::new();
    let mut i: usize = 0;
    while i < COOKIE_AUTH_LEN
        invariant
            i <= COOKIE_AUTH_LEN,
            cookie@.len() == COOKIE_AUTH_LEN,
            all_alphanumeric(cookie@),
            bytes@ == cookie@.subrange(0, i as int),
        decreases COOKIE_AUTH_LEN - i,
    {
        bytes.push(cookie[i]);
        i = i + 1;
    }
    assert(cookie@.subrange(0, COOKIE_AUTH_LEN as int) =~= cookie@);
    assert forall|j: int| 0 <= j < bytes@.len() implies bytes@[j] < 128 by {
        assert(is_alphanumeric(cookie@[j]));
    }
    let value = ascii_string(bytes);
    let mut r = COOKIE_NAME.to_owned();
    r.append("=");
    r.append(value.as_str());
    r.append("; Secure; SameSite=Strict");
    let wanted = "true".to_owned();
    let given = remember.to_owned();
    if given == wanted {
        r.append("; Max-Age=172800");
    }
    proof {
        reveal_strlit("=");
    }
    assert("="@ =~= seq!['=']);
    r
}

} // verus!
