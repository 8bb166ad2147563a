use vstd::prelude::*;
use vstd::string::*;
use crate::text::{split_on, split_text};

verus! {

/// The value of a `token=value` query piece: exactly one `=`, and the name
/// `token` before it.
pub open spec fn token_param(piece: Seq<char>) -> Option<Seq<char>> {
    let parts = split_on(piece, seq!['=']);
    if parts.len() == 2 && parts[0] == seq!['t', 'o', 'k', 'e', 'n'] {
        Some(parts[1])
    } else {
        None
    }
}

/// The token values among a sequence of query pieces, in order.
pub open spec fn token_values(pieces: Seq<Seq<char>>) -> Seq<Seq<char>>
    decreases pieces.len(),
{
    if pieces.len() == 0 {
        seq![]
    } else {
        let rest = token_values(pieces.drop_last());
        match token_param(pieces.last()) {
            Some(t) => rest.push(t),
            None => rest,
        }
    }
}

/// The `token` parameters of a query string (pieces separated by `&`), in
/// the order in which they stand.
pub open spec fn query_tokens(query: Seq<char>) -> Seq<Seq<char>> {
    token_values(split_on(query, seq!['&']))
}

/// Collects the values of the `token` parameters of a query string, in order.
pub fn token_candidates(query: &str) -> (r: Vec<String>)
    ensures
        r@.map_values(|t: String| t@) == query_tokens(query@),
{
    let amp = "&";
    let eq = "=";
    let name = "token".to_owned();
    proof {
        reveal_strlit("&");
        reveal_strlit("=");
        reveal_strlit("token");
    }
    assert(amp@ =~= seq!['&']);
    assert(eq@ =~= seq!['=']);
    assert(name@ =~= seq!['t', 'o', 'k', 'e', 'n']);
    let pieces = split_text(query, amp);
    let ghost ps = pieces@.map_values(|p: String| p@);
    let mut out: Vec<String> = Vec::new();
    let n = pieces.len();
    let mut i: usize = 0;
    while i < n
        invariant
            n == pieces@.len(),
            i <= n,
            eq@ == seq!['='],
            name@ == seq!['t', 'o', 'k', 'e', 'n'],
            ps == pieces@.map_values(|p: String| p@),
            ps == split_on(query@, seq!['&']),
            out@.map_values(|t: String| t@) == token_values(ps.subrange(0, i as int)),
        decreases n - i,
    {
        let parts = split_text(pieces[i].as_str(), eq);
        let ghost old_out = out@;
        assert(ps.subrange(0, i + 1).drop_last() =~= ps.subrange(0, i as int));
        assert(ps.subrange(0, i + 1).last() == pieces@[i as int]@);
        if parts.len() == 2 && parts[0] == name {
            let value = parts[1].clone();
            out.push(value);
            assert(out@.map_values(|t: String| t@) =~= old_out.map_values(|t: String| t@).push(
                parts@[1]@,
            ));
        }
        i = i + 1;
    }
    assert(ps.subrange(0, n as int) =~= ps);
    out
}

} // verus!
