use vstd::prelude::*;
use vstd::string::*;

verus! {

/// `sep` occurs in `s` at position `i`.
pub open spec fn occurs_at(s: Seq<char>, sep: Seq<char>, i: int) -> bool {
    0 <= i && i + sep.len() <= s.len() && s.subrange(i, i + sep.len()) == sep
}

/// The pieces of `s` from `start` on, cut at each occurrence of `sep` found
/// scanning left to right from position `i`.
pub open spec fn split_from(s: Seq<char>, sep: Seq<char>, start: int, i: int) -> Seq<Seq<char>>
    decreases s.len() - i,
{
    if !(0 <= start <= i) || sep.len() == 0 || i + sep.len() > s.len() {
        seq![s.subrange(start, s.len() as int)]
    } else if occurs_at(s, sep, i) {
        seq![s.subrange(start, i)] + split_from(s, sep, i + sep.len(), i + sep.len())
    } else {
        split_from(s, sep, start, i + 1)
    }
}

/// The pieces of `s` between the non-overlapping occurrences of `sep`, as
/// `str::split` yields them.
pub open spec fn split_on(s: Seq<char>, sep: Seq<char>) -> Seq<Seq<char>> {
    split_from(s, sep, 0, 0)
}

/// The characters of a sequence of bytes read as ASCII.
pub open spec fn ascii_chars(b: Seq<u8>) -> Seq<char> {
    b.map_values(|x: u8| x as char)
}

/// Relies on std's `String::from_utf8`: ASCII bytes are valid UTF-8 and
/// decode to one character each.
#[verifier::external_body]
pub(crate) fn ascii_string(bytes: Vec<u8>) -> (r: String)
    requires
        forall|i: int| 0 <= i < bytes@.len() ==> bytes@[i] < 128,
    ensures
        r@ == ascii_chars(bytes@),
{
    String::from_utf8(bytes).unwrap_or_default()
}

/// The characters of `s`, one per element.
pub fn chars_of(s: &str) -> (r: Vec<char>)
    ensures
        r@ == s@,
{
    let mut v: Vec<char> = Vec::new();
    for c in it: s.chars()
        invariant
            v@ == it.seq().subrange(0, it.index() as int),
    {
        v.push(c);
    }
    v
}

/// Whether `sep` occurs in `cs` at position `i`.
fn occurs_in(cs: &Vec<char>, sep: &Vec<char>, i: usize) -> (r: bool)
    requires
        i + sep@.len() <= cs@.len(),
    ensures
        r == occurs_at(cs@, sep@, i as int),
{
    let k = sep.len();
    let mut j: usize = 0;
    while j < k
        invariant
            k == sep@.len(),
            i + k <= cs.len(),
            j <= k,
            forall|m: int| 0 <= m < j ==> cs@[i + m] == sep@[m],
        decreases k - j,
    {
        if cs[i + j] != sep[j] {
            assert(cs@.subrange(i as int, i + k)[j as int] != sep@[j as int]);
            return false;
        }
        j = j + 1;
    }
    assert(cs@.subrange(i as int, i + k) =~= sep@);
    true
}

/// Splits `s` at each occurrence of `sep`, as `str::split` does.
pub fn split_text(s: &str, sep: &str) -> (r: Vec<String>)
    requires
        sep@.len() > 0,
    ensures
        r@.map_values(|p: String| p@) == split_on(s@, sep@),
{
    let cs = chars_of(s);
    let ps = chars_of(sep);
    let n = cs.len();
    let k = ps.len();
    let mut out: Vec<String> = Vec::new();
    let mut start: usize = 0;
    let mut i: usize = 0;
    assert(out@.map_values(|p: String| p@) =~= Seq::<Seq<char>>::empty());
    assert(Seq::<Seq<char>>::empty() + split_from(s@, sep@, 0, 0) =~= split_on(s@, sep@));
    while k <= n && i <= n - k
        invariant
            cs@ == s@,
            ps@ == sep@,
            n == s@.len(),
            k == sep@.len(),
            k > 0,
            start <= i <= n,
            out@.map_values(|p: String| p@) + split_from(s@, sep@, start as int, i as int)
                == split_on(s@, sep@),
        decreases n - i,
    {
        if occurs_in(&cs, &ps, i) {
            let piece = s.substring_char(start, i).to_owned();
            proof {
                let old_out = out@.map_values(|p: String| p@);
                let rest = split_from(s@, sep@, (i + k) as int, (i + k) as int);
                assert(split_from(s@, sep@, start as int, i as int) == seq![s@.subrange(
                    start as int,
                    i as int,
                )] + rest);
                assert(out@.push(piece).map_values(|p: String| p@) =~= old_out.push(piece@));
                assert(old_out.push(piece@) + rest =~= old_out + (seq![piece@] + rest));
            }
            out.push(piece);
            start = i + k;
            i = i + k;
        } else {
            i = i + 1;
        }
    }
    let last = s.substring_char(start, n).to_owned();
    proof {
        let old_out = out@.map_values(|p: String| p@);
        assert(split_from(s@, sep@, start as int, i as int) == seq![s@.subrange(
            start as int,
            n as int,
        )]);
        assert(out@.push(last).map_values(|p: String| p@) =~= old_out.push(last@));
        assert(old_out.push(last@) =~= old_out + seq![last@]);
    }
    out.push(last);
    out
}

/// Scanning past positions where the separator's first character does not
/// stand changes nothing.
pub proof fn lemma_split_skip(s: Seq<char>, sep: Seq<char>, start: int, i: int, j: int)
    requires
        sep.len() > 0,
        0 <= start <= i <= j <= s.len(),
        forall|k: int| i <= k < j ==> s[k] != sep[0],
    ensures
        split_from(s, sep, start, i) == split_from(s, sep, start, j),
    decreases j - i,
{
    if i < j {
        if i + sep.len() <= s.len() {
            assert(s.subrange(i, i + sep.len())[0] == s[i]);
            assert(!occurs_at(s, sep, i));
            lemma_split_skip(s, sep, start, i + 1, j);
        } else {
            assert(j + sep.len() > s.len());
        }
    }
}

/// Text without the separator's first character is one piece.
pub proof fn lemma_split_whole(s: Seq<char>, sep: Seq<char>)
    requires
        sep.len() > 0,
        forall|k: int| 0 <= k < s.len() ==> s[k] != sep[0],
    ensures
        split_on(s, sep) == seq![s],
{
    lemma_split_skip(s, sep, 0, 0, s.len() as int);
    assert(s.subrange(0, s.len() as int) =~= s);
}

/// Text made of two parts around a single one-character separator splits
/// into those two parts.
pub proof fn lemma_split_pair(a: Seq<char>, c: char, b: Seq<char>)
    requires
        forall|k: int| 0 <= k < a.len() ==> a[k] != c,
        forall|k: int| 0 <= k < b.len() ==> b[k] != c,
    ensures
        split_on(a + seq![c] + b, seq![c]) == seq![a, b],
{
    let s = a + seq![c] + b;
    let sep = seq![c];
    let n = a.len() as int;
    assert forall|k: int| 0 <= k < n implies s[k] != sep[0] by {
        assert(s[k] == a[k]);
    }
    lemma_split_skip(s, sep, 0, 0, n);
    assert(s.subrange(n, n + 1) =~= sep);
    assert(occurs_at(s, sep, n));
    assert forall|k: int| n + 1 <= k < s.len() implies s[k] != sep[0] by {
        assert(s[k] == b[k - n - 1]);
    }
    lemma_split_skip(s, sep, n + 1, n + 1, s.len() as int);
    assert(s.subrange(0, n) =~= a);
    assert(s.subrange(n + 1, s.len() as int) =~= b);
    assert(split_on(s, sep) =~= seq![a, b]);
}

} // verus!
