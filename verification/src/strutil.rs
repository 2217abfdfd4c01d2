//! Verified text helpers shared by the connection-string builder, the
//! catalog-query generators and the query executor: decimal rendering,
//! string comparison, identifier escaping, trimming and keyword search.

use vstd::prelude::*;

verus! {

/// Relies on std's `String::push`: appends the given character to the end
/// of the string.
#[verifier::external_body]
pub(crate) fn push_char(s: &mut String, c: char)
    ensures
        final(s)@ == old(s)@.push(c),
{
    s.push(c);
}

/// Character equality on two string slices.
pub fn str_eq(a: &str, b: &str) -> (r: bool)
    ensures
        r == (a@ == b@),
{
    let sa: String = a.to_owned();
    let sb: String = b.to_owned();
    sa == sb
}

/// The decimal digit `d` as a character, for `d < 10`.
pub open spec fn dec_digit_char(d: nat) -> char
    recommends
        d < 10,
{
    ((d + ('0' as u8)) as u8) as char
}

/// The decimal representation of `n`, most significant digit first.
pub open spec fn dec_rep(n: nat) -> Seq<char>
    decreases n,
{
    if n < 10 {
        seq![dec_digit_char(n)]
    } else {
        dec_rep(n / 10).push(dec_digit_char(n % 10))
    }
}

/// Renders `n` in decimal.
pub fn u64_to_dec(n: u64) -> (s: String)
    ensures
        s@ == dec_rep(n as nat),
    decreases n,
{
    if n < 10 {
        let mut s = String::new();
        push_char(&mut s, (('0' as u8) + n as u8) as char);
        s
    } else {
        let mut s = u64_to_dec(n / 10);
        push_char(&mut s, (('0' as u8) + (n % 10) as u8) as char);
        s
    }
}

/// One character of an identifier after escaping: the quoting character is
/// doubled, every other character is kept.
pub open spec fn escaped_char(c: char, q: char) -> Seq<char> {
    if c == q {
        seq![q, q]
    } else {
        seq![c]
    }
}

/// `s` with every occurrence of `q` doubled.
pub open spec fn escape_rep(s: Seq<char>, q: char) -> Seq<char>
    decreases s.len(),
{
    if s.len() == 0 {
        Seq::empty()
    } else {
        escape_rep(s.drop_last(), q) + escaped_char(s.last(), q)
    }
}

/// Escapes an identifier for interpolation into catalog SQL by doubling
/// every occurrence of the quoting character `q`.
pub fn escape_doubling(s: &str, q: char) -> (r: String)
    ensures
        r@ == escape_rep(s@, q),
{
    let n = s.unicode_len();
    let mut r = String::new();
    let mut i: usize = 0;
    while i < n
        invariant
            n == s@.len(),
            i <= n,
            r@ == escape_rep(s@.take(i as int), q),
        decreases n - i,
    {
        let c = s.get_char(i);
        proof {
            assert(s@.take(i + 1).drop_last() =~= s@.take(i as int));
            assert(s@.take(i + 1).last() == s@[i as int]);
        }
        if c == q {
            push_char(&mut r, q);
            push_char(&mut r, q);
            proof {
                assert(r@ =~= escape_rep(s@.take(i as int), q) + escaped_char(c, q));
            }
        } else {
            push_char(&mut r, c);
            proof {
                assert(r@ =~= escape_rep(s@.take(i as int), q) + escaped_char(c, q));
            }
        }
        i = i + 1;
    }
    proof {
        assert(s@.take(n as int) =~= s@);
    }
    r
}

/// The inverse reading of escaped text: every doubled occurrence of `q`
/// collapses back to one, scanning from the end.
pub open spec fn unescape_rep(s: Seq<char>, q: char) -> Seq<char>
    decreases s.len(),
{
    if s.len() == 0 {
        Seq::empty()
    } else if s.len() >= 2 && s.last() == q && s[s.len() - 2] == q {
        unescape_rep(s.drop_last().drop_last(), q).push(q)
    } else {
        unescape_rep(s.drop_last(), q).push(s.last())
    }
}

/// Law: escaping an identifier loses nothing: collapsing every doubled
/// quoting character recovers the identifier exactly, so distinct
/// identifiers never escape to the same text.
pub proof fn lemma_escape_round_trip(s: Seq<char>, q: char)
    ensures
        unescape_rep(escape_rep(s, q), q) == s,
    decreases s.len(),
{
    if s.len() > 0 {
        lemma_escape_round_trip(s.drop_last(), q);
        let e = escape_rep(s.drop_last(), q);
        if s.last() == q {
            assert(escape_rep(s, q) =~= e.push(q).push(q));
            assert(e.push(q).push(q).drop_last().drop_last() =~= e);
            assert(unescape_rep(escape_rep(s, q), q) =~= s);
        } else {
            assert(escape_rep(s, q) =~= e.push(s.last()));
            assert(e.push(s.last()).drop_last() =~= e);
            assert(unescape_rep(escape_rep(s, q), q) =~= s);
        }
    } else {
        assert(escape_rep(s, q) =~= Seq::<char>::empty());
        assert(unescape_rep(escape_rep(s, q), q) =~= s);
    }
}

/// The whitespace characters that the trimming helpers remove.
pub open spec fn is_sql_ws(c: char) -> bool {
    c == ' ' || c == '\t' || c == '\n' || c == '\r'
}

/// `s` without its leading whitespace.
pub open spec fn trim_front(s: Seq<char>) -> Seq<char>
    decreases s.len(),
{
    if s.len() > 0 && is_sql_ws(s[0]) {
        trim_front(s.drop_first())
    } else {
        s
    }
}

/// `s` without its trailing whitespace.
pub open spec fn trim_end(s: Seq<char>) -> Seq<char>
    decreases s.len(),
{
    if s.len() > 0 && is_sql_ws(s.last()) {
        trim_end(s.drop_last())
    } else {
        s
    }
}

/// `s` without leading and trailing whitespace.
pub open spec fn trimmed(s: Seq<char>) -> Seq<char> {
    trim_end(trim_front(s))
}

/// Removes leading and trailing whitespace.
pub fn trim_sql(s: &str) -> (r: &str)
    ensures
        r@ == trimmed(s@),
{
    let n = s.unicode_len();
    proof {
        assert(s@.skip(0) =~= s@);
    }
    let mut a: usize = 0;
    while a < n && is_ws_exec(s.get_char(a))
        invariant
            n == s@.len(),
            a <= n,
            trim_front(s@) == trim_front(s@.skip(a as int)),
        decreases n - a,
    {
        proof {
            assert(s@.skip(a as int).drop_first() =~= s@.skip(a + 1));
            assert(s@.skip(a as int)[0] == s@[a as int]);
        }
        a = a + 1;
    }
    proof {
        if a < n {
            assert(s@.skip(a as int)[0] == s@[a as int]);
        }
        assert(trim_front(s@) =~= s@.subrange(a as int, n as int));
    }
    let mut b: usize = n;
    while b > a && is_ws_exec(s.get_char(b - 1))
        invariant
            n == s@.len(),
            a <= b <= n,
            trim_front(s@) == s@.subrange(a as int, n as int),
            trim_end(s@.subrange(a as int, n as int)) == trim_end(
                s@.subrange(a as int, b as int),
            ),
        decreases b,
    {
        proof {
            assert(s@.subrange(a as int, b as int).drop_last() =~= s@.subrange(
                a as int,
                b - 1,
            ));
            assert(s@.subrange(a as int, b as int).last() == s@[b - 1]);
        }
        b = b - 1;
    }
    proof {
        if b > a {
            assert(s@.subrange(a as int, b as int).last() == s@[b - 1]);
        }
        assert(trim_end(s@.subrange(a as int, b as int)) =~= s@.subrange(a as int, b as int));
    }
    s.substring_char(a, b)
}

/// `s` without its trailing occurrences of `c`.
pub open spec fn strip_trailing(s: Seq<char>, c: char) -> Seq<char>
    decreases s.len(),
{
    if s.len() > 0 && s.last() == c {
        strip_trailing(s.drop_last(), c)
    } else {
        s
    }
}

/// Removes every trailing occurrence of `c`.
pub fn strip_trailing_char<'a>(s: &'a str, c: char) -> (r: &'a str)
    ensures
        r@ == strip_trailing(s@, c),
{
    let n = s.unicode_len();
    proof {
        assert(s@.subrange(0, n as int) =~= s@);
    }
    let mut b: usize = n;
    while b > 0 && s.get_char(b - 1) == c
        invariant
            n == s@.len(),
            b <= n,
            strip_trailing(s@, c) == strip_trailing(s@.subrange(0, b as int), c),
        decreases b,
    {
        proof {
            assert(s@.subrange(0, n as int) =~= s@);
            assert(s@.subrange(0, b as int).drop_last() =~= s@.subrange(0, b - 1));
            assert(s@.subrange(0, b as int).last() == s@[b - 1]);
        }
        b = b - 1;
    }
    proof {
        assert(s@.subrange(0, n as int) =~= s@);
        if b > 0 {
            assert(s@.subrange(0, b as int).last() == s@[b - 1]);
        }
        assert(strip_trailing(s@.subrange(0, b as int), c) =~= s@.subrange(0, b as int));
    }
    s.substring_char(0, b)
}

/// Whether `c` equals the lower-case or the upper-case letter at one
/// position of a keyword.
pub open spec fn ci_eq(c: char, l: char, u: char) -> bool {
    c == l || c == u
}

/// Whether the keyword given by `lo`/`up` (its lower-case and upper-case
/// spellings) occurs in `s` at position `p`.
pub open spec fn kw_at(s: Seq<char>, lo: Seq<char>, up: Seq<char>, p: int) -> bool {
    forall|j: int| 0 <= j < lo.len() ==> ci_eq(s[p + j], lo[j], up[j])
}

/// Whether `s` starts with the keyword, matching each letter against its
/// lower-case or upper-case spelling.
pub open spec fn starts_with_kw(s: Seq<char>, lo: Seq<char>, up: Seq<char>) -> bool {
    lo.len() <= s.len() && kw_at(s, lo, up, 0)
}

/// Whether the keyword occurs anywhere in `s`.
pub open spec fn contains_kw(s: Seq<char>, lo: Seq<char>, up: Seq<char>) -> bool {
    exists|p: int| 0 <= p && p + lo.len() <= s.len() && kw_at(s, lo, up, p)
}

fn is_ws_exec(c: char) -> (r: bool)
    ensures
        r == is_sql_ws(c),
{
    c == ' ' || c == '\t' || c == '\n' || c == '\r'
}

fn kw_match_at(s: &str, lo: &str, up: &str, p: usize) -> (r: bool)
    requires
        lo@.len() == up@.len(),
        p + lo@.len() <= s@.len(),
        s@.len() <= usize::MAX,
    ensures
        r == kw_at(s@, lo@, up@, p as int),
{
    let m = lo.unicode_len();
    let mut j: usize = 0;
    while j < m
        invariant
            m == lo@.len(),
            lo@.len() == up@.len(),
            p + m <= s@.len() <= usize::MAX,
            j <= m,
            forall|jj: int| 0 <= jj < j ==> ci_eq(s@[p + jj], lo@[jj], up@[jj]),
        decreases m - j,
    {
        let c = s.get_char(p + j);
        let l = lo.get_char(j);
        let u = up.get_char(j);
        if !(c == l || c == u) {
            return false;
        }
        j = j + 1;
    }
    true
}

/// Whether `s` starts with the keyword whose lower-case spelling is `lo`
/// and whose upper-case spelling is `up`.
pub fn starts_with_keyword(s: &str, lo: &str, up: &str) -> (r: bool)
    requires
        lo@.len() == up@.len(),
    ensures
        r == starts_with_kw(s@, lo@, up@),
{
    let n = s.unicode_len();
    let m = lo.unicode_len();
    if m > n {
        return false;
    }
    kw_match_at(s, lo, up, 0)
}

/// Whether the keyword whose lower-case spelling is `lo` and whose
/// upper-case spelling is `up` occurs anywhere in `s`.
pub fn contains_keyword(s: &str, lo: &str, up: &str) -> (r: bool)
    requires
        lo@.len() == up@.len(),
    ensures
        r == contains_kw(s@, lo@, up@),
{
    let n = s.unicode_len();
    let m = lo.unicode_len();
    if m > n {
        return false;
    }
    let mut p: usize = 0;
    while p <= n - m
        invariant
            n == s@.len(),
            m == lo@.len(),
            lo@.len() == up@.len(),
            m <= n,
            p <= n - m + 1,
            forall|pp: int| 0 <= pp < p ==> !kw_at(s@, lo@, up@, pp),
        decreases n - m - p + 1,
    {
        if kw_match_at(s, lo, up, p) {
            return true;
        }
        p = p + 1;
    }
    false
}

} // verus!
