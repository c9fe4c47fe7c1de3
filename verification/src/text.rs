//! Character classes and elementary string operations: the whitespace
//! tokenizer that command routing and diagnostic parsing share, prefix and
//! equality tests, and small concatenation helpers.

use vstd::prelude::*;
use vstd::string::*;

verus! {

/// The blank characters that separate tokens: the ASCII whitespace set.
pub open spec fn is_space_char(c: char) -> bool {
    c == ' ' || c == '\t' || c == '\n' || c == '\r' || c == '\u{c}'
}

/// Decides `is_space_char`.
pub fn is_space(c: char) -> (r: bool)
    ensures
        r == is_space_char(c),
{
    c == ' ' || c == '\t' || c == '\n' || c == '\r' || c == '\u{c}'
}

/// An ASCII letter or digit.
pub open spec fn is_alnum_char(c: char) -> bool {
    (48 <= c as u32 && c as u32 <= 57) || (65 <= c as u32 && c as u32 <= 90) || (97 <= c as u32
        && c as u32 <= 122)
}

/// Decides `is_alnum_char`.
pub fn is_alnum(c: char) -> (r: bool)
    ensures
        r == is_alnum_char(c),
{
    let u = c as u32;
    (48 <= u && u <= 57) || (65 <= u && u <= 90) || (97 <= u && u <= 122)
}

/// Every character of `s` is an ASCII letter or digit.
pub open spec fn all_alnum(s: Seq<char>) -> bool {
    forall|k: int| 0 <= k < s.len() ==> is_alnum_char(#[trigger] s[k])
}

/// Decides `all_alnum` over a string slice.
pub fn is_alnum_token(s: &str) -> (r: bool)
    ensures
        r == all_alnum(s@),
{
    let n = s.unicode_len();
    let mut i: usize = 0;
    while i < n
        invariant
            0 <= i <= n,
            n == s@.len(),
            forall|k: int| 0 <= k < i ==> is_alnum_char(#[trigger] s@[k]),
        decreases n - i,
    {
        if !is_alnum(s.get_char(i)) {
            return false;
        }
        i += 1;
    }
    true
}

/// The two strings hold the same characters.
pub fn str_eq(a: &str, b: &str) -> (r: bool)
    ensures
        r == (a@ == b@),
{
    let n = a.unicode_len();
    let m = b.unicode_len();
    if n != m {
        return false;
    }
    let mut i: usize = 0;
    while i < n
        invariant
            0 <= i <= n,
            n == a@.len(),
            n == b@.len(),
            forall|k: int| 0 <= k < i ==> a@[k] == b@[k],
        decreases n - i,
    {
        if a.get_char(i) != b.get_char(i) {
            return false;
        }
        i += 1;
    }
    proof {
        assert(a@ =~= b@);
    }
    true
}

/// `p` stands at the start of `s`.
pub open spec fn has_prefix_spec(s: Seq<char>, p: Seq<char>) -> bool {
    p.len() <= s.len() && s.subrange(0, p.len() as int) == p
}

/// Decides `has_prefix_spec`.
pub fn has_prefix(s: &str, p: &str) -> (r: bool)
    ensures
        r == has_prefix_spec(s@, p@),
{
    let n = s.unicode_len();
    let m = p.unicode_len();
    if m > n {
        return false;
    }
    let mut i: usize = 0;
    while i < m
        invariant
            0 <= i <= m,
            m <= n,
            n == s@.len(),
            m == p@.len(),
            forall|k: int| 0 <= k < i ==> s@[k] == p@[k],
        decreases m - i,
    {
        if s.get_char(i) != p.get_char(i) {
            proof {
                assert(s@.subrange(0, p@.len() as int)[i as int] == s@[i as int]);
            }
            return false;
        }
        i += 1;
    }
    proof {
        assert(s@.subrange(0, p@.len() as int) =~= p@);
    }
    true
}

/// The concatenation of two strings.
pub fn concat2(a: &str, b: &str) -> (r: String)
    ensures
        r@ == a@ + b@,
{
    let mut r = String::from_str(a);
    r.append(b);
    r
}

/// The concatenation of three strings.
pub fn concat3(a: &str, b: &str, c: &str) -> (r: String)
    ensures
        r@ == a@ + b@ + c@,
{
    let mut r = String::from_str(a);
    r.append(b);
    r.append(c);
    r
}


/// `s` with every trailing `c` removed.
pub open spec fn trim_trailing(s: Seq<char>, c: char) -> Seq<char>
    decreases s.len(),
{
    if s.len() > 0 && s[s.len() - 1] == c {
        trim_trailing(s.take(s.len() - 1), c)
    } else {
        s
    }
}

/// Where the suffix `[m, len)` of `s` holds only `c` and the character just
/// before it does not, trimming trailing `c` keeps exactly the first `m`
/// characters.
pub proof fn lemma_trim_trailing(s: Seq<char>, c: char, m: int)
    requires
        0 <= m <= s.len(),
        forall|k: int| m <= k < s.len() ==> #[trigger] s[k] == c,
        m == 0 || s[m - 1] != c,
    ensures
        trim_trailing(s, c) == s.take(m),
    decreases s.len(),
{
    if s.len() == m {
        assert(s.take(m) =~= s);
    } else {
        assert(s[s.len() - 1] == c);
        let s2 = s.take(s.len() - 1);
        lemma_trim_trailing(s2, c, m);
        assert(s2.take(m) =~= s.take(m));
    }
}

/// The prefix of `s` that stands before the first `stop`, or all of `s`
/// where `stop` does not occur.
pub open spec fn before_char(s: Seq<char>, stop: char) -> Seq<char>
    decreases s.len(),
{
    if s.len() == 0 {
        Seq::empty()
    } else if s[0] == stop {
        Seq::empty()
    } else {
        seq![s[0]] + before_char(s.skip(1), stop)
    }
}

/// Where the characters of `s` before `j` avoid `stop` and `j` is the end or
/// a `stop`, the prefix before the first `stop` is exactly `[0, j)`.
pub proof fn lemma_before_char(s: Seq<char>, stop: char, j: int)
    requires
        0 <= j <= s.len(),
        forall|k: int| 0 <= k < j ==> (#[trigger] s[k]) != stop,
        j == s.len() || s[j] == stop,
    ensures
        before_char(s, stop) == s.subrange(0, j),
    decreases j,
{
    if j == 0 {
        if s.len() == 0 {
            assert(before_char(s, stop) =~= s.subrange(0, 0));
        } else {
            assert(s[0] == stop);
            assert(before_char(s, stop) =~= s.subrange(0, 0));
        }
    } else {
        assert(s[0] != stop);
        let s2 = s.skip(1);
        lemma_before_char(s2, stop, j - 1);
        assert(seq![s[0]] + s2.subrange(0, j - 1) =~= s.subrange(0, j));
    }
}

/// Returns the prefix of `s` before the first `stop` character.
pub fn prefix_before(s: &str, stop: char) -> (r: String)
    ensures
        r@ == before_char(s@, stop),
{
    let n = s.unicode_len();
    let mut j: usize = 0;
    loop
        invariant_except_break
            0 <= j <= n,
            n == s@.len(),
            forall|k: int| 0 <= k < j ==> (#[trigger] s@[k]) != stop,
        ensures
            0 <= j <= n,
            n == s@.len(),
            forall|k: int| 0 <= k < j ==> (#[trigger] s@[k]) != stop,
            j == n || s@[j as int] == stop,
        decreases n - j,
    {
        if j == n {
            break;
        }
        if s.get_char(j) == stop {
            break;
        }
        j += 1;
    }
    proof {
        lemma_before_char(s@, stop, j as int);
    }
    String::from_str(s.substring_char(0, j))
}

/// The whitespace-separated tokens of `s`, in order: maximal runs of
/// non-blank characters.
pub open spec fn tokens_of(s: Seq<char>) -> Seq<Seq<char>>
    decreases s.len(),
{
    if s.len() == 0 {
        Seq::empty()
    } else if is_space_char(s[0]) {
        tokens_of(s.skip(1))
    } else if s.len() >= 2 && !is_space_char(s[1]) {
        let r = tokens_of(s.skip(1));
        seq![seq![s[0]] + r[0]] + r.skip(1)
    } else {
        seq![seq![s[0]]] + tokens_of(s.skip(1))
    }
}

/// The views of a sequence of owned strings, in order.
pub open spec fn token_views(ts: Seq<String>) -> Seq<Seq<char>> {
    Seq::new(ts.len(), |i: int| ts[i]@)
}

/// A maximal non-blank run `[start, j)` of `s` is the first token of the
/// suffix of `s` that begins at `start`.
proof fn lemma_token_block(s: Seq<char>, start: int, j: int)
    requires
        0 <= start < j <= s.len(),
        forall|k: int| start <= k < j ==> !is_space_char(#[trigger] s[k]),
        j == s.len() || is_space_char(s[j]),
    ensures
        tokens_of(s.skip(start)) == seq![s.subrange(start, j)] + tokens_of(s.skip(j)),
    decreases j - start,
{
    let t = s.skip(start);
    assert(t[0] == s[start]);
    if j == start + 1 {
        assert(t.skip(1) =~= s.skip(j));
        if j < s.len() {
            assert(t[1] == s[j]);
        }
        assert(seq![t[0]] =~= s.subrange(start, j));
        assert(tokens_of(s.skip(start)) =~= seq![s.subrange(start, j)] + tokens_of(s.skip(j)));
    } else {
        assert(t[1] == s[start + 1]);
        lemma_token_block(s, start + 1, j);
        let r = tokens_of(s.skip(start + 1));
        assert(t.skip(1) =~= s.skip(start + 1));
        assert(r[0] == s.subrange(start + 1, j));
        assert(seq![t[0]] + r[0] =~= s.subrange(start, j));
        assert(r.skip(1) =~= tokens_of(s.skip(j)));
        assert(tokens_of(s.skip(start)) =~= seq![s.subrange(start, j)] + tokens_of(s.skip(j)));
    }
}

/// Splits `s` into its whitespace-separated tokens.
pub fn tokenize(s: &str) -> (r: Vec<String>)
    ensures
        token_views(r@) == tokens_of(s@),
{
    let n = s.unicode_len();
    let mut toks: Vec<String> = Vec::new();
    let mut i: usize = 0;
    proof {
        assert(s@.skip(0) =~= s@);
        assert(token_views(toks@) + tokens_of(s@) =~= tokens_of(s@));
    }
    while i < n
        invariant
            0 <= i <= n,
            n == s@.len(),
            tokens_of(s@) == token_views(toks@) + tokens_of(s@.skip(i as int)),
        decreases n - i,
    {
        if is_space(s.get_char(i)) {
            proof {
                assert(s@.skip(i as int)[0] == s@[i as int]);
                assert(s@.skip(i as int).skip(1) =~= s@.skip(i as int + 1));
            }
            i += 1;
        } else {
            let start = i;
            loop
                invariant_except_break
                    start <= i <= n,
                    start < n,
                    n == s@.len(),
                    !is_space_char(s@[start as int]),
                    forall|k: int| start <= k < i ==> !is_space_char(#[trigger] s@[k]),
                ensures
                    start < i <= n,
                    n == s@.len(),
                    i == n || is_space_char(s@[i as int]),
                    forall|k: int| start <= k < i ==> !is_space_char(#[trigger] s@[k]),
                decreases n - i,
            {
                if i == n {
                    break;
                }
                if is_space(s.get_char(i)) {
                    break;
                }
                i += 1;
            }
            proof {
                lemma_token_block(s@, start as int, i as int);
            }
            let t = s.substring_char(start, i);
            let ghost toks_pre = toks@;
            toks.push(String::from_str(t));
            proof {
                assert(token_views(toks@) =~= token_views(toks_pre) + seq![
                    s@.subrange(start as int, i as int),
                ]);
                assert(token_views(toks_pre) + (seq![s@.subrange(start as int, i as int)]
                    + tokens_of(s@.skip(i as int))) =~= token_views(toks@) + tokens_of(
                    s@.skip(i as int),
                ));
            }
        }
    }
    proof {
        assert(s@.skip(n as int) =~= Seq::<char>::empty());
        assert(tokens_of(s@) =~= token_views(toks@));
    }
    toks
}

} // verus!
