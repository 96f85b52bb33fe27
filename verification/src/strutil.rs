//! Small verified building blocks for text handling: ASCII whitespace
//! trimming, character-wise string comparison, prefix tests and decimal
//! formatting. The admin wire codec and the URL checks are built on these.

use vstd::prelude::*;
use vstd::string::StrSliceExecFns;
use vstd::string::StringExecFns;

verus! {

/// ASCII whitespace, the only kind the wire protocol tolerates around a
/// request line.
pub open spec fn is_ws_char(c: char) -> bool {
    c == ' ' || c == '\t' || c == '\r' || c == '\n'
}

/// `s` with ASCII whitespace removed from both ends.
pub open spec fn trimmed(s: Seq<char>) -> Seq<char>
    decreases s.len(),
{
    if s.len() == 0 {
        s
    } else if is_ws_char(s[0]) {
        trimmed(s.drop_first())
    } else if is_ws_char(s.last()) {
        trimmed(s.drop_last())
    } else {
        s
    }
}

proof fn lemma_trimmed_drop_first(s: Seq<char>)
    requires
        s.len() > 0,
        is_ws_char(s[0]),
    ensures
        trimmed(s) == trimmed(s.subrange(1, s.len() as int)),
{
    assert(s.drop_first() =~= s.subrange(1, s.len() as int));
}

proof fn lemma_trimmed_drop_last(s: Seq<char>)
    requires
        s.len() > 0,
        !is_ws_char(s[0]),
        is_ws_char(s.last()),
    ensures
        trimmed(s) == trimmed(s.subrange(0, s.len() - 1)),
{
    assert(s.drop_last() =~= s.subrange(0, s.len() - 1));
}

fn is_ws(c: char) -> (r: bool)
    ensures
        r == is_ws_char(c),
{
    c == ' ' || c == '\t' || c == '\r' || c == '\n'
}

/// Remove ASCII whitespace from both ends of `s`.
pub fn trim_str<'a>(s: &'a str) -> (r: &'a str)
    ensures
        r@ == trimmed(s@),
{
    let n = s.unicode_len();
    let mut lo: usize = 0;
    proof {
        assert(s@.subrange(0, n as int) =~= s@);
    }
    while lo < n && is_ws(s.get_char(lo))
        invariant
            lo <= n,
            n == s@.len(),
            trimmed(s@) == trimmed(s@.subrange(lo as int, n as int)),
        decreases n - lo,
    {
        proof {
            let sub = s@.subrange(lo as int, n as int);
            lemma_trimmed_drop_first(sub);
            assert(sub.subrange(1, sub.len() as int) =~= s@.subrange(lo as int + 1, n as int));
        }
        lo = lo + 1;
    }
    if lo == n {
        let r = s.substring_char(n, n);
        proof {
            assert(s@.subrange(n as int, n as int) =~= Seq::<char>::empty());
            assert(trimmed(s@) =~= Seq::<char>::empty());
        }
        return r;
    }
    let mut hi: usize = n;
    while hi > lo + 1 && is_ws(s.get_char(hi - 1))
        invariant
            lo < hi <= n,
            n == s@.len(),
            !is_ws_char(s@[lo as int]),
            trimmed(s@) == trimmed(s@.subrange(lo as int, hi as int)),
        decreases hi,
    {
        proof {
            let sub = s@.subrange(lo as int, hi as int);
            lemma_trimmed_drop_last(sub);
            assert(sub.subrange(0, sub.len() - 1) =~= s@.subrange(lo as int, hi as int - 1));
        }
        hi = hi - 1;
    }
    s.substring_char(lo, hi)
}

/// Character-wise string equality, decided without any assumption about
/// the encoding of either side.
pub fn str_eq_chars(a: &str, b: &str) -> (r: bool)
    ensures
        r == (a@ == b@),
{
    let na = a.unicode_len();
    let nb = b.unicode_len();
    if na != nb {
        return false;
    }
    let mut i: usize = 0;
    while i < na
        invariant
            i <= na,
            na == a@.len(),
            na == b@.len(),
            forall|j: int| 0 <= j < i ==> a@[j] == b@[j],
        decreases na - i,
    {
        if a.get_char(i) != b.get_char(i) {
            return false;
        }
        i = i + 1;
    }
    proof {
        assert(a@ =~= b@);
    }
    true
}

/// Whether `lit` occurs in `s` starting at character position `from`.
pub fn match_lit_at(s: &str, from: usize, lit: &str) -> (r: bool)
    requires
        from <= s@.len(),
    ensures
        r == lit@.is_prefix_of(s@.skip(from as int)),
{
    let n = s.unicode_len();
    let m = lit.unicode_len();
    if m > n - from {
        return false;
    }
    let mut j: usize = 0;
    while j < m
        invariant
            j <= m,
            from <= n,
            m <= n - from,
            n == s@.len(),
            m == lit@.len(),
            forall|k: int| 0 <= k < j ==> lit@[k] == s@[from + k],
        decreases m - j,
    {
        if s.get_char(from + j) != lit.get_char(j) {
            proof {
                let rest = s@.skip(from as int);
                assert(rest[j as int] == s@[from + j]);
                assert(lit@.is_prefix_of(rest) ==> lit@[j as int] == rest.subrange(
                    0,
                    lit@.len() as int,
                )[j as int]);
            }
            return false;
        }
        j = j + 1;
    }
    proof {
        let rest = s@.skip(from as int);
        assert(lit@ =~= rest.subrange(0, lit@.len() as int));
    }
    true
}

/// Whether `p` is a prefix of `s`.
pub fn has_prefix(s: &str, p: &str) -> (r: bool)
    ensures
        r == p@.is_prefix_of(s@),
{
    let r = match_lit_at(s, 0, p);
    proof {
        assert(s@.skip(0) =~= s@);
    }
    r
}

/// The single decimal digit `d` as text.
pub open spec fn dec_digit_text(d: nat) -> Seq<char> {
    if d == 0 {
        "0"@
    } else if d == 1 {
        "1"@
    } else if d == 2 {
        "2"@
    } else if d == 3 {
        "3"@
    } else if d == 4 {
        "4"@
    } else if d == 5 {
        "5"@
    } else if d == 6 {
        "6"@
    } else if d == 7 {
        "7"@
    } else if d == 8 {
        "8"@
    } else {
        "9"@
    }
}

/// `n` written in decimal, without a sign and without leading zeros.
pub open spec fn dec_text(n: nat) -> Seq<char>
    decreases n,
{
    if n < 10 {
        dec_digit_text(n)
    } else {
        dec_text(n / 10) + dec_digit_text(n % 10)
    }
}

fn dec_digit_str(d: u64) -> (r: &'static str)
    requires
        d < 10,
    ensures
        r@ == dec_digit_text(d as nat),
{
    if d == 0 {
        "0"
    } else if d == 1 {
        "1"
    } else if d == 2 {
        "2"
    } else if d == 3 {
        "3"
    } else if d == 4 {
        "4"
    } else if d == 5 {
        "5"
    } else if d == 6 {
        "6"
    } else if d == 7 {
        "7"
    } else if d == 8 {
        "8"
    } else {
        "9"
    }
}

/// Format `n` in decimal.
pub fn fmt_u64(n: u64) -> (r: String)
    ensures
        r@ == dec_text(n as nat),
    decreases n,
{
    if n < 10 {
        String::from_str(dec_digit_str(n))
    } else {
        let mut s = fmt_u64(n / 10);
        s.append(dec_digit_str(n % 10));
        s
    }
}

} // verus!
