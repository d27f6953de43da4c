//! Character-level model of the two kernel file formats.
//!
//! Both files are plain text.  The limit file holds a single token that is
//! either the sentinel `max` or a decimal integer, surrounded by optional
//! whitespace.  The statistics file holds newline-separated lines, each of
//! which contributes a counter only when it splits into exactly two
//! whitespace-separated tokens.  This module defines the specification of
//! whitespace, decimal tokens, trimming, tokenization and line splitting,
//! together with the verified executable helpers the parsers are built on.

use vstd::prelude::*;

verus! {

/// Whitespace as it occurs in the kernel's ASCII interface files:
/// space, tab, line feed, carriage return, vertical tab and form feed.
pub open spec fn is_ws(c: char) -> bool {
    c == ' ' || c == '\t' || c == '\n' || c == '\r' || c == '\u{b}' || c == '\u{c}'
}

/// An ASCII decimal digit.
pub open spec fn is_digit(c: char) -> bool {
    48 <= c as int && c as int <= 57
}

/// Numeric value of an ASCII decimal digit.
pub open spec fn digit_val(c: char) -> int {
    c as int - 48
}

/// Every character of `s` is a decimal digit.
pub open spec fn all_digits(s: Seq<char>) -> bool {
    forall|i: int| 0 <= i < s.len() ==> is_digit(#[trigger] s[i])
}

/// The value of a digit string read in base 10.
pub open spec fn dec_val(s: Seq<char>) -> int
    decreases s.len(),
{
    if s.len() == 0 {
        0
    } else {
        dec_val(s.drop_last()) * 10 + digit_val(s.last())
    }
}

/// The digit portion of an unsigned decimal token: the token itself,
/// or the remainder after an optional leading plus sign.
pub open spec fn digits_part(t: Seq<char>) -> Seq<char> {
    if t.len() > 0 && t[0] == '+' {
        t.drop_first()
    } else {
        t
    }
}

/// `t` matches the grammar of an unsigned decimal integer: an optional
/// leading plus sign followed by one or more digits.
pub open spec fn is_unsigned_token(t: Seq<char>) -> bool {
    digits_part(t).len() > 0 && all_digits(digits_part(t))
}

/// The numeric value of an unsigned decimal token.
pub open spec fn token_value(t: Seq<char>) -> int {
    dec_val(digits_part(t))
}

/// `t` is an unsigned decimal token whose value fits in 64 bits,
/// i.e. exactly the tokens a 64-bit decimal parser accepts.
pub open spec fn parses_as_u64(t: Seq<char>) -> bool {
    is_unsigned_token(t) && token_value(t) <= u64::MAX
}

/// The digit character for a value between zero and nine.
pub open spec fn digit_char(d: int) -> char {
    (48 + d) as char
}

/// The canonical decimal rendering of a non-negative integer: its
/// digits, most significant first, with no sign and no leading zero.
pub open spec fn dec_rep(n: int) -> Seq<char>
    decreases n when n >= 0
{
    if n < 10 {
        seq![digit_char(n)]
    } else {
        dec_rep(n / 10).push(digit_char(n % 10))
    }
}

/// The canonical rendering of `n` is a non-empty digit string that
/// reads back to `n`.
pub proof fn lemma_dec_rep(n: int)
    requires
        n >= 0,
    ensures
        dec_rep(n).len() > 0,
        all_digits(dec_rep(n)),
        dec_val(dec_rep(n)) == n,
    decreases n,
{
    if n < 10 {
        assert(digit_char(n) as int == 48 + n);
        assert(dec_val(Seq::<char>::empty()) == 0);
        assert(dec_rep(n).drop_last() =~= Seq::<char>::empty());
        assert(dec_rep(n).last() == digit_char(n));
    } else {
        lemma_dec_rep(n / 10);
        vstd::arithmetic::div_mod::lemma_fundamental_div_mod(n, 10);
        assert(0 <= n % 10 < 10);
        assert(digit_char(n % 10) as int == 48 + n % 10);
        assert(dec_rep(n).drop_last() =~= dec_rep(n / 10));
        assert(dec_rep(n).last() == digit_char(n % 10));
    }
}

/// End of the whitespace run that starts at position `i`.
pub open spec fn ws_prefix_end(s: Seq<char>, i: int) -> int
    decreases s.len() - i when 0 <= i <= s.len()
{
    if i < s.len() && is_ws(s[i]) {
        ws_prefix_end(s, i + 1)
    } else {
        i
    }
}

/// Start of the whitespace run that ends at position `j`.
pub open spec fn ws_suffix_start(s: Seq<char>, j: int) -> int
    decreases j when 0 <= j <= s.len()
{
    if j > 0 && is_ws(s[j - 1]) {
        ws_suffix_start(s, j - 1)
    } else {
        j
    }
}

/// `s` with leading and trailing whitespace removed.
pub open spec fn trimmed(s: Seq<char>) -> Seq<char> {
    let lo = ws_prefix_end(s, 0);
    let hi = ws_suffix_start(s, s.len() as int);
    if lo < hi {
        s.subrange(lo, hi)
    } else {
        Seq::empty()
    }
}

/// The whitespace-separated tokens of `s`, given a partial token `cur`
/// already read immediately before `s`.
pub open spec fn tokens_acc(s: Seq<char>, cur: Seq<char>) -> Seq<Seq<char>>
    decreases s.len(),
{
    if s.len() == 0 {
        if cur.len() > 0 {
            seq![cur]
        } else {
            seq![]
        }
    } else if is_ws(s[0]) {
        if cur.len() > 0 {
            seq![cur] + tokens_acc(s.drop_first(), Seq::empty())
        } else {
            tokens_acc(s.drop_first(), Seq::empty())
        }
    } else {
        tokens_acc(s.drop_first(), cur.push(s[0]))
    }
}

/// The whitespace-separated tokens of `s`, in order.
pub open spec fn tokens_of(s: Seq<char>) -> Seq<Seq<char>> {
    tokens_acc(s, Seq::empty())
}

/// The line segments of `s` split at line feeds, given a partial line
/// `cur` already read immediately before `s`.  The segment after the
/// last line feed is always included, even when it is empty.
pub open spec fn lines_acc(s: Seq<char>, cur: Seq<char>) -> Seq<Seq<char>>
    decreases s.len(),
{
    if s.len() == 0 {
        seq![cur]
    } else if s[0] == '\n' {
        seq![cur] + lines_acc(s.drop_first(), Seq::empty())
    } else {
        lines_acc(s.drop_first(), cur.push(s[0]))
    }
}

/// The lines of `s`, split at line feeds.
pub open spec fn lines_of(s: Seq<char>) -> Seq<Seq<char>> {
    lines_acc(s, Seq::empty())
}

/// The characters of a string as a vector, for in-place parsing.
pub fn chars_vec(s: &str) -> (v: Vec<char>)
    ensures
        v@ == s@,
{
    let n = s.unicode_len();
    let mut v: Vec<char> = Vec::new();
    let mut i: usize = 0;
    while i < n
        invariant
            i <= n,
            n == s@.len(),
            v@ == s@.take(i as int),
        decreases n - i,
    {
        let c = s.get_char(i);
        v.push(c);
        i = i + 1;
        assert(v@ =~= s@.take(i as int));
    }
    assert(v@ =~= s@);
    v
}

/// Whether `c` is whitespace, decided exactly as `is_ws` states it.
pub fn ws_char(c: char) -> (r: bool)
    ensures
        r == is_ws(c),
{
    c == ' ' || c == '\t' || c == '\n' || c == '\r' || c == '\u{b}' || c == '\u{c}'
}

/// Bounds of the trimmed portion of `v`: `v` between the returned bounds
/// is exactly `trimmed(v@)`.
pub fn trim_bounds(v: &Vec<char>) -> (r: (usize, usize))
    ensures
        r.0 <= r.1 <= v@.len(),
        v@.subrange(r.0 as int, r.1 as int) == trimmed(v@),
{
    let n = v.len();
    let mut lo: usize = 0;
    while lo < n && ws_char(v[lo])
        invariant
            lo <= n,
            n == v@.len(),
            ws_prefix_end(v@, 0) == ws_prefix_end(v@, lo as int),
        decreases n - lo,
    {
        lo = lo + 1;
    }
    assert(ws_prefix_end(v@, 0) == lo as int);
    let mut hi: usize = n;
    while hi > 0 && ws_char(v[hi - 1])
        invariant
            hi <= n,
            n == v@.len(),
            ws_suffix_start(v@, n as int) == ws_suffix_start(v@, hi as int),
        decreases hi,
    {
        hi = hi - 1;
    }
    assert(ws_suffix_start(v@, n as int) == hi as int);
    if lo < hi {
        (lo, hi)
    } else {
        assert(v@.subrange(lo as int, lo as int) =~= trimmed(v@));
        (lo, lo)
    }
}

/// Whether the characters of `v` between `lo` and `hi` spell out `t`.
pub fn range_eq(v: &Vec<char>, lo: usize, hi: usize, t: &str) -> (r: bool)
    requires
        lo <= hi <= v@.len(),
    ensures
        r == (v@.subrange(lo as int, hi as int) == t@),
{
    let n = t.unicode_len();
    if hi - lo != n {
        assert(v@.subrange(lo as int, hi as int).len() != t@.len());
        return false;
    }
    let mut k: usize = 0;
    while k < n
        invariant
            k <= n,
            n == t@.len(),
            lo + n == hi,
            lo <= hi <= v@.len(),
            forall|m: int| 0 <= m < k ==> v@.subrange(lo as int, hi as int)[m] == t@[m],
        decreases n - k,
    {
        let c = v[lo + k];
        let d = t.get_char(k);
        if c != d {
            assert(v@.subrange(lo as int, hi as int)[k as int] != t@[k as int]);
            return false;
        }
        k = k + 1;
    }
    assert(v@.subrange(lo as int, hi as int) =~= t@);
    true
}

/// The decimal value of `c`, when `c` is a digit.
fn digit_of(c: char) -> (r: Option<u64>)
    ensures
        match r {
            Some(d) => is_digit(c) && d == digit_val(c),
            None => !is_digit(c),
        },
{
    let x = c as u32;
    proof {
        assert(0 <= c as int <= 0x10FFFF);
        assert(x as int == c as int);
    }
    if 48 <= x && x <= 57 {
        Some((x - 48) as u64)
    } else {
        None
    }
}

/// A digit string is never worth less than any of its prefixes.
pub proof fn lemma_dec_val_nonneg(s: Seq<char>)
    requires
        all_digits(s),
    ensures
        dec_val(s) >= 0,
    decreases s.len(),
{
    if s.len() > 0 {
        assert(all_digits(s.drop_last()));
        lemma_dec_val_nonneg(s.drop_last());
    }
}

/// Extending a digit string can only increase its value.
pub proof fn lemma_dec_val_prefix(s: Seq<char>, k: int)
    requires
        all_digits(s),
        0 <= k <= s.len(),
    ensures
        dec_val(s) >= dec_val(s.take(k)),
    decreases s.len(),
{
    if s.len() > k {
        assert(all_digits(s.drop_last()));
        lemma_dec_val_prefix(s.drop_last(), k);
        assert(s.drop_last().take(k) =~= s.take(k));
        lemma_dec_val_nonneg(s.drop_last());
    } else {
        assert(s.take(k) =~= s);
    }
}

/// Parse the characters of `v` between `lo` and `hi` as an unsigned
/// 64-bit decimal integer, exactly as the token grammar states it:
/// `Some` for a well-formed token whose value fits, `None` otherwise.
pub fn parse_u64_range(v: &Vec<char>, lo: usize, hi: usize) -> (r: Option<u64>)
    requires
        lo <= hi <= v@.len(),
    ensures
        match r {
            Some(u) => parses_as_u64(v@.subrange(lo as int, hi as int)) && u
                == token_value(v@.subrange(lo as int, hi as int)),
            None => !parses_as_u64(v@.subrange(lo as int, hi as int)),
        },
{
    let ghost t = v@.subrange(lo as int, hi as int);
    let mut i: usize = lo;
    if i < hi && v[i] == '+' {
        i = i + 1;
    }
    let ghost d = v@.subrange(i as int, hi as int);
    proof {
        assert(digits_part(t) =~= d);
    }
    if i == hi {
        return None;
    }
    let mut acc: u64 = 0;
    let mut j: usize = i;
    while j < hi
        invariant
            lo <= i < hi <= v@.len(),
            i <= j <= hi,
            d == v@.subrange(i as int, hi as int),
            digits_part(v@.subrange(lo as int, hi as int)) == d,
            all_digits(v@.subrange(i as int, j as int)),
            acc == dec_val(v@.subrange(i as int, j as int)),
        decreases hi - j,
    {
        let c = v[j];
        let dv: u64 = match digit_of(c) {
            Some(x) => x,
            None => {
                assert(d[j - i] == v@[j as int]);
                assert(!all_digits(d));
                return None;
            },
        };
        let wide: u128 = acc as u128 * 10 + dv as u128;
        proof {
            let p = v@.subrange(i as int, j + 1);
            assert(p.drop_last() =~= v@.subrange(i as int, j as int));
            assert(p.last() == c);
            assert(dec_val(p) == dec_val(p.drop_last()) * 10 + digit_val(p.last()));
            assert(dec_val(v@.subrange(i as int, j + 1)) == wide);
        }
        if wide > u64::MAX as u128 {
            proof {
                if all_digits(d) {
                    assert(d.take(j + 1 - i) =~= v@.subrange(i as int, j + 1));
                    lemma_dec_val_prefix(d, j + 1 - i);
                }
            }
            return None;
        }
        acc = wide as u64;
        j = j + 1;
        assert(all_digits(v@.subrange(i as int, j as int)));
    }
    assert(v@.subrange(i as int, j as int) =~= d);
    Some(acc)
}

} // verus!
