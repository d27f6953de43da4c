//! The line parser for the memory limit file.
//!
//! The limit file holds one token surrounded by optional whitespace:
//! either the literal sentinel `max`, meaning that no ceiling is
//! configured, or a base-10 unsigned 64-bit integer giving the ceiling in
//! bytes.  The checked parser rejects anything else; the fast variant
//! instead demands a well-formed line up front and skips the error path.

use vstd::prelude::*;

use crate::error::ReadParseError;
use crate::text::{chars_vec, dec_rep, digits_part, is_digit, lemma_dec_rep, parse_u64_range,
    parses_as_u64, range_eq, token_value, trim_bounds, trimmed};

verus! {

/// The trimmed text equals the sentinel `max`, denoting "no limit".
pub open spec fn is_max_token(s: Seq<char>) -> bool {
    trimmed(s) == "max"@
}

/// What parsing a limit line yields: `None` when the text is neither the
/// sentinel nor a valid unsigned 64-bit decimal integer, `Some(None)` for
/// the sentinel, and `Some(Some(v))` for the integer `v`.
pub open spec fn limit_spec(s: Seq<char>) -> Option<Option<u64>> {
    if is_max_token(s) {
        Some(None)
    } else if parses_as_u64(trimmed(s)) {
        Some(Some(token_value(trimmed(s)) as u64))
    } else {
        None
    }
}

/// The line is one of the two shapes the limit file may legally hold.
pub open spec fn limit_line_wf(s: Seq<char>) -> bool {
    limit_spec(s) is Some
}

/// Parses the max memory line.
///
/// Returns `None` if the trimmed line is the sentinel `max`, and
/// `Some(v)` if it is a base-10 unsigned 64-bit integer `v`.  Fails with
/// a parse error on every other input.
pub fn memory_max_parse(line: &str) -> (r: Result<Option<u64>, ReadParseError>)
    ensures
        match r {
            Ok(v) => limit_spec(line@) == Some(v),
            Err(e) => limit_spec(line@) is None && e == ReadParseError::Parse,
        },
{
    let v = chars_vec(line);
    let (lo, hi) = trim_bounds(&v);
    if range_eq(&v, lo, hi, "max") {
        Ok(None)
    } else {
        match parse_u64_range(&v, lo, hi) {
            Some(u) => Ok(Some(u)),
            None => Err(ReadParseError::Parse),
        }
    }
}

/// Parses the max memory line, assuming it is well formed.
///
/// This is the fast variant of [`memory_max_parse`]: it demands up front
/// that the line is either the sentinel `max` or a valid unsigned 64-bit
/// integer, and in exchange returns the parsed value without an error
/// path.  Callers that cannot guarantee the precondition must test the
/// line with [`memory_max_line_wf`] first.
pub fn memory_max_parse_fast(line: &str) -> (r: Option<u64>)
    requires
        limit_line_wf(line@),
    ensures
        limit_spec(line@) == Some(r),
{
    let v = chars_vec(line);
    let (lo, hi) = trim_bounds(&v);
    if range_eq(&v, lo, hi, "max") {
        None
    } else {
        match parse_u64_range(&v, lo, hi) {
            Some(u) => Some(u),
            None => {
                assert(false);
                None
            },
        }
    }
}

/// Whether the line is well formed for the fast parser: either the
/// sentinel `max` or a valid unsigned 64-bit decimal integer.
pub fn memory_max_line_wf(line: &str) -> (r: bool)
    ensures
        r == limit_line_wf(line@),
{
    let v = chars_vec(line);
    let (lo, hi) = trim_bounds(&v);
    if range_eq(&v, lo, hi, "max") {
        true
    } else {
        match parse_u64_range(&v, lo, hi) {
            Some(_) => true,
            None => false,
        }
    }
}

/// Law: every canonical decimal rendering of an unsigned 64-bit
/// integer, surrounded by any amount of whitespace, parses to exactly
/// that integer.
pub proof fn lemma_limit_parse_decimal(n: u64, s: Seq<char>)
    requires
        trimmed(s) == dec_rep(n as int),
    ensures
        limit_spec(s) == Some(Some(n)),
{
    lemma_dec_rep(n as int);
    let t = trimmed(s);
    assert(!is_max_token(s)) by {
        reveal_strlit("max");
        if t == "max"@ {
            assert(is_digit(t[0]));
            assert('m' as int == 109);
            assert(false);
        }
    }
    assert(is_digit(t[0]));
    assert('+' as int == 43);
    assert(t[0] != '+');
    assert(digits_part(t) == t);
    assert(token_value(t) == n);
}

/// Law: the checked and the fast limit parser agree on every well-formed
/// line.  Any result the checked parser's contract admits and any result
/// the fast parser's contract admits for the same well-formed text are
/// the same value, and the checked parser cannot fail on such text.
pub proof fn lemma_limit_variants_agree(
    s: Seq<char>,
    checked: Result<Option<u64>, ReadParseError>,
    fast: Option<u64>,
)
    requires
        limit_line_wf(s),
        match checked {
            Ok(v) => limit_spec(s) == Some(v),
            Err(e) => limit_spec(s) is None && e == ReadParseError::Parse,
        },
        limit_spec(s) == Some(fast),
    ensures
        checked == Ok::<Option<u64>, ReadParseError>(fast),
{
}

} // verus!
