use cgroup_memory::{memory_max_line_wf, memory_max_parse, memory_max_parse_fast, ReadParseError};

#[test]
fn max_sentinel_plain() {
    assert_eq!(memory_max_parse("max"), Ok(None));
}

#[test]
fn max_sentinel_trailing_newline() {
    assert_eq!(memory_max_parse("max\n"), Ok(None));
}

#[test]
fn max_sentinel_trailing_spaces() {
    assert_eq!(memory_max_parse("max  "), Ok(None));
}

#[test]
fn number_plain() {
    assert_eq!(memory_max_parse("104857600"), Ok(Some(104857600)));
}

#[test]
fn number_trailing_newline() {
    assert_eq!(memory_max_parse("104857600\n"), Ok(Some(104857600)));
}

#[test]
fn number_surrounded_by_whitespace() {
    assert_eq!(memory_max_parse("  42 \t\n"), Ok(Some(42)));
}

#[test]
fn number_zero() {
    assert_eq!(memory_max_parse("0"), Ok(Some(0)));
}

#[test]
fn number_largest() {
    assert_eq!(memory_max_parse("18446744073709551615\n"), Ok(Some(u64::MAX)));
}

#[test]
fn number_leading_zeros() {
    assert_eq!(memory_max_parse("007"), Ok(Some(7)));
}

#[test]
fn number_leading_plus() {
    assert_eq!(memory_max_parse("+5"), Ok(Some(5)));
}

#[test]
fn reject_negative() {
    assert_eq!(memory_max_parse("-5"), Err(ReadParseError::Parse));
}

#[test]
fn reject_letters() {
    assert_eq!(memory_max_parse("abc"), Err(ReadParseError::Parse));
}

#[test]
fn reject_empty() {
    assert_eq!(memory_max_parse(""), Err(ReadParseError::Parse));
}

#[test]
fn reject_blank() {
    assert_eq!(memory_max_parse(" \n "), Err(ReadParseError::Parse));
}

#[test]
fn reject_too_large() {
    assert_eq!(memory_max_parse("18446744073709551616"), Err(ReadParseError::Parse));
}

#[test]
fn reject_inner_whitespace() {
    assert_eq!(memory_max_parse("12 34"), Err(ReadParseError::Parse));
}

#[test]
fn reject_bare_plus() {
    assert_eq!(memory_max_parse("+"), Err(ReadParseError::Parse));
}

#[test]
fn fast_variant_agrees_on_well_formed_lines() {
    let lines = ["max", "max\n", "max  ", "0", "104857600\n", "  42 \t", "18446744073709551615"];
    for line in lines {
        assert!(memory_max_line_wf(line));
        assert_eq!(memory_max_parse_fast(line), memory_max_parse(line).unwrap());
    }
}

#[test]
fn well_formedness_check_rejects_malformed_lines() {
    let lines = ["", "-5", "abc", "18446744073709551616", "max max"];
    for line in lines {
        assert!(!memory_max_line_wf(line));
    }
}
