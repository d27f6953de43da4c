use cgroup_memory::{
    memory_available, memory_net_used, memory_net_used_calc, memory_stat_parse, MemoryStat,
    ReadParseError,
};

#[test]
fn net_used_sums_anon_and_file() {
    let mut ms = MemoryStat::default();
    ms.anon = Some(100);
    ms.file = Some(50);
    assert_eq!(memory_net_used_calc(&ms), Ok(150));
}

#[test]
fn net_used_full_formula() {
    let mut ms = MemoryStat::default();
    ms.anon = Some(100);
    ms.file = Some(50);
    ms.kernel = Some(25);
    ms.kernel_stack = Some(10);
    ms.pagetables = Some(5);
    ms.percpu = Some(4);
    ms.slab_unreclaimable = Some(6);
    ms.slab_reclaimable = Some(20);
    assert_eq!(memory_net_used_calc(&ms), Ok(180));
}

#[test]
fn net_used_ignores_fields_outside_the_formula() {
    let mut ms = MemoryStat::default();
    ms.anon = Some(100);
    ms.pgfault = Some(12345);
    ms.zswap = Some(9999);
    assert_eq!(memory_net_used_calc(&ms), Ok(100));
}

#[test]
fn net_used_underflow_is_reported_as_zero_error() {
    // The formula is evaluated exactly and clamped at zero, so a
    // reclaimable slab that outweighs everything else is "no signal".
    let mut ms = MemoryStat::default();
    ms.anon = Some(100);
    ms.slab_reclaimable = Some(200);
    assert_eq!(memory_net_used_calc(&ms), Err(ReadParseError::Zero));
}

#[test]
fn net_used_all_fields_absent_is_zero_error() {
    assert_eq!(memory_net_used_calc(&MemoryStat::default()), Err(ReadParseError::Zero));
}

#[test]
fn net_used_exact_cancellation_is_zero_error() {
    let mut ms = MemoryStat::default();
    ms.anon = Some(70);
    ms.slab_reclaimable = Some(70);
    assert_eq!(memory_net_used_calc(&ms), Err(ReadParseError::Zero));
}

#[test]
fn net_used_overflow_saturates_at_the_64_bit_limit() {
    let mut ms = MemoryStat::default();
    ms.anon = Some(u64::MAX);
    ms.file = Some(u64::MAX);
    assert_eq!(memory_net_used_calc(&ms), Ok(u64::MAX));
}

#[test]
fn net_used_from_content() {
    assert_eq!(memory_net_used("anon 100\nfile 50\n"), Ok(150));
}

#[test]
fn net_used_from_empty_content_is_zero_error() {
    assert_eq!(memory_net_used(""), Err(ReadParseError::Zero));
}

#[test]
fn net_used_matches_parse_then_calc() {
    let content = "anon 100\nslab_reclaimable 30\nfile 50\n";
    let ms = memory_stat_parse(content);
    assert_eq!(memory_net_used(content), memory_net_used_calc(&ms));
}

#[test]
fn available_subtracts_net_used_from_the_limit() {
    let r = memory_available("104857600\n", "anon 50000000\nfile 10000000\n");
    assert_eq!(r, Ok(Some(44857600)));
}

#[test]
fn available_with_max_sentinel_ignores_statistics() {
    assert_eq!(memory_available("max\n", ""), Ok(None));
    assert_eq!(memory_available("max\n", "complete ### nonsense"), Ok(None));
}

#[test]
fn available_with_malformed_limit_is_parse_error() {
    assert_eq!(memory_available("abc", "anon 1\n"), Err(ReadParseError::Parse));
}

#[test]
fn available_with_no_usable_statistics_is_zero_error() {
    assert_eq!(memory_available("1000\n", ""), Err(ReadParseError::Zero));
}

#[test]
fn available_clamps_at_zero_when_usage_reaches_the_limit() {
    // The final subtraction saturates: usage at or above the ceiling
    // reports zero bytes available rather than wrapping.
    assert_eq!(memory_available("100\n", "anon 500\n"), Ok(Some(0)));
    assert_eq!(memory_available("150\n", "anon 150\n"), Ok(Some(0)));
}
