//! The usage and availability calculators.
//!
//! Net used memory is a fixed linear combination of statistics counters;
//! available memory is the configured ceiling minus that figure.  Both
//! subtractions can in principle leave the unsigned 64-bit range, so the
//! arithmetic policy is explicit: every formula is evaluated exactly over
//! the integers and then clamped to `[0, u64::MAX]`, and a net-used
//! result clamped to zero — which covers both "no usable data" and an
//! underflowing subtraction — is reported as the `Zero` error.

use vstd::prelude::*;

use crate::error::ReadParseError;
use crate::limit::{limit_spec, memory_max_parse};
use crate::stat::{memory_stat_parse, stat_spec, MemoryStat};

verus! {

/// The value of an optional counter, with an absent field read as zero.
pub open spec fn field_or_zero(f: Option<u64>) -> int {
    match f {
        Some(v) => v as int,
        None => 0,
    }
}

/// The net-used formula over a statistics record, evaluated exactly:
/// `anon + file + kernel + kernel_stack + pagetables + percpu
/// + slab_unreclaimable - slab_reclaimable`, every absent field read as
/// zero.
pub open spec fn net_used_raw(ms: MemoryStat) -> int {
    field_or_zero(ms.anon) + field_or_zero(ms.file) + field_or_zero(ms.kernel) + field_or_zero(
        ms.kernel_stack,
    ) + field_or_zero(ms.pagetables) + field_or_zero(ms.percpu) + field_or_zero(
        ms.slab_unreclaimable,
    ) - field_or_zero(ms.slab_reclaimable)
}

/// The net-used formula clamped to the unsigned 64-bit range.
pub open spec fn net_used_clamped(ms: MemoryStat) -> int {
    if net_used_raw(ms) < 0 {
        0
    } else if net_used_raw(ms) > u64::MAX {
        u64::MAX as int
    } else {
        net_used_raw(ms)
    }
}

/// The value of an optional counter, with an absent field read as zero.
fn field_val(f: &Option<u64>) -> (r: u64)
    ensures
        r == field_or_zero(*f),
{
    match *f {
        Some(v) => v,
        None => 0,
    }
}

/// Calculates the net used memory in bytes.
///
/// Formula: `anon + file + kernel + kernel_stack + pagetables + percpu
/// + slab_unreclaimable - slab_reclaimable`, with every absent field
/// read as zero.  The formula is evaluated exactly and clamped to the
/// unsigned 64-bit range; a clamped result of zero — which includes the
/// case that `slab_reclaimable` outweighs every other term — is treated
/// as "no usable signal" and reported as the `Zero` error.
pub fn memory_net_used_calc(ms: &MemoryStat) -> (r: Result<u64, ReadParseError>)
    ensures
        net_used_clamped(*ms) == 0 ==> r == Err::<u64, ReadParseError>(ReadParseError::Zero),
        net_used_clamped(*ms) != 0 ==> r == Ok::<u64, ReadParseError>(
            net_used_clamped(*ms) as u64,
        ),
{
    let pos: u128 = field_val(&ms.anon) as u128 + field_val(&ms.file) as u128 + field_val(
        &ms.kernel,
    ) as u128 + field_val(&ms.kernel_stack) as u128 + field_val(&ms.pagetables) as u128
        + field_val(&ms.percpu) as u128 + field_val(&ms.slab_unreclaimable) as u128;
    let neg: u128 = field_val(&ms.slab_reclaimable) as u128;
    if pos <= neg {
        Err(ReadParseError::Zero)
    } else {
        let diff = pos - neg;
        if diff > u64::MAX as u128 {
            Ok(u64::MAX)
        } else {
            Ok(diff as u64)
        }
    }
}

/// Returns the net used memory in bytes for the full text of the
/// statistics file: the content is parsed as a statistics record and the
/// record handed to [`memory_net_used_calc`].
pub fn memory_net_used(content: &str) -> (r: Result<u64, ReadParseError>)
    ensures
        net_used_clamped(stat_spec(content@)) == 0 ==> r == Err::<u64, ReadParseError>(
            ReadParseError::Zero,
        ),
        net_used_clamped(stat_spec(content@)) != 0 ==> r == Ok::<u64, ReadParseError>(
            net_used_clamped(stat_spec(content@)) as u64,
        ),
{
    let ms = memory_stat_parse(content);
    memory_net_used_calc(&ms)
}

/// What the availability computation yields for the texts of the limit
/// file and the statistics file.  A malformed limit line is a parse
/// error; the sentinel means no limit, and the statistics text is then
/// never consulted; otherwise the available figure is the ceiling minus
/// the net used bytes, clamped to zero when usage reaches the ceiling.
pub open spec fn available_spec(limit: Seq<char>, stats: Seq<char>) -> Result<
    Option<u64>,
    ReadParseError,
> {
    match limit_spec(limit) {
        None => Err(ReadParseError::Parse),
        Some(None) => Ok(None),
        Some(Some(max)) => {
            let used = net_used_clamped(stat_spec(stats));
            if used == 0 {
                Err(ReadParseError::Zero)
            } else if used >= max {
                Ok(Some(0))
            } else {
                Ok(Some((max - used) as u64))
            }
        },
    }
}

/// Returns the available memory in bytes, given the text of the limit
/// file and the text of the statistics file.
///
/// The limit line is parsed first: a malformed line fails with a parse
/// error, and the sentinel `max` yields `Ok(None)` — "no limit" — with
/// the statistics text left entirely unread.  Otherwise the statistics
/// are parsed, the net used bytes computed, and the difference
/// `limit - net_used` returned, clamped to zero when usage reaches the
/// ceiling.
pub fn memory_available(limit_line: &str, stat_content: &str) -> (r: Result<
    Option<u64>,
    ReadParseError,
>)
    ensures
        r == available_spec(limit_line@, stat_content@),
{
    let max = match memory_max_parse(limit_line) {
        Ok(Some(m)) => m,
        Ok(None) => {
            return Ok(None);
        },
        Err(e) => {
            return Err(e);
        },
    };
    let used = match memory_net_used(stat_content) {
        Ok(u) => u,
        Err(e) => {
            return Err(e);
        },
    };
    if used >= max {
        Ok(Some(0))
    } else {
        Ok(Some(max - used))
    }
}

/// Law: when every field the usage formula reads is absent, the formula
/// has no signal — it evaluates to exactly zero, so the calculator
/// reports the `Zero` error.
pub proof fn lemma_net_used_zero_when_absent(ms: MemoryStat)
    requires
        ms.anon is None,
        ms.file is None,
        ms.kernel is None,
        ms.kernel_stack is None,
        ms.pagetables is None,
        ms.percpu is None,
        ms.slab_unreclaimable is None,
        ms.slab_reclaimable is None,
    ensures
        net_used_raw(ms) == 0,
        net_used_clamped(ms) == 0,
{
}

} // verus!
