//! The tolerant parser for the memory statistics file.
//!
//! The statistics file holds one counter per line, written as a key, a
//! whitespace run and a decimal value.  The key set is closed but not
//! stable across kernel versions, so the parser is deliberately tolerant:
//! a line contributes only when it splits into exactly two tokens, unknown
//! keys are ignored, an unparsable value leaves the field absent, and a
//! later line for the same key overwrites an earlier one.

use vstd::prelude::*;

use crate::text::{chars_vec, lines_acc, lines_of, parse_u64_range, parses_as_u64, range_eq,
    token_value, tokens_acc, tokens_of, ws_char};

verus! {

/// The memory statistics of a process group, as read from the kernel's
/// statistics file.  Every field is optional: it is present exactly when
/// the file held a well-formed line for its key.
#[derive(Debug, Clone, PartialEq, Eq)]
pub struct MemoryStat {
    pub anon: Option<u64>,
    pub file: Option<u64>,
    pub kernel: Option<u64>,
    pub kernel_stack: Option<u64>,
    pub pagetables: Option<u64>,
    pub sec_pagetables: Option<u64>,
    pub percpu: Option<u64>,
    pub sock: Option<u64>,
    pub vmalloc: Option<u64>,
    pub shmem: Option<u64>,
    pub zswap: Option<u64>,
    pub zswapped: Option<u64>,
    pub file_mapped: Option<u64>,
    pub file_dirty: Option<u64>,
    pub file_writeback: Option<u64>,
    pub swapcached: Option<u64>,
    pub anon_thp: Option<u64>,
    pub file_thp: Option<u64>,
    pub shmem_thp: Option<u64>,
    pub inactive_anon: Option<u64>,
    pub active_anon: Option<u64>,
    pub inactive_file: Option<u64>,
    pub active_file: Option<u64>,
    pub unevictable: Option<u64>,
    pub slab_reclaimable: Option<u64>,
    pub slab_unreclaimable: Option<u64>,
    pub slab: Option<u64>,
    pub workingset_refault_anon: Option<u64>,
    pub workingset_refault_file: Option<u64>,
    pub workingset_activate_anon: Option<u64>,
    pub workingset_activate_file: Option<u64>,
    pub workingset_restore_anon: Option<u64>,
    pub workingset_restore_file: Option<u64>,
    pub workingset_nodereclaim: Option<u64>,
    pub pgscan: Option<u64>,
    pub pgsteal: Option<u64>,
    pub pgscan_kswapd: Option<u64>,
    pub pgscan_direct: Option<u64>,
    pub pgscan_khugepaged: Option<u64>,
    pub pgsteal_kswapd: Option<u64>,
    pub pgsteal_direct: Option<u64>,
    pub pgsteal_khugepaged: Option<u64>,
    pub pgfault: Option<u64>,
    pub pgmajfault: Option<u64>,
    pub pgrefill: Option<u64>,
    pub pgactivate: Option<u64>,
    pub pgdeactivate: Option<u64>,
    pub pglazyfree: Option<u64>,
    pub pglazyfreed: Option<u64>,
    pub zswpin: Option<u64>,
    pub zswpout: Option<u64>,
    pub thp_fault_alloc: Option<u64>,
    pub thp_collapse_alloc: Option<u64>,
}

/// The record with every field absent.
pub open spec fn stat_empty() -> MemoryStat {
    MemoryStat {
        anon: None,
        file: None,
        kernel: None,
        kernel_stack: None,
        pagetables: None,
        sec_pagetables: None,
        percpu: None,
        sock: None,
        vmalloc: None,
        shmem: None,
        zswap: None,
        zswapped: None,
        file_mapped: None,
        file_dirty: None,
        file_writeback: None,
        swapcached: None,
        anon_thp: None,
        file_thp: None,
        shmem_thp: None,
        inactive_anon: None,
        active_anon: None,
        inactive_file: None,
        active_file: None,
        unevictable: None,
        slab_reclaimable: None,
        slab_unreclaimable: None,
        slab: None,
        workingset_refault_anon: None,
        workingset_refault_file: None,
        workingset_activate_anon: None,
        workingset_activate_file: None,
        workingset_restore_anon: None,
        workingset_restore_file: None,
        workingset_nodereclaim: None,
        pgscan: None,
        pgsteal: None,
        pgscan_kswapd: None,
        pgscan_direct: None,
        pgscan_khugepaged: None,
        pgsteal_kswapd: None,
        pgsteal_direct: None,
        pgsteal_khugepaged: None,
        pgfault: None,
        pgmajfault: None,
        pgrefill: None,
        pgactivate: None,
        pgdeactivate: None,
        pglazyfree: None,
        pglazyfreed: None,
        zswpin: None,
        zswpout: None,
        thp_fault_alloc: None,
        thp_collapse_alloc: None,
    }
}

impl Default for MemoryStat {
    /// The record with every field absent.
    fn default() -> (r: MemoryStat)
        ensures
            r == stat_empty(),
    {
        MemoryStat {
            anon: None,
            file: None,
            kernel: None,
            kernel_stack: None,
            pagetables: None,
            sec_pagetables: None,
            percpu: None,
            sock: None,
            vmalloc: None,
            shmem: None,
            zswap: None,
            zswapped: None,
            file_mapped: None,
            file_dirty: None,
            file_writeback: None,
            swapcached: None,
            anon_thp: None,
            file_thp: None,
            shmem_thp: None,
            inactive_anon: None,
            active_anon: None,
            inactive_file: None,
            active_file: None,
            unevictable: None,
            slab_reclaimable: None,
            slab_unreclaimable: None,
            slab: None,
            workingset_refault_anon: None,
            workingset_refault_file: None,
            workingset_activate_anon: None,
            workingset_activate_file: None,
            workingset_restore_anon: None,
            workingset_restore_file: None,
            workingset_nodereclaim: None,
            pgscan: None,
            pgsteal: None,
            pgscan_kswapd: None,
            pgscan_direct: None,
            pgscan_khugepaged: None,
            pgsteal_kswapd: None,
            pgsteal_direct: None,
            pgsteal_khugepaged: None,
            pgfault: None,
            pgmajfault: None,
            pgrefill: None,
            pgactivate: None,
            pgdeactivate: None,
            pglazyfree: None,
            pglazyfreed: None,
            zswpin: None,
            zswpout: None,
            thp_fault_alloc: None,
            thp_collapse_alloc: None,
        }
    }
}

/// The field a value token contributes: the parsed value when the token
/// is a valid unsigned 64-bit decimal integer, absent otherwise.
pub open spec fn parsed_value(t: Seq<char>) -> Option<u64> {
    if parses_as_u64(t) {
        Some(token_value(t) as u64)
    } else {
        None
    }
}

/// The record after one key/value pair: the field named by `key` is
/// overwritten with `val` when the key is known, and nothing changes
/// otherwise.
pub open spec fn apply_kv(ms: MemoryStat, key: Seq<char>, val: Option<u64>) -> MemoryStat {
    if key == "anon"@ {
        MemoryStat { anon: val, ..ms }
    } else if key == "file"@ {
        MemoryStat { file: val, ..ms }
    } else if key == "kernel"@ {
        MemoryStat { kernel: val, ..ms }
    } else if key == "kernel_stack"@ {
        MemoryStat { kernel_stack: val, ..ms }
    } else if key == "pagetables"@ {
        MemoryStat { pagetables: val, ..ms }
    } else if key == "sec_pagetables"@ {
        MemoryStat { sec_pagetables: val, ..ms }
    } else if key == "percpu"@ {
        MemoryStat { percpu: val, ..ms }
    } else if key == "sock"@ {
        MemoryStat { sock: val, ..ms }
    } else if key == "vmalloc"@ {
        MemoryStat { vmalloc: val, ..ms }
    } else if key == "shmem"@ {
        MemoryStat { shmem: val, ..ms }
    } else if key == "zswap"@ {
        MemoryStat { zswap: val, ..ms }
    } else if key == "zswapped"@ {
        MemoryStat { zswapped: val, ..ms }
    } else if key == "file_mapped"@ {
        MemoryStat { file_mapped: val, ..ms }
    } else if key == "file_dirty"@ {
        MemoryStat { file_dirty: val, ..ms }
    } else if key == "file_writeback"@ {
        MemoryStat { file_writeback: val, ..ms }
    } else if key == "swapcached"@ {
        MemoryStat { swapcached: val, ..ms }
    } else if key == "anon_thp"@ {
        MemoryStat { anon_thp: val, ..ms }
    } else if key == "file_thp"@ {
        MemoryStat { file_thp: val, ..ms }
    } else if key == "shmem_thp"@ {
        MemoryStat { shmem_thp: val, ..ms }
    } else if key == "inactive_anon"@ {
        MemoryStat { inactive_anon: val, ..ms }
    } else if key == "active_anon"@ {
        MemoryStat { active_anon: val, ..ms }
    } else if key == "inactive_file"@ {
        MemoryStat { inactive_file: val, ..ms }
    } else if key == "active_file"@ {
        MemoryStat { active_file: val, ..ms }
    } else if key == "unevictable"@ {
        MemoryStat { unevictable: val, ..ms }
    } else if key == "slab_reclaimable"@ {
        MemoryStat { slab_reclaimable: val, ..ms }
    } else if key == "slab_unreclaimable"@ {
        MemoryStat { slab_unreclaimable: val, ..ms }
    } else if key == "slab"@ {
        MemoryStat { slab: val, ..ms }
    } else if key == "workingset_refault_anon"@ {
        MemoryStat { workingset_refault_anon: val, ..ms }
    } else if key == "workingset_refault_file"@ {
        MemoryStat { workingset_refault_file: val, ..ms }
    } else if key == "workingset_activate_anon"@ {
        MemoryStat { workingset_activate_anon: val, ..ms }
    } else if key == "workingset_activate_file"@ {
        MemoryStat { workingset_activate_file: val, ..ms }
    } else if key == "workingset_restore_anon"@ {
        MemoryStat { workingset_restore_anon: val, ..ms }
    } else if key == "workingset_restore_file"@ {
        MemoryStat { workingset_restore_file: val, ..ms }
    } else if key == "workingset_nodereclaim"@ {
        MemoryStat { workingset_nodereclaim: val, ..ms }
    } else if key == "pgscan"@ {
        MemoryStat { pgscan: val, ..ms }
    } else if key == "pgsteal"@ {
        MemoryStat { pgsteal: val, ..ms }
    } else if key == "pgscan_kswapd"@ {
        MemoryStat { pgscan_kswapd: val, ..ms }
    } else if key == "pgscan_direct"@ {
        MemoryStat { pgscan_direct: val, ..ms }
    } else if key == "pgscan_khugepaged"@ {
        MemoryStat { pgscan_khugepaged: val, ..ms }
    } else if key == "pgsteal_kswapd"@ {
        MemoryStat { pgsteal_kswapd: val, ..ms }
    } else if key == "pgsteal_direct"@ {
        MemoryStat { pgsteal_direct: val, ..ms }
    } else if key == "pgsteal_khugepaged"@ {
        MemoryStat { pgsteal_khugepaged: val, ..ms }
    } else if key == "pgfault"@ {
        MemoryStat { pgfault: val, ..ms }
    } else if key == "pgmajfault"@ {
        MemoryStat { pgmajfault: val, ..ms }
    } else if key == "pgrefill"@ {
        MemoryStat { pgrefill: val, ..ms }
    } else if key == "pgactivate"@ {
        MemoryStat { pgactivate: val, ..ms }
    } else if key == "pgdeactivate"@ {
        MemoryStat { pgdeactivate: val, ..ms }
    } else if key == "pglazyfree"@ {
        MemoryStat { pglazyfree: val, ..ms }
    } else if key == "pglazyfreed"@ {
        MemoryStat { pglazyfreed: val, ..ms }
    } else if key == "zswpin"@ {
        MemoryStat { zswpin: val, ..ms }
    } else if key == "zswpout"@ {
        MemoryStat { zswpout: val, ..ms }
    } else if key == "thp_fault_alloc"@ {
        MemoryStat { thp_fault_alloc: val, ..ms }
    } else if key == "thp_collapse_alloc"@ {
        MemoryStat { thp_collapse_alloc: val, ..ms }
    } else {
        ms
    }
}

/// The record after one line of the statistics file: a line contributes
/// only when it splits into exactly two whitespace-separated tokens.
pub open spec fn apply_line(ms: MemoryStat, line: Seq<char>) -> MemoryStat {
    if tokens_of(line).len() == 2 {
        apply_kv(ms, tokens_of(line)[0], parsed_value(tokens_of(line)[1]))
    } else {
        ms
    }
}

/// The record after a sequence of lines, applied in order.
pub open spec fn stat_of_lines(lines: Seq<Seq<char>>) -> MemoryStat
    decreases lines.len(),
{
    if lines.len() == 0 {
        stat_empty()
    } else {
        apply_line(stat_of_lines(lines.drop_last()), lines.last())
    }
}

/// The record parsed from the full content of the statistics file.
pub open spec fn stat_spec(content: Seq<char>) -> MemoryStat {
    stat_of_lines(lines_of(content))
}

/// The token ranges recorded so far, as the token texts they stand for.
pub open spec fn range_seqs(s: Seq<char>, rs: Seq<(usize, usize)>) -> Seq<Seq<char>> {
    rs.map(|k: int, r: (usize, usize)| s.subrange(r.0 as int, r.1 as int))
}

/// The partial token under the scanner's cursor.
pub open spec fn cur_token(s: Seq<char>, in_tok: bool, ts: int, i: int) -> Seq<char> {
    if in_tok {
        s.subrange(ts, i)
    } else {
        Seq::empty()
    }
}

/// The two token ranges of a line that splits into exactly two
/// whitespace-separated tokens, or `None` for every other line.
fn line_tokens(v: &Vec<char>, ls: usize, le: usize) -> (r: Option<
    ((usize, usize), (usize, usize)),
>)
    requires
        ls <= le <= v@.len(),
    ensures
        ({
            let seg = v@.subrange(ls as int, le as int);
            match r {
                Some(t) => tokens_of(seg).len() == 2 && t.0.0 <= t.0.1 <= v@.len() && t.1.0
                    <= t.1.1 <= v@.len() && tokens_of(seg)[0] == v@.subrange(
                    t.0.0 as int,
                    t.0.1 as int,
                ) && tokens_of(seg)[1] == v@.subrange(t.1.0 as int, t.1.1 as int),
                None => tokens_of(seg).len() != 2,
            }
        }),
{
    let ghost seg = v@.subrange(ls as int, le as int);
    let mut toks: Vec<(usize, usize)> = Vec::new();
    let mut i: usize = ls;
    let mut ts: usize = ls;
    let mut in_tok = false;
    while i < le
        invariant
            ls <= i <= le <= v@.len(),
            seg == v@.subrange(ls as int, le as int),
            in_tok ==> ls <= ts < i,
            forall|m: int| 0 <= m < toks@.len() ==> (#[trigger] toks@[m]).0 <= toks@[m].1
                <= v@.len(),
            tokens_of(seg) == range_seqs(v@, toks@) + tokens_acc(
                v@.subrange(i as int, le as int),
                cur_token(v@, in_tok, ts as int, i as int),
            ),
        decreases le - i,
    {
        let ghost cur = cur_token(v@, in_tok, ts as int, i as int);
        let ghost rest = v@.subrange(i as int, le as int);
        proof {
            assert(rest[0] == v@[i as int]);
            assert(rest.drop_first() =~= v@.subrange(i + 1, le as int));
        }
        let c = v[i];
        if ws_char(c) {
            if in_tok {
                toks.push((ts, i));
                in_tok = false;
                proof {
                    assert(range_seqs(v@, toks@) =~= range_seqs(v@, toks@.drop_last()).push(
                        cur,
                    ));
                    assert(range_seqs(v@, toks@) + tokens_acc(
                        v@.subrange(i + 1, le as int),
                        Seq::empty(),
                    ) =~= range_seqs(v@, toks@.drop_last()) + (seq![cur] + tokens_acc(
                        v@.subrange(i + 1, le as int),
                        Seq::empty(),
                    )));
                }
            }
        } else {
            if !in_tok {
                ts = i;
                in_tok = true;
            }
            proof {
                assert(cur.push(v@[i as int]) =~= v@.subrange(ts as int, i + 1));
            }
        }
        i = i + 1;
    }
    proof {
        assert(v@.subrange(i as int, le as int) =~= Seq::<char>::empty());
    }
    if in_tok {
        let ghost cur = cur_token(v@, in_tok, ts as int, i as int);
        toks.push((ts, le));
        proof {
            assert(cur =~= v@.subrange(ts as int, le as int));
            assert(range_seqs(v@, toks@) =~= range_seqs(v@, toks@.drop_last()).push(cur));
            assert(tokens_of(seg) =~= range_seqs(v@, toks@));
        }
    } else {
        proof {
            assert(tokens_of(seg) =~= range_seqs(v@, toks@));
        }
    }
    if toks.len() == 2 {
        let a = toks[0];
        let b = toks[1];
        proof {
            assert(tokens_of(seg)[0] == range_seqs(v@, toks@)[0]);
            assert(tokens_of(seg)[1] == range_seqs(v@, toks@)[1]);
        }
        Some((a, b))
    } else {
        None
    }
}

/// Overwrites the field named by the key between `ka` and `kb` with
/// `val`, exactly as `apply_kv` states it.
fn apply_kv_exec(ms: &mut MemoryStat, v: &Vec<char>, ka: usize, kb: usize, val: Option<u64>)
    requires
        ka <= kb <= v@.len(),
    ensures
        *final(ms) == apply_kv(*old(ms), v@.subrange(ka as int, kb as int), val),
{
    if range_eq(v, ka, kb, "anon") {
        ms.anon = val;
    } else if range_eq(v, ka, kb, "file") {
        ms.file = val;
    } else if range_eq(v, ka, kb, "kernel") {
        ms.kernel = val;
    } else if range_eq(v, ka, kb, "kernel_stack") {
        ms.kernel_stack = val;
    } else if range_eq(v, ka, kb, "pagetables") {
        ms.pagetables = val;
    } else if range_eq(v, ka, kb, "sec_pagetables") {
        ms.sec_pagetables = val;
    } else if range_eq(v, ka, kb, "percpu") {
        ms.percpu = val;
    } else if range_eq(v, ka, kb, "sock") {
        ms.sock = val;
    } else if range_eq(v, ka, kb, "vmalloc") {
        ms.vmalloc = val;
    } else if range_eq(v, ka, kb, "shmem") {
        ms.shmem = val;
    } else if range_eq(v, ka, kb, "zswap") {
        ms.zswap = val;
    } else if range_eq(v, ka, kb, "zswapped") {
        ms.zswapped = val;
    } else if range_eq(v, ka, kb, "file_mapped") {
        ms.file_mapped = val;
    } else if range_eq(v, ka, kb, "file_dirty") {
        ms.file_dirty = val;
    } else if range_eq(v, ka, kb, "file_writeback") {
        ms.file_writeback = val;
    } else if range_eq(v, ka, kb, "swapcached") {
        ms.swapcached = val;
    } else if range_eq(v, ka, kb, "anon_thp") {
        ms.anon_thp = val;
    } else if range_eq(v, ka, kb, "file_thp") {
        ms.file_thp = val;
    } else if range_eq(v, ka, kb, "shmem_thp") {
        ms.shmem_thp = val;
    } else if range_eq(v, ka, kb, "inactive_anon") {
        ms.inactive_anon = val;
    } else if range_eq(v, ka, kb, "active_anon") {
        ms.active_anon = val;
    } else if range_eq(v, ka, kb, "inactive_file") {
        ms.inactive_file = val;
    } else if range_eq(v, ka, kb, "active_file") {
        ms.active_file = val;
    } else if range_eq(v, ka, kb, "unevictable") {
        ms.unevictable = val;
    } else if range_eq(v, ka, kb, "slab_reclaimable") {
        ms.slab_reclaimable = val;
    } else if range_eq(v, ka, kb, "slab_unreclaimable") {
        ms.slab_unreclaimable = val;
    } else if range_eq(v, ka, kb, "slab") {
        ms.slab = val;
    } else if range_eq(v, ka, kb, "workingset_refault_anon") {
        ms.workingset_refault_anon = val;
    } else if range_eq(v, ka, kb, "workingset_refault_file") {
        ms.workingset_refault_file = val;
    } else if range_eq(v, ka, kb, "workingset_activate_anon") {
        ms.workingset_activate_anon = val;
    } else if range_eq(v, ka, kb, "workingset_activate_file") {
        ms.workingset_activate_file = val;
    } else if range_eq(v, ka, kb, "workingset_restore_anon") {
        ms.workingset_restore_anon = val;
    } else if range_eq(v, ka, kb, "workingset_restore_file") {
        ms.workingset_restore_file = val;
    } else if range_eq(v, ka, kb, "workingset_nodereclaim") {
        ms.workingset_nodereclaim = val;
    } else if range_eq(v, ka, kb, "pgscan") {
        ms.pgscan = val;
    } else if range_eq(v, ka, kb, "pgsteal") {
        ms.pgsteal = val;
    } else if range_eq(v, ka, kb, "pgscan_kswapd") {
        ms.pgscan_kswapd = val;
    } else if range_eq(v, ka, kb, "pgscan_direct") {
        ms.pgscan_direct = val;
    } else if range_eq(v, ka, kb, "pgscan_khugepaged") {
        ms.pgscan_khugepaged = val;
    } else if range_eq(v, ka, kb, "pgsteal_kswapd") {
        ms.pgsteal_kswapd = val;
    } else if range_eq(v, ka, kb, "pgsteal_direct") {
        ms.pgsteal_direct = val;
    } else if range_eq(v, ka, kb, "pgsteal_khugepaged") {
        ms.pgsteal_khugepaged = val;
    } else if range_eq(v, ka, kb, "pgfault") {
        ms.pgfault = val;
    } else if range_eq(v, ka, kb, "pgmajfault") {
        ms.pgmajfault = val;
    } else if range_eq(v, ka, kb, "pgrefill") {
        ms.pgrefill = val;
    } else if range_eq(v, ka, kb, "pgactivate") {
        ms.pgactivate = val;
    } else if range_eq(v, ka, kb, "pgdeactivate") {
        ms.pgdeactivate = val;
    } else if range_eq(v, ka, kb, "pglazyfree") {
        ms.pglazyfree = val;
    } else if range_eq(v, ka, kb, "pglazyfreed") {
        ms.pglazyfreed = val;
    } else if range_eq(v, ka, kb, "zswpin") {
        ms.zswpin = val;
    } else if range_eq(v, ka, kb, "zswpout") {
        ms.zswpout = val;
    } else if range_eq(v, ka, kb, "thp_fault_alloc") {
        ms.thp_fault_alloc = val;
    } else if range_eq(v, ka, kb, "thp_collapse_alloc") {
        ms.thp_collapse_alloc = val;
    } else {
    }
}

/// Applies one line of the statistics file to the record, exactly as
/// `apply_line` states it.
fn apply_line_exec(ms: &mut MemoryStat, v: &Vec<char>, ls: usize, le: usize)
    requires
        ls <= le <= v@.len(),
    ensures
        *final(ms) == apply_line(*old(ms), v@.subrange(ls as int, le as int)),
{
    let ghost seg = v@.subrange(ls as int, le as int);
    match line_tokens(v, ls, le) {
        Some(((ka, kb), (va, vb))) => {
            let val = parse_u64_range(v, va, vb);
            proof {
                assert(val == parsed_value(tokens_of(seg)[1]));
            }
            apply_kv_exec(ms, v, ka, kb, val);
        },
        None => {},
    }
}

/// Reads a memory statistics record out of the full text of the
/// statistics file.
///
/// The content is split into lines; a line contributes a counter only
/// when it splits into exactly two whitespace-separated tokens whose
/// first token is a known key.  Unknown keys and malformed lines are
/// ignored, a value that does not parse as an unsigned 64-bit integer
/// leaves its field absent, and the last line for a key wins.
pub fn memory_stat_parse(content: &str) -> (ms: MemoryStat)
    ensures
        ms == stat_spec(content@),
{
    let v = chars_vec(content);
    let n = v.len();
    let mut ms = MemoryStat::default();
    let ghost mut done: Seq<Seq<char>> = seq![];
    let mut i: usize = 0;
    let mut ls: usize = 0;
    proof {
        assert(v@.subrange(0, n as int) =~= v@);
        assert(v@.subrange(0, 0) =~= Seq::<char>::empty());
        assert(lines_of(v@) == done + lines_acc(
            v@.subrange(0, n as int),
            v@.subrange(0, 0),
        ));
    }
    while i < n
        invariant
            ls <= i <= n,
            n == v@.len(),
            ms == stat_of_lines(done),
            lines_of(v@) == done + lines_acc(
                v@.subrange(i as int, n as int),
                v@.subrange(ls as int, i as int),
            ),
        decreases n - i,
    {
        let ghost cur = v@.subrange(ls as int, i as int);
        let ghost rest = v@.subrange(i as int, n as int);
        proof {
            assert(rest[0] == v@[i as int]);
            assert(rest.drop_first() =~= v@.subrange(i + 1, n as int));
        }
        let c = v[i];
        if c == '\n' {
            apply_line_exec(&mut ms, &v, ls, i);
            proof {
                let done0 = done;
                done = done.push(cur);
                assert(done.drop_last() =~= done0);
                assert(done.last() == cur);
                assert(stat_of_lines(done) == apply_line(stat_of_lines(done0), cur));
                assert(v@.subrange(i + 1, i + 1) =~= Seq::<char>::empty());
                assert(done + lines_acc(v@.subrange(i + 1, n as int), Seq::empty())
                    =~= done.drop_last() + (seq![cur] + lines_acc(
                    v@.subrange(i + 1, n as int),
                    Seq::empty(),
                )));
            }
            ls = i + 1;
        } else {
            proof {
                assert(cur.push(v@[i as int]) =~= v@.subrange(ls as int, i + 1));
            }
        }
        i = i + 1;
    }
    let ghost cur = v@.subrange(ls as int, i as int);
    proof {
        assert(v@.subrange(i as int, n as int) =~= Seq::<char>::empty());
    }
    apply_line_exec(&mut ms, &v, ls, n);
    proof {
        let done0 = done;
        done = done.push(cur);
        assert(done.drop_last() =~= done0);
        assert(done.last() == cur);
        assert(stat_of_lines(done) == apply_line(stat_of_lines(done0), cur));
        assert(lines_of(v@) =~= done);
    }
    ms
}

} // verus!
