//! Laws of the statistics parser.
//!
//! The parser is defined as a left-to-right fold over the lines of the
//! file, which settles every input but leaves its tolerance properties
//! implicit.  This module states them explicitly: which value a field
//! ends up with (the last contributing line for its key), that a field
//! is absent exactly when no line contributes to it, and that the parsed
//! record does not depend on the order of the lines as long as no two
//! lines contribute to the same key.

use vstd::prelude::*;

use crate::stat::{apply_kv, apply_line, parsed_value, stat_empty, stat_of_lines, MemoryStat};
use crate::text::tokens_of;

verus! {

broadcast use vstd::string::group_string_axioms;

/// The line splits into exactly two tokens and its key token is `key`.
pub open spec fn line_sets_key(line: Seq<char>, key: Seq<char>) -> bool {
    tokens_of(line).len() == 2 && tokens_of(line)[0] == key
}

/// The value a contributing line assigns to its key's field.
pub open spec fn line_value(line: Seq<char>) -> Option<u64> {
    parsed_value(tokens_of(line)[1])
}

/// The value the last line contributing to `key` assigns, or `None`
/// when no line contributes to it.
pub open spec fn field_of_lines(lines: Seq<Seq<char>>, key: Seq<char>) -> Option<u64>
    decreases lines.len(),
{
    if lines.len() == 0 {
        None
    } else if line_sets_key(lines.last(), key) {
        line_value(lines.last())
    } else {
        field_of_lines(lines.drop_last(), key)
    }
}

/// The field of the record that `key` names.
pub open spec fn stat_field(ms: MemoryStat, key: Seq<char>) -> Option<u64> {
    if key == "anon"@ {
        ms.anon
    } else if key == "file"@ {
        ms.file
    } else if key == "kernel"@ {
        ms.kernel
    } else if key == "kernel_stack"@ {
        ms.kernel_stack
    } else if key == "pagetables"@ {
        ms.pagetables
    } else if key == "sec_pagetables"@ {
        ms.sec_pagetables
    } else if key == "percpu"@ {
        ms.percpu
    } else if key == "sock"@ {
        ms.sock
    } else if key == "vmalloc"@ {
        ms.vmalloc
    } else if key == "shmem"@ {
        ms.shmem
    } else if key == "zswap"@ {
        ms.zswap
    } else if key == "zswapped"@ {
        ms.zswapped
    } else if key == "file_mapped"@ {
        ms.file_mapped
    } else if key == "file_dirty"@ {
        ms.file_dirty
    } else if key == "file_writeback"@ {
        ms.file_writeback
    } else if key == "swapcached"@ {
        ms.swapcached
    } else if key == "anon_thp"@ {
        ms.anon_thp
    } else if key == "file_thp"@ {
        ms.file_thp
    } else if key == "shmem_thp"@ {
        ms.shmem_thp
    } else if key == "inactive_anon"@ {
        ms.inactive_anon
    } else if key == "active_anon"@ {
        ms.active_anon
    } else if key == "inactive_file"@ {
        ms.inactive_file
    } else if key == "active_file"@ {
        ms.active_file
    } else if key == "unevictable"@ {
        ms.unevictable
    } else if key == "slab_reclaimable"@ {
        ms.slab_reclaimable
    } else if key == "slab_unreclaimable"@ {
        ms.slab_unreclaimable
    } else if key == "slab"@ {
        ms.slab
    } else if key == "workingset_refault_anon"@ {
        ms.workingset_refault_anon
    } else if key == "workingset_refault_file"@ {
        ms.workingset_refault_file
    } else if key == "workingset_activate_anon"@ {
        ms.workingset_activate_anon
    } else if key == "workingset_activate_file"@ {
        ms.workingset_activate_file
    } else if key == "workingset_restore_anon"@ {
        ms.workingset_restore_anon
    } else if key == "workingset_restore_file"@ {
        ms.workingset_restore_file
    } else if key == "workingset_nodereclaim"@ {
        ms.workingset_nodereclaim
    } else if key == "pgscan"@ {
        ms.pgscan
    } else if key == "pgsteal"@ {
        ms.pgsteal
    } else if key == "pgscan_kswapd"@ {
        ms.pgscan_kswapd
    } else if key == "pgscan_direct"@ {
        ms.pgscan_direct
    } else if key == "pgscan_khugepaged"@ {
        ms.pgscan_khugepaged
    } else if key == "pgsteal_kswapd"@ {
        ms.pgsteal_kswapd
    } else if key == "pgsteal_direct"@ {
        ms.pgsteal_direct
    } else if key == "pgsteal_khugepaged"@ {
        ms.pgsteal_khugepaged
    } else if key == "pgfault"@ {
        ms.pgfault
    } else if key == "pgmajfault"@ {
        ms.pgmajfault
    } else if key == "pgrefill"@ {
        ms.pgrefill
    } else if key == "pgactivate"@ {
        ms.pgactivate
    } else if key == "pgdeactivate"@ {
        ms.pgdeactivate
    } else if key == "pglazyfree"@ {
        ms.pglazyfree
    } else if key == "pglazyfreed"@ {
        ms.pglazyfreed
    } else if key == "zswpin"@ {
        ms.zswpin
    } else if key == "zswpout"@ {
        ms.zswpout
    } else if key == "thp_fault_alloc"@ {
        ms.thp_fault_alloc
    } else if key == "thp_collapse_alloc"@ {
        ms.thp_collapse_alloc
    } else {
        None
    }
}

/// `key` is one of the counters the parser knows.
pub open spec fn known_key(key: Seq<char>) -> bool {
    ||| key == "anon"@
    ||| key == "file"@
    ||| key == "kernel"@
    ||| key == "kernel_stack"@
    ||| key == "pagetables"@
    ||| key == "sec_pagetables"@
    ||| key == "percpu"@
    ||| key == "sock"@
    ||| key == "vmalloc"@
    ||| key == "shmem"@
    ||| key == "zswap"@
    ||| key == "zswapped"@
    ||| key == "file_mapped"@
    ||| key == "file_dirty"@
    ||| key == "file_writeback"@
    ||| key == "swapcached"@
    ||| key == "anon_thp"@
    ||| key == "file_thp"@
    ||| key == "shmem_thp"@
    ||| key == "inactive_anon"@
    ||| key == "active_anon"@
    ||| key == "inactive_file"@
    ||| key == "active_file"@
    ||| key == "unevictable"@
    ||| key == "slab_reclaimable"@
    ||| key == "slab_unreclaimable"@
    ||| key == "slab"@
    ||| key == "workingset_refault_anon"@
    ||| key == "workingset_refault_file"@
    ||| key == "workingset_activate_anon"@
    ||| key == "workingset_activate_file"@
    ||| key == "workingset_restore_anon"@
    ||| key == "workingset_restore_file"@
    ||| key == "workingset_nodereclaim"@
    ||| key == "pgscan"@
    ||| key == "pgsteal"@
    ||| key == "pgscan_kswapd"@
    ||| key == "pgscan_direct"@
    ||| key == "pgscan_khugepaged"@
    ||| key == "pgsteal_kswapd"@
    ||| key == "pgsteal_direct"@
    ||| key == "pgsteal_khugepaged"@
    ||| key == "pgfault"@
    ||| key == "pgmajfault"@
    ||| key == "pgrefill"@
    ||| key == "pgactivate"@
    ||| key == "pgdeactivate"@
    ||| key == "pglazyfree"@
    ||| key == "pglazyfreed"@
    ||| key == "zswpin"@
    ||| key == "zswpout"@
    ||| key == "thp_fault_alloc"@
    ||| key == "thp_collapse_alloc"@
}

/// One key/value pair changes the field its key names and nothing else.
proof fn lemma_apply_kv_field(ms: MemoryStat, k0: Seq<char>, v: Option<u64>, key: Seq<char>)
    ensures
        stat_field(apply_kv(ms, k0, v), key) == if k0 == key && known_key(k0) {
            v
        } else {
            stat_field(ms, key)
        },
{
}

/// One line changes the field of its key and nothing else.
proof fn lemma_apply_line_field(ms: MemoryStat, line: Seq<char>, key: Seq<char>)
    ensures
        stat_field(apply_line(ms, line), key) == if line_sets_key(line, key) && known_key(key) {
            line_value(line)
        } else {
            stat_field(ms, key)
        },
{
    if tokens_of(line).len() == 2 {
        lemma_apply_kv_field(ms, tokens_of(line)[0], parsed_value(tokens_of(line)[1]), key);
    }
}

/// Law: for every known key, the parsed record holds exactly the value
/// of the last line that contributes to that key, and nothing when no
/// line does.  Together with the parser's contract this pins down every
/// field of the record: unknown keys and malformed lines cannot touch
/// it, fields arrive in any order, and a duplicate key is resolved in
/// favour of its last occurrence.
pub proof fn lemma_stat_field_of_lines(lines: Seq<Seq<char>>, key: Seq<char>)
    requires
        known_key(key),
    ensures
        stat_field(stat_of_lines(lines), key) == field_of_lines(lines, key),
    decreases lines.len(),
{
    if lines.len() == 0 {
        assert(stat_field(stat_empty(), key) is None);
    } else {
        lemma_stat_field_of_lines(lines.drop_last(), key);
        lemma_apply_line_field(stat_of_lines(lines.drop_last()), lines.last(), key);
    }
}

/// Law: a field stays absent when no line contributes to its key.
pub proof fn lemma_field_absent(lines: Seq<Seq<char>>, key: Seq<char>)
    requires
        forall|i: int| 0 <= i < lines.len() ==> !line_sets_key(#[trigger] lines[i], key),
    ensures
        field_of_lines(lines, key) == None::<u64>,
    decreases lines.len(),
{
    if lines.len() > 0 {
        assert(lines.last() == lines[lines.len() - 1]);
        assert(forall|i: int|
            0 <= i < lines.len() - 1 ==> #[trigger] lines.drop_last()[i] == lines[i]);
        lemma_field_absent(lines.drop_last(), key);
    }
}

/// Law: the last line contributing to a key decides its field.
pub proof fn lemma_field_last_wins(lines: Seq<Seq<char>>, key: Seq<char>, i: int)
    requires
        0 <= i < lines.len(),
        line_sets_key(lines[i], key),
        forall|j: int| i < j < lines.len() ==> !line_sets_key(#[trigger] lines[j], key),
    ensures
        field_of_lines(lines, key) == line_value(lines[i]),
    decreases lines.len(),
{
    assert(lines.last() == lines[lines.len() - 1]);
    if i == lines.len() - 1 {
    } else {
        assert(forall|j: int|
            0 <= j < lines.len() - 1 ==> #[trigger] lines.drop_last()[j] == lines[j]);
        lemma_field_last_wins(lines.drop_last(), key, i);
    }
}

/// Field lookup under the key `anon` reads the `anon` field.
proof fn lemma_field_eq_anon(a: MemoryStat, b: MemoryStat)
    requires
        stat_field(a, "anon"@) == stat_field(b, "anon"@),
    ensures
        a.anon == b.anon,
{
    reveal_strlit("anon");
    assert("anon"@.len() == 4);
    assert(stat_field(a, "anon"@) == a.anon);
    assert(stat_field(b, "anon"@) == b.anon);
}

/// Field lookup under the key `file` reads the `file` field.
proof fn lemma_field_eq_file(a: MemoryStat, b: MemoryStat)
    requires
        stat_field(a, "file"@) == stat_field(b, "file"@),
    ensures
        a.file == b.file,
{
    reveal_strlit("anon");
    reveal_strlit("file");
    assert("anon"@.len() == 4);
    assert("file"@.len() == 4);
    assert("file"@[0] == 'f' && "anon"@[0] == 'a');
    assert("file"@ != "anon"@);
    assert(stat_field(a, "file"@) == a.file);
    assert(stat_field(b, "file"@) == b.file);
}

/// Field lookup under the key `kernel` reads the `kernel` field.
proof fn lemma_field_eq_kernel(a: MemoryStat, b: MemoryStat)
    requires
        stat_field(a, "kernel"@) == stat_field(b, "kernel"@),
    ensures
        a.kernel == b.kernel,
{
    reveal_strlit("anon");
    reveal_strlit("file");
    reveal_strlit("kernel");
    assert("anon"@.len() == 4);
    assert("file"@.len() == 4);
    assert("kernel"@.len() == 6);
    assert("kernel"@ != "anon"@);
    assert("kernel"@ != "file"@);
    assert(stat_field(a, "kernel"@) == a.kernel);
    assert(stat_field(b, "kernel"@) == b.kernel);
}

/// Field lookup under the key `kernel_stack` reads the `kernel_stack` field.
proof fn lemma_field_eq_kernel_stack(a: MemoryStat, b: MemoryStat)
    requires
        stat_field(a, "kernel_stack"@) == stat_field(b, "kernel_stack"@),
    ensures
        a.kernel_stack == b.kernel_stack,
{
    reveal_strlit("anon");
    reveal_strlit("file");
    reveal_strlit("kernel");
    reveal_strlit("kernel_stack");
    assert("anon"@.len() == 4);
    assert("file"@.len() == 4);
    assert("kernel"@.len() == 6);
    assert("kernel_stack"@.len() == 12);
    assert("kernel_stack"@ != "anon"@);
    assert("kernel_stack"@ != "file"@);
    assert("kernel_stack"@ != "kernel"@);
    assert(stat_field(a, "kernel_stack"@) == a.kernel_stack);
    assert(stat_field(b, "kernel_stack"@) == b.kernel_stack);
}

/// Field lookup under the key `pagetables` reads the `pagetables` field.
proof fn lemma_field_eq_pagetables(a: MemoryStat, b: MemoryStat)
    requires
        stat_field(a, "pagetables"@) == stat_field(b, "pagetables"@),
    ensures
        a.pagetables == b.pagetables,
{
    reveal_strlit("anon");
    reveal_strlit("file");
    reveal_strlit("kernel");
    reveal_strlit("kernel_stack");
    reveal_strlit("pagetables");
    assert("anon"@.len() == 4);
    assert("file"@.len() == 4);
    assert("kernel"@.len() == 6);
    assert("kernel_stack"@.len() == 12);
    assert("pagetables"@.len() == 10);
    assert("pagetables"@ != "anon"@);
    assert("pagetables"@ != "file"@);
    assert("pagetables"@ != "kernel"@);
    assert("pagetables"@ != "kernel_stack"@);
    assert(stat_field(a, "pagetables"@) == a.pagetables);
    assert(stat_field(b, "pagetables"@) == b.pagetables);
}

/// Field lookup under the key `sec_pagetables` reads the `sec_pagetables` field.
proof fn lemma_field_eq_sec_pagetables(a: MemoryStat, b: MemoryStat)
    requires
        stat_field(a, "sec_pagetables"@) == stat_field(b, "sec_pagetables"@),
    ensures
        a.sec_pagetables == b.sec_pagetables,
{
    reveal_strlit("anon");
    reveal_strlit("file");
    reveal_strlit("kernel");
    reveal_strlit("kernel_stack");
    reveal_strlit("pagetables");
    reveal_strlit("sec_pagetables");
    assert("anon"@.len() == 4);
    assert("file"@.len() == 4);
    assert("kernel"@.len() == 6);
    assert("kernel_stack"@.len() == 12);
    assert("pagetables"@.len() == 10);
    assert("sec_pagetables"@.len() == 14);
    assert("sec_pagetables"@ != "anon"@);
    assert("sec_pagetables"@ != "file"@);
    assert("sec_pagetables"@ != "kernel"@);
    assert("sec_pagetables"@ != "kernel_stack"@);
    assert("sec_pagetables"@ != "pagetables"@);
    assert(stat_field(a, "sec_pagetables"@) == a.sec_pagetables);
    assert(stat_field(b, "sec_pagetables"@) == b.sec_pagetables);
}

/// Field lookup under the key `percpu` reads the `percpu` field.
proof fn lemma_field_eq_percpu(a: MemoryStat, b: MemoryStat)
    requires
        stat_field(a, "percpu"@) == stat_field(b, "percpu"@),
    ensures
        a.percpu == b.percpu,
{
    reveal_strlit("anon");
    reveal_strlit("file");
    reveal_strlit("kernel");
    reveal_strlit("kernel_stack");
    reveal_strlit("pagetables");
    reveal_strlit("sec_pagetables");
    reveal_strlit("percpu");
    assert("anon"@.len() == 4);
    assert("file"@.len() == 4);
    assert("kernel"@.len() == 6);
    assert("kernel_stack"@.len() == 12);
    assert("pagetables"@.len() == 10);
    assert("sec_pagetables"@.len() == 14);
    assert("percpu"@.len() == 6);
    assert("percpu"@ != "anon"@);
    assert("percpu"@ != "file"@);
    assert("percpu"@[0] == 'p' && "kernel"@[0] == 'k');
    assert("percpu"@ != "kernel"@);
    assert("percpu"@ != "kernel_stack"@);
    assert("percpu"@ != "pagetables"@);
    assert("percpu"@ != "sec_pagetables"@);
    assert(stat_field(a, "percpu"@) == a.percpu);
    assert(stat_field(b, "percpu"@) == b.percpu);
}

/// Field lookup under the key `sock` reads the `sock` field.
proof fn lemma_field_eq_sock(a: MemoryStat, b: MemoryStat)
    requires
        stat_field(a, "sock"@) == stat_field(b, "sock"@),
    ensures
        a.sock == b.sock,
{
    reveal_strlit("anon");
    reveal_strlit("file");
    reveal_strlit("kernel");
    reveal_strlit("kernel_stack");
    reveal_strlit("pagetables");
    reveal_strlit("sec_pagetables");
    reveal_strlit("percpu");
    reveal_strlit("sock");
    assert("anon"@.len() == 4);
    assert("file"@.len() == 4);
    assert("kernel"@.len() == 6);
    assert("kernel_stack"@.len() == 12);
    assert("pagetables"@.len() == 10);
    assert("sec_pagetables"@.len() == 14);
    assert("percpu"@.len() == 6);
    assert("sock"@.len() == 4);
    assert("sock"@[0] == 's' && "anon"@[0] == 'a');
    assert("sock"@ != "anon"@);
    assert("sock"@[0] == 's' && "file"@[0] == 'f');
    assert("sock"@ != "file"@);
    assert("sock"@ != "kernel"@);
    assert("sock"@ != "kernel_stack"@);
    assert("sock"@ != "pagetables"@);
    assert("sock"@ != "sec_pagetables"@);
    assert("sock"@ != "percpu"@);
    assert(stat_field(a, "sock"@) == a.sock);
    assert(stat_field(b, "sock"@) == b.sock);
}

/// Field lookup under the key `vmalloc` reads the `vmalloc` field.
proof fn lemma_field_eq_vmalloc(a: MemoryStat, b: MemoryStat)
    requires
        stat_field(a, "vmalloc"@) == stat_field(b, "vmalloc"@),
    ensures
        a.vmalloc == b.vmalloc,
{
    reveal_strlit("anon");
    reveal_strlit("file");
    reveal_strlit("kernel");
    reveal_strlit("kernel_stack");
    reveal_strlit("pagetables");
    reveal_strlit("sec_pagetables");
    reveal_strlit("percpu");
    reveal_strlit("sock");
    reveal_strlit("vmalloc");
    assert("anon"@.len() == 4);
    assert("file"@.len() == 4);
    assert("kernel"@.len() == 6);
    assert("kernel_stack"@.len() == 12);
    assert("pagetables"@.len() == 10);
    assert("sec_pagetables"@.len() == 14);
    assert("percpu"@.len() == 6);
    assert("sock"@.len() == 4);
    assert("vmalloc"@.len() == 7);
    assert("vmalloc"@ != "anon"@);
    assert("vmalloc"@ != "file"@);
    assert("vmalloc"@ != "kernel"@);
    assert("vmalloc"@ != "kernel_stack"@);
    assert("vmalloc"@ != "pagetables"@);
    assert("vmalloc"@ != "sec_pagetables"@);
    assert("vmalloc"@ != "percpu"@);
    assert("vmalloc"@ != "sock"@);
    assert(stat_field(a, "vmalloc"@) == a.vmalloc);
    assert(stat_field(b, "vmalloc"@) == b.vmalloc);
}

/// Field lookup under the key `shmem` reads the `shmem` field.
proof fn lemma_field_eq_shmem(a: MemoryStat, b: MemoryStat)
    requires
        stat_field(a, "shmem"@) == stat_field(b, "shmem"@),
    ensures
        a.shmem == b.shmem,
{
    reveal_strlit("anon");
    reveal_strlit("file");
    reveal_strlit("kernel");
    reveal_strlit("kernel_stack");
    reveal_strlit("pagetables");
    reveal_strlit("sec_pagetables");
    reveal_strlit("percpu");
    reveal_strlit("sock");
    reveal_strlit("vmalloc");
    reveal_strlit("shmem");
    assert("anon"@.len() == 4);
    assert("file"@.len() == 4);
    assert("kernel"@.len() == 6);
    assert("kernel_stack"@.len() == 12);
    assert("pagetables"@.len() == 10);
    assert("sec_pagetables"@.len() == 14);
    assert("percpu"@.len() == 6);
    assert("sock"@.len() == 4);
    assert("vmalloc"@.len() == 7);
    assert("shmem"@.len() == 5);
    assert("shmem"@ != "anon"@);
    assert("shmem"@ != "file"@);
    assert("shmem"@ != "kernel"@);
    assert("shmem"@ != "kernel_stack"@);
    assert("shmem"@ != "pagetables"@);
    assert("shmem"@ != "sec_pagetables"@);
    assert("shmem"@ != "percpu"@);
    assert("shmem"@ != "sock"@);
    assert("shmem"@ != "vmalloc"@);
    assert(stat_field(a, "shmem"@) == a.shmem);
    assert(stat_field(b, "shmem"@) == b.shmem);
}

/// Field lookup under the key `zswap` reads the `zswap` field.
proof fn lemma_field_eq_zswap(a: MemoryStat, b: MemoryStat)
    requires
        stat_field(a, "zswap"@) == stat_field(b, "zswap"@),
    ensures
        a.zswap == b.zswap,
{
    reveal_strlit("anon");
    reveal_strlit("file");
    reveal_strlit("kernel");
    reveal_strlit("kernel_stack");
    reveal_strlit("pagetables");
    reveal_strlit("sec_pagetables");
    reveal_strlit("percpu");
    reveal_strlit("sock");
    reveal_strlit("vmalloc");
    reveal_strlit("shmem");
    reveal_strlit("zswap");
    assert("anon"@.len() == 4);
    assert("file"@.len() == 4);
    assert("kernel"@.len() == 6);
    assert("kernel_stack"@.len() == 12);
    assert("pagetables"@.len() == 10);
    assert("sec_pagetables"@.len() == 14);
    assert("percpu"@.len() == 6);
    assert("sock"@.len() == 4);
    assert("vmalloc"@.len() == 7);
    assert("shmem"@.len() == 5);
    assert("zswap"@.len() == 5);
    assert("zswap"@ != "anon"@);
    assert("zswap"@ != "file"@);
    assert("zswap"@ != "kernel"@);
    assert("zswap"@ != "kernel_stack"@);
    assert("zswap"@ != "pagetables"@);
    assert("zswap"@ != "sec_pagetables"@);
    assert("zswap"@ != "percpu"@);
    assert("zswap"@ != "sock"@);
    assert("zswap"@ != "vmalloc"@);
    assert("zswap"@[0] == 'z' && "shmem"@[0] == 's');
    assert("zswap"@ != "shmem"@);
    assert(stat_field(a, "zswap"@) == a.zswap);
    assert(stat_field(b, "zswap"@) == b.zswap);
}

/// Field lookup under the key `zswapped` reads the `zswapped` field.
proof fn lemma_field_eq_zswapped(a: MemoryStat, b: MemoryStat)
    requires
        stat_field(a, "zswapped"@) == stat_field(b, "zswapped"@),
    ensures
        a.zswapped == b.zswapped,
{
    reveal_strlit("anon");
    reveal_strlit("file");
    reveal_strlit("kernel");
    reveal_strlit("kernel_stack");
    reveal_strlit("pagetables");
    reveal_strlit("sec_pagetables");
    reveal_strlit("percpu");
    reveal_strlit("sock");
    reveal_strlit("vmalloc");
    reveal_strlit("shmem");
    reveal_strlit("zswap");
    reveal_strlit("zswapped");
    assert("anon"@.len() == 4);
    assert("file"@.len() == 4);
    assert("kernel"@.len() == 6);
    assert("kernel_stack"@.len() == 12);
    assert("pagetables"@.len() == 10);
    assert("sec_pagetables"@.len() == 14);
    assert("percpu"@.len() == 6);
    assert("sock"@.len() == 4);
    assert("vmalloc"@.len() == 7);
    assert("shmem"@.len() == 5);
    assert("zswap"@.len() == 5);
    assert("zswapped"@.len() == 8);
    assert("zswapped"@ != "anon"@);
    assert("zswapped"@ != "file"@);
    assert("zswapped"@ != "kernel"@);
    assert("zswapped"@ != "kernel_stack"@);
    assert("zswapped"@ != "pagetables"@);
    assert("zswapped"@ != "sec_pagetables"@);
    assert("zswapped"@ != "percpu"@);
    assert("zswapped"@ != "sock"@);
    assert("zswapped"@ != "vmalloc"@);
    assert("zswapped"@ != "shmem"@);
    assert("zswapped"@ != "zswap"@);
    assert(stat_field(a, "zswapped"@) == a.zswapped);
    assert(stat_field(b, "zswapped"@) == b.zswapped);
}

/// Field lookup under the key `file_mapped` reads the `file_mapped` field.
proof fn lemma_field_eq_file_mapped(a: MemoryStat, b: MemoryStat)
    requires
        stat_field(a, "file_mapped"@) == stat_field(b, "file_mapped"@),
    ensures
        a.file_mapped == b.file_mapped,
{
    reveal_strlit("anon");
    reveal_strlit("file");
    reveal_strlit("kernel");
    reveal_strlit("kernel_stack");
    reveal_strlit("pagetables");
    reveal_strlit("sec_pagetables");
    reveal_strlit("percpu");
    reveal_strlit("sock");
    reveal_strlit("vmalloc");
    reveal_strlit("shmem");
    reveal_strlit("zswap");
    reveal_strlit("zswapped");
    reveal_strlit("file_mapped");
    assert("anon"@.len() == 4);
    assert("file"@.len() == 4);
    assert("kernel"@.len() == 6);
    assert("kernel_stack"@.len() == 12);
    assert("pagetables"@.len() == 10);
    assert("sec_pagetables"@.len() == 14);
    assert("percpu"@.len() == 6);
    assert("sock"@.len() == 4);
    assert("vmalloc"@.len() == 7);
    assert("shmem"@.len() == 5);
    assert("zswap"@.len() == 5);
    assert("zswapped"@.len() == 8);
    assert("file_mapped"@.len() == 11);
    assert("file_mapped"@ != "anon"@);
    assert("file_mapped"@ != "file"@);
    assert("file_mapped"@ != "kernel"@);
    assert("file_mapped"@ != "kernel_stack"@);
    assert("file_mapped"@ != "pagetables"@);
    assert("file_mapped"@ != "sec_pagetables"@);
    assert("file_mapped"@ != "percpu"@);
    assert("file_mapped"@ != "sock"@);
    assert("file_mapped"@ != "vmalloc"@);
    assert("file_mapped"@ != "shmem"@);
    assert("file_mapped"@ != "zswap"@);
    assert("file_mapped"@ != "zswapped"@);
    assert(stat_field(a, "file_mapped"@) == a.file_mapped);
    assert(stat_field(b, "file_mapped"@) == b.file_mapped);
}

/// Field lookup under the key `file_dirty` reads the `file_dirty` field.
proof fn lemma_field_eq_file_dirty(a: MemoryStat, b: MemoryStat)
    requires
        stat_field(a, "file_dirty"@) == stat_field(b, "file_dirty"@),
    ensures
        a.file_dirty == b.file_dirty,
{
    reveal_strlit("anon");
    reveal_strlit("file");
    reveal_strlit("kernel");
    reveal_strlit("kernel_stack");
    reveal_strlit("pagetables");
    reveal_strlit("sec_pagetables");
    reveal_strlit("percpu");
    reveal_strlit("sock");
    reveal_strlit("vmalloc");
    reveal_strlit("shmem");
    reveal_strlit("zswap");
    reveal_strlit("zswapped");
    reveal_strlit("file_mapped");
    reveal_strlit("file_dirty");
    assert("anon"@.len() == 4);
    assert("file"@.len() == 4);
    assert("kernel"@.len() == 6);
    assert("kernel_stack"@.len() == 12);
    assert("pagetables"@.len() == 10);
    assert("sec_pagetables"@.len() == 14);
    assert("percpu"@.len() == 6);
    assert("sock"@.len() == 4);
    assert("vmalloc"@.len() == 7);
    assert("shmem"@.len() == 5);
    assert("zswap"@.len() == 5);
    assert("zswapped"@.len() == 8);
    assert("file_mapped"@.len() == 11);
    assert("file_dirty"@.len() == 10);
    assert("file_dirty"@ != "anon"@);
    assert("file_dirty"@ != "file"@);
    assert("file_dirty"@ != "kernel"@);
    assert("file_dirty"@ != "kernel_stack"@);
    assert("file_dirty"@[0] == 'f' && "pagetables"@[0] == 'p');
    assert("file_dirty"@ != "pagetables"@);
    assert("file_dirty"@ != "sec_pagetables"@);
    assert("file_dirty"@ != "percpu"@);
    assert("file_dirty"@ != "sock"@);
    assert("file_dirty"@ != "vmalloc"@);
    assert("file_dirty"@ != "shmem"@);
    assert("file_dirty"@ != "zswap"@);
    assert("file_dirty"@ != "zswapped"@);
    assert("file_dirty"@ != "file_mapped"@);
    assert(stat_field(a, "file_dirty"@) == a.file_dirty);
    assert(stat_field(b, "file_dirty"@) == b.file_dirty);
}

/// Field lookup under the key `file_writeback` reads the `file_writeback` field.
proof fn lemma_field_eq_file_writeback(a: MemoryStat, b: MemoryStat)
    requires
        stat_field(a, "file_writeback"@) == stat_field(b, "file_writeback"@),
    ensures
        a.file_writeback == b.file_writeback,
{
    reveal_strlit("anon");
    reveal_strlit("file");
    reveal_strlit("kernel");
    reveal_strlit("kernel_stack");
    reveal_strlit("pagetables");
    reveal_strlit("sec_pagetables");
    reveal_strlit("percpu");
    reveal_strlit("sock");
    reveal_strlit("vmalloc");
    reveal_strlit("shmem");
    reveal_strlit("zswap");
    reveal_strlit("zswapped");
    reveal_strlit("file_mapped");
    reveal_strlit("file_dirty");
    reveal_strlit("file_writeback");
    assert("anon"@.len() == 4);
    assert("file"@.len() == 4);
    assert("kernel"@.len() == 6);
    assert("kernel_stack"@.len() == 12);
    assert("pagetables"@.len() == 10);
    assert("sec_pagetables"@.len() == 14);
    assert("percpu"@.len() == 6);
    assert("sock"@.len() == 4);
    assert("vmalloc"@.len() == 7);
    assert("shmem"@.len() == 5);
    assert("zswap"@.len() == 5);
    assert("zswapped"@.len() == 8);
    assert("file_mapped"@.len() == 11);
    assert("file_dirty"@.len() == 10);
    assert("file_writeback"@.len() == 14);
    assert("file_writeback"@ != "anon"@);
    assert("file_writeback"@ != "file"@);
    assert("file_writeback"@ != "kernel"@);
    assert("file_writeback"@ != "kernel_stack"@);
    assert("file_writeback"@ != "pagetables"@);
    assert("file_writeback"@[0] == 'f' && "sec_pagetables"@[0] == 's');
    assert("file_writeback"@ != "sec_pagetables"@);
    assert("file_writeback"@ != "percpu"@);
    assert("file_writeback"@ != "sock"@);
    assert("file_writeback"@ != "vmalloc"@);
    assert("file_writeback"@ != "shmem"@);
    assert("file_writeback"@ != "zswap"@);
    assert("file_writeback"@ != "zswapped"@);
    assert("file_writeback"@ != "file_mapped"@);
    assert("file_writeback"@ != "file_dirty"@);
    assert(stat_field(a, "file_writeback"@) == a.file_writeback);
    assert(stat_field(b, "file_writeback"@) == b.file_writeback);
}

/// Field lookup under the key `swapcached` reads the `swapcached` field.
proof fn lemma_field_eq_swapcached(a: MemoryStat, b: MemoryStat)
    requires
        stat_field(a, "swapcached"@) == stat_field(b, "swapcached"@),
    ensures
        a.swapcached == b.swapcached,
{
    reveal_strlit("anon");
    reveal_strlit("file");
    reveal_strlit("kernel");
    reveal_strlit("kernel_stack");
    reveal_strlit("pagetables");
    reveal_strlit("sec_pagetables");
    reveal_strlit("percpu");
    reveal_strlit("sock");
    reveal_strlit("vmalloc");
    reveal_strlit("shmem");
    reveal_strlit("zswap");
    reveal_strlit("zswapped");
    reveal_strlit("file_mapped");
    reveal_strlit("file_dirty");
    reveal_strlit("file_writeback");
    reveal_strlit("swapcached");
    assert("anon"@.len() == 4);
    assert("file"@.len() == 4);
    assert("kernel"@.len() == 6);
    assert("kernel_stack"@.len() == 12);
    assert("pagetables"@.len() == 10);
    assert("sec_pagetables"@.len() == 14);
    assert("percpu"@.len() == 6);
    assert("sock"@.len() == 4);
    assert("vmalloc"@.len() == 7);
    assert("shmem"@.len() == 5);
    assert("zswap"@.len() == 5);
    assert("zswapped"@.len() == 8);
    assert("file_mapped"@.len() == 11);
    assert("file_dirty"@.len() == 10);
    assert("file_writeback"@.len() == 14);
    assert("swapcached"@.len() == 10);
    assert("swapcached"@ != "anon"@);
    assert("swapcached"@ != "file"@);
    assert("swapcached"@ != "kernel"@);
    assert("swapcached"@ != "kernel_stack"@);
    assert("swapcached"@[0] == 's' && "pagetables"@[0] == 'p');
    assert("swapcached"@ != "pagetables"@);
    assert("swapcached"@ != "sec_pagetables"@);
    assert("swapcached"@ != "percpu"@);
    assert("swapcached"@ != "sock"@);
    assert("swapcached"@ != "vmalloc"@);
    assert("swapcached"@ != "shmem"@);
    assert("swapcached"@ != "zswap"@);
    assert("swapcached"@ != "zswapped"@);
    assert("swapcached"@ != "file_mapped"@);
    assert("swapcached"@[0] == 's' && "file_dirty"@[0] == 'f');
    assert("swapcached"@ != "file_dirty"@);
    assert("swapcached"@ != "file_writeback"@);
    assert(stat_field(a, "swapcached"@) == a.swapcached);
    assert(stat_field(b, "swapcached"@) == b.swapcached);
}

/// Field lookup under the key `anon_thp` reads the `anon_thp` field.
proof fn lemma_field_eq_anon_thp(a: MemoryStat, b: MemoryStat)
    requires
        stat_field(a, "anon_thp"@) == stat_field(b, "anon_thp"@),
    ensures
        a.anon_thp == b.anon_thp,
{
    reveal_strlit("anon");
    reveal_strlit("file");
    reveal_strlit("kernel");
    reveal_strlit("kernel_stack");
    reveal_strlit("pagetables");
    reveal_strlit("sec_pagetables");
    reveal_strlit("percpu");
    reveal_strlit("sock");
    reveal_strlit("vmalloc");
    reveal_strlit("shmem");
    reveal_strlit("zswap");
    reveal_strlit("zswapped");
    reveal_strlit("file_mapped");
    reveal_strlit("file_dirty");
    reveal_strlit("file_writeback");
    reveal_strlit("swapcached");
    reveal_strlit("anon_thp");
    assert("anon"@.len() == 4);
    assert("file"@.len() == 4);
    assert("kernel"@.len() == 6);
    assert("kernel_stack"@.len() == 12);
    assert("pagetables"@.len() == 10);
    assert("sec_pagetables"@.len() == 14);
    assert("percpu"@.len() == 6);
    assert("sock"@.len() == 4);
    assert("vmalloc"@.len() == 7);
    assert("shmem"@.len() == 5);
    assert("zswap"@.len() == 5);
    assert("zswapped"@.len() == 8);
    assert("file_mapped"@.len() == 11);
    assert("file_dirty"@.len() == 10);
    assert("file_writeback"@.len() == 14);
    assert("swapcached"@.len() == 10);
    assert("anon_thp"@.len() == 8);
    assert("anon_thp"@ != "anon"@);
    assert("anon_thp"@ != "file"@);
    assert("anon_thp"@ != "kernel"@);
    assert("anon_thp"@ != "kernel_stack"@);
    assert("anon_thp"@ != "pagetables"@);
    assert("anon_thp"@ != "sec_pagetables"@);
    assert("anon_thp"@ != "percpu"@);
    assert("anon_thp"@ != "sock"@);
    assert("anon_thp"@ != "vmalloc"@);
    assert("anon_thp"@ != "shmem"@);
    assert("anon_thp"@ != "zswap"@);
    assert("anon_thp"@[0] == 'a' && "zswapped"@[0] == 'z');
    assert("anon_thp"@ != "zswapped"@);
    assert("anon_thp"@ != "file_mapped"@);
    assert("anon_thp"@ != "file_dirty"@);
    assert("anon_thp"@ != "file_writeback"@);
    assert("anon_thp"@ != "swapcached"@);
    assert(stat_field(a, "anon_thp"@) == a.anon_thp);
    assert(stat_field(b, "anon_thp"@) == b.anon_thp);
}

/// Field lookup under the key `file_thp` reads the `file_thp` field.
proof fn lemma_field_eq_file_thp(a: MemoryStat, b: MemoryStat)
    requires
        stat_field(a, "file_thp"@) == stat_field(b, "file_thp"@),
    ensures
        a.file_thp == b.file_thp,
{
    reveal_strlit("anon");
    reveal_strlit("file");
    reveal_strlit("kernel");
    reveal_strlit("kernel_stack");
    reveal_strlit("pagetables");
    reveal_strlit("sec_pagetables");
    reveal_strlit("percpu");
    reveal_strlit("sock");
    reveal_strlit("vmalloc");
    reveal_strlit("shmem");
    reveal_strlit("zswap");
    reveal_strlit("zswapped");
    reveal_strlit("file_mapped");
    reveal_strlit("file_dirty");
    reveal_strlit("file_writeback");
    reveal_strlit("swapcached");
    reveal_strlit("anon_thp");
    reveal_strlit("file_thp");
    assert("anon"@.len() == 4);
    assert("file"@.len() == 4);
    assert("kernel"@.len() == 6);
    assert("kernel_stack"@.len() == 12);
    assert("pagetables"@.len() == 10);
    assert("sec_pagetables"@.len() == 14);
    assert("percpu"@.len() == 6);
    assert("sock"@.len() == 4);
    assert("vmalloc"@.len() == 7);
    assert("shmem"@.len() == 5);
    assert("zswap"@.len() == 5);
    assert("zswapped"@.len() == 8);
    assert("file_mapped"@.len() == 11);
    assert("file_dirty"@.len() == 10);
    assert("file_writeback"@.len() == 14);
    assert("swapcached"@.len() == 10);
    assert("anon_thp"@.len() == 8);
    assert("file_thp"@.len() == 8);
    assert("file_thp"@ != "anon"@);
    assert("file_thp"@ != "file"@);
    assert("file_thp"@ != "kernel"@);
    assert("file_thp"@ != "kernel_stack"@);
    assert("file_thp"@ != "pagetables"@);
    assert("file_thp"@ != "sec_pagetables"@);
    assert("file_thp"@ != "percpu"@);
    assert("file_thp"@ != "sock"@);
    assert("file_thp"@ != "vmalloc"@);
    assert("file_thp"@ != "shmem"@);
    assert("file_thp"@ != "zswap"@);
    assert("file_thp"@[0] == 'f' && "zswapped"@[0] == 'z');
    assert("file_thp"@ != "zswapped"@);
    assert("file_thp"@ != "file_mapped"@);
    assert("file_thp"@ != "file_dirty"@);
    assert("file_thp"@ != "file_writeback"@);
    assert("file_thp"@ != "swapcached"@);
    assert("file_thp"@[0] == 'f' && "anon_thp"@[0] == 'a');
    assert("file_thp"@ != "anon_thp"@);
    assert(stat_field(a, "file_thp"@) == a.file_thp);
    assert(stat_field(b, "file_thp"@) == b.file_thp);
}

/// Field lookup under the key `shmem_thp` reads the `shmem_thp` field.
proof fn lemma_field_eq_shmem_thp(a: MemoryStat, b: MemoryStat)
    requires
        stat_field(a, "shmem_thp"@) == stat_field(b, "shmem_thp"@),
    ensures
        a.shmem_thp == b.shmem_thp,
{
    reveal_strlit("anon");
    reveal_strlit("file");
    reveal_strlit("kernel");
    reveal_strlit("kernel_stack");
    reveal_strlit("pagetables");
    reveal_strlit("sec_pagetables");
    reveal_strlit("percpu");
    reveal_strlit("sock");
    reveal_strlit("vmalloc");
    reveal_strlit("shmem");
    reveal_strlit("zswap");
    reveal_strlit("zswapped");
    reveal_strlit("file_mapped");
    reveal_strlit("file_dirty");
    reveal_strlit("file_writeback");
    reveal_strlit("swapcached");
    reveal_strlit("anon_thp");
    reveal_strlit("file_thp");
    reveal_strlit("shmem_thp");
    assert("anon"@.len() == 4);
    assert("file"@.len() == 4);
    assert("kernel"@.len() == 6);
    assert("kernel_stack"@.len() == 12);
    assert("pagetables"@.len() == 10);
    assert("sec_pagetables"@.len() == 14);
    assert("percpu"@.len() == 6);
    assert("sock"@.len() == 4);
    assert("vmalloc"@.len() == 7);
    assert("shmem"@.len() == 5);
    assert("zswap"@.len() == 5);
    assert("zswapped"@.len() == 8);
    assert("file_mapped"@.len() == 11);
    assert("file_dirty"@.len() == 10);
    assert("file_writeback"@.len() == 14);
    assert("swapcached"@.len() == 10);
    assert("anon_thp"@.len() == 8);
    assert("file_thp"@.len() == 8);
    assert("shmem_thp"@.len() == 9);
    assert("shmem_thp"@ != "anon"@);
    assert("shmem_thp"@ != "file"@);
    assert("shmem_thp"@ != "kernel"@);
    assert("shmem_thp"@ != "kernel_stack"@);
    assert("shmem_thp"@ != "pagetables"@);
    assert("shmem_thp"@ != "sec_pagetables"@);
    assert("shmem_thp"@ != "percpu"@);
    assert("shmem_thp"@ != "sock"@);
    assert("shmem_thp"@ != "vmalloc"@);
    assert("shmem_thp"@ != "shmem"@);
    assert("shmem_thp"@ != "zswap"@);
    assert("shmem_thp"@ != "zswapped"@);
    assert("shmem_thp"@ != "file_mapped"@);
    assert("shmem_thp"@ != "file_dirty"@);
    assert("shmem_thp"@ != "file_writeback"@);
    assert("shmem_thp"@ != "swapcached"@);
    assert("shmem_thp"@ != "anon_thp"@);
    assert("shmem_thp"@ != "file_thp"@);
    assert(stat_field(a, "shmem_thp"@) == a.shmem_thp);
    assert(stat_field(b, "shmem_thp"@) == b.shmem_thp);
}

/// Field lookup under the key `inactive_anon` reads the `inactive_anon` field.
proof fn lemma_field_eq_inactive_anon(a: MemoryStat, b: MemoryStat)
    requires
        stat_field(a, "inactive_anon"@) == stat_field(b, "inactive_anon"@),
    ensures
        a.inactive_anon == b.inactive_anon,
{
    reveal_strlit("anon");
    reveal_strlit("file");
    reveal_strlit("kernel");
    reveal_strlit("kernel_stack");
    reveal_strlit("pagetables");
    reveal_strlit("sec_pagetables");
    reveal_strlit("percpu");
    reveal_strlit("sock");
    reveal_strlit("vmalloc");
    reveal_strlit("shmem");
    reveal_strlit("zswap");
    reveal_strlit("zswapped");
    reveal_strlit("file_mapped");
    reveal_strlit("file_dirty");
    reveal_strlit("file_writeback");
    reveal_strlit("swapcached");
    reveal_strlit("anon_thp");
    reveal_strlit("file_thp");
    reveal_strlit("shmem_thp");
    reveal_strlit("inactive_anon");
    assert("anon"@.len() == 4);
    assert("file"@.len() == 4);
    assert("kernel"@.len() == 6);
    assert("kernel_stack"@.len() == 12);
    assert("pagetables"@.len() == 10);
    assert("sec_pagetables"@.len() == 14);
    assert("percpu"@.len() == 6);
    assert("sock"@.len() == 4);
    assert("vmalloc"@.len() == 7);
    assert("shmem"@.len() == 5);
    assert("zswap"@.len() == 5);
    assert("zswapped"@.len() == 8);
    assert("file_mapped"@.len() == 11);
    assert("file_dirty"@.len() == 10);
    assert("file_writeback"@.len() == 14);
    assert("swapcached"@.len() == 10);
    assert("anon_thp"@.len() == 8);
    assert("file_thp"@.len() == 8);
    assert("shmem_thp"@.len() == 9);
    assert("inactive_anon"@.len() == 13);
    assert("inactive_anon"@ != "anon"@);
    assert("inactive_anon"@ != "file"@);
    assert("inactive_anon"@ != "kernel"@);
    assert("inactive_anon"@ != "kernel_stack"@);
    assert("inactive_anon"@ != "pagetables"@);
    assert("inactive_anon"@ != "sec_pagetables"@);
    assert("inactive_anon"@ != "percpu"@);
    assert("inactive_anon"@ != "sock"@);
    assert("inactive_anon"@ != "vmalloc"@);
    assert("inactive_anon"@ != "shmem"@);
    assert("inactive_anon"@ != "zswap"@);
    assert("inactive_anon"@ != "zswapped"@);
    assert("inactive_anon"@ != "file_mapped"@);
    assert("inactive_anon"@ != "file_dirty"@);
    assert("inactive_anon"@ != "file_writeback"@);
    assert("inactive_anon"@ != "swapcached"@);
    assert("inactive_anon"@ != "anon_thp"@);
    assert("inactive_anon"@ != "file_thp"@);
    assert("inactive_anon"@ != "shmem_thp"@);
    assert(stat_field(a, "inactive_anon"@) == a.inactive_anon);
    assert(stat_field(b, "inactive_anon"@) == b.inactive_anon);
}

/// Field lookup under the key `active_anon` reads the `active_anon` field.
proof fn lemma_field_eq_active_anon(a: MemoryStat, b: MemoryStat)
    requires
        stat_field(a, "active_anon"@) == stat_field(b, "active_anon"@),
    ensures
        a.active_anon == b.active_anon,
{
    reveal_strlit("anon");
    reveal_strlit("file");
    reveal_strlit("kernel");
    reveal_strlit("kernel_stack");
    reveal_strlit("pagetables");
    reveal_strlit("sec_pagetables");
    reveal_strlit("percpu");
    reveal_strlit("sock");
    reveal_strlit("vmalloc");
    reveal_strlit("shmem");
    reveal_strlit("zswap");
    reveal_strlit("zswapped");
    reveal_strlit("file_mapped");
    reveal_strlit("file_dirty");
    reveal_strlit("file_writeback");
    reveal_strlit("swapcached");
    reveal_strlit("anon_thp");
    reveal_strlit("file_thp");
    reveal_strlit("shmem_thp");
    reveal_strlit("inactive_anon");
    reveal_strlit("active_anon");
    assert("anon"@.len() == 4);
    assert("file"@.len() == 4);
    assert("kernel"@.len() == 6);
    assert("kernel_stack"@.len() == 12);
    assert("pagetables"@.len() == 10);
    assert("sec_pagetables"@.len() == 14);
    assert("percpu"@.len() == 6);
    assert("sock"@.len() == 4);
    assert("vmalloc"@.len() == 7);
    assert("shmem"@.len() == 5);
    assert("zswap"@.len() == 5);
    assert("zswapped"@.len() == 8);
    assert("file_mapped"@.len() == 11);
    assert("file_dirty"@.len() == 10);
    assert("file_writeback"@.len() == 14);
    assert("swapcached"@.len() == 10);
    assert("anon_thp"@.len() == 8);
    assert("file_thp"@.len() == 8);
    assert("shmem_thp"@.len() == 9);
    assert("inactive_anon"@.len() == 13);
    assert("active_anon"@.len() == 11);
    assert("active_anon"@ != "anon"@);
    assert("active_anon"@ != "file"@);
    assert("active_anon"@ != "kernel"@);
    assert("active_anon"@ != "kernel_stack"@);
    assert("active_anon"@ != "pagetables"@);
    assert("active_anon"@ != "sec_pagetables"@);
    assert("active_anon"@ != "percpu"@);
    assert("active_anon"@ != "sock"@);
    assert("active_anon"@ != "vmalloc"@);
    assert("active_anon"@ != "shmem"@);
    assert("active_anon"@ != "zswap"@);
    assert("active_anon"@ != "zswapped"@);
    assert("active_anon"@[0] == 'a' && "file_mapped"@[0] == 'f');
    assert("active_anon"@ != "file_mapped"@);
    assert("active_anon"@ != "file_dirty"@);
    assert("active_anon"@ != "file_writeback"@);
    assert("active_anon"@ != "swapcached"@);
    assert("active_anon"@ != "anon_thp"@);
    assert("active_anon"@ != "file_thp"@);
    assert("active_anon"@ != "shmem_thp"@);
    assert("active_anon"@ != "inactive_anon"@);
    assert(stat_field(a, "active_anon"@) == a.active_anon);
    assert(stat_field(b, "active_anon"@) == b.active_anon);
}

/// Field lookup under the key `inactive_file` reads the `inactive_file` field.
proof fn lemma_field_eq_inactive_file(a: MemoryStat, b: MemoryStat)
    requires
        stat_field(a, "inactive_file"@) == stat_field(b, "inactive_file"@),
    ensures
        a.inactive_file == b.inactive_file,
{
    reveal_strlit("anon");
    reveal_strlit("file");
    reveal_strlit("kernel");
    reveal_strlit("kernel_stack");
    reveal_strlit("pagetables");
    reveal_strlit("sec_pagetables");
    reveal_strlit("percpu");
    reveal_strlit("sock");
    reveal_strlit("vmalloc");
    reveal_strlit("shmem");
    reveal_strlit("zswap");
    reveal_strlit("zswapped");
    reveal_strlit("file_mapped");
    reveal_strlit("file_dirty");
    reveal_strlit("file_writeback");
    reveal_strlit("swapcached");
    reveal_strlit("anon_thp");
    reveal_strlit("file_thp");
    reveal_strlit("shmem_thp");
    reveal_strlit("inactive_anon");
    reveal_strlit("active_anon");
    reveal_strlit("inactive_file");
    assert("anon"@.len() == 4);
    assert("file"@.len() == 4);
    assert("kernel"@.len() == 6);
    assert("kernel_stack"@.len() == 12);
    assert("pagetables"@.len() == 10);
    assert("sec_pagetables"@.len() == 14);
    assert("percpu"@.len() == 6);
    assert("sock"@.len() == 4);
    assert("vmalloc"@.len() == 7);
    assert("shmem"@.len() == 5);
    assert("zswap"@.len() == 5);
    assert("zswapped"@.len() == 8);
    assert("file_mapped"@.len() == 11);
    assert("file_dirty"@.len() == 10);
    assert("file_writeback"@.len() == 14);
    assert("swapcached"@.len() == 10);
    assert("anon_thp"@.len() == 8);
    assert("file_thp"@.len() == 8);
    assert("shmem_thp"@.len() == 9);
    assert("inactive_anon"@.len() == 13);
    assert("active_anon"@.len() == 11);
    assert("inactive_file"@.len() == 13);
    assert("inactive_file"@ != "anon"@);
    assert("inactive_file"@ != "file"@);
    assert("inactive_file"@ != "kernel"@);
    assert("inactive_file"@ != "kernel_stack"@);
    assert("inactive_file"@ != "pagetables"@);
    assert("inactive_file"@ != "sec_pagetables"@);
    assert("inactive_file"@ != "percpu"@);
    assert("inactive_file"@ != "sock"@);
    assert("inactive_file"@ != "vmalloc"@);
    assert("inactive_file"@ != "shmem"@);
    assert("inactive_file"@ != "zswap"@);
    assert("inactive_file"@ != "zswapped"@);
    assert("inactive_file"@ != "file_mapped"@);
    assert("inactive_file"@ != "file_dirty"@);
    assert("inactive_file"@ != "file_writeback"@);
    assert("inactive_file"@ != "swapcached"@);
    assert("inactive_file"@ != "anon_thp"@);
    assert("inactive_file"@ != "file_thp"@);
    assert("inactive_file"@ != "shmem_thp"@);
    assert("inactive_file"@[9] == 'f' && "inactive_anon"@[9] == 'a');
    assert("inactive_file"@ != "inactive_anon"@);
    assert("inactive_file"@ != "active_anon"@);
    assert(stat_field(a, "inactive_file"@) == a.inactive_file);
    assert(stat_field(b, "inactive_file"@) == b.inactive_file);
}

/// Field lookup under the key `active_file` reads the `active_file` field.
proof fn lemma_field_eq_active_file(a: MemoryStat, b: MemoryStat)
    requires
        stat_field(a, "active_file"@) == stat_field(b, "active_file"@),
    ensures
        a.active_file == b.active_file,
{
    reveal_strlit("anon");
    reveal_strlit("file");
    reveal_strlit("kernel");
    reveal_strlit("kernel_stack");
    reveal_strlit("pagetables");
    reveal_strlit("sec_pagetables");
    reveal_strlit("percpu");
    reveal_strlit("sock");
    reveal_strlit("vmalloc");
    reveal_strlit("shmem");
    reveal_strlit("zswap");
    reveal_strlit("zswapped");
    reveal_strlit("file_mapped");
    reveal_strlit("file_dirty");
    reveal_strlit("file_writeback");
    reveal_strlit("swapcached");
    reveal_strlit("anon_thp");
    reveal_strlit("file_thp");
    reveal_strlit("shmem_thp");
    reveal_strlit("inactive_anon");
    reveal_strlit("active_anon");
    reveal_strlit("inactive_file");
    reveal_strlit("active_file");
    assert("anon"@.len() == 4);
    assert("file"@.len() == 4);
    assert("kernel"@.len() == 6);
    assert("kernel_stack"@.len() == 12);
    assert("pagetables"@.len() == 10);
    assert("sec_pagetables"@.len() == 14);
    assert("percpu"@.len() == 6);
    assert("sock"@.len() == 4);
    assert("vmalloc"@.len() == 7);
    assert("shmem"@.len() == 5);
    assert("zswap"@.len() == 5);
    assert("zswapped"@.len() == 8);
    assert("file_mapped"@.len() == 11);
    assert("file_dirty"@.len() == 10);
    assert("file_writeback"@.len() == 14);
    assert("swapcached"@.len() == 10);
    assert("anon_thp"@.len() == 8);
    assert("file_thp"@.len() == 8);
    assert("shmem_thp"@.len() == 9);
    assert("inactive_anon"@.len() == 13);
    assert("active_anon"@.len() == 11);
    assert("inactive_file"@.len() == 13);
    assert("active_file"@.len() == 11);
    assert("active_file"@ != "anon"@);
    assert("active_file"@ != "file"@);
    assert("active_file"@ != "kernel"@);
    assert("active_file"@ != "kernel_stack"@);
    assert("active_file"@ != "pagetables"@);
    assert("active_file"@ != "sec_pagetables"@);
    assert("active_file"@ != "percpu"@);
    assert("active_file"@ != "sock"@);
    assert("active_file"@ != "vmalloc"@);
    assert("active_file"@ != "shmem"@);
    assert("active_file"@ != "zswap"@);
    assert("active_file"@ != "zswapped"@);
    assert("active_file"@[0] == 'a' && "file_mapped"@[0] == 'f');
    assert("active_file"@ != "file_mapped"@);
    assert("active_file"@ != "file_dirty"@);
    assert("active_file"@ != "file_writeback"@);
    assert("active_file"@ != "swapcached"@);
    assert("active_file"@ != "anon_thp"@);
    assert("active_file"@ != "file_thp"@);
    assert("active_file"@ != "shmem_thp"@);
    assert("active_file"@ != "inactive_anon"@);
    assert("active_file"@[7] == 'f' && "active_anon"@[7] == 'a');
    assert("active_file"@ != "active_anon"@);
    assert("active_file"@ != "inactive_file"@);
    assert(stat_field(a, "active_file"@) == a.active_file);
    assert(stat_field(b, "active_file"@) == b.active_file);
}

/// Field lookup under the key `unevictable` reads the `unevictable` field.
proof fn lemma_field_eq_unevictable(a: MemoryStat, b: MemoryStat)
    requires
        stat_field(a, "unevictable"@) == stat_field(b, "unevictable"@),
    ensures
        a.unevictable == b.unevictable,
{
    reveal_strlit("anon");
    reveal_strlit("file");
    reveal_strlit("kernel");
    reveal_strlit("kernel_stack");
    reveal_strlit("pagetables");
    reveal_strlit("sec_pagetables");
    reveal_strlit("percpu");
    reveal_strlit("sock");
    reveal_strlit("vmalloc");
    reveal_strlit("shmem");
    reveal_strlit("zswap");
    reveal_strlit("zswapped");
    reveal_strlit("file_mapped");
    reveal_strlit("file_dirty");
    reveal_strlit("file_writeback");
    reveal_strlit("swapcached");
    reveal_strlit("anon_thp");
    reveal_strlit("file_thp");
    reveal_strlit("shmem_thp");
    reveal_strlit("inactive_anon");
    reveal_strlit("active_anon");
    reveal_strlit("inactive_file");
    reveal_strlit("active_file");
    reveal_strlit("unevictable");
    assert("anon"@.len() == 4);
    assert("file"@.len() == 4);
    assert("kernel"@.len() == 6);
    assert("kernel_stack"@.len() == 12);
    assert("pagetables"@.len() == 10);
    assert("sec_pagetables"@.len() == 14);
    assert("percpu"@.len() == 6);
    assert("sock"@.len() == 4);
    assert("vmalloc"@.len() == 7);
    assert("shmem"@.len() == 5);
    assert("zswap"@.len() == 5);
    assert("zswapped"@.len() == 8);
    assert("file_mapped"@.len() == 11);
    assert("file_dirty"@.len() == 10);
    assert("file_writeback"@.len() == 14);
    assert("swapcached"@.len() == 10);
    assert("anon_thp"@.len() == 8);
    assert("file_thp"@.len() == 8);
    assert("shmem_thp"@.len() == 9);
    assert("inactive_anon"@.len() == 13);
    assert("active_anon"@.len() == 11);
    assert("inactive_file"@.len() == 13);
    assert("active_file"@.len() == 11);
    assert("unevictable"@.len() == 11);
    assert("unevictable"@ != "anon"@);
    assert("unevictable"@ != "file"@);
    assert("unevictable"@ != "kernel"@);
    assert("unevictable"@ != "kernel_stack"@);
    assert("unevictable"@ != "pagetables"@);
    assert("unevictable"@ != "sec_pagetables"@);
    assert("unevictable"@ != "percpu"@);
    assert("unevictable"@ != "sock"@);
    assert("unevictable"@ != "vmalloc"@);
    assert("unevictable"@ != "shmem"@);
    assert("unevictable"@ != "zswap"@);
    assert("unevictable"@ != "zswapped"@);
    assert("unevictable"@[0] == 'u' && "file_mapped"@[0] == 'f');
    assert("unevictable"@ != "file_mapped"@);
    assert("unevictable"@ != "file_dirty"@);
    assert("unevictable"@ != "file_writeback"@);
    assert("unevictable"@ != "swapcached"@);
    assert("unevictable"@ != "anon_thp"@);
    assert("unevictable"@ != "file_thp"@);
    assert("unevictable"@ != "shmem_thp"@);
    assert("unevictable"@ != "inactive_anon"@);
    assert("unevictable"@[0] == 'u' && "active_anon"@[0] == 'a');
    assert("unevictable"@ != "active_anon"@);
    assert("unevictable"@ != "inactive_file"@);
    assert("unevictable"@[0] == 'u' && "active_file"@[0] == 'a');
    assert("unevictable"@ != "active_file"@);
    assert(stat_field(a, "unevictable"@) == a.unevictable);
    assert(stat_field(b, "unevictable"@) == b.unevictable);
}

/// Field lookup under the key `slab_reclaimable` reads the `slab_reclaimable` field.
proof fn lemma_field_eq_slab_reclaimable(a: MemoryStat, b: MemoryStat)
    requires
        stat_field(a, "slab_reclaimable"@) == stat_field(b, "slab_reclaimable"@),
    ensures
        a.slab_reclaimable == b.slab_reclaimable,
{
    reveal_strlit("anon");
    reveal_strlit("file");
    reveal_strlit("kernel");
    reveal_strlit("kernel_stack");
    reveal_strlit("pagetables");
    reveal_strlit("sec_pagetables");
    reveal_strlit("percpu");
    reveal_strlit("sock");
    reveal_strlit("vmalloc");
    reveal_strlit("shmem");
    reveal_strlit("zswap");
    reveal_strlit("zswapped");
    reveal_strlit("file_mapped");
    reveal_strlit("file_dirty");
    reveal_strlit("file_writeback");
    reveal_strlit("swapcached");
    reveal_strlit("anon_thp");
    reveal_strlit("file_thp");
    reveal_strlit("shmem_thp");
    reveal_strlit("inactive_anon");
    reveal_strlit("active_anon");
    reveal_strlit("inactive_file");
    reveal_strlit("active_file");
    reveal_strlit("unevictable");
    reveal_strlit("slab_reclaimable");
    assert("anon"@.len() == 4);
    assert("file"@.len() == 4);
    assert("kernel"@.len() == 6);
    assert("kernel_stack"@.len() == 12);
    assert("pagetables"@.len() == 10);
    assert("sec_pagetables"@.len() == 14);
    assert("percpu"@.len() == 6);
    assert("sock"@.len() == 4);
    assert("vmalloc"@.len() == 7);
    assert("shmem"@.len() == 5);
    assert("zswap"@.len() == 5);
    assert("zswapped"@.len() == 8);
    assert("file_mapped"@.len() == 11);
    assert("file_dirty"@.len() == 10);
    assert("file_writeback"@.len() == 14);
    assert("swapcached"@.len() == 10);
    assert("anon_thp"@.len() == 8);
    assert("file_thp"@.len() == 8);
    assert("shmem_thp"@.len() == 9);
    assert("inactive_anon"@.len() == 13);
    assert("active_anon"@.len() == 11);
    assert("inactive_file"@.len() == 13);
    assert("active_file"@.len() == 11);
    assert("unevictable"@.len() == 11);
    assert("slab_reclaimable"@.len() == 16);
    assert("slab_reclaimable"@ != "anon"@);
    assert("slab_reclaimable"@ != "file"@);
    assert("slab_reclaimable"@ != "kernel"@);
    assert("slab_reclaimable"@ != "kernel_stack"@);
    assert("slab_reclaimable"@ != "pagetables"@);
    assert("slab_reclaimable"@ != "sec_pagetables"@);
    assert("slab_reclaimable"@ != "percpu"@);
    assert("slab_reclaimable"@ != "sock"@);
    assert("slab_reclaimable"@ != "vmalloc"@);
    assert("slab_reclaimable"@ != "shmem"@);
    assert("slab_reclaimable"@ != "zswap"@);
    assert("slab_reclaimable"@ != "zswapped"@);
    assert("slab_reclaimable"@ != "file_mapped"@);
    assert("slab_reclaimable"@ != "file_dirty"@);
    assert("slab_reclaimable"@ != "file_writeback"@);
    assert("slab_reclaimable"@ != "swapcached"@);
    assert("slab_reclaimable"@ != "anon_thp"@);
    assert("slab_reclaimable"@ != "file_thp"@);
    assert("slab_reclaimable"@ != "shmem_thp"@);
    assert("slab_reclaimable"@ != "inactive_anon"@);
    assert("slab_reclaimable"@ != "active_anon"@);
    assert("slab_reclaimable"@ != "inactive_file"@);
    assert("slab_reclaimable"@ != "active_file"@);
    assert("slab_reclaimable"@ != "unevictable"@);
    assert(stat_field(a, "slab_reclaimable"@) == a.slab_reclaimable);
    assert(stat_field(b, "slab_reclaimable"@) == b.slab_reclaimable);
}

/// Field lookup under the key `slab_unreclaimable` reads the `slab_unreclaimable` field.
proof fn lemma_field_eq_slab_unreclaimable(a: MemoryStat, b: MemoryStat)
    requires
        stat_field(a, "slab_unreclaimable"@) == stat_field(b, "slab_unreclaimable"@),
    ensures
        a.slab_unreclaimable == b.slab_unreclaimable,
{
    reveal_strlit("anon");
    reveal_strlit("file");
    reveal_strlit("kernel");
    reveal_strlit("kernel_stack");
    reveal_strlit("pagetables");
    reveal_strlit("sec_pagetables");
    reveal_strlit("percpu");
    reveal_strlit("sock");
    reveal_strlit("vmalloc");
    reveal_strlit("shmem");
    reveal_strlit("zswap");
    reveal_strlit("zswapped");
    reveal_strlit("file_mapped");
    reveal_strlit("file_dirty");
    reveal_strlit("file_writeback");
    reveal_strlit("swapcached");
    reveal_strlit("anon_thp");
    reveal_strlit("file_thp");
    reveal_strlit("shmem_thp");
    reveal_strlit("inactive_anon");
    reveal_strlit("active_anon");
    reveal_strlit("inactive_file");
    reveal_strlit("active_file");
    reveal_strlit("unevictable");
    reveal_strlit("slab_reclaimable");
    reveal_strlit("slab_unreclaimable");
    assert("anon"@.len() == 4);
    assert("file"@.len() == 4);
    assert("kernel"@.len() == 6);
    assert("kernel_stack"@.len() == 12);
    assert("pagetables"@.len() == 10);
    assert("sec_pagetables"@.len() == 14);
    assert("percpu"@.len() == 6);
    assert("sock"@.len() == 4);
    assert("vmalloc"@.len() == 7);
    assert("shmem"@.len() == 5);
    assert("zswap"@.len() == 5);
    assert("zswapped"@.len() == 8);
    assert("file_mapped"@.len() == 11);
    assert("file_dirty"@.len() == 10);
    assert("file_writeback"@.len() == 14);
    assert("swapcached"@.len() == 10);
    assert("anon_thp"@.len() == 8);
    assert("file_thp"@.len() == 8);
    assert("shmem_thp"@.len() == 9);
    assert("inactive_anon"@.len() == 13);
    assert("active_anon"@.len() == 11);
    assert("inactive_file"@.len() == 13);
    assert("active_file"@.len() == 11);
    assert("unevictable"@.len() == 11);
    assert("slab_reclaimable"@.len() == 16);
    assert("slab_unreclaimable"@.len() == 18);
    assert("slab_unreclaimable"@ != "anon"@);
    assert("slab_unreclaimable"@ != "file"@);
    assert("slab_unreclaimable"@ != "kernel"@);
    assert("slab_unreclaimable"@ != "kernel_stack"@);
    assert("slab_unreclaimable"@ != "pagetables"@);
    assert("slab_unreclaimable"@ != "sec_pagetables"@);
    assert("slab_unreclaimable"@ != "percpu"@);
    assert("slab_unreclaimable"@ != "sock"@);
    assert("slab_unreclaimable"@ != "vmalloc"@);
    assert("slab_unreclaimable"@ != "shmem"@);
    assert("slab_unreclaimable"@ != "zswap"@);
    assert("slab_unreclaimable"@ != "zswapped"@);
    assert("slab_unreclaimable"@ != "file_mapped"@);
    assert("slab_unreclaimable"@ != "file_dirty"@);
    assert("slab_unreclaimable"@ != "file_writeback"@);
    assert("slab_unreclaimable"@ != "swapcached"@);
    assert("slab_unreclaimable"@ != "anon_thp"@);
    assert("slab_unreclaimable"@ != "file_thp"@);
    assert("slab_unreclaimable"@ != "shmem_thp"@);
    assert("slab_unreclaimable"@ != "inactive_anon"@);
    assert("slab_unreclaimable"@ != "active_anon"@);
    assert("slab_unreclaimable"@ != "inactive_file"@);
    assert("slab_unreclaimable"@ != "active_file"@);
    assert("slab_unreclaimable"@ != "unevictable"@);
    assert("slab_unreclaimable"@ != "slab_reclaimable"@);
    assert(stat_field(a, "slab_unreclaimable"@) == a.slab_unreclaimable);
    assert(stat_field(b, "slab_unreclaimable"@) == b.slab_unreclaimable);
}

/// Field lookup under the key `slab` reads the `slab` field.
proof fn lemma_field_eq_slab(a: MemoryStat, b: MemoryStat)
    requires
        stat_field(a, "slab"@) == stat_field(b, "slab"@),
    ensures
        a.slab == b.slab,
{
    reveal_strlit("anon");
    reveal_strlit("file");
    reveal_strlit("kernel");
    reveal_strlit("kernel_stack");
    reveal_strlit("pagetables");
    reveal_strlit("sec_pagetables");
    reveal_strlit("percpu");
    reveal_strlit("sock");
    reveal_strlit("vmalloc");
    reveal_strlit("shmem");
    reveal_strlit("zswap");
    reveal_strlit("zswapped");
    reveal_strlit("file_mapped");
    reveal_strlit("file_dirty");
    reveal_strlit("file_writeback");
    reveal_strlit("swapcached");
    reveal_strlit("anon_thp");
    reveal_strlit("file_thp");
    reveal_strlit("shmem_thp");
    reveal_strlit("inactive_anon");
    reveal_strlit("active_anon");
    reveal_strlit("inactive_file");
    reveal_strlit("active_file");
    reveal_strlit("unevictable");
    reveal_strlit("slab_reclaimable");
    reveal_strlit("slab_unreclaimable");
    reveal_strlit("slab");
    assert("anon"@.len() == 4);
    assert("file"@.len() == 4);
    assert("kernel"@.len() == 6);
    assert("kernel_stack"@.len() == 12);
    assert("pagetables"@.len() == 10);
    assert("sec_pagetables"@.len() == 14);
    assert("percpu"@.len() == 6);
    assert("sock"@.len() == 4);
    assert("vmalloc"@.len() == 7);
    assert("shmem"@.len() == 5);
    assert("zswap"@.len() == 5);
    assert("zswapped"@.len() == 8);
    assert("file_mapped"@.len() == 11);
    assert("file_dirty"@.len() == 10);
    assert("file_writeback"@.len() == 14);
    assert("swapcached"@.len() == 10);
    assert("anon_thp"@.len() == 8);
    assert("file_thp"@.len() == 8);
    assert("shmem_thp"@.len() == 9);
    assert("inactive_anon"@.len() == 13);
    assert("active_anon"@.len() == 11);
    assert("inactive_file"@.len() == 13);
    assert("active_file"@.len() == 11);
    assert("unevictable"@.len() == 11);
    assert("slab_reclaimable"@.len() == 16);
    assert("slab_unreclaimable"@.len() == 18);
    assert("slab"@.len() == 4);
    assert("slab"@[0] == 's' && "anon"@[0] == 'a');
    assert("slab"@ != "anon"@);
    assert("slab"@[0] == 's' && "file"@[0] == 'f');
    assert("slab"@ != "file"@);
    assert("slab"@ != "kernel"@);
    assert("slab"@ != "kernel_stack"@);
    assert("slab"@ != "pagetables"@);
    assert("slab"@ != "sec_pagetables"@);
    assert("slab"@ != "percpu"@);
    assert("slab"@[1] == 'l' && "sock"@[1] == 'o');
    assert("slab"@ != "sock"@);
    assert("slab"@ != "vmalloc"@);
    assert("slab"@ != "shmem"@);
    assert("slab"@ != "zswap"@);
    assert("slab"@ != "zswapped"@);
    assert("slab"@ != "file_mapped"@);
    assert("slab"@ != "file_dirty"@);
    assert("slab"@ != "file_writeback"@);
    assert("slab"@ != "swapcached"@);
    assert("slab"@ != "anon_thp"@);
    assert("slab"@ != "file_thp"@);
    assert("slab"@ != "shmem_thp"@);
    assert("slab"@ != "inactive_anon"@);
    assert("slab"@ != "active_anon"@);
    assert("slab"@ != "inactive_file"@);
    assert("slab"@ != "active_file"@);
    assert("slab"@ != "unevictable"@);
    assert("slab"@ != "slab_reclaimable"@);
    assert("slab"@ != "slab_unreclaimable"@);
    assert(stat_field(a, "slab"@) == a.slab);
    assert(stat_field(b, "slab"@) == b.slab);
}

/// Field lookup under the key `workingset_refault_anon` reads the `workingset_refault_anon` field.
proof fn lemma_field_eq_workingset_refault_anon(a: MemoryStat, b: MemoryStat)
    requires
        stat_field(a, "workingset_refault_anon"@) == stat_field(b, "workingset_refault_anon"@),
    ensures
        a.workingset_refault_anon == b.workingset_refault_anon,
{
    reveal_strlit("anon");
    reveal_strlit("file");
    reveal_strlit("kernel");
    reveal_strlit("kernel_stack");
    reveal_strlit("pagetables");
    reveal_strlit("sec_pagetables");
    reveal_strlit("percpu");
    reveal_strlit("sock");
    reveal_strlit("vmalloc");
    reveal_strlit("shmem");
    reveal_strlit("zswap");
    reveal_strlit("zswapped");
    reveal_strlit("file_mapped");
    reveal_strlit("file_dirty");
    reveal_strlit("file_writeback");
    reveal_strlit("swapcached");
    reveal_strlit("anon_thp");
    reveal_strlit("file_thp");
    reveal_strlit("shmem_thp");
    reveal_strlit("inactive_anon");
    reveal_strlit("active_anon");
    reveal_strlit("inactive_file");
    reveal_strlit("active_file");
    reveal_strlit("unevictable");
    reveal_strlit("slab_reclaimable");
    reveal_strlit("slab_unreclaimable");
    reveal_strlit("slab");
    reveal_strlit("workingset_refault_anon");
    assert("anon"@.len() == 4);
    assert("file"@.len() == 4);
    assert("kernel"@.len() == 6);
    assert("kernel_stack"@.len() == 12);
    assert("pagetables"@.len() == 10);
    assert("sec_pagetables"@.len() == 14);
    assert("percpu"@.len() == 6);
    assert("sock"@.len() == 4);
    assert("vmalloc"@.len() == 7);
    assert("shmem"@.len() == 5);
    assert("zswap"@.len() == 5);
    assert("zswapped"@.len() == 8);
    assert("file_mapped"@.len() == 11);
    assert("file_dirty"@.len() == 10);
    assert("file_writeback"@.len() == 14);
    assert("swapcached"@.len() == 10);
    assert("anon_thp"@.len() == 8);
    assert("file_thp"@.len() == 8);
    assert("shmem_thp"@.len() == 9);
    assert("inactive_anon"@.len() == 13);
    assert("active_anon"@.len() == 11);
    assert("inactive_file"@.len() == 13);
    assert("active_file"@.len() == 11);
    assert("unevictable"@.len() == 11);
    assert("slab_reclaimable"@.len() == 16);
    assert("slab_unreclaimable"@.len() == 18);
    assert("slab"@.len() == 4);
    assert("workingset_refault_anon"@.len() == 23);
    assert("workingset_refault_anon"@ != "anon"@);
    assert("workingset_refault_anon"@ != "file"@);
    assert("workingset_refault_anon"@ != "kernel"@);
    assert("workingset_refault_anon"@ != "kernel_stack"@);
    assert("workingset_refault_anon"@ != "pagetables"@);
    assert("workingset_refault_anon"@ != "sec_pagetables"@);
    assert("workingset_refault_anon"@ != "percpu"@);
    assert("workingset_refault_anon"@ != "sock"@);
    assert("workingset_refault_anon"@ != "vmalloc"@);
    assert("workingset_refault_anon"@ != "shmem"@);
    assert("workingset_refault_anon"@ != "zswap"@);
    assert("workingset_refault_anon"@ != "zswapped"@);
    assert("workingset_refault_anon"@ != "file_mapped"@);
    assert("workingset_refault_anon"@ != "file_dirty"@);
    assert("workingset_refault_anon"@ != "file_writeback"@);
    assert("workingset_refault_anon"@ != "swapcached"@);
    assert("workingset_refault_anon"@ != "anon_thp"@);
    assert("workingset_refault_anon"@ != "file_thp"@);
    assert("workingset_refault_anon"@ != "shmem_thp"@);
    assert("workingset_refault_anon"@ != "inactive_anon"@);
    assert("workingset_refault_anon"@ != "active_anon"@);
    assert("workingset_refault_anon"@ != "inactive_file"@);
    assert("workingset_refault_anon"@ != "active_file"@);
    assert("workingset_refault_anon"@ != "unevictable"@);
    assert("workingset_refault_anon"@ != "slab_reclaimable"@);
    assert("workingset_refault_anon"@ != "slab_unreclaimable"@);
    assert("workingset_refault_anon"@ != "slab"@);
    assert(stat_field(a, "workingset_refault_anon"@) == a.workingset_refault_anon);
    assert(stat_field(b, "workingset_refault_anon"@) == b.workingset_refault_anon);
}

/// Field lookup under the key `workingset_refault_file` reads the `workingset_refault_file` field.
proof fn lemma_field_eq_workingset_refault_file(a: MemoryStat, b: MemoryStat)
    requires
        stat_field(a, "workingset_refault_file"@) == stat_field(b, "workingset_refault_file"@),
    ensures
        a.workingset_refault_file == b.workingset_refault_file,
{
    reveal_strlit("anon");
    reveal_strlit("file");
    reveal_strlit("kernel");
    reveal_strlit("kernel_stack");
    reveal_strlit("pagetables");
    reveal_strlit("sec_pagetables");
    reveal_strlit("percpu");
    reveal_strlit("sock");
    reveal_strlit("vmalloc");
    reveal_strlit("shmem");
    reveal_strlit("zswap");
    reveal_strlit("zswapped");
    reveal_strlit("file_mapped");
    reveal_strlit("file_dirty");
    reveal_strlit("file_writeback");
    reveal_strlit("swapcached");
    reveal_strlit("anon_thp");
    reveal_strlit("file_thp");
    reveal_strlit("shmem_thp");
    reveal_strlit("inactive_anon");
    reveal_strlit("active_anon");
    reveal_strlit("inactive_file");
    reveal_strlit("active_file");
    reveal_strlit("unevictable");
    reveal_strlit("slab_reclaimable");
    reveal_strlit("slab_unreclaimable");
    reveal_strlit("slab");
    reveal_strlit("workingset_refault_anon");
    reveal_strlit("workingset_refault_file");
    assert("anon"@.len() == 4);
    assert("file"@.len() == 4);
    assert("kernel"@.len() == 6);
    assert("kernel_stack"@.len() == 12);
    assert("pagetables"@.len() == 10);
    assert("sec_pagetables"@.len() == 14);
    assert("percpu"@.len() == 6);
    assert("sock"@.len() == 4);
    assert("vmalloc"@.len() == 7);
    assert("shmem"@.len() == 5);
    assert("zswap"@.len() == 5);
    assert("zswapped"@.len() == 8);
    assert("file_mapped"@.len() == 11);
    assert("file_dirty"@.len() == 10);
    assert("file_writeback"@.len() == 14);
    assert("swapcached"@.len() == 10);
    assert("anon_thp"@.len() == 8);
    assert("file_thp"@.len() == 8);
    assert("shmem_thp"@.len() == 9);
    assert("inactive_anon"@.len() == 13);
    assert("active_anon"@.len() == 11);
    assert("inactive_file"@.len() == 13);
    assert("active_file"@.len() == 11);
    assert("unevictable"@.len() == 11);
    assert("slab_reclaimable"@.len() == 16);
    assert("slab_unreclaimable"@.len() == 18);
    assert("slab"@.len() == 4);
    assert("workingset_refault_anon"@.len() == 23);
    assert("workingset_refault_file"@.len() == 23);
    assert("workingset_refault_file"@ != "anon"@);
    assert("workingset_refault_file"@ != "file"@);
    assert("workingset_refault_file"@ != "kernel"@);
    assert("workingset_refault_file"@ != "kernel_stack"@);
    assert("workingset_refault_file"@ != "pagetables"@);
    assert("workingset_refault_file"@ != "sec_pagetables"@);
    assert("workingset_refault_file"@ != "percpu"@);
    assert("workingset_refault_file"@ != "sock"@);
    assert("workingset_refault_file"@ != "vmalloc"@);
    assert("workingset_refault_file"@ != "shmem"@);
    assert("workingset_refault_file"@ != "zswap"@);
    assert("workingset_refault_file"@ != "zswapped"@);
    assert("workingset_refault_file"@ != "file_mapped"@);
    assert("workingset_refault_file"@ != "file_dirty"@);
    assert("workingset_refault_file"@ != "file_writeback"@);
    assert("workingset_refault_file"@ != "swapcached"@);
    assert("workingset_refault_file"@ != "anon_thp"@);
    assert("workingset_refault_file"@ != "file_thp"@);
    assert("workingset_refault_file"@ != "shmem_thp"@);
    assert("workingset_refault_file"@ != "inactive_anon"@);
    assert("workingset_refault_file"@ != "active_anon"@);
    assert("workingset_refault_file"@ != "inactive_file"@);
    assert("workingset_refault_file"@ != "active_file"@);
    assert("workingset_refault_file"@ != "unevictable"@);
    assert("workingset_refault_file"@ != "slab_reclaimable"@);
    assert("workingset_refault_file"@ != "slab_unreclaimable"@);
    assert("workingset_refault_file"@ != "slab"@);
    assert("workingset_refault_file"@[19] == 'f' && "workingset_refault_anon"@[19] == 'a');
    assert("workingset_refault_file"@ != "workingset_refault_anon"@);
    assert(stat_field(a, "workingset_refault_file"@) == a.workingset_refault_file);
    assert(stat_field(b, "workingset_refault_file"@) == b.workingset_refault_file);
}

/// Field lookup under the key `workingset_activate_anon` reads the `workingset_activate_anon` field.
proof fn lemma_field_eq_workingset_activate_anon(a: MemoryStat, b: MemoryStat)
    requires
        stat_field(a, "workingset_activate_anon"@) == stat_field(b, "workingset_activate_anon"@),
    ensures
        a.workingset_activate_anon == b.workingset_activate_anon,
{
    reveal_strlit("anon");
    reveal_strlit("file");
    reveal_strlit("kernel");
    reveal_strlit("kernel_stack");
    reveal_strlit("pagetables");
    reveal_strlit("sec_pagetables");
    reveal_strlit("percpu");
    reveal_strlit("sock");
    reveal_strlit("vmalloc");
    reveal_strlit("shmem");
    reveal_strlit("zswap");
    reveal_strlit("zswapped");
    reveal_strlit("file_mapped");
    reveal_strlit("file_dirty");
    reveal_strlit("file_writeback");
    reveal_strlit("swapcached");
    reveal_strlit("anon_thp");
    reveal_strlit("file_thp");
    reveal_strlit("shmem_thp");
    reveal_strlit("inactive_anon");
    reveal_strlit("active_anon");
    reveal_strlit("inactive_file");
    reveal_strlit("active_file");
    reveal_strlit("unevictable");
    reveal_strlit("slab_reclaimable");
    reveal_strlit("slab_unreclaimable");
    reveal_strlit("slab");
    reveal_strlit("workingset_refault_anon");
    reveal_strlit("workingset_refault_file");
    reveal_strlit("workingset_activate_anon");
    assert("anon"@.len() == 4);
    assert("file"@.len() == 4);
    assert("kernel"@.len() == 6);
    assert("kernel_stack"@.len() == 12);
    assert("pagetables"@.len() == 10);
    assert("sec_pagetables"@.len() == 14);
    assert("percpu"@.len() == 6);
    assert("sock"@.len() == 4);
    assert("vmalloc"@.len() == 7);
    assert("shmem"@.len() == 5);
    assert("zswap"@.len() == 5);
    assert("zswapped"@.len() == 8);
    assert("file_mapped"@.len() == 11);
    assert("file_dirty"@.len() == 10);
    assert("file_writeback"@.len() == 14);
    assert("swapcached"@.len() == 10);
    assert("anon_thp"@.len() == 8);
    assert("file_thp"@.len() == 8);
    assert("shmem_thp"@.len() == 9);
    assert("inactive_anon"@.len() == 13);
    assert("active_anon"@.len() == 11);
    assert("inactive_file"@.len() == 13);
    assert("active_file"@.len() == 11);
    assert("unevictable"@.len() == 11);
    assert("slab_reclaimable"@.len() == 16);
    assert("slab_unreclaimable"@.len() == 18);
    assert("slab"@.len() == 4);
    assert("workingset_refault_anon"@.len() == 23);
    assert("workingset_refault_file"@.len() == 23);
    assert("workingset_activate_anon"@.len() == 24);
    assert("workingset_activate_anon"@ != "anon"@);
    assert("workingset_activate_anon"@ != "file"@);
    assert("workingset_activate_anon"@ != "kernel"@);
    assert("workingset_activate_anon"@ != "kernel_stack"@);
    assert("workingset_activate_anon"@ != "pagetables"@);
    assert("workingset_activate_anon"@ != "sec_pagetables"@);
    assert("workingset_activate_anon"@ != "percpu"@);
    assert("workingset_activate_anon"@ != "sock"@);
    assert("workingset_activate_anon"@ != "vmalloc"@);
    assert("workingset_activate_anon"@ != "shmem"@);
    assert("workingset_activate_anon"@ != "zswap"@);
    assert("workingset_activate_anon"@ != "zswapped"@);
    assert("workingset_activate_anon"@ != "file_mapped"@);
    assert("workingset_activate_anon"@ != "file_dirty"@);
    assert("workingset_activate_anon"@ != "file_writeback"@);
    assert("workingset_activate_anon"@ != "swapcached"@);
    assert("workingset_activate_anon"@ != "anon_thp"@);
    assert("workingset_activate_anon"@ != "file_thp"@);
    assert("workingset_activate_anon"@ != "shmem_thp"@);
    assert("workingset_activate_anon"@ != "inactive_anon"@);
    assert("workingset_activate_anon"@ != "active_anon"@);
    assert("workingset_activate_anon"@ != "inactive_file"@);
    assert("workingset_activate_anon"@ != "active_file"@);
    assert("workingset_activate_anon"@ != "unevictable"@);
    assert("workingset_activate_anon"@ != "slab_reclaimable"@);
    assert("workingset_activate_anon"@ != "slab_unreclaimable"@);
    assert("workingset_activate_anon"@ != "slab"@);
    assert("workingset_activate_anon"@ != "workingset_refault_anon"@);
    assert("workingset_activate_anon"@ != "workingset_refault_file"@);
    assert(stat_field(a, "workingset_activate_anon"@) == a.workingset_activate_anon);
    assert(stat_field(b, "workingset_activate_anon"@) == b.workingset_activate_anon);
}

/// Field lookup under the key `workingset_activate_file` reads the `workingset_activate_file` field.
proof fn lemma_field_eq_workingset_activate_file(a: MemoryStat, b: MemoryStat)
    requires
        stat_field(a, "workingset_activate_file"@) == stat_field(b, "workingset_activate_file"@),
    ensures
        a.workingset_activate_file == b.workingset_activate_file,
{
    reveal_strlit("anon");
    reveal_strlit("file");
    reveal_strlit("kernel");
    reveal_strlit("kernel_stack");
    reveal_strlit("pagetables");
    reveal_strlit("sec_pagetables");
    reveal_strlit("percpu");
    reveal_strlit("sock");
    reveal_strlit("vmalloc");
    reveal_strlit("shmem");
    reveal_strlit("zswap");
    reveal_strlit("zswapped");
    reveal_strlit("file_mapped");
    reveal_strlit("file_dirty");
    reveal_strlit("file_writeback");
    reveal_strlit("swapcached");
    reveal_strlit("anon_thp");
    reveal_strlit("file_thp");
    reveal_strlit("shmem_thp");
    reveal_strlit("inactive_anon");
    reveal_strlit("active_anon");
    reveal_strlit("inactive_file");
    reveal_strlit("active_file");
    reveal_strlit("unevictable");
    reveal_strlit("slab_reclaimable");
    reveal_strlit("slab_unreclaimable");
    reveal_strlit("slab");
    reveal_strlit("workingset_refault_anon");
    reveal_strlit("workingset_refault_file");
    reveal_strlit("workingset_activate_anon");
    reveal_strlit("workingset_activate_file");
    assert("anon"@.len() == 4);
    assert("file"@.len() == 4);
    assert("kernel"@.len() == 6);
    assert("kernel_stack"@.len() == 12);
    assert("pagetables"@.len() == 10);
    assert("sec_pagetables"@.len() == 14);
    assert("percpu"@.len() == 6);
    assert("sock"@.len() == 4);
    assert("vmalloc"@.len() == 7);
    assert("shmem"@.len() == 5);
    assert("zswap"@.len() == 5);
    assert("zswapped"@.len() == 8);
    assert("file_mapped"@.len() == 11);
    assert("file_dirty"@.len() == 10);
    assert("file_writeback"@.len() == 14);
    assert("swapcached"@.len() == 10);
    assert("anon_thp"@.len() == 8);
    assert("file_thp"@.len() == 8);
    assert("shmem_thp"@.len() == 9);
    assert("inactive_anon"@.len() == 13);
    assert("active_anon"@.len() == 11);
    assert("inactive_file"@.len() == 13);
    assert("active_file"@.len() == 11);
    assert("unevictable"@.len() == 11);
    assert("slab_reclaimable"@.len() == 16);
    assert("slab_unreclaimable"@.len() == 18);
    assert("slab"@.len() == 4);
    assert("workingset_refault_anon"@.len() == 23);
    assert("workingset_refault_file"@.len() == 23);
    assert("workingset_activate_anon"@.len() == 24);
    assert("workingset_activate_file"@.len() == 24);
    assert("workingset_activate_file"@ != "anon"@);
    assert("workingset_activate_file"@ != "file"@);
    assert("workingset_activate_file"@ != "kernel"@);
    assert("workingset_activate_file"@ != "kernel_stack"@);
    assert("workingset_activate_file"@ != "pagetables"@);
    assert("workingset_activate_file"@ != "sec_pagetables"@);
    assert("workingset_activate_file"@ != "percpu"@);
    assert("workingset_activate_file"@ != "sock"@);
    assert("workingset_activate_file"@ != "vmalloc"@);
    assert("workingset_activate_file"@ != "shmem"@);
    assert("workingset_activate_file"@ != "zswap"@);
    assert("workingset_activate_file"@ != "zswapped"@);
    assert("workingset_activate_file"@ != "file_mapped"@);
    assert("workingset_activate_file"@ != "file_dirty"@);
    assert("workingset_activate_file"@ != "file_writeback"@);
    assert("workingset_activate_file"@ != "swapcached"@);
    assert("workingset_activate_file"@ != "anon_thp"@);
    assert("workingset_activate_file"@ != "file_thp"@);
    assert("workingset_activate_file"@ != "shmem_thp"@);
    assert("workingset_activate_file"@ != "inactive_anon"@);
    assert("workingset_activate_file"@ != "active_anon"@);
    assert("workingset_activate_file"@ != "inactive_file"@);
    assert("workingset_activate_file"@ != "active_file"@);
    assert("workingset_activate_file"@ != "unevictable"@);
    assert("workingset_activate_file"@ != "slab_reclaimable"@);
    assert("workingset_activate_file"@ != "slab_unreclaimable"@);
    assert("workingset_activate_file"@ != "slab"@);
    assert("workingset_activate_file"@ != "workingset_refault_anon"@);
    assert("workingset_activate_file"@ != "workingset_refault_file"@);
    assert("workingset_activate_file"@[20] == 'f' && "workingset_activate_anon"@[20] == 'a');
    assert("workingset_activate_file"@ != "workingset_activate_anon"@);
    assert(stat_field(a, "workingset_activate_file"@) == a.workingset_activate_file);
    assert(stat_field(b, "workingset_activate_file"@) == b.workingset_activate_file);
}

/// Field lookup under the key `workingset_restore_anon` reads the `workingset_restore_anon` field.
proof fn lemma_field_eq_workingset_restore_anon(a: MemoryStat, b: MemoryStat)
    requires
        stat_field(a, "workingset_restore_anon"@) == stat_field(b, "workingset_restore_anon"@),
    ensures
        a.workingset_restore_anon == b.workingset_restore_anon,
{
    reveal_strlit("anon");
    reveal_strlit("file");
    reveal_strlit("kernel");
    reveal_strlit("kernel_stack");
    reveal_strlit("pagetables");
    reveal_strlit("sec_pagetables");
    reveal_strlit("percpu");
    reveal_strlit("sock");
    reveal_strlit("vmalloc");
    reveal_strlit("shmem");
    reveal_strlit("zswap");
    reveal_strlit("zswapped");
    reveal_strlit("file_mapped");
    reveal_strlit("file_dirty");
    reveal_strlit("file_writeback");
    reveal_strlit("swapcached");
    reveal_strlit("anon_thp");
    reveal_strlit("file_thp");
    reveal_strlit("shmem_thp");
    reveal_strlit("inactive_anon");
    reveal_strlit("active_anon");
    reveal_strlit("inactive_file");
    reveal_strlit("active_file");
    reveal_strlit("unevictable");
    reveal_strlit("slab_reclaimable");
    reveal_strlit("slab_unreclaimable");
    reveal_strlit("slab");
    reveal_strlit("workingset_refault_anon");
    reveal_strlit("workingset_refault_file");
    reveal_strlit("workingset_activate_anon");
    reveal_strlit("workingset_activate_file");
    reveal_strlit("workingset_restore_anon");
    assert("anon"@.len() == 4);
    assert("file"@.len() == 4);
    assert("kernel"@.len() == 6);
    assert("kernel_stack"@.len() == 12);
    assert("pagetables"@.len() == 10);
    assert("sec_pagetables"@.len() == 14);
    assert("percpu"@.len() == 6);
    assert("sock"@.len() == 4);
    assert("vmalloc"@.len() == 7);
    assert("shmem"@.len() == 5);
    assert("zswap"@.len() == 5);
    assert("zswapped"@.len() == 8);
    assert("file_mapped"@.len() == 11);
    assert("file_dirty"@.len() == 10);
    assert("file_writeback"@.len() == 14);
    assert("swapcached"@.len() == 10);
    assert("anon_thp"@.len() == 8);
    assert("file_thp"@.len() == 8);
    assert("shmem_thp"@.len() == 9);
    assert("inactive_anon"@.len() == 13);
    assert("active_anon"@.len() == 11);
    assert("inactive_file"@.len() == 13);
    assert("active_file"@.len() == 11);
    assert("unevictable"@.len() == 11);
    assert("slab_reclaimable"@.len() == 16);
    assert("slab_unreclaimable"@.len() == 18);
    assert("slab"@.len() == 4);
    assert("workingset_refault_anon"@.len() == 23);
    assert("workingset_refault_file"@.len() == 23);
    assert("workingset_activate_anon"@.len() == 24);
    assert("workingset_activate_file"@.len() == 24);
    assert("workingset_restore_anon"@.len() == 23);
    assert("workingset_restore_anon"@ != "anon"@);
    assert("workingset_restore_anon"@ != "file"@);
    assert("workingset_restore_anon"@ != "kernel"@);
    assert("workingset_restore_anon"@ != "kernel_stack"@);
    assert("workingset_restore_anon"@ != "pagetables"@);
    assert("workingset_restore_anon"@ != "sec_pagetables"@);
    assert("workingset_restore_anon"@ != "percpu"@);
    assert("workingset_restore_anon"@ != "sock"@);
    assert("workingset_restore_anon"@ != "vmalloc"@);
    assert("workingset_restore_anon"@ != "shmem"@);
    assert("workingset_restore_anon"@ != "zswap"@);
    assert("workingset_restore_anon"@ != "zswapped"@);
    assert("workingset_restore_anon"@ != "file_mapped"@);
    assert("workingset_restore_anon"@ != "file_dirty"@);
    assert("workingset_restore_anon"@ != "file_writeback"@);
    assert("workingset_restore_anon"@ != "swapcached"@);
    assert("workingset_restore_anon"@ != "anon_thp"@);
    assert("workingset_restore_anon"@ != "file_thp"@);
    assert("workingset_restore_anon"@ != "shmem_thp"@);
    assert("workingset_restore_anon"@ != "inactive_anon"@);
    assert("workingset_restore_anon"@ != "active_anon"@);
    assert("workingset_restore_anon"@ != "inactive_file"@);
    assert("workingset_restore_anon"@ != "active_file"@);
    assert("workingset_restore_anon"@ != "unevictable"@);
    assert("workingset_restore_anon"@ != "slab_reclaimable"@);
    assert("workingset_restore_anon"@ != "slab_unreclaimable"@);
    assert("workingset_restore_anon"@ != "slab"@);
    assert("workingset_restore_anon"@[13] == 's' && "workingset_refault_anon"@[13] == 'f');
    assert("workingset_restore_anon"@ != "workingset_refault_anon"@);
    assert("workingset_restore_anon"@[13] == 's' && "workingset_refault_file"@[13] == 'f');
    assert("workingset_restore_anon"@ != "workingset_refault_file"@);
    assert("workingset_restore_anon"@ != "workingset_activate_anon"@);
    assert("workingset_restore_anon"@ != "workingset_activate_file"@);
    assert(stat_field(a, "workingset_restore_anon"@) == a.workingset_restore_anon);
    assert(stat_field(b, "workingset_restore_anon"@) == b.workingset_restore_anon);
}

/// Field lookup under the key `workingset_restore_file` reads the `workingset_restore_file` field.
proof fn lemma_field_eq_workingset_restore_file(a: MemoryStat, b: MemoryStat)
    requires
        stat_field(a, "workingset_restore_file"@) == stat_field(b, "workingset_restore_file"@),
    ensures
        a.workingset_restore_file == b.workingset_restore_file,
{
    reveal_strlit("anon");
    reveal_strlit("file");
    reveal_strlit("kernel");
    reveal_strlit("kernel_stack");
    reveal_strlit("pagetables");
    reveal_strlit("sec_pagetables");
    reveal_strlit("percpu");
    reveal_strlit("sock");
    reveal_strlit("vmalloc");
    reveal_strlit("shmem");
    reveal_strlit("zswap");
    reveal_strlit("zswapped");
    reveal_strlit("file_mapped");
    reveal_strlit("file_dirty");
    reveal_strlit("file_writeback");
    reveal_strlit("swapcached");
    reveal_strlit("anon_thp");
    reveal_strlit("file_thp");
    reveal_strlit("shmem_thp");
    reveal_strlit("inactive_anon");
    reveal_strlit("active_anon");
    reveal_strlit("inactive_file");
    reveal_strlit("active_file");
    reveal_strlit("unevictable");
    reveal_strlit("slab_reclaimable");
    reveal_strlit("slab_unreclaimable");
    reveal_strlit("slab");
    reveal_strlit("workingset_refault_anon");
    reveal_strlit("workingset_refault_file");
    reveal_strlit("workingset_activate_anon");
    reveal_strlit("workingset_activate_file");
    reveal_strlit("workingset_restore_anon");
    reveal_strlit("workingset_restore_file");
    assert("anon"@.len() == 4);
    assert("file"@.len() == 4);
    assert("kernel"@.len() == 6);
    assert("kernel_stack"@.len() == 12);
    assert("pagetables"@.len() == 10);
    assert("sec_pagetables"@.len() == 14);
    assert("percpu"@.len() == 6);
    assert("sock"@.len() == 4);
    assert("vmalloc"@.len() == 7);
    assert("shmem"@.len() == 5);
    assert("zswap"@.len() == 5);
    assert("zswapped"@.len() == 8);
    assert("file_mapped"@.len() == 11);
    assert("file_dirty"@.len() == 10);
    assert("file_writeback"@.len() == 14);
    assert("swapcached"@.len() == 10);
    assert("anon_thp"@.len() == 8);
    assert("file_thp"@.len() == 8);
    assert("shmem_thp"@.len() == 9);
    assert("inactive_anon"@.len() == 13);
    assert("active_anon"@.len() == 11);
    assert("inactive_file"@.len() == 13);
    assert("active_file"@.len() == 11);
    assert("unevictable"@.len() == 11);
    assert("slab_reclaimable"@.len() == 16);
    assert("slab_unreclaimable"@.len() == 18);
    assert("slab"@.len() == 4);
    assert("workingset_refault_anon"@.len() == 23);
    assert("workingset_refault_file"@.len() == 23);
    assert("workingset_activate_anon"@.len() == 24);
    assert("workingset_activate_file"@.len() == 24);
    assert("workingset_restore_anon"@.len() == 23);
    assert("workingset_restore_file"@.len() == 23);
    assert("workingset_restore_file"@ != "anon"@);
    assert("workingset_restore_file"@ != "file"@);
    assert("workingset_restore_file"@ != "kernel"@);
    assert("workingset_restore_file"@ != "kernel_stack"@);
    assert("workingset_restore_file"@ != "pagetables"@);
    assert("workingset_restore_file"@ != "sec_pagetables"@);
    assert("workingset_restore_file"@ != "percpu"@);
    assert("workingset_restore_file"@ != "sock"@);
    assert("workingset_restore_file"@ != "vmalloc"@);
    assert("workingset_restore_file"@ != "shmem"@);
    assert("workingset_restore_file"@ != "zswap"@);
    assert("workingset_restore_file"@ != "zswapped"@);
    assert("workingset_restore_file"@ != "file_mapped"@);
    assert("workingset_restore_file"@ != "file_dirty"@);
    assert("workingset_restore_file"@ != "file_writeback"@);
    assert("workingset_restore_file"@ != "swapcached"@);
    assert("workingset_restore_file"@ != "anon_thp"@);
    assert("workingset_restore_file"@ != "file_thp"@);
    assert("workingset_restore_file"@ != "shmem_thp"@);
    assert("workingset_restore_file"@ != "inactive_anon"@);
    assert("workingset_restore_file"@ != "active_anon"@);
    assert("workingset_restore_file"@ != "inactive_file"@);
    assert("workingset_restore_file"@ != "active_file"@);
    assert("workingset_restore_file"@ != "unevictable"@);
    assert("workingset_restore_file"@ != "slab_reclaimable"@);
    assert("workingset_restore_file"@ != "slab_unreclaimable"@);
    assert("workingset_restore_file"@ != "slab"@);
    assert("workingset_restore_file"@[13] == 's' && "workingset_refault_anon"@[13] == 'f');
    assert("workingset_restore_file"@ != "workingset_refault_anon"@);
    assert("workingset_restore_file"@[13] == 's' && "workingset_refault_file"@[13] == 'f');
    assert("workingset_restore_file"@ != "workingset_refault_file"@);
    assert("workingset_restore_file"@ != "workingset_activate_anon"@);
    assert("workingset_restore_file"@ != "workingset_activate_file"@);
    assert("workingset_restore_file"@[19] == 'f' && "workingset_restore_anon"@[19] == 'a');
    assert("workingset_restore_file"@ != "workingset_restore_anon"@);
    assert(stat_field(a, "workingset_restore_file"@) == a.workingset_restore_file);
    assert(stat_field(b, "workingset_restore_file"@) == b.workingset_restore_file);
}

/// Field lookup under the key `workingset_nodereclaim` reads the `workingset_nodereclaim` field.
proof fn lemma_field_eq_workingset_nodereclaim(a: MemoryStat, b: MemoryStat)
    requires
        stat_field(a, "workingset_nodereclaim"@) == stat_field(b, "workingset_nodereclaim"@),
    ensures
        a.workingset_nodereclaim == b.workingset_nodereclaim,
{
    reveal_strlit("anon");
    reveal_strlit("file");
    reveal_strlit("kernel");
    reveal_strlit("kernel_stack");
    reveal_strlit("pagetables");
    reveal_strlit("sec_pagetables");
    reveal_strlit("percpu");
    reveal_strlit("sock");
    reveal_strlit("vmalloc");
    reveal_strlit("shmem");
    reveal_strlit("zswap");
    reveal_strlit("zswapped");
    reveal_strlit("file_mapped");
    reveal_strlit("file_dirty");
    reveal_strlit("file_writeback");
    reveal_strlit("swapcached");
    reveal_strlit("anon_thp");
    reveal_strlit("file_thp");
    reveal_strlit("shmem_thp");
    reveal_strlit("inactive_anon");
    reveal_strlit("active_anon");
    reveal_strlit("inactive_file");
    reveal_strlit("active_file");
    reveal_strlit("unevictable");
    reveal_strlit("slab_reclaimable");
    reveal_strlit("slab_unreclaimable");
    reveal_strlit("slab");
    reveal_strlit("workingset_refault_anon");
    reveal_strlit("workingset_refault_file");
    reveal_strlit("workingset_activate_anon");
    reveal_strlit("workingset_activate_file");
    reveal_strlit("workingset_restore_anon");
    reveal_strlit("workingset_restore_file");
    reveal_strlit("workingset_nodereclaim");
    assert("anon"@.len() == 4);
    assert("file"@.len() == 4);
    assert("kernel"@.len() == 6);
    assert("kernel_stack"@.len() == 12);
    assert("pagetables"@.len() == 10);
    assert("sec_pagetables"@.len() == 14);
    assert("percpu"@.len() == 6);
    assert("sock"@.len() == 4);
    assert("vmalloc"@.len() == 7);
    assert("shmem"@.len() == 5);
    assert("zswap"@.len() == 5);
    assert("zswapped"@.len() == 8);
    assert("file_mapped"@.len() == 11);
    assert("file_dirty"@.len() == 10);
    assert("file_writeback"@.len() == 14);
    assert("swapcached"@.len() == 10);
    assert("anon_thp"@.len() == 8);
    assert("file_thp"@.len() == 8);
    assert("shmem_thp"@.len() == 9);
    assert("inactive_anon"@.len() == 13);
    assert("active_anon"@.len() == 11);
    assert("inactive_file"@.len() == 13);
    assert("active_file"@.len() == 11);
    assert("unevictable"@.len() == 11);
    assert("slab_reclaimable"@.len() == 16);
    assert("slab_unreclaimable"@.len() == 18);
    assert("slab"@.len() == 4);
    assert("workingset_refault_anon"@.len() == 23);
    assert("workingset_refault_file"@.len() == 23);
    assert("workingset_activate_anon"@.len() == 24);
    assert("workingset_activate_file"@.len() == 24);
    assert("workingset_restore_anon"@.len() == 23);
    assert("workingset_restore_file"@.len() == 23);
    assert("workingset_nodereclaim"@.len() == 22);
    assert("workingset_nodereclaim"@ != "anon"@);
    assert("workingset_nodereclaim"@ != "file"@);
    assert("workingset_nodereclaim"@ != "kernel"@);
    assert("workingset_nodereclaim"@ != "kernel_stack"@);
    assert("workingset_nodereclaim"@ != "pagetables"@);
    assert("workingset_nodereclaim"@ != "sec_pagetables"@);
    assert("workingset_nodereclaim"@ != "percpu"@);
    assert("workingset_nodereclaim"@ != "sock"@);
    assert("workingset_nodereclaim"@ != "vmalloc"@);
    assert("workingset_nodereclaim"@ != "shmem"@);
    assert("workingset_nodereclaim"@ != "zswap"@);
    assert("workingset_nodereclaim"@ != "zswapped"@);
    assert("workingset_nodereclaim"@ != "file_mapped"@);
    assert("workingset_nodereclaim"@ != "file_dirty"@);
    assert("workingset_nodereclaim"@ != "file_writeback"@);
    assert("workingset_nodereclaim"@ != "swapcached"@);
    assert("workingset_nodereclaim"@ != "anon_thp"@);
    assert("workingset_nodereclaim"@ != "file_thp"@);
    assert("workingset_nodereclaim"@ != "shmem_thp"@);
    assert("workingset_nodereclaim"@ != "inactive_anon"@);
    assert("workingset_nodereclaim"@ != "active_anon"@);
    assert("workingset_nodereclaim"@ != "inactive_file"@);
    assert("workingset_nodereclaim"@ != "active_file"@);
    assert("workingset_nodereclaim"@ != "unevictable"@);
    assert("workingset_nodereclaim"@ != "slab_reclaimable"@);
    assert("workingset_nodereclaim"@ != "slab_unreclaimable"@);
    assert("workingset_nodereclaim"@ != "slab"@);
    assert("workingset_nodereclaim"@ != "workingset_refault_anon"@);
    assert("workingset_nodereclaim"@ != "workingset_refault_file"@);
    assert("workingset_nodereclaim"@ != "workingset_activate_anon"@);
    assert("workingset_nodereclaim"@ != "workingset_activate_file"@);
    assert("workingset_nodereclaim"@ != "workingset_restore_anon"@);
    assert("workingset_nodereclaim"@ != "workingset_restore_file"@);
    assert(stat_field(a, "workingset_nodereclaim"@) == a.workingset_nodereclaim);
    assert(stat_field(b, "workingset_nodereclaim"@) == b.workingset_nodereclaim);
}

/// Field lookup under the key `pgscan` reads the `pgscan` field.
proof fn lemma_field_eq_pgscan(a: MemoryStat, b: MemoryStat)
    requires
        stat_field(a, "pgscan"@) == stat_field(b, "pgscan"@),
    ensures
        a.pgscan == b.pgscan,
{
    reveal_strlit("anon");
    reveal_strlit("file");
    reveal_strlit("kernel");
    reveal_strlit("kernel_stack");
    reveal_strlit("pagetables");
    reveal_strlit("sec_pagetables");
    reveal_strlit("percpu");
    reveal_strlit("sock");
    reveal_strlit("vmalloc");
    reveal_strlit("shmem");
    reveal_strlit("zswap");
    reveal_strlit("zswapped");
    reveal_strlit("file_mapped");
    reveal_strlit("file_dirty");
    reveal_strlit("file_writeback");
    reveal_strlit("swapcached");
    reveal_strlit("anon_thp");
    reveal_strlit("file_thp");
    reveal_strlit("shmem_thp");
    reveal_strlit("inactive_anon");
    reveal_strlit("active_anon");
    reveal_strlit("inactive_file");
    reveal_strlit("active_file");
    reveal_strlit("unevictable");
    reveal_strlit("slab_reclaimable");
    reveal_strlit("slab_unreclaimable");
    reveal_strlit("slab");
    reveal_strlit("workingset_refault_anon");
    reveal_strlit("workingset_refault_file");
    reveal_strlit("workingset_activate_anon");
    reveal_strlit("workingset_activate_file");
    reveal_strlit("workingset_restore_anon");
    reveal_strlit("workingset_restore_file");
    reveal_strlit("workingset_nodereclaim");
    reveal_strlit("pgscan");
    assert("anon"@.len() == 4);
    assert("file"@.len() == 4);
    assert("kernel"@.len() == 6);
    assert("kernel_stack"@.len() == 12);
    assert("pagetables"@.len() == 10);
    assert("sec_pagetables"@.len() == 14);
    assert("percpu"@.len() == 6);
    assert("sock"@.len() == 4);
    assert("vmalloc"@.len() == 7);
    assert("shmem"@.len() == 5);
    assert("zswap"@.len() == 5);
    assert("zswapped"@.len() == 8);
    assert("file_mapped"@.len() == 11);
    assert("file_dirty"@.len() == 10);
    assert("file_writeback"@.len() == 14);
    assert("swapcached"@.len() == 10);
    assert("anon_thp"@.len() == 8);
    assert("file_thp"@.len() == 8);
    assert("shmem_thp"@.len() == 9);
    assert("inactive_anon"@.len() == 13);
    assert("active_anon"@.len() == 11);
    assert("inactive_file"@.len() == 13);
    assert("active_file"@.len() == 11);
    assert("unevictable"@.len() == 11);
    assert("slab_reclaimable"@.len() == 16);
    assert("slab_unreclaimable"@.len() == 18);
    assert("slab"@.len() == 4);
    assert("workingset_refault_anon"@.len() == 23);
    assert("workingset_refault_file"@.len() == 23);
    assert("workingset_activate_anon"@.len() == 24);
    assert("workingset_activate_file"@.len() == 24);
    assert("workingset_restore_anon"@.len() == 23);
    assert("workingset_restore_file"@.len() == 23);
    assert("workingset_nodereclaim"@.len() == 22);
    assert("pgscan"@.len() == 6);
    assert("pgscan"@ != "anon"@);
    assert("pgscan"@ != "file"@);
    assert("pgscan"@[0] == 'p' && "kernel"@[0] == 'k');
    assert("pgscan"@ != "kernel"@);
    assert("pgscan"@ != "kernel_stack"@);
    assert("pgscan"@ != "pagetables"@);
    assert("pgscan"@ != "sec_pagetables"@);
    assert("pgscan"@[1] == 'g' && "percpu"@[1] == 'e');
    assert("pgscan"@ != "percpu"@);
    assert("pgscan"@ != "sock"@);
    assert("pgscan"@ != "vmalloc"@);
    assert("pgscan"@ != "shmem"@);
    assert("pgscan"@ != "zswap"@);
    assert("pgscan"@ != "zswapped"@);
    assert("pgscan"@ != "file_mapped"@);
    assert("pgscan"@ != "file_dirty"@);
    assert("pgscan"@ != "file_writeback"@);
    assert("pgscan"@ != "swapcached"@);
    assert("pgscan"@ != "anon_thp"@);
    assert("pgscan"@ != "file_thp"@);
    assert("pgscan"@ != "shmem_thp"@);
    assert("pgscan"@ != "inactive_anon"@);
    assert("pgscan"@ != "active_anon"@);
    assert("pgscan"@ != "inactive_file"@);
    assert("pgscan"@ != "active_file"@);
    assert("pgscan"@ != "unevictable"@);
    assert("pgscan"@ != "slab_reclaimable"@);
    assert("pgscan"@ != "slab_unreclaimable"@);
    assert("pgscan"@ != "slab"@);
    assert("pgscan"@ != "workingset_refault_anon"@);
    assert("pgscan"@ != "workingset_refault_file"@);
    assert("pgscan"@ != "workingset_activate_anon"@);
    assert("pgscan"@ != "workingset_activate_file"@);
    assert("pgscan"@ != "workingset_restore_anon"@);
    assert("pgscan"@ != "workingset_restore_file"@);
    assert("pgscan"@ != "workingset_nodereclaim"@);
    assert(stat_field(a, "pgscan"@) == a.pgscan);
    assert(stat_field(b, "pgscan"@) == b.pgscan);
}

/// Field lookup under the key `pgsteal` reads the `pgsteal` field.
proof fn lemma_field_eq_pgsteal(a: MemoryStat, b: MemoryStat)
    requires
        stat_field(a, "pgsteal"@) == stat_field(b, "pgsteal"@),
    ensures
        a.pgsteal == b.pgsteal,
{
    reveal_strlit("anon");
    reveal_strlit("file");
    reveal_strlit("kernel");
    reveal_strlit("kernel_stack");
    reveal_strlit("pagetables");
    reveal_strlit("sec_pagetables");
    reveal_strlit("percpu");
    reveal_strlit("sock");
    reveal_strlit("vmalloc");
    reveal_strlit("shmem");
    reveal_strlit("zswap");
    reveal_strlit("zswapped");
    reveal_strlit("file_mapped");
    reveal_strlit("file_dirty");
    reveal_strlit("file_writeback");
    reveal_strlit("swapcached");
    reveal_strlit("anon_thp");
    reveal_strlit("file_thp");
    reveal_strlit("shmem_thp");
    reveal_strlit("inactive_anon");
    reveal_strlit("active_anon");
    reveal_strlit("inactive_file");
    reveal_strlit("active_file");
    reveal_strlit("unevictable");
    reveal_strlit("slab_reclaimable");
    reveal_strlit("slab_unreclaimable");
    reveal_strlit("slab");
    reveal_strlit("workingset_refault_anon");
    reveal_strlit("workingset_refault_file");
    reveal_strlit("workingset_activate_anon");
    reveal_strlit("workingset_activate_file");
    reveal_strlit("workingset_restore_anon");
    reveal_strlit("workingset_restore_file");
    reveal_strlit("workingset_nodereclaim");
    reveal_strlit("pgscan");
    reveal_strlit("pgsteal");
    assert("anon"@.len() == 4);
    assert("file"@.len() == 4);
    assert("kernel"@.len() == 6);
    assert("kernel_stack"@.len() == 12);
    assert("pagetables"@.len() == 10);
    assert("sec_pagetables"@.len() == 14);
    assert("percpu"@.len() == 6);
    assert("sock"@.len() == 4);
    assert("vmalloc"@.len() == 7);
    assert("shmem"@.len() == 5);
    assert("zswap"@.len() == 5);
    assert("zswapped"@.len() == 8);
    assert("file_mapped"@.len() == 11);
    assert("file_dirty"@.len() == 10);
    assert("file_writeback"@.len() == 14);
    assert("swapcached"@.len() == 10);
    assert("anon_thp"@.len() == 8);
    assert("file_thp"@.len() == 8);
    assert("shmem_thp"@.len() == 9);
    assert("inactive_anon"@.len() == 13);
    assert("active_anon"@.len() == 11);
    assert("inactive_file"@.len() == 13);
    assert("active_file"@.len() == 11);
    assert("unevictable"@.len() == 11);
    assert("slab_reclaimable"@.len() == 16);
    assert("slab_unreclaimable"@.len() == 18);
    assert("slab"@.len() == 4);
    assert("workingset_refault_anon"@.len() == 23);
    assert("workingset_refault_file"@.len() == 23);
    assert("workingset_activate_anon"@.len() == 24);
    assert("workingset_activate_file"@.len() == 24);
    assert("workingset_restore_anon"@.len() == 23);
    assert("workingset_restore_file"@.len() == 23);
    assert("workingset_nodereclaim"@.len() == 22);
    assert("pgscan"@.len() == 6);
    assert("pgsteal"@.len() == 7);
    assert("pgsteal"@ != "anon"@);
    assert("pgsteal"@ != "file"@);
    assert("pgsteal"@ != "kernel"@);
    assert("pgsteal"@ != "kernel_stack"@);
    assert("pgsteal"@ != "pagetables"@);
    assert("pgsteal"@ != "sec_pagetables"@);
    assert("pgsteal"@ != "percpu"@);
    assert("pgsteal"@ != "sock"@);
    assert("pgsteal"@[0] == 'p' && "vmalloc"@[0] == 'v');
    assert("pgsteal"@ != "vmalloc"@);
    assert("pgsteal"@ != "shmem"@);
    assert("pgsteal"@ != "zswap"@);
    assert("pgsteal"@ != "zswapped"@);
    assert("pgsteal"@ != "file_mapped"@);
    assert("pgsteal"@ != "file_dirty"@);
    assert("pgsteal"@ != "file_writeback"@);
    assert("pgsteal"@ != "swapcached"@);
    assert("pgsteal"@ != "anon_thp"@);
    assert("pgsteal"@ != "file_thp"@);
    assert("pgsteal"@ != "shmem_thp"@);
    assert("pgsteal"@ != "inactive_anon"@);
    assert("pgsteal"@ != "active_anon"@);
    assert("pgsteal"@ != "inactive_file"@);
    assert("pgsteal"@ != "active_file"@);
    assert("pgsteal"@ != "unevictable"@);
    assert("pgsteal"@ != "slab_reclaimable"@);
    assert("pgsteal"@ != "slab_unreclaimable"@);
    assert("pgsteal"@ != "slab"@);
    assert("pgsteal"@ != "workingset_refault_anon"@);
    assert("pgsteal"@ != "workingset_refault_file"@);
    assert("pgsteal"@ != "workingset_activate_anon"@);
    assert("pgsteal"@ != "workingset_activate_file"@);
    assert("pgsteal"@ != "workingset_restore_anon"@);
    assert("pgsteal"@ != "workingset_restore_file"@);
    assert("pgsteal"@ != "workingset_nodereclaim"@);
    assert("pgsteal"@ != "pgscan"@);
    assert(stat_field(a, "pgsteal"@) == a.pgsteal);
    assert(stat_field(b, "pgsteal"@) == b.pgsteal);
}

/// Field lookup under the key `pgscan_kswapd` reads the `pgscan_kswapd` field.
proof fn lemma_field_eq_pgscan_kswapd(a: MemoryStat, b: MemoryStat)
    requires
        stat_field(a, "pgscan_kswapd"@) == stat_field(b, "pgscan_kswapd"@),
    ensures
        a.pgscan_kswapd == b.pgscan_kswapd,
{
    reveal_strlit("anon");
    reveal_strlit("file");
    reveal_strlit("kernel");
    reveal_strlit("kernel_stack");
    reveal_strlit("pagetables");
    reveal_strlit("sec_pagetables");
    reveal_strlit("percpu");
    reveal_strlit("sock");
    reveal_strlit("vmalloc");
    reveal_strlit("shmem");
    reveal_strlit("zswap");
    reveal_strlit("zswapped");
    reveal_strlit("file_mapped");
    reveal_strlit("file_dirty");
    reveal_strlit("file_writeback");
    reveal_strlit("swapcached");
    reveal_strlit("anon_thp");
    reveal_strlit("file_thp");
    reveal_strlit("shmem_thp");
    reveal_strlit("inactive_anon");
    reveal_strlit("active_anon");
    reveal_strlit("inactive_file");
    reveal_strlit("active_file");
    reveal_strlit("unevictable");
    reveal_strlit("slab_reclaimable");
    reveal_strlit("slab_unreclaimable");
    reveal_strlit("slab");
    reveal_strlit("workingset_refault_anon");
    reveal_strlit("workingset_refault_file");
    reveal_strlit("workingset_activate_anon");
    reveal_strlit("workingset_activate_file");
    reveal_strlit("workingset_restore_anon");
    reveal_strlit("workingset_restore_file");
    reveal_strlit("workingset_nodereclaim");
    reveal_strlit("pgscan");
    reveal_strlit("pgsteal");
    reveal_strlit("pgscan_kswapd");
    assert("anon"@.len() == 4);
    assert("file"@.len() == 4);
    assert("kernel"@.len() == 6);
    assert("kernel_stack"@.len() == 12);
    assert("pagetables"@.len() == 10);
    assert("sec_pagetables"@.len() == 14);
    assert("percpu"@.len() == 6);
    assert("sock"@.len() == 4);
    assert("vmalloc"@.len() == 7);
    assert("shmem"@.len() == 5);
    assert("zswap"@.len() == 5);
    assert("zswapped"@.len() == 8);
    assert("file_mapped"@.len() == 11);
    assert("file_dirty"@.len() == 10);
    assert("file_writeback"@.len() == 14);
    assert("swapcached"@.len() == 10);
    assert("anon_thp"@.len() == 8);
    assert("file_thp"@.len() == 8);
    assert("shmem_thp"@.len() == 9);
    assert("inactive_anon"@.len() == 13);
    assert("active_anon"@.len() == 11);
    assert("inactive_file"@.len() == 13);
    assert("active_file"@.len() == 11);
    assert("unevictable"@.len() == 11);
    assert("slab_reclaimable"@.len() == 16);
    assert("slab_unreclaimable"@.len() == 18);
    assert("slab"@.len() == 4);
    assert("workingset_refault_anon"@.len() == 23);
    assert("workingset_refault_file"@.len() == 23);
    assert("workingset_activate_anon"@.len() == 24);
    assert("workingset_activate_file"@.len() == 24);
    assert("workingset_restore_anon"@.len() == 23);
    assert("workingset_restore_file"@.len() == 23);
    assert("workingset_nodereclaim"@.len() == 22);
    assert("pgscan"@.len() == 6);
    assert("pgsteal"@.len() == 7);
    assert("pgscan_kswapd"@.len() == 13);
    assert("pgscan_kswapd"@ != "anon"@);
    assert("pgscan_kswapd"@ != "file"@);
    assert("pgscan_kswapd"@ != "kernel"@);
    assert("pgscan_kswapd"@ != "kernel_stack"@);
    assert("pgscan_kswapd"@ != "pagetables"@);
    assert("pgscan_kswapd"@ != "sec_pagetables"@);
    assert("pgscan_kswapd"@ != "percpu"@);
    assert("pgscan_kswapd"@ != "sock"@);
    assert("pgscan_kswapd"@ != "vmalloc"@);
    assert("pgscan_kswapd"@ != "shmem"@);
    assert("pgscan_kswapd"@ != "zswap"@);
    assert("pgscan_kswapd"@ != "zswapped"@);
    assert("pgscan_kswapd"@ != "file_mapped"@);
    assert("pgscan_kswapd"@ != "file_dirty"@);
    assert("pgscan_kswapd"@ != "file_writeback"@);
    assert("pgscan_kswapd"@ != "swapcached"@);
    assert("pgscan_kswapd"@ != "anon_thp"@);
    assert("pgscan_kswapd"@ != "file_thp"@);
    assert("pgscan_kswapd"@ != "shmem_thp"@);
    assert("pgscan_kswapd"@[0] == 'p' && "inactive_anon"@[0] == 'i');
    assert("pgscan_kswapd"@ != "inactive_anon"@);
    assert("pgscan_kswapd"@ != "active_anon"@);
    assert("pgscan_kswapd"@[0] == 'p' && "inactive_file"@[0] == 'i');
    assert("pgscan_kswapd"@ != "inactive_file"@);
    assert("pgscan_kswapd"@ != "active_file"@);
    assert("pgscan_kswapd"@ != "unevictable"@);
    assert("pgscan_kswapd"@ != "slab_reclaimable"@);
    assert("pgscan_kswapd"@ != "slab_unreclaimable"@);
    assert("pgscan_kswapd"@ != "slab"@);
    assert("pgscan_kswapd"@ != "workingset_refault_anon"@);
    assert("pgscan_kswapd"@ != "workingset_refault_file"@);
    assert("pgscan_kswapd"@ != "workingset_activate_anon"@);
    assert("pgscan_kswapd"@ != "workingset_activate_file"@);
    assert("pgscan_kswapd"@ != "workingset_restore_anon"@);
    assert("pgscan_kswapd"@ != "workingset_restore_file"@);
    assert("pgscan_kswapd"@ != "workingset_nodereclaim"@);
    assert("pgscan_kswapd"@ != "pgscan"@);
    assert("pgscan_kswapd"@ != "pgsteal"@);
    assert(stat_field(a, "pgscan_kswapd"@) == a.pgscan_kswapd);
    assert(stat_field(b, "pgscan_kswapd"@) == b.pgscan_kswapd);
}

/// Field lookup under the key `pgscan_direct` reads the `pgscan_direct` field.
proof fn lemma_field_eq_pgscan_direct(a: MemoryStat, b: MemoryStat)
    requires
        stat_field(a, "pgscan_direct"@) == stat_field(b, "pgscan_direct"@),
    ensures
        a.pgscan_direct == b.pgscan_direct,
{
    reveal_strlit("anon");
    reveal_strlit("file");
    reveal_strlit("kernel");
    reveal_strlit("kernel_stack");
    reveal_strlit("pagetables");
    reveal_strlit("sec_pagetables");
    reveal_strlit("percpu");
    reveal_strlit("sock");
    reveal_strlit("vmalloc");
    reveal_strlit("shmem");
    reveal_strlit("zswap");
    reveal_strlit("zswapped");
    reveal_strlit("file_mapped");
    reveal_strlit("file_dirty");
    reveal_strlit("file_writeback");
    reveal_strlit("swapcached");
    reveal_strlit("anon_thp");
    reveal_strlit("file_thp");
    reveal_strlit("shmem_thp");
    reveal_strlit("inactive_anon");
    reveal_strlit("active_anon");
    reveal_strlit("inactive_file");
    reveal_strlit("active_file");
    reveal_strlit("unevictable");
    reveal_strlit("slab_reclaimable");
    reveal_strlit("slab_unreclaimable");
    reveal_strlit("slab");
    reveal_strlit("workingset_refault_anon");
    reveal_strlit("workingset_refault_file");
    reveal_strlit("workingset_activate_anon");
    reveal_strlit("workingset_activate_file");
    reveal_strlit("workingset_restore_anon");
    reveal_strlit("workingset_restore_file");
    reveal_strlit("workingset_nodereclaim");
    reveal_strlit("pgscan");
    reveal_strlit("pgsteal");
    reveal_strlit("pgscan_kswapd");
    reveal_strlit("pgscan_direct");
    assert("anon"@.len() == 4);
    assert("file"@.len() == 4);
    assert("kernel"@.len() == 6);
    assert("kernel_stack"@.len() == 12);
    assert("pagetables"@.len() == 10);
    assert("sec_pagetables"@.len() == 14);
    assert("percpu"@.len() == 6);
    assert("sock"@.len() == 4);
    assert("vmalloc"@.len() == 7);
    assert("shmem"@.len() == 5);
    assert("zswap"@.len() == 5);
    assert("zswapped"@.len() == 8);
    assert("file_mapped"@.len() == 11);
    assert("file_dirty"@.len() == 10);
    assert("file_writeback"@.len() == 14);
    assert("swapcached"@.len() == 10);
    assert("anon_thp"@.len() == 8);
    assert("file_thp"@.len() == 8);
    assert("shmem_thp"@.len() == 9);
    assert("inactive_anon"@.len() == 13);
    assert("active_anon"@.len() == 11);
    assert("inactive_file"@.len() == 13);
    assert("active_file"@.len() == 11);
    assert("unevictable"@.len() == 11);
    assert("slab_reclaimable"@.len() == 16);
    assert("slab_unreclaimable"@.len() == 18);
    assert("slab"@.len() == 4);
    assert("workingset_refault_anon"@.len() == 23);
    assert("workingset_refault_file"@.len() == 23);
    assert("workingset_activate_anon"@.len() == 24);
    assert("workingset_activate_file"@.len() == 24);
    assert("workingset_restore_anon"@.len() == 23);
    assert("workingset_restore_file"@.len() == 23);
    assert("workingset_nodereclaim"@.len() == 22);
    assert("pgscan"@.len() == 6);
    assert("pgsteal"@.len() == 7);
    assert("pgscan_kswapd"@.len() == 13);
    assert("pgscan_direct"@.len() == 13);
    assert("pgscan_direct"@ != "anon"@);
    assert("pgscan_direct"@ != "file"@);
    assert("pgscan_direct"@ != "kernel"@);
    assert("pgscan_direct"@ != "kernel_stack"@);
    assert("pgscan_direct"@ != "pagetables"@);
    assert("pgscan_direct"@ != "sec_pagetables"@);
    assert("pgscan_direct"@ != "percpu"@);
    assert("pgscan_direct"@ != "sock"@);
    assert("pgscan_direct"@ != "vmalloc"@);
    assert("pgscan_direct"@ != "shmem"@);
    assert("pgscan_direct"@ != "zswap"@);
    assert("pgscan_direct"@ != "zswapped"@);
    assert("pgscan_direct"@ != "file_mapped"@);
    assert("pgscan_direct"@ != "file_dirty"@);
    assert("pgscan_direct"@ != "file_writeback"@);
    assert("pgscan_direct"@ != "swapcached"@);
    assert("pgscan_direct"@ != "anon_thp"@);
    assert("pgscan_direct"@ != "file_thp"@);
    assert("pgscan_direct"@ != "shmem_thp"@);
    assert("pgscan_direct"@[0] == 'p' && "inactive_anon"@[0] == 'i');
    assert("pgscan_direct"@ != "inactive_anon"@);
    assert("pgscan_direct"@ != "active_anon"@);
    assert("pgscan_direct"@[0] == 'p' && "inactive_file"@[0] == 'i');
    assert("pgscan_direct"@ != "inactive_file"@);
    assert("pgscan_direct"@ != "active_file"@);
    assert("pgscan_direct"@ != "unevictable"@);
    assert("pgscan_direct"@ != "slab_reclaimable"@);
    assert("pgscan_direct"@ != "slab_unreclaimable"@);
    assert("pgscan_direct"@ != "slab"@);
    assert("pgscan_direct"@ != "workingset_refault_anon"@);
    assert("pgscan_direct"@ != "workingset_refault_file"@);
    assert("pgscan_direct"@ != "workingset_activate_anon"@);
    assert("pgscan_direct"@ != "workingset_activate_file"@);
    assert("pgscan_direct"@ != "workingset_restore_anon"@);
    assert("pgscan_direct"@ != "workingset_restore_file"@);
    assert("pgscan_direct"@ != "workingset_nodereclaim"@);
    assert("pgscan_direct"@ != "pgscan"@);
    assert("pgscan_direct"@ != "pgsteal"@);
    assert("pgscan_direct"@[7] == 'd' && "pgscan_kswapd"@[7] == 'k');
    assert("pgscan_direct"@ != "pgscan_kswapd"@);
    assert(stat_field(a, "pgscan_direct"@) == a.pgscan_direct);
    assert(stat_field(b, "pgscan_direct"@) == b.pgscan_direct);
}

/// Field lookup under the key `pgscan_khugepaged` reads the `pgscan_khugepaged` field.
proof fn lemma_field_eq_pgscan_khugepaged(a: MemoryStat, b: MemoryStat)
    requires
        stat_field(a, "pgscan_khugepaged"@) == stat_field(b, "pgscan_khugepaged"@),
    ensures
        a.pgscan_khugepaged == b.pgscan_khugepaged,
{
    reveal_strlit("anon");
    reveal_strlit("file");
    reveal_strlit("kernel");
    reveal_strlit("kernel_stack");
    reveal_strlit("pagetables");
    reveal_strlit("sec_pagetables");
    reveal_strlit("percpu");
    reveal_strlit("sock");
    reveal_strlit("vmalloc");
    reveal_strlit("shmem");
    reveal_strlit("zswap");
    reveal_strlit("zswapped");
    reveal_strlit("file_mapped");
    reveal_strlit("file_dirty");
    reveal_strlit("file_writeback");
    reveal_strlit("swapcached");
    reveal_strlit("anon_thp");
    reveal_strlit("file_thp");
    reveal_strlit("shmem_thp");
    reveal_strlit("inactive_anon");
    reveal_strlit("active_anon");
    reveal_strlit("inactive_file");
    reveal_strlit("active_file");
    reveal_strlit("unevictable");
    reveal_strlit("slab_reclaimable");
    reveal_strlit("slab_unreclaimable");
    reveal_strlit("slab");
    reveal_strlit("workingset_refault_anon");
    reveal_strlit("workingset_refault_file");
    reveal_strlit("workingset_activate_anon");
    reveal_strlit("workingset_activate_file");
    reveal_strlit("workingset_restore_anon");
    reveal_strlit("workingset_restore_file");
    reveal_strlit("workingset_nodereclaim");
    reveal_strlit("pgscan");
    reveal_strlit("pgsteal");
    reveal_strlit("pgscan_kswapd");
    reveal_strlit("pgscan_direct");
    reveal_strlit("pgscan_khugepaged");
    assert("anon"@.len() == 4);
    assert("file"@.len() == 4);
    assert("kernel"@.len() == 6);
    assert("kernel_stack"@.len() == 12);
    assert("pagetables"@.len() == 10);
    assert("sec_pagetables"@.len() == 14);
    assert("percpu"@.len() == 6);
    assert("sock"@.len() == 4);
    assert("vmalloc"@.len() == 7);
    assert("shmem"@.len() == 5);
    assert("zswap"@.len() == 5);
    assert("zswapped"@.len() == 8);
    assert("file_mapped"@.len() == 11);
    assert("file_dirty"@.len() == 10);
    assert("file_writeback"@.len() == 14);
    assert("swapcached"@.len() == 10);
    assert("anon_thp"@.len() == 8);
    assert("file_thp"@.len() == 8);
    assert("shmem_thp"@.len() == 9);
    assert("inactive_anon"@.len() == 13);
    assert("active_anon"@.len() == 11);
    assert("inactive_file"@.len() == 13);
    assert("active_file"@.len() == 11);
    assert("unevictable"@.len() == 11);
    assert("slab_reclaimable"@.len() == 16);
    assert("slab_unreclaimable"@.len() == 18);
    assert("slab"@.len() == 4);
    assert("workingset_refault_anon"@.len() == 23);
    assert("workingset_refault_file"@.len() == 23);
    assert("workingset_activate_anon"@.len() == 24);
    assert("workingset_activate_file"@.len() == 24);
    assert("workingset_restore_anon"@.len() == 23);
    assert("workingset_restore_file"@.len() == 23);
    assert("workingset_nodereclaim"@.len() == 22);
    assert("pgscan"@.len() == 6);
    assert("pgsteal"@.len() == 7);
    assert("pgscan_kswapd"@.len() == 13);
    assert("pgscan_direct"@.len() == 13);
    assert("pgscan_khugepaged"@.len() == 17);
    assert("pgscan_khugepaged"@ != "anon"@);
    assert("pgscan_khugepaged"@ != "file"@);
    assert("pgscan_khugepaged"@ != "kernel"@);
    assert("pgscan_khugepaged"@ != "kernel_stack"@);
    assert("pgscan_khugepaged"@ != "pagetables"@);
    assert("pgscan_khugepaged"@ != "sec_pagetables"@);
    assert("pgscan_khugepaged"@ != "percpu"@);
    assert("pgscan_khugepaged"@ != "sock"@);
    assert("pgscan_khugepaged"@ != "vmalloc"@);
    assert("pgscan_khugepaged"@ != "shmem"@);
    assert("pgscan_khugepaged"@ != "zswap"@);
    assert("pgscan_khugepaged"@ != "zswapped"@);
    assert("pgscan_khugepaged"@ != "file_mapped"@);
    assert("pgscan_khugepaged"@ != "file_dirty"@);
    assert("pgscan_khugepaged"@ != "file_writeback"@);
    assert("pgscan_khugepaged"@ != "swapcached"@);
    assert("pgscan_khugepaged"@ != "anon_thp"@);
    assert("pgscan_khugepaged"@ != "file_thp"@);
    assert("pgscan_khugepaged"@ != "shmem_thp"@);
    assert("pgscan_khugepaged"@ != "inactive_anon"@);
    assert("pgscan_khugepaged"@ != "active_anon"@);
    assert("pgscan_khugepaged"@ != "inactive_file"@);
    assert("pgscan_khugepaged"@ != "active_file"@);
    assert("pgscan_khugepaged"@ != "unevictable"@);
    assert("pgscan_khugepaged"@ != "slab_reclaimable"@);
    assert("pgscan_khugepaged"@ != "slab_unreclaimable"@);
    assert("pgscan_khugepaged"@ != "slab"@);
    assert("pgscan_khugepaged"@ != "workingset_refault_anon"@);
    assert("pgscan_khugepaged"@ != "workingset_refault_file"@);
    assert("pgscan_khugepaged"@ != "workingset_activate_anon"@);
    assert("pgscan_khugepaged"@ != "workingset_activate_file"@);
    assert("pgscan_khugepaged"@ != "workingset_restore_anon"@);
    assert("pgscan_khugepaged"@ != "workingset_restore_file"@);
    assert("pgscan_khugepaged"@ != "workingset_nodereclaim"@);
    assert("pgscan_khugepaged"@ != "pgscan"@);
    assert("pgscan_khugepaged"@ != "pgsteal"@);
    assert("pgscan_khugepaged"@ != "pgscan_kswapd"@);
    assert("pgscan_khugepaged"@ != "pgscan_direct"@);
    assert(stat_field(a, "pgscan_khugepaged"@) == a.pgscan_khugepaged);
    assert(stat_field(b, "pgscan_khugepaged"@) == b.pgscan_khugepaged);
}

/// Field lookup under the key `pgsteal_kswapd` reads the `pgsteal_kswapd` field.
proof fn lemma_field_eq_pgsteal_kswapd(a: MemoryStat, b: MemoryStat)
    requires
        stat_field(a, "pgsteal_kswapd"@) == stat_field(b, "pgsteal_kswapd"@),
    ensures
        a.pgsteal_kswapd == b.pgsteal_kswapd,
{
    reveal_strlit("anon");
    reveal_strlit("file");
    reveal_strlit("kernel");
    reveal_strlit("kernel_stack");
    reveal_strlit("pagetables");
    reveal_strlit("sec_pagetables");
    reveal_strlit("percpu");
    reveal_strlit("sock");
    reveal_strlit("vmalloc");
    reveal_strlit("shmem");
    reveal_strlit("zswap");
    reveal_strlit("zswapped");
    reveal_strlit("file_mapped");
    reveal_strlit("file_dirty");
    reveal_strlit("file_writeback");
    reveal_strlit("swapcached");
    reveal_strlit("anon_thp");
    reveal_strlit("file_thp");
    reveal_strlit("shmem_thp");
    reveal_strlit("inactive_anon");
    reveal_strlit("active_anon");
    reveal_strlit("inactive_file");
    reveal_strlit("active_file");
    reveal_strlit("unevictable");
    reveal_strlit("slab_reclaimable");
    reveal_strlit("slab_unreclaimable");
    reveal_strlit("slab");
    reveal_strlit("workingset_refault_anon");
    reveal_strlit("workingset_refault_file");
    reveal_strlit("workingset_activate_anon");
    reveal_strlit("workingset_activate_file");
    reveal_strlit("workingset_restore_anon");
    reveal_strlit("workingset_restore_file");
    reveal_strlit("workingset_nodereclaim");
    reveal_strlit("pgscan");
    reveal_strlit("pgsteal");
    reveal_strlit("pgscan_kswapd");
    reveal_strlit("pgscan_direct");
    reveal_strlit("pgscan_khugepaged");
    reveal_strlit("pgsteal_kswapd");
    assert("anon"@.len() == 4);
    assert("file"@.len() == 4);
    assert("kernel"@.len() == 6);
    assert("kernel_stack"@.len() == 12);
    assert("pagetables"@.len() == 10);
    assert("sec_pagetables"@.len() == 14);
    assert("percpu"@.len() == 6);
    assert("sock"@.len() == 4);
    assert("vmalloc"@.len() == 7);
    assert("shmem"@.len() == 5);
    assert("zswap"@.len() == 5);
    assert("zswapped"@.len() == 8);
    assert("file_mapped"@.len() == 11);
    assert("file_dirty"@.len() == 10);
    assert("file_writeback"@.len() == 14);
    assert("swapcached"@.len() == 10);
    assert("anon_thp"@.len() == 8);
    assert("file_thp"@.len() == 8);
    assert("shmem_thp"@.len() == 9);
    assert("inactive_anon"@.len() == 13);
    assert("active_anon"@.len() == 11);
    assert("inactive_file"@.len() == 13);
    assert("active_file"@.len() == 11);
    assert("unevictable"@.len() == 11);
    assert("slab_reclaimable"@.len() == 16);
    assert("slab_unreclaimable"@.len() == 18);
    assert("slab"@.len() == 4);
    assert("workingset_refault_anon"@.len() == 23);
    assert("workingset_refault_file"@.len() == 23);
    assert("workingset_activate_anon"@.len() == 24);
    assert("workingset_activate_file"@.len() == 24);
    assert("workingset_restore_anon"@.len() == 23);
    assert("workingset_restore_file"@.len() == 23);
    assert("workingset_nodereclaim"@.len() == 22);
    assert("pgscan"@.len() == 6);
    assert("pgsteal"@.len() == 7);
    assert("pgscan_kswapd"@.len() == 13);
    assert("pgscan_direct"@.len() == 13);
    assert("pgscan_khugepaged"@.len() == 17);
    assert("pgsteal_kswapd"@.len() == 14);
    assert("pgsteal_kswapd"@ != "anon"@);
    assert("pgsteal_kswapd"@ != "file"@);
    assert("pgsteal_kswapd"@ != "kernel"@);
    assert("pgsteal_kswapd"@ != "kernel_stack"@);
    assert("pgsteal_kswapd"@ != "pagetables"@);
    assert("pgsteal_kswapd"@[0] == 'p' && "sec_pagetables"@[0] == 's');
    assert("pgsteal_kswapd"@ != "sec_pagetables"@);
    assert("pgsteal_kswapd"@ != "percpu"@);
    assert("pgsteal_kswapd"@ != "sock"@);
    assert("pgsteal_kswapd"@ != "vmalloc"@);
    assert("pgsteal_kswapd"@ != "shmem"@);
    assert("pgsteal_kswapd"@ != "zswap"@);
    assert("pgsteal_kswapd"@ != "zswapped"@);
    assert("pgsteal_kswapd"@ != "file_mapped"@);
    assert("pgsteal_kswapd"@ != "file_dirty"@);
    assert("pgsteal_kswapd"@[0] == 'p' && "file_writeback"@[0] == 'f');
    assert("pgsteal_kswapd"@ != "file_writeback"@);
    assert("pgsteal_kswapd"@ != "swapcached"@);
    assert("pgsteal_kswapd"@ != "anon_thp"@);
    assert("pgsteal_kswapd"@ != "file_thp"@);
    assert("pgsteal_kswapd"@ != "shmem_thp"@);
    assert("pgsteal_kswapd"@ != "inactive_anon"@);
    assert("pgsteal_kswapd"@ != "active_anon"@);
    assert("pgsteal_kswapd"@ != "inactive_file"@);
    assert("pgsteal_kswapd"@ != "active_file"@);
    assert("pgsteal_kswapd"@ != "unevictable"@);
    assert("pgsteal_kswapd"@ != "slab_reclaimable"@);
    assert("pgsteal_kswapd"@ != "slab_unreclaimable"@);
    assert("pgsteal_kswapd"@ != "slab"@);
    assert("pgsteal_kswapd"@ != "workingset_refault_anon"@);
    assert("pgsteal_kswapd"@ != "workingset_refault_file"@);
    assert("pgsteal_kswapd"@ != "workingset_activate_anon"@);
    assert("pgsteal_kswapd"@ != "workingset_activate_file"@);
    assert("pgsteal_kswapd"@ != "workingset_restore_anon"@);
    assert("pgsteal_kswapd"@ != "workingset_restore_file"@);
    assert("pgsteal_kswapd"@ != "workingset_nodereclaim"@);
    assert("pgsteal_kswapd"@ != "pgscan"@);
    assert("pgsteal_kswapd"@ != "pgsteal"@);
    assert("pgsteal_kswapd"@ != "pgscan_kswapd"@);
    assert("pgsteal_kswapd"@ != "pgscan_direct"@);
    assert("pgsteal_kswapd"@ != "pgscan_khugepaged"@);
    assert(stat_field(a, "pgsteal_kswapd"@) == a.pgsteal_kswapd);
    assert(stat_field(b, "pgsteal_kswapd"@) == b.pgsteal_kswapd);
}

/// Field lookup under the key `pgsteal_direct` reads the `pgsteal_direct` field.
proof fn lemma_field_eq_pgsteal_direct(a: MemoryStat, b: MemoryStat)
    requires
        stat_field(a, "pgsteal_direct"@) == stat_field(b, "pgsteal_direct"@),
    ensures
        a.pgsteal_direct == b.pgsteal_direct,
{
    reveal_strlit("anon");
    reveal_strlit("file");
    reveal_strlit("kernel");
    reveal_strlit("kernel_stack");
    reveal_strlit("pagetables");
    reveal_strlit("sec_pagetables");
    reveal_strlit("percpu");
    reveal_strlit("sock");
    reveal_strlit("vmalloc");
    reveal_strlit("shmem");
    reveal_strlit("zswap");
    reveal_strlit("zswapped");
    reveal_strlit("file_mapped");
    reveal_strlit("file_dirty");
    reveal_strlit("file_writeback");
    reveal_strlit("swapcached");
    reveal_strlit("anon_thp");
    reveal_strlit("file_thp");
    reveal_strlit("shmem_thp");
    reveal_strlit("inactive_anon");
    reveal_strlit("active_anon");
    reveal_strlit("inactive_file");
    reveal_strlit("active_file");
    reveal_strlit("unevictable");
    reveal_strlit("slab_reclaimable");
    reveal_strlit("slab_unreclaimable");
    reveal_strlit("slab");
    reveal_strlit("workingset_refault_anon");
    reveal_strlit("workingset_refault_file");
    reveal_strlit("workingset_activate_anon");
    reveal_strlit("workingset_activate_file");
    reveal_strlit("workingset_restore_anon");
    reveal_strlit("workingset_restore_file");
    reveal_strlit("workingset_nodereclaim");
    reveal_strlit("pgscan");
    reveal_strlit("pgsteal");
    reveal_strlit("pgscan_kswapd");
    reveal_strlit("pgscan_direct");
    reveal_strlit("pgscan_khugepaged");
    reveal_strlit("pgsteal_kswapd");
    reveal_strlit("pgsteal_direct");
    assert("anon"@.len() == 4);
    assert("file"@.len() == 4);
    assert("kernel"@.len() == 6);
    assert("kernel_stack"@.len() == 12);
    assert("pagetables"@.len() == 10);
    assert("sec_pagetables"@.len() == 14);
    assert("percpu"@.len() == 6);
    assert("sock"@.len() == 4);
    assert("vmalloc"@.len() == 7);
    assert("shmem"@.len() == 5);
    assert("zswap"@.len() == 5);
    assert("zswapped"@.len() == 8);
    assert("file_mapped"@.len() == 11);
    assert("file_dirty"@.len() == 10);
    assert("file_writeback"@.len() == 14);
    assert("swapcached"@.len() == 10);
    assert("anon_thp"@.len() == 8);
    assert("file_thp"@.len() == 8);
    assert("shmem_thp"@.len() == 9);
    assert("inactive_anon"@.len() == 13);
    assert("active_anon"@.len() == 11);
    assert("inactive_file"@.len() == 13);
    assert("active_file"@.len() == 11);
    assert("unevictable"@.len() == 11);
    assert("slab_reclaimable"@.len() == 16);
    assert("slab_unreclaimable"@.len() == 18);
    assert("slab"@.len() == 4);
    assert("workingset_refault_anon"@.len() == 23);
    assert("workingset_refault_file"@.len() == 23);
    assert("workingset_activate_anon"@.len() == 24);
    assert("workingset_activate_file"@.len() == 24);
    assert("workingset_restore_anon"@.len() == 23);
    assert("workingset_restore_file"@.len() == 23);
    assert("workingset_nodereclaim"@.len() == 22);
    assert("pgscan"@.len() == 6);
    assert("pgsteal"@.len() == 7);
    assert("pgscan_kswapd"@.len() == 13);
    assert("pgscan_direct"@.len() == 13);
    assert("pgscan_khugepaged"@.len() == 17);
    assert("pgsteal_kswapd"@.len() == 14);
    assert("pgsteal_direct"@.len() == 14);
    assert("pgsteal_direct"@ != "anon"@);
    assert("pgsteal_direct"@ != "file"@);
    assert("pgsteal_direct"@ != "kernel"@);
    assert("pgsteal_direct"@ != "kernel_stack"@);
    assert("pgsteal_direct"@ != "pagetables"@);
    assert("pgsteal_direct"@[0] == 'p' && "sec_pagetables"@[0] == 's');
    assert("pgsteal_direct"@ != "sec_pagetables"@);
    assert("pgsteal_direct"@ != "percpu"@);
    assert("pgsteal_direct"@ != "sock"@);
    assert("pgsteal_direct"@ != "vmalloc"@);
    assert("pgsteal_direct"@ != "shmem"@);
    assert("pgsteal_direct"@ != "zswap"@);
    assert("pgsteal_direct"@ != "zswapped"@);
    assert("pgsteal_direct"@ != "file_mapped"@);
    assert("pgsteal_direct"@ != "file_dirty"@);
    assert("pgsteal_direct"@[0] == 'p' && "file_writeback"@[0] == 'f');
    assert("pgsteal_direct"@ != "file_writeback"@);
    assert("pgsteal_direct"@ != "swapcached"@);
    assert("pgsteal_direct"@ != "anon_thp"@);
    assert("pgsteal_direct"@ != "file_thp"@);
    assert("pgsteal_direct"@ != "shmem_thp"@);
    assert("pgsteal_direct"@ != "inactive_anon"@);
    assert("pgsteal_direct"@ != "active_anon"@);
    assert("pgsteal_direct"@ != "inactive_file"@);
    assert("pgsteal_direct"@ != "active_file"@);
    assert("pgsteal_direct"@ != "unevictable"@);
    assert("pgsteal_direct"@ != "slab_reclaimable"@);
    assert("pgsteal_direct"@ != "slab_unreclaimable"@);
    assert("pgsteal_direct"@ != "slab"@);
    assert("pgsteal_direct"@ != "workingset_refault_anon"@);
    assert("pgsteal_direct"@ != "workingset_refault_file"@);
    assert("pgsteal_direct"@ != "workingset_activate_anon"@);
    assert("pgsteal_direct"@ != "workingset_activate_file"@);
    assert("pgsteal_direct"@ != "workingset_restore_anon"@);
    assert("pgsteal_direct"@ != "workingset_restore_file"@);
    assert("pgsteal_direct"@ != "workingset_nodereclaim"@);
    assert("pgsteal_direct"@ != "pgscan"@);
    assert("pgsteal_direct"@ != "pgsteal"@);
    assert("pgsteal_direct"@ != "pgscan_kswapd"@);
    assert("pgsteal_direct"@ != "pgscan_direct"@);
    assert("pgsteal_direct"@ != "pgscan_khugepaged"@);
    assert("pgsteal_direct"@[8] == 'd' && "pgsteal_kswapd"@[8] == 'k');
    assert("pgsteal_direct"@ != "pgsteal_kswapd"@);
    assert(stat_field(a, "pgsteal_direct"@) == a.pgsteal_direct);
    assert(stat_field(b, "pgsteal_direct"@) == b.pgsteal_direct);
}

/// Field lookup under the key `pgsteal_khugepaged` reads the `pgsteal_khugepaged` field.
proof fn lemma_field_eq_pgsteal_khugepaged(a: MemoryStat, b: MemoryStat)
    requires
        stat_field(a, "pgsteal_khugepaged"@) == stat_field(b, "pgsteal_khugepaged"@),
    ensures
        a.pgsteal_khugepaged == b.pgsteal_khugepaged,
{
    reveal_strlit("anon");
    reveal_strlit("file");
    reveal_strlit("kernel");
    reveal_strlit("kernel_stack");
    reveal_strlit("pagetables");
    reveal_strlit("sec_pagetables");
    reveal_strlit("percpu");
    reveal_strlit("sock");
    reveal_strlit("vmalloc");
    reveal_strlit("shmem");
    reveal_strlit("zswap");
    reveal_strlit("zswapped");
    reveal_strlit("file_mapped");
    reveal_strlit("file_dirty");
    reveal_strlit("file_writeback");
    reveal_strlit("swapcached");
    reveal_strlit("anon_thp");
    reveal_strlit("file_thp");
    reveal_strlit("shmem_thp");
    reveal_strlit("inactive_anon");
    reveal_strlit("active_anon");
    reveal_strlit("inactive_file");
    reveal_strlit("active_file");
    reveal_strlit("unevictable");
    reveal_strlit("slab_reclaimable");
    reveal_strlit("slab_unreclaimable");
    reveal_strlit("slab");
    reveal_strlit("workingset_refault_anon");
    reveal_strlit("workingset_refault_file");
    reveal_strlit("workingset_activate_anon");
    reveal_strlit("workingset_activate_file");
    reveal_strlit("workingset_restore_anon");
    reveal_strlit("workingset_restore_file");
    reveal_strlit("workingset_nodereclaim");
    reveal_strlit("pgscan");
    reveal_strlit("pgsteal");
    reveal_strlit("pgscan_kswapd");
    reveal_strlit("pgscan_direct");
    reveal_strlit("pgscan_khugepaged");
    reveal_strlit("pgsteal_kswapd");
    reveal_strlit("pgsteal_direct");
    reveal_strlit("pgsteal_khugepaged");
    assert("anon"@.len() == 4);
    assert("file"@.len() == 4);
    assert("kernel"@.len() == 6);
    assert("kernel_stack"@.len() == 12);
    assert("pagetables"@.len() == 10);
    assert("sec_pagetables"@.len() == 14);
    assert("percpu"@.len() == 6);
    assert("sock"@.len() == 4);
    assert("vmalloc"@.len() == 7);
    assert("shmem"@.len() == 5);
    assert("zswap"@.len() == 5);
    assert("zswapped"@.len() == 8);
    assert("file_mapped"@.len() == 11);
    assert("file_dirty"@.len() == 10);
    assert("file_writeback"@.len() == 14);
    assert("swapcached"@.len() == 10);
    assert("anon_thp"@.len() == 8);
    assert("file_thp"@.len() == 8);
    assert("shmem_thp"@.len() == 9);
    assert("inactive_anon"@.len() == 13);
    assert("active_anon"@.len() == 11);
    assert("inactive_file"@.len() == 13);
    assert("active_file"@.len() == 11);
    assert("unevictable"@.len() == 11);
    assert("slab_reclaimable"@.len() == 16);
    assert("slab_unreclaimable"@.len() == 18);
    assert("slab"@.len() == 4);
    assert("workingset_refault_anon"@.len() == 23);
    assert("workingset_refault_file"@.len() == 23);
    assert("workingset_activate_anon"@.len() == 24);
    assert("workingset_activate_file"@.len() == 24);
    assert("workingset_restore_anon"@.len() == 23);
    assert("workingset_restore_file"@.len() == 23);
    assert("workingset_nodereclaim"@.len() == 22);
    assert("pgscan"@.len() == 6);
    assert("pgsteal"@.len() == 7);
    assert("pgscan_kswapd"@.len() == 13);
    assert("pgscan_direct"@.len() == 13);
    assert("pgscan_khugepaged"@.len() == 17);
    assert("pgsteal_kswapd"@.len() == 14);
    assert("pgsteal_direct"@.len() == 14);
    assert("pgsteal_khugepaged"@.len() == 18);
    assert("pgsteal_khugepaged"@ != "anon"@);
    assert("pgsteal_khugepaged"@ != "file"@);
    assert("pgsteal_khugepaged"@ != "kernel"@);
    assert("pgsteal_khugepaged"@ != "kernel_stack"@);
    assert("pgsteal_khugepaged"@ != "pagetables"@);
    assert("pgsteal_khugepaged"@ != "sec_pagetables"@);
    assert("pgsteal_khugepaged"@ != "percpu"@);
    assert("pgsteal_khugepaged"@ != "sock"@);
    assert("pgsteal_khugepaged"@ != "vmalloc"@);
    assert("pgsteal_khugepaged"@ != "shmem"@);
    assert("pgsteal_khugepaged"@ != "zswap"@);
    assert("pgsteal_khugepaged"@ != "zswapped"@);
    assert("pgsteal_khugepaged"@ != "file_mapped"@);
    assert("pgsteal_khugepaged"@ != "file_dirty"@);
    assert("pgsteal_khugepaged"@ != "file_writeback"@);
    assert("pgsteal_khugepaged"@ != "swapcached"@);
    assert("pgsteal_khugepaged"@ != "anon_thp"@);
    assert("pgsteal_khugepaged"@ != "file_thp"@);
    assert("pgsteal_khugepaged"@ != "shmem_thp"@);
    assert("pgsteal_khugepaged"@ != "inactive_anon"@);
    assert("pgsteal_khugepaged"@ != "active_anon"@);
    assert("pgsteal_khugepaged"@ != "inactive_file"@);
    assert("pgsteal_khugepaged"@ != "active_file"@);
    assert("pgsteal_khugepaged"@ != "unevictable"@);
    assert("pgsteal_khugepaged"@ != "slab_reclaimable"@);
    assert("pgsteal_khugepaged"@[0] == 'p' && "slab_unreclaimable"@[0] == 's');
    assert("pgsteal_khugepaged"@ != "slab_unreclaimable"@);
    assert("pgsteal_khugepaged"@ != "slab"@);
    assert("pgsteal_khugepaged"@ != "workingset_refault_anon"@);
    assert("pgsteal_khugepaged"@ != "workingset_refault_file"@);
    assert("pgsteal_khugepaged"@ != "workingset_activate_anon"@);
    assert("pgsteal_khugepaged"@ != "workingset_activate_file"@);
    assert("pgsteal_khugepaged"@ != "workingset_restore_anon"@);
    assert("pgsteal_khugepaged"@ != "workingset_restore_file"@);
    assert("pgsteal_khugepaged"@ != "workingset_nodereclaim"@);
    assert("pgsteal_khugepaged"@ != "pgscan"@);
    assert("pgsteal_khugepaged"@ != "pgsteal"@);
    assert("pgsteal_khugepaged"@ != "pgscan_kswapd"@);
    assert("pgsteal_khugepaged"@ != "pgscan_direct"@);
    assert("pgsteal_khugepaged"@ != "pgscan_khugepaged"@);
    assert("pgsteal_khugepaged"@ != "pgsteal_kswapd"@);
    assert("pgsteal_khugepaged"@ != "pgsteal_direct"@);
    assert(stat_field(a, "pgsteal_khugepaged"@) == a.pgsteal_khugepaged);
    assert(stat_field(b, "pgsteal_khugepaged"@) == b.pgsteal_khugepaged);
}

/// Field lookup under the key `pgfault` reads the `pgfault` field.
proof fn lemma_field_eq_pgfault(a: MemoryStat, b: MemoryStat)
    requires
        stat_field(a, "pgfault"@) == stat_field(b, "pgfault"@),
    ensures
        a.pgfault == b.pgfault,
{
    reveal_strlit("anon");
    reveal_strlit("file");
    reveal_strlit("kernel");
    reveal_strlit("kernel_stack");
    reveal_strlit("pagetables");
    reveal_strlit("sec_pagetables");
    reveal_strlit("percpu");
    reveal_strlit("sock");
    reveal_strlit("vmalloc");
    reveal_strlit("shmem");
    reveal_strlit("zswap");
    reveal_strlit("zswapped");
    reveal_strlit("file_mapped");
    reveal_strlit("file_dirty");
    reveal_strlit("file_writeback");
    reveal_strlit("swapcached");
    reveal_strlit("anon_thp");
    reveal_strlit("file_thp");
    reveal_strlit("shmem_thp");
    reveal_strlit("inactive_anon");
    reveal_strlit("active_anon");
    reveal_strlit("inactive_file");
    reveal_strlit("active_file");
    reveal_strlit("unevictable");
    reveal_strlit("slab_reclaimable");
    reveal_strlit("slab_unreclaimable");
    reveal_strlit("slab");
    reveal_strlit("workingset_refault_anon");
    reveal_strlit("workingset_refault_file");
    reveal_strlit("workingset_activate_anon");
    reveal_strlit("workingset_activate_file");
    reveal_strlit("workingset_restore_anon");
    reveal_strlit("workingset_restore_file");
    reveal_strlit("workingset_nodereclaim");
    reveal_strlit("pgscan");
    reveal_strlit("pgsteal");
    reveal_strlit("pgscan_kswapd");
    reveal_strlit("pgscan_direct");
    reveal_strlit("pgscan_khugepaged");
    reveal_strlit("pgsteal_kswapd");
    reveal_strlit("pgsteal_direct");
    reveal_strlit("pgsteal_khugepaged");
    reveal_strlit("pgfault");
    assert("anon"@.len() == 4);
    assert("file"@.len() == 4);
    assert("kernel"@.len() == 6);
    assert("kernel_stack"@.len() == 12);
    assert("pagetables"@.len() == 10);
    assert("sec_pagetables"@.len() == 14);
    assert("percpu"@.len() == 6);
    assert("sock"@.len() == 4);
    assert("vmalloc"@.len() == 7);
    assert("shmem"@.len() == 5);
    assert("zswap"@.len() == 5);
    assert("zswapped"@.len() == 8);
    assert("file_mapped"@.len() == 11);
    assert("file_dirty"@.len() == 10);
    assert("file_writeback"@.len() == 14);
    assert("swapcached"@.len() == 10);
    assert("anon_thp"@.len() == 8);
    assert("file_thp"@.len() == 8);
    assert("shmem_thp"@.len() == 9);
    assert("inactive_anon"@.len() == 13);
    assert("active_anon"@.len() == 11);
    assert("inactive_file"@.len() == 13);
    assert("active_file"@.len() == 11);
    assert("unevictable"@.len() == 11);
    assert("slab_reclaimable"@.len() == 16);
    assert("slab_unreclaimable"@.len() == 18);
    assert("slab"@.len() == 4);
    assert("workingset_refault_anon"@.len() == 23);
    assert("workingset_refault_file"@.len() == 23);
    assert("workingset_activate_anon"@.len() == 24);
    assert("workingset_activate_file"@.len() == 24);
    assert("workingset_restore_anon"@.len() == 23);
    assert("workingset_restore_file"@.len() == 23);
    assert("workingset_nodereclaim"@.len() == 22);
    assert("pgscan"@.len() == 6);
    assert("pgsteal"@.len() == 7);
    assert("pgscan_kswapd"@.len() == 13);
    assert("pgscan_direct"@.len() == 13);
    assert("pgscan_khugepaged"@.len() == 17);
    assert("pgsteal_kswapd"@.len() == 14);
    assert("pgsteal_direct"@.len() == 14);
    assert("pgsteal_khugepaged"@.len() == 18);
    assert("pgfault"@.len() == 7);
    assert("pgfault"@ != "anon"@);
    assert("pgfault"@ != "file"@);
    assert("pgfault"@ != "kernel"@);
    assert("pgfault"@ != "kernel_stack"@);
    assert("pgfault"@ != "pagetables"@);
    assert("pgfault"@ != "sec_pagetables"@);
    assert("pgfault"@ != "percpu"@);
    assert("pgfault"@ != "sock"@);
    assert("pgfault"@[0] == 'p' && "vmalloc"@[0] == 'v');
    assert("pgfault"@ != "vmalloc"@);
    assert("pgfault"@ != "shmem"@);
    assert("pgfault"@ != "zswap"@);
    assert("pgfault"@ != "zswapped"@);
    assert("pgfault"@ != "file_mapped"@);
    assert("pgfault"@ != "file_dirty"@);
    assert("pgfault"@ != "file_writeback"@);
    assert("pgfault"@ != "swapcached"@);
    assert("pgfault"@ != "anon_thp"@);
    assert("pgfault"@ != "file_thp"@);
    assert("pgfault"@ != "shmem_thp"@);
    assert("pgfault"@ != "inactive_anon"@);
    assert("pgfault"@ != "active_anon"@);
    assert("pgfault"@ != "inactive_file"@);
    assert("pgfault"@ != "active_file"@);
    assert("pgfault"@ != "unevictable"@);
    assert("pgfault"@ != "slab_reclaimable"@);
    assert("pgfault"@ != "slab_unreclaimable"@);
    assert("pgfault"@ != "slab"@);
    assert("pgfault"@ != "workingset_refault_anon"@);
    assert("pgfault"@ != "workingset_refault_file"@);
    assert("pgfault"@ != "workingset_activate_anon"@);
    assert("pgfault"@ != "workingset_activate_file"@);
    assert("pgfault"@ != "workingset_restore_anon"@);
    assert("pgfault"@ != "workingset_restore_file"@);
    assert("pgfault"@ != "workingset_nodereclaim"@);
    assert("pgfault"@ != "pgscan"@);
    assert("pgfault"@[2] == 'f' && "pgsteal"@[2] == 's');
    assert("pgfault"@ != "pgsteal"@);
    assert("pgfault"@ != "pgscan_kswapd"@);
    assert("pgfault"@ != "pgscan_direct"@);
    assert("pgfault"@ != "pgscan_khugepaged"@);
    assert("pgfault"@ != "pgsteal_kswapd"@);
    assert("pgfault"@ != "pgsteal_direct"@);
    assert("pgfault"@ != "pgsteal_khugepaged"@);
    assert(stat_field(a, "pgfault"@) == a.pgfault);
    assert(stat_field(b, "pgfault"@) == b.pgfault);
}

/// Field lookup under the key `pgmajfault` reads the `pgmajfault` field.
proof fn lemma_field_eq_pgmajfault(a: MemoryStat, b: MemoryStat)
    requires
        stat_field(a, "pgmajfault"@) == stat_field(b, "pgmajfault"@),
    ensures
        a.pgmajfault == b.pgmajfault,
{
    reveal_strlit("anon");
    reveal_strlit("file");
    reveal_strlit("kernel");
    reveal_strlit("kernel_stack");
    reveal_strlit("pagetables");
    reveal_strlit("sec_pagetables");
    reveal_strlit("percpu");
    reveal_strlit("sock");
    reveal_strlit("vmalloc");
    reveal_strlit("shmem");
    reveal_strlit("zswap");
    reveal_strlit("zswapped");
    reveal_strlit("file_mapped");
    reveal_strlit("file_dirty");
    reveal_strlit("file_writeback");
    reveal_strlit("swapcached");
    reveal_strlit("anon_thp");
    reveal_strlit("file_thp");
    reveal_strlit("shmem_thp");
    reveal_strlit("inactive_anon");
    reveal_strlit("active_anon");
    reveal_strlit("inactive_file");
    reveal_strlit("active_file");
    reveal_strlit("unevictable");
    reveal_strlit("slab_reclaimable");
    reveal_strlit("slab_unreclaimable");
    reveal_strlit("slab");
    reveal_strlit("workingset_refault_anon");
    reveal_strlit("workingset_refault_file");
    reveal_strlit("workingset_activate_anon");
    reveal_strlit("workingset_activate_file");
    reveal_strlit("workingset_restore_anon");
    reveal_strlit("workingset_restore_file");
    reveal_strlit("workingset_nodereclaim");
    reveal_strlit("pgscan");
    reveal_strlit("pgsteal");
    reveal_strlit("pgscan_kswapd");
    reveal_strlit("pgscan_direct");
    reveal_strlit("pgscan_khugepaged");
    reveal_strlit("pgsteal_kswapd");
    reveal_strlit("pgsteal_direct");
    reveal_strlit("pgsteal_khugepaged");
    reveal_strlit("pgfault");
    reveal_strlit("pgmajfault");
    assert("anon"@.len() == 4);
    assert("file"@.len() == 4);
    assert("kernel"@.len() == 6);
    assert("kernel_stack"@.len() == 12);
    assert("pagetables"@.len() == 10);
    assert("sec_pagetables"@.len() == 14);
    assert("percpu"@.len() == 6);
    assert("sock"@.len() == 4);
    assert("vmalloc"@.len() == 7);
    assert("shmem"@.len() == 5);
    assert("zswap"@.len() == 5);
    assert("zswapped"@.len() == 8);
    assert("file_mapped"@.len() == 11);
    assert("file_dirty"@.len() == 10);
    assert("file_writeback"@.len() == 14);
    assert("swapcached"@.len() == 10);
    assert("anon_thp"@.len() == 8);
    assert("file_thp"@.len() == 8);
    assert("shmem_thp"@.len() == 9);
    assert("inactive_anon"@.len() == 13);
    assert("active_anon"@.len() == 11);
    assert("inactive_file"@.len() == 13);
    assert("active_file"@.len() == 11);
    assert("unevictable"@.len() == 11);
    assert("slab_reclaimable"@.len() == 16);
    assert("slab_unreclaimable"@.len() == 18);
    assert("slab"@.len() == 4);
    assert("workingset_refault_anon"@.len() == 23);
    assert("workingset_refault_file"@.len() == 23);
    assert("workingset_activate_anon"@.len() == 24);
    assert("workingset_activate_file"@.len() == 24);
    assert("workingset_restore_anon"@.len() == 23);
    assert("workingset_restore_file"@.len() == 23);
    assert("workingset_nodereclaim"@.len() == 22);
    assert("pgscan"@.len() == 6);
    assert("pgsteal"@.len() == 7);
    assert("pgscan_kswapd"@.len() == 13);
    assert("pgscan_direct"@.len() == 13);
    assert("pgscan_khugepaged"@.len() == 17);
    assert("pgsteal_kswapd"@.len() == 14);
    assert("pgsteal_direct"@.len() == 14);
    assert("pgsteal_khugepaged"@.len() == 18);
    assert("pgfault"@.len() == 7);
    assert("pgmajfault"@.len() == 10);
    assert("pgmajfault"@ != "anon"@);
    assert("pgmajfault"@ != "file"@);
    assert("pgmajfault"@ != "kernel"@);
    assert("pgmajfault"@ != "kernel_stack"@);
    assert("pgmajfault"@[1] == 'g' && "pagetables"@[1] == 'a');
    assert("pgmajfault"@ != "pagetables"@);
    assert("pgmajfault"@ != "sec_pagetables"@);
    assert("pgmajfault"@ != "percpu"@);
    assert("pgmajfault"@ != "sock"@);
    assert("pgmajfault"@ != "vmalloc"@);
    assert("pgmajfault"@ != "shmem"@);
    assert("pgmajfault"@ != "zswap"@);
    assert("pgmajfault"@ != "zswapped"@);
    assert("pgmajfault"@ != "file_mapped"@);
    assert("pgmajfault"@[0] == 'p' && "file_dirty"@[0] == 'f');
    assert("pgmajfault"@ != "file_dirty"@);
    assert("pgmajfault"@ != "file_writeback"@);
    assert("pgmajfault"@[0] == 'p' && "swapcached"@[0] == 's');
    assert("pgmajfault"@ != "swapcached"@);
    assert("pgmajfault"@ != "anon_thp"@);
    assert("pgmajfault"@ != "file_thp"@);
    assert("pgmajfault"@ != "shmem_thp"@);
    assert("pgmajfault"@ != "inactive_anon"@);
    assert("pgmajfault"@ != "active_anon"@);
    assert("pgmajfault"@ != "inactive_file"@);
    assert("pgmajfault"@ != "active_file"@);
    assert("pgmajfault"@ != "unevictable"@);
    assert("pgmajfault"@ != "slab_reclaimable"@);
    assert("pgmajfault"@ != "slab_unreclaimable"@);
    assert("pgmajfault"@ != "slab"@);
    assert("pgmajfault"@ != "workingset_refault_anon"@);
    assert("pgmajfault"@ != "workingset_refault_file"@);
    assert("pgmajfault"@ != "workingset_activate_anon"@);
    assert("pgmajfault"@ != "workingset_activate_file"@);
    assert("pgmajfault"@ != "workingset_restore_anon"@);
    assert("pgmajfault"@ != "workingset_restore_file"@);
    assert("pgmajfault"@ != "workingset_nodereclaim"@);
    assert("pgmajfault"@ != "pgscan"@);
    assert("pgmajfault"@ != "pgsteal"@);
    assert("pgmajfault"@ != "pgscan_kswapd"@);
    assert("pgmajfault"@ != "pgscan_direct"@);
    assert("pgmajfault"@ != "pgscan_khugepaged"@);
    assert("pgmajfault"@ != "pgsteal_kswapd"@);
    assert("pgmajfault"@ != "pgsteal_direct"@);
    assert("pgmajfault"@ != "pgsteal_khugepaged"@);
    assert("pgmajfault"@ != "pgfault"@);
    assert(stat_field(a, "pgmajfault"@) == a.pgmajfault);
    assert(stat_field(b, "pgmajfault"@) == b.pgmajfault);
}

/// Field lookup under the key `pgrefill` reads the `pgrefill` field.
proof fn lemma_field_eq_pgrefill(a: MemoryStat, b: MemoryStat)
    requires
        stat_field(a, "pgrefill"@) == stat_field(b, "pgrefill"@),
    ensures
        a.pgrefill == b.pgrefill,
{
    reveal_strlit("anon");
    reveal_strlit("file");
    reveal_strlit("kernel");
    reveal_strlit("kernel_stack");
    reveal_strlit("pagetables");
    reveal_strlit("sec_pagetables");
    reveal_strlit("percpu");
    reveal_strlit("sock");
    reveal_strlit("vmalloc");
    reveal_strlit("shmem");
    reveal_strlit("zswap");
    reveal_strlit("zswapped");
    reveal_strlit("file_mapped");
    reveal_strlit("file_dirty");
    reveal_strlit("file_writeback");
    reveal_strlit("swapcached");
    reveal_strlit("anon_thp");
    reveal_strlit("file_thp");
    reveal_strlit("shmem_thp");
    reveal_strlit("inactive_anon");
    reveal_strlit("active_anon");
    reveal_strlit("inactive_file");
    reveal_strlit("active_file");
    reveal_strlit("unevictable");
    reveal_strlit("slab_reclaimable");
    reveal_strlit("slab_unreclaimable");
    reveal_strlit("slab");
    reveal_strlit("workingset_refault_anon");
    reveal_strlit("workingset_refault_file");
    reveal_strlit("workingset_activate_anon");
    reveal_strlit("workingset_activate_file");
    reveal_strlit("workingset_restore_anon");
    reveal_strlit("workingset_restore_file");
    reveal_strlit("workingset_nodereclaim");
    reveal_strlit("pgscan");
    reveal_strlit("pgsteal");
    reveal_strlit("pgscan_kswapd");
    reveal_strlit("pgscan_direct");
    reveal_strlit("pgscan_khugepaged");
    reveal_strlit("pgsteal_kswapd");
    reveal_strlit("pgsteal_direct");
    reveal_strlit("pgsteal_khugepaged");
    reveal_strlit("pgfault");
    reveal_strlit("pgmajfault");
    reveal_strlit("pgrefill");
    assert("anon"@.len() == 4);
    assert("file"@.len() == 4);
    assert("kernel"@.len() == 6);
    assert("kernel_stack"@.len() == 12);
    assert("pagetables"@.len() == 10);
    assert("sec_pagetables"@.len() == 14);
    assert("percpu"@.len() == 6);
    assert("sock"@.len() == 4);
    assert("vmalloc"@.len() == 7);
    assert("shmem"@.len() == 5);
    assert("zswap"@.len() == 5);
    assert("zswapped"@.len() == 8);
    assert("file_mapped"@.len() == 11);
    assert("file_dirty"@.len() == 10);
    assert("file_writeback"@.len() == 14);
    assert("swapcached"@.len() == 10);
    assert("anon_thp"@.len() == 8);
    assert("file_thp"@.len() == 8);
    assert("shmem_thp"@.len() == 9);
    assert("inactive_anon"@.len() == 13);
    assert("active_anon"@.len() == 11);
    assert("inactive_file"@.len() == 13);
    assert("active_file"@.len() == 11);
    assert("unevictable"@.len() == 11);
    assert("slab_reclaimable"@.len() == 16);
    assert("slab_unreclaimable"@.len() == 18);
    assert("slab"@.len() == 4);
    assert("workingset_refault_anon"@.len() == 23);
    assert("workingset_refault_file"@.len() == 23);
    assert("workingset_activate_anon"@.len() == 24);
    assert("workingset_activate_file"@.len() == 24);
    assert("workingset_restore_anon"@.len() == 23);
    assert("workingset_restore_file"@.len() == 23);
    assert("workingset_nodereclaim"@.len() == 22);
    assert("pgscan"@.len() == 6);
    assert("pgsteal"@.len() == 7);
    assert("pgscan_kswapd"@.len() == 13);
    assert("pgscan_direct"@.len() == 13);
    assert("pgscan_khugepaged"@.len() == 17);
    assert("pgsteal_kswapd"@.len() == 14);
    assert("pgsteal_direct"@.len() == 14);
    assert("pgsteal_khugepaged"@.len() == 18);
    assert("pgfault"@.len() == 7);
    assert("pgmajfault"@.len() == 10);
    assert("pgrefill"@.len() == 8);
    assert("pgrefill"@ != "anon"@);
    assert("pgrefill"@ != "file"@);
    assert("pgrefill"@ != "kernel"@);
    assert("pgrefill"@ != "kernel_stack"@);
    assert("pgrefill"@ != "pagetables"@);
    assert("pgrefill"@ != "sec_pagetables"@);
    assert("pgrefill"@ != "percpu"@);
    assert("pgrefill"@ != "sock"@);
    assert("pgrefill"@ != "vmalloc"@);
    assert("pgrefill"@ != "shmem"@);
    assert("pgrefill"@ != "zswap"@);
    assert("pgrefill"@[0] == 'p' && "zswapped"@[0] == 'z');
    assert("pgrefill"@ != "zswapped"@);
    assert("pgrefill"@ != "file_mapped"@);
    assert("pgrefill"@ != "file_dirty"@);
    assert("pgrefill"@ != "file_writeback"@);
    assert("pgrefill"@ != "swapcached"@);
    assert("pgrefill"@[0] == 'p' && "anon_thp"@[0] == 'a');
    assert("pgrefill"@ != "anon_thp"@);
    assert("pgrefill"@[0] == 'p' && "file_thp"@[0] == 'f');
    assert("pgrefill"@ != "file_thp"@);
    assert("pgrefill"@ != "shmem_thp"@);
    assert("pgrefill"@ != "inactive_anon"@);
    assert("pgrefill"@ != "active_anon"@);
    assert("pgrefill"@ != "inactive_file"@);
    assert("pgrefill"@ != "active_file"@);
    assert("pgrefill"@ != "unevictable"@);
    assert("pgrefill"@ != "slab_reclaimable"@);
    assert("pgrefill"@ != "slab_unreclaimable"@);
    assert("pgrefill"@ != "slab"@);
    assert("pgrefill"@ != "workingset_refault_anon"@);
    assert("pgrefill"@ != "workingset_refault_file"@);
    assert("pgrefill"@ != "workingset_activate_anon"@);
    assert("pgrefill"@ != "workingset_activate_file"@);
    assert("pgrefill"@ != "workingset_restore_anon"@);
    assert("pgrefill"@ != "workingset_restore_file"@);
    assert("pgrefill"@ != "workingset_nodereclaim"@);
    assert("pgrefill"@ != "pgscan"@);
    assert("pgrefill"@ != "pgsteal"@);
    assert("pgrefill"@ != "pgscan_kswapd"@);
    assert("pgrefill"@ != "pgscan_direct"@);
    assert("pgrefill"@ != "pgscan_khugepaged"@);
    assert("pgrefill"@ != "pgsteal_kswapd"@);
    assert("pgrefill"@ != "pgsteal_direct"@);
    assert("pgrefill"@ != "pgsteal_khugepaged"@);
    assert("pgrefill"@ != "pgfault"@);
    assert("pgrefill"@ != "pgmajfault"@);
    assert(stat_field(a, "pgrefill"@) == a.pgrefill);
    assert(stat_field(b, "pgrefill"@) == b.pgrefill);
}

/// Field lookup under the key `pgactivate` reads the `pgactivate` field.
proof fn lemma_field_eq_pgactivate(a: MemoryStat, b: MemoryStat)
    requires
        stat_field(a, "pgactivate"@) == stat_field(b, "pgactivate"@),
    ensures
        a.pgactivate == b.pgactivate,
{
    reveal_strlit("anon");
    reveal_strlit("file");
    reveal_strlit("kernel");
    reveal_strlit("kernel_stack");
    reveal_strlit("pagetables");
    reveal_strlit("sec_pagetables");
    reveal_strlit("percpu");
    reveal_strlit("sock");
    reveal_strlit("vmalloc");
    reveal_strlit("shmem");
    reveal_strlit("zswap");
    reveal_strlit("zswapped");
    reveal_strlit("file_mapped");
    reveal_strlit("file_dirty");
    reveal_strlit("file_writeback");
    reveal_strlit("swapcached");
    reveal_strlit("anon_thp");
    reveal_strlit("file_thp");
    reveal_strlit("shmem_thp");
    reveal_strlit("inactive_anon");
    reveal_strlit("active_anon");
    reveal_strlit("inactive_file");
    reveal_strlit("active_file");
    reveal_strlit("unevictable");
    reveal_strlit("slab_reclaimable");
    reveal_strlit("slab_unreclaimable");
    reveal_strlit("slab");
    reveal_strlit("workingset_refault_anon");
    reveal_strlit("workingset_refault_file");
    reveal_strlit("workingset_activate_anon");
    reveal_strlit("workingset_activate_file");
    reveal_strlit("workingset_restore_anon");
    reveal_strlit("workingset_restore_file");
    reveal_strlit("workingset_nodereclaim");
    reveal_strlit("pgscan");
    reveal_strlit("pgsteal");
    reveal_strlit("pgscan_kswapd");
    reveal_strlit("pgscan_direct");
    reveal_strlit("pgscan_khugepaged");
    reveal_strlit("pgsteal_kswapd");
    reveal_strlit("pgsteal_direct");
    reveal_strlit("pgsteal_khugepaged");
    reveal_strlit("pgfault");
    reveal_strlit("pgmajfault");
    reveal_strlit("pgrefill");
    reveal_strlit("pgactivate");
    assert("anon"@.len() == 4);
    assert("file"@.len() == 4);
    assert("kernel"@.len() == 6);
    assert("kernel_stack"@.len() == 12);
    assert("pagetables"@.len() == 10);
    assert("sec_pagetables"@.len() == 14);
    assert("percpu"@.len() == 6);
    assert("sock"@.len() == 4);
    assert("vmalloc"@.len() == 7);
    assert("shmem"@.len() == 5);
    assert("zswap"@.len() == 5);
    assert("zswapped"@.len() == 8);
    assert("file_mapped"@.len() == 11);
    assert("file_dirty"@.len() == 10);
    assert("file_writeback"@.len() == 14);
    assert("swapcached"@.len() == 10);
    assert("anon_thp"@.len() == 8);
    assert("file_thp"@.len() == 8);
    assert("shmem_thp"@.len() == 9);
    assert("inactive_anon"@.len() == 13);
    assert("active_anon"@.len() == 11);
    assert("inactive_file"@.len() == 13);
    assert("active_file"@.len() == 11);
    assert("unevictable"@.len() == 11);
    assert("slab_reclaimable"@.len() == 16);
    assert("slab_unreclaimable"@.len() == 18);
    assert("slab"@.len() == 4);
    assert("workingset_refault_anon"@.len() == 23);
    assert("workingset_refault_file"@.len() == 23);
    assert("workingset_activate_anon"@.len() == 24);
    assert("workingset_activate_file"@.len() == 24);
    assert("workingset_restore_anon"@.len() == 23);
    assert("workingset_restore_file"@.len() == 23);
    assert("workingset_nodereclaim"@.len() == 22);
    assert("pgscan"@.len() == 6);
    assert("pgsteal"@.len() == 7);
    assert("pgscan_kswapd"@.len() == 13);
    assert("pgscan_direct"@.len() == 13);
    assert("pgscan_khugepaged"@.len() == 17);
    assert("pgsteal_kswapd"@.len() == 14);
    assert("pgsteal_direct"@.len() == 14);
    assert("pgsteal_khugepaged"@.len() == 18);
    assert("pgfault"@.len() == 7);
    assert("pgmajfault"@.len() == 10);
    assert("pgrefill"@.len() == 8);
    assert("pgactivate"@.len() == 10);
    assert("pgactivate"@ != "anon"@);
    assert("pgactivate"@ != "file"@);
    assert("pgactivate"@ != "kernel"@);
    assert("pgactivate"@ != "kernel_stack"@);
    assert("pgactivate"@[1] == 'g' && "pagetables"@[1] == 'a');
    assert("pgactivate"@ != "pagetables"@);
    assert("pgactivate"@ != "sec_pagetables"@);
    assert("pgactivate"@ != "percpu"@);
    assert("pgactivate"@ != "sock"@);
    assert("pgactivate"@ != "vmalloc"@);
    assert("pgactivate"@ != "shmem"@);
    assert("pgactivate"@ != "zswap"@);
    assert("pgactivate"@ != "zswapped"@);
    assert("pgactivate"@ != "file_mapped"@);
    assert("pgactivate"@[0] == 'p' && "file_dirty"@[0] == 'f');
    assert("pgactivate"@ != "file_dirty"@);
    assert("pgactivate"@ != "file_writeback"@);
    assert("pgactivate"@[0] == 'p' && "swapcached"@[0] == 's');
    assert("pgactivate"@ != "swapcached"@);
    assert("pgactivate"@ != "anon_thp"@);
    assert("pgactivate"@ != "file_thp"@);
    assert("pgactivate"@ != "shmem_thp"@);
    assert("pgactivate"@ != "inactive_anon"@);
    assert("pgactivate"@ != "active_anon"@);
    assert("pgactivate"@ != "inactive_file"@);
    assert("pgactivate"@ != "active_file"@);
    assert("pgactivate"@ != "unevictable"@);
    assert("pgactivate"@ != "slab_reclaimable"@);
    assert("pgactivate"@ != "slab_unreclaimable"@);
    assert("pgactivate"@ != "slab"@);
    assert("pgactivate"@ != "workingset_refault_anon"@);
    assert("pgactivate"@ != "workingset_refault_file"@);
    assert("pgactivate"@ != "workingset_activate_anon"@);
    assert("pgactivate"@ != "workingset_activate_file"@);
    assert("pgactivate"@ != "workingset_restore_anon"@);
    assert("pgactivate"@ != "workingset_restore_file"@);
    assert("pgactivate"@ != "workingset_nodereclaim"@);
    assert("pgactivate"@ != "pgscan"@);
    assert("pgactivate"@ != "pgsteal"@);
    assert("pgactivate"@ != "pgscan_kswapd"@);
    assert("pgactivate"@ != "pgscan_direct"@);
    assert("pgactivate"@ != "pgscan_khugepaged"@);
    assert("pgactivate"@ != "pgsteal_kswapd"@);
    assert("pgactivate"@ != "pgsteal_direct"@);
    assert("pgactivate"@ != "pgsteal_khugepaged"@);
    assert("pgactivate"@ != "pgfault"@);
    assert("pgactivate"@[2] == 'a' && "pgmajfault"@[2] == 'm');
    assert("pgactivate"@ != "pgmajfault"@);
    assert("pgactivate"@ != "pgrefill"@);
    assert(stat_field(a, "pgactivate"@) == a.pgactivate);
    assert(stat_field(b, "pgactivate"@) == b.pgactivate);
}

/// Field lookup under the key `pgdeactivate` reads the `pgdeactivate` field.
proof fn lemma_field_eq_pgdeactivate(a: MemoryStat, b: MemoryStat)
    requires
        stat_field(a, "pgdeactivate"@) == stat_field(b, "pgdeactivate"@),
    ensures
        a.pgdeactivate == b.pgdeactivate,
{
    reveal_strlit("anon");
    reveal_strlit("file");
    reveal_strlit("kernel");
    reveal_strlit("kernel_stack");
    reveal_strlit("pagetables");
    reveal_strlit("sec_pagetables");
    reveal_strlit("percpu");
    reveal_strlit("sock");
    reveal_strlit("vmalloc");
    reveal_strlit("shmem");
    reveal_strlit("zswap");
    reveal_strlit("zswapped");
    reveal_strlit("file_mapped");
    reveal_strlit("file_dirty");
    reveal_strlit("file_writeback");
    reveal_strlit("swapcached");
    reveal_strlit("anon_thp");
    reveal_strlit("file_thp");
    reveal_strlit("shmem_thp");
    reveal_strlit("inactive_anon");
    reveal_strlit("active_anon");
    reveal_strlit("inactive_file");
    reveal_strlit("active_file");
    reveal_strlit("unevictable");
    reveal_strlit("slab_reclaimable");
    reveal_strlit("slab_unreclaimable");
    reveal_strlit("slab");
    reveal_strlit("workingset_refault_anon");
    reveal_strlit("workingset_refault_file");
    reveal_strlit("workingset_activate_anon");
    reveal_strlit("workingset_activate_file");
    reveal_strlit("workingset_restore_anon");
    reveal_strlit("workingset_restore_file");
    reveal_strlit("workingset_nodereclaim");
    reveal_strlit("pgscan");
    reveal_strlit("pgsteal");
    reveal_strlit("pgscan_kswapd");
    reveal_strlit("pgscan_direct");
    reveal_strlit("pgscan_khugepaged");
    reveal_strlit("pgsteal_kswapd");
    reveal_strlit("pgsteal_direct");
    reveal_strlit("pgsteal_khugepaged");
    reveal_strlit("pgfault");
    reveal_strlit("pgmajfault");
    reveal_strlit("pgrefill");
    reveal_strlit("pgactivate");
    reveal_strlit("pgdeactivate");
    assert("anon"@.len() == 4);
    assert("file"@.len() == 4);
    assert("kernel"@.len() == 6);
    assert("kernel_stack"@.len() == 12);
    assert("pagetables"@.len() == 10);
    assert("sec_pagetables"@.len() == 14);
    assert("percpu"@.len() == 6);
    assert("sock"@.len() == 4);
    assert("vmalloc"@.len() == 7);
    assert("shmem"@.len() == 5);
    assert("zswap"@.len() == 5);
    assert("zswapped"@.len() == 8);
    assert("file_mapped"@.len() == 11);
    assert("file_dirty"@.len() == 10);
    assert("file_writeback"@.len() == 14);
    assert("swapcached"@.len() == 10);
    assert("anon_thp"@.len() == 8);
    assert("file_thp"@.len() == 8);
    assert("shmem_thp"@.len() == 9);
    assert("inactive_anon"@.len() == 13);
    assert("active_anon"@.len() == 11);
    assert("inactive_file"@.len() == 13);
    assert("active_file"@.len() == 11);
    assert("unevictable"@.len() == 11);
    assert("slab_reclaimable"@.len() == 16);
    assert("slab_unreclaimable"@.len() == 18);
    assert("slab"@.len() == 4);
    assert("workingset_refault_anon"@.len() == 23);
    assert("workingset_refault_file"@.len() == 23);
    assert("workingset_activate_anon"@.len() == 24);
    assert("workingset_activate_file"@.len() == 24);
    assert("workingset_restore_anon"@.len() == 23);
    assert("workingset_restore_file"@.len() == 23);
    assert("workingset_nodereclaim"@.len() == 22);
    assert("pgscan"@.len() == 6);
    assert("pgsteal"@.len() == 7);
    assert("pgscan_kswapd"@.len() == 13);
    assert("pgscan_direct"@.len() == 13);
    assert("pgscan_khugepaged"@.len() == 17);
    assert("pgsteal_kswapd"@.len() == 14);
    assert("pgsteal_direct"@.len() == 14);
    assert("pgsteal_khugepaged"@.len() == 18);
    assert("pgfault"@.len() == 7);
    assert("pgmajfault"@.len() == 10);
    assert("pgrefill"@.len() == 8);
    assert("pgactivate"@.len() == 10);
    assert("pgdeactivate"@.len() == 12);
    assert("pgdeactivate"@ != "anon"@);
    assert("pgdeactivate"@ != "file"@);
    assert("pgdeactivate"@ != "kernel"@);
    assert("pgdeactivate"@[0] == 'p' && "kernel_stack"@[0] == 'k');
    assert("pgdeactivate"@ != "kernel_stack"@);
    assert("pgdeactivate"@ != "pagetables"@);
    assert("pgdeactivate"@ != "sec_pagetables"@);
    assert("pgdeactivate"@ != "percpu"@);
    assert("pgdeactivate"@ != "sock"@);
    assert("pgdeactivate"@ != "vmalloc"@);
    assert("pgdeactivate"@ != "shmem"@);
    assert("pgdeactivate"@ != "zswap"@);
    assert("pgdeactivate"@ != "zswapped"@);
    assert("pgdeactivate"@ != "file_mapped"@);
    assert("pgdeactivate"@ != "file_dirty"@);
    assert("pgdeactivate"@ != "file_writeback"@);
    assert("pgdeactivate"@ != "swapcached"@);
    assert("pgdeactivate"@ != "anon_thp"@);
    assert("pgdeactivate"@ != "file_thp"@);
    assert("pgdeactivate"@ != "shmem_thp"@);
    assert("pgdeactivate"@ != "inactive_anon"@);
    assert("pgdeactivate"@ != "active_anon"@);
    assert("pgdeactivate"@ != "inactive_file"@);
    assert("pgdeactivate"@ != "active_file"@);
    assert("pgdeactivate"@ != "unevictable"@);
    assert("pgdeactivate"@ != "slab_reclaimable"@);
    assert("pgdeactivate"@ != "slab_unreclaimable"@);
    assert("pgdeactivate"@ != "slab"@);
    assert("pgdeactivate"@ != "workingset_refault_anon"@);
    assert("pgdeactivate"@ != "workingset_refault_file"@);
    assert("pgdeactivate"@ != "workingset_activate_anon"@);
    assert("pgdeactivate"@ != "workingset_activate_file"@);
    assert("pgdeactivate"@ != "workingset_restore_anon"@);
    assert("pgdeactivate"@ != "workingset_restore_file"@);
    assert("pgdeactivate"@ != "workingset_nodereclaim"@);
    assert("pgdeactivate"@ != "pgscan"@);
    assert("pgdeactivate"@ != "pgsteal"@);
    assert("pgdeactivate"@ != "pgscan_kswapd"@);
    assert("pgdeactivate"@ != "pgscan_direct"@);
    assert("pgdeactivate"@ != "pgscan_khugepaged"@);
    assert("pgdeactivate"@ != "pgsteal_kswapd"@);
    assert("pgdeactivate"@ != "pgsteal_direct"@);
    assert("pgdeactivate"@ != "pgsteal_khugepaged"@);
    assert("pgdeactivate"@ != "pgfault"@);
    assert("pgdeactivate"@ != "pgmajfault"@);
    assert("pgdeactivate"@ != "pgrefill"@);
    assert("pgdeactivate"@ != "pgactivate"@);
    assert(stat_field(a, "pgdeactivate"@) == a.pgdeactivate);
    assert(stat_field(b, "pgdeactivate"@) == b.pgdeactivate);
}

/// Field lookup under the key `pglazyfree` reads the `pglazyfree` field.
proof fn lemma_field_eq_pglazyfree(a: MemoryStat, b: MemoryStat)
    requires
        stat_field(a, "pglazyfree"@) == stat_field(b, "pglazyfree"@),
    ensures
        a.pglazyfree == b.pglazyfree,
{
    reveal_strlit("anon");
    reveal_strlit("file");
    reveal_strlit("kernel");
    reveal_strlit("kernel_stack");
    reveal_strlit("pagetables");
    reveal_strlit("sec_pagetables");
    reveal_strlit("percpu");
    reveal_strlit("sock");
    reveal_strlit("vmalloc");
    reveal_strlit("shmem");
    reveal_strlit("zswap");
    reveal_strlit("zswapped");
    reveal_strlit("file_mapped");
    reveal_strlit("file_dirty");
    reveal_strlit("file_writeback");
    reveal_strlit("swapcached");
    reveal_strlit("anon_thp");
    reveal_strlit("file_thp");
    reveal_strlit("shmem_thp");
    reveal_strlit("inactive_anon");
    reveal_strlit("active_anon");
    reveal_strlit("inactive_file");
    reveal_strlit("active_file");
    reveal_strlit("unevictable");
    reveal_strlit("slab_reclaimable");
    reveal_strlit("slab_unreclaimable");
    reveal_strlit("slab");
    reveal_strlit("workingset_refault_anon");
    reveal_strlit("workingset_refault_file");
    reveal_strlit("workingset_activate_anon");
    reveal_strlit("workingset_activate_file");
    reveal_strlit("workingset_restore_anon");
    reveal_strlit("workingset_restore_file");
    reveal_strlit("workingset_nodereclaim");
    reveal_strlit("pgscan");
    reveal_strlit("pgsteal");
    reveal_strlit("pgscan_kswapd");
    reveal_strlit("pgscan_direct");
    reveal_strlit("pgscan_khugepaged");
    reveal_strlit("pgsteal_kswapd");
    reveal_strlit("pgsteal_direct");
    reveal_strlit("pgsteal_khugepaged");
    reveal_strlit("pgfault");
    reveal_strlit("pgmajfault");
    reveal_strlit("pgrefill");
    reveal_strlit("pgactivate");
    reveal_strlit("pgdeactivate");
    reveal_strlit("pglazyfree");
    assert("anon"@.len() == 4);
    assert("file"@.len() == 4);
    assert("kernel"@.len() == 6);
    assert("kernel_stack"@.len() == 12);
    assert("pagetables"@.len() == 10);
    assert("sec_pagetables"@.len() == 14);
    assert("percpu"@.len() == 6);
    assert("sock"@.len() == 4);
    assert("vmalloc"@.len() == 7);
    assert("shmem"@.len() == 5);
    assert("zswap"@.len() == 5);
    assert("zswapped"@.len() == 8);
    assert("file_mapped"@.len() == 11);
    assert("file_dirty"@.len() == 10);
    assert("file_writeback"@.len() == 14);
    assert("swapcached"@.len() == 10);
    assert("anon_thp"@.len() == 8);
    assert("file_thp"@.len() == 8);
    assert("shmem_thp"@.len() == 9);
    assert("inactive_anon"@.len() == 13);
    assert("active_anon"@.len() == 11);
    assert("inactive_file"@.len() == 13);
    assert("active_file"@.len() == 11);
    assert("unevictable"@.len() == 11);
    assert("slab_reclaimable"@.len() == 16);
    assert("slab_unreclaimable"@.len() == 18);
    assert("slab"@.len() == 4);
    assert("workingset_refault_anon"@.len() == 23);
    assert("workingset_refault_file"@.len() == 23);
    assert("workingset_activate_anon"@.len() == 24);
    assert("workingset_activate_file"@.len() == 24);
    assert("workingset_restore_anon"@.len() == 23);
    assert("workingset_restore_file"@.len() == 23);
    assert("workingset_nodereclaim"@.len() == 22);
    assert("pgscan"@.len() == 6);
    assert("pgsteal"@.len() == 7);
    assert("pgscan_kswapd"@.len() == 13);
    assert("pgscan_direct"@.len() == 13);
    assert("pgscan_khugepaged"@.len() == 17);
    assert("pgsteal_kswapd"@.len() == 14);
    assert("pgsteal_direct"@.len() == 14);
    assert("pgsteal_khugepaged"@.len() == 18);
    assert("pgfault"@.len() == 7);
    assert("pgmajfault"@.len() == 10);
    assert("pgrefill"@.len() == 8);
    assert("pgactivate"@.len() == 10);
    assert("pgdeactivate"@.len() == 12);
    assert("pglazyfree"@.len() == 10);
    assert("pglazyfree"@ != "anon"@);
    assert("pglazyfree"@ != "file"@);
    assert("pglazyfree"@ != "kernel"@);
    assert("pglazyfree"@ != "kernel_stack"@);
    assert("pglazyfree"@[1] == 'g' && "pagetables"@[1] == 'a');
    assert("pglazyfree"@ != "pagetables"@);
    assert("pglazyfree"@ != "sec_pagetables"@);
    assert("pglazyfree"@ != "percpu"@);
    assert("pglazyfree"@ != "sock"@);
    assert("pglazyfree"@ != "vmalloc"@);
    assert("pglazyfree"@ != "shmem"@);
    assert("pglazyfree"@ != "zswap"@);
    assert("pglazyfree"@ != "zswapped"@);
    assert("pglazyfree"@ != "file_mapped"@);
    assert("pglazyfree"@[0] == 'p' && "file_dirty"@[0] == 'f');
    assert("pglazyfree"@ != "file_dirty"@);
    assert("pglazyfree"@ != "file_writeback"@);
    assert("pglazyfree"@[0] == 'p' && "swapcached"@[0] == 's');
    assert("pglazyfree"@ != "swapcached"@);
    assert("pglazyfree"@ != "anon_thp"@);
    assert("pglazyfree"@ != "file_thp"@);
    assert("pglazyfree"@ != "shmem_thp"@);
    assert("pglazyfree"@ != "inactive_anon"@);
    assert("pglazyfree"@ != "active_anon"@);
    assert("pglazyfree"@ != "inactive_file"@);
    assert("pglazyfree"@ != "active_file"@);
    assert("pglazyfree"@ != "unevictable"@);
    assert("pglazyfree"@ != "slab_reclaimable"@);
    assert("pglazyfree"@ != "slab_unreclaimable"@);
    assert("pglazyfree"@ != "slab"@);
    assert("pglazyfree"@ != "workingset_refault_anon"@);
    assert("pglazyfree"@ != "workingset_refault_file"@);
    assert("pglazyfree"@ != "workingset_activate_anon"@);
    assert("pglazyfree"@ != "workingset_activate_file"@);
    assert("pglazyfree"@ != "workingset_restore_anon"@);
    assert("pglazyfree"@ != "workingset_restore_file"@);
    assert("pglazyfree"@ != "workingset_nodereclaim"@);
    assert("pglazyfree"@ != "pgscan"@);
    assert("pglazyfree"@ != "pgsteal"@);
    assert("pglazyfree"@ != "pgscan_kswapd"@);
    assert("pglazyfree"@ != "pgscan_direct"@);
    assert("pglazyfree"@ != "pgscan_khugepaged"@);
    assert("pglazyfree"@ != "pgsteal_kswapd"@);
    assert("pglazyfree"@ != "pgsteal_direct"@);
    assert("pglazyfree"@ != "pgsteal_khugepaged"@);
    assert("pglazyfree"@ != "pgfault"@);
    assert("pglazyfree"@[2] == 'l' && "pgmajfault"@[2] == 'm');
    assert("pglazyfree"@ != "pgmajfault"@);
    assert("pglazyfree"@ != "pgrefill"@);
    assert("pglazyfree"@[2] == 'l' && "pgactivate"@[2] == 'a');
    assert("pglazyfree"@ != "pgactivate"@);
    assert("pglazyfree"@ != "pgdeactivate"@);
    assert(stat_field(a, "pglazyfree"@) == a.pglazyfree);
    assert(stat_field(b, "pglazyfree"@) == b.pglazyfree);
}

/// Field lookup under the key `pglazyfreed` reads the `pglazyfreed` field.
proof fn lemma_field_eq_pglazyfreed(a: MemoryStat, b: MemoryStat)
    requires
        stat_field(a, "pglazyfreed"@) == stat_field(b, "pglazyfreed"@),
    ensures
        a.pglazyfreed == b.pglazyfreed,
{
    reveal_strlit("anon");
    reveal_strlit("file");
    reveal_strlit("kernel");
    reveal_strlit("kernel_stack");
    reveal_strlit("pagetables");
    reveal_strlit("sec_pagetables");
    reveal_strlit("percpu");
    reveal_strlit("sock");
    reveal_strlit("vmalloc");
    reveal_strlit("shmem");
    reveal_strlit("zswap");
    reveal_strlit("zswapped");
    reveal_strlit("file_mapped");
    reveal_strlit("file_dirty");
    reveal_strlit("file_writeback");
    reveal_strlit("swapcached");
    reveal_strlit("anon_thp");
    reveal_strlit("file_thp");
    reveal_strlit("shmem_thp");
    reveal_strlit("inactive_anon");
    reveal_strlit("active_anon");
    reveal_strlit("inactive_file");
    reveal_strlit("active_file");
    reveal_strlit("unevictable");
    reveal_strlit("slab_reclaimable");
    reveal_strlit("slab_unreclaimable");
    reveal_strlit("slab");
    reveal_strlit("workingset_refault_anon");
    reveal_strlit("workingset_refault_file");
    reveal_strlit("workingset_activate_anon");
    reveal_strlit("workingset_activate_file");
    reveal_strlit("workingset_restore_anon");
    reveal_strlit("workingset_restore_file");
    reveal_strlit("workingset_nodereclaim");
    reveal_strlit("pgscan");
    reveal_strlit("pgsteal");
    reveal_strlit("pgscan_kswapd");
    reveal_strlit("pgscan_direct");
    reveal_strlit("pgscan_khugepaged");
    reveal_strlit("pgsteal_kswapd");
    reveal_strlit("pgsteal_direct");
    reveal_strlit("pgsteal_khugepaged");
    reveal_strlit("pgfault");
    reveal_strlit("pgmajfault");
    reveal_strlit("pgrefill");
    reveal_strlit("pgactivate");
    reveal_strlit("pgdeactivate");
    reveal_strlit("pglazyfree");
    reveal_strlit("pglazyfreed");
    assert("anon"@.len() == 4);
    assert("file"@.len() == 4);
    assert("kernel"@.len() == 6);
    assert("kernel_stack"@.len() == 12);
    assert("pagetables"@.len() == 10);
    assert("sec_pagetables"@.len() == 14);
    assert("percpu"@.len() == 6);
    assert("sock"@.len() == 4);
    assert("vmalloc"@.len() == 7);
    assert("shmem"@.len() == 5);
    assert("zswap"@.len() == 5);
    assert("zswapped"@.len() == 8);
    assert("file_mapped"@.len() == 11);
    assert("file_dirty"@.len() == 10);
    assert("file_writeback"@.len() == 14);
    assert("swapcached"@.len() == 10);
    assert("anon_thp"@.len() == 8);
    assert("file_thp"@.len() == 8);
    assert("shmem_thp"@.len() == 9);
    assert("inactive_anon"@.len() == 13);
    assert("active_anon"@.len() == 11);
    assert("inactive_file"@.len() == 13);
    assert("active_file"@.len() == 11);
    assert("unevictable"@.len() == 11);
    assert("slab_reclaimable"@.len() == 16);
    assert("slab_unreclaimable"@.len() == 18);
    assert("slab"@.len() == 4);
    assert("workingset_refault_anon"@.len() == 23);
    assert("workingset_refault_file"@.len() == 23);
    assert("workingset_activate_anon"@.len() == 24);
    assert("workingset_activate_file"@.len() == 24);
    assert("workingset_restore_anon"@.len() == 23);
    assert("workingset_restore_file"@.len() == 23);
    assert("workingset_nodereclaim"@.len() == 22);
    assert("pgscan"@.len() == 6);
    assert("pgsteal"@.len() == 7);
    assert("pgscan_kswapd"@.len() == 13);
    assert("pgscan_direct"@.len() == 13);
    assert("pgscan_khugepaged"@.len() == 17);
    assert("pgsteal_kswapd"@.len() == 14);
    assert("pgsteal_direct"@.len() == 14);
    assert("pgsteal_khugepaged"@.len() == 18);
    assert("pgfault"@.len() == 7);
    assert("pgmajfault"@.len() == 10);
    assert("pgrefill"@.len() == 8);
    assert("pgactivate"@.len() == 10);
    assert("pgdeactivate"@.len() == 12);
    assert("pglazyfree"@.len() == 10);
    assert("pglazyfreed"@.len() == 11);
    assert("pglazyfreed"@ != "anon"@);
    assert("pglazyfreed"@ != "file"@);
    assert("pglazyfreed"@ != "kernel"@);
    assert("pglazyfreed"@ != "kernel_stack"@);
    assert("pglazyfreed"@ != "pagetables"@);
    assert("pglazyfreed"@ != "sec_pagetables"@);
    assert("pglazyfreed"@ != "percpu"@);
    assert("pglazyfreed"@ != "sock"@);
    assert("pglazyfreed"@ != "vmalloc"@);
    assert("pglazyfreed"@ != "shmem"@);
    assert("pglazyfreed"@ != "zswap"@);
    assert("pglazyfreed"@ != "zswapped"@);
    assert("pglazyfreed"@[0] == 'p' && "file_mapped"@[0] == 'f');
    assert("pglazyfreed"@ != "file_mapped"@);
    assert("pglazyfreed"@ != "file_dirty"@);
    assert("pglazyfreed"@ != "file_writeback"@);
    assert("pglazyfreed"@ != "swapcached"@);
    assert("pglazyfreed"@ != "anon_thp"@);
    assert("pglazyfreed"@ != "file_thp"@);
    assert("pglazyfreed"@ != "shmem_thp"@);
    assert("pglazyfreed"@ != "inactive_anon"@);
    assert("pglazyfreed"@[0] == 'p' && "active_anon"@[0] == 'a');
    assert("pglazyfreed"@ != "active_anon"@);
    assert("pglazyfreed"@ != "inactive_file"@);
    assert("pglazyfreed"@[0] == 'p' && "active_file"@[0] == 'a');
    assert("pglazyfreed"@ != "active_file"@);
    assert("pglazyfreed"@[0] == 'p' && "unevictable"@[0] == 'u');
    assert("pglazyfreed"@ != "unevictable"@);
    assert("pglazyfreed"@ != "slab_reclaimable"@);
    assert("pglazyfreed"@ != "slab_unreclaimable"@);
    assert("pglazyfreed"@ != "slab"@);
    assert("pglazyfreed"@ != "workingset_refault_anon"@);
    assert("pglazyfreed"@ != "workingset_refault_file"@);
    assert("pglazyfreed"@ != "workingset_activate_anon"@);
    assert("pglazyfreed"@ != "workingset_activate_file"@);
    assert("pglazyfreed"@ != "workingset_restore_anon"@);
    assert("pglazyfreed"@ != "workingset_restore_file"@);
    assert("pglazyfreed"@ != "workingset_nodereclaim"@);
    assert("pglazyfreed"@ != "pgscan"@);
    assert("pglazyfreed"@ != "pgsteal"@);
    assert("pglazyfreed"@ != "pgscan_kswapd"@);
    assert("pglazyfreed"@ != "pgscan_direct"@);
    assert("pglazyfreed"@ != "pgscan_khugepaged"@);
    assert("pglazyfreed"@ != "pgsteal_kswapd"@);
    assert("pglazyfreed"@ != "pgsteal_direct"@);
    assert("pglazyfreed"@ != "pgsteal_khugepaged"@);
    assert("pglazyfreed"@ != "pgfault"@);
    assert("pglazyfreed"@ != "pgmajfault"@);
    assert("pglazyfreed"@ != "pgrefill"@);
    assert("pglazyfreed"@ != "pgactivate"@);
    assert("pglazyfreed"@ != "pgdeactivate"@);
    assert("pglazyfreed"@ != "pglazyfree"@);
    assert(stat_field(a, "pglazyfreed"@) == a.pglazyfreed);
    assert(stat_field(b, "pglazyfreed"@) == b.pglazyfreed);
}

/// Field lookup under the key `zswpin` reads the `zswpin` field.
proof fn lemma_field_eq_zswpin(a: MemoryStat, b: MemoryStat)
    requires
        stat_field(a, "zswpin"@) == stat_field(b, "zswpin"@),
    ensures
        a.zswpin == b.zswpin,
{
    reveal_strlit("anon");
    reveal_strlit("file");
    reveal_strlit("kernel");
    reveal_strlit("kernel_stack");
    reveal_strlit("pagetables");
    reveal_strlit("sec_pagetables");
    reveal_strlit("percpu");
    reveal_strlit("sock");
    reveal_strlit("vmalloc");
    reveal_strlit("shmem");
    reveal_strlit("zswap");
    reveal_strlit("zswapped");
    reveal_strlit("file_mapped");
    reveal_strlit("file_dirty");
    reveal_strlit("file_writeback");
    reveal_strlit("swapcached");
    reveal_strlit("anon_thp");
    reveal_strlit("file_thp");
    reveal_strlit("shmem_thp");
    reveal_strlit("inactive_anon");
    reveal_strlit("active_anon");
    reveal_strlit("inactive_file");
    reveal_strlit("active_file");
    reveal_strlit("unevictable");
    reveal_strlit("slab_reclaimable");
    reveal_strlit("slab_unreclaimable");
    reveal_strlit("slab");
    reveal_strlit("workingset_refault_anon");
    reveal_strlit("workingset_refault_file");
    reveal_strlit("workingset_activate_anon");
    reveal_strlit("workingset_activate_file");
    reveal_strlit("workingset_restore_anon");
    reveal_strlit("workingset_restore_file");
    reveal_strlit("workingset_nodereclaim");
    reveal_strlit("pgscan");
    reveal_strlit("pgsteal");
    reveal_strlit("pgscan_kswapd");
    reveal_strlit("pgscan_direct");
    reveal_strlit("pgscan_khugepaged");
    reveal_strlit("pgsteal_kswapd");
    reveal_strlit("pgsteal_direct");
    reveal_strlit("pgsteal_khugepaged");
    reveal_strlit("pgfault");
    reveal_strlit("pgmajfault");
    reveal_strlit("pgrefill");
    reveal_strlit("pgactivate");
    reveal_strlit("pgdeactivate");
    reveal_strlit("pglazyfree");
    reveal_strlit("pglazyfreed");
    reveal_strlit("zswpin");
    assert("anon"@.len() == 4);
    assert("file"@.len() == 4);
    assert("kernel"@.len() == 6);
    assert("kernel_stack"@.len() == 12);
    assert("pagetables"@.len() == 10);
    assert("sec_pagetables"@.len() == 14);
    assert("percpu"@.len() == 6);
    assert("sock"@.len() == 4);
    assert("vmalloc"@.len() == 7);
    assert("shmem"@.len() == 5);
    assert("zswap"@.len() == 5);
    assert("zswapped"@.len() == 8);
    assert("file_mapped"@.len() == 11);
    assert("file_dirty"@.len() == 10);
    assert("file_writeback"@.len() == 14);
    assert("swapcached"@.len() == 10);
    assert("anon_thp"@.len() == 8);
    assert("file_thp"@.len() == 8);
    assert("shmem_thp"@.len() == 9);
    assert("inactive_anon"@.len() == 13);
    assert("active_anon"@.len() == 11);
    assert("inactive_file"@.len() == 13);
    assert("active_file"@.len() == 11);
    assert("unevictable"@.len() == 11);
    assert("slab_reclaimable"@.len() == 16);
    assert("slab_unreclaimable"@.len() == 18);
    assert("slab"@.len() == 4);
    assert("workingset_refault_anon"@.len() == 23);
    assert("workingset_refault_file"@.len() == 23);
    assert("workingset_activate_anon"@.len() == 24);
    assert("workingset_activate_file"@.len() == 24);
    assert("workingset_restore_anon"@.len() == 23);
    assert("workingset_restore_file"@.len() == 23);
    assert("workingset_nodereclaim"@.len() == 22);
    assert("pgscan"@.len() == 6);
    assert("pgsteal"@.len() == 7);
    assert("pgscan_kswapd"@.len() == 13);
    assert("pgscan_direct"@.len() == 13);
    assert("pgscan_khugepaged"@.len() == 17);
    assert("pgsteal_kswapd"@.len() == 14);
    assert("pgsteal_direct"@.len() == 14);
    assert("pgsteal_khugepaged"@.len() == 18);
    assert("pgfault"@.len() == 7);
    assert("pgmajfault"@.len() == 10);
    assert("pgrefill"@.len() == 8);
    assert("pgactivate"@.len() == 10);
    assert("pgdeactivate"@.len() == 12);
    assert("pglazyfree"@.len() == 10);
    assert("pglazyfreed"@.len() == 11);
    assert("zswpin"@.len() == 6);
    assert("zswpin"@ != "anon"@);
    assert("zswpin"@ != "file"@);
    assert("zswpin"@[0] == 'z' && "kernel"@[0] == 'k');
    assert("zswpin"@ != "kernel"@);
    assert("zswpin"@ != "kernel_stack"@);
    assert("zswpin"@ != "pagetables"@);
    assert("zswpin"@ != "sec_pagetables"@);
    assert("zswpin"@[0] == 'z' && "percpu"@[0] == 'p');
    assert("zswpin"@ != "percpu"@);
    assert("zswpin"@ != "sock"@);
    assert("zswpin"@ != "vmalloc"@);
    assert("zswpin"@ != "shmem"@);
    assert("zswpin"@ != "zswap"@);
    assert("zswpin"@ != "zswapped"@);
    assert("zswpin"@ != "file_mapped"@);
    assert("zswpin"@ != "file_dirty"@);
    assert("zswpin"@ != "file_writeback"@);
    assert("zswpin"@ != "swapcached"@);
    assert("zswpin"@ != "anon_thp"@);
    assert("zswpin"@ != "file_thp"@);
    assert("zswpin"@ != "shmem_thp"@);
    assert("zswpin"@ != "inactive_anon"@);
    assert("zswpin"@ != "active_anon"@);
    assert("zswpin"@ != "inactive_file"@);
    assert("zswpin"@ != "active_file"@);
    assert("zswpin"@ != "unevictable"@);
    assert("zswpin"@ != "slab_reclaimable"@);
    assert("zswpin"@ != "slab_unreclaimable"@);
    assert("zswpin"@ != "slab"@);
    assert("zswpin"@ != "workingset_refault_anon"@);
    assert("zswpin"@ != "workingset_refault_file"@);
    assert("zswpin"@ != "workingset_activate_anon"@);
    assert("zswpin"@ != "workingset_activate_file"@);
    assert("zswpin"@ != "workingset_restore_anon"@);
    assert("zswpin"@ != "workingset_restore_file"@);
    assert("zswpin"@ != "workingset_nodereclaim"@);
    assert("zswpin"@[0] == 'z' && "pgscan"@[0] == 'p');
    assert("zswpin"@ != "pgscan"@);
    assert("zswpin"@ != "pgsteal"@);
    assert("zswpin"@ != "pgscan_kswapd"@);
    assert("zswpin"@ != "pgscan_direct"@);
    assert("zswpin"@ != "pgscan_khugepaged"@);
    assert("zswpin"@ != "pgsteal_kswapd"@);
    assert("zswpin"@ != "pgsteal_direct"@);
    assert("zswpin"@ != "pgsteal_khugepaged"@);
    assert("zswpin"@ != "pgfault"@);
    assert("zswpin"@ != "pgmajfault"@);
    assert("zswpin"@ != "pgrefill"@);
    assert("zswpin"@ != "pgactivate"@);
    assert("zswpin"@ != "pgdeactivate"@);
    assert("zswpin"@ != "pglazyfree"@);
    assert("zswpin"@ != "pglazyfreed"@);
    assert(stat_field(a, "zswpin"@) == a.zswpin);
    assert(stat_field(b, "zswpin"@) == b.zswpin);
}

/// Field lookup under the key `zswpout` reads the `zswpout` field.
proof fn lemma_field_eq_zswpout(a: MemoryStat, b: MemoryStat)
    requires
        stat_field(a, "zswpout"@) == stat_field(b, "zswpout"@),
    ensures
        a.zswpout == b.zswpout,
{
    reveal_strlit("anon");
    reveal_strlit("file");
    reveal_strlit("kernel");
    reveal_strlit("kernel_stack");
    reveal_strlit("pagetables");
    reveal_strlit("sec_pagetables");
    reveal_strlit("percpu");
    reveal_strlit("sock");
    reveal_strlit("vmalloc");
    reveal_strlit("shmem");
    reveal_strlit("zswap");
    reveal_strlit("zswapped");
    reveal_strlit("file_mapped");
    reveal_strlit("file_dirty");
    reveal_strlit("file_writeback");
    reveal_strlit("swapcached");
    reveal_strlit("anon_thp");
    reveal_strlit("file_thp");
    reveal_strlit("shmem_thp");
    reveal_strlit("inactive_anon");
    reveal_strlit("active_anon");
    reveal_strlit("inactive_file");
    reveal_strlit("active_file");
    reveal_strlit("unevictable");
    reveal_strlit("slab_reclaimable");
    reveal_strlit("slab_unreclaimable");
    reveal_strlit("slab");
    reveal_strlit("workingset_refault_anon");
    reveal_strlit("workingset_refault_file");
    reveal_strlit("workingset_activate_anon");
    reveal_strlit("workingset_activate_file");
    reveal_strlit("workingset_restore_anon");
    reveal_strlit("workingset_restore_file");
    reveal_strlit("workingset_nodereclaim");
    reveal_strlit("pgscan");
    reveal_strlit("pgsteal");
    reveal_strlit("pgscan_kswapd");
    reveal_strlit("pgscan_direct");
    reveal_strlit("pgscan_khugepaged");
    reveal_strlit("pgsteal_kswapd");
    reveal_strlit("pgsteal_direct");
    reveal_strlit("pgsteal_khugepaged");
    reveal_strlit("pgfault");
    reveal_strlit("pgmajfault");
    reveal_strlit("pgrefill");
    reveal_strlit("pgactivate");
    reveal_strlit("pgdeactivate");
    reveal_strlit("pglazyfree");
    reveal_strlit("pglazyfreed");
    reveal_strlit("zswpin");
    reveal_strlit("zswpout");
    assert("anon"@.len() == 4);
    assert("file"@.len() == 4);
    assert("kernel"@.len() == 6);
    assert("kernel_stack"@.len() == 12);
    assert("pagetables"@.len() == 10);
    assert("sec_pagetables"@.len() == 14);
    assert("percpu"@.len() == 6);
    assert("sock"@.len() == 4);
    assert("vmalloc"@.len() == 7);
    assert("shmem"@.len() == 5);
    assert("zswap"@.len() == 5);
    assert("zswapped"@.len() == 8);
    assert("file_mapped"@.len() == 11);
    assert("file_dirty"@.len() == 10);
    assert("file_writeback"@.len() == 14);
    assert("swapcached"@.len() == 10);
    assert("anon_thp"@.len() == 8);
    assert("file_thp"@.len() == 8);
    assert("shmem_thp"@.len() == 9);
    assert("inactive_anon"@.len() == 13);
    assert("active_anon"@.len() == 11);
    assert("inactive_file"@.len() == 13);
    assert("active_file"@.len() == 11);
    assert("unevictable"@.len() == 11);
    assert("slab_reclaimable"@.len() == 16);
    assert("slab_unreclaimable"@.len() == 18);
    assert("slab"@.len() == 4);
    assert("workingset_refault_anon"@.len() == 23);
    assert("workingset_refault_file"@.len() == 23);
    assert("workingset_activate_anon"@.len() == 24);
    assert("workingset_activate_file"@.len() == 24);
    assert("workingset_restore_anon"@.len() == 23);
    assert("workingset_restore_file"@.len() == 23);
    assert("workingset_nodereclaim"@.len() == 22);
    assert("pgscan"@.len() == 6);
    assert("pgsteal"@.len() == 7);
    assert("pgscan_kswapd"@.len() == 13);
    assert("pgscan_direct"@.len() == 13);
    assert("pgscan_khugepaged"@.len() == 17);
    assert("pgsteal_kswapd"@.len() == 14);
    assert("pgsteal_direct"@.len() == 14);
    assert("pgsteal_khugepaged"@.len() == 18);
    assert("pgfault"@.len() == 7);
    assert("pgmajfault"@.len() == 10);
    assert("pgrefill"@.len() == 8);
    assert("pgactivate"@.len() == 10);
    assert("pgdeactivate"@.len() == 12);
    assert("pglazyfree"@.len() == 10);
    assert("pglazyfreed"@.len() == 11);
    assert("zswpin"@.len() == 6);
    assert("zswpout"@.len() == 7);
    assert("zswpout"@ != "anon"@);
    assert("zswpout"@ != "file"@);
    assert("zswpout"@ != "kernel"@);
    assert("zswpout"@ != "kernel_stack"@);
    assert("zswpout"@ != "pagetables"@);
    assert("zswpout"@ != "sec_pagetables"@);
    assert("zswpout"@ != "percpu"@);
    assert("zswpout"@ != "sock"@);
    assert("zswpout"@[0] == 'z' && "vmalloc"@[0] == 'v');
    assert("zswpout"@ != "vmalloc"@);
    assert("zswpout"@ != "shmem"@);
    assert("zswpout"@ != "zswap"@);
    assert("zswpout"@ != "zswapped"@);
    assert("zswpout"@ != "file_mapped"@);
    assert("zswpout"@ != "file_dirty"@);
    assert("zswpout"@ != "file_writeback"@);
    assert("zswpout"@ != "swapcached"@);
    assert("zswpout"@ != "anon_thp"@);
    assert("zswpout"@ != "file_thp"@);
    assert("zswpout"@ != "shmem_thp"@);
    assert("zswpout"@ != "inactive_anon"@);
    assert("zswpout"@ != "active_anon"@);
    assert("zswpout"@ != "inactive_file"@);
    assert("zswpout"@ != "active_file"@);
    assert("zswpout"@ != "unevictable"@);
    assert("zswpout"@ != "slab_reclaimable"@);
    assert("zswpout"@ != "slab_unreclaimable"@);
    assert("zswpout"@ != "slab"@);
    assert("zswpout"@ != "workingset_refault_anon"@);
    assert("zswpout"@ != "workingset_refault_file"@);
    assert("zswpout"@ != "workingset_activate_anon"@);
    assert("zswpout"@ != "workingset_activate_file"@);
    assert("zswpout"@ != "workingset_restore_anon"@);
    assert("zswpout"@ != "workingset_restore_file"@);
    assert("zswpout"@ != "workingset_nodereclaim"@);
    assert("zswpout"@ != "pgscan"@);
    assert("zswpout"@[0] == 'z' && "pgsteal"@[0] == 'p');
    assert("zswpout"@ != "pgsteal"@);
    assert("zswpout"@ != "pgscan_kswapd"@);
    assert("zswpout"@ != "pgscan_direct"@);
    assert("zswpout"@ != "pgscan_khugepaged"@);
    assert("zswpout"@ != "pgsteal_kswapd"@);
    assert("zswpout"@ != "pgsteal_direct"@);
    assert("zswpout"@ != "pgsteal_khugepaged"@);
    assert("zswpout"@[0] == 'z' && "pgfault"@[0] == 'p');
    assert("zswpout"@ != "pgfault"@);
    assert("zswpout"@ != "pgmajfault"@);
    assert("zswpout"@ != "pgrefill"@);
    assert("zswpout"@ != "pgactivate"@);
    assert("zswpout"@ != "pgdeactivate"@);
    assert("zswpout"@ != "pglazyfree"@);
    assert("zswpout"@ != "pglazyfreed"@);
    assert("zswpout"@ != "zswpin"@);
    assert(stat_field(a, "zswpout"@) == a.zswpout);
    assert(stat_field(b, "zswpout"@) == b.zswpout);
}

/// Field lookup under the key `thp_fault_alloc` reads the `thp_fault_alloc` field.
proof fn lemma_field_eq_thp_fault_alloc(a: MemoryStat, b: MemoryStat)
    requires
        stat_field(a, "thp_fault_alloc"@) == stat_field(b, "thp_fault_alloc"@),
    ensures
        a.thp_fault_alloc == b.thp_fault_alloc,
{
    reveal_strlit("anon");
    reveal_strlit("file");
    reveal_strlit("kernel");
    reveal_strlit("kernel_stack");
    reveal_strlit("pagetables");
    reveal_strlit("sec_pagetables");
    reveal_strlit("percpu");
    reveal_strlit("sock");
    reveal_strlit("vmalloc");
    reveal_strlit("shmem");
    reveal_strlit("zswap");
    reveal_strlit("zswapped");
    reveal_strlit("file_mapped");
    reveal_strlit("file_dirty");
    reveal_strlit("file_writeback");
    reveal_strlit("swapcached");
    reveal_strlit("anon_thp");
    reveal_strlit("file_thp");
    reveal_strlit("shmem_thp");
    reveal_strlit("inactive_anon");
    reveal_strlit("active_anon");
    reveal_strlit("inactive_file");
    reveal_strlit("active_file");
    reveal_strlit("unevictable");
    reveal_strlit("slab_reclaimable");
    reveal_strlit("slab_unreclaimable");
    reveal_strlit("slab");
    reveal_strlit("workingset_refault_anon");
    reveal_strlit("workingset_refault_file");
    reveal_strlit("workingset_activate_anon");
    reveal_strlit("workingset_activate_file");
    reveal_strlit("workingset_restore_anon");
    reveal_strlit("workingset_restore_file");
    reveal_strlit("workingset_nodereclaim");
    reveal_strlit("pgscan");
    reveal_strlit("pgsteal");
    reveal_strlit("pgscan_kswapd");
    reveal_strlit("pgscan_direct");
    reveal_strlit("pgscan_khugepaged");
    reveal_strlit("pgsteal_kswapd");
    reveal_strlit("pgsteal_direct");
    reveal_strlit("pgsteal_khugepaged");
    reveal_strlit("pgfault");
    reveal_strlit("pgmajfault");
    reveal_strlit("pgrefill");
    reveal_strlit("pgactivate");
    reveal_strlit("pgdeactivate");
    reveal_strlit("pglazyfree");
    reveal_strlit("pglazyfreed");
    reveal_strlit("zswpin");
    reveal_strlit("zswpout");
    reveal_strlit("thp_fault_alloc");
    assert("anon"@.len() == 4);
    assert("file"@.len() == 4);
    assert("kernel"@.len() == 6);
    assert("kernel_stack"@.len() == 12);
    assert("pagetables"@.len() == 10);
    assert("sec_pagetables"@.len() == 14);
    assert("percpu"@.len() == 6);
    assert("sock"@.len() == 4);
    assert("vmalloc"@.len() == 7);
    assert("shmem"@.len() == 5);
    assert("zswap"@.len() == 5);
    assert("zswapped"@.len() == 8);
    assert("file_mapped"@.len() == 11);
    assert("file_dirty"@.len() == 10);
    assert("file_writeback"@.len() == 14);
    assert("swapcached"@.len() == 10);
    assert("anon_thp"@.len() == 8);
    assert("file_thp"@.len() == 8);
    assert("shmem_thp"@.len() == 9);
    assert("inactive_anon"@.len() == 13);
    assert("active_anon"@.len() == 11);
    assert("inactive_file"@.len() == 13);
    assert("active_file"@.len() == 11);
    assert("unevictable"@.len() == 11);
    assert("slab_reclaimable"@.len() == 16);
    assert("slab_unreclaimable"@.len() == 18);
    assert("slab"@.len() == 4);
    assert("workingset_refault_anon"@.len() == 23);
    assert("workingset_refault_file"@.len() == 23);
    assert("workingset_activate_anon"@.len() == 24);
    assert("workingset_activate_file"@.len() == 24);
    assert("workingset_restore_anon"@.len() == 23);
    assert("workingset_restore_file"@.len() == 23);
    assert("workingset_nodereclaim"@.len() == 22);
    assert("pgscan"@.len() == 6);
    assert("pgsteal"@.len() == 7);
    assert("pgscan_kswapd"@.len() == 13);
    assert("pgscan_direct"@.len() == 13);
    assert("pgscan_khugepaged"@.len() == 17);
    assert("pgsteal_kswapd"@.len() == 14);
    assert("pgsteal_direct"@.len() == 14);
    assert("pgsteal_khugepaged"@.len() == 18);
    assert("pgfault"@.len() == 7);
    assert("pgmajfault"@.len() == 10);
    assert("pgrefill"@.len() == 8);
    assert("pgactivate"@.len() == 10);
    assert("pgdeactivate"@.len() == 12);
    assert("pglazyfree"@.len() == 10);
    assert("pglazyfreed"@.len() == 11);
    assert("zswpin"@.len() == 6);
    assert("zswpout"@.len() == 7);
    assert("thp_fault_alloc"@.len() == 15);
    assert("thp_fault_alloc"@ != "anon"@);
    assert("thp_fault_alloc"@ != "file"@);
    assert("thp_fault_alloc"@ != "kernel"@);
    assert("thp_fault_alloc"@ != "kernel_stack"@);
    assert("thp_fault_alloc"@ != "pagetables"@);
    assert("thp_fault_alloc"@ != "sec_pagetables"@);
    assert("thp_fault_alloc"@ != "percpu"@);
    assert("thp_fault_alloc"@ != "sock"@);
    assert("thp_fault_alloc"@ != "vmalloc"@);
    assert("thp_fault_alloc"@ != "shmem"@);
    assert("thp_fault_alloc"@ != "zswap"@);
    assert("thp_fault_alloc"@ != "zswapped"@);
    assert("thp_fault_alloc"@ != "file_mapped"@);
    assert("thp_fault_alloc"@ != "file_dirty"@);
    assert("thp_fault_alloc"@ != "file_writeback"@);
    assert("thp_fault_alloc"@ != "swapcached"@);
    assert("thp_fault_alloc"@ != "anon_thp"@);
    assert("thp_fault_alloc"@ != "file_thp"@);
    assert("thp_fault_alloc"@ != "shmem_thp"@);
    assert("thp_fault_alloc"@ != "inactive_anon"@);
    assert("thp_fault_alloc"@ != "active_anon"@);
    assert("thp_fault_alloc"@ != "inactive_file"@);
    assert("thp_fault_alloc"@ != "active_file"@);
    assert("thp_fault_alloc"@ != "unevictable"@);
    assert("thp_fault_alloc"@ != "slab_reclaimable"@);
    assert("thp_fault_alloc"@ != "slab_unreclaimable"@);
    assert("thp_fault_alloc"@ != "slab"@);
    assert("thp_fault_alloc"@ != "workingset_refault_anon"@);
    assert("thp_fault_alloc"@ != "workingset_refault_file"@);
    assert("thp_fault_alloc"@ != "workingset_activate_anon"@);
    assert("thp_fault_alloc"@ != "workingset_activate_file"@);
    assert("thp_fault_alloc"@ != "workingset_restore_anon"@);
    assert("thp_fault_alloc"@ != "workingset_restore_file"@);
    assert("thp_fault_alloc"@ != "workingset_nodereclaim"@);
    assert("thp_fault_alloc"@ != "pgscan"@);
    assert("thp_fault_alloc"@ != "pgsteal"@);
    assert("thp_fault_alloc"@ != "pgscan_kswapd"@);
    assert("thp_fault_alloc"@ != "pgscan_direct"@);
    assert("thp_fault_alloc"@ != "pgscan_khugepaged"@);
    assert("thp_fault_alloc"@ != "pgsteal_kswapd"@);
    assert("thp_fault_alloc"@ != "pgsteal_direct"@);
    assert("thp_fault_alloc"@ != "pgsteal_khugepaged"@);
    assert("thp_fault_alloc"@ != "pgfault"@);
    assert("thp_fault_alloc"@ != "pgmajfault"@);
    assert("thp_fault_alloc"@ != "pgrefill"@);
    assert("thp_fault_alloc"@ != "pgactivate"@);
    assert("thp_fault_alloc"@ != "pgdeactivate"@);
    assert("thp_fault_alloc"@ != "pglazyfree"@);
    assert("thp_fault_alloc"@ != "pglazyfreed"@);
    assert("thp_fault_alloc"@ != "zswpin"@);
    assert("thp_fault_alloc"@ != "zswpout"@);
    assert(stat_field(a, "thp_fault_alloc"@) == a.thp_fault_alloc);
    assert(stat_field(b, "thp_fault_alloc"@) == b.thp_fault_alloc);
}

/// Field lookup under the key `thp_collapse_alloc` reads the `thp_collapse_alloc` field.
proof fn lemma_field_eq_thp_collapse_alloc(a: MemoryStat, b: MemoryStat)
    requires
        stat_field(a, "thp_collapse_alloc"@) == stat_field(b, "thp_collapse_alloc"@),
    ensures
        a.thp_collapse_alloc == b.thp_collapse_alloc,
{
    reveal_strlit("anon");
    reveal_strlit("file");
    reveal_strlit("kernel");
    reveal_strlit("kernel_stack");
    reveal_strlit("pagetables");
    reveal_strlit("sec_pagetables");
    reveal_strlit("percpu");
    reveal_strlit("sock");
    reveal_strlit("vmalloc");
    reveal_strlit("shmem");
    reveal_strlit("zswap");
    reveal_strlit("zswapped");
    reveal_strlit("file_mapped");
    reveal_strlit("file_dirty");
    reveal_strlit("file_writeback");
    reveal_strlit("swapcached");
    reveal_strlit("anon_thp");
    reveal_strlit("file_thp");
    reveal_strlit("shmem_thp");
    reveal_strlit("inactive_anon");
    reveal_strlit("active_anon");
    reveal_strlit("inactive_file");
    reveal_strlit("active_file");
    reveal_strlit("unevictable");
    reveal_strlit("slab_reclaimable");
    reveal_strlit("slab_unreclaimable");
    reveal_strlit("slab");
    reveal_strlit("workingset_refault_anon");
    reveal_strlit("workingset_refault_file");
    reveal_strlit("workingset_activate_anon");
    reveal_strlit("workingset_activate_file");
    reveal_strlit("workingset_restore_anon");
    reveal_strlit("workingset_restore_file");
    reveal_strlit("workingset_nodereclaim");
    reveal_strlit("pgscan");
    reveal_strlit("pgsteal");
    reveal_strlit("pgscan_kswapd");
    reveal_strlit("pgscan_direct");
    reveal_strlit("pgscan_khugepaged");
    reveal_strlit("pgsteal_kswapd");
    reveal_strlit("pgsteal_direct");
    reveal_strlit("pgsteal_khugepaged");
    reveal_strlit("pgfault");
    reveal_strlit("pgmajfault");
    reveal_strlit("pgrefill");
    reveal_strlit("pgactivate");
    reveal_strlit("pgdeactivate");
    reveal_strlit("pglazyfree");
    reveal_strlit("pglazyfreed");
    reveal_strlit("zswpin");
    reveal_strlit("zswpout");
    reveal_strlit("thp_fault_alloc");
    reveal_strlit("thp_collapse_alloc");
    assert("anon"@.len() == 4);
    assert("file"@.len() == 4);
    assert("kernel"@.len() == 6);
    assert("kernel_stack"@.len() == 12);
    assert("pagetables"@.len() == 10);
    assert("sec_pagetables"@.len() == 14);
    assert("percpu"@.len() == 6);
    assert("sock"@.len() == 4);
    assert("vmalloc"@.len() == 7);
    assert("shmem"@.len() == 5);
    assert("zswap"@.len() == 5);
    assert("zswapped"@.len() == 8);
    assert("file_mapped"@.len() == 11);
    assert("file_dirty"@.len() == 10);
    assert("file_writeback"@.len() == 14);
    assert("swapcached"@.len() == 10);
    assert("anon_thp"@.len() == 8);
    assert("file_thp"@.len() == 8);
    assert("shmem_thp"@.len() == 9);
    assert("inactive_anon"@.len() == 13);
    assert("active_anon"@.len() == 11);
    assert("inactive_file"@.len() == 13);
    assert("active_file"@.len() == 11);
    assert("unevictable"@.len() == 11);
    assert("slab_reclaimable"@.len() == 16);
    assert("slab_unreclaimable"@.len() == 18);
    assert("slab"@.len() == 4);
    assert("workingset_refault_anon"@.len() == 23);
    assert("workingset_refault_file"@.len() == 23);
    assert("workingset_activate_anon"@.len() == 24);
    assert("workingset_activate_file"@.len() == 24);
    assert("workingset_restore_anon"@.len() == 23);
    assert("workingset_restore_file"@.len() == 23);
    assert("workingset_nodereclaim"@.len() == 22);
    assert("pgscan"@.len() == 6);
    assert("pgsteal"@.len() == 7);
    assert("pgscan_kswapd"@.len() == 13);
    assert("pgscan_direct"@.len() == 13);
    assert("pgscan_khugepaged"@.len() == 17);
    assert("pgsteal_kswapd"@.len() == 14);
    assert("pgsteal_direct"@.len() == 14);
    assert("pgsteal_khugepaged"@.len() == 18);
    assert("pgfault"@.len() == 7);
    assert("pgmajfault"@.len() == 10);
    assert("pgrefill"@.len() == 8);
    assert("pgactivate"@.len() == 10);
    assert("pgdeactivate"@.len() == 12);
    assert("pglazyfree"@.len() == 10);
    assert("pglazyfreed"@.len() == 11);
    assert("zswpin"@.len() == 6);
    assert("zswpout"@.len() == 7);
    assert("thp_fault_alloc"@.len() == 15);
    assert("thp_collapse_alloc"@.len() == 18);
    assert("thp_collapse_alloc"@ != "anon"@);
    assert("thp_collapse_alloc"@ != "file"@);
    assert("thp_collapse_alloc"@ != "kernel"@);
    assert("thp_collapse_alloc"@ != "kernel_stack"@);
    assert("thp_collapse_alloc"@ != "pagetables"@);
    assert("thp_collapse_alloc"@ != "sec_pagetables"@);
    assert("thp_collapse_alloc"@ != "percpu"@);
    assert("thp_collapse_alloc"@ != "sock"@);
    assert("thp_collapse_alloc"@ != "vmalloc"@);
    assert("thp_collapse_alloc"@ != "shmem"@);
    assert("thp_collapse_alloc"@ != "zswap"@);
    assert("thp_collapse_alloc"@ != "zswapped"@);
    assert("thp_collapse_alloc"@ != "file_mapped"@);
    assert("thp_collapse_alloc"@ != "file_dirty"@);
    assert("thp_collapse_alloc"@ != "file_writeback"@);
    assert("thp_collapse_alloc"@ != "swapcached"@);
    assert("thp_collapse_alloc"@ != "anon_thp"@);
    assert("thp_collapse_alloc"@ != "file_thp"@);
    assert("thp_collapse_alloc"@ != "shmem_thp"@);
    assert("thp_collapse_alloc"@ != "inactive_anon"@);
    assert("thp_collapse_alloc"@ != "active_anon"@);
    assert("thp_collapse_alloc"@ != "inactive_file"@);
    assert("thp_collapse_alloc"@ != "active_file"@);
    assert("thp_collapse_alloc"@ != "unevictable"@);
    assert("thp_collapse_alloc"@ != "slab_reclaimable"@);
    assert("thp_collapse_alloc"@[0] == 't' && "slab_unreclaimable"@[0] == 's');
    assert("thp_collapse_alloc"@ != "slab_unreclaimable"@);
    assert("thp_collapse_alloc"@ != "slab"@);
    assert("thp_collapse_alloc"@ != "workingset_refault_anon"@);
    assert("thp_collapse_alloc"@ != "workingset_refault_file"@);
    assert("thp_collapse_alloc"@ != "workingset_activate_anon"@);
    assert("thp_collapse_alloc"@ != "workingset_activate_file"@);
    assert("thp_collapse_alloc"@ != "workingset_restore_anon"@);
    assert("thp_collapse_alloc"@ != "workingset_restore_file"@);
    assert("thp_collapse_alloc"@ != "workingset_nodereclaim"@);
    assert("thp_collapse_alloc"@ != "pgscan"@);
    assert("thp_collapse_alloc"@ != "pgsteal"@);
    assert("thp_collapse_alloc"@ != "pgscan_kswapd"@);
    assert("thp_collapse_alloc"@ != "pgscan_direct"@);
    assert("thp_collapse_alloc"@ != "pgscan_khugepaged"@);
    assert("thp_collapse_alloc"@ != "pgsteal_kswapd"@);
    assert("thp_collapse_alloc"@ != "pgsteal_direct"@);
    assert("thp_collapse_alloc"@[0] == 't' && "pgsteal_khugepaged"@[0] == 'p');
    assert("thp_collapse_alloc"@ != "pgsteal_khugepaged"@);
    assert("thp_collapse_alloc"@ != "pgfault"@);
    assert("thp_collapse_alloc"@ != "pgmajfault"@);
    assert("thp_collapse_alloc"@ != "pgrefill"@);
    assert("thp_collapse_alloc"@ != "pgactivate"@);
    assert("thp_collapse_alloc"@ != "pgdeactivate"@);
    assert("thp_collapse_alloc"@ != "pglazyfree"@);
    assert("thp_collapse_alloc"@ != "pglazyfreed"@);
    assert("thp_collapse_alloc"@ != "zswpin"@);
    assert("thp_collapse_alloc"@ != "zswpout"@);
    assert("thp_collapse_alloc"@ != "thp_fault_alloc"@);
    assert(stat_field(a, "thp_collapse_alloc"@) == a.thp_collapse_alloc);
    assert(stat_field(b, "thp_collapse_alloc"@) == b.thp_collapse_alloc);
}

/// Two records whose fields agree under every known key are equal.
proof fn lemma_stat_eq_from_fields(a: MemoryStat, b: MemoryStat)
    requires
        forall|k: Seq<char>| known_key(k) ==> stat_field(a, k) == stat_field(b, k),
    ensures
        a == b,
{
    assert(known_key("anon"@)) by {
        reveal_strlit("anon");
    }
    lemma_field_eq_anon(a, b);
    assert(known_key("file"@)) by {
        reveal_strlit("file");
    }
    lemma_field_eq_file(a, b);
    assert(known_key("kernel"@)) by {
        reveal_strlit("kernel");
    }
    lemma_field_eq_kernel(a, b);
    assert(known_key("kernel_stack"@)) by {
        reveal_strlit("kernel_stack");
    }
    lemma_field_eq_kernel_stack(a, b);
    assert(known_key("pagetables"@)) by {
        reveal_strlit("pagetables");
    }
    lemma_field_eq_pagetables(a, b);
    assert(known_key("sec_pagetables"@)) by {
        reveal_strlit("sec_pagetables");
    }
    lemma_field_eq_sec_pagetables(a, b);
    assert(known_key("percpu"@)) by {
        reveal_strlit("percpu");
    }
    lemma_field_eq_percpu(a, b);
    assert(known_key("sock"@)) by {
        reveal_strlit("sock");
    }
    lemma_field_eq_sock(a, b);
    assert(known_key("vmalloc"@)) by {
        reveal_strlit("vmalloc");
    }
    lemma_field_eq_vmalloc(a, b);
    assert(known_key("shmem"@)) by {
        reveal_strlit("shmem");
    }
    lemma_field_eq_shmem(a, b);
    assert(known_key("zswap"@)) by {
        reveal_strlit("zswap");
    }
    lemma_field_eq_zswap(a, b);
    assert(known_key("zswapped"@)) by {
        reveal_strlit("zswapped");
    }
    lemma_field_eq_zswapped(a, b);
    assert(known_key("file_mapped"@)) by {
        reveal_strlit("file_mapped");
    }
    lemma_field_eq_file_mapped(a, b);
    assert(known_key("file_dirty"@)) by {
        reveal_strlit("file_dirty");
    }
    lemma_field_eq_file_dirty(a, b);
    assert(known_key("file_writeback"@)) by {
        reveal_strlit("file_writeback");
    }
    lemma_field_eq_file_writeback(a, b);
    assert(known_key("swapcached"@)) by {
        reveal_strlit("swapcached");
    }
    lemma_field_eq_swapcached(a, b);
    assert(known_key("anon_thp"@)) by {
        reveal_strlit("anon_thp");
    }
    lemma_field_eq_anon_thp(a, b);
    assert(known_key("file_thp"@)) by {
        reveal_strlit("file_thp");
    }
    lemma_field_eq_file_thp(a, b);
    assert(known_key("shmem_thp"@)) by {
        reveal_strlit("shmem_thp");
    }
    lemma_field_eq_shmem_thp(a, b);
    assert(known_key("inactive_anon"@)) by {
        reveal_strlit("inactive_anon");
    }
    lemma_field_eq_inactive_anon(a, b);
    assert(known_key("active_anon"@)) by {
        reveal_strlit("active_anon");
    }
    lemma_field_eq_active_anon(a, b);
    assert(known_key("inactive_file"@)) by {
        reveal_strlit("inactive_file");
    }
    lemma_field_eq_inactive_file(a, b);
    assert(known_key("active_file"@)) by {
        reveal_strlit("active_file");
    }
    lemma_field_eq_active_file(a, b);
    assert(known_key("unevictable"@)) by {
        reveal_strlit("unevictable");
    }
    lemma_field_eq_unevictable(a, b);
    assert(known_key("slab_reclaimable"@)) by {
        reveal_strlit("slab_reclaimable");
    }
    lemma_field_eq_slab_reclaimable(a, b);
    assert(known_key("slab_unreclaimable"@)) by {
        reveal_strlit("slab_unreclaimable");
    }
    lemma_field_eq_slab_unreclaimable(a, b);
    assert(known_key("slab"@)) by {
        reveal_strlit("slab");
    }
    lemma_field_eq_slab(a, b);
    assert(known_key("workingset_refault_anon"@)) by {
        reveal_strlit("workingset_refault_anon");
    }
    lemma_field_eq_workingset_refault_anon(a, b);
    assert(known_key("workingset_refault_file"@)) by {
        reveal_strlit("workingset_refault_file");
    }
    lemma_field_eq_workingset_refault_file(a, b);
    assert(known_key("workingset_activate_anon"@)) by {
        reveal_strlit("workingset_activate_anon");
    }
    lemma_field_eq_workingset_activate_anon(a, b);
    assert(known_key("workingset_activate_file"@)) by {
        reveal_strlit("workingset_activate_file");
    }
    lemma_field_eq_workingset_activate_file(a, b);
    assert(known_key("workingset_restore_anon"@)) by {
        reveal_strlit("workingset_restore_anon");
    }
    lemma_field_eq_workingset_restore_anon(a, b);
    assert(known_key("workingset_restore_file"@)) by {
        reveal_strlit("workingset_restore_file");
    }
    lemma_field_eq_workingset_restore_file(a, b);
    assert(known_key("workingset_nodereclaim"@)) by {
        reveal_strlit("workingset_nodereclaim");
    }
    lemma_field_eq_workingset_nodereclaim(a, b);
    assert(known_key("pgscan"@)) by {
        reveal_strlit("pgscan");
    }
    lemma_field_eq_pgscan(a, b);
    assert(known_key("pgsteal"@)) by {
        reveal_strlit("pgsteal");
    }
    lemma_field_eq_pgsteal(a, b);
    assert(known_key("pgscan_kswapd"@)) by {
        reveal_strlit("pgscan_kswapd");
    }
    lemma_field_eq_pgscan_kswapd(a, b);
    assert(known_key("pgscan_direct"@)) by {
        reveal_strlit("pgscan_direct");
    }
    lemma_field_eq_pgscan_direct(a, b);
    assert(known_key("pgscan_khugepaged"@)) by {
        reveal_strlit("pgscan_khugepaged");
    }
    lemma_field_eq_pgscan_khugepaged(a, b);
    assert(known_key("pgsteal_kswapd"@)) by {
        reveal_strlit("pgsteal_kswapd");
    }
    lemma_field_eq_pgsteal_kswapd(a, b);
    assert(known_key("pgsteal_direct"@)) by {
        reveal_strlit("pgsteal_direct");
    }
    lemma_field_eq_pgsteal_direct(a, b);
    assert(known_key("pgsteal_khugepaged"@)) by {
        reveal_strlit("pgsteal_khugepaged");
    }
    lemma_field_eq_pgsteal_khugepaged(a, b);
    assert(known_key("pgfault"@)) by {
        reveal_strlit("pgfault");
    }
    lemma_field_eq_pgfault(a, b);
    assert(known_key("pgmajfault"@)) by {
        reveal_strlit("pgmajfault");
    }
    lemma_field_eq_pgmajfault(a, b);
    assert(known_key("pgrefill"@)) by {
        reveal_strlit("pgrefill");
    }
    lemma_field_eq_pgrefill(a, b);
    assert(known_key("pgactivate"@)) by {
        reveal_strlit("pgactivate");
    }
    lemma_field_eq_pgactivate(a, b);
    assert(known_key("pgdeactivate"@)) by {
        reveal_strlit("pgdeactivate");
    }
    lemma_field_eq_pgdeactivate(a, b);
    assert(known_key("pglazyfree"@)) by {
        reveal_strlit("pglazyfree");
    }
    lemma_field_eq_pglazyfree(a, b);
    assert(known_key("pglazyfreed"@)) by {
        reveal_strlit("pglazyfreed");
    }
    lemma_field_eq_pglazyfreed(a, b);
    assert(known_key("zswpin"@)) by {
        reveal_strlit("zswpin");
    }
    lemma_field_eq_zswpin(a, b);
    assert(known_key("zswpout"@)) by {
        reveal_strlit("zswpout");
    }
    lemma_field_eq_zswpout(a, b);
    assert(known_key("thp_fault_alloc"@)) by {
        reveal_strlit("thp_fault_alloc");
    }
    lemma_field_eq_thp_fault_alloc(a, b);
    assert(known_key("thp_collapse_alloc"@)) by {
        reveal_strlit("thp_collapse_alloc");
    }
    lemma_field_eq_thp_collapse_alloc(a, b);
}

/// A sequence of lines in which no two distinct lines contribute to the
/// same key.
pub open spec fn keys_unique(lines: Seq<Seq<char>>) -> bool {
    forall|i: int, j: int|
        #![trigger lines[i], lines[j]]
        0 <= i < lines.len() && 0 <= j < lines.len() && i != j && tokens_of(lines[i]).len() == 2
            && tokens_of(lines[j]).len() == 2 ==> tokens_of(lines[i])[0] != tokens_of(lines[j])[0]
}

/// Some index of `perm` maps to `i`.
pub open spec fn has_preimage(perm: Seq<int>, i: int) -> bool {
    exists|j: int| 0 <= j < perm.len() && #[trigger] perm[j] == i
}

/// `perm` rearranges `l1` into `l2`: it is a bijection on the indices
/// and `l2` reads `l1` through it.
pub open spec fn is_permutation(l1: Seq<Seq<char>>, l2: Seq<Seq<char>>, perm: Seq<int>) -> bool {
    &&& perm.len() == l1.len()
    &&& l2.len() == l1.len()
    &&& forall|i: int| 0 <= i < perm.len() ==> 0 <= #[trigger] perm[i] < l1.len()
    &&& forall|i: int, j: int|
        #![trigger perm[i], perm[j]]
        0 <= i < perm.len() && 0 <= j < perm.len() && i != j ==> perm[i] != perm[j]
    &&& forall|i: int| 0 <= i < perm.len() ==> #[trigger] has_preimage(perm, i)
    &&& forall|i: int| 0 <= i < perm.len() ==> #[trigger] l2[i] == l1[perm[i]]
}

/// A permutation leaves every field unchanged when no two lines
/// contribute to the same key.
proof fn lemma_field_permutation(
    l1: Seq<Seq<char>>,
    l2: Seq<Seq<char>>,
    perm: Seq<int>,
    key: Seq<char>,
)
    requires
        is_permutation(l1, l2, perm),
        keys_unique(l1),
    ensures
        field_of_lines(l1, key) == field_of_lines(l2, key),
{
    if exists|i: int| 0 <= i < l1.len() && line_sets_key(#[trigger] l1[i], key) {
        let i0 = choose|i: int| 0 <= i < l1.len() && line_sets_key(#[trigger] l1[i], key);
        assert(forall|j: int|
            0 <= j < l1.len() && j != i0 ==> !line_sets_key(#[trigger] l1[j], key));
        lemma_field_last_wins(l1, key, i0);
        assert(has_preimage(perm, i0));
        let j0 = choose|j: int| 0 <= j < perm.len() && #[trigger] perm[j] == i0;
        assert(l2[j0] == l1[i0]);
        assert(forall|j: int|
            0 <= j < l2.len() && j != j0 ==> !line_sets_key(#[trigger] l2[j], key)) by {
            assert(forall|j: int|
                0 <= j < l2.len() && j != j0 ==> #[trigger] l2[j] == l1[perm[j]] && perm[j]
                    != i0);
        }
        lemma_field_last_wins(l2, key, j0);
    } else {
        assert(forall|i: int| 0 <= i < l1.len() ==> !line_sets_key(#[trigger] l1[i], key));
        lemma_field_absent(l1, key);
        assert(forall|j: int|
            0 <= j < l2.len() ==> !line_sets_key(#[trigger] l2[j], key)) by {
            assert(forall|j: int| 0 <= j < l2.len() ==> #[trigger] l2[j] == l1[perm[j]]);
        }
        lemma_field_absent(l2, key);
    }
}

/// Law: the statistics parser is insensitive to the order of the lines.
/// Rearranging the lines of a statistics file in which no two lines
/// contribute to the same counter yields the very same parsed record.
pub proof fn lemma_stat_order_insensitive(l1: Seq<Seq<char>>, l2: Seq<Seq<char>>, perm: Seq<int>)
    requires
        is_permutation(l1, l2, perm),
        keys_unique(l1),
    ensures
        stat_of_lines(l1) == stat_of_lines(l2),
{
    assert forall|k: Seq<char>|
        known_key(k) implies stat_field(stat_of_lines(l1), k) == stat_field(
        stat_of_lines(l2),
        k,
    ) by {
        lemma_field_permutation(l1, l2, perm, k);
        lemma_stat_field_of_lines(l1, k);
        lemma_stat_field_of_lines(l2, k);
    }
    lemma_stat_eq_from_fields(stat_of_lines(l1), stat_of_lines(l2));
}

} // verus!
