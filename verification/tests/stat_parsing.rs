use cgroup_memory::{memory_stat_parse, MemoryStat};

#[test]
fn empty_content_leaves_every_field_absent() {
    assert_eq!(memory_stat_parse(""), MemoryStat::default());
}

#[test]
fn known_subset_in_scrambled_order_with_unknown_keys() {
    let content = "file 50\nbogus 7\nzswpout 9\nanon 100\nsomething else entirely\nslab 3\n";
    let ms = memory_stat_parse(content);
    assert_eq!(ms.anon, Some(100));
    assert_eq!(ms.file, Some(50));
    assert_eq!(ms.slab, Some(3));
    assert_eq!(ms.zswpout, Some(9));
    assert_eq!(ms.kernel, None);
    assert_eq!(ms.slab_reclaimable, None);
    assert_eq!(ms.pgfault, None);
}

#[test]
fn duplicate_key_last_occurrence_wins() {
    let ms = memory_stat_parse("anon 100\nfile 1\nanon 200\n");
    assert_eq!(ms.anon, Some(200));
    assert_eq!(ms.file, Some(1));
}

#[test]
fn unparsable_value_leaves_field_absent() {
    let ms = memory_stat_parse("anon xyz\nfile 50\n");
    assert_eq!(ms.anon, None);
    assert_eq!(ms.file, Some(50));
}

#[test]
fn unparsable_duplicate_overwrites_earlier_value() {
    let ms = memory_stat_parse("anon 100\nanon xyz\n");
    assert_eq!(ms.anon, None);
}

#[test]
fn lines_with_more_or_fewer_than_two_tokens_are_ignored() {
    let ms = memory_stat_parse("anon\nfile 1 2\n\n   \nkernel 7\n");
    assert_eq!(ms.anon, None);
    assert_eq!(ms.file, None);
    assert_eq!(ms.kernel, Some(7));
}

#[test]
fn carriage_returns_and_tab_runs_are_tolerated() {
    let ms = memory_stat_parse("anon\t100\r\nfile  \t 50\r\n");
    assert_eq!(ms.anon, Some(100));
    assert_eq!(ms.file, Some(50));
}

#[test]
fn missing_trailing_newline_still_counts() {
    let ms = memory_stat_parse("anon 100\nfile 50");
    assert_eq!(ms.anon, Some(100));
    assert_eq!(ms.file, Some(50));
}

#[test]
fn permuting_lines_does_not_change_the_record() {
    let a = "anon 1\nfile 2\nkernel 3\nslab 4\npgfault 5\nunknown 6\n";
    let b = "pgfault 5\nslab 4\nunknown 6\nanon 1\nkernel 3\nfile 2\n";
    assert_eq!(memory_stat_parse(a), memory_stat_parse(b));
}

#[test]
fn every_known_key_is_parsed() {
    let keys = [
        "anon", "file", "kernel", "kernel_stack", "pagetables", "sec_pagetables", "percpu",
        "sock", "vmalloc", "shmem", "zswap", "zswapped", "file_mapped", "file_dirty",
        "file_writeback", "swapcached", "anon_thp", "file_thp", "shmem_thp", "inactive_anon",
        "active_anon", "inactive_file", "active_file", "unevictable", "slab_reclaimable",
        "slab_unreclaimable", "slab", "workingset_refault_anon", "workingset_refault_file",
        "workingset_activate_anon", "workingset_activate_file", "workingset_restore_anon",
        "workingset_restore_file", "workingset_nodereclaim", "pgscan", "pgsteal",
        "pgscan_kswapd", "pgscan_direct", "pgscan_khugepaged", "pgsteal_kswapd",
        "pgsteal_direct", "pgsteal_khugepaged", "pgfault", "pgmajfault", "pgrefill",
        "pgactivate", "pgdeactivate", "pglazyfree", "pglazyfreed", "zswpin", "zswpout",
        "thp_fault_alloc", "thp_collapse_alloc",
    ];
    let mut content = String::new();
    for (i, key) in keys.iter().enumerate() {
        content.push_str(key);
        content.push(' ');
        content.push_str(&(i * 10).to_string());
        content.push('\n');
    }
    let ms = memory_stat_parse(&content);
    assert_eq!(ms.anon, Some(0));
    assert_eq!(ms.file, Some(10));
    assert_eq!(ms.kernel_stack, Some(30));
    assert_eq!(ms.slab_reclaimable, Some(240));
    assert_eq!(ms.slab_unreclaimable, Some(250));
    assert_eq!(ms.workingset_nodereclaim, Some(330));
    assert_eq!(ms.thp_collapse_alloc, Some(520));
    assert_ne!(ms, MemoryStat::default());
}
