use lucetc::traps::{decode_trap_table, encode_trap_table, lookup_trap, trap_sym_for_func, trap_table_is_valid, TrapKind, TrapSite};
use lucetc::stack_probe::{stack_probe_code, stack_probe_trap_sites, STACK_PROBE_LEN};

#[test]
fn trap_kind_tags_round_trip() {
    let kinds = [
        TrapKind::StackOverflow,
        TrapKind::HeapOutOfBounds,
        TrapKind::OutOfBounds,
        TrapKind::IndirectCallToNull,
        TrapKind::BadSignature,
        TrapKind::IntegerOverflow,
        TrapKind::IntegerDivByZero,
        TrapKind::BadConversionToInteger,
        TrapKind::Interrupt,
        TrapKind::TableOutOfBounds,
        TrapKind::Unreachable,
    ];
    for (i, k) in kinds.iter().enumerate() {
        assert_eq!(k.tag(), i as u32);
        assert_eq!(TrapKind::from_tag(i as u32), Some(*k));
    }
    assert_eq!(TrapKind::from_tag(11), None);
}

#[test]
fn heap_load_gives_one_heap_out_of_bounds_entry() {
    let sites = vec![TrapSite { offset: 0x12, kind: TrapKind::HeapOutOfBounds }];
    assert!(trap_table_is_valid(&sites, 0x20));
    let bytes = encode_trap_table(&sites);
    assert_eq!(bytes, vec![0x12, 0, 0, 0, 1, 0, 0, 0]);
    assert_eq!(lookup_trap(&sites, 0x12), Some(TrapKind::HeapOutOfBounds));
}

#[test]
fn trap_table_encodes_little_endian_entries() {
    let sites = vec![
        TrapSite { offset: 0x0102_0304, kind: TrapKind::Unreachable },
        TrapSite { offset: 0x0a0b_0c0d, kind: TrapKind::IntegerDivByZero },
    ];
    let bytes = encode_trap_table(&sites);
    assert_eq!(bytes, vec![4, 3, 2, 1, 10, 0, 0, 0, 0x0d, 0x0c, 0x0b, 0x0a, 6, 0, 0, 0]);
    assert!(encode_trap_table(&Vec::new()).is_empty());
}

#[test]
fn trap_table_validity() {
    let ok = vec![
        TrapSite { offset: 1, kind: TrapKind::OutOfBounds },
        TrapSite { offset: 5, kind: TrapKind::BadSignature },
    ];
    assert!(trap_table_is_valid(&ok, 6));
    assert!(!trap_table_is_valid(&ok, 5));
    let unsorted = vec![
        TrapSite { offset: 5, kind: TrapKind::OutOfBounds },
        TrapSite { offset: 1, kind: TrapKind::BadSignature },
    ];
    assert!(!trap_table_is_valid(&unsorted, 10));
    let repeated = vec![
        TrapSite { offset: 3, kind: TrapKind::OutOfBounds },
        TrapSite { offset: 3, kind: TrapKind::BadSignature },
    ];
    assert!(!trap_table_is_valid(&repeated, 10));
    assert!(trap_table_is_valid(&Vec::new(), 0));
}

#[test]
fn lookup_finds_each_site_by_offset() {
    let sites = vec![
        TrapSite { offset: 2, kind: TrapKind::HeapOutOfBounds },
        TrapSite { offset: 9, kind: TrapKind::IntegerOverflow },
        TrapSite { offset: 17, kind: TrapKind::TableOutOfBounds },
        TrapSite { offset: 30, kind: TrapKind::Unreachable },
    ];
    assert_eq!(lookup_trap(&sites, 2), Some(TrapKind::HeapOutOfBounds));
    assert_eq!(lookup_trap(&sites, 9), Some(TrapKind::IntegerOverflow));
    assert_eq!(lookup_trap(&sites, 17), Some(TrapKind::TableOutOfBounds));
    assert_eq!(lookup_trap(&sites, 30), Some(TrapKind::Unreachable));
    assert_eq!(lookup_trap(&sites, 0), None);
    assert_eq!(lookup_trap(&sites, 10), None);
    assert_eq!(lookup_trap(&sites, 31), None);
    assert_eq!(lookup_trap(&Vec::new(), 0), None);
}

#[test]
fn trap_symbol_is_prefixed_function_symbol() {
    assert_eq!(trap_sym_for_func("guest_func_3"), "lucet_trap_table_guest_func_3");
    assert_eq!(trap_sym_for_func(""), "lucet_trap_table_");
}

#[test]
fn stack_probe_traps_at_its_two_touches() {
    let code = stack_probe_code();
    assert_eq!(code.len(), STACK_PROBE_LEN);
    let traps = stack_probe_trap_sites();
    assert_eq!(traps.len(), 2);
    assert_eq!(traps[0], TrapSite { offset: 10, kind: TrapKind::StackOverflow });
    assert_eq!(traps[1], TrapSite { offset: 34, kind: TrapKind::StackOverflow });
    // Both sites are `test %rsp,0x8(%rsp)`.
    for t in &traps {
        let o = t.offset as usize;
        assert_eq!(&code[o..o + 5], &[0x48, 0x85, 0x64, 0x24, 0x08]);
    }
    assert!(trap_table_is_valid(&traps, code.len()));
}

#[test]
fn decoding_an_encoded_table_gives_the_sites_back() {
    let sites = vec![
        TrapSite { offset: 0, kind: TrapKind::StackOverflow },
        TrapSite { offset: 300, kind: TrapKind::IndirectCallToNull },
        TrapSite { offset: 0xffff_fff0, kind: TrapKind::BadConversionToInteger },
    ];
    let bytes = encode_trap_table(&sites);
    assert_eq!(decode_trap_table(&bytes), Some(sites));
    assert_eq!(decode_trap_table(&Vec::new()), Some(Vec::new()));
}

#[test]
fn decoding_rejects_partial_entries_and_unknown_tags() {
    assert_eq!(decode_trap_table(&vec![1, 0, 0, 0, 1, 0, 0]), None);
    assert_eq!(decode_trap_table(&vec![1, 0, 0, 0, 11, 0, 0, 0]), None);
    assert_eq!(decode_trap_table(&vec![1, 0, 0, 0, 1, 0, 0, 1]), None);
    assert_eq!(
        decode_trap_table(&vec![8, 0, 0, 0, 10, 0, 0, 0]),
        Some(vec![TrapSite { offset: 8, kind: TrapKind::Unreachable }])
    );
}
