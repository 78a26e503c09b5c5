use lucetc::error::Error;
use lucetc::object::{assemble, stack_probe, CompiledFunction, ObjectArtifact, SymbolKind};
use lucetc::traps::{TrapKind, TrapSite};

fn func(symbol: &str, code: Vec<u8>, traps: Vec<TrapSite>) -> CompiledFunction {
    CompiledFunction { symbol: symbol.to_string(), code, traps }
}

fn names(obj: &ObjectArtifact) -> Vec<String> {
    obj.symbols.iter().map(|s| s.name.clone()).collect()
}

fn two_functions() -> Vec<CompiledFunction> {
    vec![
        func(
            "guest_func_0",
            vec![0x90; 16],
            vec![TrapSite { offset: 4, kind: TrapKind::HeapOutOfBounds }],
        ),
        func("guest_func_1", vec![0xc3; 3], vec![]),
    ]
}

#[test]
fn minimal_module_holds_probe_and_metadata_only() {
    let probe = stack_probe();
    let obj = assemble(&Vec::new(), &probe, &vec![7, 7], None, &Vec::new()).unwrap();
    assert_eq!(
        names(&obj),
        vec!["lucet_probestack", "lucet_trap_table_lucet_probestack", "lucet_module_data"]
    );
    assert_eq!(obj.symbols[0].kind, SymbolKind::Code);
    assert_eq!(obj.symbols[0].bytes.len(), 43);
    assert_eq!(
        obj.symbols[1].bytes,
        vec![10, 0, 0, 0, 0, 0, 0, 0, 34, 0, 0, 0, 0, 0, 0, 0]
    );
    assert_eq!(obj.symbols[2].bytes, vec![7, 7]);
    assert!(!obj.symbols[2].exported);
    assert_eq!(obj.manifest.len(), 1);
    assert_eq!(obj.manifest[0].symbol, "lucet_probestack");
    assert_eq!(obj.manifest[0].code_offset, 0);
    assert_eq!(obj.manifest[0].code_length, 43);
    assert_eq!(obj.module_data_len, 2);
    assert_eq!(obj.table_data_len, 0);
}

#[test]
fn functions_get_code_and_trap_table_symbols() {
    let probe = stack_probe();
    let obj = assemble(&two_functions(), &probe, &vec![1], None, &vec![5, 6, 7]).unwrap();
    assert_eq!(
        names(&obj),
        vec![
            "guest_func_0",
            "lucet_trap_table_guest_func_0",
            "guest_func_1",
            "lucet_trap_table_guest_func_1",
            "lucet_probestack",
            "lucet_trap_table_lucet_probestack",
            "lucet_module_data",
            "lucet_tables",
        ]
    );
    assert_eq!(obj.symbols[1].bytes, vec![4, 0, 0, 0, 1, 0, 0, 0]);
    assert!(obj.symbols[3].bytes.is_empty());
    assert_eq!(obj.symbols[7].bytes, vec![5, 6, 7]);
    assert_eq!(obj.table_data_len, 3);
    let manifest: Vec<(String, usize)> =
        obj.manifest.iter().map(|e| (e.symbol.clone(), e.code_length)).collect();
    assert_eq!(
        manifest,
        vec![
            ("guest_func_0".to_string(), 16),
            ("guest_func_1".to_string(), 3),
            ("lucet_probestack".to_string(), 43),
        ]
    );
}

#[test]
fn start_function_gets_address_slot() {
    let probe = stack_probe();
    let obj = assemble(&two_functions(), &probe, &vec![1], Some(1), &Vec::new()).unwrap();
    let slot = obj.symbols.iter().find(|s| s.name == "guest_start").unwrap();
    assert_eq!(slot.bytes, vec![0; 8]);
    assert!(slot.exported);
    assert_eq!(slot.address_of.as_deref(), Some("guest_func_1"));
    assert_eq!(obj.symbols.iter().filter(|s| s.address_of.is_some()).count(), 1);

    let none = assemble(&two_functions(), &probe, &vec![1], None, &Vec::new()).unwrap();
    assert!(none.symbols.iter().all(|s| s.name != "guest_start" && s.address_of.is_none()));
}

#[test]
fn assembling_twice_gives_the_same_object() {
    let probe = stack_probe();
    let a = assemble(&two_functions(), &probe, &vec![9, 8], Some(0), &vec![1]).unwrap();
    let b = assemble(&two_functions(), &probe, &vec![9, 8], Some(0), &vec![1]).unwrap();
    assert_eq!(names(&a), names(&b));
    for (x, y) in a.symbols.iter().zip(b.symbols.iter()) {
        assert_eq!(x.bytes, y.bytes);
        assert_eq!(x.kind, y.kind);
        assert_eq!(x.exported, y.exported);
        assert_eq!(x.address_of, y.address_of);
    }
    let ma: Vec<_> = a.manifest.iter().map(|e| (e.symbol.clone(), e.code_length)).collect();
    let mb: Vec<_> = b.manifest.iter().map(|e| (e.symbol.clone(), e.code_length)).collect();
    assert_eq!(ma, mb);
}

#[test]
fn manifest_has_one_entry_per_function_and_probe() {
    let probe = stack_probe();
    let obj = assemble(&two_functions(), &probe, &Vec::new(), None, &Vec::new()).unwrap();
    assert_eq!(obj.manifest.len(), 3);
    let code: Vec<String> = obj
        .symbols
        .iter()
        .filter(|s| s.kind == SymbolKind::Code)
        .map(|s| s.name.clone())
        .collect();
    let listed: Vec<String> = obj.manifest.iter().map(|e| e.symbol.clone()).collect();
    assert_eq!(code, listed);
}

#[test]
fn trap_outside_code_fails_with_serialization() {
    let probe = stack_probe();
    let fs = vec![func(
        "guest_func_0",
        vec![0x90; 4],
        vec![TrapSite { offset: 4, kind: TrapKind::HeapOutOfBounds }],
    )];
    let r = assemble(&fs, &probe, &Vec::new(), None, &Vec::new());
    assert_eq!(r.err(), Some(Error::Serialization));
}

#[test]
fn missing_start_function_fails_with_declaration() {
    let probe = stack_probe();
    let r = assemble(&two_functions(), &probe, &Vec::new(), Some(2), &Vec::new());
    assert_eq!(r.err(), Some(Error::Declaration));
}

#[test]
fn duplicate_symbol_fails_with_object_assembly() {
    let probe = stack_probe();
    let fs = vec![func("f", vec![0xc3], vec![]), func("g", vec![0xc3], vec![]), func("f", vec![0xc3], vec![])];
    let r = assemble(&fs, &probe, &Vec::new(), None, &Vec::new());
    assert_eq!(r.err(), Some(Error::ObjectAssembly { symbol: "f".to_string() }));
    let clash = vec![func("lucet_module_data", vec![0xc3], vec![])];
    let r = assemble(&clash, &probe, &Vec::new(), None, &Vec::new());
    assert_eq!(r.err(), Some(Error::ObjectAssembly { symbol: "lucet_module_data".to_string() }));
}
