use vstd::prelude::*;
use vstd::string::StringExecFns;
use crate::error::Error;
use crate::stack_probe::{stack_probe_code, stack_probe_sym_spec, stack_probe_trap_sites};
use crate::traps::{
    TrapSite, encode_trap_table, trap_sym_for_func, trap_symbol_spec, trap_table_bytes,
    trap_table_is_valid, trap_table_valid,
};

verus! {

/// A function compiled to native code, with the trap sites of its code.
pub struct CompiledFunction {
    pub symbol: String,
    pub code: Vec<u8>,
    pub traps: Vec<TrapSite>,
}

pub ghost struct FunctionModel {
    pub symbol: Seq<char>,
    pub code: Seq<u8>,
    pub traps: Seq<TrapSite>,
}

impl View for CompiledFunction {
    type V = FunctionModel;

    open spec fn view(&self) -> FunctionModel {
        FunctionModel { symbol: self.symbol@, code: self.code@, traps: self.traps@ }
    }
}

/// Whether a symbol holds code or data.
#[derive(Debug, Clone, Copy, PartialEq, Eq, Structural)]
pub enum SymbolKind {
    Code,
    Data,
}

/// A symbol defined in the object: its name, its contents and, for a pointer slot
/// at its start, the symbol whose address the loader writes there.
pub struct DefinedSymbol {
    pub name: String,
    pub kind: SymbolKind,
    pub exported: bool,
    pub bytes: Vec<u8>,
    pub address_of: Option<String>,
}

pub ghost struct SymbolModel {
    pub name: Seq<char>,
    pub kind: SymbolKind,
    pub exported: bool,
    pub bytes: Seq<u8>,
    pub address_of: Option<Seq<char>>,
}

impl View for DefinedSymbol {
    type V = SymbolModel;

    open spec fn view(&self) -> SymbolModel {
        SymbolModel {
            name: self.name@,
            kind: self.kind,
            exported: self.exported,
            bytes: self.bytes@,
            address_of: match self.address_of {
                Some(s) => Some(s@),
                None => None,
            },
        }
    }
}

/// One line of the function manifest: a code symbol, where its code starts within
/// its own section, and how long the code is.
pub struct ManifestEntry {
    pub symbol: String,
    pub code_offset: usize,
    pub code_length: usize,
}

pub ghost struct ManifestModel {
    pub symbol: Seq<char>,
    pub code_offset: nat,
    pub code_length: nat,
}

impl View for ManifestEntry {
    type V = ManifestModel;

    open spec fn view(&self) -> ManifestModel {
        ManifestModel {
            symbol: self.symbol@,
            code_offset: self.code_offset as nat,
            code_length: self.code_length as nat,
        }
    }
}

/// The assembled object: its symbols in definition order, the function manifest,
/// and the lengths of the module metadata and of the table data.
pub struct ObjectArtifact {
    pub symbols: Vec<DefinedSymbol>,
    pub manifest: Vec<ManifestEntry>,
    pub module_data_len: usize,
    pub table_data_len: usize,
}

pub open spec fn module_data_sym_spec() -> Seq<char> {
    "lucet_module_data"@
}

pub open spec fn start_sym_spec() -> Seq<char> {
    "guest_start"@
}

pub open spec fn table_sym_spec() -> Seq<char> {
    "lucet_tables"@
}

/// Size of the pointer slot that holds the start function's address.
pub const START_SLOT_LEN: usize = 8;

pub open spec fn code_symbol(f: FunctionModel) -> SymbolModel {
    SymbolModel {
        name: f.symbol,
        kind: SymbolKind::Code,
        exported: true,
        bytes: f.code,
        address_of: None,
    }
}

pub open spec fn trap_table_symbol(f: FunctionModel) -> SymbolModel {
    SymbolModel {
        name: trap_symbol_spec(f.symbol),
        kind: SymbolKind::Data,
        exported: true,
        bytes: trap_table_bytes(f.traps),
        address_of: None,
    }
}

/// Each function's code symbol followed by its trap table, in order.
pub open spec fn function_symbols(fs: Seq<FunctionModel>) -> Seq<SymbolModel>
    decreases fs.len(),
{
    if fs.len() == 0 {
        Seq::empty()
    } else {
        function_symbols(fs.drop_last()) + seq![
            code_symbol(fs.last()),
            trap_table_symbol(fs.last()),
        ]
    }
}

pub open spec fn module_data_symbol(data: Seq<u8>) -> SymbolModel {
    SymbolModel {
        name: module_data_sym_spec(),
        kind: SymbolKind::Data,
        exported: false,
        bytes: data,
        address_of: None,
    }
}

pub open spec fn start_symbol(func: Seq<char>) -> SymbolModel {
    SymbolModel {
        name: start_sym_spec(),
        kind: SymbolKind::Data,
        exported: true,
        bytes: Seq::new(8, |i: int| 0u8),
        address_of: Some(func),
    }
}

pub open spec fn table_symbol(data: Seq<u8>) -> SymbolModel {
    SymbolModel {
        name: table_sym_spec(),
        kind: SymbolKind::Data,
        exported: true,
        bytes: data,
        address_of: None,
    }
}

/// The symbols of the object, in definition order: the functions and the stack
/// probe with their trap tables, the module metadata, the start-function slot
/// when there is a start function, and the table data when there is any.
pub open spec fn object_symbols(
    fs: Seq<FunctionModel>,
    probe: FunctionModel,
    module_data: Seq<u8>,
    start: Option<usize>,
    table_data: Seq<u8>,
) -> Seq<SymbolModel> {
    function_symbols(fs.push(probe)) + seq![module_data_symbol(module_data)] + match start {
        Some(i) => seq![start_symbol(fs[i as int].symbol)],
        None => Seq::empty(),
    } + if table_data.len() > 0 {
        seq![table_symbol(table_data)]
    } else {
        Seq::empty()
    }
}

pub open spec fn manifest_entry(f: FunctionModel) -> ManifestModel {
    ManifestModel { symbol: f.symbol, code_offset: 0, code_length: f.code.len() }
}

/// One manifest entry per function, then one for the stack probe.
pub open spec fn object_manifest(fs: Seq<FunctionModel>, probe: FunctionModel) -> Seq<ManifestModel> {
    fs.push(probe).map_values(|f: FunctionModel| manifest_entry(f))
}

pub open spec fn names_distinct(syms: Seq<SymbolModel>) -> bool {
    forall|i: int, j: int| 0 <= i < j < syms.len() ==> (#[trigger] syms[i]).name != (#[trigger] syms[j]).name
}

/// Symbol `j` has the name of an earlier symbol.
pub open spec fn repeats_earlier(syms: Seq<SymbolModel>, j: int) -> bool {
    exists|i: int| 0 <= i < j && (#[trigger] syms[i]).name == syms[j].name
}

pub open spec fn traps_fit(fs: Seq<FunctionModel>) -> bool {
    forall|i: int| 0 <= i < fs.len() ==> trap_table_valid((#[trigger] fs[i]).traps, fs[i].code.len() as int)
}

pub open spec fn models(fs: Seq<CompiledFunction>) -> Seq<FunctionModel> {
    fs.map_values(|f: CompiledFunction| f@)
}

pub open spec fn symbol_models(s: Seq<DefinedSymbol>) -> Seq<SymbolModel> {
    s.map_values(|d: DefinedSymbol| d@)
}

pub open spec fn manifest_models(s: Seq<ManifestEntry>) -> Seq<ManifestModel> {
    s.map_values(|e: ManifestEntry| e@)
}

/// What assembling gives for these inputs: the error, or the exact object.
pub open spec fn assembled(
    fs: Seq<FunctionModel>,
    probe: FunctionModel,
    module_data: Seq<u8>,
    start: Option<usize>,
    table_data: Seq<u8>,
    r: Result<ObjectArtifact, Error>,
) -> bool {
    let all = fs.push(probe);
    let syms = object_symbols(fs, probe, module_data, start, table_data);
    if !traps_fit(all) {
        r == Err::<ObjectArtifact, Error>(Error::Serialization)
    } else if start is Some && start->0 >= fs.len() {
        r == Err::<ObjectArtifact, Error>(Error::Declaration)
    } else if !names_distinct(syms) {
        r is Err && r->Err_0 is ObjectAssembly && exists|j: int|
            0 <= j < syms.len() && #[trigger] repeats_earlier(syms, j) && names_distinct(syms.take(j))
                && syms[j].name == r->Err_0->ObjectAssembly_symbol@
    } else {
        r is Ok && symbol_models(r->Ok_0.symbols@) == syms && manifest_models(r->Ok_0.manifest@)
            == object_manifest(fs, probe) && r->Ok_0.module_data_len == module_data.len()
            && r->Ok_0.table_data_len == table_data.len()
    }
}

fn copy_bytes(v: &Vec<u8>) -> (r: Vec<u8>)
    ensures
        r@ == v@,
{
    let mut r: Vec<u8> = Vec::new();
    let mut i: usize = 0;
    while i < v.len()
        invariant
            i <= v@.len(),
            r@ == v@.take(i as int),
        decreases v@.len() - i,
    {
        r.push(v[i]);
        proof {
            assert(v@.take(i + 1) =~= v@.take(i as int).push(v@[i as int]));
        }
        i = i + 1;
    }
    assert(v@.take(i as int) =~= v@);
    r
}

pub open spec fn stack_probe_model() -> FunctionModel {
    FunctionModel {
        symbol: stack_probe_sym_spec(),
        code: crate::stack_probe::stack_probe_code_spec(),
        traps: crate::stack_probe::stack_probe_traps_spec(),
    }
}

/// The stack probe, as a compiled function under its well-known symbol.
pub fn stack_probe() -> (r: CompiledFunction)
    ensures
        r@ == stack_probe_model(),
        r.code@.len() == crate::stack_probe::STACK_PROBE_LEN,
        trap_table_valid(r.traps@, r.code@.len() as int),
{
    proof {
        reveal_strlit("lucet_probestack");
    }
    CompiledFunction {
        symbol: String::from_str("lucet_probestack"),
        code: stack_probe_code(),
        traps: stack_probe_trap_sites(),
    }
}

proof fn lemma_symbol_models_push(s: Seq<DefinedSymbol>, d: DefinedSymbol)
    ensures
        symbol_models(s.push(d)) == symbol_models(s).push(d@),
{
    assert(symbol_models(s.push(d)) =~= symbol_models(s).push(d@));
}

fn push_symbol(out: &mut Vec<DefinedSymbol>, d: DefinedSymbol)
    ensures
        symbol_models(final(out)@) == symbol_models(old(out)@).push(d@),
{
    proof {
        lemma_symbol_models_push(out@, d);
    }
    out.push(d);
}

/// Defines a function's code and its trap table.
fn push_function_symbols(out: &mut Vec<DefinedSymbol>, f: &CompiledFunction)
    requires
        f.traps@.len() * 8 <= usize::MAX,
    ensures
        symbol_models(final(out)@) == symbol_models(old(out)@) + seq![
            code_symbol(f@),
            trap_table_symbol(f@),
        ],
{
    let code = DefinedSymbol {
        name: f.symbol.clone(),
        kind: SymbolKind::Code,
        exported: true,
        bytes: copy_bytes(&f.code),
        address_of: None,
    };
    let table = DefinedSymbol {
        name: trap_sym_for_func(f.symbol.as_str()),
        kind: SymbolKind::Data,
        exported: true,
        bytes: encode_trap_table(&f.traps),
        address_of: None,
    };
    let ghost before = symbol_models(out@);
    push_symbol(out, code);
    push_symbol(out, table);
    assert(symbol_models(out@) =~= before + seq![code_symbol(f@), trap_table_symbol(f@)]);
}

/// Index of the first symbol whose name an earlier symbol already has.
fn find_duplicate(syms: &Vec<DefinedSymbol>) -> (r: Option<usize>)
    ensures
        r is None <==> names_distinct(symbol_models(syms@)),
        r matches Some(j) ==> j < syms@.len() && repeats_earlier(symbol_models(syms@), j as int)
            && names_distinct(symbol_models(syms@).take(j as int)),
{
    let ghost m = symbol_models(syms@);
    let mut j: usize = 0;
    while j < syms.len()
        invariant
            j <= syms@.len(),
            m == symbol_models(syms@),
            forall|a: int, b: int| 0 <= a < b < j ==> (#[trigger] m[a]).name != (#[trigger] m[b]).name,
        decreases syms@.len() - j,
    {
        let mut i: usize = 0;
        while i < j
            invariant
                i <= j < syms@.len(),
                m == symbol_models(syms@),
                forall|a: int, b: int| 0 <= a < b < j ==> (#[trigger] m[a]).name != (#[trigger] m[b]).name,
                forall|a: int| 0 <= a < i ==> (#[trigger] m[a]).name != m[j as int].name,
            decreases j - i,
        {
            if syms[i].name == syms[j].name {
                assert(m[i as int] == syms@[i as int]@);
                assert(m[j as int] == syms@[j as int]@);
                assert(syms@[i as int].name@ == syms@[j as int].name@);
                assert(repeats_earlier(m, j as int));
                return Some(j);
            }
            assert(m[i as int] == syms@[i as int]@);
            assert(m[j as int] == syms@[j as int]@);
            i = i + 1;
        }
        j = j + 1;
    }
    assert forall|a: int, b: int| 0 <= a < b < m.len() implies (#[trigger] m[a]).name
        != (#[trigger] m[b]).name by {}
    None
}

/// Copies the manifest entry of one function.
fn manifest_entry_of(f: &CompiledFunction) -> (r: ManifestEntry)
    ensures
        r@ == manifest_entry(f@),
{
    ManifestEntry { symbol: f.symbol.clone(), code_offset: 0, code_length: f.code.len() }
}

/// Assembles the object from the compiled functions, the stack probe, the
/// serialized module metadata, the start function's index among the functions,
/// and the table data. Either every symbol is defined, or the result is an error
/// and nothing of the object is returned.
pub fn assemble(
    functions: &Vec<CompiledFunction>,
    probe: &CompiledFunction,
    module_data: &Vec<u8>,
    start: Option<usize>,
    table_data: &Vec<u8>,
) -> (r: Result<ObjectArtifact, Error>)
    requires
        forall|i: int| 0 <= i < functions@.len() ==> (#[trigger] functions@[i]).traps@.len() * 8 <= usize::MAX,
        probe.traps@.len() * 8 <= usize::MAX,
    ensures
        assembled(models(functions@), probe@, module_data@, start, table_data@, r),
{
    let ghost fs = models(functions@);
    let ghost all = fs.push(probe@);
    let mut i: usize = 0;
    while i < functions.len()
        invariant
            i <= functions@.len(),
            fs == models(functions@),
            all == fs.push(probe@),
            forall|k: int| 0 <= k < i ==> trap_table_valid((#[trigger] fs[k]).traps, fs[k].code.len() as int),
        decreases functions@.len() - i,
    {
        let f = &functions[i];
        if !trap_table_is_valid(&f.traps, f.code.len()) {
            assert(fs[i as int] == functions@[i as int]@);
            assert(all[i as int] == fs[i as int]);
            return Err(Error::Serialization);
        }
        i = i + 1;
    }
    if !trap_table_is_valid(&probe.traps, probe.code.len()) {
        assert(all[fs.len() as int] == probe@);
        return Err(Error::Serialization);
    }
    assert(traps_fit(all)) by {
        assert forall|k: int| 0 <= k < all.len() implies trap_table_valid((#[trigger] all[k]).traps, all[k].code.len() as int) by {
            if k < fs.len() {
                assert(all[k] == fs[k]);
            }
        }
    }
    if let Some(s) = start {
        if s >= functions.len() {
            return Err(Error::Declaration);
        }
    }

    let mut syms: Vec<DefinedSymbol> = Vec::new();
    let mut manifest: Vec<ManifestEntry> = Vec::new();
    let mut i: usize = 0;
    while i < functions.len()
        invariant
            i <= functions@.len(),
            fs == models(functions@),
            forall|k: int| 0 <= k < functions@.len() ==> (#[trigger] functions@[k]).traps@.len() * 8 <= usize::MAX,
            symbol_models(syms@) == function_symbols(fs.take(i as int)),
            manifest_models(manifest@) == fs.take(i as int).map_values(|f: FunctionModel| manifest_entry(f)),
        decreases functions@.len() - i,
    {
        let f = &functions[i];
        push_function_symbols(&mut syms, f);
        let e = manifest_entry_of(f);
        proof {
            assert(fs.take(i + 1).drop_last() =~= fs.take(i as int));
            assert(fs.take(i + 1).last() == f@);
            assert(manifest_models(manifest@.push(e)) =~= manifest_models(manifest@).push(e@));
            assert(fs.take(i + 1).map_values(|f: FunctionModel| manifest_entry(f)) =~= fs.take(
                i as int,
            ).map_values(|f: FunctionModel| manifest_entry(f)).push(manifest_entry(f@)));
        }
        manifest.push(e);
        i = i + 1;
    }
    push_function_symbols(&mut syms, probe);
    let e = manifest_entry_of(probe);
    proof {
        assert(fs.take(i as int) =~= fs);
        assert(all.drop_last() =~= fs);
        assert(manifest_models(manifest@.push(e)) =~= manifest_models(manifest@).push(e@));
        assert(all.map_values(|f: FunctionModel| manifest_entry(f)) =~= fs.map_values(
            |f: FunctionModel| manifest_entry(f),
        ).push(manifest_entry(probe@)));
    }
    manifest.push(e);
    assert(symbol_models(syms@) == function_symbols(all));

    proof {
        reveal_strlit("lucet_module_data");
        reveal_strlit("guest_start");
        reveal_strlit("lucet_tables");
    }
    push_symbol(
        &mut syms,
        DefinedSymbol {
            name: String::from_str("lucet_module_data"),
            kind: SymbolKind::Data,
            exported: false,
            bytes: copy_bytes(module_data),
            address_of: None,
        },
    );
    let ghost with_data = symbol_models(syms@);
    if let Some(s) = start {
        let slot: Vec<u8> = vec![0u8; START_SLOT_LEN];
        assert(slot@ =~= Seq::new(8, |i: int| 0u8));
        push_symbol(
            &mut syms,
            DefinedSymbol {
                name: String::from_str("guest_start"),
                kind: SymbolKind::Data,
                exported: true,
                bytes: slot,
                address_of: Some(functions[s].symbol.clone()),
            },
        );
    }
    let ghost with_start = symbol_models(syms@);
    if table_data.len() > 0 {
        push_symbol(
            &mut syms,
            DefinedSymbol {
                name: String::from_str("lucet_tables"),
                kind: SymbolKind::Data,
                exported: true,
                bytes: copy_bytes(table_data),
                address_of: None,
            },
        );
    }
    proof {
        let expect = object_symbols(fs, probe@, module_data@, start, table_data@);
        assert(with_data =~= function_symbols(all) + seq![module_data_symbol(module_data@)]);
        assert(symbol_models(syms@) =~= expect);
    }
    if let Some(j) = find_duplicate(&syms) {
        proof {
            let m = symbol_models(syms@);
            assert(m[j as int] == syms@[j as int]@);
        }
        return Err(Error::ObjectAssembly { symbol: syms[j].name.clone() });
    }
    Ok(
        ObjectArtifact {
            symbols: syms,
            manifest,
            module_data_len: module_data.len(),
            table_data_len: table_data.len(),
        },
    )
}

} // verus!
