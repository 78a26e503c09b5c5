use vstd::prelude::*;
use crate::error::Error;
use crate::object::{
    FunctionModel, ObjectArtifact, SymbolKind, assembled, code_symbol, function_symbols, manifest_entry,
    manifest_models, names_distinct, ManifestModel, SymbolModel, object_symbols, repeats_earlier, start_symbol,
    start_sym_spec, symbol_models, trap_table_symbol, traps_fit,
};
use crate::traps::{lemma_trap_table_len, trap_symbol_spec, trap_table_valid};

verus! {

/// Each function contributes its code symbol and then its trap table.
pub proof fn lemma_function_symbols_layout(fs: Seq<FunctionModel>)
    ensures
        function_symbols(fs).len() == 2 * fs.len(),
        forall|i: int|
            0 <= i < fs.len() ==> function_symbols(fs)[2 * i] == code_symbol(#[trigger] fs[i])
                && function_symbols(fs)[2 * i + 1] == trap_table_symbol(fs[i]),
    decreases fs.len(),
{
    if fs.len() > 0 {
        let prev = fs.drop_last();
        lemma_function_symbols_layout(prev);
        assert forall|i: int| 0 <= i < fs.len() implies function_symbols(fs)[2 * i] == code_symbol(
            #[trigger] fs[i],
        ) && function_symbols(fs)[2 * i + 1] == trap_table_symbol(fs[i]) by {
            if i < prev.len() {
                assert(prev[i] == fs[i]);
            }
        }
    }
}

/// The symbols of an assembled object, position by position.
pub proof fn lemma_object_symbols_layout(
    fs: Seq<FunctionModel>,
    probe: FunctionModel,
    module_data: Seq<u8>,
    start: Option<usize>,
    table_data: Seq<u8>,
)
    ensures
        ({
            let all = fs.push(probe);
            let syms = object_symbols(fs, probe, module_data, start, table_data);
            let n: int = 2 * all.len() as int;
            &&& syms.len() == n + 1 + (if start is Some { 1int } else { 0 }) + (if table_data.len()
                > 0 { 1int } else { 0 })
            &&& forall|i: int|
                0 <= i < all.len() ==> syms[2 * i] == code_symbol(#[trigger] all[i]) && syms[2 * i
                    + 1] == trap_table_symbol(all[i])
            &&& forall|k: int| n <= k < syms.len() ==> (#[trigger] syms[k]).kind == SymbolKind::Data
            &&& forall|k: int| 0 <= k < syms.len() && k != n + 1 ==> (#[trigger] syms[k]).address_of is None
            &&& (start matches Some(i) ==> syms[n + 1] == start_symbol(fs[i as int].symbol))
            &&& (start is None ==> forall|k: int| 0 <= k < syms.len() ==> (#[trigger] syms[k]).address_of is None)
        }),
{
    let all = fs.push(probe);
    lemma_function_symbols_layout(all);
    let syms = object_symbols(fs, probe, module_data, start, table_data);
    let n: int = 2 * all.len() as int;
    let f = function_symbols(all);
    assert forall|i: int| 0 <= i < all.len() implies syms[2 * i] == code_symbol(#[trigger] all[i])
        && syms[2 * i + 1] == trap_table_symbol(all[i]) by {
        assert(syms[2 * i] == f[2 * i]);
        assert(syms[2 * i + 1] == f[2 * i + 1]);
    }
    assert forall|k: int| 0 <= k < syms.len() && k != n + 1 implies (#[trigger] syms[k]).address_of is None by {
        if k < n {
            let i = k / 2;
            assert(syms[k] == f[k]);
            if k % 2 == 0 {
                assert(k == 2 * i);
                assert(f[2 * i] == code_symbol(all[i]));
            } else {
                assert(k == 2 * i + 1);
                assert(f[2 * i + 1] == trap_table_symbol(all[i]));
            }
        }
    }
    assert forall|k: int| n <= k < syms.len() implies (#[trigger] syms[k]).kind == SymbolKind::Data by {}
}

/// Assembling is deterministic: the same functions, probe, metadata, start
/// function and table data give the same object, symbol for symbol and entry for
/// entry, or the same error.
pub proof fn assemble_is_deterministic(
    fs: Seq<FunctionModel>,
    probe: FunctionModel,
    module_data: Seq<u8>,
    start: Option<usize>,
    table_data: Seq<u8>,
    r1: Result<ObjectArtifact, Error>,
    r2: Result<ObjectArtifact, Error>,
)
    requires
        assembled(fs, probe, module_data, start, table_data, r1),
        assembled(fs, probe, module_data, start, table_data, r2),
    ensures
        r1 is Ok <==> r2 is Ok,
        r1 matches Ok(a) ==> r2 matches Ok(b) && symbol_models(a.symbols@) == symbol_models(
            b.symbols@,
        ) && manifest_models(a.manifest@) == manifest_models(b.manifest@) && a.module_data_len
            == b.module_data_len && a.table_data_len == b.table_data_len,
        r1 matches Err(e1) ==> r2 matches Err(e2) && match e1 {
            Error::ObjectAssembly { symbol: s1 } => e2 matches Error::ObjectAssembly { symbol: s2 }
                && s1@ == s2@,
            _ => e1 == e2,
        },
{
    let syms = object_symbols(fs, probe, module_data, start, table_data);
    let all = fs.push(probe);
    if traps_fit(all) && !(start is Some && start->0 >= fs.len()) && !names_distinct(syms) {
        let j1 = choose|j: int|
            0 <= j < syms.len() && #[trigger] repeats_earlier(syms, j) && names_distinct(syms.take(j))
                && syms[j].name == r1->Err_0->ObjectAssembly_symbol@;
        let j2 = choose|j: int|
            0 <= j < syms.len() && #[trigger] repeats_earlier(syms, j) && names_distinct(syms.take(j))
                && syms[j].name == r2->Err_0->ObjectAssembly_symbol@;
        if j1 < j2 {
            let i = choose|i: int| 0 <= i < j1 && (#[trigger] syms[i]).name == syms[j1].name;
            assert(syms.take(j2)[i] == syms[i]);
            assert(syms.take(j2)[j1] == syms[j1]);
        } else if j2 < j1 {
            let i = choose|i: int| 0 <= i < j2 && (#[trigger] syms[i]).name == syms[j2].name;
            assert(syms.take(j1)[i] == syms[i]);
            assert(syms.take(j1)[j2] == syms[j2]);
        }
    }
}

/// Every function of an assembled object, the stack probe included, has a trap
/// table under the name derived from its symbol, holding one fixed-width entry
/// per trap site; its sites' offsets strictly increase and lie inside its code.
pub proof fn trap_tables_cover_functions(
    fs: Seq<FunctionModel>,
    probe: FunctionModel,
    module_data: Seq<u8>,
    start: Option<usize>,
    table_data: Seq<u8>,
    r: Result<ObjectArtifact, Error>,
)
    requires
        assembled(fs, probe, module_data, start, table_data, r),
        r is Ok,
    ensures
        ({
            let all = fs.push(probe);
            let syms = symbol_models(r->Ok_0.symbols@);
            forall|i: int|
                0 <= i < all.len() ==> syms[2 * i + 1] == trap_table_symbol(#[trigger] all[i])
                    && syms[2 * i + 1].name == trap_symbol_spec(all[i].symbol) && syms[2 * i
                    + 1].bytes.len() == 8 * all[i].traps.len() && trap_table_valid(
                    all[i].traps,
                    all[i].code.len() as int,
                )
        }),
{
    lemma_object_symbols_layout(fs, probe, module_data, start, table_data);
    let all = fs.push(probe);
    assert forall|i: int| 0 <= i < all.len() implies (#[trigger] all[i]).traps.len() * 8
        == crate::traps::trap_table_bytes(all[i].traps).len() by {
        lemma_trap_table_len(all[i].traps);
    }
}

/// `man` lists every code symbol of `syms` exactly once, `n` entries in all,
/// entry `m` naming symbol `2 * m` with the length of its code.
pub open spec fn manifest_lists_code(syms: Seq<SymbolModel>, man: Seq<ManifestModel>, n: nat) -> bool {
    &&& man.len() == n
    &&& forall|m: int|
        0 <= m < man.len() ==> (#[trigger] man[m]).symbol == syms[2 * m].name && syms[2 * m].kind
            == SymbolKind::Code && man[m].code_length == syms[2 * m].bytes.len()
    &&& forall|k: int|
        0 <= k < syms.len() && (#[trigger] syms[k]).kind == SymbolKind::Code ==> exists|m: int|
            0 <= m < man.len() && k == 2 * m && (#[trigger] man[m]).symbol == syms[k].name
    &&& forall|m1: int, m2: int|
        0 <= m1 < m2 < man.len() ==> (#[trigger] man[m1]).symbol != (#[trigger] man[m2]).symbol
}

/// The manifest of an assembled object lists every code symbol exactly once:
/// one entry per function and one for the stack probe, in definition order, each
/// with the length of its code.
pub proof fn manifest_is_complete(
    fs: Seq<FunctionModel>,
    probe: FunctionModel,
    module_data: Seq<u8>,
    start: Option<usize>,
    table_data: Seq<u8>,
    r: Result<ObjectArtifact, Error>,
)
    requires
        assembled(fs, probe, module_data, start, table_data, r),
        r is Ok,
    ensures
        manifest_lists_code(
            symbol_models(r->Ok_0.symbols@),
            manifest_models(r->Ok_0.manifest@),
            fs.len() + 1,
        ),
{
    lemma_object_symbols_layout(fs, probe, module_data, start, table_data);
    let all = fs.push(probe);
    let syms = symbol_models(r->Ok_0.symbols@);
    let man = manifest_models(r->Ok_0.manifest@);
    assert forall|m: int| 0 <= m < man.len() implies (#[trigger] man[m]).symbol == syms[2 * m].name
        && syms[2 * m].kind == SymbolKind::Code && man[m].code_length == syms[2 * m].bytes.len() by {
        assert(man[m] == manifest_entry(all[m]));
        assert(syms[2 * m] == code_symbol(all[m]));
    }
    assert forall|k: int| 0 <= k < syms.len() && (#[trigger] syms[k]).kind == SymbolKind::Code implies exists|m: int|
        0 <= m < man.len() && k == 2 * m && (#[trigger] man[m]).symbol == syms[k].name by {
        let m = k / 2;
        if k < 2 * all.len() {
            if k % 2 == 1 {
                assert(k == 2 * m + 1);
                assert(syms[2 * m + 1] == trap_table_symbol(all[m]));
            } else {
                assert(k == 2 * m);
                assert(syms[2 * m] == code_symbol(all[m]));
                assert(man[m] == manifest_entry(all[m]));
            }
        }
    }
    assert forall|m1: int, m2: int| 0 <= m1 < m2 < man.len() implies (#[trigger] man[m1]).symbol
        != (#[trigger] man[m2]).symbol by {
        assert(syms[2 * m1] == code_symbol(all[m1]));
        assert(syms[2 * m2] == code_symbol(all[m2]));
        assert(man[m1] == manifest_entry(all[m1]));
        assert(man[m2] == manifest_entry(all[m2]));
    }
    assert(man.len() == all.len());
    assert(manifest_lists_code(syms, man, fs.len() + 1));
}

/// An assembled object holds the start-function slot exactly when the module
/// has a start function: then the one symbol that carries an address is the
/// 8-byte slot under the fixed start name, and it holds the address of the start
/// function's own code symbol. Without a start function no symbol carries an
/// address.
pub proof fn start_slot_iff_start_function(
    fs: Seq<FunctionModel>,
    probe: FunctionModel,
    module_data: Seq<u8>,
    start: Option<usize>,
    table_data: Seq<u8>,
    r: Result<ObjectArtifact, Error>,
)
    requires
        assembled(fs, probe, module_data, start, table_data, r),
        r is Ok,
    ensures
        ({
            let syms = symbol_models(r->Ok_0.symbols@);
            &&& (start is Some <==> exists|k: int| 0 <= k < syms.len() && (#[trigger] syms[k]).address_of is Some)
            &&& (start matches Some(i) ==> exists|k: int|
                0 <= k < syms.len() && (#[trigger] syms[k]).name == start_sym_spec() && syms[k].bytes.len() == 8
                    && syms[k].address_of == Some(fs[i as int].symbol) && syms[2 * i].name == fs[i as int].symbol
                    && syms[2 * i].kind == SymbolKind::Code)
            &&& (forall|k1: int, k2: int|
                0 <= k1 < k2 < syms.len() ==> (#[trigger] syms[k1]).name != (#[trigger] syms[k2]).name)
        }),
{
    lemma_object_symbols_layout(fs, probe, module_data, start, table_data);
    let all = fs.push(probe);
    let syms = symbol_models(r->Ok_0.symbols@);
    let n: int = 2 * all.len() as int;
    if let Some(i) = start {
        assert(syms[n + 1] == start_symbol(fs[i as int].symbol));
        assert(syms[n + 1].address_of is Some);
        assert(all[i as int] == fs[i as int]);
        assert(syms[2 * i] == code_symbol(all[i as int]));
    }
}

/// Assembling is all or nothing: an object comes back only when every trap
/// table fits its code, the start function exists, and no two symbols share a
/// name; when any of these fails the result is an error, with no symbol.
pub proof fn assemble_is_atomic(
    fs: Seq<FunctionModel>,
    probe: FunctionModel,
    module_data: Seq<u8>,
    start: Option<usize>,
    table_data: Seq<u8>,
    r: Result<ObjectArtifact, Error>,
)
    requires
        assembled(fs, probe, module_data, start, table_data, r),
    ensures
        r is Ok <==> (traps_fit(fs.push(probe)) && !(start matches Some(i) && i >= fs.len())
            && names_distinct(object_symbols(fs, probe, module_data, start, table_data))),
        !traps_fit(fs.push(probe)) ==> r == Err::<ObjectArtifact, Error>(Error::Serialization),
{
}

} // verus!
