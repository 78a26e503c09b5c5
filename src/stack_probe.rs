use vstd::prelude::*;
use crate::traps::{TrapKind, TrapSite, trap_table_valid};

verus! {

/// Symbol under which the stack probe is defined.
pub open spec fn stack_probe_sym_spec() -> Seq<char> {
    "lucet_probestack"@
}

/// Number of bytes of the stack probe's machine code.
pub const STACK_PROBE_LEN: usize = 43;

/// The stack probe's x86-64 machine code. It touches the stack page by page,
/// down to `rsp - rax`, so that a frame larger than the guard region faults on
/// the guard page instead of stepping over it:
///
/// ```text
///  0: mov  %rax,%r11
///  3: sub  $0x1000,%rsp
/// 10: test %rsp,0x8(%rsp)     ; may fault: stack overflow
/// 15: sub  $0x1000,%r11
/// 22: cmp  $0x1000,%r11
/// 29: ja   3
/// 31: sub  %r11,%rsp
/// 34: test %rsp,0x8(%rsp)     ; may fault: stack overflow
/// 39: add  %rax,%rsp
/// 42: ret
/// ```
pub open spec fn stack_probe_code_spec() -> Seq<u8> {
    seq![
        0x49u8, 0x89, 0xc3, 0x48, 0x81, 0xec, 0x00, 0x10, 0x00, 0x00, 0x48, 0x85, 0x64, 0x24,
        0x08, 0x49, 0x81, 0xeb, 0x00, 0x10, 0x00, 0x00, 0x49, 0x81, 0xfb, 0x00, 0x10, 0x00,
        0x00, 0x77, 0xe4, 0x4c, 0x29, 0xdc, 0x48, 0x85, 0x64, 0x24, 0x08, 0x48, 0x01, 0xc4,
        0xc3,
    ]
}

pub fn stack_probe_code() -> (r: Vec<u8>)
    ensures
        r@ == stack_probe_code_spec(),
        r@.len() == STACK_PROBE_LEN,
{
    let r: Vec<u8> = vec![
        0x49, 0x89, 0xc3, 0x48, 0x81, 0xec, 0x00, 0x10, 0x00, 0x00, 0x48, 0x85, 0x64, 0x24,
        0x08, 0x49, 0x81, 0xeb, 0x00, 0x10, 0x00, 0x00, 0x49, 0x81, 0xfb, 0x00, 0x10, 0x00,
        0x00, 0x77, 0xe4, 0x4c, 0x29, 0xdc, 0x48, 0x85, 0x64, 0x24, 0x08, 0x48, 0x01, 0xc4,
        0xc3,
    ];
    assert(r@ =~= stack_probe_code_spec());
    r
}

/// The stack probe's trap sites: its two stack touches.
pub open spec fn stack_probe_traps_spec() -> Seq<TrapSite> {
    seq![
        TrapSite { offset: 10, kind: TrapKind::StackOverflow },
        TrapSite { offset: 34, kind: TrapKind::StackOverflow },
    ]
}

pub fn stack_probe_trap_sites() -> (r: Vec<TrapSite>)
    ensures
        r@ == stack_probe_traps_spec(),
        trap_table_valid(r@, STACK_PROBE_LEN as int),
{
    let r = vec![
        TrapSite { offset: 10, kind: TrapKind::StackOverflow },
        TrapSite { offset: 34, kind: TrapKind::StackOverflow },
    ];
    assert(r@ =~= stack_probe_traps_spec());
    r
}

} // verus!
