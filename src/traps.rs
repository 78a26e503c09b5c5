use vstd::prelude::*;
use vstd::string::StringExecFns;

verus! {

/// Why a fault-capable instruction may trap. The tag of each kind is stable:
/// it is written into trap tables and read back by the loader.
#[derive(Debug, Clone, Copy, PartialEq, Eq, Structural)]
pub enum TrapKind {
    StackOverflow,
    HeapOutOfBounds,
    OutOfBounds,
    IndirectCallToNull,
    BadSignature,
    IntegerOverflow,
    IntegerDivByZero,
    BadConversionToInteger,
    Interrupt,
    TableOutOfBounds,
    Unreachable,
}

impl TrapKind {
    pub open spec fn tag_spec(self) -> u32 {
        match self {
            TrapKind::StackOverflow => 0,
            TrapKind::HeapOutOfBounds => 1,
            TrapKind::OutOfBounds => 2,
            TrapKind::IndirectCallToNull => 3,
            TrapKind::BadSignature => 4,
            TrapKind::IntegerOverflow => 5,
            TrapKind::IntegerDivByZero => 6,
            TrapKind::BadConversionToInteger => 7,
            TrapKind::Interrupt => 8,
            TrapKind::TableOutOfBounds => 9,
            TrapKind::Unreachable => 10,
        }
    }

    /// The serialized tag of this kind.
    pub fn tag(&self) -> (r: u32)
        ensures
            r == self.tag_spec(),
    {
        match self {
            TrapKind::StackOverflow => 0,
            TrapKind::HeapOutOfBounds => 1,
            TrapKind::OutOfBounds => 2,
            TrapKind::IndirectCallToNull => 3,
            TrapKind::BadSignature => 4,
            TrapKind::IntegerOverflow => 5,
            TrapKind::IntegerDivByZero => 6,
            TrapKind::BadConversionToInteger => 7,
            TrapKind::Interrupt => 8,
            TrapKind::TableOutOfBounds => 9,
            TrapKind::Unreachable => 10,
        }
    }

    /// The kind whose tag is `tag`, if any.
    pub fn from_tag(tag: u32) -> (r: Option<TrapKind>)
        ensures
            match r {
                Some(k) => k.tag_spec() == tag,
                None => tag > 10,
            },
    {
        match tag {
            0 => Some(TrapKind::StackOverflow),
            1 => Some(TrapKind::HeapOutOfBounds),
            2 => Some(TrapKind::OutOfBounds),
            3 => Some(TrapKind::IndirectCallToNull),
            4 => Some(TrapKind::BadSignature),
            5 => Some(TrapKind::IntegerOverflow),
            6 => Some(TrapKind::IntegerDivByZero),
            7 => Some(TrapKind::BadConversionToInteger),
            8 => Some(TrapKind::Interrupt),
            9 => Some(TrapKind::TableOutOfBounds),
            10 => Some(TrapKind::Unreachable),
            _ => None,
        }
    }
}

/// A fault-capable instruction: its offset in the function's code, and why it may trap.
#[derive(Debug, Clone, Copy, PartialEq, Eq, Structural)]
pub struct TrapSite {
    pub offset: u32,
    pub kind: TrapKind,
}

/// Number of bytes one trap site takes in a trap table.
pub const TRAP_ENTRY_SIZE: usize = 8;

/// Little-endian bytes of a 32-bit value.
pub open spec fn le_bytes(x: u32) -> Seq<u8> {
    seq![
        (x % 256) as u8,
        ((x / 256) % 256) as u8,
        ((x / 65536) % 256) as u8,
        (x / 16777216) as u8,
    ]
}

/// One entry of a trap table: the offset, then the kind's tag, both little-endian.
pub open spec fn trap_entry_bytes(site: TrapSite) -> Seq<u8> {
    le_bytes(site.offset) + le_bytes(site.kind.tag_spec())
}

/// The trap table of a function: its entries, one after the other.
pub open spec fn trap_table_bytes(sites: Seq<TrapSite>) -> Seq<u8>
    decreases sites.len(),
{
    if sites.len() == 0 {
        Seq::empty()
    } else {
        trap_table_bytes(sites.drop_last()) + trap_entry_bytes(sites.last())
    }
}

/// A trap table is well formed for code of `code_len` bytes when its offsets
/// strictly increase and each lies inside the code.
pub open spec fn trap_table_valid(sites: Seq<TrapSite>, code_len: int) -> bool {
    &&& forall|i: int| 0 <= i < sites.len() ==> (#[trigger] sites[i]).offset < code_len
    &&& forall|i: int, j: int|
        0 <= i < j < sites.len() ==> (#[trigger] sites[i]).offset < (#[trigger] sites[j]).offset
}

pub proof fn lemma_trap_table_len(sites: Seq<TrapSite>)
    ensures
        trap_table_bytes(sites).len() == 8 * sites.len(),
    decreases sites.len(),
{
    if sites.len() > 0 {
        lemma_trap_table_len(sites.drop_last());
    }
}

fn push_le_u32(out: &mut Vec<u8>, x: u32)
    ensures
        final(out)@ == old(out)@ + le_bytes(x),
{
    out.push((x % 256) as u8);
    out.push(((x / 256) % 256) as u8);
    out.push(((x / 65536) % 256) as u8);
    out.push((x / 16777216) as u8);
    assert(final(out)@ =~= old(out)@ + le_bytes(x));
}

/// Serializes trap sites into a fixed-width trap table.
pub fn encode_trap_table(sites: &Vec<TrapSite>) -> (r: Vec<u8>)
    requires
        sites@.len() * 8 <= usize::MAX,
    ensures
        r@ == trap_table_bytes(sites@),
        r@.len() == sites@.len() * TRAP_ENTRY_SIZE,
{
    let mut out: Vec<u8> = Vec::new();
    let mut i: usize = 0;
    while i < sites.len()
        invariant
            i <= sites@.len(),
            out@ == trap_table_bytes(sites@.take(i as int)),
        decreases sites@.len() - i,
    {
        let site = sites[i];
        push_le_u32(&mut out, site.offset);
        let tag = site.kind.tag();
        push_le_u32(&mut out, tag);
        proof {
            assert(sites@.take(i + 1).drop_last() =~= sites@.take(i as int));
        }
        i = i + 1;
    }
    proof {
        assert(sites@.take(i as int) =~= sites@);
        lemma_trap_table_len(sites@);
    }
    out
}

/// The 32-bit little-endian value that starts at `at`.
pub open spec fn u32_at(b: Seq<u8>, at: int) -> int {
    b[at] + 256 * b[at + 1] + 65536 * b[at + 2] + 16777216 * b[at + 3]
}

/// A byte string is a trap table when it is made of whole entries, each with a
/// known tag.
pub open spec fn trap_table_decodable(b: Seq<u8>) -> bool {
    &&& b.len() % 8 == 0
    &&& forall|k: int| 0 <= k < b.len() / 8 ==> #[trigger] u32_at(b, 8 * k + 4) <= 10
}

proof fn lemma_le_bytes_of(v: u32, b0: u8, b1: u8, b2: u8, b3: u8)
    requires
        v == b0 + 256 * b1 + 65536 * b2 + 16777216 * b3,
    ensures
        le_bytes(v) == seq![b0, b1, b2, b3],
{
    let (c0, c1, c2, c3) = (b0 as u32, b1 as u32, b2 as u32, b3 as u32);
    assert(c0 < 256 && c1 < 256 && c2 < 256 && c3 < 256);
    assert(v == c0 + 256 * c1 + 65536 * c2 + 16777216 * c3);
    assert(v % 256 == c0 && (v / 256) % 256 == c1 && (v / 65536) % 256 == c2 && v / 16777216 == c3)
        by (bit_vector)
        requires
            c0 < 256u32 && c1 < 256u32 && c2 < 256u32 && c3 < 256u32,
            v == c0 + 256u32 * c1 + 65536u32 * c2 + 16777216u32 * c3,
    ;
    assert(le_bytes(v) =~= seq![b0, b1, b2, b3]);
}

proof fn lemma_le_bytes_injective(x: u32, y: u32)
    requires
        le_bytes(x) == le_bytes(y),
    ensures
        x == y,
{
    assert(le_bytes(x)[0] == le_bytes(y)[0]);
    assert(le_bytes(x)[1] == le_bytes(y)[1]);
    assert(le_bytes(x)[2] == le_bytes(y)[2]);
    assert(le_bytes(x)[3] == le_bytes(y)[3]);
    assert(x % 256 == y % 256);
    assert((x / 256) % 256 == (y / 256) % 256);
    assert((x / 65536) % 256 == (y / 65536) % 256);
    assert(x / 16777216 == y / 16777216);
    assert(x == y) by (bit_vector)
        requires
            x % 256 == y % 256,
            (x / 256) % 256 == (y / 256) % 256,
            (x / 65536) % 256 == (y / 65536) % 256,
            x / 16777216 == y / 16777216,
    ;
}

proof fn lemma_u32_at_le_bytes(x: u32)
    ensures
        u32_at(le_bytes(x), 0) == x,
{
    let b = le_bytes(x);
    assert(x == x % 256 + 256 * ((x / 256) % 256) + 65536 * ((x / 65536) % 256) + 16777216 * (x
        / 16777216)) by (bit_vector);
    assert(b[0] == x % 256 && b[1] == (x / 256) % 256 && b[2] == (x / 65536) % 256 && b[3] == x
        / 16777216);
}

/// Each entry of an encoded trap table sits at eight times its index.
proof fn lemma_trap_table_entry(sites: Seq<TrapSite>, k: int)
    requires
        0 <= k < sites.len(),
    ensures
        trap_table_bytes(sites).subrange(8 * k, 8 * k + 8) == trap_entry_bytes(sites[k]),
    decreases sites.len(),
{
    lemma_trap_table_len(sites);
    let prev = sites.drop_last();
    lemma_trap_table_len(prev);
    let t = trap_table_bytes(sites);
    if k < sites.len() - 1 {
        lemma_trap_table_entry(prev, k);
        assert(t.subrange(8 * k, 8 * k + 8) =~= trap_table_bytes(prev).subrange(8 * k, 8 * k + 8));
    } else {
        assert(t.subrange(8 * k, 8 * k + 8) =~= trap_entry_bytes(sites[k]));
    }
}

/// What `decode_trap_table` reads back from an encoded table is the sequence of
/// sites it was encoded from: every encoded table decodes, and no two sequences
/// of sites encode to the same bytes.
pub proof fn trap_table_round_trip(sites: Seq<TrapSite>, decoded: Seq<TrapSite>)
    ensures
        trap_table_decodable(trap_table_bytes(sites)),
        trap_table_bytes(decoded) == trap_table_bytes(sites) ==> decoded == sites,
    decreases sites.len(),
{
    let t = trap_table_bytes(sites);
    lemma_trap_table_len(sites);
    assert forall|k: int| 0 <= k < t.len() / 8 implies #[trigger] u32_at(t, 8 * k + 4) <= 10 by {
        lemma_trap_table_entry(sites, k);
        let e = trap_entry_bytes(sites[k]);
        let tag = sites[k].kind.tag_spec();
        lemma_u32_at_le_bytes(tag);
        assert(le_bytes(tag) =~= e.subrange(4, 8));
        assert(t[8 * k + 4] == e[4] && t[8 * k + 5] == e[5] && t[8 * k + 6] == e[6] && t[8 * k + 7]
            == e[7]);
    }
    if trap_table_bytes(decoded) == t {
        lemma_trap_table_len(decoded);
        if sites.len() > 0 {
            let (a, b) = (decoded.drop_last(), sites.drop_last());
            lemma_trap_table_len(a);
            lemma_trap_table_len(b);
            let ta = trap_table_bytes(a);
            let tb = trap_table_bytes(b);
            let (ea, eb) = (trap_entry_bytes(decoded.last()), trap_entry_bytes(sites.last()));
            assert(ta =~= t.take(ta.len() as int));
            assert(tb =~= t.take(tb.len() as int));
            assert(ea =~= t.skip(ta.len() as int));
            assert(eb =~= t.skip(tb.len() as int));
            assert(le_bytes(decoded.last().offset) =~= ea.take(4));
            assert(le_bytes(sites.last().offset) =~= eb.take(4));
            assert(le_bytes(decoded.last().kind.tag_spec()) =~= ea.skip(4));
            assert(le_bytes(sites.last().kind.tag_spec()) =~= eb.skip(4));
            lemma_le_bytes_injective(decoded.last().offset, sites.last().offset);
            lemma_le_bytes_injective(decoded.last().kind.tag_spec(), sites.last().kind.tag_spec());
            trap_table_round_trip(b, a);
            assert(decoded =~= a.push(decoded.last()));
            assert(sites =~= b.push(sites.last()));
        } else {
            assert(decoded =~= sites);
        }
    }
}

fn read_le_u32(b: &Vec<u8>, at: usize) -> (r: u32)
    requires
        at + 4 <= b@.len(),
    ensures
        r == u32_at(b@, at as int),
        le_bytes(r) == b@.subrange(at as int, at + 4),
{
    let len = b.len();
    assert(at + 4 <= len);
    let b0 = b[at];
    let b1 = b[at + 1];
    let b2 = b[at + 2];
    let b3 = b[at + 3];
    let r: u32 = b0 as u32 + 256 * (b1 as u32) + 65536 * (b2 as u32) + 16777216 * (b3 as u32);
    proof {
        lemma_le_bytes_of(r, b0, b1, b2, b3);
        assert(b@.subrange(at as int, at + 4) =~= seq![b0, b1, b2, b3]);
    }
    r
}

/// Reads a trap table back into its trap sites, as the loader does.
pub fn decode_trap_table(bytes: &Vec<u8>) -> (r: Option<Vec<TrapSite>>)
    ensures
        r is Some <==> trap_table_decodable(bytes@),
        r matches Some(v) ==> trap_table_bytes(v@) == bytes@,
{
    if bytes.len() % 8 != 0 {
        return None;
    }
    let len = bytes.len();
    let mut out: Vec<TrapSite> = Vec::new();
    let mut at: usize = 0;
    let mut i: usize = 0;
    while at < len
        invariant
            len == bytes@.len(),
            len % 8 == 0,
            at == 8 * i,
            at <= len,
            out@.len() == i,
            trap_table_bytes(out@) == bytes@.take(8 * i as int),
            forall|k: int| 0 <= k < i ==> #[trigger] u32_at(bytes@, 8 * k + 4) <= 10,
        decreases len - at,
    {
        assert(at + 8 <= len);
        let offset = read_le_u32(bytes, at);
        let tag = read_le_u32(bytes, at + 4);
        match TrapKind::from_tag(tag) {
            None => {
                assert(!(u32_at(bytes@, 8 * (i as int) + 4) <= 10));
                return None;
            },
            Some(kind) => {
                let site = TrapSite { offset, kind };
                proof {
                    let b = bytes@;
                    let lo = 8 * i as int;
                    assert(out@.push(site).drop_last() =~= out@);
                    assert(b.take(lo + 8) =~= b.take(lo) + b.subrange(lo, lo + 4) + b.subrange(
                        lo + 4,
                        lo + 8,
                    ));
                    assert(trap_entry_bytes(site) == le_bytes(offset) + le_bytes(tag));
                }
                out.push(site);
                i = i + 1;
                at = at + 8;
            },
        }
    }
    assert(bytes@.take(8 * i as int) =~= bytes@);
    Some(out)
}

/// Checks that a trap table is well formed for code of `code_len` bytes.
pub fn trap_table_is_valid(sites: &Vec<TrapSite>, code_len: usize) -> (r: bool)
    ensures
        r == trap_table_valid(sites@, code_len as int),
{
    let mut i: usize = 0;
    while i < sites.len()
        invariant
            i <= sites@.len(),
            trap_table_valid(sites@.take(i as int), code_len as int),
        decreases sites@.len() - i,
    {
        if sites[i].offset as usize >= code_len {
            return false;
        }
        if i > 0 && sites[i - 1].offset >= sites[i].offset {
            assert(!(sites@[i - 1].offset < sites@[i as int].offset));
            return false;
        }
        proof {
            let s = sites@.take(i + 1);
            assert forall|a: int, b: int| 0 <= a < b < s.len() implies (#[trigger] s[a]).offset
                < (#[trigger] s[b]).offset by {
                if b < i {
                    assert(sites@.take(i as int)[a] == s[a]);
                    assert(sites@.take(i as int)[b] == s[b]);
                } else if a < i - 1 {
                    assert(sites@.take(i as int)[a] == s[a]);
                    assert(sites@.take(i as int)[i - 1] == s[i - 1]);
                }
            }
            assert forall|a: int| 0 <= a < s.len() implies (#[trigger] s[a]).offset
                < code_len by {
                if a < i {
                    assert(sites@.take(i as int)[a] == s[a]);
                }
            }
        }
        i = i + 1;
    }
    assert(sites@.take(i as int) =~= sites@);
    true
}

/// Finds the kind of the trap at `offset` by binary search in a well-formed table.
pub fn lookup_trap(sites: &Vec<TrapSite>, offset: u32) -> (r: Option<TrapKind>)
    requires
        forall|i: int, j: int|
            0 <= i < j < sites@.len() ==> (#[trigger] sites@[i]).offset
                < (#[trigger] sites@[j]).offset,
    ensures
        match r {
            Some(k) => exists|i: int|
                0 <= i < sites@.len() && (#[trigger] sites@[i]).offset == offset && sites@[i].kind
                    == k,
            None => forall|i: int| 0 <= i < sites@.len() ==> (#[trigger] sites@[i]).offset != offset,
        },
{
    let mut lo: usize = 0;
    let mut hi: usize = sites.len();
    while lo < hi
        invariant
            lo <= hi <= sites@.len(),
            forall|i: int, j: int|
                0 <= i < j < sites@.len() ==> (#[trigger] sites@[i]).offset
                    < (#[trigger] sites@[j]).offset,
            forall|i: int| 0 <= i < lo ==> (#[trigger] sites@[i]).offset < offset,
            forall|i: int| hi <= i < sites@.len() ==> (#[trigger] sites@[i]).offset > offset,
        decreases hi - lo,
    {
        let mid = lo + (hi - lo) / 2;
        let at = sites[mid].offset;
        if at == offset {
            return Some(sites[mid].kind);
        } else if at < offset {
            lo = mid + 1;
        } else {
            hi = mid;
        }
    }
    None
}

pub open spec fn trap_symbol_spec(func: Seq<char>) -> Seq<char> {
    "lucet_trap_table_"@ + func
}

/// Name of the data symbol that holds the trap table of function `func`.
pub fn trap_sym_for_func(func: &str) -> (r: String)
    ensures
        r@ == trap_symbol_spec(func@),
{
    let prefix = String::from_str("lucet_trap_table_");
    proof {
        reveal_strlit("lucet_trap_table_");
    }
    prefix.concat(func)
}

} // verus!
