//! Little-endian numbers inside byte sequences.
use crate::float::{F32, F64};
use vstd::prelude::*;

verus! {

/// The 16-bit number that starts at `at`.
#[verifier::opaque]
pub open spec fn u16_at(m: Seq<u8>, at: int) -> u16 {
    (m[at] + 0x100 * m[at + 1]) as u16
}

/// The 32-bit number that starts at `at`.
#[verifier::opaque]
pub open spec fn u32_at(m: Seq<u8>, at: int) -> u32 {
    (m[at] + 0x100 * m[at + 1] + 0x1_0000 * m[at + 2] + 0x100_0000 * m[at + 3]) as u32
}

/// The 64-bit number that starts at `at`.
#[verifier::opaque]
pub open spec fn u64_at(m: Seq<u8>, at: int) -> u64 {
    (u32_at(m, at) + 0x1_0000_0000 * u32_at(m, at + 4)) as u64
}

/// The signed 32-bit number that starts at `at`.
pub open spec fn i32_at(m: Seq<u8>, at: int) -> i32 {
    u32_at(m, at) as i32
}

/// The single precision number that starts at `at`.
pub open spec fn f32_at(m: Seq<u8>, at: int) -> F32 {
    F32 { bits: u32_at(m, at) }
}

/// The double precision number that starts at `at`.
pub open spec fn f64_at(m: Seq<u8>, at: int) -> F64 {
    F64 { bits: u64_at(m, at) }
}

/// Three single precision numbers in a row.
pub open spec fn vec3_at(m: Seq<u8>, at: int) -> [F32; 3] {
    [f32_at(m, at), f32_at(m, at + 4), f32_at(m, at + 8)]
}

/// Four single precision numbers in a row.
pub open spec fn vec4_at(m: Seq<u8>, at: int) -> [F32; 4] {
    [f32_at(m, at), f32_at(m, at + 4), f32_at(m, at + 8), f32_at(m, at + 12)]
}

/// Nothing but zero bytes from `from` up to `to`.
pub open spec fn zero_between(m: Seq<u8>, from: int, to: int) -> bool {
    forall|i: int| from <= i < to ==> #[trigger] m[i] == 0
}

/// The four bytes of a 32-bit number, lowest first.
pub open spec fn u32_bytes(v: u32) -> Seq<u8> {
    seq![
        (v % 0x100) as u8,
        (v / 0x100 % 0x100) as u8,
        (v / 0x1_0000 % 0x100) as u8,
        (v / 0x100_0000) as u8,
    ]
}

/// `longer` starts with `shorter`: every number inside `shorter` reads the same in both.
pub open spec fn extends(longer: Seq<u8>, shorter: Seq<u8>) -> bool {
    &&& shorter.len() <= longer.len()
    &&& forall|i: int| 0 <= i < shorter.len() ==> #[trigger] longer[i] == shorter[i]
    &&& forall|at: int|
        0 <= at && at + 2 <= shorter.len() ==> #[trigger] u16_at(longer, at) == u16_at(shorter, at)
    &&& forall|at: int|
        0 <= at && at + 4 <= shorter.len() ==> #[trigger] u32_at(longer, at) == u32_at(shorter, at)
    &&& forall|at: int|
        0 <= at && at + 8 <= shorter.len() ==> #[trigger] u64_at(longer, at) == u64_at(shorter, at)
}

/// A sequence extends each of its prefixes.
pub proof fn lemma_extends(longer: Seq<u8>, shorter: Seq<u8>)
    requires
        shorter.len() <= longer.len(),
        forall|i: int| 0 <= i < shorter.len() ==> #[trigger] longer[i] == shorter[i],
    ensures
        extends(longer, shorter),
{
    reveal(u16_at);
    reveal(u32_at);
    reveal(u64_at);
}

/// The bytes of a number read back as that number.
pub proof fn lemma_u32_bytes(v: u32)
    ensures
        u32_bytes(v).len() == 4,
        u32_at(u32_bytes(v), 0) == v,
{
    reveal(u32_at);
}

/// Numbers inside a window are the numbers of the whole.
pub proof fn lemma_window(m: Seq<u8>, from: int, to: int)
    requires
        0 <= from <= to <= m.len(),
    ensures
        forall|at: int|
            0 <= at && at + 2 <= to - from ==> #[trigger] u16_at(m.subrange(from, to), at)
                == u16_at(m, from + at),
        forall|at: int|
            0 <= at && at + 4 <= to - from ==> #[trigger] u32_at(m.subrange(from, to), at)
                == u32_at(m, from + at),
        forall|at: int|
            0 <= at && at + 8 <= to - from ==> #[trigger] u64_at(m.subrange(from, to), at)
                == u64_at(m, from + at),
{
    reveal(u16_at);
    reveal(u32_at);
    reveal(u64_at);
    assert forall|at: int| 0 <= at && at + 8 <= to - from implies #[trigger] u64_at(
        m.subrange(from, to),
        at,
    ) == u64_at(m, from + at) by {
        assert(u32_at(m.subrange(from, to), at + 4) == u32_at(m, from + at + 4));
    }
}

/// Appends a byte.
pub fn push_u8(out: &mut Vec<u8>, v: u8)
    ensures
        final(out)@.len() == old(out)@.len() + 1,
        extends(final(out)@, old(out)@),
        final(out)@[old(out)@.len() as int] == v,
{
    let ghost before = out@;
    out.push(v);
    proof {
        lemma_extends(out@, before);
    }
}

/// Appends a 16-bit number.
pub fn push_u16(out: &mut Vec<u8>, v: u16)
    ensures
        final(out)@.len() == old(out)@.len() + 2,
        extends(final(out)@, old(out)@),
        u16_at(final(out)@, old(out)@.len() as int) == v,
{
    let ghost before = out@;
    out.push((v % 0x100) as u8);
    out.push((v / 0x100) as u8);
    proof {
        lemma_extends(out@, before);
        reveal(u16_at);
    }
}

/// Appends a 32-bit number.
pub fn push_u32(out: &mut Vec<u8>, v: u32)
    ensures
        final(out)@.len() == old(out)@.len() + 4,
        extends(final(out)@, old(out)@),
        u32_at(final(out)@, old(out)@.len() as int) == v,
{
    let ghost before = out@;
    out.push((v % 0x100) as u8);
    out.push((v / 0x100 % 0x100) as u8);
    out.push((v / 0x1_0000 % 0x100) as u8);
    out.push((v / 0x100_0000) as u8);
    proof {
        lemma_extends(out@, before);
        reveal(u32_at);
    }
}

/// Appends a 64-bit number.
pub fn push_u64(out: &mut Vec<u8>, v: u64)
    ensures
        final(out)@.len() == old(out)@.len() + 8,
        extends(final(out)@, old(out)@),
        u64_at(final(out)@, old(out)@.len() as int) == v,
{
    let ghost before = out@;
    push_u32(out, (v % 0x1_0000_0000) as u32);
    push_u32(out, (v / 0x1_0000_0000) as u32);
    proof {
        lemma_extends(out@, before);
        reveal(u64_at);
    }
}

/// Appends a signed 32-bit number.
pub fn push_i32(out: &mut Vec<u8>, v: i32)
    ensures
        final(out)@.len() == old(out)@.len() + 4,
        extends(final(out)@, old(out)@),
        i32_at(final(out)@, old(out)@.len() as int) == v,
{
    assert((v as u32) as i32 == v) by (bit_vector);
    push_u32(out, v as u32);
}

/// Appends a single precision number.
pub fn push_f32(out: &mut Vec<u8>, v: F32)
    ensures
        final(out)@.len() == old(out)@.len() + 4,
        extends(final(out)@, old(out)@),
        f32_at(final(out)@, old(out)@.len() as int) == v,
{
    push_u32(out, v.bits);
}

/// Appends a double precision number.
pub fn push_f64(out: &mut Vec<u8>, v: F64)
    ensures
        final(out)@.len() == old(out)@.len() + 8,
        extends(final(out)@, old(out)@),
        f64_at(final(out)@, old(out)@.len() as int) == v,
{
    push_u64(out, v.bits);
}

/// Appends three single precision numbers.
pub fn push_vec3(out: &mut Vec<u8>, v: &[F32; 3])
    ensures
        final(out)@.len() == old(out)@.len() + 12,
        extends(final(out)@, old(out)@),
        vec3_at(final(out)@, old(out)@.len() as int) == *v,
{
    let ghost before = out@;
    push_f32(out, v[0]);
    push_f32(out, v[1]);
    push_f32(out, v[2]);
    proof {
        lemma_extends(out@, before);
        assert(vec3_at(out@, before.len() as int) =~= *v);
    }
}

/// Appends four single precision numbers.
pub fn push_vec4(out: &mut Vec<u8>, v: &[F32; 4])
    ensures
        final(out)@.len() == old(out)@.len() + 16,
        extends(final(out)@, old(out)@),
        vec4_at(final(out)@, old(out)@.len() as int) == *v,
{
    let ghost before = out@;
    push_f32(out, v[0]);
    push_f32(out, v[1]);
    push_f32(out, v[2]);
    push_f32(out, v[3]);
    proof {
        lemma_extends(out@, before);
        assert(vec4_at(out@, before.len() as int) =~= *v);
    }
}

/// Appends zero bytes.
pub fn push_zeros(out: &mut Vec<u8>, count: usize)
    ensures
        final(out)@.len() == old(out)@.len() + count,
        extends(final(out)@, old(out)@),
        zero_between(final(out)@, old(out)@.len() as int, old(out)@.len() + count),
{
    let ghost before = out@;
    for i in 0..count
        invariant
            out@.len() == before.len() + i,
            forall|j: int| 0 <= j < before.len() ==> #[trigger] out@[j] == before[j],
            forall|j: int| before.len() <= j < before.len() + i ==> #[trigger] out@[j] == 0,
    {
        out.push(0);
    }
    proof {
        lemma_extends(out@, before);
    }
}

/// Appends a run of bytes.
pub fn push_bytes(out: &mut Vec<u8>, bytes: &Vec<u8>)
    ensures
        final(out)@ == old(out)@ + bytes@,
        extends(final(out)@, old(out)@),
{
    let ghost before = out@;
    for i in 0..bytes.len()
        invariant
            out@ == before + bytes@.take(i as int),
    {
        out.push(bytes[i]);
        assert(out@ == before + bytes@.take(i + 1));
    }
    proof {
        assert(bytes@.take(bytes@.len() as int) == bytes@);
        lemma_extends(out@, before);
    }
}

/// Reads a 32-bit number.
pub fn read_u32(bytes: &[u8], at: usize) -> (v: u32)
    requires
        at + 4 <= bytes@.len(),
    ensures
        v == u32_at(bytes@, at as int),
{
    proof {
        reveal(u32_at);
    }
    bytes[at] as u32 + 0x100 * bytes[at + 1] as u32 + 0x1_0000 * bytes[at + 2] as u32 + 0x100_0000
        * bytes[at + 3] as u32
}

/// Reads a 64-bit number.
pub fn read_u64(bytes: &[u8], at: usize) -> (v: u64)
    requires
        at + 8 <= bytes@.len(),
    ensures
        v == u64_at(bytes@, at as int),
{
    let _len: usize = bytes.len();
    proof {
        reveal(u64_at);
    }
    read_u32(bytes, at) as u64 + 0x1_0000_0000 * read_u32(bytes, at + 4) as u64
}

/// Reads a single precision number.
pub fn read_f32(bytes: &[u8], at: usize) -> (v: F32)
    requires
        at + 4 <= bytes@.len(),
    ensures
        v == f32_at(bytes@, at as int),
{
    F32 { bits: read_u32(bytes, at) }
}

/// Reads three single precision numbers.
pub fn read_vec3(bytes: &[u8], at: usize) -> (v: [F32; 3])
    requires
        at + 12 <= bytes@.len(),
    ensures
        v == vec3_at(bytes@, at as int),
{
    let _len: usize = bytes.len();
    [read_f32(bytes, at), read_f32(bytes, at + 4), read_f32(bytes, at + 8)]
}

/// Reads four single precision numbers.
pub fn read_vec4(bytes: &[u8], at: usize) -> (v: [F32; 4])
    requires
        at + 16 <= bytes@.len(),
    ensures
        v == vec4_at(bytes@, at as int),
{
    let _len: usize = bytes.len();
    [
        read_f32(bytes, at),
        read_f32(bytes, at + 4),
        read_f32(bytes, at + 8),
        read_f32(bytes, at + 12),
    ]
}

} // verus!
