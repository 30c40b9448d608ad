//! Steps on the shared memory.
//!
//! The publisher and the subscriber decide; whoever holds the mapping carries the steps out in the
//! order given. [`run`] says what the metadata region holds afterwards.
use crate::layout::{INDEX_MASK, SHM_META_REGION_SIZE};
use crate::wire::{lemma_u32_bytes, u32_at, u32_bytes};
use vstd::prelude::*;

verus! {

/// One step.
pub enum ShmOp {
    /// Copy the pixels of the frame at hand into the image pool.
    CopyPixels { at: usize },
    /// Copy bytes into the metadata region.
    Copy { at: usize, bytes: Vec<u8> },
    /// Swap `value` into the state byte of a triple buffer, atomically, and keep the slot that the
    /// state named before as one's own.
    Exchange { state_at: usize, index_at: usize, value: u8 },
    /// Store a 32-bit marker, atomically.
    StoreMarker { at: usize, marker: u32 },
    /// Keep what is written before from being seen after what is written behind.
    Fence,
}

/// `m` with `b` laid over it at `at`.
pub open spec fn splice(m: Seq<u8>, at: int, b: Seq<u8>) -> Seq<u8> {
    Seq::new(
        m.len(),
        |i: int|
            if at <= i < at + b.len() {
                b[i - at]
            } else {
                m[i]
            },
    )
}

/// What the metadata region holds after one step.
pub open spec fn step(m: Seq<u8>, op: ShmOp) -> Seq<u8> {
    match op {
        ShmOp::CopyPixels { at } => m,
        ShmOp::Copy { at, bytes } => splice(m, at as int, bytes@),
        ShmOp::Exchange { state_at, index_at, value } => splice(
            splice(m, state_at as int, seq![value]),
            index_at as int,
            seq![m[state_at as int] & INDEX_MASK],
        ),
        ShmOp::StoreMarker { at, marker } => splice(m, at as int, u32_bytes(marker)),
        ShmOp::Fence => m,
    }
}

/// What the metadata region holds after a sequence of steps.
pub open spec fn run(m: Seq<u8>, ops: Seq<ShmOp>) -> Seq<u8>
    decreases ops.len(),
{
    if ops.len() == 0 {
        m
    } else {
        step(run(m, ops.drop_last()), ops.last())
    }
}

/// What the image pool holds after one step, with `pixels` as the frame at hand.
pub open spec fn step_pool(pool: Seq<u8>, pixels: Seq<u8>, op: ShmOp) -> Seq<u8> {
    match op {
        ShmOp::CopyPixels { at } => splice(pool, at as int, pixels),
        _ => pool,
    }
}

/// What the image pool holds after a sequence of steps.
pub open spec fn run_pool(pool: Seq<u8>, pixels: Seq<u8>, ops: Seq<ShmOp>) -> Seq<u8>
    decreases ops.len(),
{
    if ops.len() == 0 {
        pool
    } else {
        step_pool(run_pool(pool, pixels, ops.drop_last()), pixels, ops.last())
    }
}

/// Only bytes from `from` up to `to` differ.
pub open spec fn same_outside(a: Seq<u8>, b: Seq<u8>, from: int, to: int) -> bool {
    &&& a.len() == b.len()
    &&& forall|i: int| 0 <= i < a.len() && !(from <= i < to) ==> #[trigger] b[i] == a[i]
}

/// The metadata region has its length.
pub open spec fn sized(m: Seq<u8>) -> bool {
    m.len() == SHM_META_REGION_SIZE
}

/// Steps leave the length alone.
pub proof fn lemma_run_len(m: Seq<u8>, ops: Seq<ShmOp>)
    ensures
        run(m, ops).len() == m.len(),
    decreases ops.len(),
{
    if ops.len() > 0 {
        lemma_run_len(m, ops.drop_last());
    }
}

/// Two sequences of steps, one after the other.
pub proof fn lemma_run_concat(m: Seq<u8>, first: Seq<ShmOp>, second: Seq<ShmOp>)
    ensures
        run(m, first + second) == run(run(m, first), second),
    decreases second.len(),
{
    if second.len() == 0 {
        assert(first + second =~= first);
    } else {
        assert((first + second).drop_last() =~= first + second.drop_last());
        lemma_run_concat(m, first, second.drop_last());
    }
}

/// The first steps of a sequence, up to and with the one at `n`.
pub proof fn lemma_run_prefix(m: Seq<u8>, ops: Seq<ShmOp>, n: int)
    requires
        0 <= n < ops.len(),
    ensures
        run(m, ops.subrange(0, n + 1)) == step(run(m, ops.subrange(0, n)), ops[n]),
        n + 1 == ops.len() ==> ops.subrange(0, n + 1) == ops,
        n == 0 ==> run(m, ops.subrange(0, n)) == m,
{
    assert(ops.subrange(0, n + 1).drop_last() =~= ops.subrange(0, n));
    if n + 1 == ops.len() {
        assert(ops.subrange(0, n + 1) =~= ops);
    }
}

/// A sequence of one step.
pub proof fn lemma_run_one(m: Seq<u8>, op: ShmOp)
    ensures
        run(m, seq![op]) == step(m, op),
{
    assert(seq![op].drop_last() =~= Seq::<ShmOp>::empty());
    reveal_with_fuel(run, 2);
}

/// A sequence of two steps.
pub proof fn lemma_run_two(m: Seq<u8>, first: ShmOp, second: ShmOp)
    ensures
        run(m, seq![first, second]) == step(step(m, first), second),
{
    assert(seq![first, second].drop_last() =~= seq![first]);
    lemma_run_one(m, first);
}

/// Windows clear of a change are the same.
pub proof fn lemma_windows_outside(a: Seq<u8>, b: Seq<u8>, from: int, to: int)
    requires
        same_outside(a, b, from, to),
    ensures
        forall|x: int, y: int|
            0 <= x <= y <= a.len() && (y <= from || to <= x) ==> #[trigger] b.subrange(x, y)
                == a.subrange(x, y),
{
    assert forall|x: int, y: int|
        0 <= x <= y <= a.len() && (y <= from || to <= x) implies #[trigger] b.subrange(x, y)
        == a.subrange(x, y) by {
        assert(b.subrange(x, y) =~= a.subrange(x, y));
    }
}

/// What is laid over a sequence stands there, and nothing else changes.
pub proof fn lemma_splice(m: Seq<u8>, at: int, b: Seq<u8>)
    requires
        0 <= at,
        at + b.len() <= m.len(),
    ensures
        splice(m, at, b).subrange(at, at + b.len()) == b,
        same_outside(m, splice(m, at, b), at, at + b.len()),
{
    assert(splice(m, at, b).subrange(at, at + b.len()) =~= b);
}

/// A change inside a window, seen through the window.
pub proof fn lemma_splice_window(m: Seq<u8>, from: int, to: int, at: int, b: Seq<u8>)
    requires
        0 <= from <= at,
        at + b.len() <= to <= m.len(),
    ensures
        splice(m, at, b).subrange(from, to) == splice(m.subrange(from, to), at - from, b),
{
    assert(splice(m, at, b).subrange(from, to) =~= splice(m.subrange(from, to), at - from, b));
}

/// A stored marker reads back.
pub proof fn lemma_marker(m: Seq<u8>, at: int, value: u32)
    requires
        0 <= at,
        at + 4 <= m.len(),
    ensures
        u32_at(splice(m, at, u32_bytes(value)), at) == value,
        same_outside(m, splice(m, at, u32_bytes(value)), at, at + 4),
{
    lemma_u32_bytes(value);
    lemma_splice(m, at, u32_bytes(value));
    crate::wire::lemma_window(splice(m, at, u32_bytes(value)), at, at + 4);
}

/// A copy puts its bytes where it is told; a marker stands in four bytes, the lowest one first; an
/// exchange puts its value into the state and the slot that the state named into the index. Nothing
/// else changes, and neither a fence nor pixels change anything.
pub proof fn law_each_step_changes_its_own_bytes(m: Seq<u8>, op: ShmOp, i: int)
    requires
        0 <= i < m.len(),
    ensures
        ({
            let r = step(m, op);
            &&& r.len() == m.len()
            &&& op is Fence || op is CopyPixels ==> r[i] == m[i]
            &&& op matches ShmOp::Copy { at, bytes } ==> r[i] == (if at <= i < at + bytes@.len() {
                bytes@[i - at]
            } else {
                m[i]
            })
            &&& op matches ShmOp::Exchange { state_at, index_at, value } ==> {
                &&& i == index_at ==> r[i] == m[state_at as int] & 3
                &&& i == state_at && state_at != index_at ==> r[i] == value
                &&& i != index_at && i != state_at ==> r[i] == m[i]
            }
            &&& op matches ShmOp::StoreMarker { at, marker } ==> {
                &&& i == at ==> r[i] == marker % 0x100
                &&& i == at + 1 ==> r[i] == marker / 0x100 % 0x100
                &&& i == at + 2 ==> r[i] == marker / 0x1_0000 % 0x100
                &&& i == at + 3 ==> r[i] == marker / 0x100_0000
                &&& i < at || at + 4 <= i ==> r[i] == m[i]
            }
        }),
{
    if op is StoreMarker {
        lemma_u32_bytes(op->marker);
    }
}

/// Steps are carried out one after the other, none is left out and none comes twice; and so it is
/// with the pixels.
pub proof fn law_steps_follow_each_other(
    m: Seq<u8>,
    pixels: Seq<u8>,
    first: Seq<ShmOp>,
    op: ShmOp,
    second: Seq<ShmOp>,
)
    ensures
        run(m, first + second) == run(run(m, first), second),
        run(m, seq![op]) == step(m, op),
        run(m, Seq::<ShmOp>::empty()) == m,
        run_pool(m, pixels, first + second) == run_pool(
            run_pool(m, pixels, first),
            pixels,
            second,
        ),
        run_pool(m, pixels, seq![op]) == step_pool(m, pixels, op),
        run_pool(m, pixels, Seq::<ShmOp>::empty()) == m,
    decreases second.len(),
{
    lemma_run_concat(m, first, second);
    lemma_run_one(m, op);
    assert(seq![op].drop_last() =~= Seq::<ShmOp>::empty());
    reveal_with_fuel(run_pool, 2);
    if second.len() == 0 {
        assert(first + second =~= first);
    } else {
        assert((first + second).drop_last() =~= first + second.drop_last());
        law_steps_follow_each_other(m, pixels, first, op, second.drop_last());
    }
}

/// Pixels go into the pool where they are told, and nothing else does.
pub proof fn law_only_pixels_change_the_pool(pool: Seq<u8>, pixels: Seq<u8>, op: ShmOp, i: int)
    requires
        0 <= i < pool.len(),
    ensures
        ({
            let r = step_pool(pool, pixels, op);
            &&& r.len() == pool.len()
            &&& op matches ShmOp::CopyPixels { at } ==> r[i] == (if at <= i < at + pixels.len() {
                pixels[i - at]
            } else {
                pool[i]
            })
            &&& !(op is CopyPixels) ==> r[i] == pool[i]
        }),
{
}

} // verus!
