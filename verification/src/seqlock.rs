//! Reading a record that its writer may be replacing at the same time.
//!
//! A marker stands beside the record: odd while it is being written, even when it is complete, and
//! zero until the first time that it is. A reader loads the marker, copies the record, and keeps
//! the copy only where the marker has not moved.
use vstd::prelude::*;

verus! {

/// How often a reader tries.
pub const READ_ATTEMPTS: u32 = 8;

/// What the reader does next.
#[derive(Debug, Clone, Copy, PartialEq, Eq, Structural)]
pub enum ReadAction {
    /// Load the marker and report it as the start of an attempt.
    LoadMarker,
    /// Copy the payload, set a fence, load the marker again and report it as the end.
    CopyPayload,
    /// Keep the copy.
    Accept,
    /// Give up.
    GiveUp,
}

/// A reader.
#[derive(Debug, Clone, Copy, PartialEq, Eq, Structural)]
pub struct SnapshotReader {
    /// The attempts that have failed.
    pub failed: u32,
    /// The marker at the start of the attempt that is under way.
    pub before: u32,
}

/// A marker that a copy may start under.
pub open spec fn stable(marker: u32) -> bool {
    marker != 0 && marker % 2 == 0
}

/// An attempt that found the marker at `before` at its start and at `after` at its end gives a
/// copy that can be kept.
pub open spec fn attempt_holds(before: u32, after: u32) -> bool {
    stable(before) && after == before
}

impl SnapshotReader {
    /// There is an attempt left.
    pub open spec fn trying(self) -> bool {
        self.failed < READ_ATTEMPTS
    }

    /// What comes next behind a failed attempt.
    pub open spec fn after_failure(self) -> ReadAction {
        if self.trying() {
            ReadAction::LoadMarker
        } else {
            ReadAction::GiveUp
        }
    }

    /// The reader at the start of its first attempt.
    pub fn begin() -> (r: SnapshotReader)
        ensures
            r.failed == 0,
            r.trying(),
    {
        SnapshotReader { failed: 0, before: 0 }
    }

    /// The marker was loaded at the start of an attempt.
    pub fn started(&mut self, marker: u32) -> (action: ReadAction)
        requires
            old(self).trying(),
        ensures
            stable(marker) ==> action is CopyPayload && final(self).failed == old(self).failed
                && final(self).before == marker,
            !stable(marker) ==> final(self).failed == old(self).failed + 1 && action
                == final(self).after_failure(),
    {
        if marker == 0 || marker % 2 != 0 {
            self.fail()
        } else {
            self.before = marker;
            ReadAction::CopyPayload
        }
    }

    /// The marker was loaded again at the end of an attempt.
    pub fn ended(&mut self, marker: u32) -> (action: ReadAction)
        requires
            old(self).trying(),
        ensures
            marker == old(self).before ==> action is Accept && *final(self) == *old(self),
            marker != old(self).before ==> final(self).failed == old(self).failed + 1 && action
                == final(self).after_failure(),
    {
        if marker == self.before {
            ReadAction::Accept
        } else {
            self.fail()
        }
    }

    fn fail(&mut self) -> (action: ReadAction)
        requires
            old(self).trying(),
        ensures
            final(self).failed == old(self).failed + 1,
            final(self).before == old(self).before,
            action
                == final(self).after_failure(),
    {
        self.failed = self.failed + 1;
        if self.failed < READ_ATTEMPTS {
            ReadAction::LoadMarker
        } else {
            ReadAction::GiveUp
        }
    }
}

/// The record and its marker as every thread sees them at one moment.
#[verifier::ext_equal]
pub ghost struct Shared {
    pub marker: u32,
    pub payload: Seq<u8>,
}

impl Shared {
    /// The writer marks the record as being written.
    pub open spec fn begins(self, next: Shared) -> bool {
        &&& self.marker % 2 == 0
        &&& next.marker == crate::publisher_records::writing_marker(self.marker)
        &&& next.payload == self.payload
    }

    /// The writer changes the record; the marker is odd and stays.
    pub open spec fn fills(self, next: Shared) -> bool {
        &&& self.marker % 2 == 1
        &&& next.marker == self.marker
        &&& next.payload.len() == self.payload.len()
    }

    /// The writer marks the record as complete.
    pub open spec fn commits(self, next: Shared) -> bool {
        &&& self.marker % 2 == 1
        &&& next.marker == self.marker.wrapping_add(1)
        &&& next.payload == self.payload
    }

    /// One step of a writer that keeps to the protocol, or none.
    pub open spec fn goes_to(self, next: Shared) -> bool {
        self == next || self.begins(next) || self.fills(next) || self.commits(next)
    }
}

/// A history in which only writers that keep to the protocol took steps.
pub open spec fn protocol_kept(history: Seq<Shared>) -> bool {
    forall|i: int|
        0 <= i < history.len() - 1 ==> (#[trigger] history[i]).goes_to(history[i + 1])
}

/// How often the marker moved between two moments.
pub open spec fn marker_moves(history: Seq<Shared>, from: int, to: int) -> nat
    decreases to - from,
{
    if to <= from {
        0
    } else {
        marker_moves(history, from, to - 1) + if history[to - 1].marker == history[to].marker {
            0nat
        } else {
            1nat
        }
    }
}

/// `copy` was read byte by byte, the byte at `i` at the moment `when[i]` between `from` and `to`.
pub open spec fn copied_between(
    history: Seq<Shared>,
    from: int,
    to: int,
    when: Seq<int>,
    copy: Seq<u8>,
) -> bool {
    &&& copy.len() == history[from].payload.len()
    &&& when.len() == copy.len()
    &&& forall|i: int|
        0 <= i < copy.len() ==> from <= #[trigger] when[i] <= to && copy[i]
            == history[when[i]].payload[i]
}

/// The marker goes up by one each time it moves, so it tells how often it has moved.
proof fn lemma_marker_counts(history: Seq<Shared>, from: int, to: int)
    requires
        protocol_kept(history),
        0 <= from <= to < history.len(),
    ensures
        (history[from].marker + marker_moves(history, from, to)) % 0x1_0000_0000
            == history[to].marker,
    decreases to - from,
{
    if from < to {
        lemma_marker_counts(history, from, to - 1);
        let a = history[to - 1];
        let b = history[to];
        assert(a.goes_to(b));
        crate::publisher_records::law_markers_alternate(a.marker);
        let moved = (history[from].marker + marker_moves(history, from, to - 1)) as int;
        assert(moved % 0x1_0000_0000 == a.marker);
        if a.marker != b.marker {
            assert(b.marker == (a.marker + 1) % 0x1_0000_0000);
            assert((moved + 1) % 0x1_0000_0000 == (moved % 0x1_0000_0000 + 1) % 0x1_0000_0000);
        }
    }
}

/// Where the marker does not move while it is even, nothing moves.
proof fn lemma_still(history: Seq<Shared>, from: int, to: int, at: int)
    requires
        protocol_kept(history),
        0 <= from <= at <= to < history.len(),
        history[from].marker % 2 == 0,
        marker_moves(history, from, to) == 0,
    ensures
        history[at] == history[from],
    decreases to - from,
{
    if from < to {
        if at < to {
            lemma_still(history, from, to - 1, at);
        } else {
            lemma_still(history, from, to - 1, to - 1);
            let a = history[to - 1];
            assert(a.goes_to(history[to]));
            crate::publisher_records::law_markers_alternate(a.marker);
        }
    }
}

/// A kept copy is never torn: where an attempt holds, the copy is the record as it stood, complete,
/// at the start of the attempt, and nothing changed until its end. Copying may read the bytes in
/// any order and at any moments in between. The marker has 32 bits, so this asks that it did not go
/// all the way round during the attempt.
pub proof fn law_kept_copy_is_one_whole_record(
    history: Seq<Shared>,
    from: int,
    to: int,
    when: Seq<int>,
    copy: Seq<u8>,
)
    requires
        protocol_kept(history),
        0 <= from <= to < history.len(),
        attempt_holds(history[from].marker, history[to].marker),
        copied_between(history, from, to, when, copy),
        marker_moves(history, from, to) < 0x1_0000_0000,
    ensures
        copy == history[from].payload,
        forall|t: int| from <= t <= to ==> #[trigger] history[t] == history[from],
{
    lemma_marker_counts(history, from, to);
    let start = history[from].marker as int;
    let moves = marker_moves(history, from, to) as int;
    assert((start + moves) % 0x1_0000_0000 == start);
    assert(moves == 0) by {
        if start + moves < 0x1_0000_0000 {
        } else {
            assert((start + moves) % 0x1_0000_0000 == start + moves - 0x1_0000_0000);
        }
    }
    assert forall|t: int| from <= t <= to implies #[trigger] history[t] == history[from] by {
        lemma_still(history, from, to, t);
    }
    assert forall|i: int| 0 <= i < copy.len() implies #[trigger] copy[i]
        == history[from].payload[i] by {
        assert(history[when[i]] == history[from]);
    }
    assert(copy =~= history[from].payload);
}

/// The ground truth and its marker in the metadata region.
pub open spec fn truth_of(m: Seq<u8>) -> Shared {
    Shared {
        marker: crate::layout::ShmMetaRegion::of_bytes(m).ground_truth.seqlock,
        payload: m.subrange(1984, 3584),
    }
}

/// The publisher keeps to the protocol: from an even marker, each of the five steps that replace
/// the ground truth is a step that a reader is prepared for, also where only a part of the payload
/// has been copied, and the marker is even again behind the last.
pub proof fn law_publisher_keeps_the_protocol(
    m: Seq<u8>,
    ops: Seq<crate::memory::ShmOp>,
    batch: crate::layout::GroundTruthBatch,
    at: int,
)
    requires
        crate::memory::sized(m),
        crate::layout::ShmMetaRegion::of_bytes(m).ground_truth.seqlock % 2 == 0,
        crate::publisher_records::truth_steps(
            ops,
            batch,
            crate::layout::ShmMetaRegion::of_bytes(m).ground_truth.seqlock,
        ),
        0 <= at < 5,
    ensures
        truth_of(crate::memory::run(m, ops.subrange(0, at))).goes_to(
            truth_of(crate::memory::run(m, ops.subrange(0, at + 1))),
        ),
        at == 2 ==> forall|part: Seq<u8>|
            part.len() == 1600 ==> #[trigger] truth_of(
                crate::memory::run(m, ops.subrange(0, at)),
            ).fills(
                (Shared {
                    marker: truth_of(crate::memory::run(m, ops.subrange(0, at))).marker,
                    payload: part,
                }),
            ),
        truth_of(crate::memory::run(m, ops)).marker % 2 == 0,
        at == 4 ==> crate::layout::GroundTruthBatch::of_payload(
            truth_of(crate::memory::run(m, ops)).payload,
        ) == (crate::layout::GroundTruthBatch { seqlock: 0, ..batch }),
{
    let seq = crate::layout::ShmMetaRegion::of_bytes(m).ground_truth.seqlock;
    crate::publisher_records::law_markers_alternate(seq);
    let m1 = crate::memory::step(m, ops[0]);
    let bytes = ops[2]->bytes@;
    let m3 = crate::memory::step(m1, ops[2]);
    let m5 = crate::memory::step(m3, ops[4]);
    crate::memory::lemma_run_prefix(m, ops, 0);
    crate::memory::lemma_run_prefix(m, ops, 1);
    crate::memory::lemma_run_prefix(m, ops, 2);
    crate::memory::lemma_run_prefix(m, ops, 3);
    crate::memory::lemma_run_prefix(m, ops, 4);
    crate::region::lemma_truth_marker(m, crate::publisher_records::writing_marker(seq));
    crate::memory::lemma_marker(m, 3584, crate::publisher_records::writing_marker(seq));
    crate::memory::lemma_windows_outside(m, m1, 3584, 3588);
    crate::region::lemma_truth_payload(m1, bytes);
    crate::memory::lemma_splice(m1, 1984, bytes);
    crate::region::lemma_truth_marker(m3, crate::publisher_records::written_marker(seq));
    crate::memory::lemma_marker(m3, 3584, crate::publisher_records::written_marker(seq));
    crate::memory::lemma_windows_outside(m3, m5, 3584, 3588);
}

/// A copy may start under any even marker but zero, and can be kept exactly where the marker is the
/// same at its end.
pub proof fn law_copies_start_under_even_markers(before: u32, after: u32)
    ensures
        stable(before) <==> before >= 2 && before == 2 * (before as int / 2),
        attempt_holds(before, after) <==> before >= 2 && before == 2 * (before as int / 2) && after
            == before,
{
}

/// A reader tries eight times, and gives up behind the eighth failure.
pub proof fn law_readers_try_eight_times(reader: SnapshotReader)
    ensures
        reader.trying() <==> reader.failed < 8,
        reader.after_failure() is LoadMarker <==> reader.failed < 8,
        reader.after_failure() is GiveUp <==> reader.failed >= 8,
{
}

/// A reader starts a copy under an even marker that is not zero, and keeps it exactly where the
/// marker is the same at its end; every other attempt is a failure, and behind the eighth it gives
/// up.
pub proof fn law_calls_of_the_reader(
    started: &mut SnapshotReader,
    marker: u32,
    first: ReadAction,
    ended: &mut SnapshotReader,
    second: ReadAction,
    fresh: SnapshotReader,
)
    requires
        call_ensures(SnapshotReader::started, (started, marker), first),
        call_ensures(SnapshotReader::ended, (ended, marker), second),
        call_ensures(SnapshotReader::begin, (), fresh),
        old(started).failed < 8,
        old(ended).failed < 8,
    ensures
        fresh.failed == 0,
        first is CopyPayload <==> marker > 0 && marker % 2 == 0,
        first is CopyPayload ==> final(started).before == marker && final(started).failed == old(
            started,
        ).failed,
        !(first is CopyPayload) ==> final(started).failed == old(started).failed + 1,
        first is GiveUp <==> !(first is CopyPayload) && old(started).failed == 7,
        second is Accept <==> marker == old(ended).before,
        !(second is Accept) ==> final(ended).failed == old(ended).failed + 1,
        second is GiveUp <==> !(second is Accept) && old(ended).failed == 7,
{
}

} // verus!
