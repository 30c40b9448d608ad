//! The records that the simulator sends besides its frames.
use crate::float::F32;
use crate::layout::{
    zeros4, CameraInfo, ChassisObservation, GroundTruthBatch, PoseIndex, PoseMeta, RuntimeState,
    CAMERA_INFO_AT, CHASSIS_OBSERVATION_AT, GROUND_TRUTH_AT, GROUND_TRUTH_PAYLOAD_BYTES, HEADER_AT,
    HEARTBEAT_AT, POSES_AT, POSE_META_SIZE, POSE_TRIPLE_BUFFER_SIZE, RUNTIME_STATE_AT, SLOTS_AT,
    STATE_AT, WRITE_IDX_AT,
};
use crate::memory::ShmOp;
use crate::publisher::ShmPublisher;
use crate::triple_buffer::offered;
use crate::wire::push_u64;
use vstd::prelude::*;

verus! {

/// What the region says.
pub open spec fn region(m: Seq<u8>) -> crate::layout::ShmMetaRegion {
    crate::layout::ShmMetaRegion::of_bytes(m)
}

/// The record is copied into slot `write_idx` of the channel first and offered after that.
pub open spec fn pose_steps(
    ops: Seq<ShmOp>,
    index: PoseIndex,
    pose: PoseMeta,
    write_idx: u8,
) -> bool {
    let at = crate::region::pose_at(index.place());
    &&& ops.len() == 2
    &&& ops[0] matches ShmOp::Copy { at: to, bytes } && to == at + SLOTS_AT + write_idx
        * POSE_META_SIZE && bytes@.len() == POSE_META_SIZE && PoseMeta::of_bytes(bytes@) == pose
    &&& ops[1] == (ShmOp::Exchange {
        state_at: at as usize,
        index_at: (at + 1) as usize,
        value: write_idx | crate::layout::FLAG_NEW,
    })
}

/// From `m` to `after`, the channel offers `pose`, and nothing else has changed.
pub open spec fn pose_published(
    m: Seq<u8>,
    after: Seq<u8>,
    index: PoseIndex,
    pose: PoseMeta,
) -> bool {
    region(after) == region(m).with_pose(
        index.place(),
        region(m).poses[index.place()].published(pose),
    )
}

/// The marker while a batch is being written over one that was marked `marker`.
pub open spec fn writing_marker(marker: u32) -> u32 {
    marker.wrapping_add(1) | 1
}

/// The marker when that batch is complete.
pub open spec fn written_marker(marker: u32) -> u32 {
    writing_marker(marker).wrapping_add(1)
}

/// The payload goes in between two markers, with a fence on each side, and the markers are stored
/// apart from the payload.
pub open spec fn truth_steps(ops: Seq<ShmOp>, batch: GroundTruthBatch, marker: u32) -> bool {
    &&& ops.len() == 5
    &&& ops[0] == (ShmOp::StoreMarker { at: 3584, marker: writing_marker(marker) })
    &&& ops[1] == ShmOp::Fence
    &&& ops[2] matches ShmOp::Copy { at, bytes } && at == GROUND_TRUTH_AT && bytes@.len()
        == GROUND_TRUTH_PAYLOAD_BYTES && GroundTruthBatch::of_payload(bytes@)
        == (GroundTruthBatch { seqlock: 0, ..batch })
    &&& ops[3] == ShmOp::Fence
    &&& ops[4] == (ShmOp::StoreMarker { at: 3584, marker: written_marker(marker) })
}

/// From `m` to `after`, the ground truth is `batch` under the next even marker, and nothing else
/// has changed.
pub open spec fn truth_published(m: Seq<u8>, after: Seq<u8>, batch: GroundTruthBatch) -> bool {
    region(after) == (crate::layout::ShmMetaRegion {
        ground_truth: GroundTruthBatch {
            seqlock: written_marker(region(m).ground_truth.seqlock),
            ..batch
        },
        ..region(m)
    })
}

/// A record that begins at `at` is replaced in one step.
pub open spec fn one_copy(ops: Seq<ShmOp>, at: usize, len: nat) -> bool {
    ops.len() == 1 && (ops[0] matches ShmOp::Copy { at: to, bytes } && to == at && bytes@.len()
        == len)
}

proof fn lemma_pose_steps(
    m: Seq<u8>,
    ops: Seq<ShmOp>,
    index: PoseIndex,
    pose: PoseMeta,
    write_idx: u8,
)
    requires
        crate::memory::sized(m),
        write_idx < 3,
        pose_steps(ops, index, pose, write_idx),
        region(m).poses[index.place()].write_idx == write_idx,
    ensures
        pose_published(m, crate::memory::run(m, ops), index, pose),
{
    let k = index.place();
    assert(ops =~= seq![ops[0], ops[1]]);
    crate::memory::lemma_run_two(m, ops[0], ops[1]);
    let bytes = ops[0]->bytes;
    crate::region::lemma_pose_slot(m, k, write_idx as int, bytes@);
    let placed = crate::memory::step(m, ops[0]);
    crate::region::lemma_pose_exchange(placed, k, 1, write_idx | crate::layout::FLAG_NEW);
    let expected = region(m).with_pose(k, region(m).poses[k].published(pose));
    assert(region(crate::memory::run(m, ops)).poses =~= expected.poses);
}

proof fn lemma_truth_steps(m: Seq<u8>, ops: Seq<ShmOp>, batch: GroundTruthBatch)
    requires
        crate::memory::sized(m),
        truth_steps(ops, batch, region(m).ground_truth.seqlock),
    ensures
        truth_published(m, crate::memory::run(m, ops), batch),
{
    crate::memory::lemma_run_prefix(m, ops, 0);
    crate::memory::lemma_run_prefix(m, ops, 1);
    crate::memory::lemma_run_prefix(m, ops, 2);
    crate::memory::lemma_run_prefix(m, ops, 3);
    crate::memory::lemma_run_prefix(m, ops, 4);
    let seq = region(m).ground_truth.seqlock;
    crate::region::lemma_truth_marker(m, writing_marker(seq));
    let marked = crate::memory::step(m, ops[0]);
    let bytes = ops[2]->bytes;
    crate::region::lemma_truth_payload(marked, bytes@);
    let filled = crate::memory::step(marked, ops[2]);
    crate::region::lemma_truth_marker(filled, written_marker(seq));
}

impl ShmPublisher {
    /// Sends a pose through its channel, with nothing in the four spare numbers.
    pub fn publish_pose(
        &self,
        index: PoseIndex,
        position: [F32; 3],
        quaternion: [F32; 4],
        frame_seq: u64,
        timestamp_ns: u64,
        write_idx: u8,
    ) -> (ops: Vec<ShmOp>)
        requires
            write_idx < 3,
        ensures
            ({
                let pose = PoseMeta {
                    frame_seq,
                    position,
                    quaternion,
                    timestamp_ns,
                    aux: crate::layout::zero4(),
                };
                &&& pose_steps(ops@, index, pose, write_idx)
                &&& crate::publisher::all_spare_the_image(ops@)
                &&& forall|m: Seq<u8>|
                    crate::memory::sized(m) && region(m).poses[index.place()].write_idx
                        == write_idx ==> #[trigger] pose_published(
                        m,
                        crate::memory::run(m, ops@),
                        index,
                        pose,
                    )
            }),
    {
        self.publish_pose_with_aux(
            index,
            position,
            quaternion,
            zeros4(),
            frame_seq,
            timestamp_ns,
            write_idx,
        )
    }

    /// Sends a pose through its channel, with four numbers more.
    ///
    /// `write_idx` is the slot that the channel's producer owns.
    pub fn publish_pose_with_aux(
        &self,
        index: PoseIndex,
        position: [F32; 3],
        quaternion: [F32; 4],
        aux_f32: [F32; 4],
        frame_seq: u64,
        timestamp_ns: u64,
        write_idx: u8,
    ) -> (ops: Vec<ShmOp>)
        requires
            write_idx < 3,
        ensures
            ({
                let pose = PoseMeta {
                    frame_seq,
                    position,
                    quaternion,
                    timestamp_ns,
                    aux: aux_f32,
                };
                &&& pose_steps(ops@, index, pose, write_idx)
                &&& crate::publisher::all_spare_the_image(ops@)
                &&& forall|m: Seq<u8>|
                    crate::memory::sized(m) && region(m).poses[index.place()].write_idx
                        == write_idx ==> #[trigger] pose_published(
                        m,
                        crate::memory::run(m, ops@),
                        index,
                        pose,
                    )
            }),
    {
        let pose = PoseMeta { frame_seq, position, quaternion, timestamp_ns, aux: aux_f32 };
        let at: usize = POSES_AT + index.index() * POSE_TRIPLE_BUFFER_SIZE;
        let bytes = pose.encode();
        let mut ops: Vec<ShmOp> = Vec::new();
        ops.push(ShmOp::Copy { at: at + SLOTS_AT + write_idx as usize * POSE_META_SIZE, bytes });
        ops.push(ShmOp::Exchange {
            state_at: at + STATE_AT,
            index_at: at + WRITE_IDX_AT,
            value: offered(write_idx),
        });
        proof {
            assert forall|m: Seq<u8>|
                crate::memory::sized(m) && region(m).poses[index.place()].write_idx
                    == write_idx implies #[trigger] pose_published(
                m,
                crate::memory::run(m, ops@),
                index,
                pose,
            ) by {
                lemma_pose_steps(m, ops@, index, pose, write_idx);
            }
        }
        ops
    }

    /// Replaces the camera's intrinsics.
    pub fn set_camera_info(&self, info: &CameraInfo) -> (ops: Vec<ShmOp>)
        ensures
            one_copy(ops@, CAMERA_INFO_AT, 128),
            forall|m: Seq<u8>|
                crate::memory::sized(m) ==> region(#[trigger] crate::memory::run(m, ops@))
                    == (crate::layout::ShmMetaRegion { camera_info: *info, ..region(m) }),
    {
        let bytes = info.encode();
        let ghost copied = bytes@;
        let mut ops: Vec<ShmOp> = Vec::new();
        ops.push(ShmOp::Copy { at: CAMERA_INFO_AT, bytes });
        proof {
            assert forall|m: Seq<u8>| crate::memory::sized(m) implies region(
                #[trigger] crate::memory::run(m, ops@),
            ) == (crate::layout::ShmMetaRegion { camera_info: *info, ..region(m) }) by {
                assert(ops@ =~= seq![ops@[0]]);
                crate::memory::lemma_run_one(m, ops@[0]);
                crate::memory::lemma_splice(m, 1728, copied);
                crate::region::lemma_camera_change(m, crate::memory::run(m, ops@));
            }
        }
        ops
    }

    /// Replaces the chassis observation, its marker with it.
    pub fn publish_chassis_observation(&self, observation: &ChassisObservation) -> (ops: Vec<
        ShmOp,
    >)
        ensures
            one_copy(ops@, CHASSIS_OBSERVATION_AT, 128),
            crate::publisher::all_spare_the_image(ops@),
            forall|m: Seq<u8>|
                crate::memory::sized(m) ==> region(#[trigger] crate::memory::run(m, ops@))
                    == (crate::layout::ShmMetaRegion {
                    chassis_observation: *observation,
                    ..region(m)
                }),
    {
        let bytes = observation.encode();
        let ghost copied = bytes@;
        let mut ops: Vec<ShmOp> = Vec::new();
        ops.push(ShmOp::Copy { at: CHASSIS_OBSERVATION_AT, bytes });
        proof {
            assert forall|m: Seq<u8>| crate::memory::sized(m) implies region(
                #[trigger] crate::memory::run(m, ops@),
            ) == (crate::layout::ShmMetaRegion {
                chassis_observation: *observation,
                ..region(m)
            }) by {
                assert(ops@ =~= seq![ops@[0]]);
                crate::memory::lemma_run_one(m, ops@[0]);
                crate::memory::lemma_splice(m, 1856, copied);
                crate::region::lemma_chassis_change(m, crate::memory::run(m, ops@));
            }
        }
        ops
    }

    /// Replaces the ground truth under a marker that is odd while the batch is incomplete.
    ///
    /// `marker` is what the marker reads before. It is only ever stored whole, and the payload
    /// never reaches into it.
    pub fn publish_ground_truth(&self, batch: &GroundTruthBatch, marker: u32) -> (ops: Vec<ShmOp>)
        ensures
            truth_steps(ops@, *batch, marker),
            crate::publisher::all_spare_the_image(ops@),
            forall|m: Seq<u8>|
                crate::memory::sized(m) && region(m).ground_truth.seqlock == marker
                    ==> #[trigger] truth_published(m, crate::memory::run(m, ops@), *batch),
    {
        let begin: u32 = marker.wrapping_add(1) | 1;
        let mut ops: Vec<ShmOp> = Vec::new();
        ops.push(ShmOp::StoreMarker {
            at: GROUND_TRUTH_AT + GROUND_TRUTH_PAYLOAD_BYTES,
            marker: begin,
        });
        ops.push(ShmOp::Fence);
        let bytes = batch.encode_payload();
        ops.push(ShmOp::Copy { at: GROUND_TRUTH_AT, bytes });
        ops.push(ShmOp::Fence);
        ops.push(ShmOp::StoreMarker {
            at: GROUND_TRUTH_AT + GROUND_TRUTH_PAYLOAD_BYTES,
            marker: begin.wrapping_add(1),
        });
        proof {
            assert forall|m: Seq<u8>|
                crate::memory::sized(m) && region(m).ground_truth.seqlock
                    == marker implies #[trigger] truth_published(
                m,
                crate::memory::run(m, ops@),
                *batch,
            ) by {
                lemma_truth_steps(m, ops@, *batch);
            }
        }
        ops
    }

    /// Replaces the runtime state.
    pub fn publish_runtime_state(&self, state: &RuntimeState) -> (ops: Vec<ShmOp>)
        ensures
            one_copy(ops@, RUNTIME_STATE_AT, 64),
            forall|m: Seq<u8>|
                crate::memory::sized(m) ==> region(#[trigger] crate::memory::run(m, ops@))
                    == (crate::layout::ShmMetaRegion { runtime_state: *state, ..region(m) }),
    {
        let bytes = state.encode();
        let ghost copied = bytes@;
        let mut ops: Vec<ShmOp> = Vec::new();
        ops.push(ShmOp::Copy { at: RUNTIME_STATE_AT, bytes });
        proof {
            assert forall|m: Seq<u8>| crate::memory::sized(m) implies region(
                #[trigger] crate::memory::run(m, ops@),
            ) == (crate::layout::ShmMetaRegion { runtime_state: *state, ..region(m) }) by {
                assert(ops@ =~= seq![ops@[0]]);
                crate::memory::lemma_run_one(m, ops@[0]);
                crate::memory::lemma_splice(m, 3648, copied);
                crate::region::lemma_runtime_change(m, crate::memory::run(m, ops@));
            }
        }
        ops
    }

    /// Writes the time of this sign of life into the header.
    pub fn update_heartbeat(&self, now_ns: u64) -> (ops: Vec<ShmOp>)
        ensures
            one_copy(ops@, HEARTBEAT_AT, 8),
            forall|m: Seq<u8>|
                crate::memory::sized(m) ==> region(#[trigger] crate::memory::run(m, ops@))
                    == (crate::layout::ShmMetaRegion {
                    header: crate::layout::ShmHeader {
                        heartbeat_ns: now_ns,
                        ..region(m).header
                    },
                    ..region(m)
                }),
    {
        let mut bytes: Vec<u8> = Vec::new();
        push_u64(&mut bytes, now_ns);
        let ghost copied = bytes@;
        let mut ops: Vec<ShmOp> = Vec::new();
        ops.push(ShmOp::Copy { at: HEADER_AT + HEARTBEAT_AT, bytes });
        proof {
            assert forall|m: Seq<u8>| crate::memory::sized(m) implies region(
                #[trigger] crate::memory::run(m, ops@),
            ) == (crate::layout::ShmMetaRegion {
                header: crate::layout::ShmHeader { heartbeat_ns: now_ns, ..region(m).header },
                ..region(m)
            }) by {
                assert(ops@ =~= seq![ops@[0]]);
                crate::memory::lemma_run_one(m, ops@[0]);
                lemma_heartbeat(m, copied, now_ns);
            }
        }
        ops
    }

    /// A time since the epoch as the records hold it: its nanoseconds, of which the lowest 64 bits
    /// are kept; zero where the clock stands before the epoch.
    pub fn now_ns(since_epoch_ns: Option<u128>) -> (r: u64)
        ensures
            since_epoch_ns matches Some(ns) ==> r == ns % 0x1_0000_0000_0000_0000,
            since_epoch_ns is None ==> r == 0,
    {
        match since_epoch_ns {
            Some(ns) => (ns % 0x1_0000_0000_0000_0000) as u64,
            None => 0,
        }
    }
}

proof fn lemma_heartbeat(m: Seq<u8>, bytes: Seq<u8>, now_ns: u64)
    requires
        crate::memory::sized(m),
        bytes.len() == 8,
        crate::wire::u64_at(bytes, 0) == now_ns,
    ensures
        region(crate::memory::splice(m, 16, bytes)) == (crate::layout::ShmMetaRegion {
            header: crate::layout::ShmHeader { heartbeat_ns: now_ns, ..region(m).header },
            ..region(m)
        }),
{
    let after = crate::memory::splice(m, 16, bytes);
    crate::memory::lemma_splice(m, 16, bytes);
    crate::region::lemma_header_change(m, after);
    crate::region::lemma_parts(m);
    let (x, y) = (m.subrange(0, 64), after.subrange(0, 64));
    crate::memory::lemma_splice_window(m, 0, 64, 16, bytes);
    crate::memory::lemma_splice(x, 16, bytes);
    crate::memory::lemma_windows_outside(x, y, 16, 24);
    crate::wire::lemma_window(y, 16, 24);
    crate::wire::lemma_window(x, 0, 16);
    crate::wire::lemma_window(y, 0, 16);
    crate::wire::lemma_window(x, 24, 64);
    crate::wire::lemma_window(y, 24, 64);
    assert(crate::wire::u64_at(y, 16) == crate::wire::u64_at(y.subrange(16, 24), 0));
    assert(x.subrange(0, 16) == y.subrange(0, 16));
    assert(x.subrange(24, 64) == y.subrange(24, 64));
    assert(crate::wire::u32_at(y, 0) == crate::wire::u32_at(y.subrange(0, 16), 0));
    assert(crate::wire::u32_at(x, 0) == crate::wire::u32_at(x.subrange(0, 16), 0));
    assert(crate::wire::u32_at(y, 4) == crate::wire::u32_at(y.subrange(0, 16), 4));
    assert(crate::wire::u32_at(x, 4) == crate::wire::u32_at(x.subrange(0, 16), 4));
    assert(crate::wire::u64_at(y, 8) == crate::wire::u64_at(y.subrange(0, 16), 8));
    assert(crate::wire::u64_at(x, 8) == crate::wire::u64_at(x.subrange(0, 16), 8));
    assert(crate::wire::u32_at(y, 24) == crate::wire::u32_at(y.subrange(24, 64), 0));
    assert(crate::wire::u32_at(x, 24) == crate::wire::u32_at(x.subrange(24, 64), 0));
    assert(crate::wire::u32_at(y, 28) == crate::wire::u32_at(y.subrange(24, 64), 4));
    assert(crate::wire::u32_at(x, 28) == crate::wire::u32_at(x.subrange(24, 64), 4));
    assert(crate::wire::u32_at(y, 32) == crate::wire::u32_at(y.subrange(24, 64), 8));
    assert(crate::wire::u32_at(x, 32) == crate::wire::u32_at(x.subrange(24, 64), 8));
}

/// The marker of a batch that is being written is odd, that of a complete batch is even, and a
/// complete batch is never marked as it was before.
pub proof fn law_markers_alternate(marker: u32)
    ensures
        writing_marker(marker) % 2 == 1,
        written_marker(marker) % 2 == 0,
        written_marker(marker) != marker,
        marker % 2 == 0 ==> writing_marker(marker) == marker + 1,
{
    let next = marker.wrapping_add(1);
    assert(next % 2 == 0 ==> next | 1 == next + 1) by (bit_vector);
    assert(next % 2 == 1 ==> next | 1 == next) by (bit_vector);
}

/// A batch that is written over a complete one is marked one higher while it is written and two
/// higher when it is complete; over one that was left incomplete, two and three higher.
pub proof fn law_markers_count_up(marker: u32)
    ensures
        marker % 2 == 0 ==> writing_marker(marker) == marker + 1 && written_marker(marker) == (marker
            + 2) % 0x1_0000_0000,
        marker % 2 == 1 ==> writing_marker(marker) == (marker + 2) % 0x1_0000_0000 && written_marker(
            marker,
        ) == (marker + 3) % 0x1_0000_0000,
{
    law_markers_alternate(marker);
    let next = marker.wrapping_add(1);
    assert(next % 2 == 0 ==> next | 1 == next + 1) by (bit_vector);
}

/// A published pose lies in the slot that the channel's producer owned and is offered as new; the
/// consumer keeps its slot and what is in it, and everything outside the channel is as it was.
pub proof fn law_a_pose_takes_the_producers_slot(
    m: Seq<u8>,
    after: Seq<u8>,
    index: PoseIndex,
    pose: PoseMeta,
    k: int,
)
    requires
        pose_published(m, after, index, pose),
        region(m).poses[index.place()].hands().wf(),
        0 <= k < 5,
    ensures
        ({
            let was = region(m).poses[index.place()];
            let now = region(after).poses[index.place()];
            &&& now.slots[was.write_idx as int] == pose
            &&& now.state == was.write_idx + 0x80
            &&& now.write_idx == was.state % 4
            &&& now.read_idx == was.read_idx
            &&& now.slots[was.read_idx as int] == was.slots[was.read_idx as int]
            &&& k != index.place() ==> region(after).poses[k] == region(m).poses[k]
            &&& region(after).header == region(m).header
            &&& region(after).image == region(m).image
            &&& region(after).gimbal_cmd == region(m).gimbal_cmd
            &&& region(after).camera_info == region(m).camera_info
            &&& region(after).chassis_observation == region(m).chassis_observation
            &&& region(after).ground_truth == region(m).ground_truth
            &&& region(after).runtime_state == region(m).runtime_state
        }),
{
    let was = region(m).poses[index.place()];
    crate::triple_buffer::lemma_state_bits(was.state);
    crate::triple_buffer::lemma_state_bits(was.write_idx);
}

/// Published ground truth reads back, entry by entry, under an even marker, and everything else is
/// as it was.
pub proof fn law_published_truth_reads_back(
    m: Seq<u8>,
    after: Seq<u8>,
    batch: GroundTruthBatch,
    i: int,
)
    requires
        truth_published(m, after, batch),
        0 <= i,
    ensures
        ({
            let now = region(after).ground_truth;
            &&& now.frame_seq == batch.frame_seq
            &&& now.timestamp_ns == batch.timestamp_ns
            &&& now.target_count == batch.target_count
            &&& now.rune_count == batch.rune_count
            &&& i < 16 ==> now.targets[i] == batch.targets[i]
            &&& i < 4 ==> now.runes[i] == batch.runes[i]
            &&& now.seqlock % 2 == 0
            &&& now.seqlock != region(m).ground_truth.seqlock
        }),
        region(after).header == region(m).header,
        region(after).image == region(m).image,
        region(after).poses == region(m).poses,
        region(after).gimbal_cmd == region(m).gimbal_cmd,
        region(after).camera_info == region(m).camera_info,
        region(after).chassis_observation == region(m).chassis_observation,
        region(after).runtime_state == region(m).runtime_state,
{
    law_markers_alternate(region(m).ground_truth.seqlock);
}

/// Behind the steps that send a pose its channel holds it, number by number, in the slot that the
/// producer owned, offered as new; every other channel and record is as it was.
pub proof fn law_calls_of_publish_pose_with_aux(
    publisher: ShmPublisher,
    index: PoseIndex,
    position: [F32; 3],
    quaternion: [F32; 4],
    aux: [F32; 4],
    frame_seq: u64,
    timestamp_ns: u64,
    write_idx: u8,
    ops: Vec<ShmOp>,
    plain: Vec<ShmOp>,
    m: Seq<u8>,
    k: int,
)
    requires
        call_ensures(
            ShmPublisher::publish_pose_with_aux,
            (&publisher, index, position, quaternion, aux, frame_seq, timestamp_ns, write_idx),
            ops,
        ),
        call_ensures(
            ShmPublisher::publish_pose,
            (&publisher, index, position, quaternion, frame_seq, timestamp_ns, write_idx),
            plain,
        ),
        crate::memory::sized(m),
        region(m).poses[index.place()].write_idx == write_idx,
        region(m).poses[index.place()].hands().wf(),
        0 <= k < 5,
    ensures
        ({
            let now = region(crate::memory::run(m, ops@));
            let record = now.poses[index.place()].slots[write_idx as int];
            &&& record.frame_seq == frame_seq
            &&& record.timestamp_ns == timestamp_ns
            &&& forall|i: int| 0 <= i < 3 ==> #[trigger] record.position[i] == position[i]
            &&& forall|i: int| 0 <= i < 4 ==> #[trigger] record.quaternion[i] == quaternion[i]
            &&& forall|i: int| 0 <= i < 4 ==> #[trigger] record.aux[i] == aux[i]
            &&& now.poses[index.place()].state == write_idx + 0x80
            &&& k != index.place() ==> now.poses[k] == region(m).poses[k]
            &&& now.image == region(m).image
            &&& now.ground_truth == region(m).ground_truth
        }),
        ({
            let now = region(crate::memory::run(m, plain@));
            let record = now.poses[index.place()].slots[write_idx as int];
            &&& record.frame_seq == frame_seq
            &&& forall|i: int| 0 <= i < 3 ==> #[trigger] record.position[i] == position[i]
            &&& forall|i: int| 0 <= i < 4 ==> #[trigger] record.quaternion[i] == quaternion[i]
            &&& forall|i: int| 0 <= i < 4 ==> (#[trigger] record.aux[i]).bits == 0
        }),
{
    let pose = PoseMeta { frame_seq, position, quaternion, timestamp_ns, aux };
    let bare = PoseMeta {
        frame_seq,
        position,
        quaternion,
        timestamp_ns,
        aux: crate::layout::zero4(),
    };
    assert(pose_published(m, crate::memory::run(m, ops@), index, pose));
    law_a_pose_takes_the_producers_slot(m, crate::memory::run(m, ops@), index, pose, k);
    assert(pose_published(m, crate::memory::run(m, plain@), index, bare));
    law_a_pose_takes_the_producers_slot(m, crate::memory::run(m, plain@), index, bare, k);
}

/// Behind the steps that send the ground truth it reads back, entry by entry, under an even marker.
pub proof fn law_calls_of_publish_ground_truth(
    publisher: ShmPublisher,
    batch: GroundTruthBatch,
    marker: u32,
    ops: Vec<ShmOp>,
    m: Seq<u8>,
    i: int,
)
    requires
        call_ensures(ShmPublisher::publish_ground_truth, (&publisher, &batch, marker), ops),
        crate::memory::sized(m),
        region(m).ground_truth.seqlock == marker,
        0 <= i,
    ensures
        ({
            let now = region(crate::memory::run(m, ops@));
            &&& now.ground_truth.frame_seq == batch.frame_seq
            &&& now.ground_truth.timestamp_ns == batch.timestamp_ns
            &&& now.ground_truth.target_count == batch.target_count
            &&& now.ground_truth.rune_count == batch.rune_count
            &&& i < 16 ==> now.ground_truth.targets[i] == batch.targets[i]
            &&& i < 4 ==> now.ground_truth.runes[i] == batch.runes[i]
            &&& now.ground_truth.seqlock % 2 == 0
            &&& now.image == region(m).image
            &&& now.poses == region(m).poses
            &&& now.header == region(m).header
        }),
        ops@.len() == 5,
        ops@[1] is Fence && ops@[3] is Fence,
        ops@[0] is StoreMarker && ops@[0]->marker % 2 == 1,
        ops@[4] is StoreMarker && ops@[4]->marker % 2 == 0,
{
    assert(truth_published(m, crate::memory::run(m, ops@), batch));
    law_published_truth_reads_back(m, crate::memory::run(m, ops@), batch, i);
    law_markers_alternate(marker);
}

/// A record that is replaced is the one that is sent, and nothing else changes.
pub proof fn law_calls_of_the_replacements(
    publisher: ShmPublisher,
    info: CameraInfo,
    observation: ChassisObservation,
    state: RuntimeState,
    now_ns: u64,
    camera_ops: Vec<ShmOp>,
    chassis_ops: Vec<ShmOp>,
    state_ops: Vec<ShmOp>,
    life_ops: Vec<ShmOp>,
    m: Seq<u8>,
)
    requires
        call_ensures(ShmPublisher::set_camera_info, (&publisher, &info), camera_ops),
        call_ensures(
            ShmPublisher::publish_chassis_observation,
            (&publisher, &observation),
            chassis_ops,
        ),
        call_ensures(ShmPublisher::publish_runtime_state, (&publisher, &state), state_ops),
        call_ensures(ShmPublisher::update_heartbeat, (&publisher, now_ns), life_ops),
        crate::memory::sized(m),
    ensures
        region(crate::memory::run(m, camera_ops@)) == (crate::layout::ShmMetaRegion {
            camera_info: info,
            ..region(m)
        }),
        region(crate::memory::run(m, chassis_ops@)) == (crate::layout::ShmMetaRegion {
            chassis_observation: observation,
            ..region(m)
        }),
        region(crate::memory::run(m, state_ops@)) == (crate::layout::ShmMetaRegion {
            runtime_state: state,
            ..region(m)
        }),
        ({
            let now = region(crate::memory::run(m, life_ops@));
            &&& now.header.heartbeat_ns == now_ns
            &&& now.header.created_ns == region(m).header.created_ns
            &&& now.header.magic == region(m).header.magic
            &&& now.header.version == region(m).header.version
            &&& now.header.image_width == region(m).header.image_width
            &&& now.header.image_height == region(m).header.image_height
            &&& now.header.capabilities == region(m).header.capabilities
            &&& now == (crate::layout::ShmMetaRegion { header: now.header, ..region(m) })
        }),
{
}

/// A time since the epoch is kept as it is while it fits, and a clock before the epoch counts as
/// zero.
pub proof fn law_calls_of_now_ns(since_epoch_ns: Option<u128>, r: u64)
    requires
        call_ensures(ShmPublisher::now_ns, (since_epoch_ns,), r),
    ensures
        since_epoch_ns is None ==> r == 0,
        since_epoch_ns is Some && since_epoch_ns->0 <= u64::MAX ==> r == since_epoch_ns->0,
        since_epoch_ns is Some ==> exists|rounds: int|
            since_epoch_ns->0 == #[trigger] (rounds * 0x1_0000_0000_0000_0000) + r,
{
    if since_epoch_ns is Some {
        let ns = since_epoch_ns->0 as int;
        assert(ns == (ns / 0x1_0000_0000_0000_0000) * 0x1_0000_0000_0000_0000 + r);
    }
}

} // verus!
