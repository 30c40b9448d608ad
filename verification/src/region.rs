//! How a change of some bytes shows in the records of the metadata region.
use crate::layout::{
    CameraInfo, ChassisObservation, GimbalCmd, GimbalTripleBuffer, GroundTruthBatch, ImageMeta,
    ImageTripleBuffer, PoseMeta, PoseTripleBuffer, RuntimeState, ShmHeader, ShmMetaRegion,
    INDEX_MASK,
};
use crate::memory::{
    lemma_splice, lemma_splice_window, lemma_windows_outside, same_outside, sized, splice, step,
    ShmOp,
};
use crate::triple_buffer::Hands;
use crate::wire::{lemma_window, u32_at, u64_at};
use vstd::prelude::*;

verus! {

/// Three slots with the one at `i` replaced.
pub open spec fn put<T>(slots: [T; 3], i: int, v: T) -> [T; 3] {
    [
        if i == 0 {
            v
        } else {
            slots[0]
        },
        if i == 1 {
            v
        } else {
            slots[1]
        },
        if i == 2 {
            v
        } else {
            slots[2]
        },
    ]
}

impl ImageTripleBuffer {
    pub open spec fn hands(self) -> Hands {
        Hands { state: self.state, write_idx: self.write_idx, read_idx: self.read_idx }
    }

    /// The buffer with other hands.
    pub open spec fn with_hands(self, h: Hands) -> ImageTripleBuffer {
        ImageTripleBuffer {
            state: h.state,
            write_idx: h.write_idx,
            read_idx: h.read_idx,
            slots: self.slots,
        }
    }

    /// The producer has filled its slot with `v` and offered it.
    pub open spec fn published(self, v: ImageMeta) -> ImageTripleBuffer {
        ImageTripleBuffer { slots: put(self.slots, self.write_idx as int, v), ..self }.with_hands(
            self.hands().published(),
        )
    }

    /// The record that waits to be taken.
    pub open spec fn offer(self) -> ImageMeta {
        self.slots[self.hands().ready() as int]
    }
}

impl PoseTripleBuffer {
    pub open spec fn hands(self) -> Hands {
        Hands { state: self.state, write_idx: self.write_idx, read_idx: self.read_idx }
    }

    /// The buffer with other hands.
    pub open spec fn with_hands(self, h: Hands) -> PoseTripleBuffer {
        PoseTripleBuffer {
            state: h.state,
            write_idx: h.write_idx,
            read_idx: h.read_idx,
            slots: self.slots,
        }
    }

    /// The producer has filled its slot with `v` and offered it.
    pub open spec fn published(self, v: PoseMeta) -> PoseTripleBuffer {
        PoseTripleBuffer { slots: put(self.slots, self.write_idx as int, v), ..self }.with_hands(
            self.hands().published(),
        )
    }

    /// The record that waits to be taken.
    pub open spec fn offer(self) -> PoseMeta {
        self.slots[self.hands().ready() as int]
    }
}

impl GimbalTripleBuffer {
    pub open spec fn hands(self) -> Hands {
        Hands { state: self.state, write_idx: self.write_idx, read_idx: self.read_idx }
    }

    /// The buffer with other hands.
    pub open spec fn with_hands(self, h: Hands) -> GimbalTripleBuffer {
        GimbalTripleBuffer {
            state: h.state,
            write_idx: h.write_idx,
            read_idx: h.read_idx,
            slots: self.slots,
        }
    }

    /// The producer has filled its slot with `v` and offered it.
    pub open spec fn published(self, v: GimbalCmd) -> GimbalTripleBuffer {
        GimbalTripleBuffer { slots: put(self.slots, self.write_idx as int, v), ..self }.with_hands(
            self.hands().published(),
        )
    }

    /// The record that waits to be taken.
    pub open spec fn offer(self) -> GimbalCmd {
        self.slots[self.hands().ready() as int]
    }
}

impl ShmMetaRegion {
    /// The region with the pose channel at `k` replaced.
    pub open spec fn with_pose(self, k: int, p: PoseTripleBuffer) -> ShmMetaRegion {
        ShmMetaRegion {
            poses: [
                if k == 0 {
                    p
                } else {
                    self.poses[0]
                },
                if k == 1 {
                    p
                } else {
                    self.poses[1]
                },
                if k == 2 {
                    p
                } else {
                    self.poses[2]
                },
                if k == 3 {
                    p
                } else {
                    self.poses[3]
                },
                if k == 4 {
                    p
                } else {
                    self.poses[4]
                },
            ],
            ..self
        }
    }
}

/// Where the pose channel at `k` begins.
pub open spec fn pose_at(k: int) -> int {
    256 + 256 * k
}

/// Where the region keeps its parts.
pub proof fn lemma_parts(m: Seq<u8>)
    ensures
        ShmMetaRegion::of_bytes(m).header == ShmHeader::of_bytes(m.subrange(0, 64)),
        ShmMetaRegion::of_bytes(m).image == ImageTripleBuffer::of_bytes(m.subrange(64, 256)),
        forall|k: int|
            0 <= k < 5 ==> #[trigger] ShmMetaRegion::of_bytes(m).poses[k]
                == PoseTripleBuffer::of_bytes(m.subrange(pose_at(k), pose_at(k) + 256)),
        ShmMetaRegion::of_bytes(m).gimbal_cmd == GimbalTripleBuffer::of_bytes(
            m.subrange(1536, 1728),
        ),
        ShmMetaRegion::of_bytes(m).chassis_observation == ChassisObservation::of_bytes(
            m.subrange(1856, 1984),
        ),
        ShmMetaRegion::of_bytes(m).ground_truth == GroundTruthBatch::of_bytes(
            m.subrange(1984, 3648),
        ),
{
    reveal(ShmMetaRegion::of_bytes);
}

/// A change inside the header.
pub proof fn lemma_header_change(a: Seq<u8>, b: Seq<u8>)
    requires
        sized(a),
        same_outside(a, b, 0, 64),
    ensures
        ShmMetaRegion::of_bytes(b) == (ShmMetaRegion {
            header: ShmHeader::of_bytes(b.subrange(0, 64)),
            ..ShmMetaRegion::of_bytes(a)
        }),
{
    reveal(ShmMetaRegion::of_bytes);
    lemma_windows_outside(a, b, 0, 64);
    assert(ShmMetaRegion::of_bytes(b).poses =~= ShmMetaRegion::of_bytes(a).poses);
}

/// A change inside the image channel.
pub proof fn lemma_image_change(a: Seq<u8>, b: Seq<u8>)
    requires
        sized(a),
        same_outside(a, b, 64, 256),
    ensures
        ShmMetaRegion::of_bytes(b) == (ShmMetaRegion {
            image: ImageTripleBuffer::of_bytes(b.subrange(64, 256)),
            ..ShmMetaRegion::of_bytes(a)
        }),
{
    reveal(ShmMetaRegion::of_bytes);
    lemma_windows_outside(a, b, 64, 256);
    assert(ShmMetaRegion::of_bytes(b).poses =~= ShmMetaRegion::of_bytes(a).poses);
}

/// A change inside the pose channel at `k`.
pub proof fn lemma_pose_change(a: Seq<u8>, b: Seq<u8>, k: int)
    requires
        sized(a),
        0 <= k < 5,
        same_outside(a, b, pose_at(k), pose_at(k) + 256),
    ensures
        ShmMetaRegion::of_bytes(b) == ShmMetaRegion::of_bytes(a).with_pose(
            k,
            PoseTripleBuffer::of_bytes(b.subrange(pose_at(k), pose_at(k) + 256)),
        ),
{
    reveal(ShmMetaRegion::of_bytes);
    lemma_windows_outside(a, b, pose_at(k), pose_at(k) + 256);
    let expected = ShmMetaRegion::of_bytes(a).with_pose(
        k,
        PoseTripleBuffer::of_bytes(b.subrange(pose_at(k), pose_at(k) + 256)),
    );
    assert(ShmMetaRegion::of_bytes(b).poses =~= expected.poses);
}

/// A change inside the gimbal command channel.
pub proof fn lemma_gimbal_change(a: Seq<u8>, b: Seq<u8>)
    requires
        sized(a),
        same_outside(a, b, 1536, 1728),
    ensures
        ShmMetaRegion::of_bytes(b) == (ShmMetaRegion {
            gimbal_cmd: GimbalTripleBuffer::of_bytes(b.subrange(1536, 1728)),
            ..ShmMetaRegion::of_bytes(a)
        }),
{
    reveal(ShmMetaRegion::of_bytes);
    lemma_windows_outside(a, b, 1536, 1728);
    assert(ShmMetaRegion::of_bytes(b).poses =~= ShmMetaRegion::of_bytes(a).poses);
}

/// A change inside the camera intrinsics.
pub proof fn lemma_camera_change(a: Seq<u8>, b: Seq<u8>)
    requires
        sized(a),
        same_outside(a, b, 1728, 1856),
    ensures
        ShmMetaRegion::of_bytes(b) == (ShmMetaRegion {
            camera_info: CameraInfo::of_bytes(b.subrange(1728, 1856)),
            ..ShmMetaRegion::of_bytes(a)
        }),
{
    reveal(ShmMetaRegion::of_bytes);
    lemma_windows_outside(a, b, 1728, 1856);
    assert(ShmMetaRegion::of_bytes(b).poses =~= ShmMetaRegion::of_bytes(a).poses);
}

/// A change inside the chassis observation.
pub proof fn lemma_chassis_change(a: Seq<u8>, b: Seq<u8>)
    requires
        sized(a),
        same_outside(a, b, 1856, 1984),
    ensures
        ShmMetaRegion::of_bytes(b) == (ShmMetaRegion {
            chassis_observation: ChassisObservation::of_bytes(b.subrange(1856, 1984)),
            ..ShmMetaRegion::of_bytes(a)
        }),
{
    reveal(ShmMetaRegion::of_bytes);
    lemma_windows_outside(a, b, 1856, 1984);
    assert(ShmMetaRegion::of_bytes(b).poses =~= ShmMetaRegion::of_bytes(a).poses);
}

/// A change inside the ground truth.
pub proof fn lemma_truth_change(a: Seq<u8>, b: Seq<u8>)
    requires
        sized(a),
        same_outside(a, b, 1984, 3648),
    ensures
        ShmMetaRegion::of_bytes(b) == (ShmMetaRegion {
            ground_truth: GroundTruthBatch::of_bytes(b.subrange(1984, 3648)),
            ..ShmMetaRegion::of_bytes(a)
        }),
{
    reveal(ShmMetaRegion::of_bytes);
    lemma_windows_outside(a, b, 1984, 3648);
    assert(ShmMetaRegion::of_bytes(b).poses =~= ShmMetaRegion::of_bytes(a).poses);
}

/// A change inside the runtime state.
pub proof fn lemma_runtime_change(a: Seq<u8>, b: Seq<u8>)
    requires
        sized(a),
        same_outside(a, b, 3648, 3712),
    ensures
        ShmMetaRegion::of_bytes(b) == (ShmMetaRegion {
            runtime_state: RuntimeState::of_bytes(b.subrange(3648, 3712)),
            ..ShmMetaRegion::of_bytes(a)
        }),
{
    reveal(ShmMetaRegion::of_bytes);
    lemma_windows_outside(a, b, 3648, 3712);
    assert(ShmMetaRegion::of_bytes(b).poses =~= ShmMetaRegion::of_bytes(a).poses);
}

/// A record copied into slot `w` of the image channel.
pub proof fn lemma_image_slot(m: Seq<u8>, w: int, bytes: Seq<u8>)
    requires
        sized(m),
        0 <= w < 3,
        bytes.len() == 32,
    ensures
        ShmMetaRegion::of_bytes(splice(m, 128 + 32 * w, bytes)) == (ShmMetaRegion {
            image: ImageTripleBuffer {
                slots: put(
                    ShmMetaRegion::of_bytes(m).image.slots,
                    w,
                    ImageMeta::of_bytes(bytes),
                ),
                ..ShmMetaRegion::of_bytes(m).image
            },
            ..ShmMetaRegion::of_bytes(m)
        }),
{
    reveal(ShmMetaRegion::of_bytes);
    let at = 128 + 32 * w;
    let b = splice(m, at, bytes);
    lemma_splice(m, at, bytes);
    lemma_image_change(m, b);
    let (x, y) = (m.subrange(64, 256), b.subrange(64, 256));
    lemma_splice_window(m, 64, 256, at, bytes);
    lemma_splice(x, at - 64, bytes);
    lemma_windows_outside(x, y, at - 64, at - 64 + 32);
    assert(ImageTripleBuffer::of_bytes(y).slots =~= put(
        ImageTripleBuffer::of_bytes(x).slots,
        w,
        ImageMeta::of_bytes(bytes),
    ));
}

/// An exchange on the image channel by its producer.
pub proof fn lemma_image_offer(m: Seq<u8>, value: u8)
    requires
        sized(m),
    ensures
        ShmMetaRegion::of_bytes(
            step(m, ShmOp::Exchange { state_at: 64, index_at: 65, value }),
        ) == (ShmMetaRegion {
            image: ImageTripleBuffer {
                state: value,
                write_idx: ShmMetaRegion::of_bytes(m).image.state & INDEX_MASK,
                ..ShmMetaRegion::of_bytes(m).image
            },
            ..ShmMetaRegion::of_bytes(m)
        }),
{
    reveal(ShmMetaRegion::of_bytes);
    let b = step(m, ShmOp::Exchange { state_at: 64, index_at: 65, value });
    assert(same_outside(m, b, 64, 66));
    lemma_image_change(m, b);
    let (x, y) = (m.subrange(64, 256), b.subrange(64, 256));
    assert(same_outside(x, y, 0, 2));
    lemma_windows_outside(x, y, 0, 2);
    assert(ImageTripleBuffer::of_bytes(y).slots =~= ImageTripleBuffer::of_bytes(x).slots);
}

/// A record copied into slot `w` of the pose channel at `k`.
pub proof fn lemma_pose_slot(m: Seq<u8>, k: int, w: int, bytes: Seq<u8>)
    requires
        sized(m),
        0 <= k < 5,
        0 <= w < 3,
        bytes.len() == 64,
    ensures
        ({
            let old_pose = ShmMetaRegion::of_bytes(m).poses[k];
            ShmMetaRegion::of_bytes(splice(m, pose_at(k) + 64 + 64 * w, bytes))
                == ShmMetaRegion::of_bytes(m).with_pose(
                k,
                PoseTripleBuffer {
                    slots: put(old_pose.slots, w, PoseMeta::of_bytes(bytes)),
                    ..old_pose
                },
            )
        }),
{
    reveal(ShmMetaRegion::of_bytes);
    let base = pose_at(k);
    let at = base + 64 + 64 * w;
    let b = splice(m, at, bytes);
    lemma_splice(m, at, bytes);
    lemma_pose_change(m, b, k);
    let (x, y) = (m.subrange(base, base + 256), b.subrange(base, base + 256));
    lemma_splice_window(m, base, base + 256, at, bytes);
    lemma_splice(x, at - base, bytes);
    lemma_windows_outside(x, y, at - base, at - base + 64);
    assert(PoseTripleBuffer::of_bytes(y).slots =~= put(
        PoseTripleBuffer::of_bytes(x).slots,
        w,
        PoseMeta::of_bytes(bytes),
    ));
    assert(ShmMetaRegion::of_bytes(m).poses[k] == PoseTripleBuffer::of_bytes(x));
}

/// An exchange on the pose channel at `k`, by its producer (`own` is 1) or its consumer (`own`
/// is 2).
pub proof fn lemma_pose_exchange(m: Seq<u8>, k: int, own: int, value: u8)
    requires
        sized(m),
        0 <= k < 5,
        own == 1 || own == 2,
    ensures
        ({
            let old_pose = ShmMetaRegion::of_bytes(m).poses[k];
            let got = old_pose.state & INDEX_MASK;
            ShmMetaRegion::of_bytes(
                step(
                    m,
                    ShmOp::Exchange {
                        state_at: pose_at(k) as usize,
                        index_at: (pose_at(k) + own) as usize,
                        value,
                    },
                ),
            ) == ShmMetaRegion::of_bytes(m).with_pose(
                k,
                if own == 1 {
                    PoseTripleBuffer { state: value, write_idx: got, ..old_pose }
                } else {
                    PoseTripleBuffer { state: value, read_idx: got, ..old_pose }
                },
            )
        }),
{
    reveal(ShmMetaRegion::of_bytes);
    let base = pose_at(k);
    let b = step(
        m,
        ShmOp::Exchange { state_at: base as usize, index_at: (base + own) as usize, value },
    );
    assert(same_outside(m, b, base, base + 3));
    lemma_pose_change(m, b, k);
    let (x, y) = (m.subrange(base, base + 256), b.subrange(base, base + 256));
    assert(same_outside(x, y, 0, 3));
    lemma_windows_outside(x, y, 0, 3);
    assert(PoseTripleBuffer::of_bytes(y).slots =~= PoseTripleBuffer::of_bytes(x).slots);
    assert(ShmMetaRegion::of_bytes(m).poses[k] == PoseTripleBuffer::of_bytes(x));
}

/// An exchange on the gimbal command channel by its consumer.
pub proof fn lemma_gimbal_take(m: Seq<u8>, value: u8)
    requires
        sized(m),
    ensures
        ShmMetaRegion::of_bytes(
            step(m, ShmOp::Exchange { state_at: 1536, index_at: 1538, value }),
        ) == (ShmMetaRegion {
            gimbal_cmd: GimbalTripleBuffer {
                state: value,
                read_idx: ShmMetaRegion::of_bytes(m).gimbal_cmd.state & INDEX_MASK,
                ..ShmMetaRegion::of_bytes(m).gimbal_cmd
            },
            ..ShmMetaRegion::of_bytes(m)
        }),
{
    reveal(ShmMetaRegion::of_bytes);
    let b = step(m, ShmOp::Exchange { state_at: 1536, index_at: 1538, value });
    assert(same_outside(m, b, 1536, 1539));
    lemma_gimbal_change(m, b);
    let (x, y) = (m.subrange(1536, 1728), b.subrange(1536, 1728));
    assert(same_outside(x, y, 0, 3));
    lemma_windows_outside(x, y, 0, 3);
    assert(GimbalTripleBuffer::of_bytes(y).slots =~= GimbalTripleBuffer::of_bytes(x).slots);
}

/// A ground truth payload copied in, or its marker stored.
pub proof fn lemma_truth_payload(m: Seq<u8>, bytes: Seq<u8>)
    requires
        sized(m),
        bytes.len() == 1600,
    ensures
        ShmMetaRegion::of_bytes(splice(m, 1984, bytes)) == (ShmMetaRegion {
            ground_truth: GroundTruthBatch {
                seqlock: ShmMetaRegion::of_bytes(m).ground_truth.seqlock,
                ..GroundTruthBatch::of_payload(bytes)
            },
            ..ShmMetaRegion::of_bytes(m)
        }),
{
    reveal(ShmMetaRegion::of_bytes);
    let b = splice(m, 1984, bytes);
    lemma_splice(m, 1984, bytes);
    lemma_truth_change(m, b);
    let (x, y) = (m.subrange(1984, 3648), b.subrange(1984, 3648));
    lemma_splice_window(m, 1984, 3648, 1984, bytes);
    lemma_splice(x, 0, bytes);
    lemma_truth_prefix(y, bytes);
    lemma_window(x, 1600, 1664);
    lemma_window(y, 1600, 1664);
    lemma_windows_outside(x, y, 0, 1600);
    assert(u32_at(y, 1600) == u32_at(y.subrange(1600, 1664), 0));
    assert(u32_at(x, 1600) == u32_at(x.subrange(1600, 1664), 0));
}

/// The record before the marker is read from the bytes before the marker.
pub proof fn lemma_truth_prefix(b: Seq<u8>, payload: Seq<u8>)
    requires
        b.len() >= 1600,
        payload == b.subrange(0, 1600),
    ensures
        GroundTruthBatch::of_payload(b) == GroundTruthBatch::of_payload(payload),
{
    lemma_window(b, 0, 1600);
    assert(u64_at(payload, 0) == u64_at(b, 0));
    assert(u64_at(payload, 8) == u64_at(b, 8));
    assert(u32_at(payload, 16) == u32_at(b, 16));
    assert(u32_at(payload, 20) == u32_at(b, 20));
    assert forall|i: int| 0 <= i < 16 implies crate::codec::target_in(b, i)
        == #[trigger] crate::codec::target_in(payload, i) by {
        assert(b.subrange(32 + 64 * i, 32 + 64 * i + 64) =~= payload.subrange(
            32 + 64 * i,
            32 + 64 * i + 64,
        ));
    }
    assert forall|i: int| 0 <= i < 4 implies crate::codec::rune_in(b, i)
        == #[trigger] crate::codec::rune_in(payload, i) by {
        assert(b.subrange(1088 + 128 * i, 1088 + 128 * i + 128) =~= payload.subrange(
            1088 + 128 * i,
            1088 + 128 * i + 128,
        ));
    }
    assert(GroundTruthBatch::of_payload(b).targets =~= GroundTruthBatch::of_payload(
        payload,
    ).targets);
    assert(GroundTruthBatch::of_payload(b).runes =~= GroundTruthBatch::of_payload(payload).runes);
}

/// The marker of the ground truth stored.
pub proof fn lemma_truth_marker(m: Seq<u8>, marker: u32)
    requires
        sized(m),
    ensures
        ShmMetaRegion::of_bytes(step(m, ShmOp::StoreMarker { at: 3584, marker }))
            == (ShmMetaRegion {
            ground_truth: GroundTruthBatch {
                seqlock: marker,
                ..ShmMetaRegion::of_bytes(m).ground_truth
            },
            ..ShmMetaRegion::of_bytes(m)
        }),
{
    reveal(ShmMetaRegion::of_bytes);
    let b = step(m, ShmOp::StoreMarker { at: 3584, marker });
    crate::memory::lemma_marker(m, 3584, marker);
    lemma_truth_change(m, b);
    let (x, y) = (m.subrange(1984, 3648), b.subrange(1984, 3648));
    lemma_window(b, 1984, 3648);
    assert(u32_at(y, 1600) == u32_at(b, 3584));
    assert(y.subrange(0, 1600) =~= x.subrange(0, 1600));
    lemma_truth_prefix(x, x.subrange(0, 1600));
    lemma_truth_prefix(y, y.subrange(0, 1600));
}

/// Publishing on a channel fills the producer's slot with the record and leaves the two others, the
/// consumer's among them; the record is then what the channel offers.
pub proof fn law_publishing_fills_one_slot(
    image: ImageTripleBuffer,
    frame: ImageMeta,
    poses: PoseTripleBuffer,
    pose: PoseMeta,
    commands: GimbalTripleBuffer,
    command: GimbalCmd,
    i: int,
)
    requires
        0 <= i < 3,
        image.hands().wf(),
        poses.hands().wf(),
        commands.hands().wf(),
    ensures
        image.published(frame).slots[i] == (if i == image.write_idx {
            frame
        } else {
            image.slots[i]
        }),
        image.published(frame).offer() == frame,
        image.published(frame).read_idx == image.read_idx,
        poses.published(pose).slots[i] == (if i == poses.write_idx {
            pose
        } else {
            poses.slots[i]
        }),
        poses.published(pose).offer() == pose,
        poses.published(pose).read_idx == poses.read_idx,
        commands.published(command).slots[i] == (if i == commands.write_idx {
            command
        } else {
            commands.slots[i]
        }),
        commands.published(command).offer() == command,
        commands.published(command).read_idx == commands.read_idx,
{
    crate::triple_buffer::lemma_state_bits(image.write_idx);
    crate::triple_buffer::lemma_state_bits(poses.write_idx);
    crate::triple_buffer::lemma_state_bits(commands.write_idx);
}

/// A pose channel is replaced and the others stay.
pub proof fn law_one_channel_is_replaced(
    region: ShmMetaRegion,
    k: int,
    channel: PoseTripleBuffer,
    other: int,
)
    requires
        0 <= k < 5,
        0 <= other < 5,
    ensures
        region.with_pose(k, channel).poses[other] == (if other == k {
            channel
        } else {
            region.poses[other]
        }),
        region.with_pose(k, channel).header == region.header,
        region.with_pose(k, channel).image == region.image,
        region.with_pose(k, channel).gimbal_cmd == region.gimbal_cmd,
        region.with_pose(k, channel).camera_info == region.camera_info,
        region.with_pose(k, channel).chassis_observation == region.chassis_observation,
        region.with_pose(k, channel).ground_truth == region.ground_truth,
        region.with_pose(k, channel).runtime_state == region.runtime_state,
        pose_at(k) == 256 * (k + 1),
{
}

} // verus!
