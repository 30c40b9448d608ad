//! The consumer's end of the shared memory.
use crate::layout::{
    ChassisObservation, PoseIndex, ShmHeader, CHASSIS_OBSERVATION_PAYLOAD_BYTES, GIMBAL_CMD_AT,
    GIMBAL_CMD_SIZE, INDEX_MASK, POSES_AT, POSE_META_SIZE, POSE_TRIPLE_BUFFER_SIZE, READ_IDX_AT,
    SHM_HEADER_SIZE, SHM_MAGIC, SHM_NAME_META, SHM_VERSION, SLOTS_AT, STATE_AT,
};
use crate::memory::ShmOp;
use crate::triple_buffer::is_new;
use vstd::prelude::*;

verus! {

/// Why a region cannot be used.
#[derive(Debug, Clone, Copy, PartialEq, Eq, Structural)]
pub enum ShmError {
    /// It is not a region of this protocol, or one of another generation.
    InvalidSize,
}

/// The consumer's end.
pub struct ShmSubscriber {
    /// The name of the metadata region.
    pub meta_name: String,
}

/// The header is that of a region of this protocol in this generation.
pub open spec fn acceptable(header: Seq<u8>) -> bool {
    ShmHeader::of_bytes(header).magic == SHM_MAGIC && ShmHeader::of_bytes(header).version
        == SHM_VERSION
}

impl ShmSubscriber {
    /// Connects to the region under its fixed name, whose header is given.
    pub fn connect(header: &[u8]) -> (r: Result<ShmSubscriber, ShmError>)
        requires
            header@.len() == SHM_HEADER_SIZE,
        ensures
            acceptable(header@) ==> (r matches Ok(s) && s.meta_name@ == SHM_NAME_META@),
            !acceptable(header@) ==> r == Err::<ShmSubscriber, ShmError>(ShmError::InvalidSize),
    {
        Self::connect_named(SHM_NAME_META, header)
    }

    /// Connects to the region under a name of the caller's.
    pub fn connect_named(meta_name: &str, header: &[u8]) -> (r: Result<ShmSubscriber, ShmError>)
        requires
            header@.len() == SHM_HEADER_SIZE,
        ensures
            acceptable(header@) ==> (r matches Ok(s) && s.meta_name@ == meta_name@),
            !acceptable(header@) ==> r == Err::<ShmSubscriber, ShmError>(ShmError::InvalidSize),
    {
        let header = ShmHeader::decode(header);
        if header.magic != SHM_MAGIC {
            return Err(ShmError::InvalidSize);
        }
        if header.version != SHM_VERSION {
            return Err(ShmError::InvalidSize);
        }
        Ok(ShmSubscriber { meta_name: meta_name.to_owned() })
    }

    /// The step that takes the newest gimbal command, where there is one that has not been taken.
    ///
    /// `state` and `read_idx` are what the command channel holds. The command then lies in the slot
    /// that the exchange gave back (see [`Self::gimbal_slot_at`]).
    pub fn recv_gimbal_cmd(&self, state: u8, read_idx: u8) -> (r: Option<ShmOp>)
        ensures
            r is Some <==> state & crate::layout::FLAG_NEW != 0,
            r matches Some(op) ==> op == (ShmOp::Exchange {
                state_at: GIMBAL_CMD_AT,
                index_at: 1538,
                value: read_idx,
            }),
            r matches Some(op) ==> forall|m: Seq<u8>|
                crate::memory::sized(m) && crate::publisher_records::region(m).gimbal_cmd.state
                    == state && crate::publisher_records::region(m).gimbal_cmd.read_idx == read_idx
                    ==> #[trigger] gimbal_cmd_taken(m, crate::memory::step(m, op)),
    {
        if !is_new(state) {
            return None;
        }
        let op = ShmOp::Exchange {
            state_at: GIMBAL_CMD_AT + STATE_AT,
            index_at: GIMBAL_CMD_AT + READ_IDX_AT,
            value: read_idx,
        };
        proof {
            assert forall|m: Seq<u8>|
                crate::memory::sized(m) && crate::publisher_records::region(m).gimbal_cmd.state
                    == state && crate::publisher_records::region(m).gimbal_cmd.read_idx
                    == read_idx implies #[trigger] gimbal_cmd_taken(
                m,
                crate::memory::step(m, op),
            ) by {
                crate::region::lemma_gimbal_take(m, read_idx);
            }
        }
        Some(op)
    }

    /// Where the command lies that an exchange took, of which `exchanged` is the state before.
    pub fn gimbal_slot_at(exchanged: u8) -> (r: usize)
        requires
            exchanged & INDEX_MASK < 3,
        ensures
            r == GIMBAL_CMD_AT + SLOTS_AT + (exchanged & INDEX_MASK) * GIMBAL_CMD_SIZE,
    {
        GIMBAL_CMD_AT + SLOTS_AT + (exchanged & INDEX_MASK) as usize * GIMBAL_CMD_SIZE
    }

    /// The step that takes the newest pose of a channel, where there is one that has not been
    /// taken.
    ///
    /// `state` and `read_idx` are what the channel holds. The pose then lies in the slot that the
    /// exchange gave back (see [`Self::pose_slot_at`]).
    pub fn recv_pose(&self, index: PoseIndex, state: u8, read_idx: u8) -> (r: Option<ShmOp>)
        ensures
            r is Some <==> state & crate::layout::FLAG_NEW != 0,
            r matches Some(op) ==> op == (ShmOp::Exchange {
                state_at: crate::region::pose_at(index.place()) as usize,
                index_at: (crate::region::pose_at(index.place()) + 2) as usize,
                value: read_idx,
            }),
            r matches Some(op) ==> forall|m: Seq<u8>|
                crate::memory::sized(m) && crate::publisher_records::region(
                    m,
                ).poses[index.place()].state == state && crate::publisher_records::region(
                    m,
                ).poses[index.place()].read_idx == read_idx ==> #[trigger] pose_taken(
                    m,
                    crate::memory::step(m, op),
                    index,
                ),
    {
        if !is_new(state) {
            return None;
        }
        let at: usize = POSES_AT + index.index() * POSE_TRIPLE_BUFFER_SIZE;
        let op = ShmOp::Exchange {
            state_at: at + STATE_AT,
            index_at: at + READ_IDX_AT,
            value: read_idx,
        };
        proof {
            assert forall|m: Seq<u8>|
                crate::memory::sized(m) && crate::publisher_records::region(
                    m,
                ).poses[index.place()].state == state && crate::publisher_records::region(
                    m,
                ).poses[index.place()].read_idx == read_idx implies #[trigger] pose_taken(
                m,
                crate::memory::step(m, op),
                index,
            ) by {
                crate::region::lemma_pose_exchange(m, index.place(), 2, read_idx);
            }
        }
        Some(op)
    }

    /// Where the pose lies that an exchange took, of which `exchanged` is the state before.
    pub fn pose_slot_at(index: PoseIndex, exchanged: u8) -> (r: usize)
        requires
            exchanged & INDEX_MASK < 3,
        ensures
            r == crate::region::pose_at(index.place()) + SLOTS_AT + (exchanged & INDEX_MASK)
                * POSE_META_SIZE,
    {
        POSES_AT + index.index() * POSE_TRIPLE_BUFFER_SIZE + SLOTS_AT + (exchanged & INDEX_MASK)
            as usize * POSE_META_SIZE
    }

    /// Whether there is a gimbal command that has not been taken.
    pub fn has_gimbal_cmd(&self, state: u8) -> (r: bool)
        ensures
            r == (state & crate::layout::FLAG_NEW != 0),
    {
        is_new(state)
    }

    /// The chassis observation in a copy of its payload, where a copy was kept and anything has
    /// been observed yet.
    ///
    /// A copy is kept only under a stable marker (see [`crate::seqlock`]). The record that goes out
    /// with a frame has its marker at zero, under which no copy starts, so that a reader gets
    /// nothing from it; those records are also sent on the channel for readers of the old chassis
    /// observation.
    pub fn chassis_observation(&self, payload: Option<&[u8]>) -> (r: Option<ChassisObservation>)
        requires
            payload matches Some(p) ==> p@.len() == CHASSIS_OBSERVATION_PAYLOAD_BYTES,
        ensures
            r == match payload {
                Some(p) => if ChassisObservation::of_payload(p@).timestamp_ns == 0 {
                    None
                } else {
                    Some(ChassisObservation::of_payload(p@))
                },
                None => None,
            },
    {
        match payload {
            Some(p) => {
                let observation = ChassisObservation::decode_payload(p);
                if observation.timestamp_ns == 0 {
                    None
                } else {
                    Some(observation)
                }
            },
            None => None,
        }
    }
}

/// From `m` to `after`, the consumer has taken what the command channel offered, and nothing else
/// has changed.
pub open spec fn gimbal_cmd_taken(m: Seq<u8>, after: Seq<u8>) -> bool {
    let channel = crate::publisher_records::region(m).gimbal_cmd;
    crate::publisher_records::region(after) == (crate::layout::ShmMetaRegion {
        gimbal_cmd: channel.with_hands(channel.hands().taken()),
        ..crate::publisher_records::region(m)
    })
}

/// From `m` to `after`, the consumer has taken what the pose channel offered, and nothing else has
/// changed.
pub open spec fn pose_taken(m: Seq<u8>, after: Seq<u8>, index: PoseIndex) -> bool {
    let channel = crate::publisher_records::region(m).poses[index.place()];
    crate::publisher_records::region(after) == crate::publisher_records::region(m).with_pose(
        index.place(),
        channel.with_hands(channel.hands().taken()),
    )
}

/// A region that was just brought up is one that a consumer accepts. In each channel every slot is
/// in one place and there is nothing to take, so that the first frame may go out.
pub proof fn law_new_region_is_accepted(
    m: Seq<u8>,
    after: Seq<u8>,
    created_ns: u64,
    heartbeat_ns: u64,
)
    requires
        crate::publisher::brought_up(m, after, created_ns, heartbeat_ns),
    ensures
        acceptable(after.subrange(0, 64)),
        ({
            let region = crate::publisher_records::region(after);
            &&& region.image.hands().wf() && !region.image.hands().fresh()
            &&& forall|k: int|
                0 <= k < 5 ==> (#[trigger] region.poses[k]).hands().wf()
                    && !region.poses[k].hands().fresh()
            &&& region.gimbal_cmd.hands().wf() && !region.gimbal_cmd.hands().fresh()
        }),
        crate::publisher::FrameStates::of(after).consumed(),
{
    crate::region::lemma_parts(after);
    crate::triple_buffer::lemma_state_bits(1);
    crate::capture::law_next_frame_waits_for_five_channels(after);
}

/// A pose that was published is what the consumer takes next from that channel, whatever was
/// there before; after that there is nothing new, and the other channels are as they were.
pub proof fn law_published_pose_is_taken_once(
    m: Seq<u8>,
    published: Seq<u8>,
    taken: Seq<u8>,
    index: PoseIndex,
    pose: crate::layout::PoseMeta,
)
    requires
        crate::memory::sized(m),
        crate::memory::sized(taken),
        crate::publisher_records::region(m).poses[index.place()].hands().wf(),
        crate::publisher_records::pose_published(m, published, index, pose),
        pose_taken(published, taken, index),
    ensures
        ({
            let before = crate::publisher_records::region(published).poses[index.place()];
            let after = crate::publisher_records::region(taken).poses[index.place()];
            let slot = crate::region::pose_at(index.place()) + SLOTS_AT + (before.state
                & INDEX_MASK) * POSE_META_SIZE;
            &&& before.hands().fresh()
            &&& before.state & INDEX_MASK < 3
            &&& crate::layout::PoseMeta::of_bytes(taken.subrange(slot, slot + 64)) == pose
            &&& after.slots[after.read_idx as int] == pose
            &&& !after.hands().fresh()
            &&& after.hands().wf()
        }),
        forall|other: PoseIndex|
            other != index ==> #[trigger] crate::publisher_records::region(
                taken,
            ).poses[other.place()] == crate::publisher_records::region(m).poses[other.place()],
{
    let h = crate::publisher_records::region(m).poses[index.place()].hands();
    crate::triple_buffer::law_take_gets_what_was_published_last_and_only_once(h);
    crate::triple_buffer::law_every_step_keeps_the_hands_apart(
        h,
        crate::triple_buffer::Turn::Publish,
    );
    crate::triple_buffer::law_every_step_keeps_the_hands_apart(
        h.published(),
        crate::triple_buffer::Turn::Take,
    );
    crate::region::lemma_parts(taken);
    let base = crate::region::pose_at(index.place());
    let window = taken.subrange(base, base + 256);
    let i = h.published().ready() as int;
    assert(taken.subrange(base + 64 + i * 64, base + 64 + i * 64 + 64) =~= window.subrange(
        64 + i * 64,
        64 + i * 64 + 64,
    ));
    let after = crate::publisher_records::region(taken).poses[index.place()];
    assert(after == crate::layout::PoseTripleBuffer::of_bytes(window));
    assert(after.slots[i] == crate::layout::PoseMeta::of_bytes(
        window.subrange(64 + i * 64, 64 + i * 64 + 64),
    ));
}

/// A gimbal command that waits in its channel is what the consumer takes; after that there is
/// nothing new.
pub proof fn law_waiting_command_is_taken_once(m: Seq<u8>, taken: Seq<u8>)
    requires
        crate::memory::sized(m),
        crate::memory::sized(taken),
        crate::publisher_records::region(m).gimbal_cmd.hands().wf(),
        crate::publisher_records::region(m).gimbal_cmd.hands().fresh(),
        gimbal_cmd_taken(m, taken),
    ensures
        ({
            let before = crate::publisher_records::region(m).gimbal_cmd;
            let after = crate::publisher_records::region(taken).gimbal_cmd;
            let slot = GIMBAL_CMD_AT + SLOTS_AT + (before.state & INDEX_MASK) * GIMBAL_CMD_SIZE;
            &&& crate::layout::GimbalCmd::of_bytes(taken.subrange(slot, slot + 32))
                == before.offer()
            &&& !after.hands().fresh()
            &&& after.hands().wf()
        }),
{
    let before = crate::publisher_records::region(m).gimbal_cmd;
    let h = before.hands();
    crate::triple_buffer::lemma_state_bits(h.state);
    crate::triple_buffer::lemma_state_bits(h.read_idx);
    crate::triple_buffer::law_every_step_keeps_the_hands_apart(h, crate::triple_buffer::Turn::Take);
    crate::region::lemma_parts(taken);
    let window = taken.subrange(1536, 1728);
    let i = h.ready() as int;
    assert(taken.subrange(1600 + i * 32, 1600 + i * 32 + 32) =~= window.subrange(
        64 + i * 32,
        64 + i * 32 + 32,
    ));
    let after = crate::publisher_records::region(taken).gimbal_cmd;
    assert(after == crate::layout::GimbalTripleBuffer::of_bytes(window));
    assert(after.slots[i] == crate::layout::GimbalCmd::of_bytes(
        window.subrange(64 + i * 32, 64 + i * 32 + 32),
    ));
}

/// A chassis observation that was published under a stable marker reads back: its marker lets a
/// copy start, and the payload decodes to it, but for the marker itself. The records of frames have
/// no such marker.
pub proof fn law_published_observation_reads_back(m: Seq<u8>, observation: ChassisObservation)
    requires
        crate::memory::sized(m),
        crate::publisher_records::region(m).chassis_observation == observation,
        crate::seqlock::stable(observation.seqlock),
    ensures
        crate::wire::u32_at(m, 1968) == observation.seqlock,
        crate::seqlock::attempt_holds(
            crate::wire::u32_at(m, 1968),
            crate::wire::u32_at(m, 1968),
        ),
        ChassisObservation::of_payload(m.subrange(1856, 1968)) == (ChassisObservation {
            seqlock: 0,
            ..observation
        }),
{
    crate::region::lemma_parts(m);
    let whole = m.subrange(1856, 1984);
    let payload = m.subrange(1856, 1968);
    assert(payload =~= whole.subrange(0, 112));
    crate::wire::lemma_window(m, 1856, 1984);
    crate::wire::lemma_window(whole, 0, 112);
    assert(crate::wire::u32_at(whole, 112) == crate::wire::u32_at(m, 1968));
    let a = ChassisObservation::of_payload(payload);
    let b = ChassisObservation::of_payload(whole);
    assert(crate::wire::u64_at(payload, 0) == crate::wire::u64_at(whole, 0));
    assert(crate::wire::u64_at(payload, 8) == crate::wire::u64_at(whole, 8));
    assert(forall|at: int|
        0 <= at <= 108 ==> #[trigger] crate::wire::u32_at(payload, at) == crate::wire::u32_at(
            whole,
            at,
        ));
    assert(a.v_body =~= b.v_body);
    assert(a.wheel_linear_mps =~= b.wheel_linear_mps);
    assert(a.wheel_angular_radps =~= b.wheel_angular_radps);
    assert(a.a_body =~= b.a_body);
    assert(a.rpy_rad =~= b.rpy_rad);
    assert(a.gyro_xyz_radps =~= b.gyro_xyz_radps);
    assert(a.accel_xyz_mps2 =~= b.accel_xyz_mps2);
}

/// A consumer accepts a region exactly where its first eight bytes are the mark of the protocol and
/// its generation.
pub proof fn law_accepted_headers(header: Seq<u8>)
    requires
        header.len() == 64,
    ensures
        acceptable(header) <==> header.subrange(0, 8) == seq![5u8, 0x4c, 0x41, 0x54, 3, 0, 0, 0],
{
    crate::abi::law_places_in_shm_header(header);
    let first = header.subrange(0, 8);
    let expected = seq![5u8, 0x4c, 0x41, 0x54, 3, 0, 0, 0];
    assert forall|i: int| 0 <= i < 8 implies #[trigger] first[i] == header[i] by {}
    if acceptable(header) {
        assert(header[0] == 5 && header[1] == 0x4c && header[2] == 0x41 && header[3] == 0x54);
        assert(header[4] == 3 && header[5] == 0 && header[6] == 0 && header[7] == 0);
        assert(first =~= expected);
    }
    if first == expected {
        assert(first[0] == 5 && first[1] == 0x4c && first[2] == 0x41 && first[3] == 0x54);
        assert(first[4] == 3 && first[5] == 0 && first[6] == 0 && first[7] == 0);
    }
}

/// Taking a command or a pose changes who owns which slot of that channel: the consumer gets the
/// slot that waited and gives its own, and nothing is new any more. The records stay, and so does
/// everything outside the channel.
pub proof fn law_taking_changes_the_hands_alone(m: Seq<u8>, after: Seq<u8>, index: PoseIndex, k: int)
    requires
        0 <= k < 5,
    ensures
        ({
            let (was, now) = (
                crate::publisher_records::region(m),
                crate::publisher_records::region(after),
            );
            &&& gimbal_cmd_taken(m, after) && was.gimbal_cmd.hands().wf() && was.gimbal_cmd.state
                >= 0x80 ==> {
                &&& now.gimbal_cmd.read_idx == was.gimbal_cmd.state % 4
                &&& now.gimbal_cmd.state == was.gimbal_cmd.read_idx
                &&& now.gimbal_cmd.write_idx == was.gimbal_cmd.write_idx
                &&& now.gimbal_cmd.slots == was.gimbal_cmd.slots
            }
            &&& gimbal_cmd_taken(m, after) ==> now == (crate::layout::ShmMetaRegion {
                gimbal_cmd: now.gimbal_cmd,
                ..was
            })
            &&& pose_taken(m, after, index) && was.poses[index.place()].hands().wf()
                && was.poses[index.place()].state >= 0x80 ==> {
                let (before, behind) = (was.poses[index.place()], now.poses[index.place()]);
                &&& behind.read_idx == before.state % 4
                &&& behind.state == before.read_idx
                &&& behind.write_idx == before.write_idx
                &&& behind.slots == before.slots
            }
            &&& pose_taken(m, after, index) ==> now == (crate::layout::ShmMetaRegion {
                poses: now.poses,
                ..was
            })
            &&& pose_taken(m, after, index) && k != index.place() ==> now.poses[k] == was.poses[k]
        }),
{
    let was = crate::publisher_records::region(m);
    crate::triple_buffer::lemma_state_bits(was.gimbal_cmd.state);
    crate::triple_buffer::lemma_state_bits(was.poses[index.place()].state);
}

/// A region is connected to exactly where its first eight bytes are the mark of the protocol and
/// its generation, under the fixed name or under that of the caller.
pub proof fn law_calls_of_connect(
    meta_name: &str,
    header: &[u8],
    fixed: Result<ShmSubscriber, ShmError>,
    named: Result<ShmSubscriber, ShmError>,
)
    requires
        call_ensures(ShmSubscriber::connect, (header,), fixed),
        call_ensures(ShmSubscriber::connect_named, (meta_name, header), named),
        header@.len() == 64,
    ensures
        fixed is Ok <==> header@.subrange(0, 8) == seq![5u8, 0x4c, 0x41, 0x54, 3, 0, 0, 0],
        named is Ok <==> fixed is Ok,
        fixed is Ok ==> fixed->Ok_0.meta_name@ == "talos_ipc_meta"@,
        named is Ok ==> named->Ok_0.meta_name@ == meta_name@,
{
    law_accepted_headers(header@);
}

/// A command is taken exactly where the highest bit of the channel's state is set, and lies in the
/// slot that the state named; so it is with poses.
pub proof fn law_calls_of_recv(
    subscriber: ShmSubscriber,
    state: u8,
    read_idx: u8,
    has: bool,
    cmd: Option<ShmOp>,
    cmd_at: usize,
    index: PoseIndex,
    pose: Option<ShmOp>,
    pose_at: usize,
)
    requires
        call_ensures(ShmSubscriber::has_gimbal_cmd, (&subscriber, state), has),
        call_ensures(ShmSubscriber::recv_gimbal_cmd, (&subscriber, state, read_idx), cmd),
        call_ensures(ShmSubscriber::gimbal_slot_at, (state,), cmd_at),
        call_ensures(ShmSubscriber::recv_pose, (&subscriber, index, state, read_idx), pose),
        call_ensures(ShmSubscriber::pose_slot_at, (index, state), pose_at),
    ensures
        has <==> state >= 0x80,
        cmd is Some <==> has,
        pose is Some <==> has,
        cmd is Some ==> cmd->0 == (ShmOp::Exchange {
            state_at: 1536,
            index_at: 1538,
            value: read_idx,
        }),
        cmd_at == 1600 + 32 * (state % 4),
        pose is Some ==> pose->0 == (ShmOp::Exchange {
            state_at: (256 + 256 * index.place()) as usize,
            index_at: (258 + 256 * index.place()) as usize,
            value: read_idx,
        }),
        pose_at == 320 + 256 * index.place() + 64 * (state % 4),
{
    crate::triple_buffer::lemma_state_bits(state);
}

/// An observation is given exactly where a copy was kept and bears a time, and is what the copy
/// says.
pub proof fn law_calls_of_chassis_observation(
    subscriber: ShmSubscriber,
    payload: Option<&[u8]>,
    r: Option<ChassisObservation>,
)
    requires
        call_ensures(ShmSubscriber::chassis_observation, (&subscriber, payload), r),
    ensures
        payload is None ==> r is None,
        payload is Some ==> {
            let said = ChassisObservation::of_payload(payload->0@);
            &&& r is Some <==> said.timestamp_ns != 0
            &&& r is Some ==> r->0 == said
        },
{
}

} // verus!
