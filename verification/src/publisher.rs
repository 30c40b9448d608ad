//! The simulator's end of the shared memory.
//!
//! Every function here answers with the steps that whoever holds the mapping carries out, and its
//! contract says what the region holds after them.
use crate::layout::{
    ImageMeta, ShmHeader, GIMBAL_CMD_AT, HEADER_AT, IMAGE_AT, IMAGE_HEIGHT, IMAGE_META_SIZE,
    IMAGE_POOL_SIZE, IMAGE_SIZE, IMAGE_WIDTH, POSES_AT, POSE_TRIPLE_BUFFER_SIZE, SHM_MAGIC,
    SHM_META_REGION_SIZE, SHM_NAME_IMAGE_POOL, SHM_NAME_META, SHM_VERSION, SIMULATOR_CAPABILITIES,
    SLOTS_AT, STATE_AT, WRITE_IDX_AT,
};
use crate::memory::ShmOp;
use crate::triple_buffer::{is_new, offered};
use vstd::prelude::*;

verus! {

/// The simulator's end.
pub struct ShmPublisher {
    /// The place in the image pool that the next frame goes to.
    pub current_buffer_id: u8,
    /// The newest frame that went out together with its poses.
    pub last_synchronized_frame_seq: Option<u64>,
}

/// What it takes to bring the shared memory up.
pub struct ShmSetup {
    pub meta_name: String,
    pub meta_size: usize,
    pub image_pool_name: String,
    pub image_pool_size: usize,
    /// The steps on the new metadata region.
    pub ops: Vec<ShmOp>,
    pub publisher: ShmPublisher,
}

/// The state bytes that tell whether the consumer is done with the last frame.
#[derive(Debug, Clone, Copy)]
pub struct FrameStates {
    pub image: u8,
    /// Those of the gimbal, odometry, muzzle and camera channels.
    pub poses: [u8; 4],
}

impl FrameStates {
    /// The consumer has taken the image and each of its four poses.
    pub open spec fn consumed(self) -> bool {
        &&& self.image & crate::layout::FLAG_NEW == 0
        &&& forall|i: int|
            0 <= i < 4 ==> #[trigger] self.poses[i] & crate::layout::FLAG_NEW == 0
    }

    /// The state bytes of a region.
    pub open spec fn of(m: Seq<u8>) -> FrameStates {
        let region = crate::layout::ShmMetaRegion::of_bytes(m);
        FrameStates {
            image: region.image.state,
            poses: [
                region.poses[0].state,
                region.poses[1].state,
                region.poses[2].state,
                region.poses[3].state,
            ],
        }
    }
}

/// The record of a frame that lies at place `buffer_id` of the pool.
pub open spec fn image_record(seq: u64, timestamp_ns: u64, buffer_id: u8) -> ImageMeta {
    ImageMeta {
        seq,
        timestamp_ns,
        width: IMAGE_WIDTH,
        height: IMAGE_HEIGHT,
        buffer_id,
        format: 0,
    }
}

/// A step that leaves the image channel and the image pool alone.
pub open spec fn spares_the_image(op: ShmOp) -> bool {
    match op {
        ShmOp::CopyPixels { at } => false,
        ShmOp::Copy { at, bytes } => at + bytes@.len() <= 64 || 256 <= at,
        ShmOp::Exchange { state_at, index_at, value } => 256 <= state_at && 256 <= index_at,
        ShmOp::StoreMarker { at, marker } => 256 <= at,
        ShmOp::Fence => true,
    }
}

/// Steps that all leave the image channel and the image pool alone.
pub open spec fn all_spare_the_image(ops: Seq<ShmOp>) -> bool {
    forall|i: int| 0 <= i < ops.len() ==> spares_the_image(#[trigger] ops[i])
}

/// The steps that put a frame's pixels at place `buffer_id` of the pool, then do what belongs to
/// the frame, and only then offer the frame's record `meta` through slot `write_idx`.
pub open spec fn image_steps(
    ops: Seq<ShmOp>,
    before_commit: Seq<ShmOp>,
    meta: ImageMeta,
    write_idx: u8,
) -> bool {
    let n = before_commit.len() as int;
    &&& ops.len() == n + 3
    &&& ops[0] == (ShmOp::CopyPixels { at: (meta.buffer_id * IMAGE_SIZE) as usize })
    &&& ops.subrange(1, n + 1) == before_commit
    &&& ops[n + 1] matches ShmOp::Copy { at, bytes } && at == IMAGE_AT + SLOTS_AT + write_idx
        * IMAGE_META_SIZE && bytes@.len() == IMAGE_META_SIZE && ImageMeta::of_bytes(bytes@) == meta
    &&& ops[n + 2] == (ShmOp::Exchange {
        state_at: IMAGE_AT,
        index_at: 65,
        value: write_idx | crate::layout::FLAG_NEW,
    })
}

/// The step that puts a triple buffer at `at` into its initial hands.
pub open spec fn inits_at(op: ShmOp, at: int) -> bool {
    op matches ShmOp::Copy { at: a, bytes } && a == at && bytes@ == seq![1u8, 0, 2]
}

/// The first three bytes of a triple buffer change, and nothing else.
proof fn lemma_hands_written(m: Seq<u8>, at: int, size: int)
    requires
        0 <= at,
        3 <= size,
        at + size <= m.len(),
    ensures
        ({
            let b = crate::memory::splice(m, at, seq![1u8, 0, 2]);
            let x = m.subrange(at, at + size);
            let y = b.subrange(at, at + size);
            &&& crate::memory::same_outside(m, b, at, at + size)
            &&& y[0] == 1
            &&& y[1] == 0
            &&& y[2] == 2
            &&& forall|i: int, j: int|
                3 <= i <= j <= size ==> #[trigger] y.subrange(i, j) == x.subrange(i, j)
        }),
{
    let init = seq![1u8, 0, 2];
    let b = crate::memory::splice(m, at, init);
    let x = m.subrange(at, at + size);
    let y = b.subrange(at, at + size);
    crate::memory::lemma_splice(m, at, init);
    assert(crate::memory::same_outside(x, y, 0, 3));
    crate::memory::lemma_windows_outside(x, y, 0, 3);
}

impl ShmPublisher {
    /// The next frame has a place in the pool.
    pub open spec fn wf(&self) -> bool {
        self.current_buffer_id < 3
    }

    /// Appends the step that puts a triple buffer at `at` into its initial hands.
    fn init_triple_buffer(ops: &mut Vec<ShmOp>, at: usize)
        ensures
            ({
                let op = final(ops)@.last();
                &&& final(ops)@ == old(ops)@.push(op)
                &&& inits_at(op, at as int)
            }),
    {
        let mut bytes: Vec<u8> = Vec::new();
        bytes.push(1);
        bytes.push(0);
        bytes.push(2);
        assert(bytes@ =~= seq![1u8, 0, 2]);
        ops.push(ShmOp::Copy { at, bytes });
    }

    /// Brings the shared memory up under its fixed names, by which consumers find it.
    pub fn create(created_ns: u64, heartbeat_ns: u64) -> (setup: ShmSetup)
        ensures
            setup.fresh(SHM_NAME_META@, SHM_NAME_IMAGE_POOL@, created_ns, heartbeat_ns),
    {
        Self::create_named(SHM_NAME_META, SHM_NAME_IMAGE_POOL, created_ns, heartbeat_ns)
    }

    /// The steps that write the header and put every triple buffer into its initial hands.
    fn setup_steps(header: Vec<u8>) -> (ops: Vec<ShmOp>)
        ensures
            are_setup_steps(ops@, header@),
    {
        let mut ops: Vec<ShmOp> = Vec::new();
        ops.push(ShmOp::Copy { at: HEADER_AT, bytes: header });
        Self::init_triple_buffer(&mut ops, IMAGE_AT);
        Self::init_triple_buffer(&mut ops, POSES_AT);
        Self::init_triple_buffer(&mut ops, POSES_AT + POSE_TRIPLE_BUFFER_SIZE);
        Self::init_triple_buffer(&mut ops, POSES_AT + 2 * POSE_TRIPLE_BUFFER_SIZE);
        Self::init_triple_buffer(&mut ops, POSES_AT + 3 * POSE_TRIPLE_BUFFER_SIZE);
        Self::init_triple_buffer(&mut ops, POSES_AT + 4 * POSE_TRIPLE_BUFFER_SIZE);
        Self::init_triple_buffer(&mut ops, GIMBAL_CMD_AT);
        ops
    }

    /// Brings the shared memory up under names of the caller's.
    pub fn create_named(
        meta_name: &str,
        image_pool_name: &str,
        created_ns: u64,
        heartbeat_ns: u64,
    ) -> (setup: ShmSetup)
        ensures
            setup.fresh(meta_name@, image_pool_name@, created_ns, heartbeat_ns),
    {
        let header = ShmHeader {
            magic: SHM_MAGIC,
            version: SHM_VERSION,
            created_ns,
            heartbeat_ns,
            image_width: IMAGE_WIDTH,
            image_height: IMAGE_HEIGHT,
            capabilities: SIMULATOR_CAPABILITIES,
        };
        let bytes = header.encode();
        let ghost header_bytes = bytes@;
        let ops = Self::setup_steps(bytes);
        proof {
            assert forall|m: Seq<u8>| crate::memory::sized(m) implies
                crate::memory::run(m, ops@).len() == m.len()
                && #[trigger] brought_up(m, crate::memory::run(m, ops@), created_ns, heartbeat_ns)
                by {
                crate::memory::lemma_run_len(m, ops@);
                lemma_brought_up(m, ops@, header_bytes, created_ns, heartbeat_ns);
            }
        }
        ShmSetup {
            meta_name: meta_name.to_owned(),
            meta_size: SHM_META_REGION_SIZE,
            image_pool_name: image_pool_name.to_owned(),
            image_pool_size: IMAGE_POOL_SIZE,
            ops,
            publisher: ShmPublisher { current_buffer_id: 0, last_synchronized_frame_seq: None },
        }
    }
}

/// From `m` to `after`, the header was written, every triple buffer was put into its initial
/// hands, and nothing else was touched.
pub open spec fn brought_up(
    m: Seq<u8>,
    after: Seq<u8>,
    created_ns: u64,
    heartbeat_ns: u64,
) -> bool {
    let old_region = crate::layout::ShmMetaRegion::of_bytes(m);
    let region = crate::layout::ShmMetaRegion::of_bytes(after);
    &&& region.header == ShmHeader::stamped(created_ns, heartbeat_ns, SIMULATOR_CAPABILITIES)
    &&& region.image.initial()
    &&& region.image.slots == old_region.image.slots
    &&& forall|k: int|
        0 <= k < 5 ==> (#[trigger] region.poses[k]).initial() && region.poses[k].slots
            == old_region.poses[k].slots
    &&& region.gimbal_cmd.initial()
    &&& region.gimbal_cmd.slots == old_region.gimbal_cmd.slots
    &&& region.camera_info == old_region.camera_info
    &&& region.chassis_observation == old_region.chassis_observation
    &&& region.ground_truth == old_region.ground_truth
    &&& region.runtime_state == old_region.runtime_state
}

/// A triple buffer at `at` put into its initial hands.
spec fn initialised(m: Seq<u8>, at: int) -> Seq<u8> {
    crate::memory::splice(m, at, seq![1u8, 0, 2])
}

/// The header first, and then the image channel, the five pose channels and the command channel.
spec fn are_setup_steps(ops: Seq<ShmOp>, header: Seq<u8>) -> bool {
    &&& ops.len() == 8
    &&& ops[0] matches ShmOp::Copy { at, bytes } && at == 0 && bytes@ == header
    &&& inits_at(ops[1], 64)
    &&& inits_at(ops[2], 256)
    &&& inits_at(ops[3], 512)
    &&& inits_at(ops[4], 768)
    &&& inits_at(ops[5], 1024)
    &&& inits_at(ops[6], 1280)
    &&& inits_at(ops[7], 1536)
}

/// What the eight steps leave in the bytes.
proof fn lemma_setup_runs(m: Seq<u8>, ops: Seq<ShmOp>, header: Seq<u8>)
    requires
        are_setup_steps(ops, header),
    ensures
        crate::memory::run(m, ops) == initialised(
            all_poses_initialised(initialised(crate::memory::splice(m, 0, header), 64)),
            1536,
        ),
{
    crate::memory::lemma_run_prefix(m, ops, 0);
    crate::memory::lemma_run_prefix(m, ops, 1);
    crate::memory::lemma_run_prefix(m, ops, 2);
    crate::memory::lemma_run_prefix(m, ops, 3);
    crate::memory::lemma_run_prefix(m, ops, 4);
    crate::memory::lemma_run_prefix(m, ops, 5);
    crate::memory::lemma_run_prefix(m, ops, 6);
    crate::memory::lemma_run_prefix(m, ops, 7);
}

/// The five pose channels put into their initial hands.
spec fn all_poses_initialised(m: Seq<u8>) -> Seq<u8> {
    initialised(initialised(initialised(initialised(initialised(m, 256), 512), 768), 1024), 1280)
}

/// What putting the five pose channels into their initial hands changes.
proof fn lemma_all_poses_initialised(m: Seq<u8>)
    requires
        crate::memory::sized(m),
    ensures
        ({
            let before = crate::layout::ShmMetaRegion::of_bytes(m);
            let after = crate::layout::ShmMetaRegion::of_bytes(all_poses_initialised(m));
            &&& after == (crate::layout::ShmMetaRegion { poses: after.poses, ..before })
            &&& forall|k: int|
                0 <= k < 5 ==> (#[trigger] after.poses[k]).initial() && after.poses[k].slots
                    == before.poses[k].slots
        }),
        crate::memory::sized(all_poses_initialised(m)),
{
    let m1 = initialised(m, 256);
    let m2 = initialised(m1, 512);
    let m3 = initialised(m2, 768);
    let m4 = initialised(m3, 1024);
    lemma_pose_initialised(m, 0);
    lemma_pose_initialised(m1, 1);
    lemma_pose_initialised(m2, 2);
    lemma_pose_initialised(m3, 3);
    lemma_pose_initialised(m4, 4);
}

/// What the eight steps do.
proof fn lemma_brought_up(
    m: Seq<u8>,
    ops: Seq<ShmOp>,
    header: Seq<u8>,
    created_ns: u64,
    heartbeat_ns: u64,
)
    requires
        crate::memory::sized(m),
        are_setup_steps(ops, header),
        header.len() == 64,
        ShmHeader::of_bytes(header) == ShmHeader::stamped(
            created_ns,
            heartbeat_ns,
            SIMULATOR_CAPABILITIES,
        ),
    ensures
        brought_up(m, crate::memory::run(m, ops), created_ns, heartbeat_ns),
{
    let m1 = crate::memory::splice(m, 0, header);
    let m2 = initialised(m1, 64);
    let m3 = all_poses_initialised(m2);
    lemma_setup_runs(m, ops, header);
    crate::memory::lemma_splice(m, 0, header);
    crate::region::lemma_header_change(m, m1);
    lemma_image_initialised(m1);
    lemma_all_poses_initialised(m2);
    lemma_gimbal_initialised(m3);
}

proof fn lemma_image_initialised(m: Seq<u8>)
    requires
        crate::memory::sized(m),
    ensures
        ({
            let before = crate::layout::ShmMetaRegion::of_bytes(m);
            crate::layout::ShmMetaRegion::of_bytes(initialised(m, 64))
                == (crate::layout::ShmMetaRegion {
                image: crate::layout::ImageTripleBuffer {
                    state: 1,
                    write_idx: 0,
                    read_idx: 2,
                    slots: before.image.slots,
                },
                ..before
            })
        }),
{
    lemma_hands_written(m, 64, 192);
    crate::region::lemma_image_change(m, initialised(m, 64));
    crate::region::lemma_parts(m);
    let before = crate::layout::ImageTripleBuffer::of_bytes(m.subrange(64, 256));
    let after = crate::layout::ImageTripleBuffer::of_bytes(initialised(m, 64).subrange(64, 256));
    assert(after.slots =~= before.slots);
}

proof fn lemma_pose_initialised(m: Seq<u8>, k: int)
    requires
        crate::memory::sized(m),
        0 <= k < 5,
    ensures
        ({
            let before = crate::layout::ShmMetaRegion::of_bytes(m);
            crate::layout::ShmMetaRegion::of_bytes(initialised(m, 256 + 256 * k))
                == before.with_pose(
                k,
                crate::layout::PoseTripleBuffer {
                    state: 1,
                    write_idx: 0,
                    read_idx: 2,
                    slots: before.poses[k].slots,
                },
            )
        }),
{
    let at = 256 + 256 * k;
    lemma_hands_written(m, at, 256);
    crate::region::lemma_pose_change(m, initialised(m, at), k);
    crate::region::lemma_parts(m);
    let before = crate::layout::PoseTripleBuffer::of_bytes(m.subrange(at, at + 256));
    let after = crate::layout::PoseTripleBuffer::of_bytes(
        initialised(m, at).subrange(at, at + 256),
    );
    assert(after.slots =~= before.slots);
    assert(crate::layout::ShmMetaRegion::of_bytes(m).poses[k] == before);
}

proof fn lemma_gimbal_initialised(m: Seq<u8>)
    requires
        crate::memory::sized(m),
    ensures
        ({
            let before = crate::layout::ShmMetaRegion::of_bytes(m);
            crate::layout::ShmMetaRegion::of_bytes(initialised(m, 1536))
                == (crate::layout::ShmMetaRegion {
                gimbal_cmd: crate::layout::GimbalTripleBuffer {
                    state: 1,
                    write_idx: 0,
                    read_idx: 2,
                    slots: before.gimbal_cmd.slots,
                },
                ..before
            })
        }),
{
    lemma_hands_written(m, 1536, 192);
    crate::region::lemma_gimbal_change(m, initialised(m, 1536));
    crate::region::lemma_parts(m);
    let before = crate::layout::GimbalTripleBuffer::of_bytes(m.subrange(1536, 1728));
    let after = crate::layout::GimbalTripleBuffer::of_bytes(
        initialised(m, 1536).subrange(1536, 1728),
    );
    assert(after.slots =~= before.slots);
}

impl ShmSetup {
    /// What it takes to bring the shared memory up under the two names, with the two times in the
    /// header: a region of the right size, a pool with room for three frames, steps after which
    /// every triple buffer is in its initial hands, and a publisher that has sent nothing.
    pub open spec fn fresh(
        &self,
        meta_name: Seq<char>,
        image_pool_name: Seq<char>,
        created_ns: u64,
        heartbeat_ns: u64,
    ) -> bool {
        &&& self.meta_name@ == meta_name
        &&& self.meta_size == SHM_META_REGION_SIZE
        &&& self.image_pool_name@ == image_pool_name
        &&& self.image_pool_size == IMAGE_POOL_SIZE
        &&& self.publisher.current_buffer_id == 0
        &&& self.publisher.last_synchronized_frame_seq is None
        &&& forall|m: Seq<u8>|
            crate::memory::sized(m) ==> #[trigger] brought_up(
                m,
                crate::memory::run(m, self.ops@),
                created_ns,
                heartbeat_ns,
            )
    }
}

/// Steps that spare the image leave the image channel and the pool as they are.
pub proof fn lemma_spared(m: Seq<u8>, ops: Seq<ShmOp>, pool: Seq<u8>, pixels: Seq<u8>)
    requires
        crate::memory::sized(m),
        all_spare_the_image(ops),
    ensures
        crate::memory::run(m, ops).subrange(64, 256) == m.subrange(64, 256),
        crate::memory::sized(crate::memory::run(m, ops)),
        crate::memory::run_pool(pool, pixels, ops) == pool,
    decreases ops.len(),
{
    crate::memory::lemma_run_len(m, ops);
    if ops.len() > 0 {
        let rest = ops.drop_last();
        assert forall|i: int| 0 <= i < rest.len() implies spares_the_image(#[trigger] rest[i]) by {
            assert(rest[i] == ops[i]);
        }
        lemma_spared(m, rest, pool, pixels);
        crate::memory::lemma_run_len(m, rest);
        let before = crate::memory::run(m, rest);
        assert(spares_the_image(ops[ops.len() - 1]));
        assert(crate::memory::step(before, ops.last()).subrange(64, 256) =~= before.subrange(
            64,
            256,
        ));
    }
}

/// What the pool holds after two sequences of steps.
proof fn lemma_pool_concat(pool: Seq<u8>, pixels: Seq<u8>, first: Seq<ShmOp>, second: Seq<ShmOp>)
    ensures
        crate::memory::run_pool(pool, pixels, first + second) == crate::memory::run_pool(
            crate::memory::run_pool(pool, pixels, first),
            pixels,
            second,
        ),
    decreases second.len(),
{
    if second.len() == 0 {
        assert(first + second =~= first);
    } else {
        assert((first + second).drop_last() =~= first + second.drop_last());
        lemma_pool_concat(pool, pixels, first, second.drop_last());
    }
}

/// The region that `ops` leave behind offers `meta` as the newest frame, and is otherwise the
/// region that the steps of `before_commit` leave behind.
pub open spec fn image_committed(
    m: Seq<u8>,
    ops: Seq<ShmOp>,
    before_commit: Seq<ShmOp>,
    meta: ImageMeta,
) -> bool {
    crate::layout::ShmMetaRegion::of_bytes(crate::memory::run(m, ops))
        == (crate::layout::ShmMetaRegion {
        image: crate::layout::ShmMetaRegion::of_bytes(m).image.published(meta),
        ..crate::layout::ShmMetaRegion::of_bytes(crate::memory::run(m, before_commit))
    })
}

/// What the steps of a frame leave behind.
pub proof fn lemma_image_steps(
    m: Seq<u8>,
    ops: Seq<ShmOp>,
    before_commit: Seq<ShmOp>,
    meta: ImageMeta,
    write_idx: u8,
)
    requires
        crate::memory::sized(m),
        image_steps(ops, before_commit, meta, write_idx),
        all_spare_the_image(before_commit),
        write_idx < 3,
        crate::layout::ShmMetaRegion::of_bytes(m).image.write_idx == write_idx,
    ensures
        image_committed(m, ops, before_commit, meta),
{
    let n = before_commit.len() as int;
    assert(ops =~= seq![ops[0]] + before_commit + seq![ops[n + 1], ops[n + 2]]) by {
        assert forall|i: int| 0 <= i < n implies #[trigger] before_commit[i] == ops[i + 1] by {
            assert(ops.subrange(1, n + 1)[i] == ops[i + 1]);
        }
    }
    crate::memory::lemma_run_one(m, ops[0]);
    crate::memory::lemma_run_concat(m, seq![ops[0]], before_commit);
    crate::memory::lemma_run_concat(
        m,
        seq![ops[0]] + before_commit,
        seq![ops[n + 1], ops[n + 2]],
    );
    let middle = crate::memory::run(m, before_commit);
    lemma_spared(m, before_commit, Seq::empty(), Seq::empty());
    crate::memory::lemma_run_two(middle, ops[n + 1], ops[n + 2]);
    let bytes = ops[n + 1]->bytes;
    crate::region::lemma_image_slot(middle, write_idx as int, bytes@);
    let placed = crate::memory::step(middle, ops[n + 1]);
    crate::region::lemma_image_offer(placed, write_idx | crate::layout::FLAG_NEW);
    crate::region::lemma_parts(m);
    crate::region::lemma_parts(middle);
}

/// A consumer sees nothing of a frame until everything that belongs to it is in place: before the
/// last step the image channel offers what it offered, whatever the other steps do.
pub proof fn law_frame_shows_only_when_complete(
    m: Seq<u8>,
    ops: Seq<ShmOp>,
    before_commit: Seq<ShmOp>,
    meta: ImageMeta,
    write_idx: u8,
    done: int,
)
    requires
        crate::memory::sized(m),
        image_steps(ops, before_commit, meta, write_idx),
        all_spare_the_image(before_commit),
        crate::layout::ShmMetaRegion::of_bytes(m).image.hands().wf(),
        crate::layout::ShmMetaRegion::of_bytes(m).image.write_idx == write_idx,
        0 <= done < ops.len(),
    ensures
        ({
            let now = crate::layout::ShmMetaRegion::of_bytes(
                crate::memory::run(m, ops.subrange(0, done)),
            ).image;
            let was = crate::layout::ShmMetaRegion::of_bytes(m).image;
            now.hands() == was.hands() && now.offer() == was.offer()
        }),
{
    if done == 0 {
        assert(ops.subrange(0, 0) =~= Seq::<ShmOp>::empty());
    } else if done <= before_commit.len() + 1 {
        lemma_before_commit(m, ops, before_commit, meta, write_idx, done);
        lemma_same_image_bytes(m, crate::memory::run(m, ops.subrange(0, done)));
    } else {
        lemma_before_offer(m, ops, before_commit, meta, write_idx);
    }
}

/// Regions with the same bytes in the image channel have the same image channel.
proof fn lemma_same_image_bytes(m: Seq<u8>, after: Seq<u8>)
    requires
        after.subrange(64, 256) == m.subrange(64, 256),
    ensures
        crate::layout::ShmMetaRegion::of_bytes(after).image
            == crate::layout::ShmMetaRegion::of_bytes(m).image,
{
    crate::region::lemma_parts(m);
    crate::region::lemma_parts(after);
}

/// The record that lies in the producer's slot is not offered until the last step.
proof fn lemma_before_offer(
    m: Seq<u8>,
    ops: Seq<ShmOp>,
    before_commit: Seq<ShmOp>,
    meta: ImageMeta,
    write_idx: u8,
)
    requires
        crate::memory::sized(m),
        image_steps(ops, before_commit, meta, write_idx),
        all_spare_the_image(before_commit),
        crate::layout::ShmMetaRegion::of_bytes(m).image.hands().wf(),
        crate::layout::ShmMetaRegion::of_bytes(m).image.write_idx == write_idx,
    ensures
        ({
            let now = crate::layout::ShmMetaRegion::of_bytes(
                crate::memory::run(m, ops.subrange(0, before_commit.len() as int + 2)),
            ).image;
            let was = crate::layout::ShmMetaRegion::of_bytes(m).image;
            now.hands() == was.hands() && now.offer() == was.offer()
        }),
{
    let n = before_commit.len() as int;
    let middle = crate::memory::run(m, ops.subrange(0, n + 1));
    lemma_before_commit(m, ops, before_commit, meta, write_idx, n + 1);
    lemma_same_image_bytes(m, middle);
    crate::memory::lemma_run_prefix(m, ops, n + 1);
    crate::region::lemma_image_slot(middle, write_idx as int, ops[n + 1]->bytes@);
}

/// Up to the record itself the steps of a frame spare the image channel.
proof fn lemma_before_commit(
    m: Seq<u8>,
    ops: Seq<ShmOp>,
    before_commit: Seq<ShmOp>,
    meta: ImageMeta,
    write_idx: u8,
    done: int,
)
    requires
        crate::memory::sized(m),
        image_steps(ops, before_commit, meta, write_idx),
        all_spare_the_image(before_commit),
        1 <= done <= before_commit.len() + 1,
    ensures
        crate::memory::sized(crate::memory::run(m, ops.subrange(0, done))),
        crate::memory::run(m, ops.subrange(0, done)).subrange(64, 256) == m.subrange(64, 256),
{
    let n = before_commit.len() as int;
    let early = before_commit.subrange(0, done - 1);
    assert(ops.subrange(0, done) =~= seq![ops[0]] + early) by {
        assert forall|i: int| 0 <= i < done - 1 implies ops.subrange(0, done)[i + 1]
            == #[trigger] early[i] by {
            assert(ops.subrange(1, n + 1)[i] == ops[i + 1]);
        }
        assert forall|i: int| 0 <= i < done implies #[trigger] ops.subrange(0, done)[i] == (
        seq![ops[0]] + early)[i] by {
            if i > 0 {
                assert(early[i - 1] == ops.subrange(0, done)[i - 1 + 1]);
            }
        }
    }
    assert(all_spare_the_image(early)) by {
        assert forall|i: int| 0 <= i < early.len() implies spares_the_image(
            #[trigger] early[i],
        ) by {
            assert(early[i] == before_commit[i]);
        }
    }
    lemma_spared(m, early, Seq::empty(), Seq::empty());
    crate::memory::lemma_run_one(m, ops[0]);
    crate::memory::lemma_run_concat(m, seq![ops[0]], early);
}

/// What the image pool holds after the steps of a frame: the frame's pixels at its place, and
/// elsewhere what was there.
pub proof fn law_pixels_land_in_their_place(
    pool: Seq<u8>,
    pixels: Seq<u8>,
    ops: Seq<ShmOp>,
    before_commit: Seq<ShmOp>,
    meta: ImageMeta,
    write_idx: u8,
)
    requires
        image_steps(ops, before_commit, meta, write_idx),
        all_spare_the_image(before_commit),
        meta.buffer_id < 3,
    ensures
        crate::memory::run_pool(pool, pixels, ops) == crate::memory::splice(
            pool,
            meta.buffer_id * IMAGE_SIZE,
            pixels,
        ),
{
    let n = before_commit.len() as int;
    let last = seq![ops[n + 1], ops[n + 2]];
    assert(ops =~= seq![ops[0]] + before_commit + last) by {
        assert forall|i: int| 0 <= i < n implies #[trigger] before_commit[i] == ops[i + 1] by {
            assert(ops.subrange(1, n + 1)[i] == ops[i + 1]);
        }
    }
    lemma_pool_concat(pool, pixels, seq![ops[0]] + before_commit, last);
    lemma_pool_concat(pool, pixels, seq![ops[0]], before_commit);
    let placed = crate::memory::splice(pool, meta.buffer_id * IMAGE_SIZE, pixels);
    assert(seq![ops[0]].drop_last() =~= Seq::<ShmOp>::empty());
    reveal_with_fuel(crate::memory::run_pool, 3);
    assert(crate::memory::run_pool(pool, pixels, seq![ops[0]]) == placed);
    lemma_spared(Seq::new(3712, |i: int| 0u8), before_commit, placed, pixels);
    assert(last.drop_last() =~= seq![ops[n + 1]]);
    assert(seq![ops[n + 1]].drop_last() =~= Seq::<ShmOp>::empty());
    assert(crate::memory::run_pool(placed, pixels, seq![ops[n + 1]]) == placed);
    assert(crate::memory::run_pool(placed, pixels, last) == placed);
}

/// A frame spares the pixels of the two frames before it: it fills its own third of the pool, and
/// the other two thirds are as they were.
pub proof fn law_a_frame_spares_the_other_two(pool: Seq<u8>, pixels: Seq<u8>, place: int, other: int)
    requires
        pool.len() == IMAGE_POOL_SIZE,
        pixels.len() == IMAGE_SIZE,
        0 <= place < 3,
        0 <= other < 3,
    ensures
        ({
            let after = crate::memory::splice(pool, place * IMAGE_SIZE, pixels);
            let (from, to) = (other * IMAGE_SIZE, other * IMAGE_SIZE + IMAGE_SIZE);
            &&& after.len() == pool.len()
            &&& other == place ==> after.subrange(from, to) == pixels
            &&& other != place ==> after.subrange(from, to) == pool.subrange(from, to)
        }),
{
    let after = crate::memory::splice(pool, place * IMAGE_SIZE, pixels);
    let (from, to) = (other * IMAGE_SIZE, other * IMAGE_SIZE + IMAGE_SIZE);
    if other == place {
        assert(after.subrange(from, to) =~= pixels);
    } else {
        assert(after.subrange(from, to) =~= pool.subrange(from, to));
    }
}

/// Three frames in a row take three different places.
pub proof fn law_places_take_turns(publisher: ShmPublisher)
    requires
        publisher.wf(),
    ensures
        ({
            let first = publisher.current_buffer_id as int;
            let second = (first + 1) % 3;
            let third = (second + 1) % 3;
            first != second && second != third && first != third && (third + 1) % 3 == first
        }),
{
}

/// Frames go out in the order of their numbers: behind one that went out with its poses only higher
/// numbers go out.
pub proof fn law_frames_go_out_in_order(after: ShmPublisher, sent: u64, next: u64)
    requires
        after.last_synchronized_frame_seq == Some(sent),
    ensures
        after.newer(next) <==> next > sent,
{
}

impl ShmPublisher {
    /// Sends one frame.
    pub fn publish_image(
        &mut self,
        data: &[u8],
        seq: u64,
        timestamp_ns: u64,
        write_idx: u8,
    ) -> (ops: Vec<ShmOp>)
        requires
            data@.len() == IMAGE_SIZE,
            old(self).wf(),
            write_idx < 3,
        ensures
            final(self).wf(),
            final(self).current_buffer_id == (old(self).current_buffer_id + 1) % 3,
            final(self).last_synchronized_frame_seq == old(self).last_synchronized_frame_seq,
            image_steps(
                ops@,
                Seq::empty(),
                image_record(seq, timestamp_ns, old(self).current_buffer_id),
                write_idx,
            ),
            forall|m: Seq<u8>|
                crate::memory::sized(m) && crate::layout::ShmMetaRegion::of_bytes(
                    m,
                ).image.write_idx == write_idx ==> #[trigger] image_committed(
                    m,
                    ops@,
                    Seq::empty(),
                    image_record(seq, timestamp_ns, old(self).current_buffer_id),
                ),
    {
        self.publish_image_with(data, seq, timestamp_ns, write_idx, Vec::new())
    }

    /// Sends one frame, with the steps of `before_commit` between the copy of the pixels and the
    /// record that makes the frame visible.
    ///
    /// `write_idx` is the slot that the image channel's producer owns.
    pub fn publish_image_with(
        &mut self,
        data: &[u8],
        seq: u64,
        timestamp_ns: u64,
        write_idx: u8,
        before_commit: Vec<ShmOp>,
    ) -> (ops: Vec<ShmOp>)
        requires
            data@.len() == IMAGE_SIZE,
            old(self).wf(),
            write_idx < 3,
        ensures
            final(self).wf(),
            final(self).current_buffer_id == (old(self).current_buffer_id + 1) % 3,
            final(self).last_synchronized_frame_seq == old(self).last_synchronized_frame_seq,
            image_steps(
                ops@,
                before_commit@,
                image_record(seq, timestamp_ns, old(self).current_buffer_id),
                write_idx,
            ),
            forall|m: Seq<u8>|
                crate::memory::sized(m) && all_spare_the_image(before_commit@)
                    && crate::layout::ShmMetaRegion::of_bytes(m).image.write_idx == write_idx
                    ==> #[trigger] image_committed(
                    m,
                    ops@,
                    before_commit@,
                    image_record(seq, timestamp_ns, old(self).current_buffer_id),
                ),
    {
        let buffer_id: u8 = self.current_buffer_id;
        self.current_buffer_id = (self.current_buffer_id + 1) % 3;
        let meta = ImageMeta {
            seq,
            timestamp_ns,
            width: IMAGE_WIDTH,
            height: IMAGE_HEIGHT,
            buffer_id,
            format: 0,
        };
        let ghost belongs = before_commit@;
        let mut ops: Vec<ShmOp> = Vec::new();
        ops.push(ShmOp::CopyPixels { at: buffer_id as usize * IMAGE_SIZE });
        let mut rest = before_commit;
        ops.append(&mut rest);
        let bytes = meta.encode();
        ops.push(ShmOp::Copy {
            at: IMAGE_AT + SLOTS_AT + write_idx as usize * IMAGE_META_SIZE,
            bytes,
        });
        ops.push(ShmOp::Exchange {
            state_at: IMAGE_AT + STATE_AT,
            index_at: IMAGE_AT + WRITE_IDX_AT,
            value: offered(write_idx),
        });
        proof {
            assert(ops@.subrange(1, belongs.len() + 1 as int) =~= belongs);
            assert forall|m: Seq<u8>|
                crate::memory::sized(m) && all_spare_the_image(belongs)
                    && crate::layout::ShmMetaRegion::of_bytes(m).image.write_idx
                    == write_idx implies #[trigger] image_committed(
                m,
                ops@,
                belongs,
                meta,
            ) by {
                lemma_image_steps(m, ops@, belongs, meta, write_idx);
            }
        }
        ops
    }

    /// Whether the consumer has taken the last frame and each of its poses. The channel for readers
    /// of the old chassis observation has no part in this.
    pub fn synchronized_frame_consumed(states: &FrameStates) -> (r: bool)
        ensures
            r == states.consumed(),
    {
        let mut consumed: bool = !is_new(states.image);
        let mut i: usize = 0;
        while i < 4
            invariant
                i <= 4,
                consumed == (states.image & crate::layout::FLAG_NEW == 0 && forall|j: int|
                    0 <= j < i ==> #[trigger] states.poses[j] & crate::layout::FLAG_NEW == 0),
            decreases 4 - i,
        {
            if is_new(states.poses[i]) {
                consumed = false;
            }
            i += 1;
        }
        consumed
    }

    /// Sends one frame with what belongs to it, unless it is not newer than the last one that went
    /// out this way, or the consumer still has a part of the last one before it. A frame that is
    /// held back may be of any length, and nothing changes.
    pub fn try_publish_synchronized_image(
        &mut self,
        states: &FrameStates,
        data: &[u8],
        seq: u64,
        timestamp_ns: u64,
        write_idx: u8,
        before_commit: Vec<ShmOp>,
    ) -> (r: Option<Vec<ShmOp>>)
        requires
            old(self).newer(seq) && states.consumed() ==> data@.len() == IMAGE_SIZE && write_idx < 3,
            old(self).wf(),
        ensures
            final(self).wf(),
            r is Some <==> old(self).newer(seq) && states.consumed(),
            r is None ==> *final(self) == *old(self),
            r matches Some(ops) ==> {
                &&& final(self).current_buffer_id == (old(self).current_buffer_id + 1) % 3
                &&& final(self).last_synchronized_frame_seq == Some(seq)
                &&& image_steps(
                    ops@,
                    before_commit@,
                    image_record(seq, timestamp_ns, old(self).current_buffer_id),
                    write_idx,
                )
                &&& forall|m: Seq<u8>|
                    crate::memory::sized(m) && all_spare_the_image(before_commit@)
                        && crate::layout::ShmMetaRegion::of_bytes(m).image.write_idx == write_idx
                        ==> #[trigger] image_committed(
                        m,
                        ops@,
                        before_commit@,
                        image_record(seq, timestamp_ns, old(self).current_buffer_id),
                    )
            },
    {
        if !self.may_go_out(seq, states) {
            return None;
        }
        let ops = self.publish_image_with(data, seq, timestamp_ns, write_idx, before_commit);
        self.last_synchronized_frame_seq = Some(seq);
        Some(ops)
    }

    /// Whether a frame may go out together with its poses: it is newer than all that did, and the
    /// consumer is done with the last.
    pub fn may_go_out(&self, seq: u64, states: &FrameStates) -> (r: bool)
        ensures
            r == (self.newer(seq) && states.consumed()),
    {
        let newer = match self.last_synchronized_frame_seq {
            Some(last) => seq > last,
            None => true,
        };
        newer && Self::synchronized_frame_consumed(states)
    }

    /// A frame numbered `seq` is newer than every one that went out with its poses.
    pub open spec fn newer(&self, seq: u64) -> bool {
        match self.last_synchronized_frame_seq {
            Some(last) => seq > last,
            None => true,
        }
    }
}

/// The record of a frame says which frame it is, how large, and where in the pool it lies.
pub proof fn law_records_describe_their_frame(seq: u64, timestamp_ns: u64, buffer_id: u8)
    ensures
        ({
            let r = image_record(seq, timestamp_ns, buffer_id);
            &&& r.seq == seq
            &&& r.timestamp_ns == timestamp_ns
            &&& r.width == 1440
            &&& r.height == 1080
            &&& r.buffer_id == buffer_id
            &&& r.format == 0
        }),
{
}

/// The consumer is done with a frame exactly where the highest bit is clear in the state of the
/// image channel and of each of the first four pose channels.
pub proof fn law_consumed_states(m: Seq<u8>)
    requires
        crate::memory::sized(m),
    ensures
        FrameStates::of(m).consumed() <==> m[64] < 0x80 && m[256] < 0x80 && m[512] < 0x80 && m[768]
            < 0x80 && m[1024] < 0x80,
{
    let states = FrameStates::of(m);
    crate::abi::law_places_in_the_region(m, 0, 0);
    crate::abi::law_places_in_the_region(m, 1, 0);
    crate::abi::law_places_in_the_region(m, 2, 0);
    crate::abi::law_places_in_the_region(m, 3, 0);
    crate::triple_buffer::lemma_state_bits(m[64]);
    crate::triple_buffer::lemma_state_bits(m[256]);
    crate::triple_buffer::lemma_state_bits(m[512]);
    crate::triple_buffer::lemma_state_bits(m[768]);
    crate::triple_buffer::lemma_state_bits(m[1024]);
    assert(states.poses[0] == m[256]);
    assert(states.poses[1] == m[512]);
    assert(states.poses[2] == m[768]);
    assert(states.poses[3] == m[1024]);
}

/// A region that was just brought up says so in its header, and in each channel the producer owns
/// slot 0, the consumer slot 2, and slot 1 waits, with nothing new in it. No record has changed.
pub proof fn law_new_regions(m: Seq<u8>, after: Seq<u8>, created_ns: u64, heartbeat_ns: u64, k: int)
    requires
        brought_up(m, after, created_ns, heartbeat_ns),
        0 <= k < 5,
    ensures
        ({
            let old_region = crate::layout::ShmMetaRegion::of_bytes(m);
            let region = crate::layout::ShmMetaRegion::of_bytes(after);
            &&& region.header.magic == 0x5441_4c05
            &&& region.header.version == 3
            &&& region.header.created_ns == created_ns
            &&& region.header.heartbeat_ns == heartbeat_ns
            &&& region.header.image_width == 1440
            &&& region.header.image_height == 1080
            &&& region.header.capabilities == 15
            &&& region.image.state == 1 && region.image.write_idx == 0 && region.image.read_idx == 2
            &&& region.poses[k].state == 1 && region.poses[k].write_idx == 0
                && region.poses[k].read_idx == 2
            &&& region.gimbal_cmd.state == 1 && region.gimbal_cmd.write_idx == 0
                && region.gimbal_cmd.read_idx == 2
            &&& region.image.slots == old_region.image.slots
            &&& region.poses[k].slots == old_region.poses[k].slots
            &&& region.gimbal_cmd.slots == old_region.gimbal_cmd.slots
            &&& region.camera_info == old_region.camera_info
            &&& region.chassis_observation == old_region.chassis_observation
            &&& region.ground_truth == old_region.ground_truth
            &&& region.runtime_state == old_region.runtime_state
        }),
{
    let region = crate::layout::ShmMetaRegion::of_bytes(after);
    assert(region.poses[k].initial());
}

/// What it takes to bring the shared memory up: the two names as given, a region and a pool of
/// their fixed sizes, and a publisher that begins at the first place and has sent nothing.
pub proof fn law_new_setups(
    setup: ShmSetup,
    meta_name: Seq<char>,
    image_pool_name: Seq<char>,
    created_ns: u64,
    heartbeat_ns: u64,
)
    requires
        setup.fresh(meta_name, image_pool_name, created_ns, heartbeat_ns),
    ensures
        setup.meta_name@ == meta_name,
        setup.image_pool_name@ == image_pool_name,
        setup.meta_size == 3712,
        setup.image_pool_size == 13_996_800,
        setup.publisher.current_buffer_id == 0,
        setup.publisher.last_synchronized_frame_seq is None,
        forall|seq: u64| #[trigger] setup.publisher.newer(seq),
{
}

/// Behind a frame the region offers its record, in the slot that the producer owned; the consumer
/// keeps its slot and what is in it, and everything else is as the steps before left it.
pub proof fn law_a_frame_takes_the_producers_slot(
    m: Seq<u8>,
    ops: Seq<ShmOp>,
    before_commit: Seq<ShmOp>,
    meta: ImageMeta,
)
    requires
        image_committed(m, ops, before_commit, meta),
        crate::layout::ShmMetaRegion::of_bytes(m).image.hands().wf(),
    ensures
        ({
            let was = crate::layout::ShmMetaRegion::of_bytes(m).image;
            let middle = crate::layout::ShmMetaRegion::of_bytes(
                crate::memory::run(m, before_commit),
            );
            let now = crate::layout::ShmMetaRegion::of_bytes(crate::memory::run(m, ops));
            &&& now.image.slots[was.write_idx as int] == meta
            &&& now.image.state == was.write_idx + 0x80
            &&& now.image.write_idx == was.state % 4
            &&& now.image.read_idx == was.read_idx
            &&& now.image.slots[was.read_idx as int] == was.slots[was.read_idx as int]
            &&& now.header == middle.header
            &&& now.poses == middle.poses
            &&& now.gimbal_cmd == middle.gimbal_cmd
            &&& now.camera_info == middle.camera_info
            &&& now.chassis_observation == middle.chassis_observation
            &&& now.ground_truth == middle.ground_truth
            &&& now.runtime_state == middle.runtime_state
        }),
{
    let was = crate::layout::ShmMetaRegion::of_bytes(m).image;
    crate::triple_buffer::lemma_state_bits(was.state);
    crate::triple_buffer::lemma_state_bits(was.write_idx);
}

/// A frame goes out exactly where it is newer than the last one and the consumer is done with that;
/// one that is held back changes nothing, and one that goes out takes the next place in the pool.
pub proof fn law_calls_of_try_publish_synchronized_image(
    publisher: &mut ShmPublisher,
    states: FrameStates,
    data: &[u8],
    seq: u64,
    timestamp_ns: u64,
    write_idx: u8,
    before_commit: Vec<ShmOp>,
    r: Option<Vec<ShmOp>>,
)
    requires
        call_ensures(
            ShmPublisher::try_publish_synchronized_image,
            (publisher, &states, data, seq, timestamp_ns, write_idx, before_commit),
            r,
        ),
    ensures
        r is Some <==> (old(publisher).last_synchronized_frame_seq is None || seq > old(
            publisher,
        ).last_synchronized_frame_seq->0) && states.image < 0x80 && forall|i: int|
            0 <= i < 4 ==> #[trigger] states.poses[i] < 0x80,
        r is None ==> *final(publisher) == *old(publisher),
        r is Some ==> {
            &&& final(publisher).current_buffer_id == (old(publisher).current_buffer_id + 1) % 3
            &&& final(publisher).last_synchronized_frame_seq == Some(seq)
            &&& r->0@.len() == before_commit@.len() + 3
            &&& r->0@[0] is CopyPixels
            &&& r->0@[0]->CopyPixels_at == (old(publisher).current_buffer_id * 4_665_600) as usize
            &&& r->0@.subrange(1, 1 + before_commit@.len() as int) == before_commit@
            &&& r->0@[r->0@.len() - 2] is Copy
            &&& r->0@[r->0@.len() - 1] is Exchange
        },
{
    lemma_states_are_consumed(states);
}

/// States tell that all is taken exactly where the highest bit of each is clear.
proof fn lemma_states_are_consumed(states: FrameStates)
    ensures
        states.consumed() <==> states.image < 0x80 && forall|i: int|
            0 <= i < 4 ==> #[trigger] states.poses[i] < 0x80,
{
    crate::triple_buffer::lemma_state_bits(states.image);
    assert forall|i: int| 0 <= i < 4 implies (#[trigger] states.poses[i]
        & crate::layout::FLAG_NEW == 0) == (states.poses[i] < 0x80) by {
        crate::triple_buffer::lemma_state_bits(states.poses[i]);
    }
    if states.consumed() {
        assert forall|i: int| 0 <= i < 4 implies #[trigger] states.poses[i] < 0x80 by {
            assert(states.poses[i] & crate::layout::FLAG_NEW == 0);
        }
    }
}

/// A frame may go out exactly under the conditions under which it does.
pub proof fn law_calls_of_may_go_out(
    publisher: ShmPublisher,
    seq: u64,
    states: FrameStates,
    may: bool,
    consumed: bool,
)
    requires
        call_ensures(ShmPublisher::may_go_out, (&publisher, seq, &states), may),
        call_ensures(ShmPublisher::synchronized_frame_consumed, (&states,), consumed),
    ensures
        consumed <==> states.image < 0x80 && forall|i: int|
            0 <= i < 4 ==> #[trigger] states.poses[i] < 0x80,
        may <==> consumed && (publisher.last_synchronized_frame_seq is None || seq
            > publisher.last_synchronized_frame_seq->0),
{
    lemma_states_are_consumed(states);
}

/// Behind the steps of a frame that is published the image channel holds its record in the slot
/// that the producer owned, offered as new, and the publisher goes on to the next place.
pub proof fn law_calls_of_publish_image(
    publisher: &mut ShmPublisher,
    data: &[u8],
    seq: u64,
    timestamp_ns: u64,
    write_idx: u8,
    ops: Vec<ShmOp>,
    m: Seq<u8>,
)
    requires
        call_ensures(
            ShmPublisher::publish_image,
            (publisher, data, seq, timestamp_ns, write_idx),
            ops,
        ),
        crate::memory::sized(m),
        crate::layout::ShmMetaRegion::of_bytes(m).image.write_idx == write_idx,
        crate::layout::ShmMetaRegion::of_bytes(m).image.hands().wf(),
    ensures
        ({
            let before = crate::layout::ShmMetaRegion::of_bytes(m);
            let now = crate::layout::ShmMetaRegion::of_bytes(crate::memory::run(m, ops@));
            let record = now.image.slots[write_idx as int];
            &&& record.seq == seq
            &&& record.timestamp_ns == timestamp_ns
            &&& record.width == 1440
            &&& record.height == 1080
            &&& record.buffer_id == old(publisher).current_buffer_id
            &&& now.image.state == write_idx + 0x80
            &&& now.image.read_idx == before.image.read_idx
            &&& now.header == before.header
            &&& now.poses == before.poses
            &&& now.gimbal_cmd == before.gimbal_cmd
            &&& now.ground_truth == before.ground_truth
        }),
        final(publisher).current_buffer_id == (old(publisher).current_buffer_id + 1) % 3,
        final(publisher).last_synchronized_frame_seq == old(publisher).last_synchronized_frame_seq,
{
    let meta = image_record(seq, timestamp_ns, old(publisher).current_buffer_id);
    assert(image_committed(m, ops@, Seq::empty(), meta));
    assert(crate::memory::run(m, Seq::<ShmOp>::empty()) == m);
    law_a_frame_takes_the_producers_slot(m, ops@, Seq::empty(), meta);
}

/// The shared memory is brought up under its fixed names, or under those of the caller, with its
/// fixed sizes and both times in its header.
pub proof fn law_calls_of_create(
    created_ns: u64,
    heartbeat_ns: u64,
    fixed: ShmSetup,
    meta_name: &str,
    image_pool_name: &str,
    named: ShmSetup,
    m: Seq<u8>,
)
    requires
        call_ensures(ShmPublisher::create, (created_ns, heartbeat_ns), fixed),
        call_ensures(
            ShmPublisher::create_named,
            (meta_name, image_pool_name, created_ns, heartbeat_ns),
            named,
        ),
        crate::memory::sized(m),
    ensures
        fixed.meta_name@ == "talos_ipc_meta"@,
        fixed.image_pool_name@ == "talos_ipc_image_pool"@,
        named.meta_name@ == meta_name@,
        named.image_pool_name@ == image_pool_name@,
        fixed.meta_size == 3712 && named.meta_size == 3712,
        fixed.image_pool_size == 13_996_800 && named.image_pool_size == 13_996_800,
        ({
            let now = crate::layout::ShmMetaRegion::of_bytes(crate::memory::run(m, named.ops@));
            &&& now.header.magic == 0x5441_4c05
            &&& now.header.version == 3
            &&& now.header.created_ns == created_ns
            &&& now.header.heartbeat_ns == heartbeat_ns
            &&& now.header.capabilities == 15
            &&& now.image.state == 1 && now.image.write_idx == 0 && now.image.read_idx == 2
        }),
{
    assert(brought_up(m, crate::memory::run(m, named.ops@), created_ns, heartbeat_ns));
}

/// A frame that is published with what belongs to it: the pixels first, then what belongs to it,
/// and last the record and the offer; behind them the image channel holds the record in the slot
/// that the producer owned, and the rest is as what belongs to the frame left it.
pub proof fn law_calls_of_publish_image_with(
    publisher: &mut ShmPublisher,
    data: &[u8],
    seq: u64,
    timestamp_ns: u64,
    write_idx: u8,
    before_commit: Vec<ShmOp>,
    ops: Vec<ShmOp>,
    m: Seq<u8>,
)
    requires
        call_ensures(
            ShmPublisher::publish_image_with,
            (publisher, data, seq, timestamp_ns, write_idx, before_commit),
            ops,
        ),
        crate::memory::sized(m),
        all_spare_the_image(before_commit@),
        crate::layout::ShmMetaRegion::of_bytes(m).image.write_idx == write_idx,
        crate::layout::ShmMetaRegion::of_bytes(m).image.hands().wf(),
    ensures
        ({
            let middle = crate::layout::ShmMetaRegion::of_bytes(
                crate::memory::run(m, before_commit@),
            );
            let now = crate::layout::ShmMetaRegion::of_bytes(crate::memory::run(m, ops@));
            let record = now.image.slots[write_idx as int];
            &&& record.seq == seq
            &&& record.timestamp_ns == timestamp_ns
            &&& record.width == 1440
            &&& record.height == 1080
            &&& record.buffer_id == old(publisher).current_buffer_id
            &&& now.image.state == write_idx + 0x80
            &&& now.poses == middle.poses
            &&& now.chassis_observation == middle.chassis_observation
            &&& now.ground_truth == middle.ground_truth
            &&& now.header == middle.header
        }),
        ops@.len() == before_commit@.len() + 3,
        ops@[0] is CopyPixels,
        ops@[ops@.len() - 1] is Exchange,
        final(publisher).current_buffer_id == (old(publisher).current_buffer_id + 1) % 3,
        final(publisher).last_synchronized_frame_seq == old(publisher).last_synchronized_frame_seq,
{
    let meta = image_record(seq, timestamp_ns, old(publisher).current_buffer_id);
    assert(image_committed(m, ops@, before_commit@, meta));
    law_a_frame_takes_the_producers_slot(m, ops@, before_commit@, meta);
}

} // verus!
