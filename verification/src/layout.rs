//! What the shared metadata region holds, and where.
use crate::float::{F32, F64};
use vstd::prelude::*;

verus! {

pub const IMAGE_WIDTH: u32 = 1440;

pub const IMAGE_HEIGHT: u32 = 1080;

pub const IMAGE_CHANNELS: u32 = 3;

/// The bytes of one frame: width times height times channels.
pub const IMAGE_SIZE: usize = 4_665_600;

/// Room for three frames.
pub const IMAGE_POOL_SIZE: usize = 13_996_800;

pub const CACHE_LINE_SIZE: usize = 64;

pub const SHM_MAGIC: u32 = 0x54414C05;

/// The protocol's generation. It rises whenever the meaning of a field changes, also where the
/// byte layout stays: an older reader would otherwise go on computing with wrong numbers.
pub const SHM_VERSION: u32 = 3;

/// The ground truth area is filled.
pub const CAP_GROUND_TRUTH: u32 = 1;

/// The muzzle channel carries a world pose.
pub const CAP_MUZZLE_WORLD_POSE: u32 = 2;

/// The chassis observation area is filled.
pub const CAP_CHASSIS_OBSERVATION: u32 = 4;

/// The runtime state area is filled.
pub const CAP_RUNTIME_STATE: u32 = 8;

/// All that the simulator itself fills.
pub const SIMULATOR_CAPABILITIES: u32 = 15;

pub const SHM_NAME_META: &'static str = "talos_ipc_meta";

pub const SHM_NAME_IMAGE_POOL: &'static str = "talos_ipc_image_pool";

/// Set in a triple buffer's state while its ready slot has not been taken.
pub const FLAG_NEW: u8 = 0x80;

/// The bits of a triple buffer's state that name its ready slot.
pub const INDEX_MASK: u8 = 0x03;

pub const GROUND_TRUTH_MAX_TARGETS: usize = 16;

pub const GROUND_TRUTH_MAX_RUNES: usize = 4;

/// The bytes of a ground truth batch that come before its marker.
pub const GROUND_TRUTH_PAYLOAD_BYTES: usize = 1600;

/// The bytes of a chassis observation that come before its marker.
pub const CHASSIS_OBSERVATION_PAYLOAD_BYTES: usize = 112;

pub const IMAGE_META_SIZE: usize = 32;

pub const POSE_META_SIZE: usize = 64;

pub const GIMBAL_CMD_SIZE: usize = 32;

pub const CAMERA_INFO_SIZE: usize = 128;

pub const CHASSIS_OBSERVATION_SIZE: usize = 128;

pub const SHM_HEADER_SIZE: usize = 64;

pub const GROUND_TRUTH_TARGET_SIZE: usize = 64;

pub const GROUND_TRUTH_RUNE_SIZE: usize = 128;

pub const GROUND_TRUTH_BATCH_SIZE: usize = 1664;

pub const RUNTIME_STATE_SIZE: usize = 64;

pub const IMAGE_TRIPLE_BUFFER_SIZE: usize = 192;

pub const POSE_TRIPLE_BUFFER_SIZE: usize = 256;

pub const GIMBAL_TRIPLE_BUFFER_SIZE: usize = 192;

pub const SHM_META_REGION_SIZE: usize = 3712;

/// What the place of a record in memory is a multiple of.
pub const IMAGE_META_ALIGN: usize = 32;

pub const POSE_META_ALIGN: usize = 64;

pub const GIMBAL_CMD_ALIGN: usize = 32;

pub const CAMERA_INFO_ALIGN: usize = 64;

pub const CHASSIS_OBSERVATION_ALIGN: usize = 64;

pub const SHM_HEADER_ALIGN: usize = 64;

pub const IMAGE_TRIPLE_BUFFER_ALIGN: usize = 64;

pub const POSE_TRIPLE_BUFFER_ALIGN: usize = 64;

pub const GIMBAL_TRIPLE_BUFFER_ALIGN: usize = 64;

/// Where a triple buffer keeps its state byte.
pub const STATE_AT: usize = 0;

/// Where a triple buffer keeps the slot that its producer owns.
pub const WRITE_IDX_AT: usize = 1;

/// Where a triple buffer keeps the slot that its consumer owns.
pub const READ_IDX_AT: usize = 2;

/// Where the slots of a triple buffer begin.
pub const SLOTS_AT: usize = 64;

pub const HEADER_AT: usize = 0;

/// Where the header keeps the time of the last sign of life.
pub const HEARTBEAT_AT: usize = 16;

pub const IMAGE_AT: usize = 64;

pub const POSES_AT: usize = 256;

pub const GIMBAL_CMD_AT: usize = 1536;

pub const CAMERA_INFO_AT: usize = 1728;

pub const CHASSIS_OBSERVATION_AT: usize = 1856;

pub const GROUND_TRUTH_AT: usize = 1984;

pub const RUNTIME_STATE_AT: usize = 3648;

/// Describes the frame in one of the pool's three places.
#[derive(Debug, Clone, Copy)]
pub struct ImageMeta {
    pub seq: u64,
    pub timestamp_ns: u64,
    pub width: u32,
    pub height: u32,
    pub buffer_id: u8,
    pub format: u8,
}

/// A position and an orientation, with four numbers more that a channel may define.
#[derive(Debug, Clone, Copy)]
pub struct PoseMeta {
    pub frame_seq: u64,
    pub position: [F32; 3],
    /// In the order w, x, y, z.
    pub quaternion: [F32; 4],
    pub timestamp_ns: u64,
    pub aux: [F32; 4],
}

/// What the vision process asks of the gimbal.
#[derive(Debug, Clone, Copy)]
pub struct GimbalCmd {
    pub timestamp_ns: u64,
    pub yaw_deg: F32,
    pub pitch_deg: F32,
    pub distance_m: F32,
    pub fire_advice: u8,
    pub command_seq: u64,
}

/// The intrinsics of the capture camera.
#[derive(Debug, Clone, Copy)]
pub struct CameraInfo {
    pub timestamp_ns: u64,
    pub fx: F64,
    pub fy: F64,
    pub cx: F64,
    pub cy: F64,
    pub distortion: [F64; 5],
    pub width: u32,
    pub height: u32,
}

/// The motion of the chassis as its sensors see it.
#[derive(Debug, Clone, Copy)]
pub struct ChassisObservation {
    pub frame_seq: u64,
    pub timestamp_ns: u64,
    pub dt_s: F32,
    pub v_body: [F32; 2],
    pub wz_radps: F32,
    pub wheel_linear_mps: [F32; 4],
    pub wheel_angular_radps: [F32; 4],
    pub a_body: [F32; 2],
    pub alpha_z_radps2: F32,
    pub rpy_rad: [F32; 3],
    pub gyro_xyz_radps: [F32; 3],
    pub accel_xyz_mps2: [F32; 3],
    /// Odd while the record is being written; zero until the first write is complete.
    pub seqlock: u32,
}

/// The newest frame, handed over without locks.
#[derive(Debug, Clone, Copy)]
pub struct ImageTripleBuffer {
    pub state: u8,
    pub write_idx: u8,
    pub read_idx: u8,
    pub slots: [ImageMeta; 3],
}

/// The newest pose of one channel, handed over without locks.
#[derive(Debug, Clone, Copy)]
pub struct PoseTripleBuffer {
    pub state: u8,
    pub write_idx: u8,
    pub read_idx: u8,
    pub slots: [PoseMeta; 3],
}

/// The newest gimbal command, handed over without locks.
#[derive(Debug, Clone, Copy)]
pub struct GimbalTripleBuffer {
    pub state: u8,
    pub write_idx: u8,
    pub read_idx: u8,
    pub slots: [GimbalCmd; 3],
}

/// Says what the region is and who keeps it alive.
#[derive(Debug, Clone, Copy, PartialEq, Eq, Structural)]
pub struct ShmHeader {
    pub magic: u32,
    pub version: u32,
    pub created_ns: u64,
    pub heartbeat_ns: u64,
    pub image_width: u32,
    pub image_height: u32,
    /// Which of the optional areas are filled.
    pub capabilities: u32,
}

/// Where a robot or an outpost really is.
#[derive(Debug, Clone, Copy)]
pub struct GroundTruthTarget {
    pub frame_seq: u64,
    pub timestamp_ns: u64,
    pub team: u8,
    pub armor_label: u8,
    pub is_outpost: u8,
    /// The centre of the vehicle, or of the outpost's rotation.
    pub position: [F32; 3],
    pub vyaw: F32,
    pub yaw: F32,
    /// The plate that faces the camera; without meaning unless `armor_position_valid` is 1.
    pub armor_position: [F32; 3],
    pub armor_position_valid: u8,
    /// Set where the plate is no reference for precision.
    pub armor_position_degraded: u8,
    pub identity: u16,
}

/// Where a power rune really is and how it turns.
#[derive(Debug, Clone, Copy)]
pub struct GroundTruthRune {
    pub frame_seq: u64,
    pub timestamp_ns: u64,
    pub team: u8,
    pub rune_mode: u8,
    pub mechanism_state: u8,
    pub r_center_odom: [F32; 3],
    pub radius: F32,
    pub current_angle: F32,
    pub v_roll: F32,
    pub direction: i32,
    pub sin_amplitude: F32,
    pub sin_omega: F32,
    pub sin_phase: F32,
    pub sin_offset: F32,
    pub relative_time: F32,
    pub blade_id: i32,
    pub target_activations: [u8; 5],
    pub target_point_odom: [F32; 3],
    pub identity: u16,
}

/// All targets and runes of one frame.
#[derive(Debug, Clone, Copy)]
pub struct GroundTruthBatch {
    pub frame_seq: u64,
    pub timestamp_ns: u64,
    pub target_count: u32,
    pub rune_count: u32,
    pub targets: [GroundTruthTarget; 16],
    pub runes: [GroundTruthRune; 4],
    /// Odd while the batch is being written; zero until the first write is complete.
    pub seqlock: u32,
}

/// Whether the simulator follows the vision process.
#[derive(Debug, Clone, Copy, PartialEq, Eq, Structural)]
pub struct RuntimeState {
    pub timestamp_ns: u64,
    pub following: u8,
}

/// The whole metadata region.
#[derive(Debug, Clone, Copy)]
pub struct ShmMetaRegion {
    pub header: ShmHeader,
    pub image: ImageTripleBuffer,
    pub poses: [PoseTripleBuffer; 5],
    pub gimbal_cmd: GimbalTripleBuffer,
    pub camera_info: CameraInfo,
    pub chassis_observation: ChassisObservation,
    pub ground_truth: GroundTruthBatch,
    pub runtime_state: RuntimeState,
}

/// The pose channels. Each has its own frame of reference:
///
/// - `Gimbal`: no position; the barrel's orientation in the world.
/// - `Odom`: the position of the gimbal's centre in the world; no orientation.
/// - `Muzzle`: position and orientation of the muzzle in the world.
/// - `Camera`: the position of the camera relative to the gimbal; no orientation.
/// - `ChassisObservation`: for readers that do not yet use the observation area.
#[derive(Debug, Clone, Copy, PartialEq, Eq, Structural)]
pub enum PoseIndex {
    Gimbal,
    Odom,
    Muzzle,
    Camera,
    ChassisObservation,
}

impl PoseIndex {
    /// The channel's place in the region.
    pub open spec fn place(self) -> int {
        match self {
            PoseIndex::Gimbal => 0,
            PoseIndex::Odom => 1,
            PoseIndex::Muzzle => 2,
            PoseIndex::Camera => 3,
            PoseIndex::ChassisObservation => 4,
        }
    }

    /// The channel's place in the region.
    pub fn index(self) -> (r: usize)
        ensures
            r == self.place(),
    {
        match self {
            PoseIndex::Gimbal => 0,
            PoseIndex::Odom => 1,
            PoseIndex::Muzzle => 2,
            PoseIndex::Camera => 3,
            PoseIndex::ChassisObservation => 4,
        }
    }
}

/// Three zeros.
pub open spec fn zero3() -> [F32; 3] {
    [F32 { bits: 0 }, F32 { bits: 0 }, F32 { bits: 0 }]
}

/// Four zeros.
pub open spec fn zero4() -> [F32; 4] {
    [F32 { bits: 0 }, F32 { bits: 0 }, F32 { bits: 0 }, F32 { bits: 0 }]
}

/// Three zeros.
pub fn zeros3() -> (r: [F32; 3])
    ensures
        r == zero3(),
{
    [F32 { bits: 0 }, F32 { bits: 0 }, F32 { bits: 0 }]
}

/// Four zeros.
pub fn zeros4() -> (r: [F32; 4])
    ensures
        r == zero4(),
{
    [F32 { bits: 0 }, F32 { bits: 0 }, F32 { bits: 0 }, F32 { bits: 0 }]
}

impl ImageMeta {
    pub open spec fn blank() -> ImageMeta {
        ImageMeta { seq: 0, timestamp_ns: 0, width: 0, height: 0, buffer_id: 0, format: 0 }
    }
}

impl Default for ImageMeta {
    fn default() -> (r: Self)
        ensures
            r == ImageMeta::blank(),
    {
        ImageMeta { seq: 0, timestamp_ns: 0, width: 0, height: 0, buffer_id: 0, format: 0 }
    }
}

impl PoseMeta {
    pub open spec fn blank() -> PoseMeta {
        PoseMeta {
            frame_seq: 0,
            position: zero3(),
            quaternion: zero4(),
            timestamp_ns: 0,
            aux: zero4(),
        }
    }
}

impl Default for PoseMeta {
    fn default() -> (r: Self)
        ensures
            r == PoseMeta::blank(),
    {
        PoseMeta {
            frame_seq: 0,
            position: zeros3(),
            quaternion: zeros4(),
            timestamp_ns: 0,
            aux: zeros4(),
        }
    }
}

impl GimbalCmd {
    pub open spec fn blank() -> GimbalCmd {
        GimbalCmd {
            timestamp_ns: 0,
            yaw_deg: F32 { bits: 0 },
            pitch_deg: F32 { bits: 0 },
            distance_m: F32 { bits: 0 },
            fire_advice: 0,
            command_seq: 0,
        }
    }
}

impl Default for GimbalCmd {
    fn default() -> (r: Self)
        ensures
            r == GimbalCmd::blank(),
    {
        GimbalCmd {
            timestamp_ns: 0,
            yaw_deg: F32 { bits: 0 },
            pitch_deg: F32 { bits: 0 },
            distance_m: F32 { bits: 0 },
            fire_advice: 0,
            command_seq: 0,
        }
    }
}

impl CameraInfo {
    pub open spec fn blank() -> CameraInfo {
        CameraInfo {
            timestamp_ns: 0,
            fx: F64 { bits: 0 },
            fy: F64 { bits: 0 },
            cx: F64 { bits: 0 },
            cy: F64 { bits: 0 },
            distortion: [
                F64 { bits: 0 },
                F64 { bits: 0 },
                F64 { bits: 0 },
                F64 { bits: 0 },
                F64 { bits: 0 },
            ],
            width: 0,
            height: 0,
        }
    }
}

impl Default for CameraInfo {
    fn default() -> (r: Self)
        ensures
            r == CameraInfo::blank(),
    {
        CameraInfo {
            timestamp_ns: 0,
            fx: F64 { bits: 0 },
            fy: F64 { bits: 0 },
            cx: F64 { bits: 0 },
            cy: F64 { bits: 0 },
            distortion: [
                F64 { bits: 0 },
                F64 { bits: 0 },
                F64 { bits: 0 },
                F64 { bits: 0 },
                F64 { bits: 0 },
            ],
            width: 0,
            height: 0,
        }
    }
}

impl ChassisObservation {
    pub open spec fn blank() -> ChassisObservation {
        ChassisObservation {
            frame_seq: 0,
            timestamp_ns: 0,
            dt_s: F32 { bits: 0 },
            v_body: [F32 { bits: 0 }, F32 { bits: 0 }],
            wz_radps: F32 { bits: 0 },
            wheel_linear_mps: zero4(),
            wheel_angular_radps: zero4(),
            a_body: [F32 { bits: 0 }, F32 { bits: 0 }],
            alpha_z_radps2: F32 { bits: 0 },
            rpy_rad: zero3(),
            gyro_xyz_radps: zero3(),
            accel_xyz_mps2: zero3(),
            seqlock: 0,
        }
    }
}

impl Default for ChassisObservation {
    fn default() -> (r: Self)
        ensures
            r == ChassisObservation::blank(),
    {
        ChassisObservation {
            frame_seq: 0,
            timestamp_ns: 0,
            dt_s: F32 { bits: 0 },
            v_body: [F32 { bits: 0 }, F32 { bits: 0 }],
            wz_radps: F32 { bits: 0 },
            wheel_linear_mps: zeros4(),
            wheel_angular_radps: zeros4(),
            a_body: [F32 { bits: 0 }, F32 { bits: 0 }],
            alpha_z_radps2: F32 { bits: 0 },
            rpy_rad: zeros3(),
            gyro_xyz_radps: zeros3(),
            accel_xyz_mps2: zeros3(),
            seqlock: 0,
        }
    }
}

impl GroundTruthTarget {
    pub open spec fn blank() -> GroundTruthTarget {
        GroundTruthTarget {
            frame_seq: 0,
            timestamp_ns: 0,
            team: 0,
            armor_label: 0,
            is_outpost: 0,
            position: zero3(),
            vyaw: F32 { bits: 0 },
            yaw: F32 { bits: 0 },
            armor_position: zero3(),
            armor_position_valid: 0,
            armor_position_degraded: 0,
            identity: 0,
        }
    }
}

impl Default for GroundTruthTarget {
    fn default() -> (r: Self)
        ensures
            r == GroundTruthTarget::blank(),
    {
        GroundTruthTarget {
            frame_seq: 0,
            timestamp_ns: 0,
            team: 0,
            armor_label: 0,
            is_outpost: 0,
            position: zeros3(),
            vyaw: F32 { bits: 0 },
            yaw: F32 { bits: 0 },
            armor_position: zeros3(),
            armor_position_valid: 0,
            armor_position_degraded: 0,
            identity: 0,
        }
    }
}

impl GroundTruthRune {
    /// All zero but for the blade, of which there is none.
    pub open spec fn blank() -> GroundTruthRune {
        GroundTruthRune {
            frame_seq: 0,
            timestamp_ns: 0,
            team: 0,
            rune_mode: 0,
            mechanism_state: 0,
            r_center_odom: zero3(),
            radius: F32 { bits: 0 },
            current_angle: F32 { bits: 0 },
            v_roll: F32 { bits: 0 },
            direction: 0,
            sin_amplitude: F32 { bits: 0 },
            sin_omega: F32 { bits: 0 },
            sin_phase: F32 { bits: 0 },
            sin_offset: F32 { bits: 0 },
            relative_time: F32 { bits: 0 },
            blade_id: (-1) as i32,
            target_activations: [0, 0, 0, 0, 0],
            target_point_odom: zero3(),
            identity: 0,
        }
    }
}

impl Default for GroundTruthRune {
    fn default() -> (r: Self)
        ensures
            r == GroundTruthRune::blank(),
    {
        GroundTruthRune {
            frame_seq: 0,
            timestamp_ns: 0,
            team: 0,
            rune_mode: 0,
            mechanism_state: 0,
            r_center_odom: zeros3(),
            radius: F32 { bits: 0 },
            current_angle: F32 { bits: 0 },
            v_roll: F32 { bits: 0 },
            direction: 0,
            sin_amplitude: F32 { bits: 0 },
            sin_omega: F32 { bits: 0 },
            sin_phase: F32 { bits: 0 },
            sin_offset: F32 { bits: 0 },
            relative_time: F32 { bits: 0 },
            blade_id: -1,
            target_activations: [0, 0, 0, 0, 0],
            target_point_odom: zeros3(),
            identity: 0,
        }
    }
}

impl GroundTruthBatch {
    /// Nothing counted and every place blank.
    pub open spec fn is_blank(self) -> bool {
        &&& self.frame_seq == 0
        &&& self.timestamp_ns == 0
        &&& self.target_count == 0
        &&& self.rune_count == 0
        &&& self.seqlock == 0
        &&& forall|i: int|
            0 <= i < GROUND_TRUTH_MAX_TARGETS ==> #[trigger] self.targets[i]
                == GroundTruthTarget::blank()
        &&& forall|i: int|
            0 <= i < GROUND_TRUTH_MAX_RUNES ==> #[trigger] self.runes[i] == GroundTruthRune::blank()
    }
}

impl Default for GroundTruthBatch {
    fn default() -> (r: Self)
        ensures
            r.is_blank(),
    {
        let target = GroundTruthTarget::default();
        let rune = GroundTruthRune::default();
        GroundTruthBatch {
            frame_seq: 0,
            timestamp_ns: 0,
            target_count: 0,
            rune_count: 0,
            targets: [target; 16],
            runes: [rune; 4],
            seqlock: 0,
        }
    }
}

impl Default for RuntimeState {
    fn default() -> (r: Self)
        ensures
            r == (RuntimeState { timestamp_ns: 0, following: 0 }),
    {
        RuntimeState { timestamp_ns: 0, following: 0 }
    }
}

impl ImageTripleBuffer {
    /// Slot 1 is ready but not new, the producer owns slot 0 and the consumer slot 2.
    pub open spec fn initial(self) -> bool {
        self.state == 1 && self.write_idx == 0 && self.read_idx == 2
    }

    /// Puts the three slots into their initial hands.
    pub fn init_state(&mut self)
        ensures
            final(self).initial(),
            final(self).slots == old(self).slots,
    {
        self.state = 1;
        self.write_idx = 0;
        self.read_idx = 2;
    }
}

impl Default for ImageTripleBuffer {
    fn default() -> (r: Self)
        ensures
            r.initial(),
            r.slots == [ImageMeta::blank(), ImageMeta::blank(), ImageMeta::blank()],
    {
        ImageTripleBuffer {
            state: 1,
            write_idx: 0,
            read_idx: 2,
            slots: [ImageMeta::default(), ImageMeta::default(), ImageMeta::default()],
        }
    }
}

impl PoseTripleBuffer {
    /// Slot 1 is ready but not new, the producer owns slot 0 and the consumer slot 2.
    pub open spec fn initial(self) -> bool {
        self.state == 1 && self.write_idx == 0 && self.read_idx == 2
    }

    /// Puts the three slots into their initial hands.
    pub fn init_state(&mut self)
        ensures
            final(self).initial(),
            final(self).slots == old(self).slots,
    {
        self.state = 1;
        self.write_idx = 0;
        self.read_idx = 2;
    }
}

impl Default for PoseTripleBuffer {
    fn default() -> (r: Self)
        ensures
            r.initial(),
            r.slots == [PoseMeta::blank(), PoseMeta::blank(), PoseMeta::blank()],
    {
        PoseTripleBuffer {
            state: 1,
            write_idx: 0,
            read_idx: 2,
            slots: [PoseMeta::default(), PoseMeta::default(), PoseMeta::default()],
        }
    }
}

impl GimbalTripleBuffer {
    /// Slot 1 is ready but not new, the producer owns slot 0 and the consumer slot 2.
    pub open spec fn initial(self) -> bool {
        self.state == 1 && self.write_idx == 0 && self.read_idx == 2
    }

    /// Puts the three slots into their initial hands.
    pub fn init_state(&mut self)
        ensures
            final(self).initial(),
            final(self).slots == old(self).slots,
    {
        self.state = 1;
        self.write_idx = 0;
        self.read_idx = 2;
    }
}

impl Default for GimbalTripleBuffer {
    fn default() -> (r: Self)
        ensures
            r.initial(),
            r.slots == [GimbalCmd::blank(), GimbalCmd::blank(), GimbalCmd::blank()],
    {
        GimbalTripleBuffer {
            state: 1,
            write_idx: 0,
            read_idx: 2,
            slots: [GimbalCmd::default(), GimbalCmd::default(), GimbalCmd::default()],
        }
    }
}

impl ShmHeader {
    /// The header of a region that was made at `created_ns`, last kept alive at `heartbeat_ns`,
    /// and whose optional areas are filled as `capabilities` says.
    pub open spec fn stamped(created_ns: u64, heartbeat_ns: u64, capabilities: u32) -> ShmHeader {
        ShmHeader {
            magic: SHM_MAGIC,
            version: SHM_VERSION,
            created_ns,
            heartbeat_ns,
            image_width: IMAGE_WIDTH,
            image_height: IMAGE_HEIGHT,
            capabilities,
        }
    }
}

impl Default for ShmHeader {
    /// Claims no capability: whoever fills an area declares it.
    fn default() -> (r: Self)
        ensures
            r == ShmHeader::stamped(0, 0, 0),
    {
        ShmHeader {
            magic: SHM_MAGIC,
            version: SHM_VERSION,
            created_ns: 0,
            heartbeat_ns: 0,
            image_width: IMAGE_WIDTH,
            image_height: IMAGE_HEIGHT,
            capabilities: 0,
        }
    }
}

impl Default for ShmMetaRegion {
    fn default() -> (r: Self)
        ensures
            r.header == ShmHeader::stamped(0, 0, 0),
            r.image.initial(),
            r.image.slots == [ImageMeta::blank(), ImageMeta::blank(), ImageMeta::blank()],
            forall|i: int|
                0 <= i < 5 ==> (#[trigger] r.poses[i]).initial() && r.poses[i].slots == [
                    PoseMeta::blank(),
                    PoseMeta::blank(),
                    PoseMeta::blank(),
                ],
            r.gimbal_cmd.initial(),
            r.gimbal_cmd.slots == [GimbalCmd::blank(), GimbalCmd::blank(), GimbalCmd::blank()],
            r.camera_info == CameraInfo::blank(),
            r.chassis_observation == ChassisObservation::blank(),
            r.ground_truth.is_blank(),
            r.runtime_state == (RuntimeState { timestamp_ns: 0, following: 0 }),
    {
        ShmMetaRegion {
            header: ShmHeader::default(),
            image: ImageTripleBuffer::default(),
            poses: [
                PoseTripleBuffer::default(),
                PoseTripleBuffer::default(),
                PoseTripleBuffer::default(),
                PoseTripleBuffer::default(),
                PoseTripleBuffer::default(),
            ],
            gimbal_cmd: GimbalTripleBuffer::default(),
            camera_info: CameraInfo::default(),
            chassis_observation: ChassisObservation::default(),
            ground_truth: GroundTruthBatch::default(),
            runtime_state: RuntimeState::default(),
        }
    }
}

/// The sizes follow from one another as the region's parts follow each other.
pub proof fn law_sizes_add_up()
    ensures
        IMAGE_SIZE == IMAGE_WIDTH * IMAGE_HEIGHT * IMAGE_CHANNELS,
        IMAGE_POOL_SIZE == 3 * IMAGE_SIZE,
        IMAGE_AT == HEADER_AT + SHM_HEADER_SIZE,
        POSES_AT == IMAGE_AT + IMAGE_TRIPLE_BUFFER_SIZE,
        GIMBAL_CMD_AT == POSES_AT + 5 * POSE_TRIPLE_BUFFER_SIZE,
        CAMERA_INFO_AT == GIMBAL_CMD_AT + GIMBAL_TRIPLE_BUFFER_SIZE,
        CHASSIS_OBSERVATION_AT == CAMERA_INFO_AT + CAMERA_INFO_SIZE,
        GROUND_TRUTH_AT == CHASSIS_OBSERVATION_AT + CHASSIS_OBSERVATION_SIZE,
        RUNTIME_STATE_AT == GROUND_TRUTH_AT + GROUND_TRUTH_BATCH_SIZE,
        SHM_META_REGION_SIZE == RUNTIME_STATE_AT + RUNTIME_STATE_SIZE,
{
}

/// In a region that begins on a cache line each record lies where its alignment asks, the slots of
/// the triple buffers among them; and both markers lie on a multiple of their four bytes, as atomic
/// access asks.
pub proof fn law_records_are_aligned(slot: int, channel: int)
    requires
        0 <= slot < 3,
        0 <= channel < 5,
    ensures
        HEADER_AT as int % SHM_HEADER_ALIGN as int == 0,
        IMAGE_AT as int % IMAGE_TRIPLE_BUFFER_ALIGN as int == 0,
        (IMAGE_AT + SLOTS_AT + slot * IMAGE_META_SIZE) % IMAGE_META_ALIGN as int == 0,
        (POSES_AT + channel * POSE_TRIPLE_BUFFER_SIZE) % POSE_TRIPLE_BUFFER_ALIGN as int == 0,
        (POSES_AT + channel * POSE_TRIPLE_BUFFER_SIZE + SLOTS_AT + slot * POSE_META_SIZE)
            % POSE_META_ALIGN as int == 0,
        GIMBAL_CMD_AT as int % GIMBAL_TRIPLE_BUFFER_ALIGN as int == 0,
        (GIMBAL_CMD_AT + SLOTS_AT + slot * GIMBAL_CMD_SIZE) % GIMBAL_CMD_ALIGN as int == 0,
        CAMERA_INFO_AT as int % CAMERA_INFO_ALIGN as int == 0,
        CHASSIS_OBSERVATION_AT as int % CHASSIS_OBSERVATION_ALIGN as int == 0,
        GROUND_TRUTH_AT as int % CACHE_LINE_SIZE as int == 0,
        RUNTIME_STATE_AT as int % CACHE_LINE_SIZE as int == 0,
        (GROUND_TRUTH_AT + GROUND_TRUTH_PAYLOAD_BYTES) % 4 == 0,
        (CHASSIS_OBSERVATION_AT + CHASSIS_OBSERVATION_PAYLOAD_BYTES) % 4 == 0,
{
}

/// The simulator declares each of the four areas, and no bit besides.
pub proof fn law_simulator_declares_every_area()
    ensures
        SIMULATOR_CAPABILITIES == CAP_GROUND_TRUTH | CAP_MUZZLE_WORLD_POSE
            | CAP_CHASSIS_OBSERVATION | CAP_RUNTIME_STATE,
{
    assert(15u32 == 1u32 | 2u32 | 4u32 | 8u32) by (bit_vector);
}

/// A blank record holds nothing: every number in it is zero, but for the blade of a rune, of which
/// there is none.
pub proof fn law_blank_records_hold_nothing(i: int)
    requires
        0 <= i,
    ensures
        i < 3 ==> zero3()[i].bits == 0,
        i < 4 ==> zero4()[i].bits == 0,
        ({
            let r = ImageMeta::blank();
            r.seq == 0 && r.timestamp_ns == 0 && r.width == 0 && r.height == 0 && r.buffer_id == 0
                && r.format == 0
        }),
        ({
            let r = PoseMeta::blank();
            &&& r.frame_seq == 0 && r.timestamp_ns == 0
            &&& i < 3 ==> r.position[i].bits == 0
            &&& i < 4 ==> r.quaternion[i].bits == 0 && r.aux[i].bits == 0
        }),
        ({
            let r = GimbalCmd::blank();
            r.timestamp_ns == 0 && r.yaw_deg.bits == 0 && r.pitch_deg.bits == 0
                && r.distance_m.bits == 0 && r.fire_advice == 0 && r.command_seq == 0
        }),
        ({
            let r = CameraInfo::blank();
            &&& r.timestamp_ns == 0 && r.fx.bits == 0 && r.fy.bits == 0 && r.cx.bits == 0
            &&& r.cy.bits == 0 && r.width == 0 && r.height == 0
            &&& i < 5 ==> r.distortion[i].bits == 0
        }),
        ({
            let r = ChassisObservation::blank();
            &&& r.frame_seq == 0 && r.timestamp_ns == 0 && r.dt_s.bits == 0 && r.wz_radps.bits == 0
            &&& r.alpha_z_radps2.bits == 0 && r.seqlock == 0
            &&& i < 2 ==> r.v_body[i].bits == 0 && r.a_body[i].bits == 0
            &&& i < 3 ==> r.rpy_rad[i].bits == 0 && r.gyro_xyz_radps[i].bits == 0
                && r.accel_xyz_mps2[i].bits == 0
            &&& i < 4 ==> r.wheel_linear_mps[i].bits == 0 && r.wheel_angular_radps[i].bits == 0
        }),
        ({
            let r = GroundTruthTarget::blank();
            &&& r.frame_seq == 0 && r.timestamp_ns == 0 && r.team == 0 && r.armor_label == 0
            &&& r.is_outpost == 0 && r.vyaw.bits == 0 && r.yaw.bits == 0 && r.identity == 0
            &&& r.armor_position_valid == 0 && r.armor_position_degraded == 0
            &&& i < 3 ==> r.position[i].bits == 0 && r.armor_position[i].bits == 0
        }),
        ({
            let r = GroundTruthRune::blank();
            &&& r.frame_seq == 0 && r.timestamp_ns == 0 && r.team == 0 && r.rune_mode == 0
            &&& r.mechanism_state == 0 && r.radius.bits == 0 && r.current_angle.bits == 0
            &&& r.v_roll.bits == 0 && r.direction == 0 && r.sin_amplitude.bits == 0
            &&& r.sin_omega.bits == 0 && r.sin_phase.bits == 0 && r.sin_offset.bits == 0
            &&& r.relative_time.bits == 0 && r.identity == 0
            &&& r.blade_id == -1
            &&& i < 3 ==> r.r_center_odom[i].bits == 0 && r.target_point_odom[i].bits == 0
            &&& i < 5 ==> r.target_activations[i] == 0
        }),
{
}

/// The header says what the region is, when it was made and last kept alive, how large its frames
/// are, and which areas are filled.
pub proof fn law_headers_say_what_the_region_is(
    created_ns: u64,
    heartbeat_ns: u64,
    capabilities: u32,
)
    ensures
        ({
            let r = ShmHeader::stamped(created_ns, heartbeat_ns, capabilities);
            &&& r.magic == 0x5441_4c05
            &&& r.version == 3
            &&& r.created_ns == created_ns
            &&& r.heartbeat_ns == heartbeat_ns
            &&& r.image_width == 1440
            &&& r.image_height == 1080
            &&& r.capabilities == capabilities
        }),
        SIMULATOR_CAPABILITIES == 15,
        IMAGE_SIZE == 4_665_600,
        SHM_META_REGION_SIZE == 3712,
{
}

/// Both parts of the shared memory are found under their names.
pub proof fn law_names_are_fixed()
    ensures
        SHM_NAME_META@ == "talos_ipc_meta"@,
        SHM_NAME_IMAGE_POOL@ == "talos_ipc_image_pool"@,
        SHM_NAME_META@ != SHM_NAME_IMAGE_POOL@,
{
    reveal_strlit("talos_ipc_meta");
    reveal_strlit("talos_ipc_image_pool");
    assert(SHM_NAME_META@.len() != SHM_NAME_IMAGE_POOL@.len());
}

/// A channel's place, and the hands of a new channel: the producer's slot is the first, the
/// consumer's the last, and the one between waits. What lies in the slots stays.
pub proof fn law_calls_of_the_beginnings(
    index: PoseIndex,
    place: usize,
    image: &mut ImageTripleBuffer,
    pose: &mut PoseTripleBuffer,
    gimbal: &mut GimbalTripleBuffer,
    r: (),
)
    requires
        call_ensures(PoseIndex::index, (index,), place),
        call_ensures(ImageTripleBuffer::init_state, (image,), r),
        call_ensures(PoseTripleBuffer::init_state, (pose,), r),
        call_ensures(GimbalTripleBuffer::init_state, (gimbal,), r),
    ensures
        place == 0 <==> index is Gimbal,
        place == 1 <==> index is Odom,
        place == 2 <==> index is Muzzle,
        place == 3 <==> index is Camera,
        place == 4 <==> index is ChassisObservation,
        final(image).state == 1 && final(image).write_idx == 0 && final(image).read_idx == 2,
        final(image).slots == old(image).slots,
        final(pose).state == 1 && final(pose).write_idx == 0 && final(pose).read_idx == 2,
        final(pose).slots == old(pose).slots,
        final(gimbal).state == 1 && final(gimbal).write_idx == 0 && final(gimbal).read_idx == 2,
        final(gimbal).slots == old(gimbal).slots,
{
}

/// New records are blank, and a new region says what it is and claims no area.
pub proof fn law_new_records(
    image: ImageMeta,
    pose: PoseMeta,
    cmd: GimbalCmd,
    target: GroundTruthTarget,
    rune: GroundTruthRune,
    state: RuntimeState,
    header: ShmHeader,
)
    requires
        call_ensures(ImageMeta::default, (), image),
        call_ensures(PoseMeta::default, (), pose),
        call_ensures(GimbalCmd::default, (), cmd),
        call_ensures(GroundTruthTarget::default, (), target),
        call_ensures(GroundTruthRune::default, (), rune),
        call_ensures(RuntimeState::default, (), state),
        call_ensures(ShmHeader::default, (), header),
    ensures
        image == ImageMeta::blank(),
        pose == PoseMeta::blank(),
        cmd == GimbalCmd::blank(),
        target == GroundTruthTarget::blank(),
        rune == GroundTruthRune::blank(),
        state.timestamp_ns == 0 && state.following == 0,
        header.magic == 0x5441_4c05 && header.version == 3 && header.capabilities == 0,
        header.created_ns == 0 && header.heartbeat_ns == 0,
        header.image_width == 1440 && header.image_height == 1080,
{
}

} // verus!
