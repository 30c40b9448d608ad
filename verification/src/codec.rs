//! The byte form of each record.
//!
//! `of_bytes` says which field stands where; `encode` writes a record so that `of_bytes` reads the
//! same record back, with every byte that no field covers left zero.
use crate::layout::{
    CameraInfo, ChassisObservation, GimbalCmd, GimbalTripleBuffer, GroundTruthBatch,
    GroundTruthRune, GroundTruthTarget, ImageMeta, ImageTripleBuffer, PoseMeta, PoseTripleBuffer,
    RuntimeState, ShmHeader, ShmMetaRegion, CAMERA_INFO_SIZE, CHASSIS_OBSERVATION_PAYLOAD_BYTES,
    CHASSIS_OBSERVATION_SIZE, GIMBAL_CMD_SIZE, GROUND_TRUTH_MAX_RUNES,
    GROUND_TRUTH_MAX_TARGETS, GROUND_TRUTH_PAYLOAD_BYTES, GROUND_TRUTH_RUNE_SIZE,
    GROUND_TRUTH_TARGET_SIZE, IMAGE_META_SIZE, POSE_META_SIZE, RUNTIME_STATE_SIZE, SHM_HEADER_SIZE,
};
use crate::wire::{
    extends, f32_at, f64_at, i32_at, lemma_extends, push_bytes, push_f32, push_f64, push_i32,
    push_u16, push_u32, push_u64, push_u8, push_vec3, push_vec4, push_zeros, read_f32, read_u32,
    read_u64, read_vec3, read_vec4, u16_at, u32_at, u64_at, vec3_at, vec4_at, zero_between,
};
use vstd::prelude::*;

verus! {

impl ImageMeta {
    /// The record in its 32 bytes.
    pub open spec fn of_bytes(b: Seq<u8>) -> ImageMeta {
        ImageMeta {
            seq: u64_at(b, 0),
            timestamp_ns: u64_at(b, 8),
            width: u32_at(b, 16),
            height: u32_at(b, 20),
            buffer_id: b[24],
            format: b[25],
        }
    }

    /// Writes the record.
    pub fn encode(&self) -> (out: Vec<u8>)
        ensures
            out@.len() == IMAGE_META_SIZE,
            ImageMeta::of_bytes(out@) == *self,
            zero_between(out@, 26, 32),
    {
        let mut out: Vec<u8> = Vec::new();
        push_u64(&mut out, self.seq);
        push_u64(&mut out, self.timestamp_ns);
        push_u32(&mut out, self.width);
        push_u32(&mut out, self.height);
        push_u8(&mut out, self.buffer_id);
        push_u8(&mut out, self.format);
        push_zeros(&mut out, 6);
        out
    }
}

impl PoseMeta {
    /// The record in its 64 bytes.
    pub open spec fn of_bytes(b: Seq<u8>) -> PoseMeta {
        PoseMeta {
            frame_seq: u64_at(b, 0),
            position: vec3_at(b, 8),
            quaternion: vec4_at(b, 20),
            timestamp_ns: u64_at(b, 40),
            aux: vec4_at(b, 48),
        }
    }

    /// Writes the record.
    pub fn encode(&self) -> (out: Vec<u8>)
        ensures
            out@.len() == POSE_META_SIZE,
            PoseMeta::of_bytes(out@) == *self,
            zero_between(out@, 36, 40),
    {
        let mut out: Vec<u8> = Vec::new();
        push_u64(&mut out, self.frame_seq);
        push_vec3(&mut out, &self.position);
        push_vec4(&mut out, &self.quaternion);
        push_zeros(&mut out, 4);
        push_u64(&mut out, self.timestamp_ns);
        push_vec4(&mut out, &self.aux);
        out
    }

    /// Reads the record.
    pub fn decode(bytes: &[u8]) -> (r: PoseMeta)
        requires
            bytes@.len() == POSE_META_SIZE,
        ensures
            r == PoseMeta::of_bytes(bytes@),
    {
        PoseMeta {
            frame_seq: read_u64(bytes, 0),
            position: read_vec3(bytes, 8),
            quaternion: read_vec4(bytes, 20),
            timestamp_ns: read_u64(bytes, 40),
            aux: read_vec4(bytes, 48),
        }
    }
}

impl GimbalCmd {
    /// The record in its 32 bytes.
    pub open spec fn of_bytes(b: Seq<u8>) -> GimbalCmd {
        GimbalCmd {
            timestamp_ns: u64_at(b, 0),
            yaw_deg: f32_at(b, 8),
            pitch_deg: f32_at(b, 12),
            distance_m: f32_at(b, 16),
            fire_advice: b[20],
            command_seq: u64_at(b, 24),
        }
    }

    /// Writes the record.
    pub fn encode(&self) -> (out: Vec<u8>)
        ensures
            out@.len() == GIMBAL_CMD_SIZE,
            GimbalCmd::of_bytes(out@) == *self,
            zero_between(out@, 21, 24),
    {
        let mut out: Vec<u8> = Vec::new();
        push_u64(&mut out, self.timestamp_ns);
        push_f32(&mut out, self.yaw_deg);
        push_f32(&mut out, self.pitch_deg);
        push_f32(&mut out, self.distance_m);
        push_u8(&mut out, self.fire_advice);
        push_zeros(&mut out, 3);
        push_u64(&mut out, self.command_seq);
        out
    }

    /// Reads the record.
    pub fn decode(bytes: &[u8]) -> (r: GimbalCmd)
        requires
            bytes@.len() == GIMBAL_CMD_SIZE,
        ensures
            r == GimbalCmd::of_bytes(bytes@),
    {
        GimbalCmd {
            timestamp_ns: read_u64(bytes, 0),
            yaw_deg: read_f32(bytes, 8),
            pitch_deg: read_f32(bytes, 12),
            distance_m: read_f32(bytes, 16),
            fire_advice: bytes[20],
            command_seq: read_u64(bytes, 24),
        }
    }
}

impl CameraInfo {
    /// The record in its 128 bytes.
    pub open spec fn of_bytes(b: Seq<u8>) -> CameraInfo {
        CameraInfo {
            timestamp_ns: u64_at(b, 0),
            fx: f64_at(b, 8),
            fy: f64_at(b, 16),
            cx: f64_at(b, 24),
            cy: f64_at(b, 32),
            distortion: [
                f64_at(b, 40),
                f64_at(b, 48),
                f64_at(b, 56),
                f64_at(b, 64),
                f64_at(b, 72),
            ],
            width: u32_at(b, 80),
            height: u32_at(b, 84),
        }
    }

    /// Writes the record.
    pub fn encode(&self) -> (out: Vec<u8>)
        ensures
            out@.len() == CAMERA_INFO_SIZE,
            CameraInfo::of_bytes(out@) == *self,
            zero_between(out@, 88, 128),
    {
        let mut out: Vec<u8> = Vec::new();
        push_u64(&mut out, self.timestamp_ns);
        push_f64(&mut out, self.fx);
        push_f64(&mut out, self.fy);
        push_f64(&mut out, self.cx);
        push_f64(&mut out, self.cy);
        push_f64(&mut out, self.distortion[0]);
        push_f64(&mut out, self.distortion[1]);
        push_f64(&mut out, self.distortion[2]);
        push_f64(&mut out, self.distortion[3]);
        push_f64(&mut out, self.distortion[4]);
        push_u32(&mut out, self.width);
        push_u32(&mut out, self.height);
        push_zeros(&mut out, 40);
        assert(CameraInfo::of_bytes(out@).distortion =~= self.distortion);
        out
    }
}

impl ChassisObservation {
    /// The record in its 128 bytes, of which the last four before the padding are the marker.
    pub open spec fn of_bytes(b: Seq<u8>) -> ChassisObservation {
        ChassisObservation { seqlock: u32_at(b, 112), ..ChassisObservation::of_payload(b) }
    }

    /// The record in the bytes before the marker, with the marker taken as zero.
    pub open spec fn of_payload(b: Seq<u8>) -> ChassisObservation {
        ChassisObservation {
            frame_seq: u64_at(b, 0),
            timestamp_ns: u64_at(b, 8),
            dt_s: f32_at(b, 16),
            v_body: [f32_at(b, 20), f32_at(b, 24)],
            wz_radps: f32_at(b, 28),
            wheel_linear_mps: vec4_at(b, 32),
            wheel_angular_radps: vec4_at(b, 48),
            a_body: [f32_at(b, 64), f32_at(b, 68)],
            alpha_z_radps2: f32_at(b, 72),
            rpy_rad: vec3_at(b, 76),
            gyro_xyz_radps: vec3_at(b, 88),
            accel_xyz_mps2: vec3_at(b, 100),
            seqlock: 0,
        }
    }

    /// Writes the record.
    pub fn encode(&self) -> (out: Vec<u8>)
        ensures
            out@.len() == CHASSIS_OBSERVATION_SIZE,
            ChassisObservation::of_bytes(out@) == *self,
            zero_between(out@, 116, 128),
    {
        let mut out: Vec<u8> = Vec::new();
        push_u64(&mut out, self.frame_seq);
        push_u64(&mut out, self.timestamp_ns);
        push_f32(&mut out, self.dt_s);
        push_f32(&mut out, self.v_body[0]);
        push_f32(&mut out, self.v_body[1]);
        push_f32(&mut out, self.wz_radps);
        push_vec4(&mut out, &self.wheel_linear_mps);
        push_vec4(&mut out, &self.wheel_angular_radps);
        push_f32(&mut out, self.a_body[0]);
        push_f32(&mut out, self.a_body[1]);
        push_f32(&mut out, self.alpha_z_radps2);
        push_vec3(&mut out, &self.rpy_rad);
        push_vec3(&mut out, &self.gyro_xyz_radps);
        push_vec3(&mut out, &self.accel_xyz_mps2);
        push_u32(&mut out, self.seqlock);
        push_zeros(&mut out, 12);
        assert(ChassisObservation::of_bytes(out@).v_body =~= self.v_body);
        assert(ChassisObservation::of_bytes(out@).a_body =~= self.a_body);
        out
    }

    /// Reads the bytes before the marker; the marker of the result is zero.
    pub fn decode_payload(bytes: &[u8]) -> (r: ChassisObservation)
        requires
            bytes@.len() == CHASSIS_OBSERVATION_PAYLOAD_BYTES,
        ensures
            r == ChassisObservation::of_payload(bytes@),
    {
        ChassisObservation {
            frame_seq: read_u64(bytes, 0),
            timestamp_ns: read_u64(bytes, 8),
            dt_s: read_f32(bytes, 16),
            v_body: [read_f32(bytes, 20), read_f32(bytes, 24)],
            wz_radps: read_f32(bytes, 28),
            wheel_linear_mps: read_vec4(bytes, 32),
            wheel_angular_radps: read_vec4(bytes, 48),
            a_body: [read_f32(bytes, 64), read_f32(bytes, 68)],
            alpha_z_radps2: read_f32(bytes, 72),
            rpy_rad: read_vec3(bytes, 76),
            gyro_xyz_radps: read_vec3(bytes, 88),
            accel_xyz_mps2: read_vec3(bytes, 100),
            seqlock: 0,
        }
    }
}

impl ShmHeader {
    /// The record in its 64 bytes.
    pub open spec fn of_bytes(b: Seq<u8>) -> ShmHeader {
        ShmHeader {
            magic: u32_at(b, 0),
            version: u32_at(b, 4),
            created_ns: u64_at(b, 8),
            heartbeat_ns: u64_at(b, 16),
            image_width: u32_at(b, 24),
            image_height: u32_at(b, 28),
            capabilities: u32_at(b, 32),
        }
    }

    /// Writes the record.
    pub fn encode(&self) -> (out: Vec<u8>)
        ensures
            out@.len() == SHM_HEADER_SIZE,
            ShmHeader::of_bytes(out@) == *self,
            zero_between(out@, 36, 64),
    {
        let mut out: Vec<u8> = Vec::new();
        push_u32(&mut out, self.magic);
        push_u32(&mut out, self.version);
        push_u64(&mut out, self.created_ns);
        push_u64(&mut out, self.heartbeat_ns);
        push_u32(&mut out, self.image_width);
        push_u32(&mut out, self.image_height);
        push_u32(&mut out, self.capabilities);
        push_zeros(&mut out, 28);
        out
    }

    /// Reads the record.
    pub fn decode(bytes: &[u8]) -> (r: ShmHeader)
        requires
            bytes@.len() == SHM_HEADER_SIZE,
        ensures
            r == ShmHeader::of_bytes(bytes@),
    {
        ShmHeader {
            magic: read_u32(bytes, 0),
            version: read_u32(bytes, 4),
            created_ns: read_u64(bytes, 8),
            heartbeat_ns: read_u64(bytes, 16),
            image_width: read_u32(bytes, 24),
            image_height: read_u32(bytes, 28),
            capabilities: read_u32(bytes, 32),
        }
    }
}

impl RuntimeState {
    /// The record in its 64 bytes.
    pub open spec fn of_bytes(b: Seq<u8>) -> RuntimeState {
        RuntimeState { timestamp_ns: u64_at(b, 0), following: b[8] }
    }

    /// Writes the record.
    pub fn encode(&self) -> (out: Vec<u8>)
        ensures
            out@.len() == RUNTIME_STATE_SIZE,
            RuntimeState::of_bytes(out@) == *self,
            zero_between(out@, 9, 64),
    {
        let mut out: Vec<u8> = Vec::new();
        push_u64(&mut out, self.timestamp_ns);
        push_u8(&mut out, self.following);
        push_zeros(&mut out, 55);
        out
    }
}

impl GroundTruthTarget {
    /// The record in its 64 bytes.
    pub open spec fn of_bytes(b: Seq<u8>) -> GroundTruthTarget {
        GroundTruthTarget {
            frame_seq: u64_at(b, 0),
            timestamp_ns: u64_at(b, 8),
            team: b[16],
            armor_label: b[17],
            is_outpost: b[18],
            position: vec3_at(b, 20),
            vyaw: f32_at(b, 32),
            yaw: f32_at(b, 36),
            armor_position: vec3_at(b, 40),
            armor_position_valid: b[52],
            armor_position_degraded: b[53],
            identity: u16_at(b, 54),
        }
    }

    /// Writes the record.
    pub fn encode(&self) -> (out: Vec<u8>)
        ensures
            out@.len() == GROUND_TRUTH_TARGET_SIZE,
            GroundTruthTarget::of_bytes(out@) == *self,
            out@[19] == 0,
            zero_between(out@, 56, 64),
    {
        let mut out: Vec<u8> = Vec::new();
        push_u64(&mut out, self.frame_seq);
        push_u64(&mut out, self.timestamp_ns);
        push_u8(&mut out, self.team);
        push_u8(&mut out, self.armor_label);
        push_u8(&mut out, self.is_outpost);
        push_u8(&mut out, 0);
        push_vec3(&mut out, &self.position);
        push_f32(&mut out, self.vyaw);
        push_f32(&mut out, self.yaw);
        push_vec3(&mut out, &self.armor_position);
        push_u8(&mut out, self.armor_position_valid);
        push_u8(&mut out, self.armor_position_degraded);
        push_u16(&mut out, self.identity);
        push_zeros(&mut out, 8);
        out
    }
}

impl GroundTruthRune {
    /// The record in its 128 bytes.
    pub open spec fn of_bytes(b: Seq<u8>) -> GroundTruthRune {
        GroundTruthRune {
            frame_seq: u64_at(b, 0),
            timestamp_ns: u64_at(b, 8),
            team: b[16],
            rune_mode: b[17],
            mechanism_state: b[18],
            r_center_odom: vec3_at(b, 20),
            radius: f32_at(b, 32),
            current_angle: f32_at(b, 36),
            v_roll: f32_at(b, 40),
            direction: i32_at(b, 44),
            sin_amplitude: f32_at(b, 48),
            sin_omega: f32_at(b, 52),
            sin_phase: f32_at(b, 56),
            sin_offset: f32_at(b, 60),
            relative_time: f32_at(b, 64),
            blade_id: i32_at(b, 68),
            target_activations: [b[72], b[73], b[74], b[75], b[76]],
            target_point_odom: vec3_at(b, 80),
            identity: u16_at(b, 92),
        }
    }

    /// Writes the record.
    pub fn encode(&self) -> (out: Vec<u8>)
        ensures
            out@.len() == GROUND_TRUTH_RUNE_SIZE,
            GroundTruthRune::of_bytes(out@) == *self,
            out@[19] == 0,
            zero_between(out@, 77, 80),
            zero_between(out@, 94, 128),
    {
        let mut out: Vec<u8> = Vec::new();
        push_u64(&mut out, self.frame_seq);
        push_u64(&mut out, self.timestamp_ns);
        push_u8(&mut out, self.team);
        push_u8(&mut out, self.rune_mode);
        push_u8(&mut out, self.mechanism_state);
        push_u8(&mut out, 0);
        push_vec3(&mut out, &self.r_center_odom);
        push_f32(&mut out, self.radius);
        push_f32(&mut out, self.current_angle);
        push_f32(&mut out, self.v_roll);
        push_i32(&mut out, self.direction);
        push_f32(&mut out, self.sin_amplitude);
        push_f32(&mut out, self.sin_omega);
        push_f32(&mut out, self.sin_phase);
        push_f32(&mut out, self.sin_offset);
        push_f32(&mut out, self.relative_time);
        push_i32(&mut out, self.blade_id);
        push_u8(&mut out, self.target_activations[0]);
        push_u8(&mut out, self.target_activations[1]);
        push_u8(&mut out, self.target_activations[2]);
        push_u8(&mut out, self.target_activations[3]);
        push_u8(&mut out, self.target_activations[4]);
        push_zeros(&mut out, 3);
        push_vec3(&mut out, &self.target_point_odom);
        push_u16(&mut out, self.identity);
        push_zeros(&mut out, 34);
        assert(GroundTruthRune::of_bytes(out@).target_activations =~= self.target_activations);
        out
    }
}

/// Where a batch keeps its targets.
pub const TARGETS_AT: usize = 32;

/// Where a batch keeps its runes.
pub const RUNES_AT: usize = 1088;

/// The target at place `i` of a batch.
pub open spec fn target_in(b: Seq<u8>, i: int) -> GroundTruthTarget {
    GroundTruthTarget::of_bytes(b.subrange(TARGETS_AT + 64 * i, TARGETS_AT + 64 * i + 64))
}

/// The rune at place `i` of a batch.
pub open spec fn rune_in(b: Seq<u8>, i: int) -> GroundTruthRune {
    GroundTruthRune::of_bytes(b.subrange(RUNES_AT + 128 * i, RUNES_AT + 128 * i + 128))
}

/// What stands inside a prefix is left alone by what follows it.
proof fn lemma_prefix_window(longer: Seq<u8>, shorter: Seq<u8>, from: int, to: int)
    requires
        extends(longer, shorter),
        0 <= from <= to <= shorter.len(),
    ensures
        longer.subrange(from, to) == shorter.subrange(from, to),
{
    assert(longer.subrange(from, to) =~= shorter.subrange(from, to));
}

impl GroundTruthBatch {
    /// The record in its 1664 bytes.
    pub open spec fn of_bytes(b: Seq<u8>) -> GroundTruthBatch {
        GroundTruthBatch { seqlock: u32_at(b, 1600), ..GroundTruthBatch::of_payload(b) }
    }

    /// The record in the bytes before the marker, with the marker taken as zero.
    pub open spec fn of_payload(b: Seq<u8>) -> GroundTruthBatch {
        GroundTruthBatch {
            frame_seq: u64_at(b, 0),
            timestamp_ns: u64_at(b, 8),
            target_count: u32_at(b, 16),
            rune_count: u32_at(b, 20),
            targets: [
                target_in(b, 0),
                target_in(b, 1),
                target_in(b, 2),
                target_in(b, 3),
                target_in(b, 4),
                target_in(b, 5),
                target_in(b, 6),
                target_in(b, 7),
                target_in(b, 8),
                target_in(b, 9),
                target_in(b, 10),
                target_in(b, 11),
                target_in(b, 12),
                target_in(b, 13),
                target_in(b, 14),
                target_in(b, 15),
            ],
            runes: [
                rune_in(b, 0),
                rune_in(b, 1),
                rune_in(b, 2),
                rune_in(b, 3),
            ],
            seqlock: 0,
        }
    }

    /// Writes the bytes before the marker.
    pub fn encode_payload(&self) -> (out: Vec<u8>)
        ensures
            out@.len() == GROUND_TRUTH_PAYLOAD_BYTES,
            GroundTruthBatch::of_payload(out@) == (GroundTruthBatch { seqlock: 0, ..*self }),
            zero_between(out@, 24, 32),
            zero_between(out@, 1056, 1088),
    {
        let mut out: Vec<u8> = Vec::new();
        push_u64(&mut out, self.frame_seq);
        push_u64(&mut out, self.timestamp_ns);
        push_u32(&mut out, self.target_count);
        push_u32(&mut out, self.rune_count);
        push_zeros(&mut out, 8);
        let ghost head = out@;
        proof {
            lemma_extends(out@, head);
        }
        for i in 0..GROUND_TRUTH_MAX_TARGETS
            invariant
                out@.len() == TARGETS_AT + 64 * i,
                head.len() == TARGETS_AT,
                extends(out@, head),
                forall|j: int| 0 <= j < i ==> #[trigger] target_in(out@, j) == self.targets[j],
        {
            let ghost before = out@;
            let record = self.targets[i].encode();
            push_bytes(&mut out, &record);
            proof {
                lemma_extends(out@, head);
                assert(out@.subrange(TARGETS_AT + 64 * i, TARGETS_AT + 64 * i + 64) =~= record@);
                assert forall|j: int| 0 <= j <= i implies #[trigger] target_in(out@, j)
                    == self.targets[j] by {
                    if j < i {
                        lemma_prefix_window(
                            out@,
                            before,
                            TARGETS_AT + 64 * j,
                            TARGETS_AT + 64 * j + 64,
                        );
                        assert(target_in(before, j) == self.targets[j]);
                    }
                }
            }
        }
        let ghost targets = out@;
        push_zeros(&mut out, 32);
        let ghost middle = out@;
        proof {
            lemma_extends(out@, middle);
        }
        for i in 0..GROUND_TRUTH_MAX_RUNES
            invariant
                out@.len() == RUNES_AT + 128 * i,
                middle.len() == RUNES_AT,
                extends(out@, middle),
                forall|j: int| 0 <= j < i ==> #[trigger] rune_in(out@, j) == self.runes[j],
        {
            let ghost before = out@;
            let record = self.runes[i].encode();
            push_bytes(&mut out, &record);
            proof {
                lemma_extends(out@, middle);
                assert(out@.subrange(RUNES_AT + 128 * i, RUNES_AT + 128 * i + 128) =~= record@);
                assert forall|j: int| 0 <= j <= i implies #[trigger] rune_in(out@, j)
                    == self.runes[j] by {
                    if j < i {
                        lemma_prefix_window(out@, before, RUNES_AT + 128 * j, RUNES_AT + 128 * j + 128);
                        assert(rune_in(before, j) == self.runes[j]);
                    }
                }
            }
        }
        proof {
            assert forall|j: int| 0 <= j < GROUND_TRUTH_MAX_TARGETS implies #[trigger] target_in(
                out@,
                j,
            ) == self.targets[j] by {
                lemma_extends(out@, targets);
                lemma_prefix_window(out@, targets, TARGETS_AT + 64 * j, TARGETS_AT + 64 * j + 64);
                assert(target_in(targets, j) == self.targets[j]);
            }
            assert(GroundTruthBatch::of_payload(out@).targets =~= self.targets);
            assert(GroundTruthBatch::of_payload(out@).runes =~= self.runes);
        }
        out
    }
}

impl ImageTripleBuffer {
    /// The buffer in its 192 bytes.
    pub open spec fn of_bytes(b: Seq<u8>) -> ImageTripleBuffer {
        ImageTripleBuffer {
            state: b[0],
            write_idx: b[1],
            read_idx: b[2],
            slots: [
                ImageMeta::of_bytes(b.subrange(64, 96)),
                ImageMeta::of_bytes(b.subrange(96, 128)),
                ImageMeta::of_bytes(b.subrange(128, 160)),
            ],
        }
    }
}

impl PoseTripleBuffer {
    /// The buffer in its 256 bytes.
    pub open spec fn of_bytes(b: Seq<u8>) -> PoseTripleBuffer {
        PoseTripleBuffer {
            state: b[0],
            write_idx: b[1],
            read_idx: b[2],
            slots: [
                PoseMeta::of_bytes(b.subrange(64, 128)),
                PoseMeta::of_bytes(b.subrange(128, 192)),
                PoseMeta::of_bytes(b.subrange(192, 256)),
            ],
        }
    }
}

impl GimbalTripleBuffer {
    /// The buffer in its 192 bytes.
    pub open spec fn of_bytes(b: Seq<u8>) -> GimbalTripleBuffer {
        GimbalTripleBuffer {
            state: b[0],
            write_idx: b[1],
            read_idx: b[2],
            slots: [
                GimbalCmd::of_bytes(b.subrange(64, 96)),
                GimbalCmd::of_bytes(b.subrange(96, 128)),
                GimbalCmd::of_bytes(b.subrange(128, 160)),
            ],
        }
    }
}

impl ShmMetaRegion {
    /// The region in its 3712 bytes.
    #[verifier::opaque]
    pub open spec fn of_bytes(m: Seq<u8>) -> ShmMetaRegion {
        ShmMetaRegion {
            header: ShmHeader::of_bytes(m.subrange(0, 64)),
            image: ImageTripleBuffer::of_bytes(m.subrange(64, 256)),
            poses: [
                PoseTripleBuffer::of_bytes(m.subrange(256, 512)),
                PoseTripleBuffer::of_bytes(m.subrange(512, 768)),
                PoseTripleBuffer::of_bytes(m.subrange(768, 1024)),
                PoseTripleBuffer::of_bytes(m.subrange(1024, 1280)),
                PoseTripleBuffer::of_bytes(m.subrange(1280, 1536)),
            ],
            gimbal_cmd: GimbalTripleBuffer::of_bytes(m.subrange(1536, 1728)),
            camera_info: CameraInfo::of_bytes(m.subrange(1728, 1856)),
            chassis_observation: ChassisObservation::of_bytes(m.subrange(1856, 1984)),
            ground_truth: GroundTruthBatch::of_bytes(m.subrange(1984, 3648)),
            runtime_state: RuntimeState::of_bytes(m.subrange(3648, 3712)),
        }
    }
}

} // verus!
