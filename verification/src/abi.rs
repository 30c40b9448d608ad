//! Where each field of each record lies, byte by byte.
//!
//! The peer is another program, so these places are part of the protocol.
use crate::layout::{
    CameraInfo, ChassisObservation, GimbalCmd, GroundTruthBatch, GroundTruthRune,
    GroundTruthTarget, ImageMeta, PoseMeta, RuntimeState, ShmHeader, ShmMetaRegion,
};
use vstd::prelude::*;

verus! {

/// The number in two bytes, the lower one first.
pub open spec fn half(b: Seq<u8>, at: int) -> int {
    b[at] + 0x100 * b[at + 1]
}

/// The number in four bytes, the lowest one first.
pub open spec fn word(b: Seq<u8>, at: int) -> int {
    half(b, at) + 0x1_0000 * half(b, at + 2)
}

/// The number in eight bytes, the lowest one first.
pub open spec fn double(b: Seq<u8>, at: int) -> int {
    word(b, at) + 0x1_0000_0000 * word(b, at + 4)
}

/// What four bytes mean in two's complement.
pub open spec fn signed(word: int) -> int {
    if word < 0x8000_0000 {
        word
    } else {
        word - 0x1_0000_0000
    }
}

/// Numbers are read with the lowest byte first, and the highest bit of a signed one counts less.
proof fn lemma_reads(b: Seq<u8>, at: int)
    ensures
        crate::wire::u16_at(b, at) == half(b, at),
        crate::wire::u32_at(b, at) == word(b, at),
        crate::wire::u64_at(b, at) == double(b, at),
        crate::wire::i32_at(b, at) == signed(word(b, at)),
{
    reveal(crate::wire::u16_at);
    reveal(crate::wire::u32_at);
    reveal(crate::wire::u64_at);
    let w = crate::wire::u32_at(b, at);
    assert(w < 0x8000_0000 ==> w as i32 == w) by (bit_vector);
    assert(w >= 0x8000_0000 ==> w as i32 == w - 0x1_0000_0000) by (bit_vector);
}

/// Where the fields of a frame lie in its 32 bytes.
pub proof fn law_places_in_image_meta(b: Seq<u8>)
    requires
        b.len() == 32,
    ensures
        ({
            let r = ImageMeta::of_bytes(b);
            &&& r.seq == double(b, 0)
            &&& r.timestamp_ns == double(b, 8)
            &&& r.width == word(b, 16)
            &&& r.height == word(b, 20)
            &&& r.buffer_id == b[24]
            &&& r.format == b[25]
        }),
{
    lemma_reads(b, 0);
    lemma_reads(b, 8);
    lemma_reads(b, 16);
    lemma_reads(b, 20);
}

/// Where the fields of a pose lie in its 64 bytes.
pub proof fn law_places_in_pose_meta(b: Seq<u8>)
    requires
        b.len() == 64,
    ensures
        ({
            let r = PoseMeta::of_bytes(b);
            &&& r.frame_seq == double(b, 0)
            &&& r.position[0].bits == word(b, 8)
            &&& r.position[1].bits == word(b, 12)
            &&& r.position[2].bits == word(b, 16)
            &&& r.quaternion[0].bits == word(b, 20)
            &&& r.quaternion[1].bits == word(b, 24)
            &&& r.quaternion[2].bits == word(b, 28)
            &&& r.quaternion[3].bits == word(b, 32)
            &&& r.timestamp_ns == double(b, 40)
            &&& r.aux[0].bits == word(b, 48)
            &&& r.aux[1].bits == word(b, 52)
            &&& r.aux[2].bits == word(b, 56)
            &&& r.aux[3].bits == word(b, 60)
        }),
{
    lemma_reads(b, 0);
    lemma_reads(b, 8);
    lemma_reads(b, 12);
    lemma_reads(b, 16);
    lemma_reads(b, 20);
    lemma_reads(b, 24);
    lemma_reads(b, 28);
    lemma_reads(b, 32);
    lemma_reads(b, 40);
    lemma_reads(b, 48);
    lemma_reads(b, 52);
    lemma_reads(b, 56);
    lemma_reads(b, 60);
}

/// Where the fields of a gimbal command lie in its 32 bytes.
pub proof fn law_places_in_gimbal_cmd(b: Seq<u8>)
    requires
        b.len() == 32,
    ensures
        ({
            let r = GimbalCmd::of_bytes(b);
            &&& r.timestamp_ns == double(b, 0)
            &&& r.yaw_deg.bits == word(b, 8)
            &&& r.pitch_deg.bits == word(b, 12)
            &&& r.distance_m.bits == word(b, 16)
            &&& r.fire_advice == b[20]
            &&& r.command_seq == double(b, 24)
        }),
{
    lemma_reads(b, 0);
    lemma_reads(b, 8);
    lemma_reads(b, 12);
    lemma_reads(b, 16);
    lemma_reads(b, 24);
}

/// Where the fields of the camera lie in its 128 bytes.
pub proof fn law_places_in_camera_info(b: Seq<u8>)
    requires
        b.len() == 128,
    ensures
        ({
            let r = CameraInfo::of_bytes(b);
            &&& r.timestamp_ns == double(b, 0)
            &&& r.fx.bits == double(b, 8)
            &&& r.fy.bits == double(b, 16)
            &&& r.cx.bits == double(b, 24)
            &&& r.cy.bits == double(b, 32)
            &&& r.distortion[0].bits == double(b, 40)
            &&& r.distortion[1].bits == double(b, 48)
            &&& r.distortion[2].bits == double(b, 56)
            &&& r.distortion[3].bits == double(b, 64)
            &&& r.distortion[4].bits == double(b, 72)
            &&& r.width == word(b, 80)
            &&& r.height == word(b, 84)
        }),
{
    lemma_reads(b, 0);
    lemma_reads(b, 8);
    lemma_reads(b, 16);
    lemma_reads(b, 24);
    lemma_reads(b, 32);
    lemma_reads(b, 40);
    lemma_reads(b, 48);
    lemma_reads(b, 56);
    lemma_reads(b, 64);
    lemma_reads(b, 72);
    lemma_reads(b, 80);
    lemma_reads(b, 84);
}

/// Where the fields of the chassis lie in its 128 bytes.
pub proof fn law_places_in_chassis_observation(b: Seq<u8>)
    requires
        b.len() == 128,
    ensures
        ({
            let r = ChassisObservation::of_bytes(b);
            &&& r.frame_seq == double(b, 0)
            &&& r.timestamp_ns == double(b, 8)
            &&& r.dt_s.bits == word(b, 16)
            &&& r.v_body[0].bits == word(b, 20)
            &&& r.v_body[1].bits == word(b, 24)
            &&& r.wz_radps.bits == word(b, 28)
            &&& r.wheel_linear_mps[0].bits == word(b, 32)
            &&& r.wheel_linear_mps[1].bits == word(b, 36)
            &&& r.wheel_linear_mps[2].bits == word(b, 40)
            &&& r.wheel_linear_mps[3].bits == word(b, 44)
            &&& r.wheel_angular_radps[0].bits == word(b, 48)
            &&& r.wheel_angular_radps[1].bits == word(b, 52)
            &&& r.wheel_angular_radps[2].bits == word(b, 56)
            &&& r.wheel_angular_radps[3].bits == word(b, 60)
            &&& r.a_body[0].bits == word(b, 64)
            &&& r.a_body[1].bits == word(b, 68)
            &&& r.alpha_z_radps2.bits == word(b, 72)
            &&& r.rpy_rad[0].bits == word(b, 76)
            &&& r.rpy_rad[1].bits == word(b, 80)
            &&& r.rpy_rad[2].bits == word(b, 84)
            &&& r.gyro_xyz_radps[0].bits == word(b, 88)
            &&& r.gyro_xyz_radps[1].bits == word(b, 92)
            &&& r.gyro_xyz_radps[2].bits == word(b, 96)
            &&& r.accel_xyz_mps2[0].bits == word(b, 100)
            &&& r.accel_xyz_mps2[1].bits == word(b, 104)
            &&& r.accel_xyz_mps2[2].bits == word(b, 108)
            &&& r.seqlock == word(b, 112)
        }),
{
    lemma_reads(b, 0);
    lemma_reads(b, 8);
    lemma_reads(b, 16);
    lemma_reads(b, 20);
    lemma_reads(b, 24);
    lemma_reads(b, 28);
    lemma_reads(b, 32);
    lemma_reads(b, 36);
    lemma_reads(b, 40);
    lemma_reads(b, 44);
    lemma_reads(b, 48);
    lemma_reads(b, 52);
    lemma_reads(b, 56);
    lemma_reads(b, 60);
    lemma_reads(b, 64);
    lemma_reads(b, 68);
    lemma_reads(b, 72);
    lemma_reads(b, 76);
    lemma_reads(b, 80);
    lemma_reads(b, 84);
    lemma_reads(b, 88);
    lemma_reads(b, 92);
    lemma_reads(b, 96);
    lemma_reads(b, 100);
    lemma_reads(b, 104);
    lemma_reads(b, 108);
    lemma_reads(b, 112);
}

/// Where the fields of the header lie in its 64 bytes.
pub proof fn law_places_in_shm_header(b: Seq<u8>)
    requires
        b.len() == 64,
    ensures
        ({
            let r = ShmHeader::of_bytes(b);
            &&& r.magic == word(b, 0)
            &&& r.version == word(b, 4)
            &&& r.created_ns == double(b, 8)
            &&& r.heartbeat_ns == double(b, 16)
            &&& r.image_width == word(b, 24)
            &&& r.image_height == word(b, 28)
            &&& r.capabilities == word(b, 32)
        }),
{
    lemma_reads(b, 0);
    lemma_reads(b, 4);
    lemma_reads(b, 8);
    lemma_reads(b, 16);
    lemma_reads(b, 24);
    lemma_reads(b, 28);
    lemma_reads(b, 32);
}

/// Where the fields of the state of the simulator lie in its 64 bytes.
pub proof fn law_places_in_runtime_state(b: Seq<u8>)
    requires
        b.len() == 64,
    ensures
        ({
            let r = RuntimeState::of_bytes(b);
            &&& r.timestamp_ns == double(b, 0)
            &&& r.following == b[8]
        }),
{
    lemma_reads(b, 0);
}

/// Where the fields of a target lie in its 64 bytes.
pub proof fn law_places_in_ground_truth_target(b: Seq<u8>)
    requires
        b.len() == 64,
    ensures
        ({
            let r = GroundTruthTarget::of_bytes(b);
            &&& r.frame_seq == double(b, 0)
            &&& r.timestamp_ns == double(b, 8)
            &&& r.team == b[16]
            &&& r.armor_label == b[17]
            &&& r.is_outpost == b[18]
            &&& r.position[0].bits == word(b, 20)
            &&& r.position[1].bits == word(b, 24)
            &&& r.position[2].bits == word(b, 28)
            &&& r.vyaw.bits == word(b, 32)
            &&& r.yaw.bits == word(b, 36)
            &&& r.armor_position[0].bits == word(b, 40)
            &&& r.armor_position[1].bits == word(b, 44)
            &&& r.armor_position[2].bits == word(b, 48)
            &&& r.armor_position_valid == b[52]
            &&& r.armor_position_degraded == b[53]
            &&& r.identity == half(b, 54)
        }),
{
    lemma_reads(b, 0);
    lemma_reads(b, 8);
    lemma_reads(b, 20);
    lemma_reads(b, 24);
    lemma_reads(b, 28);
    lemma_reads(b, 32);
    lemma_reads(b, 36);
    lemma_reads(b, 40);
    lemma_reads(b, 44);
    lemma_reads(b, 48);
    lemma_reads(b, 54);
}

/// Where the fields of a rune lie in its 128 bytes.
pub proof fn law_places_in_ground_truth_rune(b: Seq<u8>)
    requires
        b.len() == 128,
    ensures
        ({
            let r = GroundTruthRune::of_bytes(b);
            &&& r.frame_seq == double(b, 0)
            &&& r.timestamp_ns == double(b, 8)
            &&& r.team == b[16]
            &&& r.rune_mode == b[17]
            &&& r.mechanism_state == b[18]
            &&& r.r_center_odom[0].bits == word(b, 20)
            &&& r.r_center_odom[1].bits == word(b, 24)
            &&& r.r_center_odom[2].bits == word(b, 28)
            &&& r.radius.bits == word(b, 32)
            &&& r.current_angle.bits == word(b, 36)
            &&& r.v_roll.bits == word(b, 40)
            &&& r.direction == signed(word(b, 44))
            &&& r.sin_amplitude.bits == word(b, 48)
            &&& r.sin_omega.bits == word(b, 52)
            &&& r.sin_phase.bits == word(b, 56)
            &&& r.sin_offset.bits == word(b, 60)
            &&& r.relative_time.bits == word(b, 64)
            &&& r.blade_id == signed(word(b, 68))
            &&& r.target_activations[0] == b[72]
            &&& r.target_activations[1] == b[73]
            &&& r.target_activations[2] == b[74]
            &&& r.target_activations[3] == b[75]
            &&& r.target_activations[4] == b[76]
            &&& r.target_point_odom[0].bits == word(b, 80)
            &&& r.target_point_odom[1].bits == word(b, 84)
            &&& r.target_point_odom[2].bits == word(b, 88)
            &&& r.identity == half(b, 92)
        }),
{
    lemma_reads(b, 0);
    lemma_reads(b, 8);
    lemma_reads(b, 20);
    lemma_reads(b, 24);
    lemma_reads(b, 28);
    lemma_reads(b, 32);
    lemma_reads(b, 36);
    lemma_reads(b, 40);
    lemma_reads(b, 44);
    lemma_reads(b, 48);
    lemma_reads(b, 52);
    lemma_reads(b, 56);
    lemma_reads(b, 60);
    lemma_reads(b, 64);
    lemma_reads(b, 68);
    lemma_reads(b, 80);
    lemma_reads(b, 84);
    lemma_reads(b, 88);
    lemma_reads(b, 92);
}

/// Written out, a frame puts each field in its place, and nothing in the places between.
pub proof fn law_calls_of_encode_image_meta(r: ImageMeta, out: Vec<u8>)
    requires
        call_ensures(ImageMeta::encode, (&r,), out),
    ensures
        out@.len() == 32,
        ({
            &&& r.seq == double(out@, 0)
            &&& r.timestamp_ns == double(out@, 8)
            &&& r.width == word(out@, 16)
            &&& r.height == word(out@, 20)
            &&& r.buffer_id == out@[24]
            &&& r.format == out@[25]
        }),
        forall|i: int| 26 <= i < 32 ==> #[trigger] out@[i] == 0,
{
    law_places_in_image_meta(out@);
}

/// Written out, a pose puts each field in its place, and nothing in the places between.
pub proof fn law_calls_of_encode_pose_meta(r: PoseMeta, out: Vec<u8>)
    requires
        call_ensures(PoseMeta::encode, (&r,), out),
    ensures
        out@.len() == 64,
        ({
            &&& r.frame_seq == double(out@, 0)
            &&& r.position[0].bits == word(out@, 8)
            &&& r.position[1].bits == word(out@, 12)
            &&& r.position[2].bits == word(out@, 16)
            &&& r.quaternion[0].bits == word(out@, 20)
            &&& r.quaternion[1].bits == word(out@, 24)
            &&& r.quaternion[2].bits == word(out@, 28)
            &&& r.quaternion[3].bits == word(out@, 32)
            &&& r.timestamp_ns == double(out@, 40)
            &&& r.aux[0].bits == word(out@, 48)
            &&& r.aux[1].bits == word(out@, 52)
            &&& r.aux[2].bits == word(out@, 56)
            &&& r.aux[3].bits == word(out@, 60)
        }),
        forall|i: int| 36 <= i < 40 ==> #[trigger] out@[i] == 0,
{
    law_places_in_pose_meta(out@);
}

/// Read in, a pose takes each field from its place.
pub proof fn law_calls_of_decode_pose_meta(bytes: &[u8], r: PoseMeta)
    requires
        call_ensures(PoseMeta::decode, (bytes,), r),
        bytes@.len() == 64,
    ensures
        ({
            &&& r.frame_seq == double(bytes@, 0)
            &&& r.position[0].bits == word(bytes@, 8)
            &&& r.position[1].bits == word(bytes@, 12)
            &&& r.position[2].bits == word(bytes@, 16)
            &&& r.quaternion[0].bits == word(bytes@, 20)
            &&& r.quaternion[1].bits == word(bytes@, 24)
            &&& r.quaternion[2].bits == word(bytes@, 28)
            &&& r.quaternion[3].bits == word(bytes@, 32)
            &&& r.timestamp_ns == double(bytes@, 40)
            &&& r.aux[0].bits == word(bytes@, 48)
            &&& r.aux[1].bits == word(bytes@, 52)
            &&& r.aux[2].bits == word(bytes@, 56)
            &&& r.aux[3].bits == word(bytes@, 60)
        }),
{
    law_places_in_pose_meta(bytes@);
}

/// Written out, a gimbal command puts each field in its place, and nothing in the places between.
pub proof fn law_calls_of_encode_gimbal_cmd(r: GimbalCmd, out: Vec<u8>)
    requires
        call_ensures(GimbalCmd::encode, (&r,), out),
    ensures
        out@.len() == 32,
        ({
            &&& r.timestamp_ns == double(out@, 0)
            &&& r.yaw_deg.bits == word(out@, 8)
            &&& r.pitch_deg.bits == word(out@, 12)
            &&& r.distance_m.bits == word(out@, 16)
            &&& r.fire_advice == out@[20]
            &&& r.command_seq == double(out@, 24)
        }),
        forall|i: int| 21 <= i < 24 ==> #[trigger] out@[i] == 0,
{
    law_places_in_gimbal_cmd(out@);
}

/// Read in, a gimbal command takes each field from its place.
pub proof fn law_calls_of_decode_gimbal_cmd(bytes: &[u8], r: GimbalCmd)
    requires
        call_ensures(GimbalCmd::decode, (bytes,), r),
        bytes@.len() == 32,
    ensures
        ({
            &&& r.timestamp_ns == double(bytes@, 0)
            &&& r.yaw_deg.bits == word(bytes@, 8)
            &&& r.pitch_deg.bits == word(bytes@, 12)
            &&& r.distance_m.bits == word(bytes@, 16)
            &&& r.fire_advice == bytes@[20]
            &&& r.command_seq == double(bytes@, 24)
        }),
{
    law_places_in_gimbal_cmd(bytes@);
}

/// Written out, the camera puts each field in its place, and nothing in the places between.
pub proof fn law_calls_of_encode_camera_info(r: CameraInfo, out: Vec<u8>)
    requires
        call_ensures(CameraInfo::encode, (&r,), out),
    ensures
        out@.len() == 128,
        ({
            &&& r.timestamp_ns == double(out@, 0)
            &&& r.fx.bits == double(out@, 8)
            &&& r.fy.bits == double(out@, 16)
            &&& r.cx.bits == double(out@, 24)
            &&& r.cy.bits == double(out@, 32)
            &&& r.distortion[0].bits == double(out@, 40)
            &&& r.distortion[1].bits == double(out@, 48)
            &&& r.distortion[2].bits == double(out@, 56)
            &&& r.distortion[3].bits == double(out@, 64)
            &&& r.distortion[4].bits == double(out@, 72)
            &&& r.width == word(out@, 80)
            &&& r.height == word(out@, 84)
        }),
        forall|i: int| 88 <= i < 128 ==> #[trigger] out@[i] == 0,
{
    law_places_in_camera_info(out@);
}

/// Written out, the chassis puts each field in its place, and nothing in the places between.
pub proof fn law_calls_of_encode_chassis_observation(r: ChassisObservation, out: Vec<u8>)
    requires
        call_ensures(ChassisObservation::encode, (&r,), out),
    ensures
        out@.len() == 128,
        ({
            &&& r.frame_seq == double(out@, 0)
            &&& r.timestamp_ns == double(out@, 8)
            &&& r.dt_s.bits == word(out@, 16)
            &&& r.v_body[0].bits == word(out@, 20)
            &&& r.v_body[1].bits == word(out@, 24)
            &&& r.wz_radps.bits == word(out@, 28)
            &&& r.wheel_linear_mps[0].bits == word(out@, 32)
            &&& r.wheel_linear_mps[1].bits == word(out@, 36)
            &&& r.wheel_linear_mps[2].bits == word(out@, 40)
            &&& r.wheel_linear_mps[3].bits == word(out@, 44)
            &&& r.wheel_angular_radps[0].bits == word(out@, 48)
            &&& r.wheel_angular_radps[1].bits == word(out@, 52)
            &&& r.wheel_angular_radps[2].bits == word(out@, 56)
            &&& r.wheel_angular_radps[3].bits == word(out@, 60)
            &&& r.a_body[0].bits == word(out@, 64)
            &&& r.a_body[1].bits == word(out@, 68)
            &&& r.alpha_z_radps2.bits == word(out@, 72)
            &&& r.rpy_rad[0].bits == word(out@, 76)
            &&& r.rpy_rad[1].bits == word(out@, 80)
            &&& r.rpy_rad[2].bits == word(out@, 84)
            &&& r.gyro_xyz_radps[0].bits == word(out@, 88)
            &&& r.gyro_xyz_radps[1].bits == word(out@, 92)
            &&& r.gyro_xyz_radps[2].bits == word(out@, 96)
            &&& r.accel_xyz_mps2[0].bits == word(out@, 100)
            &&& r.accel_xyz_mps2[1].bits == word(out@, 104)
            &&& r.accel_xyz_mps2[2].bits == word(out@, 108)
            &&& r.seqlock == word(out@, 112)
        }),
        forall|i: int| 116 <= i < 128 ==> #[trigger] out@[i] == 0,
{
    law_places_in_chassis_observation(out@);
}

/// Written out, the header puts each field in its place, and nothing in the places between.
pub proof fn law_calls_of_encode_shm_header(r: ShmHeader, out: Vec<u8>)
    requires
        call_ensures(ShmHeader::encode, (&r,), out),
    ensures
        out@.len() == 64,
        ({
            &&& r.magic == word(out@, 0)
            &&& r.version == word(out@, 4)
            &&& r.created_ns == double(out@, 8)
            &&& r.heartbeat_ns == double(out@, 16)
            &&& r.image_width == word(out@, 24)
            &&& r.image_height == word(out@, 28)
            &&& r.capabilities == word(out@, 32)
        }),
        forall|i: int| 36 <= i < 64 ==> #[trigger] out@[i] == 0,
{
    law_places_in_shm_header(out@);
}

/// Read in, the header takes each field from its place.
pub proof fn law_calls_of_decode_shm_header(bytes: &[u8], r: ShmHeader)
    requires
        call_ensures(ShmHeader::decode, (bytes,), r),
        bytes@.len() == 64,
    ensures
        ({
            &&& r.magic == word(bytes@, 0)
            &&& r.version == word(bytes@, 4)
            &&& r.created_ns == double(bytes@, 8)
            &&& r.heartbeat_ns == double(bytes@, 16)
            &&& r.image_width == word(bytes@, 24)
            &&& r.image_height == word(bytes@, 28)
            &&& r.capabilities == word(bytes@, 32)
        }),
{
    law_places_in_shm_header(bytes@);
}

/// Written out, the state of the simulator puts each field in its place, and nothing in the places
/// between.
pub proof fn law_calls_of_encode_runtime_state(r: RuntimeState, out: Vec<u8>)
    requires
        call_ensures(RuntimeState::encode, (&r,), out),
    ensures
        out@.len() == 64,
        ({
            &&& r.timestamp_ns == double(out@, 0)
            &&& r.following == out@[8]
        }),
        forall|i: int| 9 <= i < 64 ==> #[trigger] out@[i] == 0,
{
    law_places_in_runtime_state(out@);
}

/// Written out, a target puts each field in its place, and nothing in the places between.
pub proof fn law_calls_of_encode_ground_truth_target(r: GroundTruthTarget, out: Vec<u8>)
    requires
        call_ensures(GroundTruthTarget::encode, (&r,), out),
    ensures
        out@.len() == 64,
        ({
            &&& r.frame_seq == double(out@, 0)
            &&& r.timestamp_ns == double(out@, 8)
            &&& r.team == out@[16]
            &&& r.armor_label == out@[17]
            &&& r.is_outpost == out@[18]
            &&& r.position[0].bits == word(out@, 20)
            &&& r.position[1].bits == word(out@, 24)
            &&& r.position[2].bits == word(out@, 28)
            &&& r.vyaw.bits == word(out@, 32)
            &&& r.yaw.bits == word(out@, 36)
            &&& r.armor_position[0].bits == word(out@, 40)
            &&& r.armor_position[1].bits == word(out@, 44)
            &&& r.armor_position[2].bits == word(out@, 48)
            &&& r.armor_position_valid == out@[52]
            &&& r.armor_position_degraded == out@[53]
            &&& r.identity == half(out@, 54)
        }),
        out@[19] == 0,
        forall|i: int| 56 <= i < 64 ==> #[trigger] out@[i] == 0,
{
    law_places_in_ground_truth_target(out@);
}

/// Written out, a rune puts each field in its place, and nothing in the places between.
pub proof fn law_calls_of_encode_ground_truth_rune(r: GroundTruthRune, out: Vec<u8>)
    requires
        call_ensures(GroundTruthRune::encode, (&r,), out),
    ensures
        out@.len() == 128,
        ({
            &&& r.frame_seq == double(out@, 0)
            &&& r.timestamp_ns == double(out@, 8)
            &&& r.team == out@[16]
            &&& r.rune_mode == out@[17]
            &&& r.mechanism_state == out@[18]
            &&& r.r_center_odom[0].bits == word(out@, 20)
            &&& r.r_center_odom[1].bits == word(out@, 24)
            &&& r.r_center_odom[2].bits == word(out@, 28)
            &&& r.radius.bits == word(out@, 32)
            &&& r.current_angle.bits == word(out@, 36)
            &&& r.v_roll.bits == word(out@, 40)
            &&& r.direction == signed(word(out@, 44))
            &&& r.sin_amplitude.bits == word(out@, 48)
            &&& r.sin_omega.bits == word(out@, 52)
            &&& r.sin_phase.bits == word(out@, 56)
            &&& r.sin_offset.bits == word(out@, 60)
            &&& r.relative_time.bits == word(out@, 64)
            &&& r.blade_id == signed(word(out@, 68))
            &&& r.target_activations[0] == out@[72]
            &&& r.target_activations[1] == out@[73]
            &&& r.target_activations[2] == out@[74]
            &&& r.target_activations[3] == out@[75]
            &&& r.target_activations[4] == out@[76]
            &&& r.target_point_odom[0].bits == word(out@, 80)
            &&& r.target_point_odom[1].bits == word(out@, 84)
            &&& r.target_point_odom[2].bits == word(out@, 88)
            &&& r.identity == half(out@, 92)
        }),
        out@[19] == 0,
        forall|i: int| 77 <= i < 80 ==> #[trigger] out@[i] == 0,
        forall|i: int| 94 <= i < 128 ==> #[trigger] out@[i] == 0,
{
    law_places_in_ground_truth_rune(out@);
}

/// Where the parts of the ground truth lie: its head, sixteen targets, four runes and the marker.
pub proof fn law_places_in_ground_truth_batch(b: Seq<u8>, i: int)
    requires
        b.len() == 1664,
        0 <= i,
    ensures
        ({
            let r = GroundTruthBatch::of_bytes(b);
            &&& r.frame_seq == double(b, 0)
            &&& r.timestamp_ns == double(b, 8)
            &&& r.target_count == word(b, 16)
            &&& r.rune_count == word(b, 20)
            &&& r.seqlock == word(b, 1600)
            &&& i < 16 ==> r.targets[i] == GroundTruthTarget::of_bytes(
                b.subrange(32 + 64 * i, 96 + 64 * i),
            )
            &&& i < 4 ==> r.runes[i] == GroundTruthRune::of_bytes(
                b.subrange(1088 + 128 * i, 1216 + 128 * i),
            )
        }),
{
    lemma_reads(b, 0);
    lemma_reads(b, 8);
    lemma_reads(b, 16);
    lemma_reads(b, 20);
    lemma_reads(b, 1600);
}

/// Where the records lie in the region, and who owns which slot of a channel.
pub proof fn law_places_in_the_region(m: Seq<u8>, k: int, i: int)
    requires
        crate::memory::sized(m),
        0 <= k < 5,
        0 <= i < 3,
    ensures
        ({
            let r = ShmMetaRegion::of_bytes(m);
            &&& r.header == ShmHeader::of_bytes(m.subrange(0, 64))
            &&& r.image.state == m[64] && r.image.write_idx == m[65] && r.image.read_idx == m[66]
            &&& r.image.slots[i] == ImageMeta::of_bytes(m.subrange(128 + 32 * i, 160 + 32 * i))
            &&& r.poses[k].state == m[256 + 256 * k]
            &&& r.poses[k].write_idx == m[257 + 256 * k]
            &&& r.poses[k].read_idx == m[258 + 256 * k]
            &&& r.poses[k].slots[i] == PoseMeta::of_bytes(
                m.subrange(320 + 256 * k + 64 * i, 384 + 256 * k + 64 * i),
            )
            &&& r.gimbal_cmd.state == m[1536]
            &&& r.gimbal_cmd.write_idx == m[1537]
            &&& r.gimbal_cmd.read_idx == m[1538]
            &&& r.gimbal_cmd.slots[i] == GimbalCmd::of_bytes(
                m.subrange(1600 + 32 * i, 1632 + 32 * i),
            )
            &&& r.camera_info == CameraInfo::of_bytes(m.subrange(1728, 1856))
            &&& r.chassis_observation == ChassisObservation::of_bytes(m.subrange(1856, 1984))
            &&& r.ground_truth == GroundTruthBatch::of_bytes(m.subrange(1984, 3648))
            &&& r.runtime_state == RuntimeState::of_bytes(m.subrange(3648, 3712))
        }),
{
    reveal(ShmMetaRegion::of_bytes);
    assert(m.subrange(64, 256).subrange(64 + 32 * i, 96 + 32 * i) =~= m.subrange(
        128 + 32 * i,
        160 + 32 * i,
    ));
    let channel = m.subrange(256 + 256 * k, 512 + 256 * k);
    assert(channel.subrange(64 + 64 * i, 128 + 64 * i) =~= m.subrange(
        320 + 256 * k + 64 * i,
        384 + 256 * k + 64 * i,
    ));
    assert(m.subrange(1536, 1728).subrange(64 + 32 * i, 96 + 32 * i) =~= m.subrange(
        1600 + 32 * i,
        1632 + 32 * i,
    ));
}

/// The payload of the ground truth, written out and read in.
pub proof fn law_calls_of_encode_payload(r: GroundTruthBatch, out: Vec<u8>, i: int)
    requires
        call_ensures(GroundTruthBatch::encode_payload, (&r,), out),
        0 <= i,
    ensures
        out@.len() == 1600,
        r.frame_seq == double(out@, 0),
        r.timestamp_ns == double(out@, 8),
        r.target_count == word(out@, 16),
        r.rune_count == word(out@, 20),
        i < 16 ==> r.targets[i] == GroundTruthTarget::of_bytes(
            out@.subrange(32 + 64 * i, 96 + 64 * i),
        ),
        i < 4 ==> r.runes[i] == GroundTruthRune::of_bytes(
            out@.subrange(1088 + 128 * i, 1216 + 128 * i),
        ),
{
    lemma_reads(out@, 0);
    lemma_reads(out@, 8);
    lemma_reads(out@, 16);
    lemma_reads(out@, 20);
    let read = GroundTruthBatch::of_payload(out@);
    assert(read.frame_seq == r.frame_seq);
    if i < 16 {
        assert(read.targets[i] == r.targets[i]);
    }
    if i < 4 {
        assert(read.runes[i] == r.runes[i]);
    }
}

/// What is appended stands behind what was there, the lowest byte first.
pub proof fn law_calls_of_push(
    byte_out: &mut Vec<u8>,
    byte: u8,
    half_out: &mut Vec<u8>,
    short: u16,
    word_out: &mut Vec<u8>,
    long: u32,
    double_out: &mut Vec<u8>,
    longer: u64,
    r: (),
)
    requires
        call_ensures(crate::wire::push_u8, (byte_out, byte), r),
        call_ensures(crate::wire::push_u16, (half_out, short), r),
        call_ensures(crate::wire::push_u32, (word_out, long), r),
        call_ensures(crate::wire::push_u64, (double_out, longer), r),
    ensures
        final(byte_out)@ == old(byte_out)@.push(byte),
        final(half_out)@.len() == old(half_out)@.len() + 2,
        half(final(half_out)@, old(half_out)@.len() as int) == short,
        final(half_out)@.subrange(0, old(half_out)@.len() as int) == old(half_out)@,
        final(word_out)@.len() == old(word_out)@.len() + 4,
        word(final(word_out)@, old(word_out)@.len() as int) == long,
        final(word_out)@.subrange(0, old(word_out)@.len() as int) == old(word_out)@,
        final(double_out)@.len() == old(double_out)@.len() + 8,
        double(final(double_out)@, old(double_out)@.len() as int) == longer,
        final(double_out)@.subrange(0, old(double_out)@.len() as int) == old(double_out)@,
{
    lemma_reads(final(half_out)@, old(half_out)@.len() as int);
    lemma_reads(final(word_out)@, old(word_out)@.len() as int);
    lemma_reads(final(double_out)@, old(double_out)@.len() as int);
}

/// What is read is what stands there, the lowest byte first.
pub proof fn law_calls_of_read(
    bytes: &[u8],
    at: usize,
    long: u32,
    longer: u64,
    single: crate::float::F32,
    three: [crate::float::F32; 3],
    four: [crate::float::F32; 4],
)
    requires
        call_ensures(crate::wire::read_u32, (bytes, at), long),
        call_ensures(crate::wire::read_u64, (bytes, at), longer),
        call_ensures(crate::wire::read_f32, (bytes, at), single),
        call_ensures(crate::wire::read_vec3, (bytes, at), three),
        call_ensures(crate::wire::read_vec4, (bytes, at), four),
    ensures
        long == word(bytes@, at as int),
        longer == double(bytes@, at as int),
        single.bits == word(bytes@, at as int),
        three[0].bits == word(bytes@, at as int),
        three[1].bits == word(bytes@, at + 4),
        three[2].bits == word(bytes@, at + 8),
        four[0].bits == word(bytes@, at as int),
        four[1].bits == word(bytes@, at + 4),
        four[2].bits == word(bytes@, at + 8),
        four[3].bits == word(bytes@, at + 12),
{
    lemma_reads(bytes@, at as int);
    lemma_reads(bytes@, at + 4);
    lemma_reads(bytes@, at + 8);
    lemma_reads(bytes@, at + 12);
}

/// The payload of a chassis observation is read as the record is, but for the marker.
pub proof fn law_calls_of_decode_payload(bytes: &[u8], r: ChassisObservation)
    requires
        call_ensures(ChassisObservation::decode_payload, (bytes,), r),
        bytes@.len() == 112,
    ensures
        ({
            &&& r.frame_seq == double(bytes@, 0)
            &&& r.timestamp_ns == double(bytes@, 8)
            &&& r.dt_s.bits == word(bytes@, 16)
            &&& r.v_body[0].bits == word(bytes@, 20)
            &&& r.v_body[1].bits == word(bytes@, 24)
            &&& r.wz_radps.bits == word(bytes@, 28)
            &&& r.wheel_linear_mps[0].bits == word(bytes@, 32)
            &&& r.wheel_linear_mps[1].bits == word(bytes@, 36)
            &&& r.wheel_linear_mps[2].bits == word(bytes@, 40)
            &&& r.wheel_linear_mps[3].bits == word(bytes@, 44)
            &&& r.wheel_angular_radps[0].bits == word(bytes@, 48)
            &&& r.wheel_angular_radps[1].bits == word(bytes@, 52)
            &&& r.wheel_angular_radps[2].bits == word(bytes@, 56)
            &&& r.wheel_angular_radps[3].bits == word(bytes@, 60)
            &&& r.a_body[0].bits == word(bytes@, 64)
            &&& r.a_body[1].bits == word(bytes@, 68)
            &&& r.alpha_z_radps2.bits == word(bytes@, 72)
            &&& r.rpy_rad[0].bits == word(bytes@, 76)
            &&& r.rpy_rad[1].bits == word(bytes@, 80)
            &&& r.rpy_rad[2].bits == word(bytes@, 84)
            &&& r.gyro_xyz_radps[0].bits == word(bytes@, 88)
            &&& r.gyro_xyz_radps[1].bits == word(bytes@, 92)
            &&& r.gyro_xyz_radps[2].bits == word(bytes@, 96)
            &&& r.accel_xyz_mps2[0].bits == word(bytes@, 100)
            &&& r.accel_xyz_mps2[1].bits == word(bytes@, 104)
            &&& r.accel_xyz_mps2[2].bits == word(bytes@, 108)
        }),
        r.seqlock == 0,
{
    lemma_reads(bytes@, 0);
    lemma_reads(bytes@, 8);
    lemma_reads(bytes@, 16);
    lemma_reads(bytes@, 20);
    lemma_reads(bytes@, 24);
    lemma_reads(bytes@, 28);
    lemma_reads(bytes@, 32);
    lemma_reads(bytes@, 36);
    lemma_reads(bytes@, 40);
    lemma_reads(bytes@, 44);
    lemma_reads(bytes@, 48);
    lemma_reads(bytes@, 52);
    lemma_reads(bytes@, 56);
    lemma_reads(bytes@, 60);
    lemma_reads(bytes@, 64);
    lemma_reads(bytes@, 68);
    lemma_reads(bytes@, 72);
    lemma_reads(bytes@, 76);
    lemma_reads(bytes@, 80);
    lemma_reads(bytes@, 84);
    lemma_reads(bytes@, 88);
    lemma_reads(bytes@, 92);
    lemma_reads(bytes@, 96);
    lemma_reads(bytes@, 100);
    lemma_reads(bytes@, 104);
    lemma_reads(bytes@, 108);
}

/// Which channel is which: the gimbal's, the odometry's, the muzzle's, the camera's and that of the
/// old chassis observation, in this order.
pub proof fn law_places_of_the_channels()
    ensures
        crate::layout::PoseIndex::Gimbal.place() == 0,
        crate::layout::PoseIndex::Odom.place() == 1,
        crate::layout::PoseIndex::Muzzle.place() == 2,
        crate::layout::PoseIndex::Camera.place() == 3,
        crate::layout::PoseIndex::ChassisObservation.place() == 4,
{
}

} // verus!
