//! The table that both sides of the protocol go by.
use daedalus::float::{F32, F64};
use daedalus::layout::{
    CameraInfo, ChassisObservation, GimbalCmd, GimbalTripleBuffer, GroundTruthBatch,
    GroundTruthRune, GroundTruthTarget, ImageMeta, ImageTripleBuffer, PoseIndex, PoseMeta,
    PoseTripleBuffer, RuntimeState, ShmHeader, ShmMetaRegion, CAMERA_INFO_ALIGN, CAMERA_INFO_AT,
    CAMERA_INFO_SIZE, CAP_CHASSIS_OBSERVATION, CAP_GROUND_TRUTH, CAP_MUZZLE_WORLD_POSE,
    CAP_RUNTIME_STATE, CHASSIS_OBSERVATION_ALIGN, CHASSIS_OBSERVATION_AT,
    CHASSIS_OBSERVATION_PAYLOAD_BYTES, CHASSIS_OBSERVATION_SIZE, FLAG_NEW, GIMBAL_CMD_ALIGN,
    GIMBAL_CMD_AT, GIMBAL_CMD_SIZE, GIMBAL_TRIPLE_BUFFER_ALIGN, GIMBAL_TRIPLE_BUFFER_SIZE,
    GROUND_TRUTH_AT, GROUND_TRUTH_BATCH_SIZE, GROUND_TRUTH_MAX_RUNES, GROUND_TRUTH_MAX_TARGETS,
    GROUND_TRUTH_PAYLOAD_BYTES, GROUND_TRUTH_RUNE_SIZE, GROUND_TRUTH_TARGET_SIZE, HEADER_AT,
    IMAGE_AT, IMAGE_CHANNELS, IMAGE_HEIGHT, IMAGE_META_ALIGN, IMAGE_META_SIZE, IMAGE_POOL_SIZE,
    IMAGE_SIZE, IMAGE_TRIPLE_BUFFER_ALIGN, IMAGE_TRIPLE_BUFFER_SIZE, IMAGE_WIDTH, INDEX_MASK,
    POSES_AT, POSE_META_ALIGN, POSE_META_SIZE, POSE_TRIPLE_BUFFER_ALIGN, POSE_TRIPLE_BUFFER_SIZE,
    READ_IDX_AT, RUNTIME_STATE_AT, RUNTIME_STATE_SIZE, SHM_HEADER_ALIGN, SHM_HEADER_SIZE,
    SHM_MAGIC, SHM_META_REGION_SIZE, SHM_NAME_IMAGE_POOL, SHM_NAME_META, SHM_VERSION,
    SIMULATOR_CAPABILITIES, SLOTS_AT, STATE_AT, WRITE_IDX_AT,
};

fn row(name: &str, actual: usize, expected: usize) -> bool {
    let ok = actual == expected;
    println!(
        "{:<52} {:>10} {:>10}  {}",
        name,
        actual,
        expected,
        if ok { "ok" } else { "MISMATCH" }
    );
    ok
}

/// The first byte in which two encodings differ.
fn differs_at(a: Vec<u8>, b: Vec<u8>) -> usize {
    assert_eq!(a.len(), b.len());
    (0..a.len()).find(|&i| a[i] != b[i]).expect("the encodings are the same")
}

fn one() -> F32 {
    F32 { bits: 0x0101_0101 }
}

fn one64() -> F64 {
    F64 { bits: 0x0101_0101_0101_0101 }
}

fn image(change: impl Fn(&mut ImageMeta)) -> usize {
    let mut v = ImageMeta::default();
    let a = v.encode();
    change(&mut v);
    differs_at(a, v.encode())
}

fn pose(change: impl Fn(&mut PoseMeta)) -> usize {
    let mut v = PoseMeta::default();
    let a = v.encode();
    change(&mut v);
    differs_at(a, v.encode())
}

fn cmd(change: impl Fn(&mut GimbalCmd)) -> usize {
    let mut v = GimbalCmd::default();
    let a = v.encode();
    change(&mut v);
    differs_at(a, v.encode())
}

fn header(change: impl Fn(&mut ShmHeader)) -> usize {
    let mut v = ShmHeader {
        magic: 0,
        version: 0,
        created_ns: 0,
        heartbeat_ns: 0,
        image_width: 0,
        image_height: 0,
        capabilities: 0,
    };
    let a = v.encode();
    change(&mut v);
    differs_at(a, v.encode())
}

fn camera(change: impl Fn(&mut CameraInfo)) -> usize {
    let mut v = CameraInfo::default();
    let a = v.encode();
    change(&mut v);
    differs_at(a, v.encode())
}

fn chassis(change: impl Fn(&mut ChassisObservation)) -> usize {
    let mut v = ChassisObservation::default();
    let a = v.encode();
    change(&mut v);
    differs_at(a, v.encode())
}

fn target(change: impl Fn(&mut GroundTruthTarget)) -> usize {
    let mut v = GroundTruthTarget::default();
    let a = v.encode();
    change(&mut v);
    differs_at(a, v.encode())
}

fn rune(change: impl Fn(&mut GroundTruthRune)) -> usize {
    let mut v = GroundTruthRune::default();
    let a = v.encode();
    change(&mut v);
    differs_at(a, v.encode())
}

fn batch(change: impl Fn(&mut GroundTruthBatch)) -> usize {
    let mut v = GroundTruthBatch::default();
    let a = v.encode_payload();
    change(&mut v);
    differs_at(a, v.encode_payload())
}

fn runtime(change: impl Fn(&mut RuntimeState)) -> usize {
    let mut v = RuntimeState::default();
    let a = v.encode();
    change(&mut v);
    differs_at(a, v.encode())
}

#[test]
fn layout_abi_table_is_canonical() {
    let mut failures = 0usize;
    let mut check = |name: &str, actual: usize, expected: usize| {
        if !row(name, actual, expected) {
            failures += 1;
        }
    };

    println!("{:<52} {:>10} {:>10}", "item", "actual", "expected");
    check("SHM_MAGIC", SHM_MAGIC as usize, 0x54414C05);
    check("SHM_VERSION", SHM_VERSION as usize, 3);
    check("CAP_GROUND_TRUTH", CAP_GROUND_TRUTH as usize, 1);
    check("CAP_MUZZLE_WORLD_POSE", CAP_MUZZLE_WORLD_POSE as usize, 2);
    check("CAP_CHASSIS_OBSERVATION", CAP_CHASSIS_OBSERVATION as usize, 4);
    check("CAP_RUNTIME_STATE", CAP_RUNTIME_STATE as usize, 8);
    check("SIMULATOR_CAPABILITIES", SIMULATOR_CAPABILITIES as usize, 0b1111);
    check("GROUND_TRUTH_PAYLOAD_BYTES", GROUND_TRUTH_PAYLOAD_BYTES, 1600);
    check("IMAGE_WIDTH", IMAGE_WIDTH as usize, 1440);
    check("IMAGE_HEIGHT", IMAGE_HEIGHT as usize, 1080);
    check("IMAGE_CHANNELS", IMAGE_CHANNELS as usize, 3);
    check("IMAGE_SIZE", IMAGE_SIZE, 4_665_600);
    check("IMAGE_POOL_SIZE", IMAGE_POOL_SIZE, 13_996_800);
    check("FLAG_NEW", FLAG_NEW as usize, 0x80);
    check("INDEX_MASK", INDEX_MASK as usize, 0x03);
    check("GROUND_TRUTH_MAX_TARGETS", GROUND_TRUTH_MAX_TARGETS, 16);
    check("GROUND_TRUTH_MAX_RUNES", GROUND_TRUTH_MAX_RUNES, 4);
    check("IMAGE_SLOT_COUNT", ImageTripleBuffer::default().slots.len(), 3);
    check("TRIPLE_SLOT_COUNT", PoseTripleBuffer::default().slots.len(), 3);
    check("GIMBAL_SLOT_COUNT", GimbalTripleBuffer::default().slots.len(), 3);
    check("POSE_CHANNEL_COUNT", ShmMetaRegion::default().poses.len(), 5);
    check("PoseIndex::Gimbal", PoseIndex::Gimbal.index(), 0);
    check("PoseIndex::Odom", PoseIndex::Odom.index(), 1);
    check("PoseIndex::Muzzle", PoseIndex::Muzzle.index(), 2);
    check("PoseIndex::Camera", PoseIndex::Camera.index(), 3);
    check("PoseIndex::ChassisObservation", PoseIndex::ChassisObservation.index(), 4);
    assert_eq!(SHM_NAME_META, "talos_ipc_meta");
    assert_eq!(SHM_NAME_IMAGE_POOL, "talos_ipc_image_pool");

    check("ImageMeta sizeof", ImageMeta::default().encode().len(), 32);
    check("ImageMeta size", IMAGE_META_SIZE, 32);
    check("ImageMeta alignof", IMAGE_META_ALIGN, 32);
    check("PoseMeta sizeof", PoseMeta::default().encode().len(), 64);
    check("PoseMeta size", POSE_META_SIZE, 64);
    check("PoseMeta alignof", POSE_META_ALIGN, 64);
    check("GimbalCmd sizeof", GimbalCmd::default().encode().len(), 32);
    check("GimbalCmd size", GIMBAL_CMD_SIZE, 32);
    check("GimbalCmd alignof", GIMBAL_CMD_ALIGN, 32);
    check("CameraInfo sizeof", CameraInfo::default().encode().len(), 128);
    check("CameraInfo size", CAMERA_INFO_SIZE, 128);
    check("CameraInfo alignof", CAMERA_INFO_ALIGN, 64);
    check("ChassisObservation sizeof", ChassisObservation::default().encode().len(), 128);
    check("ChassisObservation size", CHASSIS_OBSERVATION_SIZE, 128);
    check("ChassisObservation alignof", CHASSIS_OBSERVATION_ALIGN, 64);
    check("ShmHeader sizeof", ShmHeader::default().encode().len(), 64);
    check("ShmHeader size", SHM_HEADER_SIZE, 64);
    check("ShmHeader alignof", SHM_HEADER_ALIGN, 64);
    check("GroundTruthTarget sizeof", GroundTruthTarget::default().encode().len(), 64);
    check("GroundTruthTarget size", GROUND_TRUTH_TARGET_SIZE, 64);
    check("GroundTruthRune sizeof", GroundTruthRune::default().encode().len(), 128);
    check("GroundTruthRune size", GROUND_TRUTH_RUNE_SIZE, 128);
    check("GroundTruthBatch sizeof", GROUND_TRUTH_BATCH_SIZE, 1664);
    check("RuntimeState sizeof", RuntimeState::default().encode().len(), 64);
    check("RuntimeState size", RUNTIME_STATE_SIZE, 64);
    check("ImageTripleBuffer sizeof", IMAGE_TRIPLE_BUFFER_SIZE, 192);
    check("ImageTripleBuffer alignof", IMAGE_TRIPLE_BUFFER_ALIGN, 64);
    check("PoseTripleBuffer sizeof", POSE_TRIPLE_BUFFER_SIZE, 256);
    check("PoseTripleBuffer alignof", POSE_TRIPLE_BUFFER_ALIGN, 64);
    check("GimbalTripleBuffer sizeof", GIMBAL_TRIPLE_BUFFER_SIZE, 192);
    check("GimbalTripleBuffer alignof", GIMBAL_TRIPLE_BUFFER_ALIGN, 64);
    check("ShmMetaRegion sizeof", SHM_META_REGION_SIZE, 3712);

    check("ImageMeta::seq offset", image(|v| v.seq = 1), 0);
    check("ImageMeta::timestamp_ns offset", image(|v| v.timestamp_ns = 1), 8);
    check("ImageMeta::width offset", image(|v| v.width = 1), 16);
    check("ImageMeta::height offset", image(|v| v.height = 1), 20);
    check("ImageMeta::buffer_id offset", image(|v| v.buffer_id = 1), 24);
    check("ImageMeta::format offset", image(|v| v.format = 1), 25);

    check("PoseMeta::frame_seq offset", pose(|v| v.frame_seq = 1), 0);
    check("PoseMeta::position offset", pose(|v| v.position = [one(); 3]), 8);
    check("PoseMeta::quaternion offset", pose(|v| v.quaternion = [one(); 4]), 20);
    check("PoseMeta::timestamp_ns offset", pose(|v| v.timestamp_ns = 1), 40);
    check("PoseMeta spare numbers offset", pose(|v| v.aux = [one(); 4]), 48);

    check("GimbalCmd::timestamp_ns offset", cmd(|v| v.timestamp_ns = 1), 0);
    check("GimbalCmd::yaw_deg offset", cmd(|v| v.yaw_deg = one()), 8);
    check("GimbalCmd::pitch_deg offset", cmd(|v| v.pitch_deg = one()), 12);
    check("GimbalCmd::distance_m offset", cmd(|v| v.distance_m = one()), 16);
    check("GimbalCmd::fire_advice offset", cmd(|v| v.fire_advice = 1), 20);
    check("GimbalCmd::command_seq offset", cmd(|v| v.command_seq = 1), 24);

    check("ShmHeader::magic offset", header(|v| v.magic = 1), 0);
    check("ShmHeader::capabilities offset", header(|v| v.capabilities = 1), 32);
    check("ShmHeader::version offset", header(|v| v.version = 1), 4);
    check("ShmHeader::created_ns offset", header(|v| v.created_ns = 1), 8);
    check("ShmHeader::heartbeat_ns offset", header(|v| v.heartbeat_ns = 1), 16);
    check("ShmHeader::image_width offset", header(|v| v.image_width = 1), 24);
    check("ShmHeader::image_height offset", header(|v| v.image_height = 1), 28);

    check("CameraInfo::timestamp_ns offset", camera(|v| v.timestamp_ns = 1), 0);
    check("CameraInfo::fx offset", camera(|v| v.fx = one64()), 8);
    check("CameraInfo::fy offset", camera(|v| v.fy = one64()), 16);
    check("CameraInfo::cx offset", camera(|v| v.cx = one64()), 24);
    check("CameraInfo::cy offset", camera(|v| v.cy = one64()), 32);
    check("CameraInfo::distortion offset", camera(|v| v.distortion = [one64(); 5]), 40);
    check("CameraInfo::width offset", camera(|v| v.width = 1), 80);
    check("CameraInfo::height offset", camera(|v| v.height = 1), 84);

    check("ChassisObservation::frame_seq offset", chassis(|v| v.frame_seq = 1), 0);
    check("ChassisObservation::dt_s offset", chassis(|v| v.dt_s = one()), 16);
    check("ChassisObservation::v_body offset", chassis(|v| v.v_body = [one(); 2]), 20);
    check("ChassisObservation::rpy_rad offset", chassis(|v| v.rpy_rad = [one(); 3]), 76);
    check("ChassisObservation marker offset", chassis(|v| v.seqlock = 1), 112);
    check("ChassisObservation payload", CHASSIS_OBSERVATION_PAYLOAD_BYTES, 112);

    check("GroundTruthTarget::frame_seq offset", target(|v| v.frame_seq = 1), 0);
    check("GroundTruthTarget::timestamp_ns offset", target(|v| v.timestamp_ns = 1), 8);
    check("GroundTruthTarget::team offset", target(|v| v.team = 1), 16);
    check("GroundTruthTarget::armor_label offset", target(|v| v.armor_label = 1), 17);
    check("GroundTruthTarget::is_outpost offset", target(|v| v.is_outpost = 1), 18);
    check("GroundTruthTarget::position offset", target(|v| v.position = [one(); 3]), 20);
    check("GroundTruthTarget::vyaw offset", target(|v| v.vyaw = one()), 32);
    check("GroundTruthTarget::yaw offset", target(|v| v.yaw = one()), 36);
    check("GroundTruthTarget::armor_position offset", target(|v| v.armor_position = [one(); 3]), 40);
    check("GroundTruthTarget::valid offset", target(|v| v.armor_position_valid = 1), 52);
    check("GroundTruthTarget::degraded offset", target(|v| v.armor_position_degraded = 1), 53);
    check("GroundTruthTarget::identity offset", target(|v| v.identity = 1), 54);
    check("GroundTruthRune::target point offset", rune(|v| v.target_point_odom = [one(); 3]), 80);
    check("GroundTruthRune::identity offset", rune(|v| v.identity = 1), 92);

    check("GroundTruthBatch::frame_seq offset", batch(|v| v.frame_seq = 1), 0);
    check("GroundTruthBatch::timestamp_ns offset", batch(|v| v.timestamp_ns = 1), 8);
    check("GroundTruthBatch::target_count offset", batch(|v| v.target_count = 1), 16);
    check("GroundTruthBatch::rune_count offset", batch(|v| v.rune_count = 1), 20);
    check("GroundTruthBatch::targets offset", batch(|v| v.targets[0].frame_seq = 1), 32);
    check("GroundTruthBatch::runes offset", batch(|v| v.runes[0].frame_seq = 1), 1088);
    check("GroundTruthBatch::seqlock offset", GROUND_TRUTH_PAYLOAD_BYTES, 1600);

    check("RuntimeState::timestamp_ns offset", runtime(|v| v.timestamp_ns = 1), 0);
    check("RuntimeState::following offset", runtime(|v| v.following = 1), 8);

    check("TripleBuffer::state offset", STATE_AT, 0);
    check("TripleBuffer::write_idx offset", WRITE_IDX_AT, 1);
    check("TripleBuffer::read_idx offset", READ_IDX_AT, 2);
    check("TripleBuffer::slots offset", SLOTS_AT, 64);

    check("ShmMetaRegion::header offset", HEADER_AT, 0);
    check("ShmMetaRegion::image offset", IMAGE_AT, 64);
    check("ShmMetaRegion::poses offset", POSES_AT, 256);
    check("ShmMetaRegion::gimbal_cmd offset", GIMBAL_CMD_AT, 1536);
    check("ShmMetaRegion::camera_info offset", CAMERA_INFO_AT, 1728);
    check("ShmMetaRegion::chassis_observation offset", CHASSIS_OBSERVATION_AT, 1856);
    check("ShmMetaRegion::ground_truth offset", GROUND_TRUTH_AT, 1984);
    check("ShmMetaRegion::runtime_state offset", RUNTIME_STATE_AT, 3648);

    assert_eq!(failures, 0, "{failures} rows differ from the table");
}

#[test]
fn records_start_blank_and_buffers_start_in_their_initial_hands() {
    let region = ShmMetaRegion::default();
    assert_eq!(region.header.magic, SHM_MAGIC);
    assert_eq!(region.header.version, 3);
    assert_eq!(region.header.capabilities, 0);
    assert_eq!((region.header.image_width, region.header.image_height), (1440, 1080));
    assert_eq!((region.image.state, region.image.write_idx, region.image.read_idx), (1, 0, 2));
    for p in &region.poses {
        assert_eq!((p.state, p.write_idx, p.read_idx), (1, 0, 2));
    }
    let g = region.gimbal_cmd;
    assert_eq!((g.state, g.write_idx, g.read_idx), (1, 0, 2));
    assert_eq!(region.ground_truth.runes[3].blade_id, -1);
    assert_eq!(region.ground_truth.targets[15].frame_seq, 0);
    assert_eq!(region.ground_truth.seqlock, 0);
    assert_eq!(region.camera_info.distortion[4].bits, 0);
    assert_eq!(region.chassis_observation.seqlock, 0);
    assert_eq!(region.runtime_state.following, 0);
}

#[test]
fn setting_a_buffer_back_keeps_its_slots() {
    let mut image = ImageTripleBuffer::default();
    image.slots[1].seq = 7;
    image.state = 0x82;
    image.init_state();
    assert_eq!((image.state, image.write_idx, image.read_idx), (1, 0, 2));
    assert_eq!(image.slots[1].seq, 7);
    let mut pose = PoseTripleBuffer::default();
    pose.read_idx = 0;
    pose.init_state();
    assert_eq!((pose.state, pose.write_idx, pose.read_idx), (1, 0, 2));
    let mut gimbal = GimbalTripleBuffer::default();
    gimbal.write_idx = 2;
    gimbal.init_state();
    assert_eq!((gimbal.state, gimbal.write_idx, gimbal.read_idx), (1, 0, 2));
}

#[test]
fn commands_and_poses_read_back_as_they_were_written() {
    let sent = GimbalCmd {
        timestamp_ns: 0x0102_0304_0506_0708,
        yaw_deg: F32 { bits: (10.5f32).to_bits() },
        pitch_deg: F32 { bits: (-2.25f32).to_bits() },
        distance_m: F32 { bits: (3.5f32).to_bits() },
        fire_advice: 1,
        command_seq: 99,
    };
    let bytes = sent.encode();
    assert_eq!(&bytes[0..8], &[8, 7, 6, 5, 4, 3, 2, 1]);
    assert_eq!(&bytes[8..12], &(10.5f32).to_le_bytes());
    let got = GimbalCmd::decode(&bytes);
    assert_eq!(got.timestamp_ns, sent.timestamp_ns);
    assert_eq!(f32::from_bits(got.pitch_deg.bits), -2.25);
    assert_eq!((got.fire_advice, got.command_seq), (1, 99));

    let pose = PoseMeta {
        frame_seq: 5,
        position: [F32 { bits: 1 }, F32 { bits: 2 }, F32 { bits: 3 }],
        quaternion: [F32 { bits: 4 }, F32 { bits: 5 }, F32 { bits: 6 }, F32 { bits: 7 }],
        timestamp_ns: 6,
        aux: [F32 { bits: 8 }, F32 { bits: 9 }, F32 { bits: 10 }, F32 { bits: 11 }],
    };
    let back = PoseMeta::decode(&pose.encode());
    assert_eq!(back.frame_seq, 5);
    assert_eq!(back.position[2].bits, 3);
    assert_eq!(back.quaternion[3].bits, 7);
    assert_eq!(back.aux[0].bits, 8);
    assert_eq!(back.timestamp_ns, 6);

    let header = ShmHeader { created_ns: 77, ..ShmHeader::default() };
    assert_eq!(ShmHeader::decode(&header.encode()), header);
}
