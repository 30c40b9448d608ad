//! The publisher and the subscriber on a region that lies in ordinary memory.
use daedalus::capture::{
    advance_talos_frame_stamp, camera_info, check_frame, extract_pose_data,
    publish_talos_runtime_state_system, take_snapshot, CapturedFrame, CapturedFrameKind,
    ChassisObservationFrame, ExtractedPoseData, FrameFault, PoseMeasurement, ProducerView,
    TalosSnapshot,
};
use daedalus::float::{F32, F64};
use daedalus::ground_truth::{TalosFrameStamp, TalosGroundTruthFrame};
use daedalus::layout::{
    ChassisObservation, GimbalCmd, GroundTruthBatch, PoseIndex, PoseMeta, ShmHeader, FLAG_NEW,
    GROUND_TRUTH_MAX_RUNES, GROUND_TRUTH_MAX_TARGETS, IMAGE_HEIGHT, IMAGE_POOL_SIZE, IMAGE_SIZE,
    IMAGE_WIDTH, INDEX_MASK, SHM_META_REGION_SIZE,
};
use daedalus::memory::ShmOp;
use daedalus::publisher::{FrameStates, ShmPublisher};
use daedalus::seqlock::{ReadAction, SnapshotReader};
use daedalus::subscriber::{ShmError, ShmSubscriber};

fn f(v: f32) -> F32 {
    F32 { bits: v.to_bits() }
}

fn v3(x: f32, y: f32, z: f32) -> [F32; 3] {
    [f(x), f(y), f(z)]
}

/// The shared memory.
struct Memory {
    meta: Vec<u8>,
    pool: Vec<u8>,
}

impl Memory {
    fn step(&mut self, op: &ShmOp, pixels: &[u8]) {
        match op {
            ShmOp::CopyPixels { at } => {
                self.pool[*at..*at + pixels.len()].copy_from_slice(pixels);
            }
            ShmOp::Copy { at, bytes } => {
                self.meta[*at..*at + bytes.len()].copy_from_slice(bytes);
            }
            ShmOp::Exchange { state_at, index_at, value } => {
                let old = self.meta[*state_at];
                self.meta[*state_at] = *value;
                self.meta[*index_at] = old & INDEX_MASK;
            }
            ShmOp::StoreMarker { at, marker } => {
                self.meta[*at..*at + 4].copy_from_slice(&marker.to_le_bytes());
            }
            ShmOp::Fence => {}
        }
    }

    fn run(&mut self, ops: &[ShmOp], pixels: &[u8]) {
        for op in ops {
            self.step(op, pixels);
        }
    }

    fn u32_at(&self, at: usize) -> u32 {
        u32::from_le_bytes(self.meta[at..at + 4].try_into().unwrap())
    }

    fn u64_at(&self, at: usize) -> u64 {
        u64::from_le_bytes(self.meta[at..at + 8].try_into().unwrap())
    }

    fn view(&self) -> ProducerView {
        let pose = |k: usize| 256 + 256 * k;
        ProducerView {
            states: FrameStates {
                image: self.meta[64],
                poses: [
                    self.meta[pose(0)],
                    self.meta[pose(1)],
                    self.meta[pose(2)],
                    self.meta[pose(3)],
                ],
            },
            image_write_idx: self.meta[65],
            pose_write_idx: [
                self.meta[pose(0) + 1],
                self.meta[pose(1) + 1],
                self.meta[pose(2) + 1],
                self.meta[pose(3) + 1],
                self.meta[pose(4) + 1],
            ],
            truth_marker: self.u32_at(3584),
        }
    }

    fn take_pose(&mut self, subscriber: &ShmSubscriber, index: PoseIndex) -> Option<PoseMeta> {
        let at = 256 + 256 * index.index();
        let exchanged = self.meta[at];
        let op = subscriber.recv_pose(index, exchanged, self.meta[at + 2])?;
        self.step(&op, &[]);
        let slot = ShmSubscriber::pose_slot_at(index, exchanged);
        Some(PoseMeta::decode(&self.meta[slot..slot + 64]))
    }

    fn take_image(&mut self) -> Option<(u64, u8)> {
        let exchanged = self.meta[64];
        if exchanged & FLAG_NEW == 0 {
            return None;
        }
        self.meta[64] = self.meta[66];
        self.meta[66] = exchanged & INDEX_MASK;
        let slot = 128 + 32 * self.meta[66] as usize;
        Some((self.u64_at(slot), self.meta[slot + 24]))
    }
}

fn up() -> (Memory, ShmPublisher) {
    let setup = ShmPublisher::create(11, 12);
    assert_eq!(setup.meta_name, "talos_ipc_meta");
    assert_eq!(setup.image_pool_name, "talos_ipc_image_pool");
    assert_eq!(setup.meta_size, SHM_META_REGION_SIZE);
    assert_eq!(setup.image_pool_size, IMAGE_POOL_SIZE);
    let mut memory = Memory { meta: vec![0; setup.meta_size], pool: vec![0; setup.image_pool_size] };
    memory.run(&setup.ops, &[]);
    (memory, setup.publisher)
}

fn connected(memory: &Memory) -> ShmSubscriber {
    match ShmSubscriber::connect(&memory.meta[0..64]) {
        Ok(s) => s,
        Err(e) => panic!("{e:?}"),
    }
}

fn quat() -> [F32; 4] {
    [f(0.5), f(-0.5), f(0.5), f(-0.5)]
}

#[test]
fn a_new_region_has_its_header_and_its_initial_hands() {
    let (memory, publisher) = up();
    let header = ShmHeader::decode(&memory.meta[0..64]);
    assert_eq!(header.magic, 0x54414C05);
    assert_eq!(header.version, 3);
    assert_eq!((header.created_ns, header.heartbeat_ns), (11, 12));
    assert_eq!((header.image_width, header.image_height), (1440, 1080));
    assert_eq!(header.capabilities, 0b1111);
    for at in [64, 256, 512, 768, 1024, 1280, 1536] {
        assert_eq!(&memory.meta[at..at + 3], &[1, 0, 2]);
    }
    assert_eq!(publisher.current_buffer_id, 0);
    assert_eq!(publisher.last_synchronized_frame_seq, None);
    assert_eq!(connected(&memory).meta_name, "talos_ipc_meta");
}

#[test]
fn names_of_the_callers_are_used() {
    let setup = ShmPublisher::create_named("a", "b", 1, 2);
    assert_eq!((setup.meta_name.as_str(), setup.image_pool_name.as_str()), ("a", "b"));
    let mut memory = Memory { meta: vec![0; 3712], pool: Vec::new() };
    memory.run(&setup.ops, &[]);
    match ShmSubscriber::connect_named("c", &memory.meta[0..64]) {
        Ok(s) => assert_eq!(s.meta_name, "c"),
        Err(e) => panic!("{e:?}"),
    }
}

#[test]
fn a_region_of_another_kind_or_generation_is_refused() {
    let (memory, _) = up();
    let mut header = memory.meta[0..64].to_vec();
    header[0] ^= 1;
    assert_eq!(ShmSubscriber::connect(&header).err(), Some(ShmError::InvalidSize));
    header[0] ^= 1;
    header[4] = 2;
    assert_eq!(ShmSubscriber::connect(&header).err(), Some(ShmError::InvalidSize));
    header[4] = 3;
    assert!(ShmSubscriber::connect(&header).is_ok());
    assert_eq!(ShmSubscriber::connect(&[0; 64]).err(), Some(ShmError::InvalidSize));
}

#[test]
fn a_published_pose_is_taken_once_and_the_newest_wins() {
    let (mut memory, publisher) = up();
    let subscriber = connected(&memory);
    assert!(memory.take_pose(&subscriber, PoseIndex::Muzzle).is_none());
    for seq in 1..=5u64 {
        let w = memory.view().pose_write_idx[2];
        let ops = publisher.publish_pose(
            PoseIndex::Muzzle,
            v3(seq as f32, 2.0, 3.0),
            quat(),
            seq,
            100 + seq,
            w,
        );
        assert_eq!(ops.len(), 2);
        memory.run(&ops, &[]);
    }
    let got = memory.take_pose(&subscriber, PoseIndex::Muzzle).unwrap();
    assert_eq!((got.frame_seq, got.timestamp_ns), (5, 105));
    assert_eq!(f32::from_bits(got.position[0].bits), 5.0);
    assert_eq!(f32::from_bits(got.quaternion[1].bits), -0.5);
    assert_eq!(got.aux[3].bits, 0);
    assert!(memory.take_pose(&subscriber, PoseIndex::Muzzle).is_none());
    assert!(memory.take_pose(&subscriber, PoseIndex::Odom).is_none());

    let w = memory.view().pose_write_idx[4];
    let ops = publisher.publish_pose_with_aux(
        PoseIndex::ChassisObservation,
        v3(1.0, 2.0, 3.0),
        quat(),
        [f(6.0), f(7.0), f(8.0), f(9.0)],
        1,
        2,
        w,
    );
    memory.run(&ops, &[]);
    let got = memory.take_pose(&subscriber, PoseIndex::ChassisObservation).unwrap();
    assert_eq!(f32::from_bits(got.aux[3].bits), 9.0);
}

#[test]
fn producer_and_consumer_own_different_slots_however_they_take_turns() {
    let (mut memory, publisher) = up();
    let subscriber = connected(&memory);
    let mut seed = 12345u32;
    let mut last_sent = 0u64;
    let mut last_got = 0u64;
    for _ in 0..2000 {
        seed = seed.wrapping_mul(1664525).wrapping_add(1013904223);
        if seed & 0x10000 == 0 {
            last_sent += 1;
            let w = memory.view().pose_write_idx[0];
            let ops =
                publisher.publish_pose(PoseIndex::Gimbal, v3(0.0, 0.0, 0.0), quat(), last_sent, 0, w);
            memory.run(&ops, &[]);
        } else if let Some(pose) = memory.take_pose(&subscriber, PoseIndex::Gimbal) {
            assert_eq!(pose.frame_seq, last_sent);
            assert!(pose.frame_seq > last_got);
            last_got = pose.frame_seq;
        }
        let (state, write, read) = (memory.meta[256], memory.meta[257], memory.meta[258]);
        let mut slots = [state & INDEX_MASK, write, read];
        slots.sort();
        assert_eq!(slots, [0, 1, 2]);
    }
    assert!(last_got > 100);
}

#[test]
fn a_gimbal_command_is_taken_once() {
    let (mut memory, _) = up();
    let subscriber = connected(&memory);
    assert!(!subscriber.has_gimbal_cmd(memory.meta[1536]));
    assert!(subscriber.recv_gimbal_cmd(memory.meta[1536], memory.meta[1538]).is_none());
    // The vision process writes its slot and offers it.
    let cmd = GimbalCmd { timestamp_ns: 4, fire_advice: 1, command_seq: 9, ..GimbalCmd::default() };
    let w = memory.meta[1537] as usize;
    memory.meta[1600 + 32 * w..1632 + 32 * w].copy_from_slice(&cmd.encode());
    let ready = memory.meta[1536] & INDEX_MASK;
    memory.meta[1536] = w as u8 | FLAG_NEW;
    memory.meta[1537] = ready;
    assert!(subscriber.has_gimbal_cmd(memory.meta[1536]));
    let exchanged = memory.meta[1536];
    let op = subscriber.recv_gimbal_cmd(exchanged, memory.meta[1538]).unwrap();
    memory.step(&op, &[]);
    let slot = ShmSubscriber::gimbal_slot_at(exchanged);
    let got = GimbalCmd::decode(&memory.meta[slot..slot + 32]);
    assert_eq!((got.timestamp_ns, got.fire_advice, got.command_seq), (4, 1, 9));
    assert!(!subscriber.has_gimbal_cmd(memory.meta[1536]));
    assert!(subscriber.recv_gimbal_cmd(memory.meta[1536], memory.meta[1538]).is_none());
}

/// The same number in every field, so that two writes cannot mix unseen.
fn stamp(generation: u32) -> GroundTruthBatch {
    let x = f(generation as f32);
    let u8v = (generation & 0xff) as u8;
    let mut b = GroundTruthBatch::default();
    b.frame_seq = generation as u64;
    b.timestamp_ns = generation as u64;
    b.target_count = GROUND_TRUTH_MAX_TARGETS as u32;
    b.rune_count = GROUND_TRUTH_MAX_RUNES as u32;
    for t in b.targets.iter_mut() {
        t.frame_seq = generation as u64;
        t.timestamp_ns = generation as u64;
        t.team = u8v;
        t.armor_label = u8v;
        t.is_outpost = u8v;
        t.position = [x; 3];
        t.vyaw = x;
        t.yaw = x;
        t.armor_position = [x; 3];
        t.armor_position_valid = u8v;
    }
    for r in b.runes.iter_mut() {
        r.frame_seq = generation as u64;
        r.timestamp_ns = generation as u64;
        r.team = u8v;
        r.rune_mode = u8v;
        r.mechanism_state = u8v;
        r.r_center_odom = [x; 3];
        r.radius = x;
        r.current_angle = x;
        r.v_roll = x;
        r.direction = generation as i32;
        r.sin_amplitude = x;
        r.sin_omega = x;
        r.sin_phase = x;
        r.sin_offset = x;
        r.relative_time = x;
        r.blade_id = generation as i32;
        r.target_activations = [u8v; 5];
    }
    b
}

/// The first field that is not of the generation that `frame_seq` names.
fn find_mixed_field(b: &GroundTruthBatch) -> Option<String> {
    let generation = b.frame_seq as u32;
    let whole = stamp(generation);
    if b.timestamp_ns != whole.timestamp_ns {
        return Some("batch.timestamp_ns".into());
    }
    if b.target_count != whole.target_count {
        return Some("batch.target_count".into());
    }
    if b.rune_count != whole.rune_count {
        return Some("batch.rune_count".into());
    }
    for (i, (t, w)) in b.targets.iter().zip(whole.targets.iter()).enumerate() {
        if t.encode() != w.encode() {
            return Some(format!("targets[{i}]"));
        }
    }
    for (i, (r, w)) in b.runes.iter().zip(whole.runes.iter()).enumerate() {
        if r.encode() != w.encode() {
            return Some(format!("runes[{i}]"));
        }
    }
    None
}

#[test]
fn detector_flags_mixed_generations() {
    let a = stamp(1000);
    assert_eq!(find_mixed_field(&a), None, "one generation is consistent");

    let mut mixed = stamp(1000);
    let newer = stamp(2000);
    mixed.frame_seq = newer.frame_seq;
    mixed.timestamp_ns = newer.timestamp_ns;
    mixed.target_count = newer.target_count;
    mixed.rune_count = newer.rune_count;
    mixed.targets[..3].copy_from_slice(&newer.targets[..3]);
    assert!(find_mixed_field(&mixed).is_some(), "half of another generation is torn");
}

/// A reader that may be interrupted by one step of the writer between any two of its bytes.
fn read_truth(
    memory: &mut Memory,
    pending: &mut Vec<ShmOp>,
    interrupt_every: usize,
) -> Option<(Vec<u8>, u32)> {
    let mut reader = SnapshotReader::begin();
    let mut action = ReadAction::LoadMarker;
    let mut copy = vec![0u8; 1600];
    let mut count = 0usize;
    let mut marker = 0;
    loop {
        match action {
            ReadAction::LoadMarker => {
                marker = memory.u32_at(3584);
                action = reader.started(marker);
            }
            ReadAction::CopyPayload => {
                for i in 0..1600 {
                    copy[i] = memory.meta[1984 + i];
                    count += 1;
                    if count % interrupt_every == 0 && !pending.is_empty() {
                        let op = pending.remove(0);
                        memory.step(&op, &[]);
                    }
                }
                let after = memory.u32_at(3584);
                action = reader.ended(after);
            }
            ReadAction::Accept => return Some((copy, marker)),
            ReadAction::GiveUp => return None,
        }
    }
}

#[test]
fn an_interrupted_reader_never_keeps_a_torn_batch() {
    let (mut memory, publisher) = up();
    let mut none = Vec::new();
    assert!(read_truth(&mut memory, &mut none, 1).is_none(), "nothing was written yet");
    let mut kept = 0;
    for every in [1usize, 3, 200, 700, 1500, 1601, 4000] {
        let (mut memory, publisher_again) = up();
        memory.run(&publisher_again.publish_ground_truth(&stamp(1), 0), &[]);
        assert_eq!(memory.u32_at(3584), 2);
        let mut pending: Vec<ShmOp> = Vec::new();
        // Cut the copies into pieces, so that the writer can be caught in the middle.
        let mut marker = 2u32;
        for generation in 2..6u32 {
            for op in publisher.publish_ground_truth(&stamp(generation), marker) {
                match op {
                    ShmOp::Copy { at, bytes } => {
                        for (k, piece) in bytes.chunks(100).enumerate() {
                            pending.push(ShmOp::Copy { at: at + 100 * k, bytes: piece.to_vec() });
                        }
                    }
                    other => pending.push(other),
                }
            }
            marker += 2;
        }
        while !pending.is_empty() {
            if let Some((copy, marker)) = read_truth(&mut memory, &mut pending, every) {
                assert_eq!(marker % 2, 0);
                let generation = u64::from_le_bytes(copy[0..8].try_into().unwrap()) as u32;
                assert_eq!(copy, stamp(generation).encode_payload());
                assert_eq!(marker, 2 * generation);
                kept += 1;
            }
            if !pending.is_empty() {
                let op = pending.remove(0);
                memory.step(&op, &[]);
            }
        }
        let (copy, marker) = read_truth(&mut memory, &mut pending, every).unwrap();
        assert_eq!((copy, marker), (stamp(5).encode_payload(), 10));
    }
    assert!(kept > 0);
}

#[test]
fn markers_stay_paired_where_they_wrap() {
    let (mut memory, publisher) = up();
    for (before, writing, written) in
        [(0u32, 1u32, 2u32), (6, 7, 8), (7, 9, 10), (u32::MAX - 1, u32::MAX, 0), (u32::MAX, 1, 2)]
    {
        let ops = publisher.publish_ground_truth(&stamp(9), before);
        assert_eq!(ops.len(), 5);
        memory.step(&ops[0], &[]);
        assert_eq!(memory.u32_at(3584), writing);
        memory.run(&ops[1..], &[]);
        assert_eq!(memory.u32_at(3584), written);
    }
}

#[test]
fn a_reader_gives_up_after_eight_attempts() {
    let mut reader = SnapshotReader::begin();
    for _ in 0..7 {
        assert_eq!(reader.started(3), ReadAction::LoadMarker);
    }
    assert_eq!(reader.started(0), ReadAction::GiveUp);

    let mut reader = SnapshotReader::begin();
    for _ in 0..7 {
        assert_eq!(reader.started(4), ReadAction::CopyPayload);
        assert_eq!(reader.ended(6), ReadAction::LoadMarker);
    }
    assert_eq!(reader.started(8), ReadAction::CopyPayload);
    assert_eq!(reader.ended(8), ReadAction::Accept);
}

#[test]
fn a_chassis_observation_reads_back() {
    let (mut memory, publisher) = up();
    let subscriber = connected(&memory);
    let observation = ChassisObservation {
        frame_seq: 5,
        timestamp_ns: 6,
        wz_radps: f(1.5),
        accel_xyz_mps2: v3(1.0, 2.0, 3.0),
        seqlock: 4,
        ..ChassisObservation::default()
    };
    memory.run(&publisher.publish_chassis_observation(&observation), &[]);
    let mut reader = SnapshotReader::begin();
    assert_eq!(reader.started(memory.u32_at(1968)), ReadAction::CopyPayload);
    let payload = memory.meta[1856..1968].to_vec();
    assert_eq!(reader.ended(memory.u32_at(1968)), ReadAction::Accept);
    let got = subscriber.chassis_observation(Some(payload.as_slice())).unwrap();
    assert_eq!((got.frame_seq, got.timestamp_ns, got.seqlock), (5, 6, 0));
    assert_eq!(f32::from_bits(got.wz_radps.bits), 1.5);
    assert_eq!(f32::from_bits(got.accel_xyz_mps2[2].bits), 3.0);
    assert!(subscriber.chassis_observation(None).is_none());
    assert!(subscriber.chassis_observation(Some(&[0; 112])).is_none());
}

#[test]
fn small_records_land_in_their_places_and_nowhere_else() {
    let (mut memory, publisher) = up();
    let before = memory.meta.clone();
    memory.run(&publisher.update_heartbeat(0x1122), &[]);
    assert_eq!(memory.u64_at(16), 0x1122);
    assert_eq!(&memory.meta[0..16], &before[0..16]);
    assert_eq!(&memory.meta[24..], &before[24..]);

    let stamp = TalosFrameStamp { frame_seq: 3, timestamp_ns: 77 };
    memory.run(&publish_talos_runtime_state_system(&publisher, &stamp, true), &[]);
    assert_eq!((memory.u64_at(3648), memory.meta[3656]), (77, 1));
    memory.run(&publish_talos_runtime_state_system(&publisher, &stamp, false), &[]);
    assert_eq!(memory.meta[3656], 0);

    let double = |v: f64| F64 { bits: v.to_bits() };
    let info = camera_info(9, double(1.5), double(2.5), double(720.0), double(540.0), 1440, 1080);
    memory.run(&publisher.set_camera_info(&info), &[]);
    assert_eq!(memory.u64_at(1728), 9);
    assert_eq!(memory.u64_at(1736), (1.5f64).to_bits());
    assert_eq!(memory.u64_at(1760), (540.0f64).to_bits());
    assert_eq!(memory.u32_at(1808), 1440);
    assert_eq!(&memory.meta[64..1728], &before[64..1728]);

    assert_eq!(ShmPublisher::now_ns(None), 0);
    assert_eq!(ShmPublisher::now_ns(Some(5)), 5);
    assert_eq!(ShmPublisher::now_ns(Some((1u128 << 64) + 7)), 7);
}

fn measured() -> PoseMeasurement {
    PoseMeasurement {
        gimbal_ros: v3(1.0, 2.0, 3.0),
        gimbal_quat: quat(),
        muzzle_world: v3(4.0, 5.0, 6.0),
        camera_rel: v3(7.0, 8.0, 9.0),
    }
}

fn chassis() -> ChassisObservationFrame {
    ChassisObservationFrame {
        dt_s: f(0.01),
        v_body: [f(1.0), f(2.0)],
        wz_radps: f(3.0),
        wheel_linear_mps: [f(4.0), f(5.0), f(6.0), f(7.0)],
        wheel_angular_radps: [f(8.0), f(9.0), f(10.0), f(11.0)],
        a_body: [f(12.0), f(13.0)],
        alpha_z_radps2: f(14.0),
        rpy_rad: v3(15.0, 16.0, 17.0),
        gyro_xyz_radps: v3(18.0, 19.0, 20.0),
        accel_xyz_mps2: v3(21.0, 22.0, 23.0),
    }
}

fn snapshot(seq: u64, truth: Option<GroundTruthBatch>) -> TalosSnapshot {
    let mut data = ExtractedPoseData::default();
    let stamp = TalosFrameStamp { frame_seq: seq, timestamp_ns: 1000 + seq };
    let taken = TalosGroundTruthFrame { frame_seq: seq, batch: truth };
    extract_pose_data(&mut data, &stamp, Some(measured()), &chassis(), &taken);
    take_snapshot(Some(&data)).unwrap()
}

fn frame(data: &[u8]) -> CapturedFrame<'_> {
    CapturedFrame { kind: CapturedFrameKind::Rgb8, width: IMAGE_WIDTH, height: IMAGE_HEIGHT, data }
}

#[test]
fn a_frame_goes_out_with_its_poses_and_its_truth() {
    let (mut memory, mut publisher) = up();
    let subscriber = connected(&memory);
    let pixels = vec![7u8; IMAGE_SIZE];
    let truth = GroundTruthBatch { frame_seq: 5, ..stamp(5) };
    let ops = snapshot(5, Some(truth))
        .captured(&mut publisher, &frame(&pixels), &memory.view())
        .unwrap();

    // Until the last step the consumer sees no frame; then it finds all that belongs to it.
    let (last, rest) = ops.split_last().unwrap();
    for op in rest {
        memory.step(op, &pixels);
        assert_eq!(memory.meta[64] & FLAG_NEW, 0);
    }
    assert_eq!(memory.u64_at(1984), 5);
    assert_eq!(memory.u32_at(3584), 2);
    memory.step(last, &pixels);
    assert_eq!(memory.take_image(), Some((5, 0)));
    assert_eq!(memory.take_image(), None);
    assert!(memory.pool[..IMAGE_SIZE].iter().all(|&b| b == 7));
    assert!(memory.pool[IMAGE_SIZE..].iter().all(|&b| b == 0));

    let x = |v: F32| f32::from_bits(v.bits);
    let odom = memory.take_pose(&subscriber, PoseIndex::Odom).unwrap();
    assert_eq!((odom.frame_seq, odom.timestamp_ns), (5, 1005));
    assert_eq!((x(odom.position[0]), x(odom.quaternion[0])), (1.0, 1.0));
    let gimbal = memory.take_pose(&subscriber, PoseIndex::Gimbal).unwrap();
    assert_eq!((x(gimbal.position[0]), x(gimbal.quaternion[1])), (0.0, -0.5));
    let muzzle = memory.take_pose(&subscriber, PoseIndex::Muzzle).unwrap();
    assert_eq!((x(muzzle.position[2]), x(muzzle.quaternion[1])), (6.0, -0.5));
    let camera = memory.take_pose(&subscriber, PoseIndex::Camera).unwrap();
    assert_eq!((x(camera.position[1]), x(camera.quaternion[0])), (8.0, 1.0));
    let legacy = memory.take_pose(&subscriber, PoseIndex::ChassisObservation).unwrap();
    assert_eq!((x(legacy.position[2]), x(legacy.quaternion[3])), (3.0, 11.0));
    assert_eq!((x(legacy.aux[0]), x(legacy.aux[2]), x(legacy.aux[3])), (12.0, 14.0, 0.01));
    assert_eq!(memory.u64_at(1856), 5);
    assert_eq!(publisher.last_synchronized_frame_seq, Some(5));
    assert_eq!(publisher.current_buffer_id, 1);
}

#[test]
fn the_next_frame_waits_for_the_consumer_and_never_goes_back() {
    let (mut memory, mut publisher) = up();
    let subscriber = connected(&memory);
    let pixels = vec![1u8; IMAGE_SIZE];
    let send = |memory: &mut Memory, publisher: &mut ShmPublisher, seq: u64| {
        match snapshot(seq, None).captured(publisher, &frame(&pixels), &memory.view()) {
            Some(ops) => {
                memory.run(&ops, &pixels);
                true
            }
            None => false,
        }
    };
    assert!(send(&mut memory, &mut publisher, 10));
    assert!(!send(&mut memory, &mut publisher, 11), "nothing was taken");
    assert_eq!(publisher.current_buffer_id, 1);
    assert_eq!(memory.take_image(), Some((10, 0)));
    for index in [PoseIndex::Gimbal, PoseIndex::Odom, PoseIndex::Muzzle] {
        memory.take_pose(&subscriber, index).unwrap();
        assert!(!send(&mut memory, &mut publisher, 11), "a pose was not taken");
    }
    memory.take_pose(&subscriber, PoseIndex::Camera).unwrap();
    // The channel for old readers is still full and does not matter.
    assert!(!send(&mut memory, &mut publisher, 10), "the same number");
    assert!(!send(&mut memory, &mut publisher, 9), "an older number");
    assert!(send(&mut memory, &mut publisher, 12));
    assert_eq!(memory.take_image(), Some((12, 1)));
}

#[test]
fn three_frames_take_three_places() {
    let (mut memory, mut publisher) = up();
    for seq in 0..4u8 {
        let pixels = vec![seq + 1; IMAGE_SIZE];
        let w = memory.view().image_write_idx;
        let ops = publisher.publish_image(&pixels, seq as u64, 0, w);
        assert_eq!(ops.len(), 3);
        memory.run(&ops, &pixels);
        assert_eq!(memory.take_image(), Some((seq as u64, seq % 3)));
    }
    for (place, value) in [(0, 4u8), (1, 2), (2, 3)] {
        let part = &memory.pool[place * IMAGE_SIZE..(place + 1) * IMAGE_SIZE];
        assert!(part.iter().all(|&b| b == value));
    }
    assert_eq!(publisher.last_synchronized_frame_seq, None);
}

#[test]
fn what_belongs_to_a_frame_comes_between_its_pixels_and_its_record() {
    let (memory, mut publisher) = up();
    let pixels = vec![0u8; IMAGE_SIZE];
    let before = publisher.update_heartbeat(1);
    let ops = publisher.publish_image_with(&pixels, 1, 2, memory.view().image_write_idx, before);
    assert!(matches!(ops[0], ShmOp::CopyPixels { at: 0 }));
    assert!(matches!(ops[1], ShmOp::Copy { at: 16, .. }));
    assert!(matches!(ops[2], ShmOp::Copy { at: 128, .. }));
    assert!(matches!(ops[3], ShmOp::Exchange { state_at: 64, index_at: 65, value: 0x80 }));
    let states = FrameStates { image: 0x81, poses: [1, 1, 1, 1] };
    assert!(!ShmPublisher::synchronized_frame_consumed(&states));
    assert!(publisher
        .try_publish_synchronized_image(&states, &pixels, 9, 0, 0, Vec::new())
        .is_none());
}

#[test]
fn frames_of_the_wrong_shape_stay_in() {
    assert_eq!(check_frame(CapturedFrameKind::Rgb8, 1440, 1080, IMAGE_SIZE), None);
    assert_eq!(
        check_frame(CapturedFrameKind::Depth, 1440, 1080, IMAGE_SIZE),
        Some(FrameFault::WrongKind)
    );
    assert_eq!(
        check_frame(CapturedFrameKind::Rgb8, 1440, 1080, IMAGE_SIZE - 1),
        Some(FrameFault::WrongLength)
    );
    assert_eq!(
        check_frame(CapturedFrameKind::Rgb8, 1080, 1440, IMAGE_SIZE),
        Some(FrameFault::WrongResolution)
    );
    assert_eq!(
        check_frame(CapturedFrameKind::Rgb8, u32::MAX, u32::MAX, 3),
        Some(FrameFault::WrongLength)
    );
    let (memory, mut publisher) = up();
    let pixels = vec![0u8; 12];
    let small = CapturedFrame { kind: CapturedFrameKind::Rgb8, width: 2, height: 2, data: &pixels };
    assert!(snapshot(1, None).captured(&mut publisher, &small, &memory.view()).is_none());
    assert_eq!(publisher.current_buffer_id, 0);
}

#[test]
fn truth_of_another_frame_does_not_go_along() {
    let mut data = ExtractedPoseData::default();
    let stamp5 = TalosFrameStamp { frame_seq: 5, timestamp_ns: 1 };
    let taken = TalosGroundTruthFrame { frame_seq: 4, batch: Some(stamp(4)) };
    extract_pose_data(&mut data, &stamp5, Some(measured()), &chassis(), &taken);
    assert!(data.valid && data.ground_truth.is_none());
    let taken = TalosGroundTruthFrame { frame_seq: 5, batch: Some(stamp(5)) };
    extract_pose_data(&mut data, &stamp5, Some(measured()), &chassis(), &taken);
    assert_eq!(data.ground_truth.map(|b| b.frame_seq), Some(5));
    assert_eq!(data.pose.map(|p| p.chassis_observation.frame_seq), Some(5));
    extract_pose_data(&mut data, &stamp5, None, &chassis(), &taken);
    assert!(!data.valid && data.pose.is_none());
    assert!(take_snapshot(Some(&data)).is_none());
    assert!(take_snapshot(None).is_none());
    assert!(take_snapshot(Some(&ExtractedPoseData::default())).is_none());
}

#[test]
fn frames_are_numbered_one_after_the_other() {
    let mut next = 0;
    let mut stamp = TalosFrameStamp::default();
    for n in 0..3 {
        advance_talos_frame_stamp(&mut next, &mut stamp, 50 + n);
        assert_eq!(stamp, TalosFrameStamp { frame_seq: n, timestamp_ns: 50 + n });
    }
    next = u64::MAX;
    advance_talos_frame_stamp(&mut next, &mut stamp, 1);
    assert_eq!((stamp.frame_seq, next), (u64::MAX, 0));
}

#[test]
fn a_frame_that_is_held_back_may_be_of_any_length() {
    let (memory, mut publisher) = up();
    publisher.last_synchronized_frame_seq = Some(5);
    let free = memory.view().states;
    let busy = FrameStates { image: FLAG_NEW | 1, ..free };
    assert!(publisher.may_go_out(6, &free));
    assert!(!publisher.may_go_out(5, &free));
    assert!(!publisher.may_go_out(6, &busy));
    for (seq, states) in [(5, free), (4, free), (6, busy)] {
        let r = publisher.try_publish_synchronized_image(&states, &[1, 2], seq, 9, 0, Vec::new());
        assert!(r.is_none());
        assert_eq!(publisher.current_buffer_id, 0);
        assert_eq!(publisher.last_synchronized_frame_seq, Some(5));
    }
}

#[test]
fn the_chassis_record_of_a_frame_is_read_on_its_channel() {
    let (mut memory, mut publisher) = up();
    let data = vec![0u8; IMAGE_SIZE];
    let ops = snapshot(3, None).captured(&mut publisher, &frame(&data), &memory.view()).unwrap();
    memory.run(&ops, &data);
    assert_eq!(memory.u32_at(1968), 0);
    let mut reader = SnapshotReader::begin();
    assert_eq!(reader.started(memory.u32_at(1968)), ReadAction::LoadMarker);
    let subscriber = connected(&memory);
    let pose = memory.take_pose(&subscriber, PoseIndex::ChassisObservation).unwrap();
    assert_eq!(pose.frame_seq, 3);
    assert_eq!(pose.position[2], chassis().wz_radps);
}
