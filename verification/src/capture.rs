//! What goes out with a captured frame.
//!
//! A frame, the poses it was taken from and the ground truth of the same moment carry the same
//! number. They go out in one piece: a consumer that sees the frame finds the rest in place.
use crate::float::{F32, F64};
use crate::ground_truth::{TalosFrameStamp, TalosGroundTruthFrame};
use crate::layout::{
    zeros3, CameraInfo, ChassisObservation, GroundTruthBatch, PoseIndex, PoseMeta, RuntimeState,
    IMAGE_HEIGHT, IMAGE_SIZE, IMAGE_WIDTH,
};
use crate::memory::ShmOp;
use crate::publisher::{FrameStates, ShmPublisher};
use vstd::prelude::*;

verus! {

/// The motion of the chassis over one step.
#[derive(Debug, Clone, Copy)]
pub struct ChassisObservationFrame {
    pub dt_s: F32,
    pub v_body: [F32; 2],
    pub wz_radps: F32,
    pub wheel_linear_mps: [F32; 4],
    pub wheel_angular_radps: [F32; 4],
    pub a_body: [F32; 2],
    pub alpha_z_radps2: F32,
    pub rpy_rad: [F32; 3],
    pub gyro_xyz_radps: [F32; 3],
    pub accel_xyz_mps2: [F32; 3],
}

/// The poses at the moment of a frame.
#[derive(Debug, Clone, Copy)]
pub struct CapturedPoseData {
    /// Where the gimbal's centre is in the world.
    pub gimbal_ros: [F32; 3],
    /// How the barrel points in the world, in the order w, x, y, z.
    pub gimbal_quat: [F32; 4],
    /// Where the muzzle is in the world.
    pub muzzle_world: [F32; 3],
    /// Where the camera is, relative to the gimbal.
    pub camera_rel: [F32; 3],
    pub chassis_observation: ChassisObservation,
}

/// What was measured of the poses.
#[derive(Debug, Clone, Copy)]
pub struct PoseMeasurement {
    pub gimbal_ros: [F32; 3],
    pub gimbal_quat: [F32; 4],
    pub muzzle_world: [F32; 3],
    pub camera_rel: [F32; 3],
}

/// What belongs to the frame that is being rendered.
#[derive(Debug, Clone, Copy)]
pub struct ExtractedPoseData {
    pub frame_seq: u64,
    pub timestamp_ns: u64,
    pub pose: Option<CapturedPoseData>,
    /// The ground truth of the same frame, where there is any.
    pub ground_truth: Option<GroundTruthBatch>,
    pub valid: bool,
}

impl Default for ExtractedPoseData {
    fn default() -> (r: Self)
        ensures
            r.frame_seq == 0,
            r.timestamp_ns == 0,
            r.pose is None,
            r.ground_truth is None,
            !r.valid,
    {
        ExtractedPoseData {
            frame_seq: 0,
            timestamp_ns: 0,
            pose: None,
            ground_truth: None,
            valid: false,
        }
    }
}

/// What goes out with a frame.
#[derive(Debug, Clone, Copy)]
pub struct TalosSnapshot {
    pub frame_seq: u64,
    pub timestamp_ns: u64,
    pub pose: CapturedPoseData,
    pub ground_truth: Option<GroundTruthBatch>,
}

/// Gives the next frame its number and its time. `next` is the number that comes next.
pub fn advance_talos_frame_stamp(next: &mut u64, stamp: &mut TalosFrameStamp, now_ns: u64)
    ensures
        *final(stamp) == (TalosFrameStamp { frame_seq: *old(next), timestamp_ns: now_ns }),
        *final(next) == (*old(next)).wrapping_add(1),
{
    stamp.frame_seq = *next;
    stamp.timestamp_ns = now_ns;
    *next = next.wrapping_add(1);
}

/// The chassis record of a frame, with its marker at zero.
pub open spec fn observation_of(
    chassis: ChassisObservationFrame,
    frame_seq: u64,
    timestamp_ns: u64,
) -> ChassisObservation {
    ChassisObservation {
        frame_seq,
        timestamp_ns,
        dt_s: chassis.dt_s,
        v_body: chassis.v_body,
        wz_radps: chassis.wz_radps,
        wheel_linear_mps: chassis.wheel_linear_mps,
        wheel_angular_radps: chassis.wheel_angular_radps,
        a_body: chassis.a_body,
        alpha_z_radps2: chassis.alpha_z_radps2,
        rpy_rad: chassis.rpy_rad,
        gyro_xyz_radps: chassis.gyro_xyz_radps,
        accel_xyz_mps2: chassis.accel_xyz_mps2,
        seqlock: 0,
    }
}

/// The poses of a frame.
pub open spec fn poses_of(
    measured: PoseMeasurement,
    chassis: ChassisObservationFrame,
    frame_seq: u64,
    timestamp_ns: u64,
) -> CapturedPoseData {
    CapturedPoseData {
        gimbal_ros: measured.gimbal_ros,
        gimbal_quat: measured.gimbal_quat,
        muzzle_world: measured.muzzle_world,
        camera_rel: measured.camera_rel,
        chassis_observation: observation_of(chassis, frame_seq, timestamp_ns),
    }
}

/// The poses of a frame, from what was measured.
pub fn captured_pose_data(
    measured: &PoseMeasurement,
    chassis_obs: &ChassisObservationFrame,
    frame_seq: u64,
    timestamp_ns: u64,
) -> (r: CapturedPoseData)
    ensures
        r == poses_of(*measured, *chassis_obs, frame_seq, timestamp_ns),
{
    CapturedPoseData {
        gimbal_ros: measured.gimbal_ros,
        gimbal_quat: measured.gimbal_quat,
        muzzle_world: measured.muzzle_world,
        camera_rel: measured.camera_rel,
        chassis_observation: ChassisObservation {
            frame_seq,
            timestamp_ns,
            dt_s: chassis_obs.dt_s,
            v_body: chassis_obs.v_body,
            wz_radps: chassis_obs.wz_radps,
            wheel_linear_mps: chassis_obs.wheel_linear_mps,
            wheel_angular_radps: chassis_obs.wheel_angular_radps,
            a_body: chassis_obs.a_body,
            alpha_z_radps2: chassis_obs.alpha_z_radps2,
            rpy_rad: chassis_obs.rpy_rad,
            gyro_xyz_radps: chassis_obs.gyro_xyz_radps,
            accel_xyz_mps2: chassis_obs.accel_xyz_mps2,
            seqlock: 0,
        },
    }
}

/// Gathers what belongs to the frame that is being rendered. The ground truth goes along only where
/// it was taken under the frame's own number: none at all is better than that of another frame.
/// `measured` is missing where the camera, the gimbal or the muzzle cannot be found.
pub fn extract_pose_data(
    pose_data: &mut ExtractedPoseData,
    stamp: &TalosFrameStamp,
    measured: Option<PoseMeasurement>,
    chassis_obs: &ChassisObservationFrame,
    ground_truth: &TalosGroundTruthFrame,
)
    ensures
        final(pose_data).frame_seq == stamp.frame_seq,
        final(pose_data).timestamp_ns == stamp.timestamp_ns,
        final(pose_data).ground_truth == if ground_truth.frame_seq == stamp.frame_seq {
            ground_truth.batch
        } else {
            None
        },
        final(pose_data).pose == match measured {
            Some(m) => Some(poses_of(m, *chassis_obs, stamp.frame_seq, stamp.timestamp_ns)),
            None => None,
        },
        final(pose_data).valid == measured is Some,
{
    pose_data.frame_seq = stamp.frame_seq;
    pose_data.timestamp_ns = stamp.timestamp_ns;
    pose_data.ground_truth = if ground_truth.frame_seq == stamp.frame_seq {
        ground_truth.batch
    } else {
        None
    };
    match measured {
        Some(m) => {
            pose_data.pose = Some(
                captured_pose_data(&m, chassis_obs, stamp.frame_seq, stamp.timestamp_ns),
            );
            pose_data.valid = true;
        },
        None => {
            pose_data.pose = None;
            pose_data.valid = false;
        },
    }
}

/// What goes out with the frame: nothing unless its poses are known.
pub fn take_snapshot(extracted: Option<&ExtractedPoseData>) -> (r: Option<TalosSnapshot>)
    ensures
        r is Some <==> extracted is Some && extracted->0.valid && extracted->0.pose is Some,
        r matches Some(snapshot) ==> snapshot == (TalosSnapshot {
            frame_seq: extracted->0.frame_seq,
            timestamp_ns: extracted->0.timestamp_ns,
            pose: extracted->0.pose->0,
            ground_truth: extracted->0.ground_truth,
        }),
{
    match extracted {
        Some(data) => {
            if !data.valid {
                return None;
            }
            match data.pose {
                Some(pose) => Some(
                    TalosSnapshot {
                        frame_seq: data.frame_seq,
                        timestamp_ns: data.timestamp_ns,
                        pose,
                        ground_truth: data.ground_truth,
                    },
                ),
                None => None,
            }
        },
        None => None,
    }
}

/// What a captured frame holds.
#[derive(Debug, Clone, Copy, PartialEq, Eq, Structural)]
pub enum CapturedFrameKind {
    Rgb8,
    Depth,
}

/// Why a frame does not go out.
#[derive(Debug, Clone, Copy, PartialEq, Eq, Structural)]
pub enum FrameFault {
    /// It holds no colours.
    WrongKind,
    /// It has not as many bytes as its width and height say.
    WrongLength,
    /// It is not as wide or not as high as frames are.
    WrongResolution,
}

/// What is wrong with a frame: the first fault that holds, if any does.
pub open spec fn frame_fault(kind: CapturedFrameKind, width: u32, height: u32, len: nat) -> Option<
    FrameFault,
> {
    if kind != CapturedFrameKind::Rgb8 {
        Some(FrameFault::WrongKind)
    } else if len != width * height * 3 {
        Some(FrameFault::WrongLength)
    } else if width != IMAGE_WIDTH || height != IMAGE_HEIGHT {
        Some(FrameFault::WrongResolution)
    } else {
        None
    }
}

/// What is wrong with a frame, if anything is.
pub fn check_frame(kind: CapturedFrameKind, width: u32, height: u32, len: usize) -> (r: Option<
    FrameFault,
>)
    ensures
        r == frame_fault(kind, width, height, len as nat),
        r is None ==> len == IMAGE_SIZE,
{
    if kind != CapturedFrameKind::Rgb8 {
        return Some(FrameFault::WrongKind);
    }
    assert(width * height * 3 <= 0xffff_ffff * 0xffff_ffff * 3) by (nonlinear_arith)
        requires
            width <= 0xffff_ffff,
            height <= 0xffff_ffff,
    ;
    let expected: u128 = width as u128 * height as u128 * 3;
    if len as u128 != expected {
        return Some(FrameFault::WrongLength);
    }
    if width != IMAGE_WIDTH || height != IMAGE_HEIGHT {
        return Some(FrameFault::WrongResolution);
    }
    assert(width * height == 1440 * 1080) by (nonlinear_arith)
        requires
            width == 1440,
            height == 1080,
    ;
    None
}

/// No turn at all, in the order w, x, y, z.
pub open spec fn no_turn() -> [F32; 4] {
    [F32 { bits: 0x3f80_0000 }, F32 { bits: 0 }, F32 { bits: 0 }, F32 { bits: 0 }]
}

/// What the odometry channel says: where the gimbal's centre is.
pub open spec fn odom_pose(pose: CapturedPoseData, frame_seq: u64, timestamp_ns: u64) -> PoseMeta {
    PoseMeta {
        frame_seq,
        position: pose.gimbal_ros,
        quaternion: no_turn(),
        timestamp_ns,
        aux: crate::layout::zero4(),
    }
}

/// What the gimbal channel says: how the barrel points.
pub open spec fn gimbal_pose(pose: CapturedPoseData, frame_seq: u64, timestamp_ns: u64) -> PoseMeta {
    PoseMeta {
        frame_seq,
        position: crate::layout::zero3(),
        quaternion: pose.gimbal_quat,
        timestamp_ns,
        aux: crate::layout::zero4(),
    }
}

/// What the muzzle channel says: where the muzzle is and how the barrel points, which together are
/// the line of fire.
pub open spec fn muzzle_pose(pose: CapturedPoseData, frame_seq: u64, timestamp_ns: u64) -> PoseMeta {
    PoseMeta {
        frame_seq,
        position: pose.muzzle_world,
        quaternion: pose.gimbal_quat,
        timestamp_ns,
        aux: crate::layout::zero4(),
    }
}

/// What the camera channel says: where the camera is, relative to the gimbal.
pub open spec fn camera_pose(pose: CapturedPoseData, frame_seq: u64, timestamp_ns: u64) -> PoseMeta {
    PoseMeta {
        frame_seq,
        position: pose.camera_rel,
        quaternion: no_turn(),
        timestamp_ns,
        aux: crate::layout::zero4(),
    }
}

/// The chassis record, under the frame's number and time.
pub open spec fn stamped_observation(
    pose: CapturedPoseData,
    frame_seq: u64,
    timestamp_ns: u64,
) -> ChassisObservation {
    ChassisObservation { frame_seq, timestamp_ns, ..pose.chassis_observation }
}

/// What the channel for readers of the old chassis observation says.
pub open spec fn legacy_pose(pose: CapturedPoseData, frame_seq: u64, timestamp_ns: u64) -> PoseMeta {
    let observation = pose.chassis_observation;
    PoseMeta {
        frame_seq,
        position: [observation.v_body[0], observation.v_body[1], observation.wz_radps],
        quaternion: observation.wheel_angular_radps,
        timestamp_ns,
        aux: [
            observation.a_body[0],
            observation.a_body[1],
            observation.alpha_z_radps2,
            observation.dt_s,
        ],
    }
}

/// The producer owns the given slots of the five pose channels.
pub open spec fn owns(m: Seq<u8>, write_idx: [u8; 5]) -> bool {
    forall|k: int|
        0 <= k < 5 ==> (#[trigger] crate::publisher_records::region(m).poses[k]).write_idx
            == write_idx[k]
}

/// From `m` to `after`, each pose channel offers what the frame says, the chassis record is the
/// frame's, and nothing else has changed.
pub open spec fn poses_published(
    m: Seq<u8>,
    after: Seq<u8>,
    pose: CapturedPoseData,
    frame_seq: u64,
    timestamp_ns: u64,
) -> bool {
    let old_region = crate::publisher_records::region(m);
    let region = crate::publisher_records::region(after);
    &&& region == (crate::layout::ShmMetaRegion {
        poses: region.poses,
        chassis_observation: stamped_observation(pose, frame_seq, timestamp_ns),
        ..old_region
    })
    &&& region.poses[0] == old_region.poses[0].published(
        gimbal_pose(pose, frame_seq, timestamp_ns),
    )
    &&& region.poses[1] == old_region.poses[1].published(odom_pose(pose, frame_seq, timestamp_ns))
    &&& region.poses[2] == old_region.poses[2].published(
        muzzle_pose(pose, frame_seq, timestamp_ns),
    )
    &&& region.poses[3] == old_region.poses[3].published(
        camera_pose(pose, frame_seq, timestamp_ns),
    )
    &&& region.poses[4] == old_region.poses[4].published(
        legacy_pose(pose, frame_seq, timestamp_ns),
    )
}

/// Two sequences of steps that spare the image do so together.
proof fn lemma_spare_both(first: Seq<ShmOp>, second: Seq<ShmOp>)
    requires
        crate::publisher::all_spare_the_image(first),
        crate::publisher::all_spare_the_image(second),
    ensures
        crate::publisher::all_spare_the_image(first + second),
{
    assert forall|i: int| 0 <= i < (first + second).len() implies
        crate::publisher::spares_the_image(#[trigger] (first + second)[i]) by {
        if i < first.len() {
            assert((first + second)[i] == first[i]);
        } else {
            assert((first + second)[i] == second[i - first.len()]);
        }
    }
}

/// From every region in whose channels the producer owns the slots of `write_idx`, the steps
/// publish the poses.
pub open spec fn publishes_poses(
    ops: Seq<ShmOp>,
    pose: CapturedPoseData,
    frame_seq: u64,
    timestamp_ns: u64,
    write_idx: [u8; 5],
) -> bool {
    forall|m: Seq<u8>|
        crate::memory::sized(m) && owns(m, write_idx) ==> #[trigger] poses_published(
            m,
            crate::memory::run(m, ops),
            pose,
            frame_seq,
            timestamp_ns,
        )
}

/// Sends the poses and the chassis record of a frame.
///
/// `write_idx` names the slots that the producer owns, in the order of the channels.
pub fn publish_pose_data(
    publisher: &ShmPublisher,
    frame_seq: u64,
    timestamp_ns: u64,
    pose: &CapturedPoseData,
    write_idx: &[u8; 5],
) -> (ops: Vec<ShmOp>)
    requires
        forall|k: int| 0 <= k < 5 ==> #[trigger] write_idx[k] < 3,
    ensures
        crate::publisher::all_spare_the_image(ops@),
        publishes_poses(ops@, *pose, frame_seq, timestamp_ns, *write_idx),
        forall|m: Seq<u8>|
            crate::memory::sized(m) && owns(m, *write_idx) ==> #[trigger] poses_published(
                m,
                crate::memory::run(m, ops@),
                *pose,
                frame_seq,
                timestamp_ns,
            ),
{
    let upright = [F32 { bits: 0x3f80_0000 }, F32::zero(), F32::zero(), F32::zero()];
    assert(upright == no_turn());
    let mut ops = publisher.publish_pose(
        PoseIndex::Odom,
        pose.gimbal_ros,
        upright,
        frame_seq,
        timestamp_ns,
        write_idx[1],
    );
    let mut gimbal = publisher.publish_pose(
        PoseIndex::Gimbal,
        zeros3(),
        pose.gimbal_quat,
        frame_seq,
        timestamp_ns,
        write_idx[0],
    );
    let mut muzzle = publisher.publish_pose(
        PoseIndex::Muzzle,
        pose.muzzle_world,
        pose.gimbal_quat,
        frame_seq,
        timestamp_ns,
        write_idx[2],
    );
    let mut camera = publisher.publish_pose(
        PoseIndex::Camera,
        pose.camera_rel,
        upright,
        frame_seq,
        timestamp_ns,
        write_idx[3],
    );
    let mut observation = pose.chassis_observation;
    observation.frame_seq = frame_seq;
    observation.timestamp_ns = timestamp_ns;
    let mut chassis = publisher.publish_chassis_observation(&observation);
    let mut legacy = publisher.publish_pose_with_aux(
        PoseIndex::ChassisObservation,
        [observation.v_body[0], observation.v_body[1], observation.wz_radps],
        observation.wheel_angular_radps,
        [
            observation.a_body[0],
            observation.a_body[1],
            observation.alpha_z_radps2,
            observation.dt_s,
        ],
        frame_seq,
        timestamp_ns,
        write_idx[4],
    );
    let ghost (a, b, c, d, e, f) = (ops@, gimbal@, muzzle@, camera@, chassis@, legacy@);
    ops.append(&mut gimbal);
    ops.append(&mut muzzle);
    ops.append(&mut camera);
    ops.append(&mut chassis);
    ops.append(&mut legacy);
    proof {
        assert(ops@ =~= a + b + c + d + e + f);
        lemma_spare_both(a, b);
        lemma_spare_both(a + b, c);
        lemma_spare_both(a + b + c, d);
        lemma_spare_both(a + b + c + d, e);
        lemma_spare_both(a + b + c + d + e, f);
        assert forall|m: Seq<u8>| crate::memory::sized(m) && owns(m, *write_idx) implies
            #[trigger] poses_published(
            m,
            crate::memory::run(m, ops@),
            *pose,
            frame_seq,
            timestamp_ns,
        ) by {
            crate::memory::lemma_run_concat(m, a, b);
            crate::memory::lemma_run_concat(m, a + b, c);
            crate::memory::lemma_run_concat(m, a + b + c, d);
            crate::memory::lemma_run_concat(m, a + b + c + d, e);
            crate::memory::lemma_run_concat(m, a + b + c + d + e, f);
            let m1 = crate::memory::run(m, a);
            let m2 = crate::memory::run(m1, b);
            let m3 = crate::memory::run(m2, c);
            let m4 = crate::memory::run(m3, d);
            let m5 = crate::memory::run(m4, e);
            let m6 = crate::memory::run(m5, f);
            crate::memory::lemma_run_len(m, a);
            crate::memory::lemma_run_len(m1, b);
            crate::memory::lemma_run_len(m2, c);
            crate::memory::lemma_run_len(m3, d);
            crate::memory::lemma_run_len(m4, e);
            let owned = crate::publisher_records::region(m).poses;
            assert(owned[0].write_idx == write_idx[0]);
            assert(owned[1].write_idx == write_idx[1]);
            assert(owned[2].write_idx == write_idx[2]);
            assert(owned[3].write_idx == write_idx[3]);
            assert(owned[4].write_idx == write_idx[4]);
            let odom = odom_pose(*pose, frame_seq, timestamp_ns);
            let aim = gimbal_pose(*pose, frame_seq, timestamp_ns);
            let fire = muzzle_pose(*pose, frame_seq, timestamp_ns);
            let eye = camera_pose(*pose, frame_seq, timestamp_ns);
            let old_way = legacy_pose(*pose, frame_seq, timestamp_ns);
            assert(crate::publisher_records::pose_published(m, m1, PoseIndex::Odom, odom));
            assert(crate::publisher_records::pose_published(m1, m2, PoseIndex::Gimbal, aim));
            assert(crate::publisher_records::pose_published(m2, m3, PoseIndex::Muzzle, fire));
            assert(crate::publisher_records::pose_published(m3, m4, PoseIndex::Camera, eye));
            assert(crate::publisher_records::pose_published(
                m5,
                m6,
                PoseIndex::ChassisObservation,
                old_way,
            ));
        }
    }
    ops
}

/// A frame as it comes back from the renderer.
pub struct CapturedFrame<'a> {
    pub kind: CapturedFrameKind,
    pub width: u32,
    pub height: u32,
    pub data: &'a [u8],
}

/// What the producer reads in the region before it sends a frame.
#[derive(Debug, Clone, Copy)]
pub struct ProducerView {
    pub states: FrameStates,
    /// The slot of the image channel that the producer owns.
    pub image_write_idx: u8,
    /// The slots of the pose channels that the producer owns.
    pub pose_write_idx: [u8; 5],
    /// The marker of the ground truth.
    pub truth_marker: u32,
}

impl ProducerView {
    /// The slots exist.
    pub open spec fn wf(self) -> bool {
        self.image_write_idx < 3 && forall|k: int| 0 <= k < 5 ==> #[trigger] self.pose_write_idx[k]
            < 3
    }

    /// This is what the region says.
    pub open spec fn is_of(self, m: Seq<u8>) -> bool {
        &&& crate::publisher_records::region(m).image.write_idx == self.image_write_idx
        &&& owns(m, self.pose_write_idx)
        &&& crate::publisher_records::region(m).ground_truth.seqlock == self.truth_marker
    }
}

/// From `m` to `after`, the frame's record is offered, its poses and its chassis record are in
/// place, and so is its ground truth where it has one. Nothing else has changed.
pub open spec fn frame_published(
    m: Seq<u8>,
    after: Seq<u8>,
    snapshot: TalosSnapshot,
    buffer_id: u8,
) -> bool {
    let old_region = crate::publisher_records::region(m);
    let region = crate::publisher_records::region(after);
    let record = crate::publisher::image_record(
        snapshot.frame_seq,
        snapshot.timestamp_ns,
        buffer_id,
    );
    &&& region == (crate::layout::ShmMetaRegion {
        image: old_region.image.published(record),
        poses: region.poses,
        chassis_observation: stamped_observation(
            snapshot.pose,
            snapshot.frame_seq,
            snapshot.timestamp_ns,
        ),
        ground_truth: match snapshot.ground_truth {
            Some(batch) => GroundTruthBatch {
                seqlock: crate::publisher_records::written_marker(
                    old_region.ground_truth.seqlock,
                ),
                ..batch
            },
            None => old_region.ground_truth,
        },
        ..old_region
    })
    &&& region.poses[0] == old_region.poses[0].published(
        gimbal_pose(snapshot.pose, snapshot.frame_seq, snapshot.timestamp_ns),
    )
    &&& region.poses[1] == old_region.poses[1].published(
        odom_pose(snapshot.pose, snapshot.frame_seq, snapshot.timestamp_ns),
    )
    &&& region.poses[2] == old_region.poses[2].published(
        muzzle_pose(snapshot.pose, snapshot.frame_seq, snapshot.timestamp_ns),
    )
    &&& region.poses[3] == old_region.poses[3].published(
        camera_pose(snapshot.pose, snapshot.frame_seq, snapshot.timestamp_ns),
    )
    &&& region.poses[4] == old_region.poses[4].published(
        legacy_pose(snapshot.pose, snapshot.frame_seq, snapshot.timestamp_ns),
    )
}

/// The steps end with the frame's record; what belongs to the frame comes before it and spares the
/// image channel.
pub open spec fn commits_last(
    ops: Seq<ShmOp>,
    snapshot: TalosSnapshot,
    buffer_id: u8,
    write_idx: u8,
) -> bool {
    exists|belongs: Seq<ShmOp>| #[trigger]
        crate::publisher::all_spare_the_image(belongs) && crate::publisher::image_steps(
            ops,
            belongs,
            crate::publisher::image_record(snapshot.frame_seq, snapshot.timestamp_ns, buffer_id),
            write_idx,
        )
}

impl TalosSnapshot {
    /// Sends a frame with all that belongs to it, or nothing at all: where the frame is not one
    /// that can go out, where a newer one already has, or where the consumer is not done with the
    /// last.
    pub fn captured(
        &self,
        publisher: &mut ShmPublisher,
        frame: &CapturedFrame,
        view: &ProducerView,
    ) -> (r: Option<Vec<ShmOp>>)
        requires
            old(publisher).wf(),
            frame_fault(frame.kind, frame.width, frame.height, frame.data@.len()) is None && old(
                publisher,
            ).newer(self.frame_seq) && view.states.consumed() ==> view.wf(),
        ensures
            final(publisher).wf(),
            r is Some <==> frame_fault(
                frame.kind,
                frame.width,
                frame.height,
                frame.data@.len(),
            ) is None && old(publisher).newer(self.frame_seq) && view.states.consumed(),
            r is None ==> *final(publisher) == *old(publisher),
            r matches Some(ops) ==> {
                &&& final(publisher).current_buffer_id == (old(publisher).current_buffer_id + 1)
                    % 3
                &&& final(publisher).last_synchronized_frame_seq == Some(self.frame_seq)
                &&& commits_last(
                    ops@,
                    *self,
                    old(publisher).current_buffer_id,
                    view.image_write_idx,
                )
                &&& forall|m: Seq<u8>|
                    crate::memory::sized(m) && view.is_of(m) ==> #[trigger] frame_published(
                        m,
                        crate::memory::run(m, ops@),
                        *self,
                        old(publisher).current_buffer_id,
                    )
            },
    {
        if check_frame(frame.kind, frame.width, frame.height, frame.data.len()).is_some() {
            return None;
        }
        if !publisher.may_go_out(self.frame_seq, &view.states) {
            return None;
        }
        let mut belongs = publish_pose_data(
            publisher,
            self.frame_seq,
            self.timestamp_ns,
            &self.pose,
            &view.pose_write_idx,
        );
        let ghost poses = belongs@;
        let ghost mut truth: Seq<ShmOp> = Seq::empty();
        assert(poses + truth =~= poses);
        if let Some(batch) = &self.ground_truth {
            let mut ops = publisher.publish_ground_truth(batch, view.truth_marker);
            proof {
                truth = ops@;
                lemma_spare_both(poses, truth);
            }
            belongs.append(&mut ops);
        }
        assert(belongs@ =~= poses + truth);
        let ghost all = belongs@;
        let ghost buffer_id = publisher.current_buffer_id;
        let ghost record = crate::publisher::image_record(
            self.frame_seq,
            self.timestamp_ns,
            buffer_id,
        );
        let r = publisher.try_publish_synchronized_image(
            &view.states,
            frame.data,
            self.frame_seq,
            self.timestamp_ns,
            view.image_write_idx,
            belongs,
        );
        proof {
            if r is Some {
                let ops = r->0@;
                assert(crate::publisher::all_spare_the_image(all));
                assert forall|m: Seq<u8>| crate::memory::sized(m) && view.is_of(m) implies
                    #[trigger] frame_published(
                    m,
                    crate::memory::run(m, ops),
                    *self,
                    buffer_id,
                ) by {
                    assert(crate::publisher::image_committed(m, ops, all, record));
                    let m1 = crate::memory::run(m, poses);
                    crate::memory::lemma_run_len(m, poses);
                    crate::memory::lemma_run_concat(m, poses, truth);
                    assert(poses_published(
                        m,
                        m1,
                        self.pose,
                        self.frame_seq,
                        self.timestamp_ns,
                    ));
                    let m2 = crate::memory::run(m1, truth);
                    if self.ground_truth is Some {
                        assert(crate::publisher_records::truth_published(
                            m1,
                            m2,
                            self.ground_truth->0,
                        ));
                    }
                }
            }
        }
        r
    }
}

/// The state byte that an offer leaves says that the offer is new, and names the slot it is in.
proof fn lemma_offer(h: crate::triple_buffer::Hands)
    requires
        h.wf(),
    ensures
        h.published().fresh(),
        h.published().ready() == h.write_idx,
        h.published().wf(),
{
    crate::triple_buffer::lemma_state_bits(h.state);
    crate::triple_buffer::lemma_state_bits(h.write_idx);
}

/// A consumer that sees a frame finds its poses, its chassis record and its ground truth under the
/// same number: what is offered on the image channel and on each of the pose channels behind a frame
/// carries the frame's number, and so does the ground truth where it was taken for the frame.
pub proof fn law_frame_poses_and_truth_carry_one_number(
    m: Seq<u8>,
    after: Seq<u8>,
    snapshot: TalosSnapshot,
    buffer_id: u8,
)
    requires
        frame_published(m, after, snapshot, buffer_id),
        crate::publisher_records::region(m).image.hands().wf(),
        forall|k: int|
            0 <= k < 5 ==> (#[trigger] crate::publisher_records::region(m).poses[k]).hands().wf(),
        snapshot.ground_truth matches Some(batch) ==> batch.frame_seq == snapshot.frame_seq,
    ensures
        ({
            let region = crate::publisher_records::region(after);
            &&& region.image.hands().fresh()
            &&& region.image.offer().seq == snapshot.frame_seq
            &&& forall|k: int|
                0 <= k < 5 ==> (#[trigger] region.poses[k]).hands().fresh()
                    && region.poses[k].offer().frame_seq == snapshot.frame_seq
            &&& region.chassis_observation.frame_seq == snapshot.frame_seq
            &&& snapshot.ground_truth is Some ==> region.ground_truth.frame_seq
                == snapshot.frame_seq && region.ground_truth.seqlock % 2 == 0
        }),
{
    let before = crate::publisher_records::region(m);
    let region = crate::publisher_records::region(after);
    lemma_offer(before.image.hands());
    crate::publisher_records::law_markers_alternate(before.ground_truth.seqlock);
    assert forall|k: int| 0 <= k < 5 implies (#[trigger] region.poses[k]).hands().fresh()
        && region.poses[k].offer().frame_seq == snapshot.frame_seq by {
        lemma_offer(before.poses[k].hands());
    }
}

/// A frame that has gone out holds the next one back until the consumer has taken the frame and its
/// poses: until then the region says that it is not consumed.
pub proof fn law_a_frame_holds_the_next_one_back(
    m: Seq<u8>,
    after: Seq<u8>,
    snapshot: TalosSnapshot,
    buffer_id: u8,
)
    requires
        frame_published(m, after, snapshot, buffer_id),
        crate::publisher_records::region(m).image.hands().wf(),
    ensures
        !FrameStates::of(after).consumed(),
{
    lemma_offer(crate::publisher_records::region(m).image.hands());
}

/// The next frame waits for all five channels: it may go out exactly when the consumer has taken the
/// image and each of the four poses that belong to it. The channel for readers of the old chassis
/// observation does not count.
pub proof fn law_next_frame_waits_for_five_channels(m: Seq<u8>)
    ensures
        FrameStates::of(m).consumed() <==> {
            &&& !crate::publisher_records::region(m).image.hands().fresh()
            &&& forall|k: int|
                0 <= k < 4 ==> !(#[trigger] crate::publisher_records::region(
                    m,
                ).poses[k]).hands().fresh()
        },
{
    let states = FrameStates::of(m);
    let region = crate::publisher_records::region(m);
    assert(states.poses[0] == region.poses[0].state);
    assert(states.poses[1] == region.poses[1].state);
    assert(states.poses[2] == region.poses[2].state);
    assert(states.poses[3] == region.poses[3].state);
    if states.consumed() {
        assert forall|k: int| 0 <= k < 4 implies !(#[trigger] region.poses[k]).hands().fresh() by {
            assert(states.poses[k] & crate::layout::FLAG_NEW == 0);
        }
    }
    if !region.image.hands().fresh() && forall|k: int|
        0 <= k < 4 ==> !(#[trigger] region.poses[k]).hands().fresh() {
        assert forall|k: int| 0 <= k < 4 implies #[trigger] states.poses[k]
            & crate::layout::FLAG_NEW == 0 by {
            assert(!region.poses[k].hands().fresh());
        }
    }
}

/// What belongs to a frame was taken under its number: from the moment a frame is stamped to the
/// moment it goes out, its poses and its ground truth are its own or they are missing.
pub proof fn law_only_truth_of_the_same_frame_goes_along(
    stamp: TalosFrameStamp,
    taken: TalosGroundTruthFrame,
    scene: crate::ground_truth::Scene,
    truth_stamp: TalosFrameStamp,
)
    requires
        taken.batch matches Some(batch) ==> taken.frame_seq == truth_stamp.frame_seq
            && crate::ground_truth::is_truth_of(batch, truth_stamp, scene),
    ensures
        ({
            let kept = if taken.frame_seq == stamp.frame_seq {
                taken.batch
            } else {
                None
            };
            kept matches Some(batch) ==> batch.frame_seq == stamp.frame_seq
        }),
{
}

/// The chassis record that goes out with a frame has its marker at zero, under which no reader starts
/// a copy; what it says of the motion reaches the consumer on the fifth pose channel.
pub proof fn law_observation_of_a_frame_comes_by_its_channel(
    m: Seq<u8>,
    after: Seq<u8>,
    snapshot: TalosSnapshot,
    measured: PoseMeasurement,
    chassis: ChassisObservationFrame,
    buffer_id: u8,
)
    requires
        crate::memory::sized(after),
        frame_published(m, after, snapshot, buffer_id),
        crate::publisher_records::region(m).poses[4].hands().wf(),
        snapshot.pose == poses_of(measured, chassis, snapshot.frame_seq, snapshot.timestamp_ns),
    ensures
        crate::wire::u32_at(after, 1968) == 0,
        !crate::seqlock::stable(crate::wire::u32_at(after, 1968)),
        crate::publisher_records::region(after).poses[4].hands().fresh(),
        crate::publisher_records::region(after).poses[4].offer() == legacy_pose(
            snapshot.pose,
            snapshot.frame_seq,
            snapshot.timestamp_ns,
        ),
{
    crate::region::lemma_parts(after);
    crate::wire::lemma_window(after, 1856, 1984);
    lemma_offer(crate::publisher_records::region(m).poses[4].hands());
}

/// What the simulator says of itself: whether it follows the vision process.
pub fn publish_talos_runtime_state_system(
    publisher: &ShmPublisher,
    stamp: &TalosFrameStamp,
    following: bool,
) -> (ops: Vec<ShmOp>)
    ensures
        crate::publisher_records::one_copy(ops@, crate::layout::RUNTIME_STATE_AT, 64),
        forall|m: Seq<u8>|
            crate::memory::sized(m) ==> crate::publisher_records::region(
                #[trigger] crate::memory::run(m, ops@),
            ) == (crate::layout::ShmMetaRegion {
                runtime_state: RuntimeState {
                    timestamp_ns: stamp.timestamp_ns,
                    following: if following {
                        1
                    } else {
                        0
                    },
                },
                ..crate::publisher_records::region(m)
            }),
{
    publisher.publish_runtime_state(
        &RuntimeState {
            timestamp_ns: stamp.timestamp_ns,
            following: if following {
                1
            } else {
                0
            },
        },
    )
}

/// The intrinsics of a camera without distortion.
pub fn camera_info(
    timestamp_ns: u64,
    fx: F64,
    fy: F64,
    cx: F64,
    cy: F64,
    width: u32,
    height: u32,
) -> (r: CameraInfo)
    ensures
        r == (CameraInfo {
            timestamp_ns,
            fx,
            fy,
            cx,
            cy,
            width,
            height,
            ..CameraInfo::blank()
        }),
{
    let zero = F64 { bits: 0 };
    CameraInfo {
        timestamp_ns,
        fx,
        fy,
        cx,
        cy,
        distortion: [zero, zero, zero, zero, zero],
        width,
        height,
    }
}

/// What a consumer reads on the channels behind a frame is what was measured for it, number by
/// number: where the gimbal's centre is, how the barrel points, where the muzzle is and where the
/// camera, all under the frame's number and time.
pub proof fn law_channels_say_what_was_measured(
    m: Seq<u8>,
    after: Seq<u8>,
    snapshot: TalosSnapshot,
    measured: PoseMeasurement,
    chassis: ChassisObservationFrame,
    buffer_id: u8,
)
    requires
        frame_published(m, after, snapshot, buffer_id),
        forall|k: int|
            0 <= k < 5 ==> (#[trigger] crate::publisher_records::region(m).poses[k]).hands().wf(),
        snapshot.pose == poses_of(measured, chassis, snapshot.frame_seq, snapshot.timestamp_ns),
    ensures
        ({
            let poses = crate::publisher_records::region(after).poses;
            let (gimbal, odom, muzzle, camera) = (
                poses[0].offer(),
                poses[1].offer(),
                poses[2].offer(),
                poses[3].offer(),
            );
            &&& forall|i: int|
                0 <= i < 3 ==> (#[trigger] odom.position[i]).bits == measured.gimbal_ros[i].bits
            &&& forall|i: int|
                0 <= i < 3 ==> (#[trigger] muzzle.position[i]).bits == measured.muzzle_world[i].bits
            &&& forall|i: int|
                0 <= i < 3 ==> (#[trigger] camera.position[i]).bits == measured.camera_rel[i].bits
            &&& forall|i: int| 0 <= i < 3 ==> (#[trigger] gimbal.position[i]).bits == 0
            &&& forall|i: int|
                0 <= i < 4 ==> (#[trigger] gimbal.quaternion[i]).bits == measured.gimbal_quat[i].bits
            &&& forall|i: int|
                0 <= i < 4 ==> (#[trigger] muzzle.quaternion[i]).bits == measured.gimbal_quat[i].bits
            &&& odom.quaternion[0].bits == 0x3f80_0000 && camera.quaternion[0].bits == 0x3f80_0000
            &&& forall|i: int|
                1 <= i < 4 ==> (#[trigger] odom.quaternion[i]).bits == 0 && camera.quaternion[i].bits
                    == 0
            &&& forall|k: int, i: int|
                #![trigger poses[k].offer().aux[i]]
                0 <= k < 4 && 0 <= i < 4 ==> poses[k].offer().aux[i].bits == 0
            &&& forall|k: int|
                0 <= k < 5 ==> (#[trigger] poses[k]).offer().frame_seq == snapshot.frame_seq
                    && poses[k].offer().timestamp_ns == snapshot.timestamp_ns
        }),
{
    let before = crate::publisher_records::region(m);
    let poses = crate::publisher_records::region(after).poses;
    lemma_offers(
        before.poses[0],
        gimbal_pose(snapshot.pose, snapshot.frame_seq, snapshot.timestamp_ns),
    );
    lemma_offers(
        before.poses[1],
        odom_pose(snapshot.pose, snapshot.frame_seq, snapshot.timestamp_ns),
    );
    lemma_offers(
        before.poses[2],
        muzzle_pose(snapshot.pose, snapshot.frame_seq, snapshot.timestamp_ns),
    );
    lemma_offers(
        before.poses[3],
        camera_pose(snapshot.pose, snapshot.frame_seq, snapshot.timestamp_ns),
    );
    lemma_offers(
        before.poses[4],
        legacy_pose(snapshot.pose, snapshot.frame_seq, snapshot.timestamp_ns),
    );
}

/// What a producer publishes is what its channel offers.
proof fn lemma_offers(channel: crate::layout::PoseTripleBuffer, pose: PoseMeta)
    requires
        channel.hands().wf(),
    ensures
        channel.published(pose).offer() == pose,
{
    lemma_offer(channel.hands());
}

/// What a consumer reads of the chassis behind a frame is what was measured of it, number by
/// number, in the chassis record and, as far as it has room, on the fifth pose channel: there the
/// position holds the speed and the turn, the quaternion the wheels, and the rest the accelerations
/// and the step.
pub proof fn law_the_chassis_is_reported_as_measured(
    m: Seq<u8>,
    after: Seq<u8>,
    snapshot: TalosSnapshot,
    measured: PoseMeasurement,
    chassis: ChassisObservationFrame,
    buffer_id: u8,
)
    requires
        frame_published(m, after, snapshot, buffer_id),
        crate::publisher_records::region(m).poses[4].hands().wf(),
        snapshot.pose == poses_of(measured, chassis, snapshot.frame_seq, snapshot.timestamp_ns),
    ensures
        ({
            let record = crate::publisher_records::region(after).chassis_observation;
            let old_way = crate::publisher_records::region(after).poses[4].offer();
            &&& record.frame_seq == snapshot.frame_seq
            &&& record.timestamp_ns == snapshot.timestamp_ns
            &&& record.dt_s.bits == chassis.dt_s.bits
            &&& record.wz_radps.bits == chassis.wz_radps.bits
            &&& record.alpha_z_radps2.bits == chassis.alpha_z_radps2.bits
            &&& forall|i: int|
                0 <= i < 2 ==> (#[trigger] record.v_body[i]).bits == chassis.v_body[i].bits
            &&& forall|i: int|
                0 <= i < 2 ==> (#[trigger] record.a_body[i]).bits == chassis.a_body[i].bits
            &&& forall|i: int|
                0 <= i < 4 ==> (#[trigger] record.wheel_linear_mps[i]).bits
                    == chassis.wheel_linear_mps[i].bits
            &&& forall|i: int|
                0 <= i < 4 ==> (#[trigger] record.wheel_angular_radps[i]).bits
                    == chassis.wheel_angular_radps[i].bits
            &&& forall|i: int|
                0 <= i < 3 ==> (#[trigger] record.rpy_rad[i]).bits == chassis.rpy_rad[i].bits
            &&& forall|i: int|
                0 <= i < 3 ==> (#[trigger] record.gyro_xyz_radps[i]).bits
                    == chassis.gyro_xyz_radps[i].bits
            &&& forall|i: int|
                0 <= i < 3 ==> (#[trigger] record.accel_xyz_mps2[i]).bits
                    == chassis.accel_xyz_mps2[i].bits
            &&& old_way.position[0].bits == chassis.v_body[0].bits
            &&& old_way.position[1].bits == chassis.v_body[1].bits
            &&& old_way.position[2].bits == chassis.wz_radps.bits
            &&& forall|i: int|
                0 <= i < 4 ==> (#[trigger] old_way.quaternion[i]).bits
                    == chassis.wheel_angular_radps[i].bits
            &&& old_way.aux[0].bits == chassis.a_body[0].bits
            &&& old_way.aux[1].bits == chassis.a_body[1].bits
            &&& old_way.aux[2].bits == chassis.alpha_z_radps2.bits
            &&& old_way.aux[3].bits == chassis.dt_s.bits
        }),
{
    lemma_offers(
        crate::publisher_records::region(m).poses[4],
        legacy_pose(snapshot.pose, snapshot.frame_seq, snapshot.timestamp_ns),
    );
}

/// What a consumer reads of a frame itself: its number and time, the size of every frame, and the
/// place in the pool where its pixels lie. The truth behind a frame is the one that was taken for
/// it, or the one that was there. Everything else in the region is as it was.
pub proof fn law_a_frame_is_announced_as_it_is(
    m: Seq<u8>,
    after: Seq<u8>,
    snapshot: TalosSnapshot,
    buffer_id: u8,
)
    requires
        frame_published(m, after, snapshot, buffer_id),
        crate::publisher_records::region(m).image.hands().wf(),
    ensures
        ({
            let (before, now) = (
                crate::publisher_records::region(m),
                crate::publisher_records::region(after),
            );
            let image = now.image.offer();
            &&& image.seq == snapshot.frame_seq
            &&& image.timestamp_ns == snapshot.timestamp_ns
            &&& image.width == 1440
            &&& image.height == 1080
            &&& image.buffer_id == buffer_id
            &&& image.format == 0
            &&& snapshot.ground_truth matches Some(batch) ==> {
                &&& now.ground_truth.frame_seq == batch.frame_seq
                &&& now.ground_truth.timestamp_ns == batch.timestamp_ns
                &&& now.ground_truth.target_count == batch.target_count
                &&& now.ground_truth.rune_count == batch.rune_count
                &&& now.ground_truth.targets == batch.targets
                &&& now.ground_truth.runes == batch.runes
            }
            &&& snapshot.ground_truth is None ==> now.ground_truth == before.ground_truth
            &&& now.header == before.header
            &&& now.gimbal_cmd == before.gimbal_cmd
            &&& now.camera_info == before.camera_info
            &&& now.runtime_state == before.runtime_state
            &&& now.image.read_idx == before.image.read_idx
            &&& now.image.slots[before.image.read_idx as int]
                == before.image.slots[before.image.read_idx as int]
        }),
{
    lemma_offer(crate::publisher_records::region(m).image.hands());
}

/// A frame passes exactly where it holds colours, is of the one size, and has a byte for each of
/// the three colours of each pixel.
pub proof fn law_frames_that_pass(kind: CapturedFrameKind, width: u32, height: u32, len: nat)
    ensures
        frame_fault(kind, width, height, len) is None <==> kind is Rgb8 && width == 1440 && height
            == 1080 && len == 4_665_600,
        frame_fault(kind, width, height, len) == Some(FrameFault::WrongKind) <==> !(kind is Rgb8),
        frame_fault(kind, width, height, len) == Some(FrameFault::WrongResolution) <==> kind is Rgb8
            && len == width * height * 3 && !(width == 1440 && height == 1080),
        frame_fault(kind, width, height, len) == Some(FrameFault::WrongLength) <==> kind is Rgb8
            && len != width * height * 3,
{
    assert(width == 1440 && height == 1080 ==> width * height * 3 == 4_665_600)
        by (nonlinear_arith);
}

/// A frame is stamped with the next number and the time, and the number after it is one higher.
pub proof fn law_calls_of_advance_talos_frame_stamp(
    next: &mut u64,
    stamp: &mut TalosFrameStamp,
    now_ns: u64,
    r: (),
)
    requires
        call_ensures(advance_talos_frame_stamp, (next, stamp, now_ns), r),
    ensures
        final(stamp).frame_seq == *old(next),
        final(stamp).timestamp_ns == now_ns,
        *old(next) < u64::MAX ==> *final(next) == *old(next) + 1,
        *old(next) == u64::MAX ==> *final(next) == 0,
{
}

/// The poses that are kept for a frame are the measured ones, number by number.
pub proof fn law_calls_of_captured_pose_data(
    measured: PoseMeasurement,
    chassis: ChassisObservationFrame,
    frame_seq: u64,
    timestamp_ns: u64,
    r: CapturedPoseData,
)
    requires
        call_ensures(captured_pose_data, (&measured, &chassis, frame_seq, timestamp_ns), r),
    ensures
        forall|i: int| 0 <= i < 3 ==> #[trigger] r.gimbal_ros[i] == measured.gimbal_ros[i],
        forall|i: int| 0 <= i < 4 ==> #[trigger] r.gimbal_quat[i] == measured.gimbal_quat[i],
        forall|i: int| 0 <= i < 3 ==> #[trigger] r.muzzle_world[i] == measured.muzzle_world[i],
        forall|i: int| 0 <= i < 3 ==> #[trigger] r.camera_rel[i] == measured.camera_rel[i],
        r.chassis_observation.frame_seq == frame_seq,
        r.chassis_observation.timestamp_ns == timestamp_ns,
        r.chassis_observation.dt_s == chassis.dt_s,
        r.chassis_observation.v_body == chassis.v_body,
        r.chassis_observation.wz_radps == chassis.wz_radps,
        r.chassis_observation.wheel_linear_mps == chassis.wheel_linear_mps,
        r.chassis_observation.wheel_angular_radps == chassis.wheel_angular_radps,
        r.chassis_observation.a_body == chassis.a_body,
        r.chassis_observation.alpha_z_radps2 == chassis.alpha_z_radps2,
        r.chassis_observation.rpy_rad == chassis.rpy_rad,
        r.chassis_observation.gyro_xyz_radps == chassis.gyro_xyz_radps,
        r.chassis_observation.accel_xyz_mps2 == chassis.accel_xyz_mps2,
        r.chassis_observation.seqlock == 0,
{
}

/// What is kept for a frame: its number and time, the measured poses where there are any, and the
/// ground truth exactly where it was taken under the frame's number.
pub proof fn law_calls_of_extract_pose_data(
    pose_data: &mut ExtractedPoseData,
    stamp: TalosFrameStamp,
    measured: Option<PoseMeasurement>,
    chassis: ChassisObservationFrame,
    truth: TalosGroundTruthFrame,
    r: (),
)
    requires
        call_ensures(extract_pose_data, (pose_data, &stamp, measured, &chassis, &truth), r),
    ensures
        final(pose_data).frame_seq == stamp.frame_seq,
        final(pose_data).timestamp_ns == stamp.timestamp_ns,
        final(pose_data).valid <==> measured is Some,
        final(pose_data).pose is Some <==> measured is Some,
        measured is Some ==> {
            let kept = final(pose_data).pose->0;
            &&& kept.gimbal_ros == measured->0.gimbal_ros
            &&& kept.gimbal_quat == measured->0.gimbal_quat
            &&& kept.muzzle_world == measured->0.muzzle_world
            &&& kept.camera_rel == measured->0.camera_rel
            &&& kept.chassis_observation.v_body == chassis.v_body
            &&& kept.chassis_observation.wz_radps == chassis.wz_radps
            &&& kept == poses_of(measured->0, chassis, stamp.frame_seq, stamp.timestamp_ns)
        },
        truth.frame_seq == stamp.frame_seq ==> final(pose_data).ground_truth == truth.batch,
        truth.frame_seq != stamp.frame_seq ==> final(pose_data).ground_truth is None,
{
}

/// A snapshot is taken exactly where valid poses were kept, and is what was kept.
pub proof fn law_calls_of_take_snapshot(
    extracted: Option<&ExtractedPoseData>,
    r: Option<TalosSnapshot>,
)
    requires
        call_ensures(take_snapshot, (extracted,), r),
    ensures
        r is Some <==> extracted is Some && extracted->0.valid && extracted->0.pose is Some,
        r is Some ==> {
            &&& r->0.frame_seq == extracted->0.frame_seq
            &&& r->0.timestamp_ns == extracted->0.timestamp_ns
            &&& Some(r->0.pose) == extracted->0.pose
            &&& r->0.ground_truth == extracted->0.ground_truth
        },
{
}

/// A frame passes exactly where it holds colours, is of the one size and has all its bytes.
pub proof fn law_calls_of_check_frame(
    kind: CapturedFrameKind,
    width: u32,
    height: u32,
    len: usize,
    r: Option<FrameFault>,
)
    requires
        call_ensures(check_frame, (kind, width, height, len), r),
    ensures
        r is None <==> kind is Rgb8 && width == 1440 && height == 1080 && len == 4_665_600,
        r == Some(FrameFault::WrongKind) <==> !(kind is Rgb8),
{
    law_frames_that_pass(kind, width, height, len as nat);
}

/// Behind the steps that publish the poses of a frame the channels offer what was kept for it: the
/// gimbal's centre, the barrel's direction, the muzzle's place and the camera's, number by number;
/// and nothing but the five channels and the chassis record has changed.
pub proof fn law_calls_of_publish_pose_data(
    publisher: ShmPublisher,
    frame_seq: u64,
    timestamp_ns: u64,
    pose: &CapturedPoseData,
    write_idx: &[u8; 5],
    ops: Vec<ShmOp>,
    m: Seq<u8>,
)
    requires
        call_ensures(
            publish_pose_data,
            (&publisher, frame_seq, timestamp_ns, pose, write_idx),
            ops,
        ),
        crate::memory::sized(m),
        forall|k: int|
            0 <= k < 5 ==> (#[trigger] crate::publisher_records::region(m).poses[k]).write_idx
                == write_idx[k],
        forall|k: int|
            0 <= k < 5 ==> (#[trigger] crate::publisher_records::region(m).poses[k]).hands().wf(),
    ensures
        ({
            let before = crate::publisher_records::region(m);
            let now = crate::publisher_records::region(crate::memory::run(m, ops@));
            &&& forall|i: int|
                0 <= i < 3 ==> #[trigger] now.poses[1].offer().position[i] == pose.gimbal_ros[i]
            &&& forall|i: int|
                0 <= i < 3 ==> #[trigger] now.poses[2].offer().position[i] == pose.muzzle_world[i]
            &&& forall|i: int|
                0 <= i < 3 ==> #[trigger] now.poses[3].offer().position[i] == pose.camera_rel[i]
            &&& forall|i: int|
                0 <= i < 4 ==> #[trigger] now.poses[0].offer().quaternion[i] == pose.gimbal_quat[i]
            &&& forall|i: int|
                0 <= i < 4 ==> #[trigger] now.poses[2].offer().quaternion[i] == pose.gimbal_quat[i]
            &&& forall|k: int|
                0 <= k < 5 ==> (#[trigger] now.poses[k]).offer().frame_seq == frame_seq
                    && now.poses[k].offer().timestamp_ns == timestamp_ns
            &&& now.chassis_observation.frame_seq == frame_seq
            &&& now.chassis_observation.timestamp_ns == timestamp_ns
            &&& now.chassis_observation.v_body == pose.chassis_observation.v_body
            &&& now.chassis_observation.wz_radps == pose.chassis_observation.wz_radps
            &&& now.header == before.header
            &&& now.image == before.image
            &&& now.gimbal_cmd == before.gimbal_cmd
            &&& now.camera_info == before.camera_info
            &&& now.ground_truth == before.ground_truth
            &&& now.runtime_state == before.runtime_state
            &&& poses_published(
                m,
                crate::memory::run(m, ops@),
                *pose,
                frame_seq,
                timestamp_ns,
            )
        }),
{
    let before = crate::publisher_records::region(m);
    assert(publishes_poses(ops@, *pose, frame_seq, timestamp_ns, *write_idx));
    assert(owns(m, *write_idx));
    assert(poses_published(
        m,
        crate::memory::run(m, ops@),
        *pose,
        frame_seq,
        timestamp_ns,
    ));
    lemma_offers(before.poses[0], gimbal_pose(*pose, frame_seq, timestamp_ns));
    lemma_offers(before.poses[1], odom_pose(*pose, frame_seq, timestamp_ns));
    lemma_offers(before.poses[2], muzzle_pose(*pose, frame_seq, timestamp_ns));
    lemma_offers(before.poses[3], camera_pose(*pose, frame_seq, timestamp_ns));
    lemma_offers(before.poses[4], legacy_pose(*pose, frame_seq, timestamp_ns));
}

/// A captured frame goes out exactly where it passes, is newer than all that went out, and the
/// consumer is done with the last; behind its steps the image channel announces it and the odometry
/// channel offers the gimbal's centre that was kept for it.
pub proof fn law_calls_of_captured(
    snapshot: TalosSnapshot,
    publisher: &mut ShmPublisher,
    frame: CapturedFrame,
    view: ProducerView,
    r: Option<Vec<ShmOp>>,
    m: Seq<u8>,
)
    requires
        call_ensures(TalosSnapshot::captured, (&snapshot, publisher, &frame, &view), r),
        crate::memory::sized(m),
        view.is_of(m),
        crate::publisher_records::region(m).image.hands().wf(),
        forall|k: int|
            0 <= k < 5 ==> (#[trigger] crate::publisher_records::region(m).poses[k]).hands().wf(),
    ensures
        r is Some <==> frame.kind is Rgb8 && frame.width == 1440 && frame.height == 1080
            && frame.data@.len() == 4_665_600 && (old(publisher).last_synchronized_frame_seq is None
            || snapshot.frame_seq > old(publisher).last_synchronized_frame_seq->0)
            && view.states.consumed(),
        r is None ==> *final(publisher) == *old(publisher),
        r is Some ==> {
            let now = crate::publisher_records::region(crate::memory::run(m, r->0@));
            &&& final(publisher).last_synchronized_frame_seq == Some(snapshot.frame_seq)
            &&& final(publisher).current_buffer_id == (old(publisher).current_buffer_id + 1) % 3
            &&& now.image.offer().seq == snapshot.frame_seq
            &&& now.image.offer().timestamp_ns == snapshot.timestamp_ns
            &&& now.image.offer().buffer_id == old(publisher).current_buffer_id
            &&& forall|i: int|
                0 <= i < 3 ==> #[trigger] now.poses[1].offer().position[i]
                    == snapshot.pose.gimbal_ros[i]
            &&& now.poses[1].offer().frame_seq == snapshot.frame_seq
            &&& frame_published(
                m,
                crate::memory::run(m, r->0@),
                snapshot,
                old(publisher).current_buffer_id,
            )
        },
{
    law_frames_that_pass(frame.kind, frame.width, frame.height, frame.data@.len());
    if r is Some {
        let ops = r->0@;
        assert(frame_published(
            m,
            crate::memory::run(m, ops),
            snapshot,
            old(publisher).current_buffer_id,
        ));
        law_a_frame_is_announced_as_it_is(
            m,
            crate::memory::run(m, ops),
            snapshot,
            old(publisher).current_buffer_id,
        );
        lemma_offers(
            crate::publisher_records::region(m).poses[1],
            odom_pose(snapshot.pose, snapshot.frame_seq, snapshot.timestamp_ns),
        );
    }
}

/// The simulator says under the frame's time whether it follows, and changes nothing else; the
/// intrinsics of the camera are as given, without distortion.
pub proof fn law_calls_of_the_announcements(
    publisher: ShmPublisher,
    stamp: TalosFrameStamp,
    following: bool,
    ops: Vec<ShmOp>,
    m: Seq<u8>,
    timestamp_ns: u64,
    fx: F64,
    fy: F64,
    cx: F64,
    cy: F64,
    width: u32,
    height: u32,
    info: CameraInfo,
)
    requires
        call_ensures(publish_talos_runtime_state_system, (&publisher, &stamp, following), ops),
        crate::memory::sized(m),
        call_ensures(camera_info, (timestamp_ns, fx, fy, cx, cy, width, height), info),
    ensures
        ({
            let before = crate::publisher_records::region(m);
            let now = crate::publisher_records::region(crate::memory::run(m, ops@));
            &&& now.runtime_state.timestamp_ns == stamp.timestamp_ns
            &&& now.runtime_state.following == 1 <==> following
            &&& now.runtime_state.following == 0 <==> !following
            &&& now == (crate::layout::ShmMetaRegion {
                runtime_state: now.runtime_state,
                ..before
            })
        }),
        info.timestamp_ns == timestamp_ns,
        info.fx == fx && info.fy == fy && info.cx == cx && info.cy == cy,
        info.width == width && info.height == height,
        forall|i: int| 0 <= i < 5 ==> (#[trigger] info.distortion[i]).bits == 0,
{
}

} // verus!
