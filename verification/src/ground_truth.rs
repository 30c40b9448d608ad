//! The ground truth of one frame.
use crate::float::F32;
use crate::layout::{
    zeros3, GroundTruthBatch, GroundTruthTarget, GROUND_TRUTH_MAX_RUNES, GROUND_TRUTH_MAX_TARGETS,
};
use crate::plates::{
    plate_candidates, select_plate_reference, select_plate_reference_with_support, PlateCandidate,
    PlateReference, PlateSighting,
};
use crate::rotation::{RotationController, RotationMode};
use crate::runes::{rune_ground_truth, team_to_u8, RuneSighting, Team, RUNE_BLADES};
use vstd::prelude::*;

verus! {

/// The label that stands for an outpost.
pub const OUTPOST_LABEL: u8 = 6;

/// How many plates an outpost has.
pub const OUTPOST_PLATES: usize = 3;

/// The number and the time of a frame.
#[derive(Debug, Clone, Copy, PartialEq, Eq, Structural)]
pub struct TalosFrameStamp {
    pub frame_seq: u64,
    pub timestamp_ns: u64,
}

impl Default for TalosFrameStamp {
    fn default() -> (r: Self)
        ensures
            r == (TalosFrameStamp { frame_seq: 0, timestamp_ns: 0 }),
    {
        TalosFrameStamp { frame_seq: 0, timestamp_ns: 0 }
    }
}

/// The ground truth that waits to go out with the frame it belongs to.
#[derive(Debug, Clone, Copy)]
pub struct TalosGroundTruthFrame {
    /// The frame it belongs to.
    pub frame_seq: u64,
    pub batch: Option<GroundTruthBatch>,
}

impl Default for TalosGroundTruthFrame {
    fn default() -> (r: Self)
        ensures
            r.frame_seq == 0,
            r.batch is None,
    {
        TalosGroundTruthFrame { frame_seq: 0, batch: None }
    }
}

/// A robot as the scene shows it.
#[derive(Debug)]
pub struct RobotSighting {
    pub entity: u64,
    pub team: Team,
    pub armor_label: u8,
    pub position: [F32; 3],
    /// Its angular velocity about the upward axis, where it has one.
    pub vyaw: Option<F32>,
    pub yaw: F32,
}

/// An outpost.
#[derive(Debug, Clone, Copy)]
pub struct OutpostSighting {
    pub entity: u64,
    pub team: Team,
}

/// The turning part of an outpost.
#[derive(Debug)]
pub struct RotorSighting {
    pub entity: u64,
    /// The nodes above it, from its parent up.
    pub ancestors: Vec<u64>,
    pub controller: RotationController,
    /// Where its axis passes through it.
    pub position: [F32; 3],
    pub yaw: F32,
    /// Its plates that may be chosen.
    pub plates: Vec<PlateCandidate>,
    /// For each plate, which plates agree with its radius.
    pub agreement: Vec<Vec<bool>>,
}

impl RotorSighting {
    /// The measurements belong together.
    pub open spec fn wf(self) -> bool {
        crate::plates::fits(self.plates@, self.agreement@) && self.controller.wf()
    }
}

/// All that the ground truth is taken from.
#[derive(Debug)]
pub struct Scene {
    /// Whether there is a camera to measure distances from.
    pub camera: bool,
    /// The robots, those of the others first.
    pub robots: Vec<RobotSighting>,
    /// The plates of all robots.
    pub plates: Vec<PlateSighting>,
    pub outposts: Vec<OutpostSighting>,
    pub rotors: Vec<RotorSighting>,
    /// How the outposts are driven, where that is set.
    pub outpost_mode: Option<RotationMode>,
    pub runes: Vec<RuneSighting>,
}

impl Scene {
    /// The measurements belong together.
    pub open spec fn wf(self) -> bool {
        &&& forall|i: int| 0 <= i < self.rotors@.len() ==> (#[trigger] self.rotors@[i]).wf()
        &&& forall|i: int|
            0 <= i < self.runes@.len() ==> ((#[trigger] self.runes@[i]).blade matches Some(blade)
                ==> blade.blade_id < RUNE_BLADES)
    }
}

/// The lowest sixteen bits of an entity.
pub open spec fn identity_of(entity: u64) -> u16 {
    (entity % 0x1_0000) as u16
}

/// The ground truth of a robot.
pub open spec fn robot_truth(
    stamp: TalosFrameStamp,
    camera: bool,
    plates: Seq<PlateSighting>,
    robot: RobotSighting,
) -> GroundTruthTarget {
    let plate = if camera {
        crate::plates::plate_choice(
            PlateReference::CenterNode,
            crate::plates::contributions(robot.entity, PlateReference::CenterNode, plates),
            Seq::empty(),
        )
    } else {
        None
    };
    GroundTruthTarget {
        frame_seq: stamp.frame_seq,
        timestamp_ns: stamp.timestamp_ns,
        team: crate::runes::team_code(robot.team),
        armor_label: robot.armor_label,
        is_outpost: 0,
        position: robot.position,
        vyaw: match robot.vyaw {
            Some(vyaw) => vyaw,
            None => F32 { bits: 0 },
        },
        yaw: robot.yaw,
        armor_position: match plate {
            Some(p) => p.0,
            None => crate::layout::zero3(),
        },
        armor_position_valid: if plate is Some {
            1
        } else {
            0
        },
        armor_position_degraded: 0,
        identity: identity_of(robot.entity),
    }
}

/// The team of the outpost that a node is, where it is one.
pub open spec fn team_of(outposts: Seq<OutpostSighting>, node: u64) -> Option<Team>
    decreases outposts.len(),
{
    if outposts.len() == 0 {
        None
    } else if outposts[0].entity == node {
        Some(outposts[0].team)
    } else {
        team_of(outposts.subrange(1, outposts.len() as int), node)
    }
}

/// The team of the first outpost among some nodes.
pub open spec fn owner(outposts: Seq<OutpostSighting>, ancestors: Seq<u64>) -> Option<Team>
    decreases ancestors.len(),
{
    if ancestors.len() == 0 {
        None
    } else {
        match team_of(outposts, ancestors[0]) {
            Some(team) => Some(team),
            None => owner(outposts, ancestors.subrange(1, ancestors.len() as int)),
        }
    }
}

/// The ground truth of an outpost's turning part. Its place, its angle and its speed are all those
/// of the same node.
pub open spec fn outpost_truth(
    stamp: TalosFrameStamp,
    camera: bool,
    mode: RotationMode,
    team: Team,
    rotor: RotorSighting,
) -> GroundTruthTarget {
    let plate = if camera {
        crate::plates::plate_choice(
            PlateReference::CenterNodeOrPlateRoot,
            rotor.plates@,
            rotor.agreement@,
        )
    } else {
        None
    };
    GroundTruthTarget {
        frame_seq: stamp.frame_seq,
        timestamp_ns: stamp.timestamp_ns,
        team: crate::runes::team_code(team),
        armor_label: OUTPOST_LABEL,
        is_outpost: 1,
        position: rotor.position,
        vyaw: crate::rotation::signed(
            rotor.controller.direction.factor(),
            mode.factor(),
            rotor.controller.speed,
        ),
        yaw: rotor.yaw,
        armor_position: match plate {
            Some(p) => p.0,
            None => crate::layout::zero3(),
        },
        armor_position_valid: if plate is Some {
            1
        } else {
            0
        },
        armor_position_degraded: if plate is None || (plate->0).1 < OUTPOST_PLATES {
            1
        } else {
            0
        },
        identity: identity_of(rotor.entity),
    }
}

/// The ground truth of all turning parts that belong to an outpost, in their order.
pub open spec fn outpost_truths(
    stamp: TalosFrameStamp,
    camera: bool,
    mode: RotationMode,
    outposts: Seq<OutpostSighting>,
    rotors: Seq<RotorSighting>,
) -> Seq<GroundTruthTarget>
    decreases rotors.len(),
{
    if rotors.len() == 0 {
        Seq::empty()
    } else {
        let before = outpost_truths(stamp, camera, mode, outposts, rotors.drop_last());
        match owner(outposts, rotors.last().ancestors@) {
            Some(team) => before.push(outpost_truth(stamp, camera, mode, team, rotors.last())),
            None => before,
        }
    }
}

/// The lesser of two.
pub open spec fn least(a: int, b: int) -> int {
    if a <= b {
        a
    } else {
        b
    }
}

/// How an outpost is driven where nothing is set.
pub open spec fn mode_or_forward(mode: Option<RotationMode>) -> RotationMode {
    match mode {
        Some(m) => m,
        None => RotationMode::Forward,
    }
}

/// All targets of a scene: the robots, then the outposts.
pub open spec fn all_targets(stamp: TalosFrameStamp, scene: Scene) -> Seq<GroundTruthTarget> {
    Seq::new(
        least(scene.robots@.len() as int, GROUND_TRUTH_MAX_TARGETS as int) as nat,
        |i: int| robot_truth(stamp, scene.camera, scene.plates@, scene.robots@[i]),
    ) + outpost_truths(
        stamp,
        scene.camera,
        mode_or_forward(scene.outpost_mode),
        scene.outposts@,
        scene.rotors@,
    )
}

/// The batch is the ground truth of the scene: as many targets and runes as it has room for, in
/// their order, and blank beyond.
pub open spec fn is_truth_of(
    batch: GroundTruthBatch,
    stamp: TalosFrameStamp,
    scene: Scene,
) -> bool {
    let targets = all_targets(stamp, scene);
    let n = least(targets.len() as int, GROUND_TRUTH_MAX_TARGETS as int);
    let k = least(scene.runes@.len() as int, GROUND_TRUTH_MAX_RUNES as int);
    &&& batch.frame_seq == stamp.frame_seq
    &&& batch.timestamp_ns == stamp.timestamp_ns
    &&& batch.seqlock == 0
    &&& batch.target_count == n
    &&& batch.rune_count == k
    &&& forall|i: int| 0 <= i < n ==> #[trigger] batch.targets[i] == targets[i]
    &&& forall|i: int|
        n <= i < GROUND_TRUTH_MAX_TARGETS ==> #[trigger] batch.targets[i]
            == GroundTruthTarget::blank()
    &&& forall|i: int|
        0 <= i < k ==> #[trigger] batch.runes[i] == crate::runes::rune_truth(
            stamp.frame_seq,
            stamp.timestamp_ns,
            scene.runes@[i],
        )
    &&& forall|i: int|
        k <= i < GROUND_TRUTH_MAX_RUNES ==> #[trigger] batch.runes[i]
            == crate::layout::GroundTruthRune::blank()
}

fn robot_target(
    stamp: TalosFrameStamp,
    camera: bool,
    plates: &Vec<PlateSighting>,
    robot: &RobotSighting,
) -> (r: GroundTruthTarget)
    ensures
        r == robot_truth(stamp, camera, plates@, *robot),
{
    let plate = if camera {
        let candidates = plate_candidates(robot.entity, PlateReference::CenterNode, plates);
        select_plate_reference(PlateReference::CenterNode, &candidates, &Vec::new())
    } else {
        None
    };
    GroundTruthTarget {
        frame_seq: stamp.frame_seq,
        timestamp_ns: stamp.timestamp_ns,
        team: team_to_u8(&robot.team),
        armor_label: robot.armor_label,
        is_outpost: 0,
        position: robot.position,
        vyaw: match robot.vyaw {
            Some(vyaw) => vyaw,
            None => F32::zero(),
        },
        yaw: robot.yaw,
        armor_position: match plate {
            Some(p) => p,
            None => zeros3(),
        },
        armor_position_valid: if plate.is_some() {
            1
        } else {
            0
        },
        armor_position_degraded: 0,
        identity: (robot.entity % 0x1_0000) as u16,
    }
}

fn outpost_team(outposts: &Vec<OutpostSighting>, ancestors: &Vec<u64>) -> (r: Option<Team>)
    ensures
        r == owner(outposts@, ancestors@),
{
    let mut i: usize = 0;
    assert(ancestors@.subrange(0, ancestors@.len() as int) =~= ancestors@);
    while i < ancestors.len()
        invariant
            i <= ancestors@.len(),
            owner(outposts@, ancestors@) == owner(
                outposts@,
                ancestors@.subrange(i as int, ancestors@.len() as int),
            ),
        decreases ancestors@.len() - i,
    {
        let node: u64 = ancestors[i];
        let ghost above = ancestors@.subrange(i as int, ancestors@.len() as int);
        let mut j: usize = 0;
        assert(outposts@.subrange(0, outposts@.len() as int) =~= outposts@);
        while j < outposts.len()
            invariant
                j <= outposts@.len(),
                i < ancestors@.len(),
                above == ancestors@.subrange(i as int, ancestors@.len() as int),
                above[0] == node,
                above.len() > 0,
                owner(outposts@, ancestors@) == owner(outposts@, above),
                team_of(outposts@, node) == team_of(
                    outposts@.subrange(j as int, outposts@.len() as int),
                    node,
                ),
            decreases outposts@.len() - j,
        {
            let ghost behind = outposts@.subrange(j as int, outposts@.len() as int);
            if outposts[j].entity == node {
                assert(behind[0] == outposts@[j as int]);
                return Some(outposts[j].team);
            }
            assert(behind.subrange(1, behind.len() as int) =~= outposts@.subrange(
                j + 1,
                outposts@.len() as int,
            ));
            j += 1;
        }
        assert(above.subrange(1, above.len() as int) =~= ancestors@.subrange(
            i + 1,
            ancestors@.len() as int,
        ));
        i += 1;
    }
    None
}

fn outpost_target(
    stamp: TalosFrameStamp,
    camera: bool,
    mode: RotationMode,
    team: Team,
    rotor: &RotorSighting,
) -> (r: GroundTruthTarget)
    requires
        rotor.wf(),
    ensures
        r == outpost_truth(stamp, camera, mode, team, *rotor),
{
    let armor = if camera {
        select_plate_reference_with_support(
            PlateReference::CenterNodeOrPlateRoot,
            &rotor.plates,
            &rotor.agreement,
        )
    } else {
        None
    };
    let support: usize = match armor {
        Some(a) => a.1,
        None => 0,
    };
    GroundTruthTarget {
        frame_seq: stamp.frame_seq,
        timestamp_ns: stamp.timestamp_ns,
        team: team_to_u8(&team),
        armor_label: OUTPOST_LABEL,
        is_outpost: 1,
        position: rotor.position,
        vyaw: rotor.controller.signed_speed(mode),
        yaw: rotor.yaw,
        armor_position: match armor {
            Some(a) => a.0,
            None => zeros3(),
        },
        armor_position_valid: if armor.is_some() {
            1
        } else {
            0
        },
        armor_position_degraded: if armor.is_none() || support < OUTPOST_PLATES {
            1
        } else {
            0
        },
        identity: (rotor.entity % 0x1_0000) as u16,
    }
}

/// What the first turning parts give stands at the front of what all give.
proof fn lemma_truths_prefix(
    stamp: TalosFrameStamp,
    camera: bool,
    mode: RotationMode,
    outposts: Seq<OutpostSighting>,
    rotors: Seq<RotorSighting>,
    n: int,
)
    requires
        0 <= n <= rotors.len(),
    ensures
        outpost_truths(stamp, camera, mode, outposts, rotors.subrange(0, n)).is_prefix_of(
            outpost_truths(stamp, camera, mode, outposts, rotors),
        ),
    decreases rotors.len(),
{
    let all = outpost_truths(stamp, camera, mode, outposts, rotors);
    if n == rotors.len() {
        assert(rotors.subrange(0, n) =~= rotors);
        assert(all =~= all.subrange(0, all.len() as int));
    } else {
        lemma_truths_prefix(stamp, camera, mode, outposts, rotors.drop_last(), n);
        assert(rotors.drop_last().subrange(0, n) =~= rotors.subrange(0, n));
        let some = outpost_truths(stamp, camera, mode, outposts, rotors.subrange(0, n));
        let most = outpost_truths(stamp, camera, mode, outposts, rotors.drop_last());
        assert(some =~= most.subrange(0, some.len() as int));
        assert(some =~= all.subrange(0, some.len() as int));
    }
}

/// Adds the outposts to a batch, as many as there is room for.
pub fn push_outpost_targets(
    batch: &mut GroundTruthBatch,
    stamp: TalosFrameStamp,
    camera: bool,
    outpost_mode: RotationMode,
    outposts: &Vec<OutpostSighting>,
    rotors: &Vec<RotorSighting>,
)
    requires
        old(batch).target_count <= GROUND_TRUTH_MAX_TARGETS,
        forall|i: int| 0 <= i < rotors@.len() ==> (#[trigger] rotors@[i]).wf(),
    ensures
        ({
            let truths = outpost_truths(stamp, camera, outpost_mode, outposts@, rotors@);
            let start = old(batch).target_count;
            let n = least(truths.len() as int, GROUND_TRUTH_MAX_TARGETS - start);
            &&& final(batch).target_count == start + n
            &&& forall|i: int|
                0 <= i < GROUND_TRUTH_MAX_TARGETS ==> #[trigger] final(batch).targets[i] == (if start
                    <= i < start + n {
                    truths[i - start]
                } else {
                    old(batch).targets[i]
                })
        }),
        final(batch).frame_seq == old(batch).frame_seq,
        final(batch).timestamp_ns == old(batch).timestamp_ns,
        final(batch).rune_count == old(batch).rune_count,
        final(batch).runes == old(batch).runes,
        final(batch).seqlock == old(batch).seqlock,
{
    let ghost truths = outpost_truths(stamp, camera, outpost_mode, outposts@, rotors@);
    let ghost start = batch.target_count as int;
    let ghost first = *batch;
    let mut i: usize = 0;
    assert(rotors@.subrange(0, 0) =~= Seq::<RotorSighting>::empty());
    while i < rotors.len() && (batch.target_count as usize) < GROUND_TRUTH_MAX_TARGETS
        invariant
            i <= rotors@.len(),
            forall|k: int| 0 <= k < rotors@.len() ==> (#[trigger] rotors@[k]).wf(),
            truths == outpost_truths(stamp, camera, outpost_mode, outposts@, rotors@),
            start <= batch.target_count <= GROUND_TRUTH_MAX_TARGETS,
            batch.target_count - start == outpost_truths(
                stamp,
                camera,
                outpost_mode,
                outposts@,
                rotors@.subrange(0, i as int),
            ).len(),
            outpost_truths(
                stamp,
                camera,
                outpost_mode,
                outposts@,
                rotors@.subrange(0, i as int),
            ).is_prefix_of(truths),
            forall|k: int|
                0 <= k < GROUND_TRUTH_MAX_TARGETS ==> #[trigger] batch.targets[k] == (if start <= k
                    < batch.target_count {
                    truths[k - start]
                } else {
                    first.targets[k]
                }),
            batch.frame_seq == first.frame_seq,
            batch.timestamp_ns == first.timestamp_ns,
            batch.rune_count == first.rune_count,
            batch.runes == first.runes,
            batch.seqlock == first.seqlock,
        decreases rotors@.len() - i,
    {
        let rotor = &rotors[i];
        let ghost so_far = outpost_truths(
            stamp,
            camera,
            outpost_mode,
            outposts@,
            rotors@.subrange(0, i as int),
        );
        proof {
            let next = rotors@.subrange(0, i + 1);
            assert(next.drop_last() =~= rotors@.subrange(0, i as int));
            assert(next.last() == *rotor);
            lemma_truths_prefix(stamp, camera, outpost_mode, outposts@, rotors@, i + 1);
        }
        if let Some(team) = outpost_team(outposts, &rotor.ancestors) {
            let idx: usize = batch.target_count as usize;
            let target = outpost_target(stamp, camera, outpost_mode, team, rotor);
            proof {
                let with = so_far.push(target);
                assert(with == outpost_truths(
                    stamp,
                    camera,
                    outpost_mode,
                    outposts@,
                    rotors@.subrange(0, i + 1),
                ));
                assert(with =~= truths.subrange(0, with.len() as int));
                assert(with[so_far.len() as int] == truths[so_far.len() as int]);
            }
            batch.targets[idx] = target;
            batch.target_count = batch.target_count + 1;
        }
        i += 1;
    }
    proof {
        let so_far = outpost_truths(
            stamp,
            camera,
            outpost_mode,
            outposts@,
            rotors@.subrange(0, i as int),
        );
        assert(so_far.len() <= truths.len());
        if i == rotors@.len() {
            assert(rotors@.subrange(0, i as int) =~= rotors@);
        }
    }
}

/// Takes the ground truth of a scene.
pub fn collect_ground_truth(stamp: TalosFrameStamp, scene: &Scene) -> (batch: GroundTruthBatch)
    requires
        scene.wf(),
    ensures
        is_truth_of(batch, stamp, *scene),
{
    let mut batch = GroundTruthBatch::default();
    batch.frame_seq = stamp.frame_seq;
    batch.timestamp_ns = stamp.timestamp_ns;
    let mut i: usize = 0;
    while i < scene.robots.len() && (batch.target_count as usize) < GROUND_TRUTH_MAX_TARGETS
        invariant
            i <= scene.robots@.len(),
            i <= GROUND_TRUTH_MAX_TARGETS,
            batch.target_count == i,
            batch.frame_seq == stamp.frame_seq,
            batch.timestamp_ns == stamp.timestamp_ns,
            batch.rune_count == 0,
            batch.seqlock == 0,
            forall|k: int|
                0 <= k < GROUND_TRUTH_MAX_TARGETS ==> #[trigger] batch.targets[k] == (if k < i {
                    robot_truth(stamp, scene.camera, scene.plates@, scene.robots@[k])
                } else {
                    GroundTruthTarget::blank()
                }),
            forall|k: int|
                0 <= k < GROUND_TRUTH_MAX_RUNES ==> #[trigger] batch.runes[k]
                    == crate::layout::GroundTruthRune::blank(),
        decreases scene.robots@.len() - i,
    {
        batch.targets[i] = robot_target(stamp, scene.camera, &scene.plates, &scene.robots[i]);
        batch.target_count = batch.target_count + 1;
        i += 1;
    }
    let mode = match scene.outpost_mode {
        Some(mode) => mode,
        None => RotationMode::default(),
    };
    let ghost robots_only = batch;
    push_outpost_targets(&mut batch, stamp, scene.camera, mode, &scene.outposts, &scene.rotors);
    let ghost with_outposts = batch;
    proof {
        let targets = all_targets(stamp, *scene);
        let n = least(targets.len() as int, GROUND_TRUTH_MAX_TARGETS as int);
        assert(batch.target_count == n);
        assert forall|k: int| 0 <= k < n implies #[trigger] batch.targets[k] == targets[k] by {
            if k < i {
                assert(robots_only.targets[k] == robot_truth(
                    stamp,
                    scene.camera,
                    scene.plates@,
                    scene.robots@[k],
                ));
            }
        }
    }
    let mut j: usize = 0;
    while j < scene.runes.len() && (batch.rune_count as usize) < GROUND_TRUTH_MAX_RUNES
        invariant
            j <= scene.runes@.len(),
            j <= GROUND_TRUTH_MAX_RUNES,
            scene.wf(),
            batch.rune_count == j,
            batch.frame_seq == with_outposts.frame_seq,
            batch.timestamp_ns == with_outposts.timestamp_ns,
            batch.target_count == with_outposts.target_count,
            batch.targets == with_outposts.targets,
            batch.seqlock == with_outposts.seqlock,
            forall|k: int|
                0 <= k < GROUND_TRUTH_MAX_RUNES ==> #[trigger] batch.runes[k] == (if k < j {
                    crate::runes::rune_truth(
                        stamp.frame_seq,
                        stamp.timestamp_ns,
                        scene.runes@[k],
                    )
                } else {
                    crate::layout::GroundTruthRune::blank()
                }),
        decreases scene.runes@.len() - j,
    {
        batch.runes[j] = rune_ground_truth(stamp.frame_seq, stamp.timestamp_ns, &scene.runes[j]);
        batch.rune_count = batch.rune_count + 1;
        j += 1;
    }
    batch
}

/// Puts the ground truth of a frame where the frame will find it. Without a frame to go out with
/// there is none, and what is left of an earlier frame is taken away.
pub fn collect_ground_truth_system(
    context: bool,
    stamp: TalosFrameStamp,
    scene: &Scene,
    out: &mut TalosGroundTruthFrame,
)
    requires
        scene.wf(),
    ensures
        !context ==> final(out).batch is None && final(out).frame_seq == old(out).frame_seq,
        context ==> final(out).frame_seq == stamp.frame_seq && (final(out).batch matches Some(batch)
            && is_truth_of(batch, stamp, *scene)),
{
    if !context {
        out.batch = None;
        return;
    }
    let batch = collect_ground_truth(stamp, scene);
    out.frame_seq = stamp.frame_seq;
    out.batch = Some(batch);
}

/// Everything in a batch belongs to the same frame: the batch, each target and each rune that it
/// counts.
pub proof fn law_truth_is_of_one_frame(batch: GroundTruthBatch, stamp: TalosFrameStamp, scene: Scene)
    requires
        is_truth_of(batch, stamp, scene),
    ensures
        forall|i: int|
            0 <= i < batch.target_count ==> (#[trigger] batch.targets[i]).frame_seq
                == batch.frame_seq && batch.targets[i].timestamp_ns == batch.timestamp_ns,
        forall|i: int|
            0 <= i < batch.rune_count ==> (#[trigger] batch.runes[i]).frame_seq == batch.frame_seq
                && batch.runes[i].timestamp_ns == batch.timestamp_ns,
        batch.target_count <= GROUND_TRUTH_MAX_TARGETS,
        batch.rune_count <= GROUND_TRUTH_MAX_RUNES,
{
    lemma_outposts_stamped(
        stamp,
        scene.camera,
        mode_or_forward(scene.outpost_mode),
        scene.outposts@,
        scene.rotors@,
    );
    let targets = all_targets(stamp, scene);
    assert forall|i: int| 0 <= i < targets.len() implies (#[trigger] targets[i]).frame_seq
        == stamp.frame_seq && targets[i].timestamp_ns == stamp.timestamp_ns by {
        let robots = least(scene.robots@.len() as int, GROUND_TRUTH_MAX_TARGETS as int);
        if i >= robots {
            assert(targets[i] == outpost_truths(
                stamp,
                scene.camera,
                mode_or_forward(scene.outpost_mode),
                scene.outposts@,
                scene.rotors@,
            )[i - robots]);
        }
    }
}

proof fn lemma_outposts_stamped(
    stamp: TalosFrameStamp,
    camera: bool,
    mode: RotationMode,
    outposts: Seq<OutpostSighting>,
    rotors: Seq<RotorSighting>,
)
    ensures
        ({
            let truths = outpost_truths(stamp, camera, mode, outposts, rotors);
            forall|i: int|
                0 <= i < truths.len() ==> (#[trigger] truths[i]).frame_seq == stamp.frame_seq
                    && truths[i].timestamp_ns == stamp.timestamp_ns
        }),
    decreases rotors.len(),
{
    if rotors.len() > 0 {
        let truths = outpost_truths(stamp, camera, mode, outposts, rotors);
        let before = outpost_truths(stamp, camera, mode, outposts, rotors.drop_last());
        lemma_outposts_stamped(stamp, camera, mode, outposts, rotors.drop_last());
        assert forall|i: int| 0 <= i < truths.len() implies (#[trigger] truths[i]).frame_seq
            == stamp.frame_seq && truths[i].timestamp_ns == stamp.timestamp_ns by {
            if i < before.len() {
                assert(truths[i] == before[i]);
            }
        }
    }
}

/// A plate is offered as a reference only where there is a camera to choose it by, and as one for
/// precision only where the whole ring of an outpost speaks for it.
pub proof fn law_plates_are_offered_with_care(
    stamp: TalosFrameStamp,
    mode: RotationMode,
    team: Team,
    rotor: RotorSighting,
    plates: Seq<PlateSighting>,
    robot: RobotSighting,
)
    requires
        rotor.wf(),
    ensures
        outpost_truth(stamp, false, mode, team, rotor).armor_position_valid == 0,
        outpost_truth(stamp, false, mode, team, rotor).armor_position == crate::layout::zero3(),
        robot_truth(stamp, false, plates, robot).armor_position_valid == 0,
        outpost_truth(stamp, true, mode, team, rotor).armor_position_degraded == 0
            ==> crate::plates::ring_choice(rotor.plates@, rotor.agreement@) is Some && (
        crate::plates::ring_choice(rotor.plates@, rotor.agreement@)->0).1 >= OUTPOST_PLATES,
{
}

/// What is reported of a robot is what was seen of it, number by number, under the frame's number
/// and time. Its plate is given exactly where there is a camera and one of its plates has its
/// centre in place, and it is then the place of such a centre that is nearest to the camera.
pub proof fn law_a_robot_is_reported_as_seen(
    stamp: TalosFrameStamp,
    camera: bool,
    plates: Seq<PlateSighting>,
    robot: RobotSighting,
)
    ensures
        ({
            let target = robot_truth(stamp, camera, plates, robot);
            let shown = camera && exists|i: int|
                0 <= i < plates.len() && crate::plates::is_centered_plate_of(
                    robot.entity,
                    #[trigger] plates[i],
                );
            &&& target.frame_seq == stamp.frame_seq
            &&& target.timestamp_ns == stamp.timestamp_ns
            &&& target.team == (if robot.team is Blue {
                1int
            } else {
                0int
            })
            &&& target.armor_label == robot.armor_label
            &&& target.is_outpost == 0
            &&& forall|i: int|
                0 <= i < 3 ==> (#[trigger] target.position[i]).bits == robot.position[i].bits
            &&& robot.vyaw matches Some(vyaw) ==> target.vyaw.bits == vyaw.bits
            &&& robot.vyaw is None ==> target.vyaw.bits == 0
            &&& target.yaw.bits == robot.yaw.bits
            &&& target.identity == robot.entity % 0x1_0000
            &&& target.armor_position_degraded == 0
            &&& shown ==> target.armor_position_valid == 1 && exists|i: int|
                0 <= i < plates.len() && crate::plates::is_centered_plate_of(
                    robot.entity,
                    #[trigger] plates[i],
                ) && plates[i].center->Placed_0.world == target.armor_position && forall|j: int|
                    0 <= j < plates.len() && crate::plates::is_centered_plate_of(
                        robot.entity,
                        #[trigger] plates[j],
                    ) ==> plates[i].center->Placed_0.distance_squared.total_rank()
                        <= plates[j].center->Placed_0.distance_squared.total_rank()
            &&& !shown ==> target.armor_position_valid == 0 && forall|i: int|
                0 <= i < 3 ==> (#[trigger] target.armor_position[i]).bits == 0
        }),
{
    crate::plates::law_a_vehicle_shows_its_nearest_plate(robot.entity, plates);
}

/// What is reported of an outpost is what was seen of its turning part, number by number, under the
/// frame's number and time. Its speed is the controller's where it is driven and zero where it is
/// stopped, and negative where exactly one of its sense and its mode is turned about. Its plate is
/// given exactly where there is a camera and two plates agree on a plausible radius, and counts as
/// precise exactly where three do.
pub proof fn law_an_outpost_is_reported_as_seen(
    stamp: TalosFrameStamp,
    camera: bool,
    mode: RotationMode,
    team: Team,
    rotor: RotorSighting,
)
    requires
        rotor.wf(),
    ensures
        ({
            let target = outpost_truth(stamp, camera, mode, team, rotor);
            let plates = rotor.plates@;
            let two = crate::plates::agree_on_a_ring(plates, rotor.agreement@, 2);
            let three = crate::plates::agree_on_a_ring(plates, rotor.agreement@, 3);
            &&& target.frame_seq == stamp.frame_seq
            &&& target.timestamp_ns == stamp.timestamp_ns
            &&& target.team == (if team is Blue {
                1int
            } else {
                0int
            })
            &&& target.armor_label == 6
            &&& target.is_outpost == 1
            &&& forall|i: int|
                0 <= i < 3 ==> (#[trigger] target.position[i]).bits == rotor.position[i].bits
            &&& target.yaw.bits == rotor.yaw.bits
            &&& target.identity == rotor.entity % 0x1_0000
            &&& target.vyaw.bits % 0x8000_0000 == (if mode is Stopped {
                0
            } else {
                rotor.controller.speed.bits
            })
            &&& target.vyaw.bits >= 0x8000_0000 <==> (
            rotor.controller.direction is CounterClockwise) != (mode is Reverse)
            &&& target.armor_position_valid == (if camera && two {
                1int
            } else {
                0int
            })
            &&& target.armor_position_degraded == (if camera && three {
                0int
            } else {
                1int
            })
            &&& !(camera && two) ==> forall|i: int|
                0 <= i < 3 ==> (#[trigger] target.armor_position[i]).bits == 0
            &&& camera && two ==> exists|i: int, k: int, support: nat|
                #[trigger] crate::plates::is_ring_of(plates, rotor.agreement@, i, support)
                    && #[trigger] crate::plates::is_plate_of(
                    plates,
                    rotor.agreement@[i]@,
                    k,
                    target.armor_position,
                )
        }),
{
    let plates = rotor.plates@;
    crate::plates::law_rings_need_agreement(plates, rotor.agreement@);
    let target = outpost_truth(stamp, camera, mode, team, rotor);
    if camera && crate::plates::agree_on_a_ring(plates, rotor.agreement@, 2) {
        let choice = crate::plates::ring_choice(plates, rotor.agreement@)->0;
        assert(choice.0 == target.armor_position);
    }
}

/// A node belongs to the outpost that is found first going up from it.
pub proof fn law_nodes_belong_to_the_nearest_outpost(
    outposts: Seq<OutpostSighting>,
    ancestors: Seq<u64>,
)
    ensures
        owner(outposts, ancestors) is Some <==> exists|i: int, j: int|
            0 <= i < ancestors.len() && 0 <= j < outposts.len() && #[trigger] ancestors[i] == (
            #[trigger] outposts[j]).entity,
        owner(outposts, ancestors) matches Some(team) ==> exists|i: int, j: int|
            0 <= i < ancestors.len() && 0 <= j < outposts.len() && #[trigger] ancestors[i] == (
            #[trigger] outposts[j]).entity && outposts[j].team == team && (forall|lower: int, k: int|
                0 <= lower < i && 0 <= k < outposts.len() ==> #[trigger] ancestors[lower] != (
                #[trigger] outposts[k]).entity),
    decreases ancestors.len(),
{
    if ancestors.len() > 0 {
        let above = ancestors.subrange(1, ancestors.len() as int);
        lemma_team_of(outposts, ancestors[0]);
        law_nodes_belong_to_the_nearest_outpost(outposts, above);
        assert forall|i: int| 0 <= i < above.len() implies #[trigger] above[i] == ancestors[i
            + 1] by {}
        if team_of(outposts, ancestors[0]) is None {
            if owner(outposts, above) is Some {
                let team = owner(outposts, above)->0;
                let (i, j) = choose|i: int, j: int|
                    0 <= i < above.len() && 0 <= j < outposts.len() && #[trigger] above[i] == (
                    #[trigger] outposts[j]).entity && outposts[j].team == team && (forall|
                        lower: int,
                        k: int,
                    |
                        0 <= lower < i && 0 <= k < outposts.len() ==> #[trigger] above[lower] != (
                        #[trigger] outposts[k]).entity);
                assert(ancestors[i + 1] == outposts[j].entity);
                assert forall|lower: int, k: int|
                    0 <= lower < i + 1 && 0 <= k < outposts.len() implies #[trigger] ancestors[lower]
                    != (#[trigger] outposts[k]).entity by {
                    if lower > 0 {
                        assert(above[lower - 1] == ancestors[lower]);
                    }
                }
            } else {
                assert forall|i: int, j: int|
                    0 <= i < ancestors.len() && 0 <= j < outposts.len() implies #[trigger] ancestors[i]
                    != (#[trigger] outposts[j]).entity by {
                    if i > 0 {
                        assert(above[i - 1] == ancestors[i]);
                    }
                }
            }
        }
    }
}

/// The team of a node is that of an outpost which the node is.
proof fn lemma_team_of(outposts: Seq<OutpostSighting>, node: u64)
    ensures
        team_of(outposts, node) is Some <==> exists|j: int|
            0 <= j < outposts.len() && (#[trigger] outposts[j]).entity == node,
        team_of(outposts, node) matches Some(team) ==> exists|j: int|
            0 <= j < outposts.len() && (#[trigger] outposts[j]).entity == node && outposts[j].team
                == team,
    decreases outposts.len(),
{
    if outposts.len() > 0 && outposts[0].entity != node {
        let rest = outposts.subrange(1, outposts.len() as int);
        lemma_team_of(rest, node);
        if team_of(rest, node) is Some {
            let team = team_of(rest, node)->0;
            let j = choose|j: int|
                0 <= j < rest.len() && (#[trigger] rest[j]).entity == node && rest[j].team == team;
            assert(outposts[j + 1] == rest[j]);
        } else {
            assert forall|j: int| 0 <= j < outposts.len() implies (#[trigger] outposts[j]).entity
                != node by {
                if j > 0 {
                    assert(rest[j - 1] == outposts[j]);
                }
            }
        }
    }
}

/// What two lists of turning parts give one after the other is what they give together, and a
/// single one gives the report of itself where it belongs to an outpost, and else nothing.
pub proof fn law_each_outpost_is_reported_for_itself(
    stamp: TalosFrameStamp,
    camera: bool,
    mode: RotationMode,
    outposts: Seq<OutpostSighting>,
    first: Seq<RotorSighting>,
    second: Seq<RotorSighting>,
    rotor: RotorSighting,
)
    ensures
        outpost_truths(stamp, camera, mode, outposts, first + second) == outpost_truths(
            stamp,
            camera,
            mode,
            outposts,
            first,
        ) + outpost_truths(stamp, camera, mode, outposts, second),
        owner(outposts, rotor.ancestors@) is None ==> outpost_truths(
            stamp,
            camera,
            mode,
            outposts,
            seq![rotor],
        ).len() == 0,
        owner(outposts, rotor.ancestors@) matches Some(team) ==> outpost_truths(
            stamp,
            camera,
            mode,
            outposts,
            seq![rotor],
        ) == seq![outpost_truth(stamp, camera, mode, team, rotor)],
    decreases second.len(),
{
    let one = seq![rotor];
    assert(one.drop_last() =~= Seq::<RotorSighting>::empty());
    assert(one.last() == rotor);
    reveal_with_fuel(outpost_truths, 2);
    let f = |rotors: Seq<RotorSighting>| outpost_truths(stamp, camera, mode, outposts, rotors);
    if second.len() == 0 {
        assert(first + second =~= first);
        assert(f(first) + f(second) =~= f(first));
    } else {
        law_each_outpost_is_reported_for_itself(
            stamp,
            camera,
            mode,
            outposts,
            first,
            second.drop_last(),
            rotor,
        );
        assert((first + second).drop_last() =~= first + second.drop_last());
        assert((first + second).last() == second.last());
        assert(f(first + second) =~= f(first) + f(second));
    }
}

/// Who stands where in a batch. The robots come first, in the order in which they were seen, then
/// the outposts in theirs, as many as there are places; the runes have places of their own. What is
/// counted is there, and the places behind it are empty.
pub proof fn law_a_batch_lists_all_in_their_order(
    batch: GroundTruthBatch,
    stamp: TalosFrameStamp,
    scene: Scene,
    i: int,
)
    requires
        is_truth_of(batch, stamp, scene),
        0 <= i,
    ensures
        ({
            let robots = scene.robots@.len() as int;
            let outposts = outpost_truths(
                stamp,
                scene.camera,
                if scene.outpost_mode is Some {
                    scene.outpost_mode->0
                } else {
                    RotationMode::Forward
                },
                scene.outposts@,
                scene.rotors@,
            );
            &&& batch.frame_seq == stamp.frame_seq
            &&& batch.timestamp_ns == stamp.timestamp_ns
            &&& robots + outposts.len() <= 16 ==> batch.target_count == robots + outposts.len()
            &&& robots + outposts.len() > 16 ==> batch.target_count == 16
            &&& i < robots && i < 16 ==> batch.targets[i] == robot_truth(
                stamp,
                scene.camera,
                scene.plates@,
                scene.robots@[i],
            )
            &&& robots <= i < robots + outposts.len() && i < 16 ==> batch.targets[i] == outposts[i
                - robots]
            &&& robots + outposts.len() <= i < 16 ==> batch.targets[i]
                == GroundTruthTarget::blank()
            &&& scene.runes@.len() <= 4 ==> batch.rune_count == scene.runes@.len()
            &&& scene.runes@.len() > 4 ==> batch.rune_count == 4
            &&& i < scene.runes@.len() && i < 4 ==> batch.runes[i] == crate::runes::rune_truth(
                stamp.frame_seq,
                stamp.timestamp_ns,
                scene.runes@[i],
            )
            &&& scene.runes@.len() <= i < 4 ==> batch.runes[i]
                == crate::layout::GroundTruthRune::blank()
        }),
{
}

/// What is collected of a scene: the robots as they are seen, in their order and before the
/// outposts; as many as there are places; all under the frame's number and time.
pub proof fn law_calls_of_collect_ground_truth(
    stamp: TalosFrameStamp,
    scene: Scene,
    batch: GroundTruthBatch,
    i: int,
)
    requires
        call_ensures(collect_ground_truth, (stamp, &scene), batch),
        0 <= i,
    ensures
        batch.frame_seq == stamp.frame_seq,
        batch.timestamp_ns == stamp.timestamp_ns,
        batch.seqlock == 0,
        batch.target_count <= 16,
        scene.robots@.len() <= 16 ==> batch.target_count >= scene.robots@.len(),
        batch.rune_count == (if scene.runes@.len() <= 4 {
            scene.runes@.len() as int
        } else {
            4
        }),
        i < 16 && i < scene.robots@.len() ==> {
            let (target, robot) = (batch.targets[i], scene.robots@[i]);
            &&& target.frame_seq == stamp.frame_seq
            &&& target.timestamp_ns == stamp.timestamp_ns
            &&& target.team == 1 <==> robot.team is Blue
            &&& target.armor_label == robot.armor_label
            &&& target.is_outpost == 0
            &&& forall|k: int|
                0 <= k < 3 ==> (#[trigger] target.position[k]).bits == robot.position[k].bits
            &&& target.yaw.bits == robot.yaw.bits
            &&& target.identity == robot.entity % 0x1_0000
        },
        i < 4 && i < scene.runes@.len() ==> {
            let (record, rune) = (batch.runes[i], scene.runes@[i]);
            &&& record.frame_seq == stamp.frame_seq
            &&& record.timestamp_ns == stamp.timestamp_ns
            &&& record.team == 1 <==> rune.team is Blue
            &&& forall|k: int| 0 <= k < 3 ==> #[trigger] record.r_center_odom[k] == rune.center[k]
        },
        is_truth_of(batch, stamp, scene),
{
    law_a_batch_lists_all_in_their_order(batch, stamp, scene, i);
    law_truth_is_of_one_frame(batch, stamp, scene);
    if i < 16 && i < scene.robots@.len() {
        law_a_robot_is_reported_as_seen(stamp, scene.camera, scene.plates@, scene.robots@[i]);
    }
    if i < 4 && i < scene.runes@.len() {
        crate::runes::law_a_rune_is_reported_as_seen(
            stamp.frame_seq,
            stamp.timestamp_ns,
            scene.runes@[i],
        );
    }
}

/// What waits for a frame: what was collected for it under its number, and nothing where nothing is
/// to go out.
pub proof fn law_calls_of_collect_ground_truth_system(
    context: bool,
    stamp: TalosFrameStamp,
    scene: Scene,
    out: &mut TalosGroundTruthFrame,
    r: (),
)
    requires
        call_ensures(collect_ground_truth_system, (context, stamp, &scene, out), r),
    ensures
        final(out).batch is Some <==> context,
        context ==> final(out).frame_seq == stamp.frame_seq && final(out).batch->0.frame_seq
            == stamp.frame_seq && final(out).batch->0.timestamp_ns == stamp.timestamp_ns
            && is_truth_of(final(out).batch->0, stamp, scene),
        !context ==> final(out).frame_seq == old(out).frame_seq,
{
}

/// Outposts are put behind what a batch counts already, in their order, as many as there are
/// places; nothing that was counted is touched.
pub proof fn law_calls_of_push_outpost_targets(
    batch: &mut GroundTruthBatch,
    stamp: TalosFrameStamp,
    camera: bool,
    mode: RotationMode,
    outposts: Vec<OutpostSighting>,
    rotors: Vec<RotorSighting>,
    r: (),
    i: int,
)
    requires
        call_ensures(
            push_outpost_targets,
            (batch, stamp, camera, mode, &outposts, &rotors),
            r,
        ),
        old(batch).target_count <= 16,
        0 <= i < 16,
    ensures
        ({
            let truths = outpost_truths(stamp, camera, mode, outposts@, rotors@);
            let start = old(batch).target_count as int;
            &&& start + truths.len() <= 16 ==> final(batch).target_count == start + truths.len()
            &&& start + truths.len() > 16 ==> final(batch).target_count == 16
            &&& i < start ==> final(batch).targets[i] == old(batch).targets[i]
            &&& start <= i < start + truths.len() ==> final(batch).targets[i] == truths[i - start]
            &&& start + truths.len() <= i ==> final(batch).targets[i] == old(batch).targets[i]
            &&& final(batch).frame_seq == old(batch).frame_seq
            &&& final(batch).timestamp_ns == old(batch).timestamp_ns
            &&& final(batch).rune_count == old(batch).rune_count
            &&& final(batch).runes == old(batch).runes
        }),
{
}

} // verus!
