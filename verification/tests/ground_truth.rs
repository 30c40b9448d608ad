use bevy::math::{EulerRot, Mat3, Quat, Vec2, Vec3};
use bevy::prelude::Transform;
use daedalus::float::F32;
use daedalus::ground_truth::{
    collect_ground_truth, collect_ground_truth_system, push_outpost_targets, OutpostSighting,
    RobotSighting, RotorSighting, Scene, TalosFrameStamp, TalosGroundTruthFrame, OUTPOST_LABEL,
};
use daedalus::layout::{GroundTruthBatch, GroundTruthTarget};
use daedalus::plates::{
    names_a_center, plate_candidates, select_plate_reference, select_plate_reference_with_support,
    CenterSighting, PlateCandidate, PlateReference, PlateSighting, OUTPOST_RADIUS_MODEL_MIN_RADIUS_M,
};
use daedalus::rotation::{RotationController, RotationDirection, RotationMode};
use daedalus::runes::{
    activation_to_u8, mechanism_state_to_u8, parse_rune_bullseye_node, rune_blade_choice,
    rune_blade_geometry, rune_blade_identity, rune_face_index, rune_ground_truth, rune_mode_to_u8,
    team_to_u8, Activation, BladeChoice, BladeGeometry, MechanismState, NamedNode, RuneMode,
    RuneSighting, RuneSwing, Team, MIN_BLADE_RADIUS, MIN_RUNE_SPEED,
};

/// From the axes of the scene, with y upward, to those of the protocol, with z upward.
const M_ALIGN_MAT3: Mat3 = Mat3::from_cols(
    Vec3::new(0.0, -1.0, 0.0),
    Vec3::new(0.0, 0.0, 1.0),
    Vec3::new(-1.0, 0.0, 0.0),
);

fn to_ros_vec3(v: Vec3) -> Vec3 {
    M_ALIGN_MAT3 * v
}

fn ros_yaw(rotation: Quat) -> f32 {
    let align = Quat::from_mat3(&M_ALIGN_MAT3);
    let (yaw, _, _) = (align * rotation * align.inverse()).to_euler(EulerRot::ZYX);
    yaw
}

fn f(v: f32) -> F32 {
    F32 { bits: v.to_bits() }
}

fn pack(v: Vec3) -> [F32; 3] {
    [f(v.x), f(v.y), f(v.z)]
}

fn unpack(v: [F32; 3]) -> Vec3 {
    Vec3::new(
        f32::from_bits(v[0].bits),
        f32::from_bits(v[1].bits),
        f32::from_bits(v[2].bits),
    )
}

/// Measures a plate, from a camera and about the axis of an outpost.
fn measure(at: Vec3, camera: Vec3, rotor: Option<(Vec3, Quat)>) -> PlateCandidate {
    let radius = rotor.map_or(0.0, |(place, rotation)| {
        let local = rotation.inverse() * (at - place);
        Vec2::new(local.x, local.z).length()
    });
    PlateCandidate {
        distance_squared: f(at.distance_squared(camera)),
        world: pack(to_ros_vec3(at)),
        outpost_radius_m: f(radius),
    }
}

/// Which radii agree: within a fifth, or within two centimetres.
fn agreement(candidates: &[PlateCandidate]) -> Vec<Vec<bool>> {
    let radius = |c: &PlateCandidate| f32::from_bits(c.outpost_radius_m.bits);
    candidates
        .iter()
        .map(|c| {
            let tolerance = (radius(c) * 0.20).max(0.02);
            candidates.iter().map(|o| (radius(o) - radius(c)).abs() <= tolerance).collect()
        })
        .collect()
}

#[test]
fn plate_without_center_skips_only_itself() {
    let camera = Vec3::ZERO;
    let vehicle = 40u64;
    let near_center = Vec3::new(0.0, 0.0, 1.5);
    let seen = |center: Option<Vec3>, root: Vec3| PlateSighting {
        ancestors: vec![vehicle],
        center: match center {
            Some(at) => CenterSighting::Placed(measure(at, camera, None)),
            None => CenterSighting::Absent,
        },
        root: Some(measure(root, camera, None)),
    };
    let plates = vec![
        seen(None, Vec3::new(0.0, 0.0, 1.0)),
        seen(Some(Vec3::new(0.0, 0.0, 3.0)), Vec3::new(0.0, 0.0, 3.0)),
        seen(Some(near_center), Vec3::new(0.0, 0.0, 1.5)),
    ];
    let candidates = plate_candidates(vehicle, PlateReference::CenterNode, &plates);
    assert_eq!(candidates.len(), 2);
    let got = select_plate_reference(PlateReference::CenterNode, &candidates, &Vec::new());
    let expected = to_ros_vec3(near_center);
    let got = unpack(got.expect("one plate without a centre costs the others nothing"));
    assert!(got.distance(expected) < 1e-6, "expected {expected:?}, got {got:?}");
    // Another vehicle has no plates, and a plate whose centre has no place is left out.
    assert!(plate_candidates(41, PlateReference::CenterNode, &plates).is_empty());
    let lost = vec![PlateSighting {
        ancestors: vec![1, vehicle],
        center: CenterSighting::Unplaced,
        root: Some(measure(near_center, camera, None)),
    }];
    assert!(plate_candidates(vehicle, PlateReference::CenterNodeOrPlateRoot, &lost).is_empty());
}

/// Outposts: a root, a turning part below it, and plates without centres below that.
struct Outposts {
    outposts: Vec<OutpostSighting>,
    rotors: Vec<(u64, u64, RotationDirection, Vec3, Quat, Vec<Vec3>)>,
}

impl Outposts {
    fn new() -> Self {
        Outposts { outposts: Vec::new(), rotors: Vec::new() }
    }

    fn add(&mut self, team: Team, rotor_at: Vec3, plates: &[Vec3]) {
        let root = 100 + self.outposts.len() as u64 * 10;
        let direction = match team {
            Team::Red => RotationDirection::Clockwise,
            Team::Blue => RotationDirection::CounterClockwise,
        };
        self.outposts.push(OutpostSighting { entity: root, team });
        let plates = plates.iter().map(|p| rotor_at + *p).collect();
        self.rotors.push((root + 1, root, direction, rotor_at, Quat::IDENTITY, plates));
    }

    fn collect(&self, camera: Option<Vec3>) -> GroundTruthBatch {
        let mut rotors = Vec::new();
        for (entity, root, direction, at, rotation, plates) in &self.rotors {
            let eye = camera.unwrap_or(Vec3::ZERO);
            let sightings: Vec<PlateSighting> = plates
                .iter()
                .map(|p| PlateSighting {
                    ancestors: vec![*entity, *root],
                    center: CenterSighting::Absent,
                    root: Some(measure(*p, eye, Some((*at, *rotation)))),
                })
                .collect();
            let plates =
                plate_candidates(*entity, PlateReference::CenterNodeOrPlateRoot, &sightings);
            rotors.push(RotorSighting {
                entity: *entity,
                ancestors: vec![*root],
                controller: RotationController::new(*direction),
                position: pack(to_ros_vec3(*at)),
                yaw: f(ros_yaw(*rotation)),
                agreement: agreement(&plates),
                plates,
            });
        }
        let mut batch = GroundTruthBatch::default();
        push_outpost_targets(
            &mut batch,
            TalosFrameStamp { frame_seq: 7, timestamp_ns: 1_234_567_890 },
            camera.is_some(),
            RotationMode::Forward,
            &self.outposts,
            &rotors,
        );
        batch
    }
}

#[test]
fn red_and_blue_outposts_are_published_with_team_and_outpost_label() {
    const R: f32 = 0.2757;
    let plates = [
        Vec3::new(R, -0.138, 0.0),
        Vec3::new(-0.5 * R, -0.138, 0.866 * R),
        Vec3::new(-0.5 * R, -0.138, -0.866 * R),
    ];
    let mut world = Outposts::new();
    let red_rotor_at = Vec3::new(3.06, 1.14, -5.50);
    let blue_rotor_at = Vec3::new(-3.06, 1.14, 2.21);
    world.add(Team::Red, red_rotor_at, &plates);
    world.add(Team::Blue, blue_rotor_at, &plates);

    let camera_pos = red_rotor_at + Vec3::new(3.0, 0.0, 0.0);
    let batch = world.collect(Some(camera_pos));

    assert_eq!(batch.target_count, 2, "both outposts go out");
    let mut by_team = [None, None];
    for t in &batch.targets[..2] {
        assert_eq!(t.is_outpost, 1);
        assert_eq!(t.armor_label, 6);
        assert_eq!(t.armor_label, OUTPOST_LABEL);
        assert_eq!(t.frame_seq, 7);
        assert_eq!(t.timestamp_ns, 1_234_567_890);
        by_team[t.team as usize] = Some(*t);
    }
    let red = by_team[0].expect("the red one");
    let blue = by_team[1].expect("the blue one");

    for (t, at) in [(&red, red_rotor_at), (&blue, blue_rotor_at)] {
        let want = to_ros_vec3(at);
        let got = unpack(t.position);
        assert!(got.distance(want) < 1e-5, "expected {want:?}, got {got:?}");
    }

    let speed = 0.8 * std::f32::consts::PI;
    assert!((f32::from_bits(red.vyaw.bits) - speed).abs() < 1e-5);
    assert!((f32::from_bits(blue.vyaw.bits) + speed).abs() < 1e-5);

    assert_eq!(red.armor_position_valid, 1);
    assert_eq!(red.armor_position_degraded, 0);
    let want_plate = to_ros_vec3(red_rotor_at + plates[0]);
    let got_plate = unpack(red.armor_position);
    assert!(got_plate.distance(want_plate) < 1e-5, "expected {want_plate:?}, got {got_plate:?}");
    assert_eq!(red.identity, 101);
}

#[test]
fn outpost_two_plate_model_is_marked_degraded() {
    const R: f32 = 0.275;
    let rotor_at = Vec3::new(1.0, 1.0, 1.0);
    let mut world = Outposts::new();
    world.add(Team::Blue, rotor_at, &[Vec3::new(R, 0.0, 0.0), Vec3::new(-R, 0.0, 0.0)]);
    let batch = world.collect(Some(rotor_at + Vec3::new(2.0, 0.0, 0.0)));
    assert_eq!(batch.target_count, 1);
    assert_eq!(batch.targets[0].armor_position_valid, 1);
    assert_eq!(
        batch.targets[0].armor_position_degraded, 1,
        "two plates are no reference for precision"
    );
}

#[test]
fn outpost_three_plate_angle_spacing_survives_rotation() {
    const R: f32 = 0.275;
    let offsets = [
        Vec3::new(R, 0.0, 0.0),
        Vec3::new(-0.5 * R, 0.0, 0.8660254 * R),
        Vec3::new(-0.5 * R, 0.0, -0.8660254 * R),
    ];
    for yaw_deg in [0.0_f32, 37.0, 123.0] {
        let rotor_at = Vec3::new(-1.0, 1.0, 2.0);
        let mut world = Outposts::new();
        world.add(Team::Blue, rotor_at, &offsets);
        let rotation = Quat::from_rotation_y(yaw_deg.to_radians());
        world.rotors[0].4 = rotation;
        for (i, offset) in offsets.iter().enumerate() {
            world.rotors[0].5[i] = rotor_at + rotation * *offset;
        }
        let batch = world.collect(Some(rotor_at + Vec3::new(3.0, 0.0, 0.0)));
        assert_eq!(batch.targets[0].armor_position_valid, 1);
        assert_eq!(batch.targets[0].armor_position_degraded, 0);
        let selected_bevy = M_ALIGN_MAT3.inverse() * unpack(batch.targets[0].armor_position);
        let local = rotation.inverse() * (selected_bevy - rotor_at);
        assert!((Vec2::new(local.x, local.z).length() - R).abs() < 1e-4);
    }
}

#[test]
fn outpost_radius_model_rejects_a_nearest_outlier_after_rotation() {
    const R: f32 = 0.275;
    let rotor_at = Vec3::new(-3.06, 1.14, 2.21);
    let rotor_rotation = Quat::from_rotation_y(67.0_f32.to_radians());
    let normal_offsets = [Vec3::new(R, -0.138, 0.0), Vec3::new(-0.5 * R, -0.138, 0.866 * R)];
    let outlier_offset = Vec3::new(-0.151, 0.519, 1.777);

    let mut world = Outposts::new();
    world.add(Team::Blue, rotor_at, &[]);
    world.rotors[0].4 = rotor_rotation;
    let normal_a = rotor_at + rotor_rotation * normal_offsets[0];
    let normal_b = rotor_at + rotor_rotation * normal_offsets[1];
    let outlier_at = rotor_at + rotor_rotation * outlier_offset;
    world.rotors[0].5 = vec![normal_a, normal_b, outlier_at];

    let camera_pos = outlier_at + Vec3::new(0.01, 0.0, 0.0);
    assert!(
        outlier_at.distance_squared(camera_pos)
            < normal_a
                .distance_squared(camera_pos)
                .min(normal_b.distance_squared(camera_pos)),
        "the stray node is the nearest"
    );
    let expected = [normal_a, normal_b]
        .into_iter()
        .min_by(|a, b| {
            a.distance_squared(camera_pos).total_cmp(&b.distance_squared(camera_pos))
        })
        .unwrap();

    let batch = world.collect(Some(camera_pos));
    assert_eq!(batch.target_count, 1);
    let target = batch.targets[0];
    assert_eq!(target.armor_position_valid, 1);
    let selected = unpack(target.armor_position);
    assert!(selected.distance(to_ros_vec3(expected)) < 1e-5);
    assert!(selected.distance(to_ros_vec3(outlier_at)) > 1.0);
    let local_outlier = rotor_rotation.inverse() * (outlier_at - rotor_at);
    assert!(Vec2::new(local_outlier.x, local_outlier.z).length() > 6.0 * R);
}

#[test]
fn outpost_without_camera_reports_armor_position_invalid() {
    let mut world = Outposts::new();
    world.add(Team::Red, Vec3::new(1.0, 1.0, 1.0), &[Vec3::new(0.27, 0.0, 0.0)]);
    let batch = world.collect(None);
    assert_eq!(batch.target_count, 1);
    assert_eq!(batch.targets[0].armor_position_valid, 0);
    assert_eq!(unpack(batch.targets[0].armor_position), Vec3::ZERO);
    assert_eq!(batch.targets[0].is_outpost, 1);
    assert_eq!(batch.targets[0].armor_position_degraded, 1);
}

#[test]
fn outpost_yaw_advances_in_the_same_direction_as_vyaw() {
    for team in [Team::Red, Team::Blue] {
        let mut world = Outposts::new();
        world.add(team, Vec3::new(0.0, 1.14, 0.0), &[Vec3::new(0.27, 0.0, 0.0)]);

        let before = world.collect(None).targets[0];
        let dt = 0.02_f32;
        let vyaw = f32::from_bits(before.vyaw.bits);
        let step = vyaw * dt;
        let mut tf = Transform::from_rotation(world.rotors[0].4);
        tf.rotate_y(step);
        world.rotors[0].4 = tf.rotation;

        let after = world.collect(None).targets[0];
        let d = (f32::from_bits(after.yaw.bits) - f32::from_bits(before.yaw.bits))
            .rem_euclid(std::f32::consts::TAU);
        let d = if d > std::f32::consts::PI { d - std::f32::consts::TAU } else { d };
        assert!((d - step).abs() < 1e-4, "{team:?}: vyaw={vyaw}, expected {step}, got {d}");
    }
}

#[test]
fn duplicate_armor_label_is_disambiguated_by_team() {
    let mut b = GroundTruthBatch { target_count: 2, ..Default::default() };
    b.targets[0] = GroundTruthTarget {
        team: team_to_u8(&Team::Red),
        armor_label: 3,
        position: pack(Vec3::new(1.0, 0.0, 0.2)),
        ..Default::default()
    };
    b.targets[1] = GroundTruthTarget {
        team: team_to_u8(&Team::Blue),
        armor_label: 3,
        position: pack(Vec3::new(3.0, 0.5, 0.2)),
        ..Default::default()
    };

    assert_eq!(b.targets[0].team, 0);
    assert_eq!(b.targets[1].team, 1);
    assert_ne!(b.targets[0].team, b.targets[1].team, "the team tells them apart");
    assert_eq!(b.targets[0].armor_label, b.targets[1].armor_label);
}

#[test]
fn bullseye_status_filter_rejects_legging_and_padding() {
    let prefix = "FACE_1_TARGET_";
    assert_eq!(parse_rune_bullseye_node(prefix, "FACE_1_TARGET_1_ACTIVATED"), Some(0));
    assert_eq!(parse_rune_bullseye_node(prefix, "FACE_1_TARGET_3_ACTIVE"), Some(2));
    assert_eq!(parse_rune_bullseye_node(prefix, "FACE_1_TARGET_5_COMPLETED"), Some(4));
    assert_eq!(parse_rune_bullseye_node(prefix, "FACE_1_TARGET_2_DISABLED"), Some(1));
    assert_eq!(parse_rune_bullseye_node(prefix, "FACE_1_TARGET_1_LEGGING_1"), None);
    assert_eq!(parse_rune_bullseye_node(prefix, "FACE_1_TARGET_1_PADDING"), None);
    assert_eq!(parse_rune_bullseye_node(prefix, "FACE_1_TARGET_1_LEGGING_PROGRESSING"), None);
    assert_eq!(parse_rune_bullseye_node(prefix, "FACE_1_R_PADDING"), None);
    assert_eq!(rune_blade_identity(1, 2), (1 << 8) | 2);
}

#[test]
fn blade_numbers_are_read_as_numbers_are() {
    let prefix = "P";
    assert_eq!(parse_rune_bullseye_node(prefix, "P+5_ACTIVE"), Some(4));
    assert_eq!(parse_rune_bullseye_node(prefix, "P0004_ACTIVE"), Some(3));
    for name in [
        "P0_ACTIVE", "P6_ACTIVE", "P_ACTIVE", "P+_ACTIVE", "P-1_ACTIVE", "P 1_ACTIVE", "P1_", "P1",
        "1_ACTIVE", "P1_ACTIVE_", "P1_active", "P99999999999999999999999_ACTIVE", "",
    ] {
        assert_eq!(parse_rune_bullseye_node(prefix, name), None, "{name}");
    }
    assert_eq!(rune_face_index("FACE_2"), Some(2));
    assert_eq!(rune_face_index("FACE_+2"), Some(2));
    assert_eq!(rune_face_index("FACE_18446744073709551615"), Some(usize::MAX));
    for name in ["FACE_", "FACE_1_TARGET", "FACE1", "face_1", "FACE_x", "FACE_18446744073709551616"] {
        assert_eq!(rune_face_index(name), None, "{name}");
    }
    assert_eq!(rune_blade_identity(0x101, 4), 0x104);
    assert_eq!(rune_blade_identity(0, 0x1_0003), 3);
}

fn node(name: &str, at: Vec3) -> NamedNode {
    NamedNode { name: name.to_string(), place: pack(at) }
}

/// What was measured of a blade.
fn geometry(nodes: &Vec<NamedNode>, choice: BladeChoice, center: Vec3) -> Option<BladeGeometry> {
    let blade = unpack(nodes[choice.node].place);
    let v = blade - center;
    rune_blade_geometry(choice, pack(blade), f(blade.distance(center)), f(v.z.atan2(v.x)))
}

#[test]
fn current_blade_geometry_ignores_legging_and_uses_mechanism_target() {
    let nodes = vec![
        node("FACE_1_TARGET_1_ACTIVATED", Vec3::new(0.7, 0.0, 0.0)),
        node("FACE_1_TARGET_1_LEGGING_1", Vec3::new(2.5, 0.0, 0.0)),
        node("FACE_1_TARGET_1_PADDING", Vec3::new(2.4, 0.0, 0.0)),
        node("FACE_1_TARGET_3_ACTIVATED", Vec3::new(0.0, 0.0, 0.7)),
    ];
    let choice = rune_blade_choice(Some("FACE_1"), Some(2), &nodes).expect("a blade");
    let g = geometry(&nodes, choice, Vec3::ZERO).expect("bullseye geometry");
    assert_eq!(g.blade_id, 2, "the blade of the mechanism, not the first one");
    assert!((f32::from_bits(g.radius.bits) - 0.7).abs() < 1e-4);
    assert!(unpack(g.point).distance(Vec3::new(0.0, 0.0, 0.7)) < 1e-4);
    assert_eq!(g.identity, rune_blade_identity(1, 2));

    let choice = rune_blade_choice(Some("FACE_1"), None, &nodes).expect("a blade");
    let fallback = geometry(&nodes, choice, Vec3::ZERO).expect("fallback geometry");
    assert_eq!(fallback.blade_id, 0);
    assert!((f32::from_bits(fallback.radius.bits) - 0.7).abs() < 1e-4);
}

#[test]
fn blades_fall_back_to_the_lowest_that_is_there() {
    let nodes = vec![
        node("FACE_2_TARGET_4_ACTIVE", Vec3::X),
        node("FACE_2_TARGET_2_ACTIVE", Vec3::Y),
        node("FACE_2_TARGET_2_DISABLED", Vec3::Z),
        node("FACE_1_TARGET_1_ACTIVE", Vec3::Z),
    ];
    let choice = rune_blade_choice(Some("FACE_2"), Some(4), &nodes).unwrap();
    assert_eq!(choice, BladeChoice { blade_id: 1, node: 1, identity: 0x201 });
    assert_eq!(rune_blade_choice(Some("FACE_2"), Some(7), &nodes), Some(choice));
    assert_eq!(rune_blade_choice(Some("FACE_3"), None, &nodes), None);
    assert_eq!(rune_blade_choice(None, None, &nodes), None);
    // A name that is no face still names its nodes, under face zero.
    let odd = vec![node("RUNE_TARGET_5_COMPLETED", Vec3::X)];
    assert_eq!(
        rune_blade_choice(Some("RUNE"), None, &odd),
        Some(BladeChoice { blade_id: 4, node: 0, identity: 4 })
    );
    // A blade in the centre, or without a measure, is none.
    assert_eq!(f32::from_bits(MIN_BLADE_RADIUS), 1e-4);
    for radius in [0.0, 1e-4, -1.0, f32::NAN, f32::INFINITY] {
        assert!(rune_blade_geometry(choice, pack(Vec3::X), f(radius), f(0.0)).is_none());
    }
    assert!(rune_blade_geometry(choice, pack(Vec3::X), f(2e-4), f(0.0)).is_some());
}

fn rune() -> RuneSighting {
    RuneSighting {
        team: Team::Blue,
        mode: RuneMode::Large,
        state: MechanismState::Activating,
        activations: vec![Activation::Activated, Activation::Completed],
        clockwise: false,
        center: pack(Vec3::new(1.0, 2.0, 3.0)),
        angle: f(0.25),
        swing: None,
        face_name: Some("FACE_2".to_string()),
        blade: None,
        last_speed: f(0.0),
        instantaneous_speed: f(1.5),
    }
}

#[test]
fn a_rune_without_blades_shows_its_centre_as_blade_zero() {
    let r = rune_ground_truth(8, 9, &rune());
    assert_eq!((r.frame_seq, r.timestamp_ns), (8, 9));
    assert_eq!((r.team, r.rune_mode, r.mechanism_state), (1, 1, 1));
    assert_eq!((r.radius.bits, r.blade_id, r.identity), (0, 0, 0x200));
    assert_eq!(f32::from_bits(r.current_angle.bits), 0.25);
    assert_eq!(unpack(r.target_point_odom), Vec3::new(1.0, 2.0, 3.0));
    assert_eq!(r.target_activations, [2, 3, 0, 0, 0]);
    assert_eq!(r.direction, -1);
    assert_eq!(f32::from_bits(r.v_roll.bits), 1.5);
    assert_eq!((r.sin_amplitude.bits, r.sin_offset.bits), (0, 0));
}

#[test]
fn a_rune_shows_its_blade_its_swing_and_its_speed() {
    let seen = RuneSighting {
        clockwise: true,
        activations: vec![Activation::Activating; 7],
        swing: Some(RuneSwing { amplitude: f(0.9), omega: f(1.9), time: f(3.0), offset: f(1.19) }),
        blade: Some(BladeGeometry {
            radius: f(0.7),
            angle: f(1.0),
            blade_id: 3,
            point: pack(Vec3::ONE),
            identity: 0x203,
        }),
        last_speed: f(-2.0),
        ..rune()
    };
    let r = rune_ground_truth(8, 9, &seen);
    assert_eq!((r.blade_id, r.identity, r.direction), (3, 0x203, 1));
    assert_eq!(f32::from_bits(r.radius.bits), 0.7);
    assert_eq!(f32::from_bits(r.v_roll.bits), -2.0);
    assert_eq!(f32::from_bits(r.sin_amplitude.bits), 0.9);
    assert_eq!(f32::from_bits(r.sin_omega.bits), 1.9);
    assert_eq!(f32::from_bits(r.relative_time.bits), 3.0);
    assert_eq!(f32::from_bits(r.sin_offset.bits), 1.19);
    assert_eq!(r.target_activations, [1; 5]);
    assert_eq!(f32::from_bits(MIN_RUNE_SPEED), 1e-6);
    for (speed, shown) in [(1e-6, 1.5), (-1e-6, 1.5), (2e-6, 2e-6), (f32::NAN, 1.5)] {
        let slow = RuneSighting { last_speed: f(speed), ..rune() };
        assert_eq!(f32::from_bits(rune_ground_truth(0, 0, &slow).v_roll.bits), shown);
    }
}

#[test]
fn numbers_stand_for_what_they_stand_for() {
    assert_eq!(activation_to_u8(&Activation::Deactivated), 0);
    assert_eq!(activation_to_u8(&Activation::Activating), 1);
    assert_eq!(activation_to_u8(&Activation::Activated), 2);
    assert_eq!(activation_to_u8(&Activation::Completed), 3);
    assert_eq!(mechanism_state_to_u8(&MechanismState::Inactive), 0);
    assert_eq!(mechanism_state_to_u8(&MechanismState::Activating), 1);
    assert_eq!(mechanism_state_to_u8(&MechanismState::Activated), 2);
    assert_eq!(mechanism_state_to_u8(&MechanismState::Failed), 3);
    assert_eq!(rune_mode_to_u8(&RuneMode::Small), 0);
    assert_eq!(rune_mode_to_u8(&RuneMode::Large), 1);
}

fn robot(entity: u64) -> RobotSighting {
    RobotSighting {
        entity,
        team: Team::Blue,
        armor_label: 3,
        position: pack(Vec3::new(entity as f32, 0.0, 0.0)),
        vyaw: None,
        yaw: f(0.5),
    }
}

fn scene() -> Scene {
    Scene {
        camera: true,
        robots: Vec::new(),
        plates: Vec::new(),
        outposts: Vec::new(),
        rotors: Vec::new(),
        outpost_mode: None,
        runes: Vec::new(),
    }
}

fn rotor(entity: u64, root: u64) -> RotorSighting {
    RotorSighting {
        entity,
        ancestors: vec![9999, root],
        controller: RotationController::new(RotationDirection::Clockwise),
        position: pack(Vec3::ZERO),
        yaw: f(0.0),
        plates: Vec::new(),
        agreement: Vec::new(),
    }
}

#[test]
fn a_batch_takes_robots_then_outposts_as_far_as_it_has_room() {
    let stamp = TalosFrameStamp { frame_seq: 5, timestamp_ns: 6 };
    let mut s = scene();
    s.robots = (0..15).map(|i| robot(0x1_0000 + i)).collect();
    s.robots[2].vyaw = Some(f(2.5));
    s.plates = vec![PlateSighting {
        ancestors: vec![0x1_0002],
        center: CenterSighting::Placed(PlateCandidate {
            distance_squared: f(4.0),
            world: pack(Vec3::ONE),
            outpost_radius_m: f(0.0),
        }),
        root: None,
    }];
    s.outposts = vec![
        OutpostSighting { entity: 70, team: Team::Red },
        OutpostSighting { entity: 80, team: Team::Blue },
    ];
    // The first turning part belongs to no outpost; the last finds no room.
    s.rotors = vec![rotor(1, 2), rotor(81, 80), rotor(71, 70)];
    s.runes = (0..6).map(|_| rune()).collect();
    let batch = collect_ground_truth(stamp, &s);
    assert_eq!((batch.frame_seq, batch.timestamp_ns), (5, 6));
    assert_eq!((batch.target_count, batch.rune_count), (16, 4));
    for (i, t) in batch.targets[..15].iter().enumerate() {
        assert_eq!((t.identity, t.is_outpost, t.armor_label), (i as u16, 0, 3));
        assert_eq!((t.frame_seq, t.timestamp_ns), (5, 6));
        assert_eq!(t.armor_position_valid, u8::from(i == 2));
        assert_eq!(f32::from_bits(t.vyaw.bits), if i == 2 { 2.5 } else { 0.0 });
    }
    assert_eq!(unpack(batch.targets[2].armor_position), Vec3::ONE);
    assert_eq!((batch.targets[15].is_outpost, batch.targets[15].team), (1, 1));
    assert_eq!(batch.runes[3].identity, 0x200);

    s.robots.push(robot(200));
    s.robots.push(robot(201));
    let batch = collect_ground_truth(stamp, &s);
    assert_eq!(batch.target_count, 16);
    assert_eq!((batch.targets[15].is_outpost, batch.targets[15].identity), (0, 200));

    s.camera = false;
    s.outpost_mode = Some(RotationMode::Reverse);
    s.robots.truncate(1);
    let batch = collect_ground_truth(stamp, &s);
    assert_eq!(batch.target_count, 3);
    assert!(batch.targets.iter().all(|t| t.armor_position_valid == 0));
    assert!(f32::from_bits(batch.targets[1].vyaw.bits) < 0.0);
    assert_eq!(batch.targets[3].timestamp_ns, 0);

    let mut out = TalosGroundTruthFrame::default();
    collect_ground_truth_system(true, stamp, &s, &mut out);
    assert_eq!((out.frame_seq, out.batch.map(|b| b.target_count)), (5, Some(3)));
    let later = TalosFrameStamp { frame_seq: 6, timestamp_ns: 7 };
    collect_ground_truth_system(false, later, &s, &mut out);
    assert!(out.batch.is_none());
    assert_eq!(out.frame_seq, 5);
}

#[test]
fn rings_need_two_plates_and_prefer_more_and_smaller() {
    let plate = |distance: f32, radius: f32, id: f32| PlateCandidate {
        distance_squared: f(distance),
        world: pack(Vec3::splat(id)),
        outpost_radius_m: f(radius),
    };
    let choose = |plates: Vec<PlateCandidate>| {
        let agree = agreement(&plates);
        select_plate_reference_with_support(PlateReference::CenterNodeOrPlateRoot, &plates, &agree)
            .map(|(at, support)| (f32::from_bits(at[0].bits), support))
    };
    assert_eq!(f32::from_bits(OUTPOST_RADIUS_MODEL_MIN_RADIUS_M), 0.05);
    assert_eq!(choose(vec![]), None);
    assert_eq!(choose(vec![plate(1.0, 0.3, 1.0)]), None, "one plate is no ring");
    assert_eq!(choose(vec![plate(2.0, 0.3, 1.0), plate(1.0, 0.3, 2.0)]), Some((2.0, 2)));
    assert_eq!(choose(vec![plate(1.0, 0.04, 1.0), plate(2.0, 0.04, 2.0)]), None, "too small");
    assert_eq!(choose(vec![plate(1.0, f32::NAN, 1.0), plate(2.0, f32::NAN, 2.0)]), None);
    // Two against two: the smaller radius counts.
    assert_eq!(
        choose(vec![
            plate(1.0, 0.9, 1.0),
            plate(2.0, 0.9, 2.0),
            plate(4.0, 0.3, 3.0),
            plate(3.0, 0.3, 4.0),
        ]),
        Some((4.0, 2))
    );
    // Three against two: more plates count.
    assert_eq!(
        choose(vec![
            plate(1.0, 0.3, 1.0),
            plate(2.0, 0.3, 2.0),
            plate(9.0, 0.9, 3.0),
            plate(8.0, 0.9, 4.0),
            plate(7.0, 0.9, 5.0),
        ]),
        Some((5.0, 3))
    );
    // Of equally near plates the first counts.
    assert_eq!(choose(vec![plate(1.0, 0.3, 1.0), plate(1.0, 0.3, 2.0)]), Some((1.0, 2)));
}

#[test]
fn the_order_of_plates_does_not_count() {
    let plate = |distance: f32, radius: f32, id: f32| PlateCandidate {
        distance_squared: f(distance),
        world: pack(Vec3::splat(id)),
        outpost_radius_m: f(radius),
    };
    let plates = [
        plate(4.0, 0.275, 1.0),
        plate(3.0, 0.2753, 2.0),
        plate(2.0, 0.275, 3.0),
        plate(1.0, 1.8, 4.0),
    ];
    let mut seen = 0;
    for a in 0..4 {
        for b in 0..4 {
            for c in 0..4 {
                for d in 0..4 {
                    let order = [a, b, c, d];
                    if (0..4).any(|k| !order.contains(&k)) {
                        continue;
                    }
                    let listed: Vec<PlateCandidate> = order.iter().map(|k| plates[*k]).collect();
                    let agree = agreement(&listed);
                    let choice = select_plate_reference_with_support(
                        PlateReference::CenterNodeOrPlateRoot,
                        &listed,
                        &agree,
                    );
                    assert_eq!(choice, Some((pack(Vec3::splat(3.0)), 3)));
                    seen += 1;
                }
            }
        }
    }
    assert_eq!(seen, 24);
}

#[test]
fn centres_are_known_by_the_end_of_their_names() {
    for name in ["CENTER", "1_ARMOR_CENTER", "中CENTER"] {
        assert!(names_a_center(name), "{name}");
    }
    for name in ["", "ENTER", "CENTER_", "CENTER1", "Center", "CENTERCENTE"] {
        assert!(!names_a_center(name), "{name}");
    }
}
