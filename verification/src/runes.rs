//! The power runes as the ground truth sees them.
use crate::float::F32;
use crate::layout::GroundTruthRune;
use crate::names::{chars_of, next_underscore, number, read_number, reads};
use vstd::prelude::*;

verus! {

/// The pattern of `1e-4`: a blade is not closer than this to the centre, in metres.
pub const MIN_BLADE_RADIUS: u32 = 0x38d1_b717;

/// The pattern of `1e-6`: a slower rune counts as standing.
pub const MIN_RUNE_SPEED: u32 = 0x3586_37bd;

/// The blades of a rune.
pub const RUNE_BLADES: usize = 5;

/// The two sides.
#[derive(Debug, Clone, Copy, PartialEq, Eq, Hash, Structural)]
pub enum Team {
    Red,
    Blue,
}

/// How far a blade is.
#[derive(Debug, Clone, Copy, PartialEq, Eq, Structural)]
pub enum Activation {
    Deactivated,
    Activating,
    Activated,
    Completed,
}

/// How far a rune is.
#[derive(Debug, Clone, Copy, PartialEq, Eq, Structural)]
pub enum MechanismState {
    Inactive,
    Activating,
    Activated,
    Failed,
}

/// The kinds of rune.
#[derive(Debug, Clone, Copy, PartialEq, Eq, Structural)]
pub enum RuneMode {
    Small,
    Large,
}

/// The number that stands for a side.
pub open spec fn team_code(team: Team) -> u8 {
    match team {
        Team::Red => 0,
        Team::Blue => 1,
    }
}

/// The number that stands for a side.
pub fn team_to_u8(team: &Team) -> (r: u8)
    ensures
        r == team_code(*team),
{
    match team {
        Team::Red => 0,
        Team::Blue => 1,
    }
}

/// The number that stands for a blade's activation.
pub open spec fn activation_code(activation: Activation) -> u8 {
    match activation {
        Activation::Deactivated => 0,
        Activation::Activating => 1,
        Activation::Activated => 2,
        Activation::Completed => 3,
    }
}

/// The number that stands for a blade's activation.
pub fn activation_to_u8(activation: &Activation) -> (r: u8)
    ensures
        r == activation_code(*activation),
{
    match activation {
        Activation::Deactivated => 0,
        Activation::Activating => 1,
        Activation::Activated => 2,
        Activation::Completed => 3,
    }
}

/// The number that stands for a rune's state.
pub open spec fn mechanism_code(state: MechanismState) -> u8 {
    match state {
        MechanismState::Inactive => 0,
        MechanismState::Activating => 1,
        MechanismState::Activated => 2,
        MechanismState::Failed => 3,
    }
}

/// The number that stands for a rune's state.
pub fn mechanism_state_to_u8(state: &MechanismState) -> (r: u8)
    ensures
        r == mechanism_code(*state),
{
    match state {
        MechanismState::Inactive => 0,
        MechanismState::Activating => 1,
        MechanismState::Activated => 2,
        MechanismState::Failed => 3,
    }
}

/// The number that stands for a kind of rune.
pub open spec fn rune_mode_code(mode: RuneMode) -> u8 {
    match mode {
        RuneMode::Small => 0,
        RuneMode::Large => 1,
    }
}

/// The number that stands for a kind of rune.
pub fn rune_mode_to_u8(mode: &RuneMode) -> (r: u8)
    ensures
        r == rune_mode_code(*mode),
{
    match mode {
        RuneMode::Small => 0,
        RuneMode::Large => 1,
    }
}

/// The states of a node that is the bullseye of a blade.
pub open spec fn is_bullseye_status(status: Seq<char>) -> bool {
    status == "ACTIVATED"@ || status == "ACTIVE"@ || status == "COMPLETED"@ || status
        == "DISABLED"@
}

/// The blade of which a node is the bullseye, counted from zero: behind the prefix stand a number
/// from one to five, an underscore, and a bullseye's state.
pub open spec fn bullseye(prefix: Seq<char>, name: Seq<char>) -> Option<int> {
    match crate::names::after_prefix(name, prefix) {
        Some(rest) => match rest.index_of_first('_') {
            Some(i) => {
                let id = number(rest.subrange(0, i));
                if is_bullseye_status(rest.subrange(i + 1, rest.len() as int)) && id is Some && 1
                    <= id->0 <= 5 {
                    Some(id->0 - 1)
                } else {
                    None
                }
            },
            None => None,
        },
        None => None,
    }
}

/// The blade of which a node is the bullseye. Other nodes share the prefix but lie elsewhere.
pub fn parse_rune_bullseye_node(face_prefix: &str, node_name: &str) -> (r: Option<usize>)
    ensures
        r matches Some(blade) ==> blade < RUNE_BLADES && bullseye(face_prefix@, node_name@)
            == Some(blade as int),
        r is None ==> bullseye(face_prefix@, node_name@) is None,
{
    let prefix = chars_of(face_prefix);
    let name = chars_of(node_name);
    bullseye_in(&prefix, &name)
}

fn bullseye_in(prefix: &Vec<char>, name: &Vec<char>) -> (r: Option<usize>)
    ensures
        r matches Some(blade) ==> blade < RUNE_BLADES && bullseye(prefix@, name@) == Some(
            blade as int,
        ),
        r is None ==> bullseye(prefix@, name@) is None,
{
    if name.len() < prefix.len() || !reads(name, 0, prefix.len(), prefix) {
        return None;
    }
    let from: usize = prefix.len();
    let ghost rest = name@.subrange(from as int, name@.len() as int);
    let at: usize = next_underscore(name, from);
    proof {
        rest.index_of_first_ensures('_');
        assert forall|j: int| 0 <= j < at - from implies #[trigger] rest[j] != '_' by {
            assert(rest[j] == name@[from + j]);
        }
        if at < name@.len() {
            assert(rest[at - from] == '_');
        } else {
            assert(!rest.contains('_'));
        }
    }
    if at == name.len() {
        return None;
    }
    proof {
        let i = rest.index_of_first('_')->0;
        assert(rest.contains('_'));
        assert(rest[i] == '_');
        assert(i == at - from) by {
            if i < at - from {
                assert(rest[i] != '_');
            } else if i > at - from {
                assert(rest[at - from] != '_');
            }
        }
        assert(rest.subrange(0, i) =~= name@.subrange(from as int, at as int));
        assert(rest.subrange(i + 1, rest.len() as int) =~= name@.subrange(
            at + 1,
            name@.len() as int,
        ));
    }
    let known = reads(name, at + 1, name.len(), &chars_of("ACTIVATED")) || reads(
        name,
        at + 1,
        name.len(),
        &chars_of("ACTIVE"),
    ) || reads(name, at + 1, name.len(), &chars_of("COMPLETED")) || reads(
        name,
        at + 1,
        name.len(),
        &chars_of("DISABLED"),
    );
    if !known {
        return None;
    }
    match read_number(name, from, at) {
        Some(id) => {
            if 1 <= id && id <= 5 {
                Some(id - 1)
            } else {
                None
            }
        },
        None => None,
    }
}

/// The number of a face, from a name that is nothing but that.
pub open spec fn face_index(name: Seq<char>) -> Option<int> {
    match crate::names::after_prefix(name, "FACE_"@) {
        Some(rest) => if rest.contains('_') {
            None
        } else {
            number(rest)
        },
        None => None,
    }
}

/// The number of a face, from a name that is nothing but that.
pub fn rune_face_index(name: &str) -> (r: Option<usize>)
    ensures
        r matches Some(face) ==> face_index(name@) == Some(face as int),
        r is None ==> face_index(name@) is None,
{
    let prefix = chars_of("FACE_");
    let name = chars_of(name);
    if name.len() < prefix.len() || !reads(&name, 0, prefix.len(), &prefix) {
        return None;
    }
    let from: usize = prefix.len();
    let ghost rest = name@.subrange(from as int, name@.len() as int);
    let at: usize = next_underscore(&name, from);
    if at < name.len() {
        assert(rest[at - from] == '_');
        return None;
    }
    proof {
        assert forall|j: int| 0 <= j < rest.len() implies #[trigger] rest[j] != '_' by {
            assert(rest[j] == name@[from + j]);
        }
    }
    read_number(&name, from, name.len())
}

/// The number of a face, or zero where its name says none.
pub open spec fn face_or_zero(name: Option<Seq<char>>) -> int {
    match name {
        Some(n) => match face_index(n) {
            Some(face) => face,
            None => 0,
        },
        None => 0,
    }
}

/// What identifies a blade: the face in the high byte, the blade in the low byte.
pub open spec fn blade_identity(face: int, blade: int) -> u16 {
    ((face % 0x100) * 0x100 + blade) as u16
}

/// What identifies a blade: the lowest eight bits of the face in front of the blade.
pub fn rune_blade_identity(face_index: usize, blade_id: usize) -> (r: u16)
    ensures
        r == (((face_index as u16) << 8) | (blade_id as u16)),
        blade_id < 0x100 ==> r == blade_identity(face_index as int, blade_id as int),
{
    proof {
        assert(blade_id < 0x100 ==> (((face_index as u16) << 8) | (blade_id as u16)) == (face_index
            % 0x100) * 0x100 + blade_id) by (bit_vector);
    }
    ((face_index as u16) << 8) | (blade_id as u16)
}

/// A named node of the scene and where it is.
#[derive(Debug)]
pub struct NamedNode {
    pub name: String,
    pub place: [F32; 3],
}

/// Some node is a bullseye.
pub open spec fn any_bullseye(nodes: Seq<NamedNode>, prefix: Seq<char>) -> bool {
    exists|blade: int| 0 <= blade < RUNE_BLADES && has_bullseye(nodes, prefix, blade)
}

/// The node at `k` is the first one that is the bullseye of the blade.
pub open spec fn is_first_node(
    nodes: Seq<NamedNode>,
    prefix: Seq<char>,
    blade: int,
    k: int,
) -> bool {
    &&& 0 <= k < nodes.len()
    &&& bullseye(prefix, nodes[k].name@) == Some(blade)
    &&& forall|j: int| 0 <= j < k ==> bullseye(prefix, (#[trigger] nodes[j]).name@) != Some(blade)
}

/// The blade has a bullseye among the nodes.
pub open spec fn has_bullseye(nodes: Seq<NamedNode>, prefix: Seq<char>, blade: int) -> bool {
    exists|j: int|
        0 <= j < nodes.len() && bullseye(prefix, (#[trigger] nodes[j]).name@) == Some(blade)
}

/// The blade that counts: the preferred one where it has a bullseye, else the lowest that has one.
pub open spec fn is_current_blade(
    nodes: Seq<NamedNode>,
    prefix: Seq<char>,
    preferred: Option<usize>,
    blade: int,
) -> bool {
    &&& 0 <= blade < RUNE_BLADES
    &&& has_bullseye(nodes, prefix, blade)
    &&& if preferred is Some && has_bullseye(nodes, prefix, preferred->0 as int) {
        blade == preferred->0
    } else {
        forall|lower: int| 0 <= lower < blade ==> !#[trigger] has_bullseye(nodes, prefix, lower)
    }
}

/// A blade that was found.
#[derive(Debug, Clone, Copy, PartialEq, Eq, Structural)]
pub struct BladeChoice {
    pub blade_id: usize,
    /// Which of the nodes is its bullseye.
    pub node: usize,
    pub identity: u16,
}

/// What stands before the number of a blade in the names of a face's nodes.
pub open spec fn target_prefix(face_name: Seq<char>) -> Seq<char> {
    face_name + "_TARGET_"@
}

/// The current blade of a face, of which the name may be missing.
pub fn rune_blade_choice(
    face_name: Option<&str>,
    preferred_blade: Option<usize>,
    nodes: &Vec<NamedNode>,
) -> (r: Option<BladeChoice>)
    ensures
        r is Some <==> face_name is Some && exists|blade: int|
            0 <= blade < RUNE_BLADES && has_bullseye(
                nodes@,
                target_prefix(face_name->0@),
                blade,
            ),
        r is Some <==> face_name is Some && any_bullseye(nodes@, target_prefix(face_name->0@)),
        r matches Some(choice) ==> {
            let prefix = target_prefix(face_name->0@);
            &&& is_current_blade(nodes@, prefix, preferred_blade, choice.blade_id as int)
            &&& is_first_node(nodes@, prefix, choice.blade_id as int, choice.node as int)
            &&& choice.identity == blade_identity(
                face_or_zero(Some(face_name->0@)),
                choice.blade_id as int,
            )
        },
{
    let given = match face_name {
        Some(name) => name,
        None => return None,
    };
    let face: usize = match rune_face_index(given) {
        Some(face) => face,
        None => 0,
    };
    let mut prefix = chars_of(given);
    let mut suffix = chars_of("_TARGET_");
    prefix.append(&mut suffix);
    let ghost p = target_prefix(given@);
    assert(prefix@ =~= p);
    let mut first: Vec<Option<usize>> = Vec::new();
    while first.len() < RUNE_BLADES
        invariant
            first@.len() <= RUNE_BLADES,
            forall|b: int| 0 <= b < first@.len() ==> #[trigger] first@[b] is None,
        decreases RUNE_BLADES - first@.len(),
    {
        first.push(None);
    }
    let mut i: usize = 0;
    while i < nodes.len()
        invariant
            i <= nodes@.len(),
            prefix@ == p,
            first@.len() == RUNE_BLADES,
            forall|b: int|
                0 <= b < RUNE_BLADES && (#[trigger] first@[b]) is None ==> forall|j: int|
                    0 <= j < i ==> bullseye(p, (#[trigger] nodes@[j]).name@) != Some(b),
            forall|b: int|
                0 <= b < RUNE_BLADES && (#[trigger] first@[b]) is Some ==> first@[b]->0 < i
                    && is_first_node(nodes@, p, b, first@[b]->0 as int),
        decreases nodes@.len() - i,
    {
        let name = chars_of(nodes[i].name.as_str());
        if let Some(blade) = bullseye_in(&prefix, &name) {
            if first[blade].is_none() {
                first.set(blade, Some(i));
            }
        }
        i += 1;
    }
    proof {
        assert forall|b: int| 0 <= b < RUNE_BLADES implies has_bullseye(nodes@, p, b)
            == #[trigger] first@[b] is Some by {
            if first@[b] is Some {
                assert(bullseye(p, nodes@[first@[b]->0 as int].name@) == Some(b));
            }
        }
    }
    if let Some(blade) = preferred_blade {
        if blade < RUNE_BLADES {
            if let Some(node) = first[blade] {
                assert(has_bullseye(nodes@, p, blade as int));
                return Some(
                    BladeChoice { blade_id: blade, node, identity: rune_blade_identity(face, blade) },
                );
            }
        }
    }
    let mut blade: usize = 0;
    while blade < RUNE_BLADES
        invariant
            blade <= RUNE_BLADES,
            first@.len() == RUNE_BLADES,
            face_name == Some(given),
            p == target_prefix(given@),
            face == face_or_zero(Some(given@)),
            preferred_blade is Some ==> !has_bullseye(nodes@, p, preferred_blade->0 as int),
            forall|b: int|
                0 <= b < RUNE_BLADES ==> has_bullseye(nodes@, p, b) == #[trigger] first@[b] is Some,
            forall|b: int|
                0 <= b < RUNE_BLADES && (#[trigger] first@[b]) is Some ==> is_first_node(
                    nodes@,
                    p,
                    b,
                    first@[b]->0 as int,
                ),
            forall|b: int| 0 <= b < blade ==> !#[trigger] has_bullseye(nodes@, p, b),
        decreases RUNE_BLADES - blade,
    {
        if let Some(node) = first[blade] {
            assert(has_bullseye(nodes@, target_prefix(face_name->0@), blade as int));
            return Some(
                BladeChoice { blade_id: blade, node, identity: rune_blade_identity(face, blade) },
            );
        }
        assert(first@[blade as int] is None);
        blade += 1;
    }
    None
}

/// A blade with what was measured of it.
#[derive(Debug, Clone, Copy)]
pub struct BladeGeometry {
    /// Its distance from the centre.
    pub radius: F32,
    pub angle: F32,
    pub blade_id: usize,
    pub point: [F32; 3],
    pub identity: u16,
}

/// A distance that a blade can have from the centre.
pub open spec fn usable_radius(radius: F32) -> bool {
    radius.finite() && radius.rank() > (F32 { bits: MIN_BLADE_RADIUS }).rank()
}

/// The blade with what was measured of it, unless it lies in the centre or its distance is no
/// number.
pub fn rune_blade_geometry(choice: BladeChoice, point: [F32; 3], radius: F32, angle: F32) -> (r:
    Option<BladeGeometry>)
    ensures
        r == if usable_radius(radius) {
            Some(
                BladeGeometry {
                    radius,
                    angle,
                    blade_id: choice.blade_id,
                    point,
                    identity: choice.identity,
                },
            )
        } else {
            None
        },
{
    if !radius.is_finite() || radius.le(F32 { bits: MIN_BLADE_RADIUS }) {
        return None;
    }
    Some(
        BladeGeometry {
            radius,
            angle,
            blade_id: choice.blade_id,
            point,
            identity: choice.identity,
        },
    )
}

/// How the speed of a large rune swings.
#[derive(Debug, Clone, Copy)]
pub struct RuneSwing {
    pub amplitude: F32,
    pub omega: F32,
    pub time: F32,
    pub offset: F32,
}

/// A rune as the scene shows it.
#[derive(Debug)]
pub struct RuneSighting {
    pub team: Team,
    pub mode: RuneMode,
    pub state: MechanismState,
    /// How far each blade is.
    pub activations: Vec<Activation>,
    pub clockwise: bool,
    pub center: [F32; 3],
    /// The angle about the rune's axis.
    pub angle: F32,
    pub swing: Option<RuneSwing>,
    pub face_name: Option<String>,
    pub blade: Option<BladeGeometry>,
    /// The speed of the last step.
    pub last_speed: F32,
    /// The speed that the rune's law of motion gives now.
    pub instantaneous_speed: F32,
}

/// The activation at `i`, of a list that may be shorter.
pub open spec fn activation_at(activations: Seq<Activation>, i: int) -> u8 {
    if i < activations.len() {
        activation_code(activations[i])
    } else {
        0
    }
}

/// The activations of the five blades.
pub open spec fn activation_codes(activations: Seq<Activation>) -> [u8; 5] {
    [
        activation_at(activations, 0),
        activation_at(activations, 1),
        activation_at(activations, 2),
        activation_at(activations, 3),
        activation_at(activations, 4),
    ]
}

/// A rune that moved in the last step.
pub open spec fn moved(speed: F32) -> bool {
    !speed.nan() && speed.magnitude() > MIN_RUNE_SPEED
}

/// The blade that a rune shows: what was measured or, where nothing was, the centre as blade zero.
pub open spec fn shown_blade(rune: RuneSighting) -> BladeGeometry {
    match rune.blade {
        Some(blade) => blade,
        None => BladeGeometry {
            radius: F32 { bits: 0 },
            angle: rune.angle,
            blade_id: 0,
            point: rune.center,
            identity: blade_identity(
                face_or_zero(
                    match rune.face_name {
                        Some(name) => Some(name@),
                        None => None,
                    },
                ),
                0,
            ),
        },
    }
}

/// The ground truth of a rune.
pub open spec fn rune_truth(frame_seq: u64, timestamp_ns: u64, rune: RuneSighting) -> GroundTruthRune {
    let blade = shown_blade(rune);
    let zero = F32 { bits: 0 };
    GroundTruthRune {
        frame_seq,
        timestamp_ns,
        team: team_code(rune.team),
        rune_mode: rune_mode_code(rune.mode),
        mechanism_state: mechanism_code(rune.state),
        r_center_odom: rune.center,
        radius: blade.radius,
        current_angle: blade.angle,
        v_roll: if moved(rune.last_speed) {
            rune.last_speed
        } else {
            rune.instantaneous_speed
        },
        direction: if rune.clockwise {
            1
        } else {
            (-1) as i32
        },
        sin_amplitude: match rune.swing {
            Some(swing) => swing.amplitude,
            None => zero,
        },
        sin_omega: match rune.swing {
            Some(swing) => swing.omega,
            None => zero,
        },
        sin_phase: zero,
        sin_offset: match rune.swing {
            Some(swing) => swing.offset,
            None => zero,
        },
        relative_time: match rune.swing {
            Some(swing) => swing.time,
            None => zero,
        },
        blade_id: blade.blade_id as i32,
        target_activations: activation_codes(rune.activations@),
        target_point_odom: blade.point,
        identity: blade.identity,
    }
}

fn activation_code_at(activations: &Vec<Activation>, i: usize) -> (r: u8)
    ensures
        r == activation_at(activations@, i as int),
{
    if i < activations.len() {
        activation_to_u8(&activations[i])
    } else {
        0
    }
}

/// The ground truth of a rune.
pub fn rune_ground_truth(frame_seq: u64, timestamp_ns: u64, rune: &RuneSighting) -> (r:
    GroundTruthRune)
    requires
        rune.blade matches Some(blade) ==> blade.blade_id < RUNE_BLADES,
    ensures
        r == rune_truth(frame_seq, timestamp_ns, *rune),
{
    let blade = match rune.blade {
        Some(blade) => blade,
        None => {
            let face: usize = match &rune.face_name {
                Some(name) => match rune_face_index(name.as_str()) {
                    Some(face) => face,
                    None => 0,
                },
                None => 0,
            };
            BladeGeometry {
                radius: F32::zero(),
                angle: rune.angle,
                blade_id: 0,
                point: rune.center,
                identity: rune_blade_identity(face, 0),
            }
        },
    };
    let (amplitude, omega, time, offset) = match rune.swing {
        Some(swing) => (swing.amplitude, swing.omega, swing.time, swing.offset),
        None => (F32::zero(), F32::zero(), F32::zero(), F32::zero()),
    };
    let threshold = F32 { bits: MIN_RUNE_SPEED };
    let v_roll = if threshold.lt(rune.last_speed.abs()) {
        rune.last_speed
    } else {
        rune.instantaneous_speed
    };
    GroundTruthRune {
        frame_seq,
        timestamp_ns,
        team: team_to_u8(&rune.team),
        rune_mode: rune_mode_to_u8(&rune.mode),
        mechanism_state: mechanism_state_to_u8(&rune.state),
        r_center_odom: rune.center,
        radius: blade.radius,
        current_angle: blade.angle,
        v_roll,
        direction: if rune.clockwise {
            1
        } else {
            -1
        },
        sin_amplitude: amplitude,
        sin_omega: omega,
        sin_phase: F32::zero(),
        sin_offset: offset,
        relative_time: time,
        blade_id: blade.blade_id as i32,
        target_activations: [
            activation_code_at(&rune.activations, 0),
            activation_code_at(&rune.activations, 1),
            activation_code_at(&rune.activations, 2),
            activation_code_at(&rune.activations, 3),
            activation_code_at(&rune.activations, 4),
        ],
        target_point_odom: blade.point,
        identity: blade.identity,
    }
}

/// Different things have different numbers, so that a reader can tell them apart: above all the two
/// sides, which may field robots with the same label.
pub proof fn law_codes_tell_apart(
    teams: (Team, Team),
    activations: (Activation, Activation),
    states: (MechanismState, MechanismState),
    modes: (RuneMode, RuneMode),
)
    ensures
        team_code(teams.0) == team_code(teams.1) ==> teams.0 == teams.1,
        activation_code(activations.0) == activation_code(activations.1) ==> activations.0
            == activations.1,
        mechanism_code(states.0) == mechanism_code(states.1) ==> states.0 == states.1,
        rune_mode_code(modes.0) == rune_mode_code(modes.1) ==> modes.0 == modes.1,
{
}

/// Of the nodes that follow a prefix with the number of a blade and a state, exactly those with a
/// bullseye's state are read, and as the blade they name; all others are left out, however much their
/// names look alike.
pub proof fn law_exactly_bullseyes_are_read(prefix: Seq<char>, digit: char, status: Seq<char>)
    requires
        '1' <= digit <= '5',
    ensures
        bullseye(prefix, prefix + seq![digit, '_'] + status) == (if is_bullseye_status(status) {
            Some(digit as int - '1' as int)
        } else {
            None
        }),
{
    let name = prefix + seq![digit, '_'] + status;
    assert(prefix =~= name.subrange(0, prefix.len() as int));
    let rest = name.subrange(prefix.len() as int, name.len() as int);
    assert(rest =~= seq![digit, '_'] + status);
    assert(rest[0] == digit && rest[1] == '_');
    rest.index_of_first_ensures('_');
    assert(rest.contains('_'));
    let at = rest.index_of_first('_')->0;
    assert(at == 1) by {
        if at > 1 {
            assert(rest[1] != '_');
        }
    }
    let id = rest.subrange(0, 1);
    assert(id =~= seq![digit]);
    assert(rest.subrange(2, rest.len() as int) =~= status);
    assert(crate::names::digits_of(id) == id);
    assert(crate::names::all_digits(id));
    assert(id.drop_last() =~= Seq::<char>::empty());
    reveal_with_fuel(crate::names::decimal, 2);
    assert(crate::names::decimal(id) == digit as int - '0' as int);
}

/// Two blades with the same identity are the same blade of faces that agree in their low byte.
pub proof fn law_identity_tells_blades_apart(face: int, blade: int, other_face: int, other: int)
    requires
        0 <= blade < RUNE_BLADES,
        0 <= other < RUNE_BLADES,
        blade_identity(face, blade) == blade_identity(other_face, other),
    ensures
        blade == other,
        face % 0x100 == other_face % 0x100,
{
}

/// What a rune's record says of its blade. Where a blade was measured, the point to aim at, the
/// radius, the angle, the number and the identity are all of that blade. Where none was, the point
/// is the centre, at no radius and at the rune's own angle, as blade zero of the rune's face.
pub proof fn law_a_rune_shows_its_blade(frame_seq: u64, timestamp_ns: u64, rune: RuneSighting)
    requires
        rune.blade matches Some(blade) ==> blade.blade_id < RUNE_BLADES,
    ensures
        ({
            let record = rune_truth(frame_seq, timestamp_ns, rune);
            &&& rune.blade matches Some(blade) ==> {
                &&& forall|i: int|
                    0 <= i < 3 ==> #[trigger] record.target_point_odom[i] == blade.point[i]
                &&& record.radius.bits == blade.radius.bits
                &&& record.current_angle.bits == blade.angle.bits
                &&& record.blade_id == blade.blade_id
                &&& record.identity == blade.identity
            }
            &&& rune.blade is None ==> {
                &&& forall|i: int|
                    0 <= i < 3 ==> #[trigger] record.target_point_odom[i] == rune.center[i]
                &&& record.radius.bits == 0
                &&& record.current_angle.bits == rune.angle.bits
                &&& record.blade_id == 0
                &&& record.identity % 0x100 == 0
                &&& rune.face_name is None ==> record.identity == 0
                &&& rune.face_name matches Some(name) ==> record.identity / 0x100 == (
                match face_index(name@) {
                    Some(face) => face % 0x100,
                    None => 0,
                })
            }
        }),
{
}

/// What a rune's record says of the rune itself: whose it is, of which kind and how far, where its
/// centre is, which way it turns, how it swings, and when all that was seen.
pub proof fn law_a_rune_is_reported_as_seen(frame_seq: u64, timestamp_ns: u64, rune: RuneSighting)
    ensures
        ({
            let record = rune_truth(frame_seq, timestamp_ns, rune);
            &&& record.frame_seq == frame_seq
            &&& record.timestamp_ns == timestamp_ns
            &&& record.team == (if rune.team is Blue {
                1int
            } else {
                0int
            })
            &&& record.rune_mode == (if rune.mode is Large {
                1int
            } else {
                0int
            })
            &&& record.mechanism_state <= 3
            &&& record.mechanism_state == 0 <==> rune.state is Inactive
            &&& record.mechanism_state == 1 <==> rune.state is Activating
            &&& record.mechanism_state == 2 <==> rune.state is Activated
            &&& record.mechanism_state == 3 <==> rune.state is Failed
            &&& forall|i: int| 0 <= i < 3 ==> #[trigger] record.r_center_odom[i] == rune.center[i]
            &&& record.direction == (if rune.clockwise {
                1int
            } else {
                -1int
            })
            &&& rune.swing matches Some(swing) ==> {
                &&& record.sin_amplitude.bits == swing.amplitude.bits
                &&& record.sin_omega.bits == swing.omega.bits
                &&& record.sin_offset.bits == swing.offset.bits
                &&& record.relative_time.bits == swing.time.bits
            }
            &&& rune.swing is None ==> {
                &&& record.sin_amplitude.bits == 0
                &&& record.sin_omega.bits == 0
                &&& record.sin_offset.bits == 0
                &&& record.relative_time.bits == 0
            }
            &&& record.sin_phase.bits == 0
        }),
{
}

/// The speed in a rune's record is that of the last step where it was above a millionth, either
/// way, and else the one that the rune's law of motion gives.
pub proof fn law_a_rune_reports_its_speed(frame_seq: u64, timestamp_ns: u64, rune: RuneSighting)
    ensures
        ({
            let record = rune_truth(frame_seq, timestamp_ns, rune);
            let size = rune.last_speed.bits % 0x8000_0000;
            &&& 0x3586_37bd < size <= 0x7f80_0000 ==> record.v_roll.bits == rune.last_speed.bits
            &&& !(0x3586_37bd < size <= 0x7f80_0000) ==> record.v_roll.bits
                == rune.instantaneous_speed.bits
        }),
{
}

/// The states of the blades are reported one by one; blades of which nothing is known count as not
/// activated.
pub proof fn law_a_rune_reports_each_blade(
    frame_seq: u64,
    timestamp_ns: u64,
    rune: RuneSighting,
    i: int,
)
    requires
        0 <= i < 5,
    ensures
        ({
            let code = rune_truth(frame_seq, timestamp_ns, rune).target_activations[i];
            &&& i >= rune.activations@.len() ==> code == 0
            &&& i < rune.activations@.len() ==> {
                &&& code <= 3
                &&& code == 0 <==> rune.activations@[i] is Deactivated
                &&& code == 1 <==> rune.activations@[i] is Activating
                &&& code == 2 <==> rune.activations@[i] is Activated
                &&& code == 3 <==> rune.activations@[i] is Completed
            }
        }),
{
}

/// A bullseye's name is put together from the prefix, a number from one to five, an underscore and
/// one of four states; every name put together so is a bullseye's, of the blade that its number
/// counts from one, and no other is. The number may be written in any way that numbers are.
pub proof fn law_bullseyes_are_put_together(
    prefix: Seq<char>,
    digits: Seq<char>,
    status: Seq<char>,
    name: Seq<char>,
)
    requires
        !digits.contains('_'),
    ensures
        ({
            let known = status == "ACTIVATED"@ || status == "ACTIVE"@ || status == "COMPLETED"@
                || status == "DISABLED"@;
            let read = bullseye(prefix, prefix + digits + seq!['_'] + status);
            &&& read is Some <==> known && number(digits) is Some && 1 <= number(digits)->0 <= 5
            &&& read is Some ==> read->0 + 1 == number(digits)->0
        }),
        bullseye(prefix, name) is Some ==> exists|d: Seq<char>, s: Seq<char>|
            #![trigger prefix + d + seq!['_'] + s]
            name == prefix + d + seq!['_'] + s && !d.contains('_'),
        prefix.len() > name.len() ==> bullseye(prefix, name) is None,
{
    let whole = prefix + digits + seq!['_'] + status;
    assert(prefix =~= whole.subrange(0, prefix.len() as int));
    let rest = whole.subrange(prefix.len() as int, whole.len() as int);
    assert(rest =~= digits + seq!['_'] + status);
    let n = digits.len() as int;
    assert(rest[n] == '_');
    rest.index_of_first_ensures('_');
    assert(rest.contains('_'));
    let at = rest.index_of_first('_')->0;
    assert(at == n) by {
        if at > n {
            assert(rest[n] != '_');
        } else if at < n {
            assert(digits[at] == rest[at]);
        }
    }
    assert(rest.subrange(0, n) =~= digits);
    assert(rest.subrange(n + 1, rest.len() as int) =~= status);
    if bullseye(prefix, name) is Some {
        let tail = name.subrange(prefix.len() as int, name.len() as int);
        tail.index_of_first_ensures('_');
        let i = tail.index_of_first('_')->0;
        let d = tail.subrange(0, i);
        let s = tail.subrange(i + 1, tail.len() as int);
        assert(tail.contains('_'));
        assert(tail[i] == '_');
        assert(name =~= prefix + d + seq!['_'] + s);
        assert(!d.contains('_')) by {
            if d.contains('_') {
                let k = choose|k: int| 0 <= k < d.len() && d[k] == '_';
                assert(tail[k] == '_');
            }
        }
    }
}

/// A face's name is put together from its fixed beginning and its number, and from nothing else.
pub proof fn law_faces_are_put_together(digits: Seq<char>, name: Seq<char>)
    ensures
        face_index("FACE_"@ + digits) == (if digits.contains('_') {
            None
        } else {
            number(digits)
        }),
        face_index(name) is Some ==> name == "FACE_"@ + name.subrange(5, name.len() as int),
{
    reveal_strlit("FACE_");
    let whole = "FACE_"@ + digits;
    assert("FACE_"@ =~= whole.subrange(0, 5));
    assert(whole.subrange(5, whole.len() as int) =~= digits);
    if face_index(name) is Some {
        assert(name =~= "FACE_"@ + name.subrange(5, name.len() as int));
    }
}

/// The blade that counts has a bullseye. It is the preferred one where some node is the bullseye of
/// that, and else no node is the bullseye of a lower one.
pub proof fn law_the_preferred_blade_counts(
    nodes: Seq<NamedNode>,
    prefix: Seq<char>,
    preferred: Option<usize>,
    blade: int,
    other: int,
)
    requires
        is_current_blade(nodes, prefix, preferred, blade),
        0 <= other < nodes.len(),
    ensures
        0 <= blade < 5,
        exists|k: int|
            0 <= k < nodes.len() && bullseye(prefix, (#[trigger] nodes[k]).name@) == Some(blade),
        preferred is Some && bullseye(prefix, nodes[other].name@) == Some(preferred->0 as int)
            ==> blade == preferred->0,
        bullseye(prefix, nodes[other].name@) matches Some(lower) ==> blade <= lower || (
        preferred is Some && blade == preferred->0),
{
    let read = bullseye(prefix, nodes[other].name@);
    if read is Some {
        assert(has_bullseye(nodes, prefix, read->0));
    }
}

/// The first node of a blade is a bullseye of that blade, and none before it is.
pub proof fn law_the_first_bullseye_is_taken(
    nodes: Seq<NamedNode>,
    prefix: Seq<char>,
    blade: int,
    k: int,
    j: int,
)
    requires
        is_first_node(nodes, prefix, blade, k),
        0 <= j < nodes.len(),
        bullseye(prefix, nodes[j].name@) == Some(blade),
    ensures
        0 <= k <= j,
        bullseye(prefix, nodes[k].name@) == Some(blade),
{
}

/// A radius is usable exactly where it is finite and above a tenth of a millimetre.
pub proof fn law_usable_radii(radius: F32)
    ensures
        usable_radius(radius) <==> 0x38d1_b717 < radius.bits < 0x7f80_0000,
{
}

/// The prefix of a face's nodes is its name and a fixed ending.
pub proof fn law_nodes_begin_with_the_face(face_name: Seq<char>)
    ensures
        target_prefix(face_name) == face_name + "_TARGET_"@,
        face_or_zero(None) == 0,
        face_or_zero(Some(face_name)) == (if face_index(face_name) is Some {
            face_index(face_name)->0
        } else {
            0
        }),
{
}

/// An identity is the face times two hundred and fifty-six, and the blade, as far as sixteen bits
/// go.
pub proof fn law_identities_hold_face_and_blade(face: int, blade: int)
    requires
        0 <= face,
        0 <= blade < 0x100,
    ensures
        blade_identity(face, blade) % 0x100 == blade,
        blade_identity(face, blade) / 0x100 == face % 0x100,
{
}

/// The numbers that stand for things.
pub proof fn law_codes_are_fixed(
    team: Team,
    activation: Activation,
    state: MechanismState,
    mode: RuneMode,
)
    ensures
        team_code(team) == 0 <==> team is Red,
        team_code(team) == 1 <==> team is Blue,
        rune_mode_code(mode) == 0 <==> mode is Small,
        rune_mode_code(mode) == 1 <==> mode is Large,
        activation_code(activation) == 0 <==> activation is Deactivated,
        activation_code(activation) == 1 <==> activation is Activating,
        activation_code(activation) == 2 <==> activation is Activated,
        activation_code(activation) == 3 <==> activation is Completed,
        mechanism_code(state) == 0 <==> state is Inactive,
        mechanism_code(state) == 1 <==> state is Activating,
        mechanism_code(state) == 2 <==> state is Activated,
        mechanism_code(state) == 3 <==> state is Failed,
{
}

/// The record of a rune: the point to aim at, the radius, the angle, the number and the identity
/// are those of the blade where one was measured, and the point is the centre where none was; whose
/// the rune is, of which kind and how far, where its centre is and which way it turns are as seen.
pub proof fn law_calls_of_rune_ground_truth(
    frame_seq: u64,
    timestamp_ns: u64,
    rune: RuneSighting,
    r: GroundTruthRune,
)
    requires
        call_ensures(rune_ground_truth, (frame_seq, timestamp_ns, &rune), r),
        rune.blade matches Some(blade) ==> blade.blade_id < RUNE_BLADES,
    ensures
        rune.blade matches Some(blade) ==> {
            &&& forall|i: int| 0 <= i < 3 ==> #[trigger] r.target_point_odom[i] == blade.point[i]
            &&& r.radius.bits == blade.radius.bits
            &&& r.current_angle.bits == blade.angle.bits
            &&& r.blade_id == blade.blade_id
            &&& r.identity == blade.identity
        },
        rune.blade is None ==> {
            &&& forall|i: int| 0 <= i < 3 ==> #[trigger] r.target_point_odom[i] == rune.center[i]
            &&& r.radius.bits == 0
            &&& r.current_angle.bits == rune.angle.bits
            &&& r.blade_id == 0
        },
        r.frame_seq == frame_seq,
        r.timestamp_ns == timestamp_ns,
        r.team == 1 <==> rune.team is Blue,
        r.team == 0 <==> rune.team is Red,
        r.rune_mode == 1 <==> rune.mode is Large,
        r.rune_mode == 0 <==> rune.mode is Small,
        r.mechanism_state == 0 <==> rune.state is Inactive,
        r.mechanism_state == 1 <==> rune.state is Activating,
        r.mechanism_state == 2 <==> rune.state is Activated,
        r.mechanism_state == 3 <==> rune.state is Failed,
        forall|i: int| 0 <= i < 3 ==> #[trigger] r.r_center_odom[i] == rune.center[i],
        r.direction == 1 <==> rune.clockwise,
        r.direction == -1 <==> !rune.clockwise,
        r == rune_truth(frame_seq, timestamp_ns, rune),
{
    law_a_rune_shows_its_blade(frame_seq, timestamp_ns, rune);
    law_a_rune_is_reported_as_seen(frame_seq, timestamp_ns, rune);
}

/// Of the blade that was chosen the measurement is taken as it is, exactly where the radius is
/// finite and above a tenth of a millimetre.
pub proof fn law_calls_of_rune_blade_geometry(
    choice: BladeChoice,
    point: [F32; 3],
    radius: F32,
    angle: F32,
    r: Option<BladeGeometry>,
)
    requires
        call_ensures(rune_blade_geometry, (choice, point, radius, angle), r),
    ensures
        r is Some <==> 0x38d1_b717 < radius.bits < 0x7f80_0000,
        r matches Some(blade) ==> {
            &&& blade.radius.bits == radius.bits
            &&& blade.angle.bits == angle.bits
            &&& blade.blade_id == choice.blade_id
            &&& blade.identity == choice.identity
            &&& forall|i: int| 0 <= i < 3 ==> #[trigger] blade.point[i] == point[i]
        },
{
}

/// The blade that is chosen has a bullseye under the face, at the node that is named; it is the
/// preferred one where that has a bullseye, and else no bullseye is of a lower one.
pub proof fn law_calls_of_rune_blade_choice(
    face_name: Option<&str>,
    preferred_blade: Option<usize>,
    nodes: Vec<NamedNode>,
    r: Option<BladeChoice>,
    other: int,
)
    requires
        call_ensures(rune_blade_choice, (face_name, preferred_blade, &nodes), r),
        0 <= other < nodes@.len(),
    ensures
        face_name is None ==> r is None,
        face_name is Some ==> {
            let read = bullseye(face_name->0@ + "_TARGET_"@, nodes@[other].name@);
            &&& read is Some && 0 <= read->0 < 5 ==> r is Some
            &&& r is Some ==> {
                &&& r->0.blade_id < 5
                &&& r->0.node < nodes@.len()
                &&& bullseye(face_name->0@ + "_TARGET_"@, nodes@[r->0.node as int].name@) == Some(
                    r->0.blade_id as int,
                )
                &&& read == Some(r->0.blade_id as int) ==> r->0.node <= other
                &&& preferred_blade is Some && read == Some(preferred_blade->0 as int)
                    ==> r->0.blade_id == preferred_blade->0
                &&& read matches Some(lower) ==> r->0.blade_id <= lower || (preferred_blade is Some
                    && r->0.blade_id == preferred_blade->0)
                &&& r->0.identity % 0x100 == r->0.blade_id
                &&& r->0.identity / 0x100 == (match face_index(face_name->0@) {
                    Some(face) => face % 0x100,
                    None => 0,
                })
            }
        },
{
    if face_name is Some {
        let prefix = target_prefix(face_name->0@);
        let read = bullseye(prefix, nodes@[other].name@);
        if read is Some && 0 <= read->0 < 5 {
            let blade = read->0;
            assert(bullseye(prefix, nodes@[other].name@) == Some(blade));
            assert(has_bullseye(nodes@, prefix, blade));
            assert(any_bullseye(nodes@, prefix));
        }
        if r is Some {
            law_the_preferred_blade_counts(
                nodes@,
                prefix,
                preferred_blade,
                r->0.blade_id as int,
                other,
            );
        }
    }
}

/// The numbers that stand for things, as they are given out.
pub proof fn law_calls_of_the_codes(
    team: Team,
    activation: Activation,
    state: MechanismState,
    mode: RuneMode,
    t: u8,
    a: u8,
    s: u8,
    m: u8,
)
    requires
        call_ensures(team_to_u8, (&team,), t),
        call_ensures(activation_to_u8, (&activation,), a),
        call_ensures(mechanism_state_to_u8, (&state,), s),
        call_ensures(rune_mode_to_u8, (&mode,), m),
    ensures
        t == 0 <==> team is Red,
        t == 1 <==> team is Blue,
        a == 0 <==> activation is Deactivated,
        a == 1 <==> activation is Activating,
        a == 2 <==> activation is Activated,
        a == 3 <==> activation is Completed,
        s == 0 <==> state is Inactive,
        s == 1 <==> state is Activating,
        s == 2 <==> state is Activated,
        s == 3 <==> state is Failed,
        m == 0 <==> mode is Small,
        m == 1 <==> mode is Large,
{
}

/// Names are read back as they are put together: a face's number, a bullseye's blade, and the
/// identity that holds both.
pub proof fn law_calls_of_the_readers(
    face: &str,
    digits: Seq<char>,
    index: Option<usize>,
    prefix: &str,
    node: &str,
    number_of: Seq<char>,
    status: Seq<char>,
    blade: Option<usize>,
    identity: u16,
)
    requires
        call_ensures(rune_face_index, (face,), index),
        call_ensures(parse_rune_bullseye_node, (prefix, node), blade),
        face@ == "FACE_"@ + digits,
        !digits.contains('_'),
        node@ == prefix@ + number_of + seq!['_'] + status,
        !number_of.contains('_'),
        index is Some,
        blade is Some,
        call_ensures(rune_blade_identity, (index->0, blade->0), identity),
    ensures
        number(digits) == Some(index->0 as int),
        number(number_of) == Some(blade->0 + 1),
        blade->0 < 5,
        status == "ACTIVATED"@ || status == "ACTIVE"@ || status == "COMPLETED"@ || status
            == "DISABLED"@,
        identity % 0x100 == blade->0,
        identity / 0x100 == index->0 % 0x100,
{
    law_faces_are_put_together(digits, face@);
    law_bullseyes_are_put_together(prefix@, number_of, status, node@);
}

} // verus!
