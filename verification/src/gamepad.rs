//! The gamepad, and what the operator's wishes lead to.
use crate::controller::{
    AnalogShare, ControllerHelp, ControllerInput, ControllerState, GAMEPAD_TRIGGER_THRESHOLD,
};
use crate::float::F32;
use crate::names::{chars_of, reads};
use vstd::prelude::*;

verus! {

/// The pattern of `0.25`.
pub const QUARTER: u32 = 0x3e80_0000;

/// The pattern of `0.12`.
pub const FAINT: u32 = 0x3df5_c28f;

/// The value of the environment variable that forces the subscription on.
pub const FORCED_ON: &'static str = "1";

/// What a gamepad says in one frame. The sticks have passed their dead zone.
#[derive(Debug, Clone, Copy)]
pub struct GamepadFrame {
    pub entity: u64,
    pub left_stick: [F32; 2],
    pub right_stick: [F32; 2],
    pub dpad: [F32; 2],
    /// How far the triggers are pulled, where the gamepad has them.
    pub left_trigger2: Option<F32>,
    pub right_trigger2: Option<F32>,
    pub left_trigger: bool,
    pub left_trigger_struck: bool,
    pub right_trigger: bool,
    pub right_trigger2_struck: bool,
    pub left_thumb: bool,
    pub right_thumb: bool,
    pub north_struck: bool,
    pub west_struck: bool,
    pub start_struck: bool,
    pub select_struck: bool,
}

/// A shake of a gamepad.
#[derive(Debug, Clone, Copy, PartialEq, Eq, Structural)]
pub struct RumbleRequest {
    pub gamepad: u64,
    pub strong_motor: F32,
    pub weak_motor: F32,
    pub duration_ms: u64,
}

/// A trigger is pulled far enough to count.
pub open spec fn pulled(trigger: Option<F32>) -> bool {
    trigger matches Some(t) && !t.nan() && t.rank() > (F32 {
        bits: GAMEPAD_TRIGGER_THRESHOLD,
    }).rank()
}

fn is_pulled(trigger: Option<F32>) -> (r: bool)
    ensures
        r == pulled(trigger),
{
    match trigger {
        Some(t) => F32 { bits: GAMEPAD_TRIGGER_THRESHOLD }.lt(t),
        None => false,
    }
}

fn deflected(stick: &[F32; 2]) -> (r: bool)
    ensures
        r == !crate::controller::is_zero(*stick),
{
    !(stick[0].same(F32 { bits: 0 }) && stick[1].same(F32 { bits: 0 }))
}

/// The gamepad is in use.
pub open spec fn gamepad_in_use(pad: GamepadFrame) -> bool {
    ||| !crate::controller::is_zero(pad.left_stick)
    ||| !crate::controller::is_zero(pad.right_stick)
    ||| !crate::controller::is_zero(pad.dpad)
    ||| pad.left_trigger || pad.left_thumb || pad.right_thumb
    ||| pulled(pad.left_trigger2) || pulled(pad.right_trigger2)
    ||| pad.right_trigger || pad.north_struck || pad.west_struck || pad.start_struck
    ||| pad.select_struck
}

/// Whether the gamepad is in use.
pub fn gamepad_controller_active(pad: &GamepadFrame) -> (r: bool)
    ensures
        r == gamepad_in_use(*pad),
{
    deflected(&pad.left_stick) || deflected(&pad.right_stick) || deflected(&pad.dpad)
        || pad.left_trigger || pad.left_thumb || pad.right_thumb || is_pulled(pad.left_trigger2)
        || is_pulled(pad.right_trigger2) || pad.right_trigger || pad.north_struck
        || pad.west_struck || pad.start_struck || pad.select_struck
}

/// The number with the other sign.
pub open spec fn negated(v: F32) -> F32 {
    if v.negative() {
        F32 { bits: (v.bits - crate::float::SIGN_BIT) as u32 }
    } else {
        F32 { bits: (v.bits + crate::float::SIGN_BIT) as u32 }
    }
}

fn negate(v: F32) -> (r: F32)
    ensures
        r == negated(v),
{
    v.neg()
}

/// What the gamepad asks of the controlled robot.
pub open spec fn padded_controlled(
    input: ControllerInput,
    spin: crate::controller::ChassisSpinMode,
    pad: GamepadFrame,
) -> ControllerInput {
    ControllerInput {
        precise_gimbal: input.precise_gimbal || pulled(pad.left_trigger2),
        boost: input.boost || pad.left_thumb,
        auto_aim: input.auto_aim || pulled(pad.right_trigger2),
        shoot: input.shoot || pad.right_trigger,
        dart_just_pressed: input.dart_just_pressed || pad.west_struck,
        switch_slapper_just_pressed: input.switch_slapper_just_pressed || pad.start_struck,
        switch_camera_just_pressed: input.switch_camera_just_pressed || pad.select_struck,
        ..input.turned(spin.step(), 0, 0)
    }
}

/// What the sticks add, in this order: the left one moves the controlled robot; the right one aims,
/// or tilts the remote robot while it is pressed; the cross moves the remote robot the other way.
pub open spec fn shares(pad: GamepadFrame) -> Seq<AnalogShare> {
    let movement = seq![AnalogShare::Movement(pad.left_stick)];
    let cross = AnalogShare::RemoteMovement([negated(pad.dpad[0]), negated(pad.dpad[1])]);
    if pad.right_thumb {
        movement.push(cross).push(AnalogShare::RemoteTilt(pad.right_stick))
    } else {
        movement.push(
            AnalogShare::Gimbal([negated(pad.right_stick[0]), pad.right_stick[1]]),
        ).push(cross)
    }
}

impl crate::controller::Asked {
    /// After a frame of the gamepad.
    pub open spec fn padded(self, pad: GamepadFrame) -> crate::controller::Asked {
        let spin = if pad.left_trigger_struck {
            self.controlled_chassis_spin.other()
        } else {
            self.controlled_chassis_spin
        };
        let remote_spin = if pad.north_struck {
            self.remote_chassis_spin.other()
        } else {
            self.remote_chassis_spin
        };
        crate::controller::Asked {
            controlled: padded_controlled(self.controlled, spin, pad),
            remote: self.remote.turned(remote_spin.step(), 0, 0),
            analog: self.analog + shares(pad),
            controlled_chassis_spin: spin,
            remote_chassis_spin: remote_spin,
            active_gamepad: if gamepad_in_use(pad) {
                Some(pad.entity)
            } else {
                self.active_gamepad
            },
            help: if gamepad_in_use(pad) {
                ControllerHelp::for_xbox()
            } else {
                self.help
            },
            ..self
        }
    }
}

/// A shake of the weak motor that says that a spin was switched.
pub open spec fn spin_shake(gamepad: u64) -> RumbleRequest {
    RumbleRequest {
        gamepad,
        strong_motor: F32 { bits: 0 },
        weak_motor: F32 { bits: QUARTER },
        duration_ms: 70,
    }
}

/// A shake of the strong motor that says that automatic aim begins.
pub open spec fn aim_shake(gamepad: u64) -> RumbleRequest {
    RumbleRequest {
        gamepad,
        strong_motor: F32 { bits: FAINT },
        weak_motor: F32 { bits: 0 },
        duration_ms: 60,
    }
}

/// The shakes that a frame of the gamepad asks for, in their order.
pub open spec fn shakes(pad: GamepadFrame) -> Seq<RumbleRequest> {
    let none = Seq::<RumbleRequest>::empty();
    let first = if pad.left_trigger_struck {
        none.push(spin_shake(pad.entity))
    } else {
        none
    };
    let second = if pad.north_struck {
        first.push(spin_shake(pad.entity))
    } else {
        first
    };
    if pad.right_trigger2_struck {
        second.push(aim_shake(pad.entity))
    } else {
        second
    }
}

/// One shake of a gamepad.
pub fn request_gamepad_rumble(
    gamepad: u64,
    strong_motor: F32,
    weak_motor: F32,
    duration_ms: u64,
) -> (r: RumbleRequest)
    ensures
        r == (RumbleRequest { gamepad, strong_motor, weak_motor, duration_ms }),
{
    RumbleRequest { gamepad, strong_motor, weak_motor, duration_ms }
}

/// A shake of the gamepad in use, where one is.
pub fn request_controller_rumble(
    controller: Option<&ControllerState>,
    strong_motor: F32,
    weak_motor: F32,
    duration_ms: u64,
) -> (r: Option<RumbleRequest>)
    ensures
        r == match controller {
            Some(c) => match c.active_gamepad {
                Some(gamepad) => Some(
                    RumbleRequest { gamepad, strong_motor, weak_motor, duration_ms },
                ),
                None => None,
            },
            None => None,
        },
{
    match controller {
        Some(c) => match c.active_gamepad() {
            Some(gamepad) => Some(
                request_gamepad_rumble(gamepad, strong_motor, weak_motor, duration_ms),
            ),
            None => None,
        },
        None => None,
    }
}

fn pad_controlled(
    input: ControllerInput,
    spin: crate::controller::ChassisSpinMode,
    pad: &GamepadFrame,
) -> (r: ControllerInput)
    requires
        input.wf(),
    ensures
        r.wf(),
        r == padded_controlled(input, spin, *pad),
{
    let mut controlled = input;
    controlled.add_chassis(spin.yaw_input(), 0, 0);
    controlled.precise_gimbal = controlled.precise_gimbal || is_pulled(pad.left_trigger2);
    controlled.boost = controlled.boost || pad.left_thumb;
    controlled.auto_aim = controlled.auto_aim || is_pulled(pad.right_trigger2);
    controlled.shoot = controlled.shoot || pad.right_trigger;
    controlled.dart_just_pressed = controlled.dart_just_pressed || pad.west_struck;
    controlled.switch_slapper_just_pressed = controlled.switch_slapper_just_pressed
        || pad.start_struck;
    controlled.switch_camera_just_pressed = controlled.switch_camera_just_pressed
        || pad.select_struck;
    controlled
}

fn push_shares(analog: &mut Vec<AnalogShare>, pad: &GamepadFrame)
    ensures
        final(analog)@ == old(analog)@ + shares(*pad),
{
    analog.push(AnalogShare::Movement(pad.left_stick));
    if !pad.right_thumb {
        analog.push(AnalogShare::Gimbal([negate(pad.right_stick[0]), pad.right_stick[1]]));
    }
    analog.push(AnalogShare::RemoteMovement([negate(pad.dpad[0]), negate(pad.dpad[1])]));
    if pad.right_thumb {
        analog.push(AnalogShare::RemoteTilt(pad.right_stick));
    }
    assert(analog@ =~= old(analog)@ + shares(*pad));
}

fn rumble_of(pad: &GamepadFrame) -> (rumble: Vec<RumbleRequest>)
    ensures
        rumble@ == shakes(*pad),
{
    let mut rumble: Vec<RumbleRequest> = Vec::new();
    if pad.left_trigger_struck {
        rumble.push(
            request_gamepad_rumble(pad.entity, F32::zero(), F32 { bits: QUARTER }, 70),
        );
    }
    if pad.north_struck {
        rumble.push(
            request_gamepad_rumble(pad.entity, F32::zero(), F32 { bits: QUARTER }, 70),
        );
    }
    if pad.right_trigger2_struck {
        rumble.push(request_gamepad_rumble(pad.entity, F32 { bits: FAINT }, F32::zero(), 60));
    }
    rumble
}

/// Takes in what the gamepad says in this frame, and answers with the shakes it asks for. Without a
/// gamepad nothing happens.
#[verifier::spinoff_prover]
#[verifier::rlimit(30)]
pub fn sample_gamepad_controller(
    gamepad: Option<&GamepadFrame>,
    controller: &mut ControllerState,
) -> (rumble: Vec<RumbleRequest>)
    requires
        old(controller)@.wf(),
    ensures
        final(controller)@.wf(),
        gamepad is None ==> final(controller)@ == old(controller)@ && rumble@.len() == 0,
        gamepad matches Some(pad) ==> final(controller)@ == old(controller)@.padded(*pad) && rumble@
            == shakes(*pad),
{
    let pad = match gamepad {
        Some(pad) => pad,
        None => return Vec::new(),
    };
    if gamepad_controller_active(pad) {
        controller.use_help(ControllerHelp::xbox());
        controller.use_gamepad(pad.entity);
    }
    if pad.left_trigger_struck {
        controller.toggle_controlled_chassis_spin();
    }
    if pad.north_struck {
        controller.toggle_remote_chassis_spin();
    }
    controller.controlled = pad_controlled(
        controller.controlled,
        controller.controlled_chassis_spin,
        pad,
    );
    controller.remote.add_chassis(controller.remote_chassis_spin.yaw_input(), 0, 0);
    push_shares(&mut controller.analog, pad);
    rumble_of(pad)
}

/// Whether the environment forces the subscription on.
pub fn force_auto_aim(value: Option<&str>) -> (r: bool)
    ensures
        r == (value matches Some(v) && v@ == FORCED_ON@),
{
    match value {
        Some(v) => {
            let chars = chars_of(v);
            assert(chars@.subrange(0, chars@.len() as int) =~= chars@);
            reads(&chars, 0, chars.len(), &chars_of(FORCED_ON))
        },
        None => false,
    }
}

/// Whether the subscription is on from now on, and whether that is a change.
pub fn update_auto_aim_subscription(controller: &ControllerState, forced: bool, was: bool) -> (r: (
    bool,
    bool,
))
    ensures
        r.0 == (controller@.auto_aim() || forced),
        r.1 == (r.0 != was),
{
    let active = controller.auto_aim_active() || forced;
    (active, active != was)
}

/// Whether the operator fires.
pub fn controller_shoot_pressed(controller: &ControllerState) -> (r: bool)
    ensures
        r == controller.controlled.shoot,
{
    controller.controlled.shoot
}

/// Whether the operator launches a dart.
pub fn controller_dart_just_pressed(controller: &ControllerState) -> (r: bool)
    ensures
        r == controller.controlled.dart_just_pressed,
{
    controller.controlled.dart_just_pressed
}

/// What the gamepad does to the controlled robot in a frame: the left shoulder's switch spins it,
/// the left trigger makes its aim precise, the left thumb makes it run, the right trigger aims, the
/// right shoulder fires, X launches a dart, Start slaps and Select changes the view. What was asked
/// stays asked, and the axes that sticks move take shares and no steps.
pub proof fn law_each_button_of_the_pad_does_its_own(
    asked: crate::controller::Asked,
    pad: GamepadFrame,
)
    requires
        asked.wf(),
    ensures
        ({
            let (was, now) = (asked.controlled, asked.padded(pad).controlled);
            &&& now.shoot <==> was.shoot || pad.right_trigger
            &&& now.boost <==> was.boost || pad.left_thumb
            &&& now.dart_just_pressed <==> was.dart_just_pressed || pad.west_struck
            &&& now.switch_slapper_just_pressed <==> was.switch_slapper_just_pressed
                || pad.start_struck
            &&& now.switch_camera_just_pressed <==> was.switch_camera_just_pressed
                || pad.select_struck
            &&& now.auto_aim <==> was.auto_aim || (pad.right_trigger2 is Some && 0x3eb3_3333
                < pad.right_trigger2->0.bits <= 0x7f80_0000)
            &&& now.precise_gimbal <==> was.precise_gimbal || (pad.left_trigger2 is Some
                && 0x3eb3_3333 < pad.left_trigger2->0.bits <= 0x7f80_0000)
            &&& now.movement == was.movement
            &&& now.gimbal == was.gimbal
            &&& now.chassis_roll == was.chassis_roll
            &&& now.chassis_pitch == was.chassis_pitch
            &&& (asked.controlled_chassis_spin is On) != pad.left_trigger_struck
                ==> now.chassis_yaw == (if was.chassis_yaw == 1 {
                1int
            } else {
                was.chassis_yaw + 1
            })
            &&& (asked.controlled_chassis_spin is On) == pad.left_trigger_struck
                ==> now.chassis_yaw == was.chassis_yaw
        }),
        ({
            let (was, now) = (asked.remote, asked.padded(pad).remote);
            &&& now.movement == was.movement
            &&& now.gimbal == was.gimbal
            &&& now.chassis_roll == was.chassis_roll
            &&& now.chassis_pitch == was.chassis_pitch
            &&& crate::controller::same_switches(now, was)
            &&& (asked.remote_chassis_spin is On) != pad.north_struck ==> now.chassis_yaw == (
            if was.chassis_yaw == 1 {
                1int
            } else {
                was.chassis_yaw + 1
            })
            &&& (asked.remote_chassis_spin is On) == pad.north_struck ==> now.chassis_yaw
                == was.chassis_yaw
        }),
{
}

/// What the gamepad switches. The left shoulder works the spin of the controlled robot and Y that
/// of the remote one. A gamepad in use brings its text up and is taken into use; one that lies
/// still leaves both. It leaves the switch of automatic aim.
pub proof fn law_the_pad_switches_what_it_should(
    asked: crate::controller::Asked,
    pad: GamepadFrame,
)
    ensures
        ({
            let after = asked.padded(pad);
            let still = |v: [F32; 2]|
                v[0].bits % 0x8000_0000 == 0 && v[1].bits % 0x8000_0000 == 0;
            let used = !still(pad.left_stick) || !still(pad.right_stick) || !still(pad.dpad)
                || pad.left_trigger || pad.left_thumb || pad.right_thumb || pad.right_trigger
                || pad.north_struck || pad.west_struck || pad.start_struck || pad.select_struck || (
            pad.left_trigger2 is Some && 0x3eb3_3333 < pad.left_trigger2->0.bits <= 0x7f80_0000)
                || (pad.right_trigger2 is Some && 0x3eb3_3333 < pad.right_trigger2->0.bits
                <= 0x7f80_0000);
            &&& after.controlled_chassis_spin is On <==> (asked.controlled_chassis_spin is On)
                != pad.left_trigger_struck
            &&& after.remote_chassis_spin is On <==> (asked.remote_chassis_spin is On)
                != pad.north_struck
            &&& used ==> after.help == ControllerHelp::for_xbox() && after.active_gamepad == Some(
                pad.entity,
            )
            &&& !used ==> after.help == asked.help && after.active_gamepad == asked.active_gamepad
            &&& after.keyboard_auto_aim == asked.keyboard_auto_aim
        }),
{
}

/// What the sticks add. The left one moves the controlled robot. The right one aims it, sideways
/// the other way, while it is not pressed, and tilts the remote robot while it is. The cross moves
/// the remote robot the other way. All comes behind what was there.
pub proof fn law_each_stick_does_its_own(asked: crate::controller::Asked, pad: GamepadFrame)
    ensures
        ({
            let (was, now) = (asked.analog, asked.padded(pad).analog);
            let n = was.len() as int;
            &&& now.len() == n + 3
            &&& was.is_prefix_of(now)
            &&& now[n] == AnalogShare::Movement(pad.left_stick)
            &&& !pad.right_thumb ==> (now[n + 1] matches AnalogShare::Gimbal(v) && v[0].bits
                != pad.right_stick[0].bits && v[0].bits % 0x8000_0000 == pad.right_stick[0].bits
                % 0x8000_0000 && v[1].bits == pad.right_stick[1].bits)
            &&& pad.right_thumb ==> now[n + 2] == AnalogShare::RemoteTilt(pad.right_stick)
            &&& now[if pad.right_thumb {
                n + 1
            } else {
                n + 2
            }] matches AnalogShare::RemoteMovement(v) && forall|i: int|
                0 <= i < 2 ==> (#[trigger] v[i]).bits != pad.dpad[i].bits && v[i].bits % 0x8000_0000
                    == pad.dpad[i].bits % 0x8000_0000
        }),
{
    assert(asked.analog =~= asked.padded(pad).analog.subrange(0, asked.analog.len() as int));
}

/// Which shakes a frame of the gamepad asks for: a weak one for each spin that is switched and a
/// strong one where automatic aim begins, all of that gamepad, and no others.
pub proof fn law_shakes_answer_the_pad(pad: GamepadFrame, i: int)
    ensures
        shakes(pad).len() == (if pad.left_trigger_struck {
            1int
        } else {
            0int
        }) + (if pad.north_struck {
            1int
        } else {
            0int
        }) + (if pad.right_trigger2_struck {
            1int
        } else {
            0int
        }),
        0 <= i < shakes(pad).len() ==> {
            let shake = shakes(pad)[i];
            let last = pad.right_trigger2_struck && i == shakes(pad).len() - 1;
            &&& shake.gamepad == pad.entity
            &&& last ==> shake.strong_motor.bits == 0x3df5_c28f && shake.weak_motor.bits == 0
                && shake.duration_ms == 60
            &&& !last ==> shake.strong_motor.bits == 0 && shake.weak_motor.bits == 0x3e80_0000
                && shake.duration_ms == 70
        },
{
}

/// What a frame of the gamepad does is what its buttons and sticks do, and what it shakes answers
/// them; without a gamepad nothing happens.
pub proof fn law_calls_of_sample_gamepad_controller(
    gamepad: Option<&GamepadFrame>,
    controller: &mut ControllerState,
    rumble: Vec<RumbleRequest>,
)
    requires
        call_ensures(sample_gamepad_controller, (gamepad, controller), rumble),
        old(controller)@.wf(),
    ensures
        gamepad is None ==> final(controller)@ == old(controller)@ && rumble@.len() == 0,
        gamepad is Some ==> {
            let (was, now) = (old(controller)@, final(controller)@);
            &&& now == was.padded(*gamepad->0)
            &&& rumble@ == shakes(*gamepad->0)
            &&& now.controlled.shoot <==> was.controlled.shoot || gamepad->0.right_trigger
            &&& now.controlled.boost <==> was.controlled.boost || gamepad->0.left_thumb
            &&& now.controlled.dart_just_pressed <==> was.controlled.dart_just_pressed
                || gamepad->0.west_struck
            &&& now.controlled_chassis_spin is On <==> (was.controlled_chassis_spin is On)
                != gamepad->0.left_trigger_struck
            &&& now.keyboard_auto_aim == was.keyboard_auto_aim
        },
{
    if gamepad is Some {
        law_each_button_of_the_pad_does_its_own(old(controller)@, *gamepad->0);
        law_the_pad_switches_what_it_should(old(controller)@, *gamepad->0);
    }
}

/// The subscription follows the operator's switch, or is forced by the value one of the
/// environment; a change is told as one.
pub proof fn law_calls_of_update_auto_aim_subscription(
    value: Option<&str>,
    forced: bool,
    controller: ControllerState,
    was: bool,
    r: (bool, bool),
)
    requires
        call_ensures(force_auto_aim, (value,), forced),
        call_ensures(update_auto_aim_subscription, (&controller, forced, was), r),
    ensures
        forced <==> value is Some && value->0@ == seq!['1'],
        r.0 <==> controller.keyboard_auto_aim || controller.controlled.auto_aim || forced,
        r.1 <==> r.0 != was,
{
    reveal_strlit("1");
    assert("1"@ =~= seq!['1']);
}

/// The operator fires and launches darts exactly where the controlled robot is asked to.
pub proof fn law_calls_of_the_triggers(
    controller: ControllerState,
    shoot: bool,
    dart: bool,
    strong: F32,
    weak: F32,
    duration_ms: u64,
    shake: Option<RumbleRequest>,
)
    requires
        call_ensures(controller_shoot_pressed, (&controller,), shoot),
        call_ensures(controller_dart_just_pressed, (&controller,), dart),
        call_ensures(request_controller_rumble, (Some(&controller), strong, weak, duration_ms), shake),
    ensures
        shoot <==> controller.controlled.shoot,
        dart <==> controller.controlled.dart_just_pressed,
        shake is Some <==> controller.active_gamepad is Some,
        shake is Some ==> {
            &&& Some(shake->0.gamepad) == controller.active_gamepad
            &&& shake->0.strong_motor == strong
            &&& shake->0.weak_motor == weak
            &&& shake->0.duration_ms == duration_ms
        },
{
}

/// A gamepad is in use exactly where a stick or the cross is deflected, a trigger is pulled beyond
/// its threshold, or a button that steers is held or was struck; and a shake is as it is told.
pub proof fn law_calls_of_gamepad_controller_active(
    pad: GamepadFrame,
    active: bool,
    gamepad: u64,
    strong: F32,
    weak: F32,
    duration_ms: u64,
    shake: RumbleRequest,
)
    requires
        call_ensures(gamepad_controller_active, (&pad,), active),
        call_ensures(request_gamepad_rumble, (gamepad, strong, weak, duration_ms), shake),
    ensures
        active <==> {
            ||| pad.left_stick[0].bits % 0x8000_0000 != 0 || pad.left_stick[1].bits % 0x8000_0000
                != 0
            ||| pad.right_stick[0].bits % 0x8000_0000 != 0 || pad.right_stick[1].bits % 0x8000_0000
                != 0
            ||| pad.dpad[0].bits % 0x8000_0000 != 0 || pad.dpad[1].bits % 0x8000_0000 != 0
            ||| pad.left_trigger || pad.left_thumb || pad.right_thumb || pad.right_trigger
            ||| pad.north_struck || pad.west_struck || pad.start_struck || pad.select_struck
            ||| pad.left_trigger2 is Some && 0x3eb3_3333 < pad.left_trigger2->0.bits <= 0x7f80_0000
            ||| pad.right_trigger2 is Some && 0x3eb3_3333 < pad.right_trigger2->0.bits
                <= 0x7f80_0000
        },
        shake.gamepad == gamepad,
        shake.strong_motor == strong,
        shake.weak_motor == weak,
        shake.duration_ms == duration_ms,
{
}

} // verus!
