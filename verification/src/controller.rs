//! From keys, buttons and sticks to what the robots are asked to do.
//!
//! A key moves an axis by one whole step and steps saturate. What sticks and the mouse add is kept
//! as it came, in the order in which it came: adding it up takes arithmetic that rounds.
use crate::camera::FollowingType;
use crate::float::F32;
use crate::keys::{read_buttons, read_keys, release_buttons, ButtonFrame, KeyFrame};
use bevy::input::keyboard::KeyCode;
use bevy::input::mouse::MouseButton;
use bevy::input::ButtonInput;
use vstd::prelude::*;

verus! {

/// The pattern of `0.35`, above which a trigger counts as pulled.
pub const GAMEPAD_TRIGGER_THRESHOLD: u32 = 0x3eb3_3333;

/// The pattern of `0.35`, by which aiming slows down where precision is asked for.
pub const PRECISE_GIMBAL_SCALE: u32 = 0x3eb3_3333;

/// The pattern of `1.0`.
pub const ONE: u32 = 0x3f80_0000;

/// The pattern of `2.0`.
pub const TWO: u32 = 0x4000_0000;

/// The pattern of `-1.0`.
pub const MINUS_ONE: u32 = 0xbf80_0000;

pub const KEYBOARD_SOURCE: &'static str = "keyboard";

pub const KEYBOARD_MANUAL: &'static str = "F3 视角 | WASD 移动 | 左键 开火（未捕获指针时先捕获）/ Esc 释放 | 右键按住 自瞄+火控开火（先左键捕获指针）| 鼠标或方向键 瞄准 | 空格 射击 | G 飞镖 | Q 小陀螺 | U 远程小陀螺 | F5 自瞄常开 | Tab 拍打";

pub const KEYBOARD_AUTO_AIM: &'static str = "松开右键 / F5 关闭自瞄（外部接管期间鼠标与方向键不控云台）| 识别到目标由外部火控自动开火，不用按左键（视觉侧须带 --allow-fire）| 左键 开火 | WASD 移动 | Q 小陀螺 | U 远程小陀螺 | Tab 拍打";

pub const XBOX_SOURCE: &'static str = "xbox";

pub const XBOX_MANUAL: &'static str = "View 视角 | LS 移动 | L3 加速 | 十字键 拍打移动 | RS 瞄准 | R3+RS 拍打翻滚/俯仰 | LB 小陀螺 | Y 拍打小陀螺 | RB 射击 | X 飞镖 | 按住 RT 自瞄+火控开火";

pub const XBOX_AUTO_AIM: &'static str = "松开 RT 关闭自瞄 | LS 移动 | L3 加速 | 十字键 拍打移动 | R3+RS 拍打翻滚/俯仰 | LB 小陀螺 | Y 拍打小陀螺 | 识别到目标由外部火控自动开火（视觉侧须带 --allow-fire）";

pub const MODE_AUTO_AIM: &'static str = "自瞄";

pub const MODE_MANUAL: &'static str = "手动";

/// What the head-up display says of the controls, for one kind of device.
#[derive(Debug, Clone, Copy, PartialEq, Eq)]
pub struct ControllerHelp {
    pub source: &'static str,
    pub manual: &'static str,
    pub auto_aim: &'static str,
}

impl ControllerHelp {
    /// The text for the keyboard.
    pub open spec fn for_keyboard() -> ControllerHelp {
        ControllerHelp {
            source: KEYBOARD_SOURCE,
            manual: KEYBOARD_MANUAL,
            auto_aim: KEYBOARD_AUTO_AIM,
        }
    }

    /// The text for a gamepad.
    pub open spec fn for_xbox() -> ControllerHelp {
        ControllerHelp { source: XBOX_SOURCE, manual: XBOX_MANUAL, auto_aim: XBOX_AUTO_AIM }
    }

    /// The text for the keyboard.
    pub fn keyboard() -> (r: Self)
        ensures
            r == ControllerHelp::for_keyboard(),
    {
        ControllerHelp {
            source: KEYBOARD_SOURCE,
            manual: KEYBOARD_MANUAL,
            auto_aim: KEYBOARD_AUTO_AIM,
        }
    }

    /// The text for a gamepad.
    pub fn xbox() -> (r: Self)
        ensures
            r == ControllerHelp::for_xbox(),
    {
        ControllerHelp { source: XBOX_SOURCE, manual: XBOX_MANUAL, auto_aim: XBOX_AUTO_AIM }
    }
}

impl Default for ControllerHelp {
    fn default() -> (r: Self)
        ensures
            r == ControllerHelp::for_keyboard(),
    {
        ControllerHelp::keyboard()
    }
}

/// Whether a chassis spins.
#[derive(Debug, Clone, Copy, PartialEq, Eq, Structural)]
pub enum ChassisSpinMode {
    Off,
    On,
}

impl Default for ChassisSpinMode {
    fn default() -> (r: Self)
        ensures
            r is Off,
    {
        ChassisSpinMode::Off
    }
}

impl ChassisSpinMode {
    /// The other mode.
    pub open spec fn other(self) -> ChassisSpinMode {
        match self {
            ChassisSpinMode::Off => ChassisSpinMode::On,
            ChassisSpinMode::On => ChassisSpinMode::Off,
        }
    }

    /// The step that the mode puts on the yaw axis.
    pub open spec fn step(self) -> int {
        match self {
            ChassisSpinMode::Off => 0,
            ChassisSpinMode::On => 1,
        }
    }

    /// Changes to the other mode.
    pub fn toggle(&mut self)
        ensures
            *final(self) == old(self).other(),
    {
        *self = match *self {
            ChassisSpinMode::Off => ChassisSpinMode::On,
            ChassisSpinMode::On => ChassisSpinMode::Off,
        };
    }

    /// The step that the mode puts on the yaw axis.
    pub fn yaw_input(self) -> (r: i8)
        ensures
            r == self.step(),
    {
        match self {
            ChassisSpinMode::Off => 0,
            ChassisSpinMode::On => 1,
        }
    }

    /// Whether the chassis spins.
    pub fn is_on(self) -> (r: bool)
        ensures
            r == (self is On),
    {
        match self {
            ChassisSpinMode::Off => false,
            ChassisSpinMode::On => true,
        }
    }
}

/// Two axes, in whole steps.
#[derive(Debug, Clone, Copy, PartialEq, Eq, Structural)]
pub struct Steps {
    pub x: i8,
    pub y: i8,
}

/// What one robot is asked to do, as far as whole steps say it.
#[derive(Debug, Clone, Copy, PartialEq, Eq, Structural)]
pub struct ControllerInput {
    pub movement: Steps,
    pub gimbal: Steps,
    pub chassis_yaw: i8,
    pub chassis_roll: i8,
    pub chassis_pitch: i8,
    pub boost: bool,
    pub precise_gimbal: bool,
    pub shoot: bool,
    pub dart_just_pressed: bool,
    pub switch_slapper_just_pressed: bool,
    pub switch_camera_just_pressed: bool,
    pub auto_aim: bool,
}

/// What sticks and the mouse add to the axes and, behind a stick, the keys too. Whoever sums holds an
/// axis to one either way after each share, so that the order of the shares of one axis counts.
#[derive(Debug, Clone, Copy, PartialEq, Eq)]
pub enum AnalogShare {
    /// To the movement of the controlled robot.
    Movement([F32; 2]),
    /// To the rate at which its gimbal turns.
    Gimbal([F32; 2]),
    /// To the angle of its gimbal.
    GimbalDelta([F32; 2]),
    /// To the movement of the remote robot.
    RemoteMovement([F32; 2]),
    /// To the roll and pitch of the remote robot.
    RemoteTilt([F32; 2]),
}

/// The axes that sticks and the mouse move.
#[derive(Debug, Clone, Copy, PartialEq, Eq, Structural)]
pub enum AnalogAxis {
    Movement,
    Gimbal,
    GimbalDelta,
    RemoteMovement,
    RemoteTilt,
}

impl AnalogShare {
    /// What the share is added to.
    pub open spec fn on(self) -> AnalogAxis {
        match self {
            AnalogShare::Movement(v) => AnalogAxis::Movement,
            AnalogShare::Gimbal(v) => AnalogAxis::Gimbal,
            AnalogShare::GimbalDelta(v) => AnalogAxis::GimbalDelta,
            AnalogShare::RemoteMovement(v) => AnalogAxis::RemoteMovement,
            AnalogShare::RemoteTilt(v) => AnalogAxis::RemoteTilt,
        }
    }

    /// What the share is added to.
    pub fn axis(&self) -> (r: AnalogAxis)
        ensures
            r == self.on(),
    {
        match self {
            AnalogShare::Movement(_) => AnalogAxis::Movement,
            AnalogShare::Gimbal(_) => AnalogAxis::Gimbal,
            AnalogShare::GimbalDelta(_) => AnalogAxis::GimbalDelta,
            AnalogShare::RemoteMovement(_) => AnalogAxis::RemoteMovement,
            AnalogShare::RemoteTilt(_) => AnalogAxis::RemoteTilt,
        }
    }
}

/// A share of the axis is among the shares.
pub open spec fn begun(analog: Seq<AnalogShare>, axis: AnalogAxis) -> bool {
    exists|i: int| 0 <= i < analog.len() && (#[trigger] analog[i]).on() == axis
}

fn has_begun(analog: &Vec<AnalogShare>, axis: AnalogAxis) -> (r: bool)
    ensures
        r == begun(analog@, axis),
{
    let mut i: usize = 0;
    while i < analog.len()
        invariant
            i <= analog@.len(),
            forall|k: int| 0 <= k < i ==> (#[trigger] analog@[k]).on() != axis,
        decreases analog@.len() - i,
    {
        if analog[i].axis() == axis {
            return true;
        }
        i += 1;
    }
    false
}

/// A step as a number: `1.0`, `-1.0` or `0.0`.
pub open spec fn whole(step: int) -> F32 {
    if step > 0 {
        F32 { bits: ONE }
    } else if step < 0 {
        F32 { bits: MINUS_ONE }
    } else {
        F32 { bits: 0 }
    }
}

fn whole_of(step: i8) -> (r: F32)
    ensures
        r == whole(step as int),
{
    if step > 0 {
        F32 { bits: ONE }
    } else if step < 0 {
        F32 { bits: MINUS_ONE }
    } else {
        F32 { bits: 0 }
    }
}

/// A sum of steps, held to one step either way.
pub open spec fn held(sum: int) -> i8 {
    if sum > 1 {
        1
    } else if sum < -1 {
        (-1) as i8
    } else {
        sum as i8
    }
}

/// Steps within one step either way.
pub open spec fn within(step: i8) -> bool {
    -1 <= step <= 1
}

fn hold(sum: i8) -> (r: i8)
    ensures
        r == held(sum as int),
        within(r),
{
    if sum > 1 {
        1
    } else if sum < -1 {
        -1
    } else {
        sum
    }
}

impl ControllerInput {
    /// Nothing asked.
    pub open spec fn idle() -> ControllerInput {
        ControllerInput {
            movement: Steps { x: 0, y: 0 },
            gimbal: Steps { x: 0, y: 0 },
            chassis_yaw: 0,
            chassis_roll: 0,
            chassis_pitch: 0,
            boost: false,
            precise_gimbal: false,
            shoot: false,
            dart_just_pressed: false,
            switch_slapper_just_pressed: false,
            switch_camera_just_pressed: false,
            auto_aim: false,
        }
    }

    /// No axis is moved by more than one step.
    pub open spec fn wf(self) -> bool {
        &&& within(self.movement.x) && within(self.movement.y)
        &&& within(self.gimbal.x) && within(self.gimbal.y)
        &&& within(self.chassis_yaw) && within(self.chassis_roll) && within(self.chassis_pitch)
    }

    /// With steps added to the movement.
    pub open spec fn moved(self, x: int, y: int) -> ControllerInput {
        ControllerInput {
            movement: Steps { x: held(self.movement.x + x), y: held(self.movement.y + y) },
            ..self
        }
    }

    /// With steps added to the gimbal.
    pub open spec fn aimed(self, x: int, y: int) -> ControllerInput {
        ControllerInput {
            gimbal: Steps { x: held(self.gimbal.x + x), y: held(self.gimbal.y + y) },
            ..self
        }
    }

    /// With steps added to the chassis.
    pub open spec fn turned(self, yaw: int, roll: int, pitch: int) -> ControllerInput {
        ControllerInput {
            chassis_yaw: held(self.chassis_yaw + yaw),
            chassis_roll: held(self.chassis_roll + roll),
            chassis_pitch: held(self.chassis_pitch + pitch),
            ..self
        }
    }

    /// By how much the movement is faster.
    pub fn boost_multiplier(self) -> (r: F32)
        ensures
            r.bits == (if self.boost {
                TWO
            } else {
                ONE
            }),
    {
        if self.boost {
            F32 { bits: TWO }
        } else {
            F32 { bits: ONE }
        }
    }

    /// By how much aiming is slower.
    pub fn gimbal_scale(self) -> (r: F32)
        ensures
            r.bits == (if self.precise_gimbal {
                PRECISE_GIMBAL_SCALE
            } else {
                ONE
            }),
    {
        if self.precise_gimbal {
            F32 { bits: PRECISE_GIMBAL_SCALE }
        } else {
            F32 { bits: ONE }
        }
    }

    /// Adds steps to the movement. Each axis saturates on its own.
    pub fn add_movement(&mut self, movement: Steps)
        requires
            old(self).wf(),
            within(movement.x) && within(movement.y),
        ensures
            final(self).wf(),
            *final(self) == old(self).moved(movement.x as int, movement.y as int),
    {
        self.movement = Steps {
            x: hold(self.movement.x + movement.x),
            y: hold(self.movement.y + movement.y),
        };
    }

    /// Adds steps to the gimbal. Each axis saturates on its own.
    pub fn add_gimbal(&mut self, gimbal: Steps)
        requires
            old(self).wf(),
            within(gimbal.x) && within(gimbal.y),
        ensures
            final(self).wf(),
            *final(self) == old(self).aimed(gimbal.x as int, gimbal.y as int),
    {
        self.gimbal = Steps {
            x: hold(self.gimbal.x + gimbal.x),
            y: hold(self.gimbal.y + gimbal.y),
        };
    }

    /// Adds steps to the chassis. Each axis saturates on its own.
    pub fn add_chassis(&mut self, yaw: i8, roll: i8, pitch: i8)
        requires
            old(self).wf(),
            within(yaw) && within(roll) && within(pitch),
        ensures
            final(self).wf(),
            *final(self) == old(self).turned(yaw as int, roll as int, pitch as int),
    {
        self.chassis_yaw = hold(self.chassis_yaw + yaw);
        self.chassis_roll = hold(self.chassis_roll + roll);
        self.chassis_pitch = hold(self.chassis_pitch + pitch);
    }
}

impl Default for ControllerInput {
    fn default() -> (r: Self)
        ensures
            r == ControllerInput::idle(),
            r.wf(),
    {
        ControllerInput {
            movement: Steps { x: 0, y: 0 },
            gimbal: Steps { x: 0, y: 0 },
            chassis_yaw: 0,
            chassis_roll: 0,
            chassis_pitch: 0,
            boost: false,
            precise_gimbal: false,
            shoot: false,
            dart_just_pressed: false,
            switch_slapper_just_pressed: false,
            switch_camera_just_pressed: false,
            auto_aim: false,
        }
    }
}

/// What the operator asks.
#[derive(Debug)]
pub struct ControllerState {
    pub controlled: ControllerInput,
    pub remote: ControllerInput,
    /// What was added in this frame behind the steps of `controlled` and `remote`, in its order.
    pub analog: Vec<AnalogShare>,
    /// The switch that keeps automatic aim on.
    pub keyboard_auto_aim: bool,
    pub controlled_chassis_spin: ChassisSpinMode,
    pub remote_chassis_spin: ChassisSpinMode,
    pub active_gamepad: Option<u64>,
    pub help: ControllerHelp,
}

/// What the operator asks, with what was added as a sequence.
#[verifier::ext_equal]
pub ghost struct Asked {
    pub controlled: ControllerInput,
    pub remote: ControllerInput,
    pub analog: Seq<AnalogShare>,
    pub keyboard_auto_aim: bool,
    pub controlled_chassis_spin: ChassisSpinMode,
    pub remote_chassis_spin: ChassisSpinMode,
    pub active_gamepad: Option<u64>,
    pub help: ControllerHelp,
}

impl View for ControllerState {
    type V = Asked;

    open spec fn view(&self) -> Asked {
        Asked {
            controlled: self.controlled,
            remote: self.remote,
            analog: self.analog@,
            keyboard_auto_aim: self.keyboard_auto_aim,
            controlled_chassis_spin: self.controlled_chassis_spin,
            remote_chassis_spin: self.remote_chassis_spin,
            active_gamepad: self.active_gamepad,
            help: self.help,
        }
    }
}

impl Asked {
    /// No axis is moved by more than one step.
    pub open spec fn wf(self) -> bool {
        self.controlled.wf() && self.remote.wf()
    }

    /// Automatic aim is asked for, by the switch or by what is held.
    pub open spec fn auto_aim(self) -> bool {
        self.keyboard_auto_aim || self.controlled.auto_aim
    }

    /// At the start of a frame: nothing is asked, but what is switched on stays on.
    pub open spec fn reset(self) -> Asked {
        Asked {
            controlled: ControllerInput::idle(),
            remote: ControllerInput::idle(),
            analog: Seq::empty(),
            ..self
        }
    }

    /// With one more share.
    pub open spec fn shared(self, share: AnalogShare) -> Asked {
        Asked { analog: self.analog.push(share), ..self }
    }

    /// With steps added to the movement of the controlled robot. Behind a share of a stick they are
    /// a share themselves, since the axis is held to its bounds after each.
    pub open spec fn moved(self, x: int, y: int) -> Asked {
        if begun(self.analog, AnalogAxis::Movement) {
            self.shared(AnalogShare::Movement([whole(x), whole(y)]))
        } else {
            Asked { controlled: self.controlled.moved(x, y), ..self }
        }
    }

    /// With steps added to the gimbal of the controlled robot.
    pub open spec fn aimed(self, x: int, y: int) -> Asked {
        if begun(self.analog, AnalogAxis::Gimbal) {
            self.shared(AnalogShare::Gimbal([whole(x), whole(y)]))
        } else {
            Asked { controlled: self.controlled.aimed(x, y), ..self }
        }
    }

    /// With steps added to the movement of the remote robot.
    pub open spec fn remote_moved(self, x: int, y: int) -> Asked {
        if begun(self.analog, AnalogAxis::RemoteMovement) {
            self.shared(AnalogShare::RemoteMovement([whole(x), whole(y)]))
        } else {
            Asked { remote: self.remote.moved(x, y), ..self }
        }
    }

    /// With steps added to the roll and pitch of the remote robot.
    pub open spec fn remote_tilted(self, roll: int, pitch: int) -> Asked {
        if begun(self.analog, AnalogAxis::RemoteTilt) {
            self.shared(AnalogShare::RemoteTilt([whole(roll), whole(pitch)]))
        } else {
            Asked { remote: self.remote.turned(0, roll, pitch), ..self }
        }
    }
}

impl Default for ControllerState {
    fn default() -> (r: Self)
        ensures
            r@ == (Asked {
                controlled: ControllerInput::idle(),
                remote: ControllerInput::idle(),
                analog: Seq::empty(),
                keyboard_auto_aim: false,
                controlled_chassis_spin: ChassisSpinMode::Off,
                remote_chassis_spin: ChassisSpinMode::Off,
                active_gamepad: None,
                help: ControllerHelp::for_keyboard(),
            }),
            r@.wf(),
    {
        ControllerState {
            controlled: ControllerInput::default(),
            remote: ControllerInput::default(),
            analog: Vec::new(),
            keyboard_auto_aim: false,
            controlled_chassis_spin: ChassisSpinMode::Off,
            remote_chassis_spin: ChassisSpinMode::Off,
            active_gamepad: None,
            help: ControllerHelp::keyboard(),
        }
    }
}

impl ControllerState {
    /// Starts a frame.
    pub fn reset_frame(&mut self)
        ensures
            final(self)@ == old(self)@.reset(),
            final(self)@.wf(),
    {
        self.controlled = ControllerInput::default();
        self.remote = ControllerInput::default();
        self.analog = Vec::new();
    }

    /// Whether automatic aim is asked for.
    pub fn auto_aim_active(&self) -> (r: bool)
        ensures
            r == self@.auto_aim(),
    {
        self.keyboard_auto_aim || self.controlled.auto_aim
    }

    /// The device that was used last.
    pub fn help_source(&self) -> (r: &'static str)
        ensures
            r == self.help.source,
    {
        self.help.source
    }

    /// The mode, for the head-up display. It goes by what is in effect, which may be forced from
    /// outside, and not by what the operator asks.
    pub fn help_mode(&self, auto_aim: bool) -> (r: &'static str)
        ensures
            r == (if auto_aim {
                MODE_AUTO_AIM
            } else {
                MODE_MANUAL
            }),
    {
        if auto_aim {
            MODE_AUTO_AIM
        } else {
            MODE_MANUAL
        }
    }

    /// The controls, for the head-up display. They too go by what is in effect.
    pub fn help_controls(&self, auto_aim: bool) -> (r: &'static str)
        ensures
            r == (if auto_aim {
                self.help.auto_aim
            } else {
                self.help.manual
            }),
    {
        if auto_aim {
            self.help.auto_aim
        } else {
            self.help.manual
        }
    }

    /// Whether the controlled chassis spins.
    pub fn controlled_chassis_spin(&self) -> (r: bool)
        ensures
            r == (self.controlled_chassis_spin is On),
    {
        self.controlled_chassis_spin.is_on()
    }

    /// Whether the remote chassis spins.
    pub fn remote_chassis_spin(&self) -> (r: bool)
        ensures
            r == (self.remote_chassis_spin is On),
    {
        self.remote_chassis_spin.is_on()
    }

    /// The gamepad in use.
    pub fn active_gamepad(&self) -> (r: Option<u64>)
        ensures
            r == self.active_gamepad,
    {
        self.active_gamepad
    }

    /// Switches automatic aim off.
    pub fn clear_keyboard_auto_aim(&mut self)
        ensures
            final(self)@ == (Asked { keyboard_auto_aim: false, ..old(self)@ }),
    {
        self.keyboard_auto_aim = false;
    }

    /// Works the switch of automatic aim.
    pub fn toggle_keyboard_auto_aim(&mut self)
        ensures
            final(self)@ == (Asked {
                keyboard_auto_aim: !old(self).keyboard_auto_aim,
                ..old(self)@
            }),
    {
        self.keyboard_auto_aim = !self.keyboard_auto_aim;
    }

    /// Works the switch of the controlled chassis' spin.
    pub fn toggle_controlled_chassis_spin(&mut self)
        ensures
            final(self)@ == (Asked {
                controlled_chassis_spin: old(self).controlled_chassis_spin.other(),
                ..old(self)@
            }),
    {
        self.controlled_chassis_spin.toggle();
    }

    /// Works the switch of the remote chassis' spin.
    pub fn toggle_remote_chassis_spin(&mut self)
        ensures
            final(self)@ == (Asked {
                remote_chassis_spin: old(self).remote_chassis_spin.other(),
                ..old(self)@
            }),
    {
        self.remote_chassis_spin.toggle();
    }

    /// Shows the text for another device.
    pub fn use_help(&mut self, help: ControllerHelp)
        ensures
            final(self)@ == (Asked { help, ..old(self)@ }),
    {
        self.help = help;
    }

    /// Takes a gamepad into use.
    pub fn use_gamepad(&mut self, gamepad: u64)
        ensures
            final(self)@ == (Asked { active_gamepad: Some(gamepad), ..old(self)@ }),
    {
        self.active_gamepad = Some(gamepad);
    }

    /// Puts the gamepad away.
    pub fn clear_gamepad(&mut self)
        ensures
            final(self)@ == (Asked { active_gamepad: None, ..old(self)@ }),
    {
        self.active_gamepad = None;
    }

    /// Adds an angle to the gimbal's. It is not held to any bound: the mouse moved as far as it did.
    pub fn add_gimbal_delta(&mut self, delta: [F32; 2])
        ensures
            final(self)@ == old(self)@.shared(AnalogShare::GimbalDelta(delta)),
    {
        self.analog.push(AnalogShare::GimbalDelta(delta));
    }

    fn step_movement(&mut self, by: Steps)
        requires
            old(self)@.wf(),
            within(by.x) && within(by.y),
        ensures
            final(self)@.wf(),
            final(self)@ == old(self)@.moved(by.x as int, by.y as int),
            final(self)@.same_devices(old(self)@),
    {
        if has_begun(&self.analog, AnalogAxis::Movement) {
            self.analog.push(AnalogShare::Movement([whole_of(by.x), whole_of(by.y)]));
        } else {
            self.controlled.add_movement(by);
        }
    }

    fn step_gimbal(&mut self, by: Steps)
        requires
            old(self)@.wf(),
            within(by.x) && within(by.y),
        ensures
            final(self)@.wf(),
            final(self)@ == old(self)@.aimed(by.x as int, by.y as int),
            final(self)@.same_devices(old(self)@),
    {
        if has_begun(&self.analog, AnalogAxis::Gimbal) {
            self.analog.push(AnalogShare::Gimbal([whole_of(by.x), whole_of(by.y)]));
        } else {
            self.controlled.add_gimbal(by);
        }
    }

    fn step_remote_movement(&mut self, by: Steps)
        requires
            old(self)@.wf(),
            within(by.x) && within(by.y),
        ensures
            final(self)@.wf(),
            final(self)@ == old(self)@.remote_moved(by.x as int, by.y as int),
            final(self)@.same_devices(old(self)@),
    {
        if has_begun(&self.analog, AnalogAxis::RemoteMovement) {
            self.analog.push(AnalogShare::RemoteMovement([whole_of(by.x), whole_of(by.y)]));
        } else {
            self.remote.add_movement(by);
        }
    }

    fn step_remote_tilt(&mut self, roll: i8, pitch: i8)
        requires
            old(self)@.wf(),
            within(roll) && within(pitch),
        ensures
            final(self)@.wf(),
            final(self)@ == old(self)@.remote_tilted(roll as int, pitch as int),
            final(self)@.same_devices(old(self)@),
    {
        if has_begun(&self.analog, AnalogAxis::RemoteTilt) {
            self.analog.push(AnalogShare::RemoteTilt([whole_of(roll), whole_of(pitch)]));
        } else {
            self.remote.add_chassis(0, roll, pitch);
        }
    }
}

/// Starts a frame.
pub fn clear_controller_input(controller: &mut ControllerState)
    ensures
        final(controller)@ == old(controller)@.reset(),
        final(controller)@.wf(),
{
    controller.reset_frame();
}

/// One step for `positive`, one back for `negative`.
pub open spec fn axis(positive: bool, negative: bool) -> int {
    (if positive {
        1int
    } else {
        0int
    }) - (if negative {
        1int
    } else {
        0int
    })
}

/// One step for `positive`, one back for `negative`.
pub fn keyboard_axis(positive: bool, negative: bool) -> (r: i8)
    ensures
        r == axis(positive, negative),
        within(r),
{
    let mut input: i8 = 0;
    if positive {
        input = input + 1;
    }
    if negative {
        input = input - 1;
    }
    input
}

/// The steps of four keys that lie in a cross.
pub fn keyboard_vec2(forward: bool, left: bool, backward: bool, right: bool) -> (r: Steps)
    ensures
        r.x == axis(right, left),
        r.y == axis(forward, backward),
        within(r.x) && within(r.y),
{
    Steps { x: keyboard_axis(right, left), y: keyboard_axis(forward, backward) }
}

/// Some key that steers is in use.
pub open spec fn keyboard_in_use(keys: KeyFrame) -> bool {
    ||| keys.w || keys.a || keys.s || keys.d
    ||| keys.arrow_left || keys.arrow_right || keys.arrow_up || keys.arrow_down
    ||| keys.shift_left || keys.space
    ||| keys.i || keys.j || keys.k || keys.l
    ||| keys.bracket_left || keys.bracket_right || keys.semicolon || keys.quote
    ||| keys.c || keys.b || keys.f || keys.v
    ||| keys.g_struck || keys.tab_struck || keys.f3_struck || keys.f5_struck
    ||| keys.q_struck || keys.u_struck
}

/// Whether some key that steers is in use.
pub fn keyboard_controller_active(keys: &KeyFrame) -> (r: bool)
    ensures
        r == keyboard_in_use(*keys),
{
    let held = keys.w || keys.a || keys.s || keys.d || keys.arrow_left || keys.arrow_right
        || keys.arrow_up || keys.arrow_down || keys.shift_left || keys.space || keys.i || keys.j
        || keys.k || keys.l || keys.bracket_left || keys.bracket_right || keys.semicolon
        || keys.quote || keys.c || keys.b || keys.f || keys.v;
    let struck = keys.g_struck || keys.tab_struck || keys.f3_struck || keys.f5_struck
        || keys.q_struck || keys.u_struck;
    held || struck
}

/// After what the keyboard asks of the controlled robot.
pub open spec fn keyed_controlled(asked: Asked, spin: ChassisSpinMode, keys: KeyFrame) -> Asked {
    asked.moved(axis(keys.d, keys.a), axis(keys.w, keys.s)).spun(spin).aimed(
        axis(keys.arrow_left, keys.arrow_right),
        axis(keys.arrow_up, keys.arrow_down),
    ).triggered(keys)
}

/// With what the keyboard switches on the controlled robot.
pub open spec fn keyed_switches(input: ControllerInput, keys: KeyFrame) -> ControllerInput {
    ControllerInput {
        boost: input.boost || keys.shift_left,
        shoot: input.shoot || keys.space,
        dart_just_pressed: input.dart_just_pressed || keys.g_struck,
        switch_slapper_just_pressed: input.switch_slapper_just_pressed || keys.tab_struck,
        switch_camera_just_pressed: input.switch_camera_just_pressed || keys.f3_struck,
        ..input
    }
}

/// After what the keyboard asks of the remote robot.
pub open spec fn keyed_remote(asked: Asked, spin: ChassisSpinMode, keys: KeyFrame) -> Asked {
    asked.remote_moved(axis(keys.l, keys.j), axis(keys.i, keys.k)).remote_spun(spin).remote_tilted(
        axis(keys.bracket_left, keys.bracket_right),
        axis(keys.semicolon, keys.quote),
    ).remote_swung(keys)
}

/// With what the keyboard asks of the remote robot's gimbal, and of its speed.
pub open spec fn keyed_remote_gimbal(input: ControllerInput, keys: KeyFrame) -> ControllerInput {
    let swung = if keys.shift_left {
        input
    } else {
        input.aimed(axis(keys.c, keys.b), 0)
    };
    ControllerInput {
        boost: input.boost || keys.shift_right,
        ..swung.aimed(0, axis(keys.f, keys.v))
    }
}

impl Asked {
    /// With the spin of the controlled chassis.
    pub open spec fn spun(self, spin: ChassisSpinMode) -> Asked {
        Asked { controlled: self.controlled.turned(spin.step(), 0, 0), ..self }
    }

    /// With the spin of the remote chassis.
    pub open spec fn remote_spun(self, spin: ChassisSpinMode) -> Asked {
        Asked { remote: self.remote.turned(spin.step(), 0, 0), ..self }
    }

    /// With what the keyboard switches on the controlled robot.
    pub open spec fn triggered(self, keys: KeyFrame) -> Asked {
        Asked { controlled: keyed_switches(self.controlled, keys), ..self }
    }

    /// With what the keyboard asks of the remote robot's gimbal, and of its speed.
    pub open spec fn remote_swung(self, keys: KeyFrame) -> Asked {
        Asked { remote: keyed_remote_gimbal(self.remote, keys), ..self }
    }

    /// After a frame of the keyboard: the switches work first, and then the axes.
    pub open spec fn keyed(self, keys: KeyFrame) -> Asked {
        let asked = self.switched(keys);
        let driven = keyed_remote(
            keyed_controlled(asked, asked.controlled_chassis_spin, keys),
            asked.remote_chassis_spin,
            keys,
        );
        Asked { keyboard_auto_aim: self.keyboard_auto_aim != keys.f5_struck, ..driven }
    }

    /// With the spins that the keyboard switches, and with its text where it is in use.
    pub open spec fn switched(self, keys: KeyFrame) -> Asked {
        Asked {
            controlled_chassis_spin: if keys.q_struck {
                self.controlled_chassis_spin.other()
            } else {
                self.controlled_chassis_spin
            },
            remote_chassis_spin: if keys.u_struck {
                self.remote_chassis_spin.other()
            } else {
                self.remote_chassis_spin
            },
            active_gamepad: if keyboard_in_use(keys) {
                None
            } else {
                self.active_gamepad
            },
            help: if keyboard_in_use(keys) {
                ControllerHelp::for_keyboard()
            } else {
                self.help
            },
            ..self
        }
    }

    /// The two ask the same, but for what the axes and the robots' own switches say.
    pub open spec fn same_devices(self, other: Asked) -> bool {
        &&& self.keyboard_auto_aim == other.keyboard_auto_aim
        &&& self.controlled_chassis_spin == other.controlled_chassis_spin
        &&& self.remote_chassis_spin == other.remote_chassis_spin
        &&& self.active_gamepad == other.active_gamepad
        &&& self.help == other.help
    }
}

impl ControllerState {
    fn spin(&mut self, spin: ChassisSpinMode)
        requires
            old(self)@.wf(),
        ensures
            final(self)@.wf(),
            final(self)@ == old(self)@.spun(spin),
            final(self)@.same_devices(old(self)@),
    {
        self.controlled.add_chassis(spin.yaw_input(), 0, 0);
    }

    fn spin_remote(&mut self, spin: ChassisSpinMode)
        requires
            old(self)@.wf(),
        ensures
            final(self)@.wf(),
            final(self)@ == old(self)@.remote_spun(spin),
            final(self)@.same_devices(old(self)@),
    {
        self.remote.add_chassis(spin.yaw_input(), 0, 0);
    }

    fn trigger(&mut self, keys: &KeyFrame)
        requires
            old(self)@.wf(),
        ensures
            final(self)@.wf(),
            final(self)@ == old(self)@.triggered(*keys),
            final(self)@.same_devices(old(self)@),
    {
        self.controlled = key_switches(self.controlled, keys);
    }

    fn swing_remote(&mut self, keys: &KeyFrame)
        requires
            old(self)@.wf(),
        ensures
            final(self)@.wf(),
            final(self)@ == old(self)@.remote_swung(*keys),
            final(self)@.same_devices(old(self)@),
    {
        self.remote = key_remote_gimbal(self.remote, keys);
    }
}

fn key_controlled(controller: &mut ControllerState, spin: ChassisSpinMode, keys: &KeyFrame)
    requires
        old(controller)@.wf(),
    ensures
        final(controller)@.wf(),
        final(controller)@ == keyed_controlled(old(controller)@, spin, *keys),
        final(controller)@.same_devices(old(controller)@),
{
    controller.step_movement(keyboard_vec2(keys.w, keys.a, keys.s, keys.d));
    controller.spin(spin);
    controller.step_gimbal(
        Steps {
            x: keyboard_axis(keys.arrow_left, keys.arrow_right),
            y: keyboard_axis(keys.arrow_up, keys.arrow_down),
        },
    );
    controller.trigger(keys);
}

fn key_switches(input: ControllerInput, keys: &KeyFrame) -> (r: ControllerInput)
    ensures
        r.wf() == input.wf(),
        r == keyed_switches(input, *keys),
{
    let mut controlled = input;
    controlled.boost = controlled.boost || keys.shift_left;
    controlled.shoot = controlled.shoot || keys.space;
    controlled.dart_just_pressed = controlled.dart_just_pressed || keys.g_struck;
    controlled.switch_slapper_just_pressed = controlled.switch_slapper_just_pressed
        || keys.tab_struck;
    controlled.switch_camera_just_pressed = controlled.switch_camera_just_pressed || keys.f3_struck;
    controlled
}

fn key_remote(controller: &mut ControllerState, spin: ChassisSpinMode, keys: &KeyFrame)
    requires
        old(controller)@.wf(),
    ensures
        final(controller)@.wf(),
        final(controller)@ == keyed_remote(old(controller)@, spin, *keys),
        final(controller)@.same_devices(old(controller)@),
{
    controller.step_remote_movement(keyboard_vec2(keys.i, keys.j, keys.k, keys.l));
    controller.spin_remote(spin);
    controller.step_remote_tilt(
        keyboard_axis(keys.bracket_left, keys.bracket_right),
        keyboard_axis(keys.semicolon, keys.quote),
    );
    controller.swing_remote(keys);
}

fn key_remote_gimbal(input: ControllerInput, keys: &KeyFrame) -> (r: ControllerInput)
    requires
        input.wf(),
    ensures
        r.wf(),
        r == keyed_remote_gimbal(input, *keys),
{
    let mut remote = input;
    if !keys.shift_left {
        remote.add_gimbal(Steps { x: keyboard_axis(keys.c, keys.b), y: 0 });
    }
    remote.add_gimbal(Steps { x: 0, y: keyboard_axis(keys.f, keys.v) });
    remote.boost = remote.boost || keys.shift_right;
    remote
}

/// Takes in a frame of the keyboard.
pub fn apply_keys(keys: &KeyFrame, controller: &mut ControllerState)
    requires
        old(controller)@.wf(),
    ensures
        final(controller)@.wf(),
        final(controller)@ == old(controller)@.keyed(*keys),
{
    if keyboard_controller_active(keys) {
        controller.use_help(ControllerHelp::keyboard());
        controller.clear_gamepad();
    }
    if keys.q_struck {
        controller.toggle_controlled_chassis_spin();
    }
    if keys.u_struck {
        controller.toggle_remote_chassis_spin();
    }
    let spin = controller.controlled_chassis_spin;
    key_controlled(controller, spin, keys);
    let remote_spin = controller.remote_chassis_spin;
    key_remote(controller, remote_spin, keys);
    if keys.f5_struck {
        controller.toggle_keyboard_auto_aim();
    }
}

/// Takes in what the keyboard says in this frame.
pub fn sample_keyboard_controller(
    keyboard: &ButtonInput<KeyCode>,
    controller: &mut ControllerState,
)
    requires
        old(controller)@.wf(),
    ensures
        final(controller)@.wf(),
        final(controller)@ == old(controller)@.keyed(crate::keys::keys_of(*keyboard)),
{
    let keys = read_keys(keyboard);
    apply_keys(&keys, controller);
}

impl Asked {
    /// After a frame of the mouse buttons, of a pointer that is captured in a window that has the
    /// focus.
    pub open spec fn clicked(self, buttons: ButtonFrame) -> Asked {
        Asked {
            keyboard_auto_aim: self.keyboard_auto_aim && !buttons.right_struck,
            controlled: ControllerInput {
                auto_aim: self.controlled.auto_aim || buttons.right,
                shoot: self.controlled.shoot || buttons.left,
                ..self.controlled
            },
            ..self
        }
    }
}

/// Takes in a frame of the mouse buttons.
pub fn apply_buttons(buttons: &ButtonFrame, controller: &mut ControllerState)
    requires
        old(controller)@.wf(),
    ensures
        final(controller)@.wf(),
        final(controller)@ == old(controller)@.clicked(*buttons),
{
    if buttons.right_struck {
        controller.clear_keyboard_auto_aim();
    }
    controller.controlled.auto_aim = controller.controlled.auto_aim || buttons.right;
    controller.controlled.shoot = controller.controlled.shoot || buttons.left;
}

/// The window has the focus, or there is none that could lack it.
pub open spec fn in_focus(focused: Option<bool>) -> bool {
    focused != Some(false)
}

/// Takes in what the mouse buttons say in this frame: the left one fires and the right one aims
/// while held. Neither does where the window lacks the focus or in the frame in which the pointer is
/// given back; the buttons are then let go, since their release may never be seen. Nor does either
/// before the pointer is captured.
pub fn sample_mouse_buttons(
    mouse_button: &mut ButtonInput<MouseButton>,
    keyboard: &ButtonInput<KeyCode>,
    captured: bool,
    focused: Option<bool>,
    controller: &mut ControllerState,
)
    requires
        old(controller)@.wf(),
    ensures
        final(controller)@.wf(),
        ({
            let gone = !in_focus(focused) || crate::keys::keys_of(*keyboard).escape_struck;
            &&& gone ==> final(controller)@ == old(controller)@ && crate::keys::buttons_held(
                *final(mouse_button),
            ) == crate::keys::buttons_held(*old(mouse_button)).remove(
                crate::keys::Button::Right,
            ).remove(crate::keys::Button::Left) && crate::keys::buttons_struck(*final(mouse_button))
                == crate::keys::buttons_struck(*old(mouse_button))
            &&& !gone ==> *final(mouse_button) == *old(mouse_button)
            &&& !gone && !captured ==> final(controller)@ == old(controller)@
            &&& !gone && captured ==> final(controller)@ == old(controller)@.clicked(
                crate::keys::buttons_of(*old(mouse_button)),
            )
        }),
{
    let focused = match focused {
        Some(f) => f,
        None => true,
    };
    if !focused || read_keys(keyboard).escape_struck {
        release_buttons(mouse_button);
        return;
    }
    if !captured {
        return;
    }
    let buttons = read_buttons(mouse_button);
    apply_buttons(&buttons, controller);
}

/// Both parts are zero, of either sign.
pub open spec fn is_zero(v: [F32; 2]) -> bool {
    v[0].magnitude() == 0 && v[1].magnitude() == 0
}

fn zero2(v: &[F32; 2]) -> (r: bool)
    ensures
        r == is_zero(*v),
{
    v[0].same(F32 { bits: 0 }) && v[1].same(F32 { bits: 0 })
}

/// Decides what the mouse's motion does. `delta` is the sum of the motion in this frame. Where the
/// pointer is not captured, or the free camera has the mouse, the motion is lost and does not wait.
/// Otherwise it turns the gimbal, by the sensitivity times the factor that is returned.
pub fn sample_mouse_controller(
    mode: FollowingType,
    captured: bool,
    delta: &[F32; 2],
    controller: &mut ControllerState,
) -> (scale: Option<F32>)
    ensures
        scale is Some <==> !(mode is Free) && captured && !is_zero(*delta),
        scale is None ==> final(controller)@ == old(controller)@,
        scale matches Some(s) ==> s.bits == (if old(controller).controlled.precise_gimbal {
            PRECISE_GIMBAL_SCALE
        } else {
            ONE
        }) && final(controller)@ == (Asked {
            help: ControllerHelp::for_keyboard(),
            ..old(controller)@
        }),
{
    if mode == FollowingType::Free || !captured {
        return None;
    }
    if zero2(delta) {
        return None;
    }
    controller.use_help(ControllerHelp::keyboard());
    Some(controller.controlled.gimbal_scale())
}

/// Holding the right button aims, and letting it go always returns to manual: striking it takes over
/// from the switch, so that what the switch said before does not outlast the hold.
pub proof fn law_letting_the_right_button_go_returns_to_manual(
    asked: Asked,
    down: ButtonFrame,
    up: ButtonFrame,
)
    requires
        down.right && down.right_struck,
        !up.right,
    ensures
        asked.clicked(down).auto_aim(),
        !asked.clicked(down).reset().clicked(up).auto_aim(),
{
}

/// At the start of a frame nothing is asked but what the switch of automatic aim says; what is
/// switched on, the device in use and its text stay.
pub proof fn law_a_frame_starts_clean(asked: Asked)
    ensures
        asked.reset().wf(),
        !asked.reset().controlled.shoot && !asked.reset().controlled.auto_aim,
        asked.reset().analog.len() == 0,
        asked.reset().auto_aim() == asked.keyboard_auto_aim,
        asked.reset().controlled_chassis_spin == asked.controlled_chassis_spin,
        asked.reset().remote_chassis_spin == asked.remote_chassis_spin,
        asked.reset().active_gamepad == asked.active_gamepad,
        asked.reset().help == asked.help,
        asked.reset().reset() == asked.reset(),
{
}

/// Working a switch twice leaves it as it was.
pub proof fn law_switches_work_both_ways(asked: Asked, keys: KeyFrame)
    ensures
        asked.keyed(keys).reset().keyed(keys).keyboard_auto_aim == asked.keyboard_auto_aim,
        asked.keyed(keys).reset().keyed(keys).controlled_chassis_spin
            == asked.controlled_chassis_spin,
        asked.keyed(keys).reset().keyed(keys).remote_chassis_spin == asked.remote_chassis_spin,
{
    lemma_keys_keep_the_switches(asked, keys);
    lemma_keys_keep_the_switches(asked.keyed(keys).reset(), keys);
}

/// What the keyboard asks of the axes leaves the spins as they were switched.
proof fn lemma_keys_keep_the_switches(asked: Asked, keys: KeyFrame)
    ensures
        asked.keyed(keys).controlled_chassis_spin == asked.switched(keys).controlled_chassis_spin,
        asked.keyed(keys).remote_chassis_spin == asked.switched(keys).remote_chassis_spin,
{
}

/// Opposite keys cancel, and keys across each other do not slow each other down.
pub proof fn law_each_axis_is_on_its_own(asked: Asked, keys: KeyFrame, spin: ChassisSpinMode)
    ensures
        ({
            let input = keyed_controlled(asked.reset(), spin, keys).controlled;
            &&& input.movement.y == (if keys.w == keys.s {
                0int
            } else if keys.w {
                1int
            } else {
                -1int
            })
            &&& input.movement.x == (if keys.d == keys.a {
                0int
            } else if keys.d {
                1int
            } else {
                -1int
            })
            &&& input.chassis_yaw == spin.step()
        }),
{
}

/// A share that comes last begins no axis but its own.
proof fn lemma_begun_push(analog: Seq<AnalogShare>, share: AnalogShare, axis: AnalogAxis)
    ensures
        begun(analog.push(share), axis) == (begun(analog, axis) || share.on() == axis),
{
    let more = analog.push(share);
    assert(more[analog.len() as int] == share);
    if begun(analog, axis) {
        let i = choose|i: int| 0 <= i < analog.len() && (#[trigger] analog[i]).on() == axis;
        assert(more[i] == analog[i]);
    }
    if begun(more, axis) {
        let i = choose|i: int| 0 <= i < more.len() && (#[trigger] more[i]).on() == axis;
        if i < analog.len() {
            assert(more[i] == analog[i]);
        }
    }
}

/// The shares that a frame of the keyboard adds to the controlled robot: one for each axis that a
/// stick has begun.
pub open spec fn controlled_shares(analog: Seq<AnalogShare>, keys: KeyFrame) -> Seq<AnalogShare> {
    (if begun(analog, AnalogAxis::Movement) {
        seq![
            AnalogShare::Movement([whole(axis(keys.d, keys.a)), whole(axis(keys.w, keys.s))]),
        ]
    } else {
        seq![]
    }) + (if begun(analog, AnalogAxis::Gimbal) {
        seq![
            AnalogShare::Gimbal(
                [
                    whole(axis(keys.arrow_left, keys.arrow_right)),
                    whole(axis(keys.arrow_up, keys.arrow_down)),
                ],
            ),
        ]
    } else {
        seq![]
    })
}

/// The shares that a frame of the keyboard adds to the remote robot.
pub open spec fn remote_shares(analog: Seq<AnalogShare>, keys: KeyFrame) -> Seq<AnalogShare> {
    (if begun(analog, AnalogAxis::RemoteMovement) {
        seq![
            AnalogShare::RemoteMovement(
                [whole(axis(keys.l, keys.j)), whole(axis(keys.i, keys.k))],
            ),
        ]
    } else {
        seq![]
    }) + (if begun(analog, AnalogAxis::RemoteTilt) {
        seq![
            AnalogShare::RemoteTilt(
                [
                    whole(axis(keys.bracket_left, keys.bracket_right)),
                    whole(axis(keys.semicolon, keys.quote)),
                ],
            ),
        ]
    } else {
        seq![]
    })
}

proof fn lemma_controlled_shares(asked: Asked, spin: ChassisSpinMode, keys: KeyFrame)
    requires
        asked.wf(),
    ensures
        ({
            let after = keyed_controlled(asked, spin, keys);
            &&& after.analog == asked.analog + controlled_shares(asked.analog, keys)
            &&& after.remote == asked.remote
            &&& begun(after.analog, AnalogAxis::RemoteMovement) == begun(
                asked.analog,
                AnalogAxis::RemoteMovement,
            )
            &&& begun(after.analog, AnalogAxis::RemoteTilt) == begun(
                asked.analog,
                AnalogAxis::RemoteTilt,
            )
            &&& begun(asked.analog, AnalogAxis::Movement) ==> after.controlled.movement
                == asked.controlled.movement
            &&& begun(asked.analog, AnalogAxis::Gimbal) ==> after.controlled.gimbal
                == asked.controlled.gimbal
        }),
{
    let first = AnalogShare::Movement([whole(axis(keys.d, keys.a)), whole(axis(keys.w, keys.s))]);
    let second = AnalogShare::Gimbal(
        [
            whole(axis(keys.arrow_left, keys.arrow_right)),
            whole(axis(keys.arrow_up, keys.arrow_down)),
        ],
    );
    let driven = asked.moved(axis(keys.d, keys.a), axis(keys.w, keys.s));
    lemma_begun_push(asked.analog, first, AnalogAxis::Gimbal);
    lemma_begun_push(asked.analog, first, AnalogAxis::RemoteMovement);
    lemma_begun_push(asked.analog, first, AnalogAxis::RemoteTilt);
    lemma_begun_push(driven.analog, second, AnalogAxis::RemoteMovement);
    lemma_begun_push(driven.analog, second, AnalogAxis::RemoteTilt);
    assert(keyed_controlled(asked, spin, keys).analog =~= asked.analog + controlled_shares(
        asked.analog,
        keys,
    ));
}

proof fn lemma_remote_shares(asked: Asked, spin: ChassisSpinMode, keys: KeyFrame)
    requires
        asked.remote.wf(),
    ensures
        ({
            let after = keyed_remote(asked, spin, keys);
            &&& after.analog == asked.analog + remote_shares(asked.analog, keys)
            &&& after.controlled == asked.controlled
            &&& begun(asked.analog, AnalogAxis::RemoteMovement) ==> after.remote.movement
                == asked.remote.movement
            &&& begun(asked.analog, AnalogAxis::RemoteTilt) ==> after.remote.chassis_roll
                == asked.remote.chassis_roll && after.remote.chassis_pitch
                == asked.remote.chassis_pitch
        }),
{
    let first = AnalogShare::RemoteMovement(
        [whole(axis(keys.l, keys.j)), whole(axis(keys.i, keys.k))],
    );
    lemma_begun_push(asked.analog, first, AnalogAxis::RemoteTilt);
    assert(keyed_remote(asked, spin, keys).analog =~= asked.analog + remote_shares(
        asked.analog,
        keys,
    ));
}

/// What is added to an axis keeps its order: what a frame of the keyboard adds to an axis that a
/// stick has begun comes behind all that is there, and the steps that the axis began with stay.
pub proof fn law_shares_keep_their_order(asked: Asked, keys: KeyFrame)
    requires
        asked.wf(),
    ensures
        asked.keyed(keys).analog == asked.analog + controlled_shares(asked.analog, keys)
            + remote_shares(asked.analog, keys),
        begun(asked.analog, AnalogAxis::Movement) ==> asked.keyed(keys).controlled.movement
            == asked.controlled.movement,
        begun(asked.analog, AnalogAxis::Gimbal) ==> asked.keyed(keys).controlled.gimbal
            == asked.controlled.gimbal,
        begun(asked.analog, AnalogAxis::RemoteMovement) ==> asked.keyed(keys).remote.movement
            == asked.remote.movement,
        begun(asked.analog, AnalogAxis::RemoteTilt) ==> asked.keyed(keys).remote.chassis_roll
            == asked.remote.chassis_roll && asked.keyed(keys).remote.chassis_pitch
            == asked.remote.chassis_pitch,
{
    let switched = asked.switched(keys);
    let driven = keyed_controlled(switched, switched.controlled_chassis_spin, keys);
    lemma_controlled_shares(switched, switched.controlled_chassis_spin, keys);
    lemma_remote_shares(driven, switched.remote_chassis_spin, keys);
}

/// However often steps are added, no axis is moved by more than one.
pub proof fn law_steps_saturate(input: ControllerInput, x: int, y: int)
    ensures
        within(input.moved(x, y).movement.x) && within(input.moved(x, y).movement.y),
        within(input.aimed(x, y).gimbal.x) && within(input.aimed(x, y).gimbal.y),
        input.movement.x == 1 && x >= 0 ==> input.moved(x, y).movement.x == 1,
        input.movement.y == 1 && y >= 0 ==> input.moved(x, y).movement.y == 1,
{
}

/// What a pair of opposite keys asks of an axis: a step towards the one that is held alone.
pub open spec fn towards(positive: bool, negative: bool) -> int {
    if positive && !negative {
        1
    } else if negative && !positive {
        -1
    } else {
        0
    }
}

/// What each key does to the controlled robot in a frame. From a clean start the robot fires
/// exactly while space is held, runs exactly while the left shift is, launches a dart exactly where
/// G was struck, slaps exactly where tab was and changes the view exactly where F3 was, whatever
/// the other keys are; it moves and aims towards the keys that are held; and it spins where its
/// spin is switched on.
pub proof fn law_each_key_does_its_own_on_the_controlled_robot(asked: Asked, keys: KeyFrame)
    ensures
        ({
            let input = asked.reset().keyed(keys).controlled;
            &&& input.shoot <==> keys.space
            &&& input.boost <==> keys.shift_left
            &&& input.dart_just_pressed <==> keys.g_struck
            &&& input.switch_slapper_just_pressed <==> keys.tab_struck
            &&& input.switch_camera_just_pressed <==> keys.f3_struck
            &&& !input.precise_gimbal
            &&& !input.auto_aim
            &&& input.movement.x == towards(keys.d, keys.a)
            &&& input.movement.y == towards(keys.w, keys.s)
            &&& input.gimbal.x == towards(keys.arrow_left, keys.arrow_right)
            &&& input.gimbal.y == towards(keys.arrow_up, keys.arrow_down)
            &&& input.chassis_yaw == (if (asked.controlled_chassis_spin is On) != keys.q_struck {
                1int
            } else {
                0int
            })
            &&& input.chassis_roll == 0
            &&& input.chassis_pitch == 0
        }),
{
}

/// What each key does to the remote robot in a frame, from a clean start. It never fires; it runs
/// exactly while the right shift is held; it moves, tilts and aims towards the keys that are held,
/// except that it does not swing sideways while the left shift is; and it spins where its spin is
/// switched on.
pub proof fn law_each_key_does_its_own_on_the_remote_robot(asked: Asked, keys: KeyFrame)
    ensures
        ({
            let input = asked.reset().keyed(keys).remote;
            &&& !input.shoot && !input.dart_just_pressed && !input.switch_slapper_just_pressed
            &&& !input.switch_camera_just_pressed && !input.precise_gimbal && !input.auto_aim
            &&& input.boost <==> keys.shift_right
            &&& input.movement.x == towards(keys.l, keys.j)
            &&& input.movement.y == towards(keys.i, keys.k)
            &&& input.chassis_roll == towards(keys.bracket_left, keys.bracket_right)
            &&& input.chassis_pitch == towards(keys.semicolon, keys.quote)
            &&& input.gimbal.x == (if keys.shift_left {
                0
            } else {
                towards(keys.c, keys.b)
            })
            &&& input.gimbal.y == towards(keys.f, keys.v)
            &&& input.chassis_yaw == (if (asked.remote_chassis_spin is On) != keys.u_struck {
                1int
            } else {
                0int
            })
        }),
{
}

/// What the keyboard adds to what was asked before in the same frame: what was asked stays asked.
pub proof fn law_keys_take_nothing_back(asked: Asked, keys: KeyFrame)
    ensures
        ({
            let (was, now) = (asked.controlled, asked.keyed(keys).controlled);
            &&& now.shoot <==> was.shoot || keys.space
            &&& now.boost <==> was.boost || keys.shift_left
            &&& now.dart_just_pressed <==> was.dart_just_pressed || keys.g_struck
            &&& now.switch_slapper_just_pressed <==> was.switch_slapper_just_pressed
                || keys.tab_struck
            &&& now.switch_camera_just_pressed <==> was.switch_camera_just_pressed || keys.f3_struck
            &&& now.precise_gimbal == was.precise_gimbal
            &&& now.auto_aim == was.auto_aim
        }),
        ({
            let (was, now) = (asked.remote, asked.keyed(keys).remote);
            &&& now.boost <==> was.boost || keys.shift_right
            &&& now.shoot == was.shoot
            &&& now.auto_aim == was.auto_aim
            &&& now.precise_gimbal == was.precise_gimbal
            &&& now.dart_just_pressed == was.dart_just_pressed
            &&& now.switch_slapper_just_pressed == was.switch_slapper_just_pressed
            &&& now.switch_camera_just_pressed == was.switch_camera_just_pressed
        }),
{
}

/// What the keyboard switches. F5 works the switch of automatic aim, Q and U the spins. Any key
/// that steers brings up the keyboard's text and puts the gamepad away; other keys leave both.
pub proof fn law_keys_switch_what_they_should(asked: Asked, keys: KeyFrame)
    ensures
        ({
            let after = asked.keyed(keys);
            let steers = keys.w || keys.a || keys.s || keys.d || keys.arrow_left || keys.arrow_right
                || keys.arrow_up || keys.arrow_down || keys.shift_left || keys.space || keys.i
                || keys.j || keys.k || keys.l || keys.bracket_left || keys.bracket_right
                || keys.semicolon || keys.quote || keys.c || keys.b || keys.f || keys.v
                || keys.g_struck || keys.tab_struck || keys.f3_struck || keys.f5_struck
                || keys.q_struck || keys.u_struck;
            &&& after.keyboard_auto_aim <==> asked.keyboard_auto_aim != keys.f5_struck
            &&& after.controlled_chassis_spin is On <==> (asked.controlled_chassis_spin is On)
                != keys.q_struck
            &&& after.remote_chassis_spin is On <==> (asked.remote_chassis_spin is On)
                != keys.u_struck
            &&& steers ==> after.help == ControllerHelp::for_keyboard() && after.active_gamepad is None
            &&& !steers ==> after.help == asked.help && after.active_gamepad == asked.active_gamepad
        }),
{
}

/// What the mouse buttons do: the left one fires and the right one aims while held, striking the
/// right one works the switch of automatic aim off, and nothing else changes.
pub proof fn law_each_button_does_its_own(asked: Asked, buttons: ButtonFrame)
    ensures
        ({
            let after = asked.clicked(buttons);
            &&& after.controlled.shoot <==> asked.controlled.shoot || buttons.left
            &&& after.controlled.auto_aim <==> asked.controlled.auto_aim || buttons.right
            &&& after.keyboard_auto_aim <==> asked.keyboard_auto_aim && !buttons.right_struck
            &&& after.controlled.movement == asked.controlled.movement
            &&& after.controlled.gimbal == asked.controlled.gimbal
            &&& after.controlled.chassis_yaw == asked.controlled.chassis_yaw
            &&& after.controlled.chassis_roll == asked.controlled.chassis_roll
            &&& after.controlled.chassis_pitch == asked.controlled.chassis_pitch
            &&& after.controlled.boost == asked.controlled.boost
            &&& after.controlled.precise_gimbal == asked.controlled.precise_gimbal
            &&& after.controlled.dart_just_pressed == asked.controlled.dart_just_pressed
            &&& after.controlled.switch_slapper_just_pressed
                == asked.controlled.switch_slapper_just_pressed
            &&& after.controlled.switch_camera_just_pressed
                == asked.controlled.switch_camera_just_pressed
            &&& after.remote == asked.remote
            &&& after.analog == asked.analog
            &&& after.controlled_chassis_spin == asked.controlled_chassis_spin
            &&& after.remote_chassis_spin == asked.remote_chassis_spin
            &&& after.active_gamepad == asked.active_gamepad
            &&& after.help == asked.help
        }),
        asked.auto_aim() <==> asked.keyboard_auto_aim || asked.controlled.auto_aim,
{
}

/// Steps add up on each axis, one step either way at most, and what they are not added to stays as
/// it is.
pub proof fn law_steps_add_up(input: ControllerInput, x: int, y: int, z: int)
    requires
        input.wf(),
        -1 <= x <= 1,
        -1 <= y <= 1,
        -1 <= z <= 1,
    ensures
        ({
            let moved = input.moved(x, y);
            let aimed = input.aimed(x, y);
            let turned = input.turned(x, y, z);
            &&& -1 <= input.movement.x + x <= 1 ==> moved.movement.x == input.movement.x + x
            &&& -1 <= input.movement.y + y <= 1 ==> moved.movement.y == input.movement.y + y
            &&& input.movement.x + x > 1 ==> moved.movement.x == 1
            &&& input.movement.y + y > 1 ==> moved.movement.y == 1
            &&& input.movement.x + x < -1 ==> moved.movement.x == -1
            &&& input.movement.y + y < -1 ==> moved.movement.y == -1
            &&& -1 <= input.gimbal.x + x <= 1 ==> aimed.gimbal.x == input.gimbal.x + x
            &&& -1 <= input.gimbal.y + y <= 1 ==> aimed.gimbal.y == input.gimbal.y + y
            &&& input.gimbal.x + x > 1 ==> aimed.gimbal.x == 1
            &&& input.gimbal.y + y > 1 ==> aimed.gimbal.y == 1
            &&& input.gimbal.x + x < -1 ==> aimed.gimbal.x == -1
            &&& input.gimbal.y + y < -1 ==> aimed.gimbal.y == -1
            &&& -1 <= input.chassis_yaw + x <= 1 ==> turned.chassis_yaw == input.chassis_yaw + x
            &&& -1 <= input.chassis_roll + y <= 1 ==> turned.chassis_roll == input.chassis_roll + y
            &&& -1 <= input.chassis_pitch + z <= 1 ==> turned.chassis_pitch == input.chassis_pitch
                + z
            &&& moved.gimbal == input.gimbal && moved.chassis_yaw == input.chassis_yaw
            &&& moved.chassis_roll == input.chassis_roll && moved.chassis_pitch
                == input.chassis_pitch
            &&& aimed.movement == input.movement && aimed.chassis_yaw == input.chassis_yaw
            &&& aimed.chassis_roll == input.chassis_roll && aimed.chassis_pitch
                == input.chassis_pitch
            &&& turned.movement == input.movement && turned.gimbal == input.gimbal
            &&& turned.chassis_yaw == clipped(input.chassis_yaw + x)
            &&& turned.chassis_roll == clipped(input.chassis_roll + y)
            &&& turned.chassis_pitch == clipped(input.chassis_pitch + z)
            &&& same_switches(moved, input)
            &&& same_switches(aimed, input)
            &&& same_switches(turned, input)
        }),
{
}

/// A number held to one either way.
pub open spec fn clipped(n: int) -> int {
    if n >= 1 {
        1
    } else if n <= -1 {
        -1
    } else {
        0
    }
}

/// The same of everything that is asked or not.
pub open spec fn same_switches(one: ControllerInput, other: ControllerInput) -> bool {
    &&& one.boost == other.boost
    &&& one.precise_gimbal == other.precise_gimbal
    &&& one.shoot == other.shoot
    &&& one.dart_just_pressed == other.dart_just_pressed
    &&& one.switch_slapper_just_pressed == other.switch_slapper_just_pressed
    &&& one.switch_camera_just_pressed == other.switch_camera_just_pressed
    &&& one.auto_aim == other.auto_aim
}

/// A frame of the keyboard asks the controlled robot to move, to spin and to aim, each by its own
/// keys and on top of what was asked before in the same frame.
pub proof fn law_the_keyboard_adds_to_the_controlled_robot(asked: Asked, keys: KeyFrame)
    requires
        asked.wf(),
    ensures
        ({
            let switched = asked.switched(keys);
            let driven = switched.moved(axis(keys.d, keys.a), axis(keys.w, keys.s)).spun(
                switched.controlled_chassis_spin,
            ).aimed(
                axis(keys.arrow_left, keys.arrow_right),
                axis(keys.arrow_up, keys.arrow_down),
            ).controlled;
            let now = asked.keyed(keys).controlled;
            &&& now.movement == driven.movement
            &&& now.gimbal == driven.gimbal
            &&& now.chassis_yaw == driven.chassis_yaw
            &&& now.chassis_roll == driven.chassis_roll
            &&& now.chassis_pitch == driven.chassis_pitch
        }),
{
    let switched = asked.switched(keys);
    let driven = keyed_controlled(switched, switched.controlled_chassis_spin, keys);
    lemma_remote_shares(driven, switched.remote_chassis_spin, keys);
}

/// A frame of the keyboard asks the remote robot to move, to spin, to tilt and to swing, each by
/// its own keys and on top of what was asked before in the same frame.
pub proof fn law_the_keyboard_adds_to_the_remote_robot(asked: Asked, keys: KeyFrame)
    requires
        asked.wf(),
    ensures
        ({
            let switched = asked.switched(keys);
            let driven = keyed_controlled(switched, switched.controlled_chassis_spin, keys);
            let moved = driven.remote_moved(axis(keys.l, keys.j), axis(keys.i, keys.k)).remote_spun(
                switched.remote_chassis_spin,
            ).remote_tilted(
                axis(keys.bracket_left, keys.bracket_right),
                axis(keys.semicolon, keys.quote),
            ).remote;
            let now = asked.keyed(keys).remote;
            &&& driven.remote == asked.remote
            &&& begun(driven.analog, AnalogAxis::RemoteMovement) == begun(
                asked.analog,
                AnalogAxis::RemoteMovement,
            )
            &&& begun(driven.analog, AnalogAxis::RemoteTilt) == begun(
                asked.analog,
                AnalogAxis::RemoteTilt,
            )
            &&& now.movement == moved.movement
            &&& now.chassis_yaw == moved.chassis_yaw
            &&& now.chassis_roll == moved.chassis_roll
            &&& now.chassis_pitch == moved.chassis_pitch
            &&& now.gimbal == keyed_remote_gimbal(moved, keys).gimbal
        }),
{
    let switched = asked.switched(keys);
    lemma_controlled_shares(switched, switched.controlled_chassis_spin, keys);
}

/// A pair of opposite keys asks for a step towards the one that is held alone.
pub proof fn law_opposite_keys_cancel(positive: bool, negative: bool)
    ensures
        axis(positive, negative) == towards(positive, negative),
{
}

/// What steps do to the controlled robot: on axes that no stick has begun they are added, each on
/// its own, and a spin adds one step of yaw.
pub proof fn law_steps_are_added_on_the_controlled_robot(
    asked: Asked,
    x: int,
    y: int,
    spin: ChassisSpinMode,
    u: int,
    v: int,
)
    requires
        asked.wf(),
    ensures
        ({
            let was = asked.controlled;
            let now = asked.moved(x, y).spun(spin).aimed(u, v).controlled;
            &&& !begun(asked.analog, AnalogAxis::Movement) ==> now.movement == was.moved(
                x,
                y,
            ).movement
            &&& !begun(asked.analog, AnalogAxis::Gimbal) ==> now.gimbal == was.aimed(u, v).gimbal
            &&& now.chassis_yaw == was.turned(towards(spin is On, false), 0, 0).chassis_yaw
            &&& now.chassis_roll == was.chassis_roll
            &&& now.chassis_pitch == was.chassis_pitch
        }),
{
    lemma_begun_push(
        asked.analog,
        AnalogShare::Movement([whole(x), whole(y)]),
        AnalogAxis::Gimbal,
    );
}

/// What steps do to the remote robot: on axes that no stick has begun they are added, each on its
/// own, and a spin adds one step of yaw.
pub proof fn law_steps_are_added_on_the_remote_robot(
    asked: Asked,
    x: int,
    y: int,
    spin: ChassisSpinMode,
    roll: int,
    pitch: int,
)
    requires
        asked.remote.wf(),
    ensures
        ({
            let was = asked.remote;
            let now = asked.remote_moved(x, y).remote_spun(spin).remote_tilted(roll, pitch).remote;
            let turned = was.turned(0, roll, pitch);
            &&& !begun(asked.analog, AnalogAxis::RemoteMovement) ==> now.movement == was.moved(
                x,
                y,
            ).movement
            &&& !begun(asked.analog, AnalogAxis::RemoteTilt) ==> now.chassis_roll
                == turned.chassis_roll && now.chassis_pitch == turned.chassis_pitch
            &&& now.chassis_yaw == was.turned(towards(spin is On, false), 0, 0).chassis_yaw
            &&& now.gimbal == was.gimbal
        }),
{
    lemma_begun_push(
        asked.analog,
        AnalogShare::RemoteMovement([whole(x), whole(y)]),
        AnalogAxis::RemoteTilt,
    );
}

/// What the keys do to the gimbal of the remote robot: it swings towards the keys that are held,
/// but not sideways while the left shift is.
pub proof fn law_keys_swing_the_remote_gimbal(was: ControllerInput, keys: KeyFrame)
    requires
        within(was.gimbal.x),
        within(was.gimbal.y),
    ensures
        ({
            let now = keyed_remote_gimbal(was, keys);
            &&& now.gimbal == was.aimed(
                if keys.shift_left {
                    0
                } else {
                    towards(keys.c, keys.b)
                },
                towards(keys.f, keys.v),
            ).gimbal
            &&& now.movement == was.movement
            &&& now.chassis_yaw == was.chassis_yaw
            &&& now.chassis_roll == was.chassis_roll
            &&& now.chassis_pitch == was.chassis_pitch
        }),
{
}

/// The numbers that steps become behind a stick: one, minus one and zero.
pub proof fn law_steps_are_whole_numbers(step: int)
    requires
        -1 <= step <= 1,
    ensures
        whole(step).bits == (if step == 1 {
            0x3f80_0000int
        } else if step == -1 {
            0xbf80_0000int
        } else {
            0int
        }),
{
}

/// The texts of the two devices, and what is asked at the start.
pub proof fn law_devices_have_their_own_texts()
    ensures
        ControllerHelp::for_keyboard().source == KEYBOARD_SOURCE,
        ControllerHelp::for_keyboard().manual == KEYBOARD_MANUAL,
        ControllerHelp::for_keyboard().auto_aim == KEYBOARD_AUTO_AIM,
        ControllerHelp::for_xbox().source == XBOX_SOURCE,
        ControllerHelp::for_xbox().manual == XBOX_MANUAL,
        ControllerHelp::for_xbox().auto_aim == XBOX_AUTO_AIM,
{
}

/// Motion counts as none exactly where both its parts are zero, of either sign.
pub proof fn law_motion_that_is_none(v: [F32; 2])
    ensures
        is_zero(v) <==> (v[0].bits == 0 || v[0].bits == 0x8000_0000) && (v[1].bits == 0 || v[1].bits
            == 0x8000_0000),
        in_focus(None),
        in_focus(Some(true)),
        !in_focus(Some(false)),
{
}

/// What a frame of keys does: it asks what `keyed` says, on which the laws above hold; in
/// particular the controlled robot fires exactly where it was asked before or space is held.
pub proof fn law_calls_of_apply_keys(keys: KeyFrame, controller: &mut ControllerState, r: ())
    requires
        call_ensures(apply_keys, (&keys, controller), r),
    ensures
        final(controller)@ == old(controller)@.keyed(keys),
        final(controller)@.controlled.shoot <==> old(controller)@.controlled.shoot || keys.space,
        final(controller)@.controlled.dart_just_pressed <==> old(
            controller,
        )@.controlled.dart_just_pressed || keys.g_struck,
        final(controller)@.controlled.boost <==> old(controller)@.controlled.boost
            || keys.shift_left,
        final(controller)@.keyboard_auto_aim <==> old(controller)@.keyboard_auto_aim
            != keys.f5_struck,
        final(controller)@.remote.shoot == old(controller)@.remote.shoot,
{
    law_keys_take_nothing_back(old(controller)@, keys);
    law_keys_switch_what_they_should(old(controller)@, keys);
}

/// What the keyboard does in a frame is what its keys do.
pub proof fn law_calls_of_sample_keyboard_controller(
    keyboard: ButtonInput<KeyCode>,
    controller: &mut ControllerState,
    r: (),
)
    requires
        call_ensures(sample_keyboard_controller, (&keyboard, controller), r),
    ensures
        final(controller)@ == old(controller)@.keyed(crate::keys::keys_of(keyboard)),
        final(controller)@.controlled.shoot <==> old(controller)@.controlled.shoot
            || crate::keys::keys_held(keyboard).contains(
            crate::keys::Held::Control(crate::keys::Control::Space),
        ),
{
    law_keys_take_nothing_back(old(controller)@, crate::keys::keys_of(keyboard));
}

/// What mouse buttons do: the left one fires and the right one aims while held, and striking the
/// right one works the switch of automatic aim off.
pub proof fn law_calls_of_apply_buttons(
    buttons: ButtonFrame,
    controller: &mut ControllerState,
    r: (),
)
    requires
        call_ensures(apply_buttons, (&buttons, controller), r),
    ensures
        ({
            let (was, now) = (old(controller)@, final(controller)@);
            &&& now.controlled.shoot <==> was.controlled.shoot || buttons.left
            &&& now.controlled.auto_aim <==> was.controlled.auto_aim || buttons.right
            &&& now.keyboard_auto_aim <==> was.keyboard_auto_aim && !buttons.right_struck
            &&& now.controlled.movement == was.controlled.movement
            &&& now.controlled.gimbal == was.controlled.gimbal
            &&& now.remote == was.remote
            &&& now.analog == was.analog
            &&& now.help == was.help
        }),
{
}

/// The mouse buttons count exactly where the pointer is captured, the window is in focus and Escape
/// was not struck. Out of focus, or on Escape, both are let go and nothing is asked.
pub proof fn law_calls_of_sample_mouse_buttons(
    mouse: &mut ButtonInput<MouseButton>,
    keyboard: ButtonInput<KeyCode>,
    captured: bool,
    focused: Option<bool>,
    controller: &mut ControllerState,
    r: (),
)
    requires
        call_ensures(sample_mouse_buttons, (mouse, &keyboard, captured, focused, controller), r),
    ensures
        ({
            let gone = focused == Some(false) || crate::keys::keys_struck(keyboard).contains(
                crate::keys::Strike::Escape,
            );
            let held = crate::keys::buttons_held(*old(mouse));
            &&& gone || !captured ==> final(controller)@ == old(controller)@
            &&& gone ==> !crate::keys::buttons_held(*final(mouse)).contains(
                crate::keys::Button::Left,
            ) && !crate::keys::buttons_held(*final(mouse)).contains(crate::keys::Button::Right)
            &&& !gone ==> *final(mouse) == *old(mouse)
            &&& !gone && captured ==> {
                &&& final(controller)@.controlled.shoot <==> old(controller)@.controlled.shoot
                    || held.contains(crate::keys::Button::Left)
                &&& final(controller)@.controlled.auto_aim <==> old(controller)@.controlled.auto_aim
                    || held.contains(crate::keys::Button::Right)
            }
        }),
{
}

/// The mouse aims exactly where the view is not free, the pointer is captured and the mouse moved;
/// it then brings the keyboard's text up, and aims finely where that is asked.
pub proof fn law_calls_of_sample_mouse_controller(
    mode: FollowingType,
    captured: bool,
    delta: [F32; 2],
    controller: &mut ControllerState,
    scale: Option<F32>,
)
    requires
        call_ensures(sample_mouse_controller, (mode, captured, &delta, controller), scale),
    ensures
        scale is Some <==> !(mode is Free) && captured && !(delta[0].bits % 0x8000_0000 == 0
            && delta[1].bits % 0x8000_0000 == 0),
        scale is None ==> final(controller)@ == old(controller)@,
        scale is Some ==> {
            &&& final(controller)@.help == ControllerHelp::for_keyboard()
            &&& final(controller)@.controlled == old(controller)@.controlled
            &&& final(controller)@.remote == old(controller)@.remote
            &&& final(controller)@.analog == old(controller)@.analog
            &&& scale->0.bits == 0x3f80_0000 <==> !old(controller).controlled.precise_gimbal
            &&& scale->0.bits == 0x3eb3_3333 <==> old(controller).controlled.precise_gimbal
        },
{
}

/// A frame starts with nothing asked, and keeps what was switched.
pub proof fn law_calls_of_the_clean_start(
    one: &mut ControllerState,
    other: &mut ControllerState,
    r: (),
)
    requires
        call_ensures(ControllerState::reset_frame, (one,), r),
        call_ensures(clear_controller_input, (other,), r),
        old(one)@ == old(other)@,
    ensures
        final(one)@ == final(other)@,
        !final(one)@.controlled.shoot && !final(one)@.controlled.auto_aim,
        final(one)@.controlled.movement.x == 0 && final(one)@.controlled.movement.y == 0,
        final(one)@.remote.movement.x == 0 && final(one)@.remote.movement.y == 0,
        final(one)@.analog.len() == 0,
        final(one)@.keyboard_auto_aim == old(one)@.keyboard_auto_aim,
        final(one)@.controlled_chassis_spin == old(one)@.controlled_chassis_spin,
        final(one)@.remote_chassis_spin == old(one)@.remote_chassis_spin,
        final(one)@.active_gamepad == old(one)@.active_gamepad,
        final(one)@.help == old(one)@.help,
{
}

/// What is asked of a robot beyond steps: it runs at double speed, aims finely at a fraction, and
/// its spin is a step of yaw.
pub proof fn law_calls_of_the_scales(
    input: ControllerInput,
    boost: F32,
    scale: F32,
    spin: ChassisSpinMode,
    yaw: i8,
    on: bool,
    positive: bool,
    negative: bool,
    step: i8,
)
    requires
        call_ensures(ControllerInput::boost_multiplier, (input,), boost),
        call_ensures(ControllerInput::gimbal_scale, (input,), scale),
        call_ensures(ChassisSpinMode::yaw_input, (spin,), yaw),
        call_ensures(ChassisSpinMode::is_on, (spin,), on),
        call_ensures(keyboard_axis, (positive, negative), step),
    ensures
        boost.bits == (if input.boost {
            0x4000_0000int
        } else {
            0x3f80_0000
        }),
        !input.precise_gimbal ==> scale.bits == 0x3f80_0000,
        input.precise_gimbal ==> scale.bits == 0x3eb3_3333,
        yaw == (if spin is On {
            1int
        } else {
            0int
        }),
        on <==> spin is On,
        step == towards(positive, negative),
{
}

/// The switches work both ways, each on its own and nothing else.
pub proof fn law_calls_of_the_switches(
    aim: &mut ControllerState,
    spin: &mut ControllerState,
    remote: &mut ControllerState,
    off: &mut ControllerState,
    mode: &mut ChassisSpinMode,
    r: (),
)
    requires
        call_ensures(ControllerState::toggle_keyboard_auto_aim, (aim,), r),
        call_ensures(ControllerState::toggle_controlled_chassis_spin, (spin,), r),
        call_ensures(ControllerState::toggle_remote_chassis_spin, (remote,), r),
        call_ensures(ControllerState::clear_keyboard_auto_aim, (off,), r),
        call_ensures(ChassisSpinMode::toggle, (mode,), r),
    ensures
        final(aim)@.keyboard_auto_aim != old(aim)@.keyboard_auto_aim,
        final(aim)@ == (Asked {
            keyboard_auto_aim: final(aim)@.keyboard_auto_aim,
            ..old(aim)@
        }),
        final(spin)@.controlled_chassis_spin is On <==> !(old(
            spin,
        )@.controlled_chassis_spin is On),
        final(spin)@.remote_chassis_spin == old(spin)@.remote_chassis_spin,
        final(remote)@.remote_chassis_spin is On <==> !(old(remote)@.remote_chassis_spin is On),
        final(remote)@.controlled_chassis_spin == old(remote)@.controlled_chassis_spin,
        !final(off)@.keyboard_auto_aim,
        final(off)@.controlled == old(off)@.controlled,
        *final(mode) is On <==> !(*old(mode) is On),
{
}

/// What the texts say of the controller, and who has it.
pub proof fn law_calls_of_the_answers(
    controller: ControllerState,
    auto_aim: bool,
    active: bool,
    source: &'static str,
    mode: &'static str,
    controls: &'static str,
    gamepad: Option<u64>,
)
    requires
        call_ensures(ControllerState::auto_aim_active, (&controller,), active),
        call_ensures(ControllerState::help_source, (&controller,), source),
        call_ensures(ControllerState::help_mode, (&controller, auto_aim), mode),
        call_ensures(ControllerState::help_controls, (&controller, auto_aim), controls),
        call_ensures(ControllerState::active_gamepad, (&controller,), gamepad),
    ensures
        active <==> controller.keyboard_auto_aim || controller.controlled.auto_aim,
        source == controller.help.source,
        auto_aim ==> mode == MODE_AUTO_AIM && controls == controller.help.auto_aim,
        !auto_aim ==> mode == MODE_MANUAL && controls == controller.help.manual,
        gamepad == controller.active_gamepad,
{
}

/// At first nothing is asked, nothing is switched on, and the text is the keyboard's.
pub proof fn law_new_controllers(controller: ControllerState)
    requires
        call_ensures(ControllerState::default, (), controller),
    ensures
        ({
            let asked = controller@;
            &&& asked.controlled.movement.x == 0 && asked.controlled.movement.y == 0
            &&& asked.controlled.gimbal.x == 0 && asked.controlled.gimbal.y == 0
            &&& asked.controlled.chassis_yaw == 0 && asked.controlled.chassis_roll == 0
            &&& asked.controlled.chassis_pitch == 0
            &&& !asked.controlled.shoot && !asked.controlled.boost && !asked.controlled.auto_aim
            &&& !asked.controlled.precise_gimbal && !asked.controlled.dart_just_pressed
            &&& !asked.controlled.switch_slapper_just_pressed
            &&& !asked.controlled.switch_camera_just_pressed
            &&& asked.remote == asked.controlled
            &&& asked.analog.len() == 0
            &&& !asked.keyboard_auto_aim
            &&& asked.controlled_chassis_spin is Off && asked.remote_chassis_spin is Off
            &&& asked.active_gamepad is None
            &&& asked.help == ControllerHelp::for_keyboard()
        }),
{
}

/// Which axis a share is on, and that an axis is begun by its first share and by no other.
pub proof fn law_shares_begin_their_axis(analog: Seq<AnalogShare>, share: AnalogShare, axis: AnalogAxis)
    ensures
        share.on() is Movement <==> share is Movement,
        share.on() is Gimbal <==> share is Gimbal,
        share.on() is GimbalDelta <==> share is GimbalDelta,
        share.on() is RemoteMovement <==> share is RemoteMovement,
        share.on() is RemoteTilt <==> share is RemoteTilt,
        !begun(Seq::<AnalogShare>::empty(), axis),
        begun(analog.push(share), axis) <==> begun(analog, axis) || share.on() == axis,
{
    lemma_begun_push(analog, share, axis);
}

/// Steps that are added are added on their own axes and held to one either way.
pub proof fn law_calls_of_the_adders(
    moved: &mut ControllerInput,
    movement: Steps,
    aimed: &mut ControllerInput,
    gimbal: Steps,
    turned: &mut ControllerInput,
    yaw: i8,
    roll: i8,
    pitch: i8,
    r: (),
)
    requires
        call_ensures(ControllerInput::add_movement, (moved, movement), r),
        call_ensures(ControllerInput::add_gimbal, (aimed, gimbal), r),
        call_ensures(ControllerInput::add_chassis, (turned, yaw, roll, pitch), r),
    ensures
        final(moved).movement.x == clipped(old(moved).movement.x + movement.x),
        final(moved).movement.y == clipped(old(moved).movement.y + movement.y),
        final(moved).gimbal == old(moved).gimbal,
        same_switches(*final(moved), *old(moved)),
        final(aimed).gimbal.x == clipped(old(aimed).gimbal.x + gimbal.x),
        final(aimed).gimbal.y == clipped(old(aimed).gimbal.y + gimbal.y),
        final(aimed).movement == old(aimed).movement,
        same_switches(*final(aimed), *old(aimed)),
        final(turned).chassis_yaw == clipped(old(turned).chassis_yaw + yaw),
        final(turned).chassis_roll == clipped(old(turned).chassis_roll + roll),
        final(turned).chassis_pitch == clipped(old(turned).chassis_pitch + pitch),
        final(turned).movement == old(turned).movement,
        final(turned).gimbal == old(turned).gimbal,
        same_switches(*final(turned), *old(turned)),
{
}

/// What sets a single thing sets that thing alone: the motion of the mouse, the text, the gamepad.
pub proof fn law_calls_of_the_setters(
    delta: [F32; 2],
    turned: &mut ControllerState,
    help: ControllerHelp,
    helped: &mut ControllerState,
    gamepad: u64,
    taken: &mut ControllerState,
    left: &mut ControllerState,
    r: (),
)
    requires
        call_ensures(ControllerState::add_gimbal_delta, (turned, delta), r),
        call_ensures(ControllerState::use_help, (helped, help), r),
        call_ensures(ControllerState::use_gamepad, (taken, gamepad), r),
        call_ensures(ControllerState::clear_gamepad, (left,), r),
    ensures
        final(turned)@.analog == old(turned)@.analog.push(AnalogShare::GimbalDelta(delta)),
        final(turned)@ == (Asked { analog: final(turned)@.analog, ..old(turned)@ }),
        final(helped)@.help == help,
        final(helped)@ == (Asked { help, ..old(helped)@ }),
        final(taken)@.active_gamepad == Some(gamepad),
        final(taken)@ == (Asked { active_gamepad: Some(gamepad), ..old(taken)@ }),
        final(left)@.active_gamepad is None,
        final(left)@ == (Asked { active_gamepad: None, ..old(left)@ }),
{
}

/// Four keys steer two axes: right and forward are positive.
pub proof fn law_calls_of_keyboard_vec2(
    forward: bool,
    left: bool,
    backward: bool,
    right: bool,
    steps: Steps,
    keys: KeyFrame,
    active: bool,
    share: AnalogShare,
    axis: AnalogAxis,
)
    requires
        call_ensures(keyboard_vec2, (forward, left, backward, right), steps),
        call_ensures(keyboard_controller_active, (&keys,), active),
        call_ensures(AnalogShare::axis, (&share,), axis),
    ensures
        steps.x == towards(right, left),
        steps.y == towards(forward, backward),
        active <==> keys.w || keys.a || keys.s || keys.d || keys.arrow_left || keys.arrow_right
            || keys.arrow_up || keys.arrow_down || keys.shift_left || keys.space || keys.i || keys.j
            || keys.k || keys.l || keys.bracket_left || keys.bracket_right || keys.semicolon
            || keys.quote || keys.c || keys.b || keys.f || keys.v || keys.g_struck
            || keys.tab_struck || keys.f3_struck || keys.f5_struck || keys.q_struck
            || keys.u_struck,
        axis is Movement <==> share is Movement,
        axis is Gimbal <==> share is Gimbal,
        axis is GimbalDelta <==> share is GimbalDelta,
        axis is RemoteMovement <==> share is RemoteMovement,
        axis is RemoteTilt <==> share is RemoteTilt,
{
}

/// The texts of the two devices, and whether the spins are on.
pub proof fn law_calls_of_the_devices(
    keyboard: ControllerHelp,
    xbox: ControllerHelp,
    controller: ControllerState,
    controlled: bool,
    remote: bool,
)
    requires
        call_ensures(ControllerHelp::keyboard, (), keyboard),
        call_ensures(ControllerHelp::xbox, (), xbox),
        call_ensures(ControllerState::controlled_chassis_spin, (&controller,), controlled),
        call_ensures(ControllerState::remote_chassis_spin, (&controller,), remote),
    ensures
        keyboard.source == KEYBOARD_SOURCE,
        keyboard.manual == KEYBOARD_MANUAL,
        keyboard.auto_aim == KEYBOARD_AUTO_AIM,
        xbox.source == XBOX_SOURCE,
        xbox.manual == XBOX_MANUAL,
        xbox.auto_aim == XBOX_AUTO_AIM,
        controlled <==> controller.controlled_chassis_spin is On,
        remote <==> controller.remote_chassis_spin is On,
{
}

} // verus!
