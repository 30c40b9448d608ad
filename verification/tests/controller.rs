use bevy::input::keyboard::KeyCode;
use bevy::input::mouse::MouseButton;
use bevy::input::ButtonInput;
use daedalus::camera::{
    following_controls, freecam_controls, update_camera_follow, CameraMode, CameraPlacement,
    FollowingType, FreecamStep, MouseCapture,
};
use daedalus::config::CameraConfig;
use daedalus::controller::{
    clear_controller_input, keyboard_vec2, sample_keyboard_controller, sample_mouse_buttons,
    sample_mouse_controller, AnalogShare, ControllerHelp, ControllerInput, ControllerState, Steps,
    GAMEPAD_TRIGGER_THRESHOLD, PRECISE_GIMBAL_SCALE,
};
use daedalus::float::F32;
use daedalus::gamepad::{
    controller_dart_just_pressed, controller_shoot_pressed, force_auto_aim,
    gamepad_controller_active, request_controller_rumble, sample_gamepad_controller,
    update_auto_aim_subscription, GamepadFrame, RumbleRequest,
};

fn f(v: f32) -> F32 {
    F32 { bits: v.to_bits() }
}

fn v2(x: f32, y: f32) -> [F32; 2] {
    [f(x), f(y)]
}

/// The sum of what the mouse has added to the angle of the gimbal.
fn gimbal_delta(controller: &ControllerState) -> (f32, f32) {
    let mut sum = (0.0f32, 0.0f32);
    for share in &controller.analog {
        if let AnalogShare::GimbalDelta(d) = share {
            sum.0 += f32::from_bits(d[0].bits);
            sum.1 += f32::from_bits(d[1].bits);
        }
    }
    sum
}

#[test]
fn controller_input_clamps_each_axis_without_changing_diagonal_input() {
    let mut input = ControllerInput::default();
    input.add_movement(Steps { x: 1, y: 0 });
    input.add_movement(Steps { x: 0, y: 1 });

    assert_eq!(input.movement, Steps { x: 1, y: 1 });

    input.add_movement(Steps { x: 1, y: 1 });
    assert_eq!(input.movement, Steps { x: 1, y: 1 });
}

#[test]
fn help_provider_switches_between_manual_and_auto_aim_modes() {
    let mut controller = ControllerState::default();
    controller.use_help(ControllerHelp::xbox());

    assert_eq!(controller.help_source(), "xbox");
    assert_eq!(controller.help_mode(false), "手动");
    assert!(controller.help_controls(false).contains("按住 RT"));

    assert_eq!(controller.help_mode(true), "自瞄");
    assert!(controller.help_controls(true).contains("松开 RT"));

    assert!(!controller.auto_aim_active());
    controller.controlled.auto_aim = true;
    assert!(controller.auto_aim_active());
}

#[test]
fn reset_frame_preserves_last_help_provider() {
    let mut controller = ControllerState::default();
    controller.use_help(ControllerHelp::xbox());

    controller.reset_frame();

    assert_eq!(controller.help_source(), "xbox");
}

/// A mouse whose motion is read once a frame.
struct Mouse {
    mode: FollowingType,
    capture: MouseCapture,
    sensitivity: f32,
    controller: ControllerState,
    motion: Vec<(f32, f32)>,
}

fn mouse(mode: FollowingType, captured: bool) -> Mouse {
    Mouse {
        mode,
        capture: MouseCapture { captured },
        sensitivity: f32::from_bits(CameraConfig::default().mouse_sensitivity.bits),
        controller: ControllerState::default(),
        motion: Vec::new(),
    }
}

impl Mouse {
    fn update(&mut self) {
        let mut delta = (0.0f32, 0.0f32);
        for m in self.motion.drain(..) {
            delta.0 += m.0;
            delta.1 += m.1;
        }
        if let Some(scale) = sample_mouse_controller(
            self.mode,
            self.capture.captured,
            &v2(delta.0, delta.1),
            &mut self.controller,
        ) {
            let scale = self.sensitivity * f32::from_bits(scale.bits);
            self.controller.add_gimbal_delta(v2(-delta.0 * scale, -delta.1 * scale));
        }
    }
}

#[test]
fn mouse_motion_aims_gimbal_in_first_person() {
    let mut app = mouse(FollowingType::Robot, true);
    app.motion.push((10.0, 4.0));
    app.update();

    let delta = gimbal_delta(&app.controller);
    assert!((delta.0 - (-10.0 * app.sensitivity)).abs() < 1e-6, "yaw: {delta:?}");
    assert!((delta.1 - (-4.0 * app.sensitivity)).abs() < 1e-6, "pitch: {delta:?}");
}

#[test]
fn mouse_motion_accumulates_within_one_frame() {
    let mut app = mouse(FollowingType::Robot, true);
    app.motion.push((3.0, 0.0));
    app.motion.push((4.0, 0.0));
    app.update();

    assert!((gimbal_delta(&app.controller).0 - (-7.0 * app.sensitivity)).abs() < 1e-6);
}

#[test]
fn released_cursor_drops_motion_instead_of_buffering_it() {
    let mut app = mouse(FollowingType::Robot, false);

    app.motion.push((500.0, 0.0));
    app.update();
    assert_eq!(gimbal_delta(&app.controller), (0.0, 0.0), "nothing aims before the capture");

    app.capture.captured = true;
    app.update();
    assert_eq!(gimbal_delta(&app.controller), (0.0, 0.0), "the motion did not wait");
}

#[test]
fn free_camera_keeps_mouse_for_itself() {
    let mut app = mouse(FollowingType::Free, true);

    app.motion.push((10.0, 10.0));
    app.update();

    assert_eq!(gimbal_delta(&app.controller), (0.0, 0.0));
}

#[test]
fn reset_frame_clears_mouse_aim_delta() {
    let mut controller = ControllerState::default();
    controller.add_gimbal_delta(v2(0.1, 0.1));

    controller.reset_frame();

    assert_eq!(gimbal_delta(&controller), (0.0, 0.0));
}

#[test]
fn reset_frame_preserves_chassis_spin_modes() {
    let mut controller = ControllerState::default();
    controller.toggle_controlled_chassis_spin();
    controller.toggle_remote_chassis_spin();

    controller.reset_frame();

    assert!(controller.controlled_chassis_spin());
    assert!(controller.remote_chassis_spin());
}

/// Buttons and keys, of which what was struck is forgotten at the start of each frame.
struct Buttons {
    mouse: ButtonInput<MouseButton>,
    keyboard: ButtonInput<KeyCode>,
    captured: bool,
    focused: Option<bool>,
    controller: ControllerState,
    events: Vec<(MouseButton, bool)>,
    escape: bool,
}

fn buttons(captured: bool) -> Buttons {
    Buttons {
        mouse: ButtonInput::default(),
        keyboard: ButtonInput::default(),
        captured,
        focused: None,
        controller: ControllerState::default(),
        events: Vec::new(),
        escape: false,
    }
}

impl Buttons {
    fn press(&mut self, button: MouseButton) {
        self.events.push((button, true));
    }

    fn release(&mut self, button: MouseButton) {
        self.events.push((button, false));
    }

    fn update(&mut self) {
        self.mouse.clear();
        self.keyboard.clear();
        for (button, down) in self.events.drain(..) {
            if down {
                self.mouse.press(button);
            } else {
                self.mouse.release(button);
            }
        }
        if self.escape {
            self.keyboard.press(KeyCode::Escape);
            self.escape = false;
        }
        clear_controller_input(&mut self.controller);
        sample_mouse_buttons(
            &mut self.mouse,
            &self.keyboard,
            self.captured,
            self.focused,
            &mut self.controller,
        );
    }

    fn state(&self) -> (bool, bool) {
        (self.controller.controlled.shoot, self.controller.auto_aim_active())
    }
}

#[test]
fn left_button_fires_while_held() {
    let mut app = buttons(true);
    app.press(MouseButton::Left);
    app.update();
    assert_eq!(app.state(), (true, false));
    app.update();
    assert_eq!(app.state(), (true, false));
    app.release(MouseButton::Left);
    app.update();
    assert_eq!(app.state(), (false, false));
}

#[test]
fn right_button_holds_auto_aim_and_releasing_it_returns_manual() {
    let mut app = buttons(true);
    app.press(MouseButton::Right);
    app.update();
    assert_eq!(app.state(), (false, true));
    app.update();
    assert_eq!(app.state(), (false, true), "it aims as long as it is held");
    app.release(MouseButton::Right);
    app.update();
    assert_eq!(app.state(), (false, false), "letting go returns to manual");
}

#[test]
fn holding_the_right_button_clears_the_f5_latch() {
    let mut app = buttons(true);
    app.controller.toggle_keyboard_auto_aim();
    assert!(app.controller.auto_aim_active());

    app.press(MouseButton::Right);
    app.update();
    assert_eq!(app.state(), (false, true));
    app.release(MouseButton::Right);
    app.update();
    assert_eq!(app.state(), (false, false));
}

#[test]
fn escape_while_the_buttons_are_held_does_not_fire_or_aim_again() {
    let mut app = buttons(true);
    app.press(MouseButton::Left);
    app.press(MouseButton::Right);
    app.update();
    assert_eq!(app.state(), (true, true));

    app.escape = true;
    app.update();
    assert_eq!(app.state(), (false, false), "neither fires nor aims in the frame of the key");

    app.captured = false;
    app.update();
    assert_eq!(app.state(), (false, false));
}

#[test]
fn escape_leaves_the_f5_latch_alone() {
    let mut app = buttons(true);
    app.controller.toggle_keyboard_auto_aim();
    app.press(MouseButton::Left);
    app.update();
    assert_eq!(app.state(), (true, true));

    app.escape = true;
    app.update();
    assert_eq!(app.state(), (false, true), "the switch is not touched");
}

#[test]
fn unfocus_cancels_held_right_button_auto_aim() {
    let mut app = buttons(true);
    app.focused = Some(true);

    app.press(MouseButton::Right);
    app.update();
    assert_eq!(app.state(), (false, true));

    app.focused = Some(false);
    app.update();
    assert_eq!(app.state(), (false, false), "losing the focus cancels it");

    app.focused = Some(true);
    app.update();
    assert_eq!(app.state(), (false, false), "it does not come back by itself");
}

#[test]
fn mouse_buttons_do_nothing_until_the_pointer_is_captured() {
    let mut app = buttons(false);
    app.press(MouseButton::Left);
    app.press(MouseButton::Right);
    app.update();
    assert_eq!(app.state(), (false, false));

    app.captured = true;
    app.update();
    assert_eq!(app.state(), (true, true));
}

#[test]
fn left_and_right_buttons_work_together() {
    let mut app = buttons(true);
    app.press(MouseButton::Right);
    app.press(MouseButton::Left);
    app.update();
    assert_eq!(app.state(), (true, true));
}

/// Every key does what it is there for, and no other key does the same.
#[test]
fn every_key_has_its_own_effect() {
    let sample = |key: KeyCode| {
        let mut keyboard = ButtonInput::default();
        keyboard.press(key);
        let mut c = ControllerState::default();
        c.use_help(ControllerHelp::xbox());
        c.use_gamepad(7);
        sample_keyboard_controller(&keyboard, &mut c);
        c
    };
    assert_eq!(sample(KeyCode::KeyW).controlled.movement, Steps { x: 0, y: 1 });
    assert_eq!(sample(KeyCode::KeyS).controlled.movement, Steps { x: 0, y: -1 });
    assert_eq!(sample(KeyCode::KeyD).controlled.movement, Steps { x: 1, y: 0 });
    assert_eq!(sample(KeyCode::KeyA).controlled.movement, Steps { x: -1, y: 0 });
    assert_eq!(sample(KeyCode::ArrowLeft).controlled.gimbal, Steps { x: 1, y: 0 });
    assert_eq!(sample(KeyCode::ArrowRight).controlled.gimbal, Steps { x: -1, y: 0 });
    assert_eq!(sample(KeyCode::ArrowUp).controlled.gimbal, Steps { x: 0, y: 1 });
    assert_eq!(sample(KeyCode::ArrowDown).controlled.gimbal, Steps { x: 0, y: -1 });
    assert!(sample(KeyCode::ShiftLeft).controlled.boost);
    assert!(!sample(KeyCode::ShiftLeft).remote.boost);
    assert!(sample(KeyCode::ShiftRight).remote.boost);
    assert!(sample(KeyCode::Space).controlled.shoot);
    assert!(sample(KeyCode::KeyG).controlled.dart_just_pressed);
    assert!(sample(KeyCode::Tab).controlled.switch_slapper_just_pressed);
    assert!(sample(KeyCode::F3).controlled.switch_camera_just_pressed);
    assert_eq!(sample(KeyCode::KeyI).remote.movement, Steps { x: 0, y: 1 });
    assert_eq!(sample(KeyCode::KeyK).remote.movement, Steps { x: 0, y: -1 });
    assert_eq!(sample(KeyCode::KeyL).remote.movement, Steps { x: 1, y: 0 });
    assert_eq!(sample(KeyCode::KeyJ).remote.movement, Steps { x: -1, y: 0 });
    assert_eq!(sample(KeyCode::BracketLeft).remote.chassis_roll, 1);
    assert_eq!(sample(KeyCode::BracketRight).remote.chassis_roll, -1);
    assert_eq!(sample(KeyCode::Semicolon).remote.chassis_pitch, 1);
    assert_eq!(sample(KeyCode::Quote).remote.chassis_pitch, -1);
    assert_eq!(sample(KeyCode::KeyC).remote.gimbal, Steps { x: 1, y: 0 });
    assert_eq!(sample(KeyCode::KeyB).remote.gimbal, Steps { x: -1, y: 0 });
    assert_eq!(sample(KeyCode::KeyF).remote.gimbal, Steps { x: 0, y: 1 });
    assert_eq!(sample(KeyCode::KeyV).remote.gimbal, Steps { x: 0, y: -1 });
    let q = sample(KeyCode::KeyQ);
    assert!(q.controlled_chassis_spin() && !q.remote_chassis_spin());
    assert_eq!((q.controlled.chassis_yaw, q.remote.chassis_yaw), (1, 0));
    let u = sample(KeyCode::KeyU);
    assert!(!u.controlled_chassis_spin() && u.remote_chassis_spin());
    assert_eq!((u.controlled.chassis_yaw, u.remote.chassis_yaw), (0, 1));
    assert!(sample(KeyCode::F5).auto_aim_active());
    // Using the keyboard takes the help over from the gamepad; other keys do not.
    let w = sample(KeyCode::KeyW);
    assert_eq!((w.help_source(), w.active_gamepad()), ("keyboard", None));
    let other = sample(KeyCode::KeyZ);
    assert_eq!((other.help_source(), other.active_gamepad()), ("xbox", Some(7)));
    let right_shift = sample(KeyCode::ShiftRight);
    assert_eq!(right_shift.help_source(), "xbox");
}

#[test]
fn keys_that_were_struck_earlier_do_not_strike_again() {
    let mut keyboard = ButtonInput::default();
    let mut c = ControllerState::default();
    keyboard.press(KeyCode::KeyQ);
    keyboard.press(KeyCode::F5);
    sample_keyboard_controller(&keyboard, &mut c);
    assert!(c.controlled_chassis_spin() && c.auto_aim_active());
    keyboard.clear();
    c.reset_frame();
    sample_keyboard_controller(&keyboard, &mut c);
    assert!(c.controlled_chassis_spin() && c.auto_aim_active());
    assert_eq!(c.controlled.chassis_yaw, 1);
    keyboard.release(KeyCode::KeyQ);
    keyboard.press(KeyCode::KeyQ);
    keyboard.release(KeyCode::F5);
    keyboard.press(KeyCode::F5);
    c.reset_frame();
    sample_keyboard_controller(&keyboard, &mut c);
    assert!(!c.controlled_chassis_spin() && !c.auto_aim_active());
}

#[test]
fn left_shift_keeps_the_remote_gimbal_from_swinging() {
    let mut keyboard = ButtonInput::default();
    keyboard.press(KeyCode::ShiftLeft);
    keyboard.press(KeyCode::KeyC);
    keyboard.press(KeyCode::KeyF);
    let mut c = ControllerState::default();
    sample_keyboard_controller(&keyboard, &mut c);
    assert_eq!(c.remote.gimbal, Steps { x: 0, y: 1 });
}

#[test]
fn opposite_keys_cancel() {
    assert_eq!(keyboard_vec2(true, true, true, true), Steps { x: 0, y: 0 });
    assert_eq!(keyboard_vec2(true, false, false, true), Steps { x: 1, y: 1 });
}

fn pad() -> GamepadFrame {
    GamepadFrame {
        entity: 3,
        left_stick: v2(0.0, 0.0),
        right_stick: v2(0.0, -0.0),
        dpad: v2(0.0, 0.0),
        left_trigger2: None,
        right_trigger2: None,
        left_trigger: false,
        left_trigger_struck: false,
        right_trigger: false,
        right_trigger2_struck: false,
        left_thumb: false,
        right_thumb: false,
        north_struck: false,
        west_struck: false,
        start_struck: false,
        select_struck: false,
    }
}

#[test]
fn sticks_aim_or_tilt_as_the_thumb_says() {
    let mut c = ControllerState::default();
    let frame = GamepadFrame {
        left_stick: v2(0.5, 0.25),
        right_stick: v2(0.75, -0.5),
        dpad: v2(1.0, 0.0),
        ..pad()
    };
    assert!(sample_gamepad_controller(Some(&frame), &mut c).is_empty());
    assert_eq!(
        c.analog,
        vec![
            AnalogShare::Movement(v2(0.5, 0.25)),
            AnalogShare::Gimbal(v2(-0.75, -0.5)),
            AnalogShare::RemoteMovement(v2(-1.0, -0.0)),
        ]
    );
    assert_eq!((c.help_source(), c.active_gamepad()), ("xbox", Some(3)));

    c.reset_frame();
    let frame = GamepadFrame { right_thumb: true, ..frame };
    sample_gamepad_controller(Some(&frame), &mut c);
    assert_eq!(
        c.analog,
        vec![
            AnalogShare::Movement(v2(0.5, 0.25)),
            AnalogShare::RemoteMovement(v2(-1.0, -0.0)),
            AnalogShare::RemoteTilt(v2(0.75, -0.5)),
        ]
    );
}

/// The movement that is asked of the controlled robot: the steps, and each share behind them, held
/// to one either way after each.
fn movement(controller: &ControllerState) -> (f32, f32) {
    let steps = controller.controlled.movement;
    let mut sum = (steps.x as f32, steps.y as f32);
    for share in &controller.analog {
        if let AnalogShare::Movement(v) = share {
            sum.0 = (sum.0 + f32::from_bits(v[0].bits)).clamp(-1.0, 1.0);
            sum.1 = (sum.1 + f32::from_bits(v[1].bits)).clamp(-1.0, 1.0);
        }
    }
    sum
}

#[test]
fn steps_behind_a_stick_keep_their_order() {
    let held = |key: KeyCode| {
        let mut keyboard = ButtonInput::default();
        keyboard.press(key);
        keyboard
    };
    let full = GamepadFrame { left_stick: v2(1.0, 0.0), ..pad() };
    let mut c = ControllerState::default();
    sample_gamepad_controller(Some(&full), &mut c);
    sample_keyboard_controller(&held(KeyCode::KeyD), &mut c);
    assert_eq!(movement(&c), (1.0, 0.0));
    sample_keyboard_controller(&held(KeyCode::KeyA), &mut c);
    assert_eq!(movement(&c), (0.0, 0.0));
    assert_eq!(c.controlled.movement, Steps { x: 0, y: 0 });
    // The other way round the two steps cancel first.
    let mut c = ControllerState::default();
    sample_keyboard_controller(&held(KeyCode::KeyD), &mut c);
    sample_keyboard_controller(&held(KeyCode::KeyA), &mut c);
    sample_gamepad_controller(Some(&full), &mut c);
    assert_eq!(movement(&c), (1.0, 0.0));
    // Each axis has its own list of shares.
    let mut c = ControllerState::default();
    let tilting = GamepadFrame { right_thumb: true, right_stick: v2(0.5, -0.5), ..pad() };
    sample_gamepad_controller(Some(&tilting), &mut c);
    sample_keyboard_controller(&held(KeyCode::BracketLeft), &mut c);
    sample_keyboard_controller(&held(KeyCode::ArrowUp), &mut c);
    sample_keyboard_controller(&held(KeyCode::KeyI), &mut c);
    assert_eq!(c.controlled.gimbal, Steps { x: 0, y: 1 });
    assert_eq!((c.remote.chassis_roll, c.remote.movement), (0, Steps { x: 0, y: 0 }));
    assert!(c.analog.contains(&AnalogShare::RemoteTilt(v2(1.0, 0.0))));
    assert!(c.analog.contains(&AnalogShare::RemoteMovement(v2(0.0, 1.0))));
}

#[test]
fn losing_the_focus_lets_the_buttons_go_but_forgets_no_strike() {
    let mut app = buttons(true);
    app.focused = Some(false);
    app.press(MouseButton::Right);
    app.update();
    assert!(!app.mouse.pressed(MouseButton::Right));
    assert!(app.mouse.just_pressed(MouseButton::Right));
}

#[test]
fn triggers_count_above_their_threshold() {
    assert_eq!(f32::from_bits(GAMEPAD_TRIGGER_THRESHOLD), 0.35);
    let aims = |t: Option<f32>| {
        let mut c = ControllerState::default();
        let frame = GamepadFrame { right_trigger2: t.map(f), left_trigger2: t.map(f), ..pad() };
        sample_gamepad_controller(Some(&frame), &mut c);
        assert_eq!(c.controlled.precise_gimbal, c.controlled.auto_aim);
        assert_eq!(gamepad_controller_active(&frame), c.controlled.auto_aim);
        c.auto_aim_active()
    };
    assert!(!aims(None));
    assert!(!aims(Some(0.35)));
    assert!(aims(Some(0.36)));
    assert!(aims(Some(1.0)));
    assert!(!aims(Some(-1.0)));
    assert!(!aims(Some(f32::NAN)));
}

#[test]
fn gamepad_buttons_shake_and_switch() {
    let mut c = ControllerState::default();
    let frame = GamepadFrame {
        left_trigger_struck: true,
        left_trigger: true,
        north_struck: true,
        right_trigger2_struck: true,
        right_trigger: true,
        left_thumb: true,
        west_struck: true,
        start_struck: true,
        select_struck: true,
        ..pad()
    };
    let rumble = sample_gamepad_controller(Some(&frame), &mut c);
    let spin = RumbleRequest {
        gamepad: 3,
        strong_motor: f(0.0),
        weak_motor: f(0.25),
        duration_ms: 70,
    };
    let aim = RumbleRequest {
        gamepad: 3,
        strong_motor: f(0.12),
        weak_motor: f(0.0),
        duration_ms: 60,
    };
    assert_eq!(rumble, vec![spin, spin, aim]);
    assert!(c.controlled_chassis_spin() && c.remote_chassis_spin());
    assert_eq!((c.controlled.chassis_yaw, c.remote.chassis_yaw), (1, 1));
    assert!(c.controlled.boost && c.controlled.shoot && c.controlled.dart_just_pressed);
    assert!(c.controlled.switch_slapper_just_pressed && c.controlled.switch_camera_just_pressed);
    assert!(controller_shoot_pressed(&c) && controller_dart_just_pressed(&c));
    assert_eq!(
        request_controller_rumble(Some(&c), f(0.5), f(0.25), 9),
        Some(RumbleRequest {
            gamepad: 3,
            strong_motor: f(0.5),
            weak_motor: f(0.25),
            duration_ms: 9,
        })
    );
    assert_eq!(request_controller_rumble(None, f(0.5), f(0.25), 9), None);
    let mut idle = ControllerState::default();
    assert!(sample_gamepad_controller(None, &mut idle).is_empty());
    assert_eq!(request_controller_rumble(Some(&idle), f(0.5), f(0.25), 9), None);
    assert!(!gamepad_controller_active(&pad()));
}

#[test]
fn scales_are_what_they_say() {
    let mut input = ControllerInput::default();
    assert_eq!(f32::from_bits(input.boost_multiplier().bits), 1.0);
    assert_eq!(f32::from_bits(input.gimbal_scale().bits), 1.0);
    input.boost = true;
    input.precise_gimbal = true;
    assert_eq!(f32::from_bits(input.boost_multiplier().bits), 2.0);
    assert_eq!(f32::from_bits(input.gimbal_scale().bits), 0.35);
    assert_eq!(f32::from_bits(PRECISE_GIMBAL_SCALE), 0.35);
}

#[test]
fn subscription_follows_the_operator_or_is_forced() {
    let mut c = ControllerState::default();
    assert_eq!(update_auto_aim_subscription(&c, false, false), (false, false));
    assert_eq!(update_auto_aim_subscription(&c, true, false), (true, true));
    assert_eq!(update_auto_aim_subscription(&c, true, true), (true, false));
    c.toggle_keyboard_auto_aim();
    assert_eq!(update_auto_aim_subscription(&c, false, false), (true, true));
    assert!(force_auto_aim(Some("1")));
    assert!(!force_auto_aim(Some("1 ")));
    assert!(!force_auto_aim(Some("true")));
    assert!(!force_auto_aim(Some("")));
    assert!(!force_auto_aim(None));
}

#[test]
fn views_follow_each_other() {
    let mut mode = CameraMode::default();
    assert_eq!(mode.0, FollowingType::Robot);
    following_controls(&mut mode, false);
    assert_eq!(mode.0, FollowingType::Robot);
    following_controls(&mut mode, true);
    assert_eq!(mode.0, FollowingType::ThirdPerson);
    following_controls(&mut mode, true);
    assert_eq!(mode.0, FollowingType::Free);
    following_controls(&mut mode, true);
    assert_eq!(mode.0, FollowingType::Robot);
    assert!(!MouseCapture::default().captured);
}

#[test]
fn camera_reports_as_many_frames_as_were_asked_for() {
    let mut reports = None;
    let robot = CameraMode(FollowingType::Robot);
    let free = CameraMode(FollowingType::Free);
    let third = CameraMode(FollowingType::ThirdPerson);
    assert_eq!(
        update_camera_follow(&free, &mut reports, Some(2)),
        (CameraPlacement::Unchanged, false)
    );
    assert_eq!(
        update_camera_follow(&robot, &mut reports, Some(2)),
        (CameraPlacement::AtTheMount, true)
    );
    assert_eq!(
        update_camera_follow(&third, &mut reports, Some(2)),
        (CameraPlacement::BehindTheRobot, false)
    );
    assert!(update_camera_follow(&robot, &mut reports, Some(9)).1);
    assert!(!update_camera_follow(&robot, &mut reports, Some(9)).1);
    let mut unasked = None;
    assert!(!update_camera_follow(&robot, &mut unasked, None).1);
}

#[test]
fn free_camera_moves_by_keys_and_only_when_free() {
    let mut keyboard = ButtonInput::default();
    for key in [KeyCode::KeyW, KeyCode::KeyA, KeyCode::KeyN, KeyCode::KeyJ] {
        keyboard.press(key);
    }
    assert_eq!(
        freecam_controls(&CameraMode(FollowingType::Free), &keyboard),
        vec![FreecamStep::Forward, FreecamStep::Left, FreecamStep::Up, FreecamStep::Down]
    );
    assert!(freecam_controls(&CameraMode(FollowingType::Robot), &keyboard).is_empty());
    let mut keyboard = ButtonInput::default();
    keyboard.press(KeyCode::KeyS);
    keyboard.press(KeyCode::KeyD);
    assert_eq!(
        freecam_controls(&CameraMode(FollowingType::Free), &keyboard),
        vec![FreecamStep::Backward, FreecamStep::Right]
    );
}
