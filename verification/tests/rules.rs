//! Projectiles, statistics, settings, orders and reports.
use daedalus::config::{
    config_hot_reload, on_file_news, AutoAimLinkConfig, CameraConfig, CaptureStreamConfig,
    DepthCaptureConfig, FileNews, MecanumConfig, PhysicsConfig, PreviewConfig,
    ProjectileAerodynamicsConfig, ProjectileConfig, ReloadAction, RenderConfig, SceneConfig,
    SimulationConfig, VehicleConfig,
};
use daedalus::controller::ControllerState;
use daedalus::debug::{
    change_appearance, create_help_text, log_projectile_stats, screenshot_on_f2,
    screenshot_on_timer, screenshot_saving, HitLog, PointerLook,
};
use daedalus::float::{F32, F64};
use daedalus::keys::{read_keys, KeyFrame};
use daedalus::layout::GimbalCmd;
use daedalus::link::{LinkVerdict, RejectReason};
use daedalus::plugin::{judged_order, process_subscription, AutoAimLink, GimbalOrder};
use daedalus::projectile::{
    cleanup_projectiles, dart_launch, drag_applies, projectile_aerodynamics, projectile_launch,
    Countdown, Flight, LaunchOutcome,
};
use daedalus::statistic::ProjectileStatistics;

fn f(v: f32) -> F32 {
    F32 { bits: v.to_bits() }
}

fn x(v: F32) -> f32 {
    f32::from_bits(v.bits)
}

fn v3(a: f32, b: f32, c: f32) -> [F32; 3] {
    [f(a), f(b), f(c)]
}

fn values(v: [F32; 3]) -> [f32; 3] {
    [x(v[0]), x(v[1]), x(v[2])]
}

#[test]
fn settings_have_their_defaults() {
    let c = SimulationConfig::fallback(false);
    assert_eq!(c.window.present_mode, "auto_no_vsync");
    assert!(!c.debug.egui && !c.debug.inspector && !c.debug.diagnostics);
    assert!(c.preview.enabled && PreviewConfig::default().enabled);
    assert_eq!(x(c.render.illuminance), 50.0);
    assert!(c.render.capture_ev100.is_none() && !c.render.shadows && !c.render.main_camera_fxaa);
    assert!(!c.render.metalfx_temporal && !c.render.metalfx_frame_generation);
    assert!(RenderConfig::defaults(true).metalfx_temporal);
    assert!(RenderConfig::defaults(true).metalfx_frame_generation);
    assert_eq!(x(c.render.metalfx_scale), 2.0);
    assert_eq!((c.capture.color.width, c.capture.color.height), (1440, 1080));
    assert_eq!(CaptureStreamConfig::default().width, 1440);
    assert_eq!((c.capture.depth.width, c.capture.depth.height), (640, 480));
    assert_eq!(x(DepthCaptureConfig::default().near), 0.1);
    assert_eq!(x(c.capture.depth.far), 80.0);
    assert!(c.livox_ros.enabled);
    assert_eq!(c.livox_ros.frame_id, "livox_frame");
    assert_eq!(x(c.livox_ros.publish_freq), 10.0);
    assert_eq!(c.livox_ros.points_per_second, 100_000);
    assert_eq!((c.livox_ros.line_num, c.livox_ros.tag_default), (6, 0));
    assert_eq!(x(c.livox_ros.intensity_default), 100.0);
    assert_eq!(c.physics.substep_count, 8);
    assert_eq!(f64::from_bits(PhysicsConfig::default().fixed_hz.bits), 120.0);
    let v = VehicleConfig::default();
    assert_eq!((x(v.rotation_speed), x(v.tilt_rotation_speed)), (3.0, 3.0));
    assert_eq!((x(v.gimbal_rotation_speed), x(v.gimbal_pitch_limit)), (3.0, 0.785));
    assert_eq!((x(v.max_speed), x(v.linear_acceleration)), (4.0, 8.0));
    assert_eq!(x(v.acceleration_exponent), 10.0);
    let m = MecanumConfig::default();
    assert_eq!((x(m.wheel_radius_m), x(m.half_wheelbase_m)), (0.076, 0.18));
    assert_eq!(x(m.half_trackwidth_m), 0.15);
    let p = c.projectile;
    assert_eq!((x(p.lifetime), x(p.speed), x(p.cooldown)), (5.0, 25.0, 0.1));
    assert_eq!((x(p.diameter), x(p.mass), x(p.friction)), (0.017, 0.017, 1.1));
    assert_eq!((x(p.linear_damping), x(p.uav_size), x(p.uav_vel)), (0.0, 1.0, 2.0));
    let a = ProjectileAerodynamicsConfig::default();
    assert!(a.enabled);
    assert_eq!((x(a.air_density), x(a.drag_coefficient)), (1.225, 0.47));
    assert_eq!(values(a.wind), [0.0; 3]);
    let cam = CameraConfig::default();
    assert_eq!((x(cam.fov), x(cam.free_move_speed)), (45.0, 8.0));
    assert_eq!(values(cam.follow_offset), [0.0, 3.0, 2.0]);
    assert_eq!(x(cam.mouse_sensitivity), 0.003);
    let s = SceneConfig::default();
    assert_eq!(values(s.controlled_infantry), [0.0, 1.0, 0.0]);
    assert_eq!(values(s.blue_infantry), [1.0, 1.0, 1.0]);
    assert_eq!(values(s.blue_hero), [2.0, 1.0, 1.0]);
    assert_eq!(values(s.power_rune), [0.0; 3]);
    assert_eq!(x(AutoAimLinkConfig::default().lease_ms), 500.0);
    let mut other = SimulationConfig::fallback(false);
    other.physics.substep_count = 3;
    assert_eq!(
        SimulationConfig::loaded_or_default(Some(other), false).physics.substep_count,
        3
    );
    assert_eq!(SimulationConfig::loaded_or_default(None, false).physics.substep_count, 8);
}

#[test]
fn a_changed_file_reaches_the_physics() {
    assert_eq!(on_file_news(FileNews::Nothing), ReloadAction::Stop);
    assert_eq!(on_file_news(FileNews::Other), ReloadAction::Listen);
    assert_eq!(on_file_news(FileNews::Modified), ReloadAction::Load);
    let mut config = SimulationConfig::fallback(false);
    let effect = config_hot_reload(&mut config, None, true, true);
    assert!(effect.substep_count.is_none() && effect.fixed_hz.is_none());
    for (set, rate) in [(240.0, 240.0), (0.25, 1.0), (-5.0, 1.0), (f64::NAN, 1.0), (1.0, 1.0)] {
        let mut new = SimulationConfig::fallback(false);
        new.physics.fixed_hz = F64 { bits: f64::to_bits(set) };
        new.physics.substep_count = 5;
        let effect = config_hot_reload(&mut config, Some(new), true, true);
        assert_eq!(effect.substep_count, Some(5));
        assert_eq!(effect.fixed_hz.map(|r| f64::from_bits(r.bits)), Some(rate));
        assert_eq!(config.physics.substep_count, 5);
        assert_eq!(config.physics.fixed_hz.bits, f64::to_bits(set));
    }
    let effect =
        config_hot_reload(&mut config, Some(SimulationConfig::fallback(false)), false, false);
    assert!(effect.substep_count.is_none() && effect.fixed_hz.is_none());
    assert_eq!(config.physics.substep_count, 8);
}

#[test]
fn hits_are_counted_in_percent() {
    let mut s = ProjectileStatistics::default();
    assert_eq!(s.accurate_pct(), (0, 1));
    for _ in 0..438 {
        s.increase_launch();
    }
    for _ in 0..335 {
        s.increase_accurate();
    }
    let (a, b) = s.accurate_pct();
    assert_eq!((a, b), (33_500, 438));
    assert_eq!(format!("{:.2}", a as f32 / b as f32), "76.48");
}

#[test]
fn launches_keep_the_cooldown_and_count_what_leaves() {
    let config = ProjectileConfig::default();
    let mut cooldown = Countdown::start(100);
    let mut stats = ProjectileStatistics::default();
    let up = v3(0.0, 1.0, 0.0);
    let r = projectile_launch(&mut cooldown, 60, &up, &config, &mut stats, None);
    assert_eq!(r, LaunchOutcome::Cooling);
    match projectile_launch(&mut cooldown, 40, &up, &config, &mut stats, None) {
        LaunchOutcome::Launched { spawn, rumble } => {
            assert_eq!((x(spawn.speed), x(spawn.diameter)), (25.0, 0.017));
            assert_eq!((x(spawn.restitution), x(spawn.friction)), (0.3, 1.1));
            assert_eq!((x(spawn.mass), x(spawn.lifetime)), (0.017, 5.0));
            assert_eq!(x(spawn.linear_damping), 0.0);
            assert!(rumble.is_none());
        }
        other => panic!("{other:?}"),
    }
    assert_eq!((stats.launch_count, cooldown.elapsed_ns), (1, 0));
    // Without a direction nothing leaves and nothing is counted, but the cooldown starts anew.
    let nowhere = v3(0.0, -0.0, 0.0);
    let r = projectile_launch(&mut cooldown, 500, &nowhere, &config, &mut stats, None);
    assert_eq!(r, LaunchOutcome::NoDirection);
    assert_eq!((stats.launch_count, cooldown.finished), (1, false));
    let mut controller = ControllerState::default();
    controller.use_gamepad(4);
    match projectile_launch(&mut cooldown, u64::MAX, &up, &config, &mut stats, Some(&controller)) {
        LaunchOutcome::Launched { rumble: Some(r), .. } => {
            assert_eq!((r.gamepad, r.duration_ms), (4, 80));
            assert_eq!((x(r.strong_motor), x(r.weak_motor)), (0.45, 0.2));
        }
        other => panic!("{other:?}"),
    }
}

#[test]
fn darts_need_one_launcher_that_points_somewhere() {
    let config = ProjectileConfig::default();
    let mut stats = ProjectileStatistics::default();
    let up = v3(0.0, 1.0, 0.0);
    assert!(dart_launch(&vec![], &config, &mut stats, None).is_none());
    assert!(dart_launch(&vec![up, up], &config, &mut stats, None).is_none());
    assert!(dart_launch(&vec![v3(0.0, 0.0, 0.0)], &config, &mut stats, None).is_none());
    assert_eq!(stats.launch_count, 0);
    let mut controller = ControllerState::default();
    controller.use_gamepad(4);
    let d = dart_launch(&vec![up], &config, &mut stats, Some(&controller)).unwrap();
    assert_eq!(stats.launch_count, 1);
    assert_eq!((x(d.speed), x(d.mass), x(d.restitution)), (17.0, 0.25, 0.55));
    assert_eq!((x(d.voxel_size), x(d.friction), x(d.lifetime)), (0.005, 1.1, 5.0));
    let r = d.rumble.unwrap();
    assert_eq!((x(r.strong_motor), x(r.weak_motor), r.duration_ms), (0.65, 0.35, 140));
}

#[test]
fn air_acts_only_where_there_is_some() {
    let mut config = ProjectileConfig::default();
    let air = projectile_aerodynamics(&config).unwrap();
    assert_eq!((x(air.diameter), x(air.air_density)), (0.017, 1.225));
    assert_eq!(x(air.drag_coefficient), 0.47);
    config.aerodynamics.enabled = false;
    assert!(projectile_aerodynamics(&config).is_none());
    config.aerodynamics.enabled = true;
    for bad in [0.0, -1.0, -0.0, f32::NAN] {
        let mut c = ProjectileConfig::default();
        c.aerodynamics.air_density = f(bad);
        assert!(projectile_aerodynamics(&c).is_none());
        c = ProjectileConfig::default();
        c.aerodynamics.drag_coefficient = f(bad);
        assert!(projectile_aerodynamics(&c).is_none());
    }
    config.diameter = f(0.0);
    assert!(projectile_aerodynamics(&config).is_none());
    config.diameter = f(f32::NAN);
    assert!(projectile_aerodynamics(&config).is_some());
    assert!(!drag_applies(f(1e-3)));
    assert!(drag_applies(f(2e-3)));
    assert!(!drag_applies(f(0.0)));
}

#[test]
fn projectiles_end_with_their_time() {
    let mut flights = vec![
        Flight { entity: 1, lifetime: Countdown::start(10) },
        Flight { entity: 2, lifetime: Countdown::start(30) },
        Flight { entity: 3, lifetime: Countdown::start(10) },
    ];
    assert!(cleanup_projectiles(&mut flights, 9).is_empty());
    assert_eq!(cleanup_projectiles(&mut flights, 1), vec![1, 3]);
    assert_eq!(flights[1].lifetime.elapsed_ns, 10);
    flights.remove(2);
    flights.remove(0);
    assert_eq!(cleanup_projectiles(&mut flights, u64::MAX), vec![2]);
}

#[test]
fn orders_follow_the_command() {
    let mut link = AutoAimLink::default();
    assert_eq!(process_subscription(&mut link, None, 5), GimbalOrder::Nothing);
    assert_eq!((link.cmd_count, link.last_cmd_at), (0, None));
    let stop = GimbalCmd { distance_m: f(-1.0), fire_advice: 1, ..GimbalCmd::default() };
    assert_eq!(process_subscription(&mut link, Some(&stop), 6), GimbalOrder::Hold);
    let cmd = GimbalCmd { yaw_deg: f(1.0), pitch_deg: f(2.0), fire_advice: 1, ..stop };
    let cmd = GimbalCmd { distance_m: f(3.0), ..cmd };
    assert_eq!(
        process_subscription(&mut link, Some(&cmd), 7),
        GimbalOrder::Aim { yaw_deg: f(1.0), pitch_deg: f(2.0), fire: true }
    );
    let calm = GimbalCmd { fire_advice: 2, ..cmd };
    assert_eq!(
        process_subscription(&mut link, Some(&calm), 8),
        GimbalOrder::Aim { yaw_deg: f(1.0), pitch_deg: f(2.0), fire: false }
    );
    assert_eq!((link.cmd_count, link.last_cmd_at), (3, Some(8)));
}

#[test]
fn help_shows_what_is_in_effect() {
    let mut c = ControllerState::default();
    c.toggle_remote_chassis_spin();
    let stats = ProjectileStatistics { launch_count: 4, accurate_count: 1 };
    let t = create_help_text(true, &stats, &c);
    assert_eq!((t.auto_aim, t.mode, t.source), ("开", "自瞄", "keyboard"));
    assert_eq!((t.launch_count, t.accurate_count, t.accurate_pct), (4, 1, (100, 4)));
    assert_eq!((t.controlled_spin, t.remote_spin), ("关", "开"));
    assert!(t.controls.starts_with("松开右键"));
    let t = create_help_text(false, &ProjectileStatistics::default(), &c);
    assert_eq!((t.auto_aim, t.mode, t.accurate_pct), ("关", "手动", (0, 1)));
    assert!(t.controls.starts_with("F3"));
}

#[test]
fn hits_are_logged_when_they_change() {
    let mut stats = ProjectileStatistics::default();
    let mut log = HitLog { enabled: None, last_launched: 0, last_accurate: 0 };
    assert!(!log_projectile_stats(&mut log, Some("1"), &stats));
    assert_eq!(log.enabled, Some(true));
    stats.increase_launch();
    assert!(log_projectile_stats(&mut log, None, &stats), "the environment is looked at once");
    assert!(!log_projectile_stats(&mut log, None, &stats));
    let mut off = HitLog { enabled: None, last_launched: 0, last_accurate: 0 };
    assert!(!log_projectile_stats(&mut off, Some("0"), &stats));
    assert!(!log_projectile_stats(&mut off, Some("1"), &stats));
    assert_eq!(off.last_launched, 0);
}

#[test]
fn screenshots_are_taken_once_and_numbered() {
    let mut done = false;
    assert!(!screenshot_on_timer(&mut done, None, f(100.0)));
    assert!(!screenshot_on_timer(&mut done, Some(f(8.0)), f(7.5)));
    assert!(screenshot_on_timer(&mut done, Some(f(8.0)), f(8.0)));
    assert!(!screenshot_on_timer(&mut done, Some(f(8.0)), f(9.0)));
    let mut counter = 0;
    assert_eq!((screenshot_on_f2(&mut counter), screenshot_on_f2(&mut counter)), (0, 1));
    assert_eq!(screenshot_saving(0), PointerLook::Plain);
    assert_eq!(screenshot_saving(2), PointerLook::Progress);
}

#[test]
fn appearance_changes_with_shift_and_c() {
    let mut keyboard = bevy::input::ButtonInput::default();
    keyboard.press(bevy::input::keyboard::KeyCode::ShiftLeft);
    let held: KeyFrame = read_keys(&keyboard);
    assert_eq!(change_appearance(&held, &vec![1, 2]), None);
    keyboard.press(bevy::input::keyboard::KeyCode::KeyC);
    let struck = read_keys(&keyboard);
    assert_eq!(change_appearance(&struck, &vec![1, 2]), Some(2));
    assert_eq!(change_appearance(&struck, &vec![]), None);
    keyboard.clear();
    assert_eq!(change_appearance(&read_keys(&keyboard), &vec![1, 2]), None);
}

#[test]
fn full_counters_stop_nothing_that_is_not_counted() {
    let config = ProjectileConfig::default();
    let mut stats = ProjectileStatistics { launch_count: u32::MAX, accurate_count: 0 };
    let mut cooldown = Countdown::start(100);
    let up = v3(0.0, 1.0, 0.0);
    let r = projectile_launch(&mut cooldown, 60, &up, &config, &mut stats, None);
    assert_eq!(r, LaunchOutcome::Cooling);
    let nowhere = v3(0.0, 0.0, 0.0);
    let r = projectile_launch(&mut cooldown, 60, &nowhere, &config, &mut stats, None);
    assert_eq!(r, LaunchOutcome::NoDirection);
    assert!(dart_launch(&vec![], &config, &mut stats, None).is_none());
    assert_eq!(stats.launch_count, u32::MAX);
    let mut link = AutoAimLink { cmd_count: u64::MAX, last_cmd_at: None };
    assert_eq!(process_subscription(&mut link, None, 5), GimbalOrder::Nothing);
}

#[test]
fn judged_commands_order_what_the_link_lets_them() {
    let cmd = GimbalCmd {
        yaw_deg: f(1.0),
        pitch_deg: f(2.0),
        distance_m: f(3.0),
        fire_advice: 1,
        ..GimbalCmd::default()
    };
    for fire in [false, true] {
        assert_eq!(
            judged_order(&cmd, LinkVerdict::Control { fire }),
            GimbalOrder::Aim { yaw_deg: f(1.0), pitch_deg: f(2.0), fire }
        );
    }
    assert_eq!(judged_order(&cmd, LinkVerdict::SafeStop), GimbalOrder::Hold);
    assert_eq!(
        judged_order(&cmd, LinkVerdict::Reject(RejectReason::Expired)),
        GimbalOrder::Nothing
    );
}
