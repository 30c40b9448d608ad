//! What can be set.
//!
//! Reading the file is left to the caller. What holds where nothing is set, and what a change of the
//! file does, is decided here.
use crate::float::{F32, F64};
use vstd::prelude::*;

verus! {

/// The pattern of `1.0`, the lowest rate in hertz at which the physics runs.
pub const MIN_FIXED_HZ: u64 = 0x3ff0_0000_0000_0000;

/// How frames are presented where nothing is set: as fast as they come.
pub const DEFAULT_PRESENT_MODE: &'static str = "auto_no_vsync";

/// The frame of reference of the laser scanner where nothing is set.
pub const DEFAULT_LIVOX_FRAME: &'static str = "livox_frame";

/// The lease of the link to the vision process.
#[derive(Debug, Clone, Copy, PartialEq, Eq, Structural)]
pub struct AutoAimLinkConfig {
    /// In milliseconds. A command older than this is refused, and a peer that sends nothing valid
    /// for longer than this is taken to be gone.
    pub lease_ms: F32,
}

impl AutoAimLinkConfig {
    /// What holds where nothing is set: half a second.
    pub open spec fn standard() -> AutoAimLinkConfig {
        AutoAimLinkConfig { lease_ms: F32 { bits: 0x43fa_0000 } }
    }

    /// The lease in whole nanoseconds; nothing where it is negative or no number.
    pub open spec fn lease(&self) -> u64 {
        self.lease_ms.spec_scaled_floor(1_000_000) as u64
    }

    /// The lease in whole nanoseconds.
    pub fn lease_ns(&self) -> (r: u64)
        ensures
            r == self.lease(),
            r == self.lease_ms.spec_scaled_floor(1_000_000),
    {
        self.lease_ms.scaled_floor(1_000_000)
    }
}

impl Default for AutoAimLinkConfig {
    fn default() -> (r: Self)
        ensures
            r == AutoAimLinkConfig::standard(),
    {
        AutoAimLinkConfig { lease_ms: F32 { bits: 0x43fa_0000 } }
    }
}

/// Where things stand at the start, in metres.
#[derive(Debug, Clone, Copy)]
pub struct SceneConfig {
    /// The controlled infantry.
    pub controlled_infantry: [F32; 3],
    /// The blue infantry.
    pub blue_infantry: [F32; 3],
    /// The blue hero.
    pub blue_hero: [F32; 3],
    /// The root of the power rune.
    pub power_rune: [F32; 3],
}

impl SceneConfig {
    /// What holds where nothing is set.
    pub open spec fn standard() -> SceneConfig {
        SceneConfig {
            // 0.0, 1.0, 0.0
            controlled_infantry: [
                F32 { bits: 0x0000_0000 },
                F32 { bits: 0x3f80_0000 },
                F32 { bits: 0x0000_0000 },
            ],
            // 1.0, 1.0, 1.0
            blue_infantry: [
                F32 { bits: 0x3f80_0000 },
                F32 { bits: 0x3f80_0000 },
                F32 { bits: 0x3f80_0000 },
            ],
            // 2.0, 1.0, 1.0
            blue_hero: [
                F32 { bits: 0x4000_0000 },
                F32 { bits: 0x3f80_0000 },
                F32 { bits: 0x3f80_0000 },
            ],
            // 0.0, 0.0, 0.0
            power_rune: [
                F32 { bits: 0x0000_0000 },
                F32 { bits: 0x0000_0000 },
                F32 { bits: 0x0000_0000 },
            ],
        }
    }
}

impl Default for SceneConfig {
    fn default() -> (r: Self)
        ensures
            r == SceneConfig::standard(),
    {
        SceneConfig {
            // 0.0, 1.0, 0.0
            controlled_infantry: [
                F32 { bits: 0x0000_0000 },
                F32 { bits: 0x3f80_0000 },
                F32 { bits: 0x0000_0000 },
            ],
            // 1.0, 1.0, 1.0
            blue_infantry: [
                F32 { bits: 0x3f80_0000 },
                F32 { bits: 0x3f80_0000 },
                F32 { bits: 0x3f80_0000 },
            ],
            // 2.0, 1.0, 1.0
            blue_hero: [
                F32 { bits: 0x4000_0000 },
                F32 { bits: 0x3f80_0000 },
                F32 { bits: 0x3f80_0000 },
            ],
            // 0.0, 0.0, 0.0
            power_rune: [
                F32 { bits: 0x0000_0000 },
                F32 { bits: 0x0000_0000 },
                F32 { bits: 0x0000_0000 },
            ],
        }
    }
}

/// The window.
#[derive(Debug)]
pub struct WindowConfig {
    pub present_mode: String,
}

impl WindowConfig {
    /// What holds where nothing is set.
    pub open spec fn is_standard(&self) -> bool {
        self.present_mode@ == DEFAULT_PRESENT_MODE@
    }
}

impl Default for WindowConfig {
    fn default() -> (r: Self)
        ensures
            r.is_standard(),
    {
        WindowConfig { present_mode: DEFAULT_PRESENT_MODE.to_owned() }
    }
}

/// What helps to find faults.
#[derive(Debug, Clone, Copy)]
pub struct DebugConfig {
    pub egui: bool,
    pub inspector: bool,
    pub diagnostics: bool,
}

impl DebugConfig {
    /// What holds where nothing is set.
    pub open spec fn standard() -> DebugConfig {
        DebugConfig {
            egui: false,
            inspector: false,
            diagnostics: false,
        }
    }
}

impl Default for DebugConfig {
    fn default() -> (r: Self)
        ensures
            r == DebugConfig::standard(),
    {
        DebugConfig {
            egui: false,
            inspector: false,
            diagnostics: false,
        }
    }
}

/// The preview of what the camera sees.
#[derive(Debug, Clone, Copy)]
pub struct PreviewConfig {
    pub enabled: bool,
}

impl PreviewConfig {
    /// What holds where nothing is set.
    pub open spec fn standard() -> PreviewConfig {
        PreviewConfig {
            enabled: true,
        }
    }
}

impl Default for PreviewConfig {
    fn default() -> (r: Self)
        ensures
            r == PreviewConfig::standard(),
    {
        PreviewConfig {
            enabled: true,
        }
    }
}

/// How the scene is drawn.
#[derive(Debug, Clone, Copy)]
pub struct RenderConfig {
    /// In lux.
    pub illuminance: F32,
    /// The exposure of the capture camera; without one it follows from the illuminance.
    pub capture_ev100: Option<F32>,
    pub shadows: bool,
    pub main_camera_fxaa: bool,
    pub metalfx_temporal: bool,
    pub metalfx_frame_generation: bool,
    pub metalfx_scale: F32,
}

impl RenderConfig {
    /// What holds where nothing is set.
    pub open spec fn standard(macos: bool) -> RenderConfig {
        RenderConfig {
            illuminance: F32 { bits: 0x4248_0000 },  // 50.0
            capture_ev100: None,
            shadows: false,
            main_camera_fxaa: false,
            metalfx_temporal: macos,
            metalfx_frame_generation: macos,
            metalfx_scale: F32 { bits: 0x4000_0000 },  // 2.0
        }
    }
}

impl RenderConfig {
    /// What holds where nothing is set; some of it is there on one system only.
    pub fn defaults(macos: bool) -> (r: RenderConfig)
        ensures
            r == RenderConfig::standard(macos),
    {
        RenderConfig {
            illuminance: F32 { bits: 0x4248_0000 },  // 50.0
            capture_ev100: None,
            shadows: false,
            main_camera_fxaa: false,
            metalfx_temporal: macos,
            metalfx_frame_generation: macos,
            metalfx_scale: F32 { bits: 0x4000_0000 },  // 2.0
        }
    }
}

/// The physics.
#[derive(Debug, Clone, Copy)]
pub struct PhysicsConfig {
    pub substep_count: u32,
    pub fixed_hz: F64,
}

impl PhysicsConfig {
    /// What holds where nothing is set.
    pub open spec fn standard() -> PhysicsConfig {
        PhysicsConfig {
            substep_count: 8,
            fixed_hz: F64 { bits: 0x405e0000_00000000 },  // 120.0
        }
    }
}

impl Default for PhysicsConfig {
    fn default() -> (r: Self)
        ensures
            r == PhysicsConfig::standard(),
    {
        PhysicsConfig {
            substep_count: 8,
            fixed_hz: F64 { bits: 0x405e0000_00000000 },  // 120.0
        }
    }
}

/// How the vehicles drive.
#[derive(Debug, Clone, Copy)]
pub struct VehicleConfig {
    pub rotation_speed: F32,
    pub tilt_rotation_speed: F32,
    pub gimbal_rotation_speed: F32,
    pub gimbal_pitch_limit: F32,
    pub max_speed: F32,
    pub linear_acceleration: F32,
    pub acceleration_exponent: F32,
}

impl VehicleConfig {
    /// What holds where nothing is set.
    pub open spec fn standard() -> VehicleConfig {
        VehicleConfig {
            rotation_speed: F32 { bits: 0x4040_0000 },  // 3.0
            tilt_rotation_speed: F32 { bits: 0x4040_0000 },  // 3.0
            gimbal_rotation_speed: F32 { bits: 0x4040_0000 },  // 3.0
            gimbal_pitch_limit: F32 { bits: 0x3f48_f5c3 },  // 0.785
            max_speed: F32 { bits: 0x4080_0000 },  // 4.0
            linear_acceleration: F32 { bits: 0x4100_0000 },  // 8.0
            acceleration_exponent: F32 { bits: 0x4120_0000 },  // 10.0
        }
    }
}

impl Default for VehicleConfig {
    fn default() -> (r: Self)
        ensures
            r == VehicleConfig::standard(),
    {
        VehicleConfig {
            rotation_speed: F32 { bits: 0x4040_0000 },  // 3.0
            tilt_rotation_speed: F32 { bits: 0x4040_0000 },  // 3.0
            gimbal_rotation_speed: F32 { bits: 0x4040_0000 },  // 3.0
            gimbal_pitch_limit: F32 { bits: 0x3f48_f5c3 },  // 0.785
            max_speed: F32 { bits: 0x4080_0000 },  // 4.0
            linear_acceleration: F32 { bits: 0x4100_0000 },  // 8.0
            acceleration_exponent: F32 { bits: 0x4120_0000 },  // 10.0
        }
    }
}

/// The wheels.
#[derive(Debug, Clone, Copy)]
pub struct MecanumConfig {
    pub wheel_radius_m: F32,
    pub half_wheelbase_m: F32,
    pub half_trackwidth_m: F32,
}

impl MecanumConfig {
    /// What holds where nothing is set.
    pub open spec fn standard() -> MecanumConfig {
        MecanumConfig {
            wheel_radius_m: F32 { bits: 0x3d9b_a5e3 },  // 0.076
            half_wheelbase_m: F32 { bits: 0x3e38_51ec },  // 0.18
            half_trackwidth_m: F32 { bits: 0x3e19_999a },  // 0.15
        }
    }
}

impl Default for MecanumConfig {
    fn default() -> (r: Self)
        ensures
            r == MecanumConfig::standard(),
    {
        MecanumConfig {
            wheel_radius_m: F32 { bits: 0x3d9b_a5e3 },  // 0.076
            half_wheelbase_m: F32 { bits: 0x3e38_51ec },  // 0.18
            half_trackwidth_m: F32 { bits: 0x3e19_999a },  // 0.15
        }
    }
}

/// What the air does to a projectile.
#[derive(Debug, Clone, Copy)]
pub struct ProjectileAerodynamicsConfig {
    pub enabled: bool,
    /// In kilograms per cubic metre.
    pub air_density: F32,
    pub drag_coefficient: F32,
    /// In metres per second.
    pub wind: [F32; 3],
}

impl ProjectileAerodynamicsConfig {
    /// What holds where nothing is set.
    pub open spec fn standard() -> ProjectileAerodynamicsConfig {
        ProjectileAerodynamicsConfig {
            enabled: true,
            air_density: F32 { bits: 0x3f9c_cccd },  // 1.225
            drag_coefficient: F32 { bits: 0x3ef0_a3d7 },  // 0.47
            // 0.0, 0.0, 0.0
            wind: [
                F32 { bits: 0x0000_0000 },
                F32 { bits: 0x0000_0000 },
                F32 { bits: 0x0000_0000 },
            ],
        }
    }
}

impl Default for ProjectileAerodynamicsConfig {
    fn default() -> (r: Self)
        ensures
            r == ProjectileAerodynamicsConfig::standard(),
    {
        ProjectileAerodynamicsConfig {
            enabled: true,
            air_density: F32 { bits: 0x3f9c_cccd },  // 1.225
            drag_coefficient: F32 { bits: 0x3ef0_a3d7 },  // 0.47
            // 0.0, 0.0, 0.0
            wind: [
                F32 { bits: 0x0000_0000 },
                F32 { bits: 0x0000_0000 },
                F32 { bits: 0x0000_0000 },
            ],
        }
    }
}

/// The projectiles.
#[derive(Debug, Clone, Copy)]
pub struct ProjectileConfig {
    pub lifetime: F32,
    pub speed: F32,
    pub cooldown: F32,
    pub diameter: F32,
    pub uav_size: F32,
    pub uav_vel: F32,
    pub mass: F32,
    pub friction: F32,
    pub linear_damping: F32,
    pub aerodynamics: ProjectileAerodynamicsConfig,
}

impl ProjectileConfig {
    /// What holds where nothing is set.
    pub open spec fn standard() -> ProjectileConfig {
        ProjectileConfig {
            lifetime: F32 { bits: 0x40a0_0000 },  // 5.0
            speed: F32 { bits: 0x41c8_0000 },  // 25.0
            cooldown: F32 { bits: 0x3dcc_cccd },  // 0.1
            diameter: F32 { bits: 0x3c8b_4396 },  // 0.017
            uav_size: F32 { bits: 0x3f80_0000 },  // 1.0
            uav_vel: F32 { bits: 0x4000_0000 },  // 2.0
            mass: F32 { bits: 0x3c8b_4396 },  // 0.017
            friction: F32 { bits: 0x3f8c_cccd },  // 1.1
            linear_damping: F32 { bits: 0x0000_0000 },  // 0.0
            aerodynamics: ProjectileAerodynamicsConfig::standard(),
        }
    }
}

impl Default for ProjectileConfig {
    fn default() -> (r: Self)
        ensures
            r == ProjectileConfig::standard(),
    {
        ProjectileConfig {
            lifetime: F32 { bits: 0x40a0_0000 },  // 5.0
            speed: F32 { bits: 0x41c8_0000 },  // 25.0
            cooldown: F32 { bits: 0x3dcc_cccd },  // 0.1
            diameter: F32 { bits: 0x3c8b_4396 },  // 0.017
            uav_size: F32 { bits: 0x3f80_0000 },  // 1.0
            uav_vel: F32 { bits: 0x4000_0000 },  // 2.0
            mass: F32 { bits: 0x3c8b_4396 },  // 0.017
            friction: F32 { bits: 0x3f8c_cccd },  // 1.1
            linear_damping: F32 { bits: 0x0000_0000 },  // 0.0
            aerodynamics: ProjectileAerodynamicsConfig::default(),
        }
    }
}

/// The camera.
#[derive(Debug, Clone, Copy)]
pub struct CameraConfig {
    /// In degrees.
    pub fov: F32,
    pub free_move_speed: F32,
    pub follow_offset: [F32; 3],
    pub mouse_sensitivity: F32,
}

impl CameraConfig {
    /// What holds where nothing is set.
    pub open spec fn standard() -> CameraConfig {
        CameraConfig {
            fov: F32 { bits: 0x4234_0000 },  // 45.0
            free_move_speed: F32 { bits: 0x4100_0000 },  // 8.0
            // 0.0, 3.0, 2.0
            follow_offset: [
                F32 { bits: 0x0000_0000 },
                F32 { bits: 0x4040_0000 },
                F32 { bits: 0x4000_0000 },
            ],
            mouse_sensitivity: F32 { bits: 0x3b44_9ba6 },  // 0.003
        }
    }
}

impl Default for CameraConfig {
    fn default() -> (r: Self)
        ensures
            r == CameraConfig::standard(),
    {
        CameraConfig {
            fov: F32 { bits: 0x4234_0000 },  // 45.0
            free_move_speed: F32 { bits: 0x4100_0000 },  // 8.0
            // 0.0, 3.0, 2.0
            follow_offset: [
                F32 { bits: 0x0000_0000 },
                F32 { bits: 0x4040_0000 },
                F32 { bits: 0x4000_0000 },
            ],
            mouse_sensitivity: F32 { bits: 0x3b44_9ba6 },  // 0.003
        }
    }
}

/// The colour stream.
#[derive(Debug, Clone, Copy)]
pub struct CaptureStreamConfig {
    pub width: u32,
    pub height: u32,
}

impl CaptureStreamConfig {
    /// What holds where nothing is set.
    pub open spec fn standard() -> CaptureStreamConfig {
        CaptureStreamConfig {
            width: 1440,
            height: 1080,
        }
    }
}

impl Default for CaptureStreamConfig {
    fn default() -> (r: Self)
        ensures
            r == CaptureStreamConfig::standard(),
    {
        CaptureStreamConfig {
            width: 1440,
            height: 1080,
        }
    }
}

/// The depth stream.
#[derive(Debug, Clone, Copy)]
pub struct DepthCaptureConfig {
    pub width: u32,
    pub height: u32,
    pub near: F32,
    pub far: F32,
}

impl DepthCaptureConfig {
    /// What holds where nothing is set.
    pub open spec fn standard() -> DepthCaptureConfig {
        DepthCaptureConfig {
            width: 640,
            height: 480,
            near: F32 { bits: 0x3dcc_cccd },  // 0.1
            far: F32 { bits: 0x42a0_0000 },  // 80.0
        }
    }
}

impl Default for DepthCaptureConfig {
    fn default() -> (r: Self)
        ensures
            r == DepthCaptureConfig::standard(),
    {
        DepthCaptureConfig {
            width: 640,
            height: 480,
            near: F32 { bits: 0x3dcc_cccd },  // 0.1
            far: F32 { bits: 0x42a0_0000 },  // 80.0
        }
    }
}

/// What is captured.
#[derive(Debug, Clone, Copy)]
pub struct CapturePipelineConfig {
    pub color: CaptureStreamConfig,
    pub depth: DepthCaptureConfig,
}

impl CapturePipelineConfig {
    /// What holds where nothing is set.
    pub open spec fn standard() -> CapturePipelineConfig {
        CapturePipelineConfig {
            color: CaptureStreamConfig::standard(),
            depth: DepthCaptureConfig::standard(),
        }
    }
}

impl Default for CapturePipelineConfig {
    fn default() -> (r: Self)
        ensures
            r == CapturePipelineConfig::standard(),
    {
        CapturePipelineConfig {
            color: CaptureStreamConfig::default(),
            depth: DepthCaptureConfig::default(),
        }
    }
}

/// The laser scanner.
#[derive(Debug)]
pub struct LivoxRosConfig {
    pub enabled: bool,
    pub frame_id: String,
    pub publish_freq: F32,
    pub points_per_second: u32,
    pub line_num: u8,
    pub tag_default: u8,
    pub intensity_default: F32,
}

impl LivoxRosConfig {
    /// What holds where nothing is set.
    pub open spec fn is_standard(&self) -> bool {
        &&& self.enabled
        &&& self.frame_id@ == DEFAULT_LIVOX_FRAME@
        &&& self.publish_freq == (F32 { bits: 0x4120_0000 })  // 10.0
        &&& self.points_per_second == 100_000
        &&& self.line_num == 6
        &&& self.tag_default == 0
        &&& self.intensity_default == (F32 { bits: 0x42c8_0000 })  // 100.0
    }
}

impl Default for LivoxRosConfig {
    fn default() -> (r: Self)
        ensures
            r.is_standard(),
    {
        LivoxRosConfig {
            enabled: true,
            frame_id: DEFAULT_LIVOX_FRAME.to_owned(),
            publish_freq: F32 { bits: 0x4120_0000 },  // 10.0
            points_per_second: 100_000,
            line_num: 6,
            tag_default: 0,
            intensity_default: F32 { bits: 0x42c8_0000 },  // 100.0
        }
    }
}

/// All that can be set.
#[derive(Debug)]
pub struct SimulationConfig {
    pub window: WindowConfig,
    pub debug: DebugConfig,
    pub preview: PreviewConfig,
    pub render: RenderConfig,
    pub capture: CapturePipelineConfig,
    pub livox_ros: LivoxRosConfig,
    pub physics: PhysicsConfig,
    pub vehicle: VehicleConfig,
    pub mecanum: MecanumConfig,
    pub projectile: ProjectileConfig,
    pub camera: CameraConfig,
    pub scene: SceneConfig,
    pub auto_aim: AutoAimLinkConfig,
}

impl SimulationConfig {
    /// Nothing was set.
    pub open spec fn is_standard(&self, macos: bool) -> bool {
        &&& self.window.is_standard()
        &&& self.livox_ros.is_standard()
        &&& self.render == RenderConfig::standard(macos)
        &&& self.debug == DebugConfig::standard()
        &&& self.preview == PreviewConfig::standard()
        &&& self.capture == CapturePipelineConfig::standard()
        &&& self.physics == PhysicsConfig::standard()
        &&& self.vehicle == VehicleConfig::standard()
        &&& self.mecanum == MecanumConfig::standard()
        &&& self.projectile == ProjectileConfig::standard()
        &&& self.camera == CameraConfig::standard()
        &&& self.scene == SceneConfig::standard()
        &&& self.auto_aim == AutoAimLinkConfig::standard()
    }

    /// What holds where the file says nothing.
    pub fn fallback(macos: bool) -> (r: SimulationConfig)
        ensures
            r.is_standard(macos),
    {
        SimulationConfig {
            window: WindowConfig::default(),
            debug: DebugConfig::default(),
            preview: PreviewConfig::default(),
            render: RenderConfig::defaults(macos),
            capture: CapturePipelineConfig::default(),
            livox_ros: LivoxRosConfig::default(),
            physics: PhysicsConfig::default(),
            vehicle: VehicleConfig::default(),
            mecanum: MecanumConfig::default(),
            projectile: ProjectileConfig::default(),
            camera: CameraConfig::default(),
            scene: SceneConfig::default(),
            auto_aim: AutoAimLinkConfig::default(),
        }
    }

    /// What the file says or, where it cannot be read, what holds without it.
    pub fn loaded_or_default(loaded: Option<SimulationConfig>, macos: bool) -> (r: SimulationConfig)
        ensures
            loaded matches Some(config) ==> r == config,
            loaded is None ==> r.is_standard(macos),
    {
        match loaded {
            Some(config) => config,
            None => SimulationConfig::fallback(macos),
        }
    }
}

/// What was heard of the file.
#[derive(Debug, Clone, Copy, PartialEq, Eq, Structural)]
pub enum FileNews {
    /// Nothing more, or the watcher failed.
    Nothing,
    /// Something other than a change of its contents.
    Other,
    /// Its contents changed.
    Modified,
}

/// What to do about it.
#[derive(Debug, Clone, Copy, PartialEq, Eq, Structural)]
pub enum ReloadAction {
    /// Listen no more in this frame.
    Stop,
    /// Listen on.
    Listen,
    /// Read the file, report what it says, and listen on.
    Load,
}

/// What to do about what was heard.
pub fn on_file_news(news: FileNews) -> (r: ReloadAction)
    ensures
        news is Nothing ==> r is Stop,
        news is Other ==> r is Listen,
        news is Modified ==> r is Load,
{
    match news {
        FileNews::Nothing => ReloadAction::Stop,
        FileNews::Other => ReloadAction::Listen,
        FileNews::Modified => ReloadAction::Load,
    }
}

/// What a change of the file does to the running simulation.
#[derive(Debug, Clone, Copy, PartialEq, Eq, Structural)]
pub struct ReloadEffect {
    /// The substeps of the physics from now on.
    pub substep_count: Option<u32>,
    /// The rate of the physics from now on.
    pub fixed_hz: Option<F64>,
}

/// The rate at which the physics runs: what is set, but at least once a second.
pub open spec fn physics_rate(fixed_hz: F64) -> F64 {
    let floor = F64 { bits: MIN_FIXED_HZ };
    if fixed_hz.nan() || fixed_hz.rank() <= floor.rank() {
        floor
    } else {
        fixed_hz
    }
}

/// Takes in what the file says after a change. What cannot be read changes nothing. `substeps` and
/// `fixed_time` say whether there is a physics to tell.
pub fn config_hot_reload(
    config: &mut SimulationConfig,
    loaded: Option<SimulationConfig>,
    substeps: bool,
    fixed_time: bool,
) -> (effect: ReloadEffect)
    ensures
        loaded is None ==> *final(config) == *old(config) && effect.substep_count is None
            && effect.fixed_hz is None,
        loaded matches Some(new_config) ==> {
            &&& *final(config) == new_config
            &&& effect.substep_count == (if substeps {
                Some(new_config.physics.substep_count)
            } else {
                None
            })
            &&& effect.fixed_hz == (if fixed_time {
                Some(physics_rate(new_config.physics.fixed_hz))
            } else {
                None
            })
        },
{
    match loaded {
        Some(new_config) => {
            let effect = ReloadEffect {
                substep_count: if substeps {
                    Some(new_config.physics.substep_count)
                } else {
                    None
                },
                fixed_hz: if fixed_time {
                    Some(new_config.physics.fixed_hz.at_least(F64 { bits: MIN_FIXED_HZ }))
                } else {
                    None
                },
            };
            *config = new_config;
            effect
        },
        None => ReloadEffect { substep_count: None, fixed_hz: None },
    }
}

/// The physics never runs slower than once a second, whatever is set.
pub proof fn law_physics_keeps_running(fixed_hz: F64)
    ensures
        !physics_rate(fixed_hz).nan(),
        physics_rate(fixed_hz).rank() >= (F64 { bits: MIN_FIXED_HZ }).rank(),
        !fixed_hz.nan() && fixed_hz.rank() >= (F64 { bits: MIN_FIXED_HZ }).rank()
            ==> physics_rate(fixed_hz) == fixed_hz,
{
}

/// The lease is the whole number of nanoseconds in the configured milliseconds, and nothing where
/// that is negative or no number.
pub proof fn law_the_lease_counts_nanoseconds(config: AutoAimLinkConfig)
    ensures
        ({
            let ms = config.lease_ms;
            let one = vstd::arithmetic::power2::pow2(149);
            &&& ms.nan() || ms.negative() ==> config.lease() == 0
            &&& ms.finite() && !ms.negative() && config.lease() < u64::MAX ==> config.lease() * one
                <= ms.units() * 1_000_000 < (config.lease() + 1) * one
        }),
        AutoAimLinkConfig::standard().lease_ms.bits == 0x43fa_0000,
{
    crate::float::law_scaled_numbers_are_cut_down(config.lease_ms, 1_000_000);
}

/// What holds where nothing is configured, as patterns.
pub proof fn law_standard_values(macos: bool)
    ensures
        ({
            let r = SceneConfig::standard();
            &&& r.controlled_infantry[0].bits == 0x0000_0000
            &&& r.controlled_infantry[1].bits == 0x3f80_0000
            &&& r.controlled_infantry[2].bits == 0x0000_0000
            &&& r.blue_infantry[0].bits == 0x3f80_0000
            &&& r.blue_infantry[1].bits == 0x3f80_0000
            &&& r.blue_infantry[2].bits == 0x3f80_0000
            &&& r.blue_hero[0].bits == 0x4000_0000
            &&& r.blue_hero[1].bits == 0x3f80_0000
            &&& r.blue_hero[2].bits == 0x3f80_0000
            &&& r.power_rune[0].bits == 0x0000_0000
            &&& r.power_rune[1].bits == 0x0000_0000
            &&& r.power_rune[2].bits == 0x0000_0000
        }),
        ({
            let r = DebugConfig::standard();
            &&& !r.egui
            &&& !r.inspector
            &&& !r.diagnostics
        }),
        ({
            let r = PreviewConfig::standard();
            &&& r.enabled
        }),
        ({
            let r = RenderConfig::standard(macos);
            &&& r.illuminance.bits == 0x4248_0000
            &&& r.capture_ev100 is None
            &&& !r.shadows
            &&& !r.main_camera_fxaa
            &&& r.metalfx_temporal == macos
            &&& r.metalfx_frame_generation == macos
            &&& r.metalfx_scale.bits == 0x4000_0000
        }),
        ({
            let r = PhysicsConfig::standard();
            &&& r.substep_count == 8
            &&& r.fixed_hz.bits == 0x405e0000_00000000
        }),
        ({
            let r = VehicleConfig::standard();
            &&& r.rotation_speed.bits == 0x4040_0000
            &&& r.tilt_rotation_speed.bits == 0x4040_0000
            &&& r.gimbal_rotation_speed.bits == 0x4040_0000
            &&& r.gimbal_pitch_limit.bits == 0x3f48_f5c3
            &&& r.max_speed.bits == 0x4080_0000
            &&& r.linear_acceleration.bits == 0x4100_0000
            &&& r.acceleration_exponent.bits == 0x4120_0000
        }),
        ({
            let r = MecanumConfig::standard();
            &&& r.wheel_radius_m.bits == 0x3d9b_a5e3
            &&& r.half_wheelbase_m.bits == 0x3e38_51ec
            &&& r.half_trackwidth_m.bits == 0x3e19_999a
        }),
        ({
            let r = ProjectileAerodynamicsConfig::standard();
            &&& r.enabled
            &&& r.air_density.bits == 0x3f9c_cccd
            &&& r.drag_coefficient.bits == 0x3ef0_a3d7
            &&& r.wind[0].bits == 0x0000_0000
            &&& r.wind[1].bits == 0x0000_0000
            &&& r.wind[2].bits == 0x0000_0000
        }),
        ({
            let r = ProjectileConfig::standard();
            &&& r.lifetime.bits == 0x40a0_0000
            &&& r.speed.bits == 0x41c8_0000
            &&& r.cooldown.bits == 0x3dcc_cccd
            &&& r.diameter.bits == 0x3c8b_4396
            &&& r.uav_size.bits == 0x3f80_0000
            &&& r.uav_vel.bits == 0x4000_0000
            &&& r.mass.bits == 0x3c8b_4396
            &&& r.friction.bits == 0x3f8c_cccd
            &&& r.linear_damping.bits == 0x0000_0000
            &&& r.aerodynamics == ProjectileAerodynamicsConfig::standard()
        }),
        ({
            let r = CameraConfig::standard();
            &&& r.fov.bits == 0x4234_0000
            &&& r.free_move_speed.bits == 0x4100_0000
            &&& r.follow_offset[0].bits == 0x0000_0000
            &&& r.follow_offset[1].bits == 0x4040_0000
            &&& r.follow_offset[2].bits == 0x4000_0000
            &&& r.mouse_sensitivity.bits == 0x3b44_9ba6
        }),
        ({
            let r = CaptureStreamConfig::standard();
            &&& r.width == 1440
            &&& r.height == 1080
        }),
        ({
            let r = DepthCaptureConfig::standard();
            &&& r.width == 640
            &&& r.height == 480
            &&& r.near.bits == 0x3dcc_cccd
            &&& r.far.bits == 0x42a0_0000
        }),
        ({
            let r = CapturePipelineConfig::standard();
            &&& r.color == CaptureStreamConfig::standard()
            &&& r.depth == DepthCaptureConfig::standard()
        }),
{
}

/// What changes when the file does: a configuration that could be read takes over whole, and tells
/// the physics its steps where these can be set; one that could not be read changes nothing.
pub proof fn law_calls_of_config_hot_reload(
    config: &mut SimulationConfig,
    loaded: Option<SimulationConfig>,
    substeps: bool,
    fixed_time: bool,
    effect: ReloadEffect,
)
    requires
        call_ensures(config_hot_reload, (config, loaded, substeps, fixed_time), effect),
    ensures
        loaded is None ==> *final(config) == *old(config),
        loaded is Some ==> *final(config) == loaded->0,
        effect.substep_count is Some <==> loaded is Some && substeps,
        effect.fixed_hz is Some <==> loaded is Some && fixed_time,
        effect.substep_count is Some ==> effect.substep_count->0
            == loaded->0.physics.substep_count,
        effect.fixed_hz is Some ==> effect.fixed_hz->0 == physics_rate(
            loaded->0.physics.fixed_hz,
        ),
{
}

/// News of the file: a change is loaded, silence ends the listening, and anything else is passed
/// by. What was loaded is used, and else what holds where nothing is set.
pub proof fn law_calls_of_the_loaders(
    news: FileNews,
    action: ReloadAction,
    loaded: Option<SimulationConfig>,
    macos: bool,
    used: SimulationConfig,
    fallback: SimulationConfig,
    render: RenderConfig,
)
    requires
        call_ensures(on_file_news, (news,), action),
        call_ensures(SimulationConfig::loaded_or_default, (loaded, macos), used),
        call_ensures(SimulationConfig::fallback, (macos,), fallback),
        call_ensures(RenderConfig::defaults, (macos,), render),
    ensures
        action is Stop <==> news is Nothing,
        action is Listen <==> news is Other,
        action is Load <==> news is Modified,
        loaded is Some ==> used == loaded->0,
        loaded is None ==> used.is_standard(macos),
        fallback.is_standard(macos),
        render.metalfx_temporal == macos,
        render.metalfx_frame_generation == macos,
        render.illuminance.bits == 0x4248_0000,
        render.metalfx_scale.bits == 0x4000_0000,
{
}

/// The lease is the whole number of nanoseconds in the configured milliseconds.
pub proof fn law_calls_of_lease_ns(config: AutoAimLinkConfig, r: u64)
    requires
        call_ensures(AutoAimLinkConfig::lease_ns, (&config,), r),
    ensures
        config.lease_ms.nan() || config.lease_ms.negative() ==> r == 0,
        config.lease_ms.finite() && !config.lease_ms.negative() && r < u64::MAX ==> r
            * vstd::arithmetic::power2::pow2(149) <= config.lease_ms.units() * 1_000_000 < (r + 1)
            * vstd::arithmetic::power2::pow2(149),
{
    crate::float::law_scaled_numbers_are_cut_down(config.lease_ms, 1_000_000);
}

/// Where nothing is configured the standard values hold.
pub proof fn law_defaults_are_standard(
    scene: SceneConfig,
    debug: DebugConfig,
    preview: PreviewConfig,
    physics: PhysicsConfig,
    vehicle: VehicleConfig,
    mecanum: MecanumConfig,
    air: ProjectileAerodynamicsConfig,
    projectile: ProjectileConfig,
    camera: CameraConfig,
    capture: CapturePipelineConfig,
    auto_aim: AutoAimLinkConfig,
)
    requires
        call_ensures(SceneConfig::default, (), scene),
        call_ensures(DebugConfig::default, (), debug),
        call_ensures(PreviewConfig::default, (), preview),
        call_ensures(PhysicsConfig::default, (), physics),
        call_ensures(VehicleConfig::default, (), vehicle),
        call_ensures(MecanumConfig::default, (), mecanum),
        call_ensures(ProjectileAerodynamicsConfig::default, (), air),
        call_ensures(ProjectileConfig::default, (), projectile),
        call_ensures(CameraConfig::default, (), camera),
        call_ensures(CapturePipelineConfig::default, (), capture),
        call_ensures(AutoAimLinkConfig::default, (), auto_aim),
    ensures
        scene == SceneConfig::standard(),
        debug == DebugConfig::standard(),
        preview == PreviewConfig::standard(),
        physics == PhysicsConfig::standard(),
        vehicle == VehicleConfig::standard(),
        mecanum == MecanumConfig::standard(),
        air == ProjectileAerodynamicsConfig::standard(),
        projectile == ProjectileConfig::standard(),
        camera == CameraConfig::standard(),
        capture == CapturePipelineConfig::standard(),
        auto_aim.lease_ms.bits == 0x43fa_0000,
{
}

/// What the standard says of the window and of the point cloud.
pub proof fn law_standard_texts(window: WindowConfig, livox: LivoxRosConfig)
    requires
        window.is_standard(),
        livox.is_standard(),
    ensures
        window.present_mode@ == "auto_no_vsync"@,
        livox.enabled,
        livox.frame_id@ == "livox_frame"@,
        livox.publish_freq.bits == 0x4120_0000,
        livox.points_per_second == 100_000,
        livox.line_num == 6,
        livox.tag_default == 0,
        livox.intensity_default.bits == 0x42c8_0000,
{
}

/// The rate of the physics is the one that is set where that is above one per second, and else one
/// per second.
pub proof fn law_the_rate_is_at_least_one(fixed_hz: F64)
    ensures
        0x3ff0_0000_0000_0000 < fixed_hz.bits <= 0x7ff0_0000_0000_0000 ==> physics_rate(
            fixed_hz,
        ).bits == fixed_hz.bits,
        !(0x3ff0_0000_0000_0000 < fixed_hz.bits <= 0x7ff0_0000_0000_0000) ==> physics_rate(
            fixed_hz,
        ).bits == 0x3ff0_0000_0000_0000,
{
}

} // verus!
