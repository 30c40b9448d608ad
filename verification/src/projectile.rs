//! When projectiles and darts are launched, and with what.
use crate::config::ProjectileConfig;
use crate::controller::ControllerState;
use crate::float::F32;
use crate::gamepad::{request_controller_rumble, RumbleRequest};
use crate::statistic::ProjectileStatistics;
use vstd::prelude::*;

verus! {

/// The pattern of `0.3`, the restitution of a projectile.
pub const PROJECTILE_RESTITUTION: u32 = 0x3e99_999a;

/// The pattern of `0.55`, the restitution of a dart.
pub const DART_RESTITUTION: u32 = 0x3f0c_cccd;

/// The pattern of `17.0`, the speed of a dart in metres per second.
pub const DART_SPEED_MPS: u32 = 0x4188_0000;

/// The pattern of `0.25`, the mass of a dart in kilograms.
pub const DART_MASS_KG: u32 = 0x3e80_0000;

/// The pattern of `0.005`, the size in metres of the cells that a dart's shape is made of.
pub const DART_VOXEL_M: u32 = 0x3ba3_d70a;

/// The pattern of `0.001`, the speed in metres per second up to which the air does nothing.
pub const STILL_AIR_SPEED: u32 = 0x3a83_126f;

/// The patterns of `0.45`, `0.2`, `0.65` and `0.35`: how strongly a launch shakes the gamepad.
pub const SHOT_STRONG: u32 = 0x3ee6_6666;

pub const SHOT_WEAK: u32 = 0x3e4c_cccd;

pub const DART_STRONG: u32 = 0x3f26_6666;

pub const DART_WEAK: u32 = 0x3eb3_3333;

/// Time that runs down once and stays at its end until it is set back.
#[derive(Debug, Clone, Copy, PartialEq, Eq, Structural)]
pub struct Countdown {
    pub elapsed_ns: u64,
    pub duration_ns: u64,
    pub finished: bool,
}

impl Countdown {
    /// The time that has run does not pass the end, and reaching the end is noticed.
    pub open spec fn wf(self) -> bool {
        &&& self.elapsed_ns <= self.duration_ns
        &&& self.finished ==> self.elapsed_ns == self.duration_ns
    }

    /// After some time. Where the end was reached nothing more happens.
    pub open spec fn after(self, delta_ns: u64) -> Countdown {
        if self.finished {
            self
        } else if self.elapsed_ns + delta_ns >= self.duration_ns {
            Countdown { elapsed_ns: self.duration_ns, finished: true, ..self }
        } else {
            Countdown { elapsed_ns: (self.elapsed_ns + delta_ns) as u64, ..self }
        }
    }

    /// After several steps of time.
    pub open spec fn after_all(self, deltas: Seq<u64>) -> Countdown
        decreases deltas.len(),
    {
        if deltas.len() == 0 {
            self
        } else {
            self.after_all(deltas.drop_last()).after(deltas.last())
        }
    }

    /// Set back to the start.
    pub open spec fn restarted(self) -> Countdown {
        Countdown { elapsed_ns: 0, finished: false, ..self }
    }

    /// A countdown at its start.
    pub fn start(duration_ns: u64) -> (r: Countdown)
        ensures
            r == (Countdown { elapsed_ns: 0, duration_ns, finished: false }),
            r.wf(),
    {
        Countdown { elapsed_ns: 0, duration_ns, finished: false }
    }

    /// Lets time pass.
    pub fn tick(&mut self, delta_ns: u64)
        requires
            old(self).wf(),
        ensures
            final(self).wf(),
            *final(self) == old(self).after(delta_ns),
    {
        if self.finished {
            return;
        }
        let elapsed: u64 = self.elapsed_ns.saturating_add(delta_ns);
        if elapsed >= self.duration_ns {
            self.elapsed_ns = self.duration_ns;
            self.finished = true;
        } else {
            self.elapsed_ns = elapsed;
        }
    }

    /// Sets back to the start.
    pub fn reset(&mut self)
        ensures
            *final(self) == old(self).restarted(),
            final(self).wf(),
    {
        self.elapsed_ns = 0;
        self.finished = false;
    }
}

/// The sum of some steps of time.
pub open spec fn total(deltas: Seq<u64>) -> nat
    decreases deltas.len(),
{
    if deltas.len() == 0 {
        0
    } else {
        total(deltas.drop_last()) + deltas.last() as nat
    }
}

/// What a projectile is launched with.
#[derive(Debug, Clone, Copy, PartialEq, Eq, Structural)]
pub struct ProjectileSpawn {
    pub speed: F32,
    pub diameter: F32,
    pub mass: F32,
    pub friction: F32,
    pub restitution: F32,
    pub linear_damping: F32,
    pub lifetime: F32,
}

/// What became of an attempt to launch.
#[derive(Debug, Clone, Copy, PartialEq, Eq, Structural)]
pub enum LaunchOutcome {
    /// The last launch is not long enough ago.
    Cooling,
    /// There is no direction to launch in.
    NoDirection,
    /// It is launched, and the gamepad shakes where there is one.
    Launched { spawn: ProjectileSpawn, rumble: Option<RumbleRequest> },
}

/// All three parts are zero, of either sign.
pub open spec fn no_direction(direction: [F32; 3]) -> bool {
    direction[0].magnitude() == 0 && direction[1].magnitude() == 0 && direction[2].magnitude() == 0
}

fn is_no_direction(direction: &[F32; 3]) -> (r: bool)
    ensures
        r == no_direction(*direction),
{
    let zero = F32 { bits: 0 };
    direction[0].same(zero) && direction[1].same(zero) && direction[2].same(zero)
}

/// The shake that goes with a launch.
pub open spec fn launch_shake(
    controller: Option<&ControllerState>,
    strong: u32,
    weak: u32,
    duration_ms: u64,
) -> Option<RumbleRequest> {
    match controller {
        Some(c) => match c.active_gamepad {
            Some(gamepad) => Some(
                RumbleRequest {
                    gamepad,
                    strong_motor: F32 { bits: strong },
                    weak_motor: F32 { bits: weak },
                    duration_ms,
                },
            ),
            None => None,
        },
        None => None,
    }
}

/// What a projectile is launched with.
pub open spec fn projectile_spawn(config: ProjectileConfig) -> ProjectileSpawn {
    ProjectileSpawn {
        speed: config.speed,
        diameter: config.diameter,
        mass: config.mass,
        friction: config.friction,
        restitution: F32 { bits: PROJECTILE_RESTITUTION },
        linear_damping: config.linear_damping,
        lifetime: config.lifetime,
    }
}

/// Launches a projectile where the cooldown is over and there is a direction. Only what is launched
/// is counted; an attempt without a direction uses the cooldown up all the same.
pub fn projectile_launch(
    cooldown: &mut Countdown,
    delta_ns: u64,
    direction: &[F32; 3],
    config: &ProjectileConfig,
    stats: &mut ProjectileStatistics,
    controller: Option<&ControllerState>,
) -> (r: LaunchOutcome)
    requires
        old(cooldown).wf(),
        old(cooldown).after(delta_ns).finished && !no_direction(*direction)
            ==> old(stats).launch_count < u32::MAX,
    ensures
        final(cooldown).wf(),
        ({
            let ticked = old(cooldown).after(delta_ns);
            &&& !ticked.finished ==> *final(cooldown) == ticked && r is Cooling
            &&& ticked.finished ==> *final(cooldown) == ticked.restarted()
            &&& ticked.finished && no_direction(*direction) ==> r is NoDirection
            &&& ticked.finished && !no_direction(*direction) ==> r == (LaunchOutcome::Launched {
                spawn: projectile_spawn(*config),
                rumble: launch_shake(controller, SHOT_STRONG, SHOT_WEAK, 80),
            })
        }),
        r is Launched ==> *final(stats) == (ProjectileStatistics {
            launch_count: (old(stats).launch_count + 1) as u32,
            ..*old(stats)
        }),
        !(r is Launched) ==> *final(stats) == *old(stats),
{
    cooldown.tick(delta_ns);
    if !cooldown.finished {
        return LaunchOutcome::Cooling;
    }
    cooldown.reset();
    if is_no_direction(direction) {
        return LaunchOutcome::NoDirection;
    }
    stats.increase_launch();
    let spawn = ProjectileSpawn {
        speed: config.speed,
        diameter: config.diameter,
        mass: config.mass,
        friction: config.friction,
        restitution: F32 { bits: PROJECTILE_RESTITUTION },
        linear_damping: config.linear_damping,
        lifetime: config.lifetime,
    };
    let rumble = request_controller_rumble(
        controller,
        F32 { bits: SHOT_STRONG },
        F32 { bits: SHOT_WEAK },
        80,
    );
    LaunchOutcome::Launched { spawn, rumble }
}

/// What a dart is launched with.
#[derive(Debug, Clone, Copy, PartialEq, Eq, Structural)]
pub struct DartSpawn {
    pub speed: F32,
    pub voxel_size: F32,
    pub mass: F32,
    pub friction: F32,
    pub restitution: F32,
    pub linear_damping: F32,
    pub lifetime: F32,
    pub rumble: Option<RumbleRequest>,
}

/// What a dart is launched with.
pub open spec fn dart_spawn(
    config: ProjectileConfig,
    controller: Option<&ControllerState>,
) -> DartSpawn {
    DartSpawn {
        speed: F32 { bits: DART_SPEED_MPS },
        voxel_size: F32 { bits: DART_VOXEL_M },
        mass: F32 { bits: DART_MASS_KG },
        friction: config.friction,
        restitution: F32 { bits: DART_RESTITUTION },
        linear_damping: config.linear_damping,
        lifetime: config.lifetime,
        rumble: launch_shake(controller, DART_STRONG, DART_WEAK, 140),
    }
}

/// Launches a dart where there is one launcher and it points somewhere. `directions` holds where
/// each launcher points.
pub fn dart_launch(
    directions: &Vec<[F32; 3]>,
    config: &ProjectileConfig,
    stats: &mut ProjectileStatistics,
    controller: Option<&ControllerState>,
) -> (r: Option<DartSpawn>)
    requires
        directions@.len() == 1 && !no_direction(directions@[0]) ==> old(stats).launch_count
            < u32::MAX,
    ensures
        r == (if directions@.len() == 1 && !no_direction(directions@[0]) {
            Some(dart_spawn(*config, controller))
        } else {
            None
        }),
        r is Some ==> *final(stats) == (ProjectileStatistics {
            launch_count: (old(stats).launch_count + 1) as u32,
            ..*old(stats)
        }),
        r is None ==> *final(stats) == *old(stats),
{
    if directions.len() != 1 {
        return None;
    }
    if is_no_direction(&directions[0]) {
        return None;
    }
    stats.increase_launch();
    Some(
        DartSpawn {
            speed: F32 { bits: DART_SPEED_MPS },
            voxel_size: F32 { bits: DART_VOXEL_M },
            mass: F32 { bits: DART_MASS_KG },
            friction: config.friction,
            restitution: F32 { bits: DART_RESTITUTION },
            linear_damping: config.linear_damping,
            lifetime: config.lifetime,
            rumble: request_controller_rumble(
                controller,
                F32 { bits: DART_STRONG },
                F32 { bits: DART_WEAK },
                140,
            ),
        },
    )
}

/// The air that a projectile flies through.
#[derive(Debug, Clone, Copy)]
pub struct Air {
    pub diameter: F32,
    pub air_density: F32,
    pub drag_coefficient: F32,
    pub wind: [F32; 3],
}

/// A number above zero.
pub open spec fn positive(v: F32) -> bool {
    !v.nan() && v.rank() > 0
}

/// The air that the projectiles fly through, where it does anything: where it is switched on, they
/// have a size, and neither its density nor its drag is zero or less.
pub fn projectile_aerodynamics(config: &ProjectileConfig) -> (r: Option<Air>)
    ensures
        r is Some <==> config.aerodynamics.enabled && (config.diameter.nan() || positive(
            config.diameter,
        )) && positive(config.aerodynamics.air_density) && positive(
            config.aerodynamics.drag_coefficient,
        ),
        r matches Some(air) ==> air == (Air {
            diameter: config.diameter,
            air_density: config.aerodynamics.air_density,
            drag_coefficient: config.aerodynamics.drag_coefficient,
            wind: config.aerodynamics.wind,
        }),
{
    let aero = &config.aerodynamics;
    if !aero.enabled {
        return None;
    }
    let zero = F32 { bits: 0 };
    if config.diameter.le(zero) {
        return None;
    }
    let air_density = aero.air_density.max_zero();
    let drag_coefficient = aero.drag_coefficient.max_zero();
    if air_density.same(zero) || drag_coefficient.same(zero) {
        return None;
    }
    Some(Air { diameter: config.diameter, air_density, drag_coefficient, wind: aero.wind })
}

/// Whether the air pushes something that moves through it at `speed`.
pub fn drag_applies(speed: F32) -> (r: bool)
    ensures
        r == (speed.nan() || speed.rank() > (F32 { bits: STILL_AIR_SPEED }).rank()),
{
    !speed.le(F32 { bits: STILL_AIR_SPEED })
}

/// A projectile and the time it has left.
#[derive(Debug, Clone, Copy, PartialEq, Eq, Structural)]
pub struct Flight {
    pub entity: u64,
    pub lifetime: Countdown,
}

/// The projectiles whose time is up, in their order.
pub open spec fn ended(flights: Seq<Flight>) -> Seq<u64>
    decreases flights.len(),
{
    if flights.len() == 0 {
        Seq::empty()
    } else if flights.last().lifetime.finished {
        ended(flights.drop_last()).push(flights.last().entity)
    } else {
        ended(flights.drop_last())
    }
}

/// Lets time pass for all projectiles, and names those whose time is up.
pub fn cleanup_projectiles(flights: &mut Vec<Flight>, delta_ns: u64) -> (r: Vec<u64>)
    requires
        forall|i: int| 0 <= i < old(flights)@.len() ==> (#[trigger] old(flights)@[i]).lifetime.wf(),
    ensures
        final(flights)@.len() == old(flights)@.len(),
        forall|i: int|
            0 <= i < old(flights)@.len() ==> #[trigger] final(flights)@[i] == (Flight {
                entity: old(flights)@[i].entity,
                lifetime: old(flights)@[i].lifetime.after(delta_ns),
            }),
        r@ == ended(final(flights)@),
{
    let ghost first = flights@;
    let mut r: Vec<u64> = Vec::new();
    let mut i: usize = 0;
    assert(flights@.subrange(0, 0) =~= Seq::<Flight>::empty());
    while i < flights.len()
        invariant
            i <= flights@.len(),
            flights@.len() == first.len(),
            forall|k: int| 0 <= k < first.len() ==> (#[trigger] first[k]).lifetime.wf(),
            forall|k: int|
                0 <= k < first.len() ==> #[trigger] flights@[k] == (if k < i {
                    Flight {
                        entity: first[k].entity,
                        lifetime: first[k].lifetime.after(delta_ns),
                    }
                } else {
                    first[k]
                }),
            r@ == ended(flights@.subrange(0, i as int)),
        decreases flights@.len() - i,
    {
        let mut flight = flights[i];
        flight.lifetime.tick(delta_ns);
        let ghost done = flights@.subrange(0, i as int);
        flights.set(i, flight);
        proof {
            let next = flights@.subrange(0, i + 1);
            assert(next.drop_last() =~= done);
            assert(next.last() == flight);
        }
        if flight.lifetime.finished {
            r.push(flight.entity);
        }
        i += 1;
    }
    assert(flights@.subrange(0, flights@.len() as int) =~= flights@);
    r
}

/// No two launches are closer than the cooldown: after one, the countdown is not over as long as the
/// time that has passed falls short of it, however it is divided; and it is over when the time
/// reaches it.
pub proof fn law_launches_keep_the_cooldown(cooldown: Countdown, deltas: Seq<u64>)
    requires
        cooldown.duration_ns > 0,
    ensures
        cooldown.restarted().after_all(deltas).finished == (total(deltas) >= cooldown.duration_ns),
        cooldown.restarted().after_all(deltas).duration_ns == cooldown.duration_ns,
        !cooldown.restarted().after_all(deltas).finished
            ==> cooldown.restarted().after_all(deltas).elapsed_ns == total(deltas),
    decreases deltas.len(),
{
    if deltas.len() > 0 {
        law_launches_keep_the_cooldown(cooldown, deltas.drop_last());
    }
}

/// What is launched has what the configuration gives, and bounces a little.
pub proof fn law_projectiles_are_launched_as_configured(config: ProjectileConfig)
    ensures
        ({
            let r = projectile_spawn(config);
            &&& r.speed == config.speed
            &&& r.diameter == config.diameter
            &&& r.mass == config.mass
            &&& r.friction == config.friction
            &&& r.linear_damping == config.linear_damping
            &&& r.lifetime == config.lifetime
            &&& r.restitution.bits == 0x3e99_999a
        }),
{
}

/// A dart has a speed, a mass, a shape and a bounce of its own, and takes the rest from the
/// configuration.
pub proof fn law_darts_are_launched_as_configured(
    config: ProjectileConfig,
    controller: Option<&ControllerState>,
)
    ensures
        ({
            let r = dart_spawn(config, controller);
            &&& r.speed.bits == 0x4188_0000
            &&& r.voxel_size.bits == 0x3ba3_d70a
            &&& r.mass.bits == 0x3e80_0000
            &&& r.restitution.bits == 0x3f0c_cccd
            &&& r.friction == config.friction
            &&& r.linear_damping == config.linear_damping
            &&& r.lifetime == config.lifetime
            &&& r.rumble == launch_shake(controller, 0x3f26_6666, 0x3eb3_3333, 140)
        }),
{
}

/// A launch shakes the gamepad in use, as strongly and as long as it is told, and shakes nothing
/// where none is in use.
pub proof fn law_launches_shake_the_gamepad_in_use(
    controller: ControllerState,
    strong: u32,
    weak: u32,
    duration_ms: u64,
)
    ensures
        launch_shake(None, strong, weak, duration_ms) is None,
        ({
            let r = launch_shake(Some(&controller), strong, weak, duration_ms);
            &&& r is Some <==> controller.active_gamepad is Some
            &&& r matches Some(shake) ==> {
                &&& Some(shake.gamepad) == controller.active_gamepad
                &&& shake.strong_motor.bits == strong
                &&& shake.weak_motor.bits == weak
                &&& shake.duration_ms == duration_ms
            }
        }),
        SHOT_STRONG == 0x3ee6_6666,
        SHOT_WEAK == 0x3e4c_cccd,
        DART_STRONG == 0x3f26_6666,
        DART_WEAK == 0x3eb3_3333,
{
}

/// Something can be launched exactly where one of the three parts of its direction is neither of
/// the two zeros; a part that is no number counts too.
pub proof fn law_directions_are_not_zero(direction: [F32; 3])
    ensures
        !no_direction(direction) <==> exists|i: int|
            0 <= i < 3 && (#[trigger] direction[i]).bits != 0 && direction[i].bits != 0x8000_0000,
{
    if !no_direction(direction) {
        assert(direction[0].magnitude() != 0 || direction[1].magnitude() != 0
            || direction[2].magnitude() != 0);
        if direction[0].magnitude() != 0 {
            assert(direction[0].bits != 0 && direction[0].bits != 0x8000_0000);
        } else if direction[1].magnitude() != 0 {
            assert(direction[1].bits != 0 && direction[1].bits != 0x8000_0000);
        } else {
            assert(direction[2].bits != 0 && direction[2].bits != 0x8000_0000);
        }
    }
}

/// Time adds up until the end is reached. A countdown is over when it was over before or the time
/// reaches its end; then it stands at its end, and else at the time that has run. How long it runs
/// stays as it is.
pub proof fn law_time_adds_up(countdown: Countdown, delta_ns: u64)
    requires
        countdown.wf(),
    ensures
        ({
            let r = countdown.after(delta_ns);
            &&& r.wf()
            &&& r.duration_ns == countdown.duration_ns
            &&& r.finished <==> countdown.finished || countdown.elapsed_ns + delta_ns
                >= countdown.duration_ns
            &&& r.finished ==> r.elapsed_ns == countdown.duration_ns
            &&& !r.finished ==> r.elapsed_ns == countdown.elapsed_ns + delta_ns
        }),
        countdown.restarted().elapsed_ns == 0,
        !countdown.restarted().finished,
        countdown.restarted().duration_ns == countdown.duration_ns,
{
}

/// Numbers above zero have a sign bit that is not set, are not zero, and are numbers.
pub proof fn law_positive_numbers(v: F32)
    ensures
        positive(v) <==> 0 < v.bits <= 0x7f80_0000,
        STILL_AIR_SPEED == 0x3a83_126f,
{
}

/// Each projectile whose time is up is named once, at its place among the others, and no other is.
pub proof fn law_each_flight_ends_for_itself(one: Seq<Flight>, flight: Flight, other: Seq<Flight>)
    ensures
        ended(one + other) == ended(one) + ended(other),
        flight.lifetime.finished ==> ended(seq![flight]) == seq![flight.entity],
        !flight.lifetime.finished ==> ended(seq![flight]).len() == 0,
        ended(Seq::<Flight>::empty()).len() == 0,
    decreases other.len(),
{
    assert(seq![flight].drop_last() =~= Seq::<Flight>::empty());
    assert(ended(Seq::<Flight>::empty()) =~= Seq::<u64>::empty());
    assert(seq![flight.entity] =~= Seq::<u64>::empty().push(flight.entity));
    if other.len() == 0 {
        assert(one + other =~= one);
        assert(ended(one) + ended(other) =~= ended(one));
    } else {
        law_each_flight_ends_for_itself(one, flight, other.drop_last());
        assert((one + other).drop_last() =~= one + other.drop_last());
        assert((one + other).last() == other.last());
        assert(ended(one + other) =~= ended(one) + ended(other));
    }
}

/// A launch waits for the cooldown, which starts anew as soon as it is over; then it needs a
/// direction. What is launched is as configured, is counted, and shakes the gamepad in use; what is
/// not launched is not counted.
pub proof fn law_calls_of_projectile_launch(
    cooldown: &mut Countdown,
    delta_ns: u64,
    direction: [F32; 3],
    config: ProjectileConfig,
    stats: &mut ProjectileStatistics,
    controller: Option<&ControllerState>,
    r: LaunchOutcome,
)
    requires
        call_ensures(
            projectile_launch,
            (cooldown, delta_ns, &direction, &config, stats, controller),
            r,
        ),
        old(cooldown).wf(),
        old(stats).launch_count < u32::MAX,
    ensures
        ({
            let over = old(cooldown).finished || old(cooldown).elapsed_ns + delta_ns >= old(
                cooldown,
            ).duration_ns;
            let aimed = exists|i: int|
                0 <= i < 3 && (#[trigger] direction[i]).bits != 0 && direction[i].bits
                    != 0x8000_0000;
            &&& r is Cooling <==> !over
            &&& r is NoDirection <==> over && !aimed
            &&& r is Launched <==> over && aimed
            &&& final(cooldown).duration_ns == old(cooldown).duration_ns
            &&& over ==> final(cooldown).elapsed_ns == 0 && !final(cooldown).finished
            &&& !over ==> final(cooldown).elapsed_ns == old(cooldown).elapsed_ns + delta_ns
                && !final(cooldown).finished
            &&& final(stats).launch_count == old(stats).launch_count + (if over && aimed {
                1int
            } else {
                0int
            })
            &&& final(stats).accurate_count == old(stats).accurate_count
            &&& r matches LaunchOutcome::Launched { spawn, rumble } ==> {
                &&& spawn.speed == config.speed
                &&& spawn.diameter == config.diameter
                &&& spawn.mass == config.mass
                &&& spawn.friction == config.friction
                &&& spawn.linear_damping == config.linear_damping
                &&& spawn.lifetime == config.lifetime
                &&& spawn.restitution.bits == 0x3e99_999a
                &&& rumble == launch_shake(controller, 0x3ee6_6666, 0x3e4c_cccd, 80)
            }
        }),
{
    law_directions_are_not_zero(direction);
    law_time_adds_up(*old(cooldown), delta_ns);
}

/// A dart needs exactly one launcher, and that launcher a direction. What is launched is counted.
pub proof fn law_calls_of_dart_launch(
    directions: Vec<[F32; 3]>,
    config: ProjectileConfig,
    stats: &mut ProjectileStatistics,
    controller: Option<&ControllerState>,
    r: Option<DartSpawn>,
)
    requires
        call_ensures(dart_launch, (&directions, &config, stats, controller), r),
        old(stats).launch_count < u32::MAX,
    ensures
        r is Some <==> directions@.len() == 1 && exists|i: int|
            0 <= i < 3 && (#[trigger] directions@[0][i]).bits != 0 && directions@[0][i].bits
                != 0x8000_0000,
        final(stats).launch_count == old(stats).launch_count + (if r is Some {
            1int
        } else {
            0int
        }),
        final(stats).accurate_count == old(stats).accurate_count,
        r matches Some(dart) ==> {
            &&& dart.speed.bits == 0x4188_0000
            &&& dart.voxel_size.bits == 0x3ba3_d70a
            &&& dart.mass.bits == 0x3e80_0000
            &&& dart.restitution.bits == 0x3f0c_cccd
            &&& dart.friction == config.friction
            &&& dart.linear_damping == config.linear_damping
            &&& dart.lifetime == config.lifetime
            &&& dart.rumble == launch_shake(controller, 0x3f26_6666, 0x3eb3_3333, 140)
        },
{
    if directions@.len() == 1 {
        law_directions_are_not_zero(directions@[0]);
    }
}

/// The air acts exactly where it is switched on, its density and its drag are above zero, and the
/// projectiles have a size; and it acts as it is configured.
pub proof fn law_calls_of_projectile_aerodynamics(config: ProjectileConfig, r: Option<Air>)
    requires
        call_ensures(projectile_aerodynamics, (&config,), r),
    ensures
        r is Some <==> {
            &&& config.aerodynamics.enabled
            &&& 0 < config.aerodynamics.air_density.bits <= 0x7f80_0000
            &&& 0 < config.aerodynamics.drag_coefficient.bits <= 0x7f80_0000
            &&& 0 < config.diameter.bits < 0x8000_0000 || config.diameter.bits > 0xff80_0000
        },
        r matches Some(air) ==> {
            &&& air.diameter.bits == config.diameter.bits
            &&& air.air_density.bits == config.aerodynamics.air_density.bits
            &&& air.drag_coefficient.bits == config.aerodynamics.drag_coefficient.bits
            &&& forall|i: int|
                0 <= i < 3 ==> (#[trigger] air.wind[i]).bits == config.aerodynamics.wind[i].bits
        },
{
}

/// The air pushes what moves faster than a millimetre per second.
pub proof fn law_calls_of_drag_applies(speed: F32, r: bool)
    requires
        call_ensures(drag_applies, (speed,), r),
    ensures
        r <==> 0x3a83_126f < speed.bits < 0x8000_0000 || speed.bits > 0xff80_0000,
{
}

/// Time passes for each projectile alike, none is lost or renamed, and exactly those whose time is
/// up are named, in their order.
pub proof fn law_calls_of_cleanup_projectiles(
    flights: &mut Vec<Flight>,
    delta_ns: u64,
    r: Vec<u64>,
    i: int,
)
    requires
        call_ensures(cleanup_projectiles, (flights, delta_ns), r),
        0 <= i < old(flights)@.len(),
        old(flights)@[i].lifetime.wf(),
    ensures
        ({
            let (was, now) = (old(flights)@[i], final(flights)@[i]);
            &&& final(flights)@.len() == old(flights)@.len()
            &&& now.entity == was.entity
            &&& now.lifetime.duration_ns == was.lifetime.duration_ns
            &&& now.lifetime.finished <==> was.lifetime.finished || was.lifetime.elapsed_ns
                + delta_ns >= was.lifetime.duration_ns
            &&& !now.lifetime.finished ==> now.lifetime.elapsed_ns == was.lifetime.elapsed_ns
                + delta_ns
        }),
        r@ == ended(final(flights)@),
{
}

/// Countdowns: a new one stands at its start, time adds up until the end, and setting back leads to
/// the start again.
pub proof fn law_calls_of_countdowns(
    duration_ns: u64,
    started: Countdown,
    ticked: &mut Countdown,
    delta_ns: u64,
    set_back: &mut Countdown,
    r: (),
)
    requires
        call_ensures(Countdown::start, (duration_ns,), started),
        call_ensures(Countdown::tick, (ticked, delta_ns), r),
        call_ensures(Countdown::reset, (set_back,), r),
        old(ticked).wf(),
    ensures
        started.elapsed_ns == 0 && started.duration_ns == duration_ns && !started.finished,
        final(ticked).duration_ns == old(ticked).duration_ns,
        final(ticked).finished <==> old(ticked).finished || old(ticked).elapsed_ns + delta_ns >= old(
            ticked,
        ).duration_ns,
        final(ticked).finished ==> final(ticked).elapsed_ns == old(ticked).duration_ns,
        !final(ticked).finished ==> final(ticked).elapsed_ns == old(ticked).elapsed_ns + delta_ns,
        final(set_back).elapsed_ns == 0 && !final(set_back).finished,
        final(set_back).duration_ns == old(set_back).duration_ns,
{
}

} // verus!
