//! How the outpost turns.
use crate::float::{F32, SIGN_BIT};
use vstd::prelude::*;

verus! {

/// The pattern of the outpost's angular speed, four fifths of pi radians per second.
pub const ROTATION_SPEED: u32 = 0x4020_d97c;

/// The sense in which an outpost turns.
#[derive(Debug, Copy, Clone, PartialEq, Eq, Hash, Structural)]
pub enum RotationDirection {
    Clockwise,
    CounterClockwise,
}

impl RotationDirection {
    /// The factor of the sense.
    pub open spec fn factor(self) -> int {
        match self {
            RotationDirection::Clockwise => 1,
            RotationDirection::CounterClockwise => -1,
        }
    }

    /// The factor of the sense.
    pub fn sign(self) -> (r: i32)
        ensures
            r == self.factor(),
    {
        match self {
            Self::Clockwise => 1,
            Self::CounterClockwise => -1,
        }
    }
}

/// How an outpost is driven.
#[derive(Debug, Copy, Clone, PartialEq, Eq, Hash, Structural)]
pub enum RotationMode {
    Forward,
    Stopped,
    Reverse,
}

impl Default for RotationMode {
    fn default() -> (r: Self)
        ensures
            r is Forward,
    {
        RotationMode::Forward
    }
}

impl RotationMode {
    /// The factor of the mode.
    pub open spec fn factor(self) -> int {
        match self {
            RotationMode::Forward => 1,
            RotationMode::Stopped => 0,
            RotationMode::Reverse => -1,
        }
    }

    /// The factor of the mode.
    pub fn scale(self) -> (r: i32)
        ensures
            r == self.factor(),
    {
        match self {
            Self::Forward => 1,
            Self::Stopped => 0,
            Self::Reverse => -1,
        }
    }

    /// The mode that follows.
    pub open spec fn following(self) -> RotationMode {
        match self {
            RotationMode::Forward => RotationMode::Stopped,
            RotationMode::Stopped => RotationMode::Reverse,
            RotationMode::Reverse => RotationMode::Forward,
        }
    }

    /// The mode that follows in the debug cycle.
    pub fn next(self) -> (r: Self)
        ensures
            r == self.following(),
    {
        match self {
            Self::Forward => Self::Stopped,
            Self::Stopped => Self::Reverse,
            Self::Reverse => Self::Forward,
        }
    }
}

/// Turns an outpost.
#[derive(Debug, Copy, Clone, PartialEq, Eq, Structural)]
pub struct RotationController {
    /// The angular speed, which is not negative.
    pub speed: F32,
    pub direction: RotationDirection,
}

/// `sign * scale * speed`, with the signs of IEEE 754: also a zero has one.
pub open spec fn signed(sign: int, scale: int, speed: F32) -> F32 {
    let magnitude = if scale == 0 {
        0u32
    } else {
        speed.bits
    };
    if sign * scale < 0 || (scale == 0 && sign < 0) {
        F32 { bits: (magnitude + SIGN_BIT) as u32 }
    } else {
        F32 { bits: magnitude }
    }
}

impl RotationController {
    /// The speed is a finite number and not negative.
    pub open spec fn wf(&self) -> bool {
        !self.speed.negative() && self.speed.finite()
    }

    /// A controller that turns at the outpost's speed.
    pub fn new(direction: RotationDirection) -> (r: Self)
        ensures
            r.wf(),
            r.speed.bits == ROTATION_SPEED,
            r.direction == direction,
    {
        RotationController { speed: F32 { bits: ROTATION_SPEED }, direction }
    }

    /// The angular velocity about the local upward axis. What turns the outpost and what the ground
    /// truth reports are this same number.
    pub fn signed_speed(&self, mode: RotationMode) -> (r: F32)
        requires
            self.wf(),
        ensures
            r == signed(self.direction.factor(), mode.factor(), self.speed),
    {
        let sign: i32 = self.direction.sign();
        let scale: i32 = mode.scale();
        let magnitude = if scale == 0 {
            F32 { bits: 0 }
        } else {
            self.speed
        };
        assert(sign * scale < 0 <==> (sign < 0 && scale > 0) || (sign > 0 && scale < 0))
            by (nonlinear_arith);
        if (sign < 0 && scale >= 0) || (sign > 0 && scale < 0) {
            F32 { bits: magnitude.bits + SIGN_BIT }
        } else {
            magnitude
        }
    }
}

/// The debug cycle visits each of the three modes and comes back.
pub proof fn law_modes_cycle(mode: RotationMode)
    ensures
        mode.following().following().following() == mode,
        mode.following() != mode,
        mode.following().following() != mode,
{
}

/// Turning the other way, by the outpost's sense or by its mode, turns the velocity about and
/// nothing else.
pub proof fn law_opposite_senses_mirror_each_other(mode: RotationMode, speed: F32)
    requires
        !speed.negative(),
        speed.finite(),
    ensures
        ({
            let one = signed(1, mode.factor(), speed);
            let other = signed(-1, mode.factor(), speed);
            &&& one.magnitude() == other.magnitude()
            &&& one.negative() != other.negative()
            &&& one.magnitude() == (if mode is Stopped {
                0
            } else {
                speed.magnitude()
            })
        }),
{
}

/// From driving forward the debug cycle stops the outpost, then turns it back, then forward again.
pub proof fn law_modes_follow_in_their_order(mode: RotationMode)
    ensures
        mode.following() is Stopped <==> mode is Forward,
        mode.following() is Reverse <==> mode is Stopped,
        mode.following() is Forward <==> mode is Reverse,
{
}

/// An outpost that turns clockwise has its own speed when it is driven forward and the opposite
/// when it is driven back; one that turns the other way has them the other way round. What stands
/// still has no speed.
pub proof fn law_outposts_turn_as_they_are_driven(
    direction: RotationDirection,
    mode: RotationMode,
    speed: F32,
)
    requires
        !speed.negative(),
        speed.finite(),
    ensures
        ({
            let r = signed(direction.factor(), mode.factor(), speed);
            let ahead = (direction is Clockwise) == (mode is Forward);
            &&& !(mode is Stopped) ==> r.bits == speed.bits + (if ahead {
                0int
            } else {
                0x8000_0000
            })
            &&& mode is Stopped && direction is Clockwise ==> r.bits == 0
            &&& mode is Stopped && direction is CounterClockwise ==> r.bits == 0x8000_0000
        }),
{
}

/// The speed of an outpost is four fifths of pi, to the nearest number.
pub proof fn law_the_speed_is_fixed()
    ensures
        ROTATION_SPEED == 0x4020_d97c,
{
}

/// What turns an outpost: its own speed, about for the other sense and about again for the way
/// back.
pub proof fn law_calls_of_signed_speed(controller: RotationController, mode: RotationMode, r: F32)
    requires
        call_ensures(RotationController::signed_speed, (&controller, mode), r),
        controller.wf(),
    ensures
        ({
            let ahead = (controller.direction is Clockwise) == (mode is Forward);
            &&& !(mode is Stopped) ==> r.bits == controller.speed.bits + (if ahead {
                0int
            } else {
                0x8000_0000
            })
            &&& mode is Stopped ==> r.bits == (if controller.direction is Clockwise {
                0int
            } else {
                0x8000_0000
            })
        }),
{
    law_outposts_turn_as_they_are_driven(controller.direction, mode, controller.speed);
}

/// A new controller turns at the fixed speed in the sense it is told; a mode is followed by the
/// next in the cycle; signs and scales are one, none and minus one.
pub proof fn law_calls_of_the_rest(
    direction: RotationDirection,
    controller: RotationController,
    mode: RotationMode,
    next: RotationMode,
    sign: i32,
    scale: i32,
)
    requires
        call_ensures(RotationController::new, (direction,), controller),
        call_ensures(RotationMode::next, (mode,), next),
        call_ensures(RotationDirection::sign, (direction,), sign),
        call_ensures(RotationMode::scale, (mode,), scale),
    ensures
        controller.direction == direction,
        controller.speed.bits == 0x4020_d97c,
        next is Stopped <==> mode is Forward,
        next is Reverse <==> mode is Stopped,
        next is Forward <==> mode is Reverse,
        sign == 1 <==> direction is Clockwise,
        sign == -1 <==> direction is CounterClockwise,
        scale == 1 <==> mode is Forward,
        scale == 0 <==> mode is Stopped,
        scale == -1 <==> mode is Reverse,
{
}

} // verus!
