//! The simulator's side of the link to the vision process.
use crate::float::F32;
use crate::layout::GimbalCmd;
use crate::link::LinkVerdict;
use vstd::prelude::*;

verus! {

/// What came over the link, for the head-up display and the log alone.
#[derive(Debug, Clone, Copy, PartialEq, Eq, Structural)]
pub struct AutoAimLink {
    /// All commands that came, the safe stops among them.
    pub cmd_count: u64,
    /// When the last one came, in nanoseconds since the start of the simulation.
    pub last_cmd_at: Option<u64>,
}

impl Default for AutoAimLink {
    fn default() -> (r: Self)
        ensures
            r.cmd_count == 0,
            r.last_cmd_at is None,
    {
        AutoAimLink { cmd_count: 0, last_cmd_at: None }
    }
}

/// What is done about a command.
#[derive(Debug, Clone, Copy, PartialEq, Eq, Structural)]
pub enum GimbalOrder {
    /// None came.
    Nothing,
    /// It was a safe stop.
    Hold,
    /// The gimbal turns to the angles, in degrees; something is fired where `fire` is set.
    Aim { yaw_deg: F32, pitch_deg: F32, fire: bool },
}

/// What a command orders.
pub open spec fn order_of(cmd: Option<GimbalCmd>) -> GimbalOrder {
    match cmd {
        Some(c) => if crate::link::is_safe_stop(c) {
            GimbalOrder::Hold
        } else {
            GimbalOrder::Aim {
                yaw_deg: c.yaw_deg,
                pitch_deg: c.pitch_deg,
                fire: c.fire_advice == 1,
            }
        },
        None => GimbalOrder::Nothing,
    }
}

/// Takes a command in as it is. A safe stop counts as a sign of life and orders nothing else; any
/// other command is obeyed, and is not checked here (see [`judged_order`]).
pub fn process_subscription(link: &mut AutoAimLink, cmd: Option<&GimbalCmd>, now: u64) -> (r:
    GimbalOrder)
    requires
        cmd is Some ==> old(link).cmd_count < u64::MAX,
    ensures
        r == order_of(
            match cmd {
                Some(c) => Some(*c),
                None => None,
            },
        ),
        cmd is None ==> *final(link) == *old(link),
        cmd is Some ==> *final(link) == (AutoAimLink {
            cmd_count: (old(link).cmd_count + 1) as u64,
            last_cmd_at: Some(now),
        }),
{
    match cmd {
        Some(cmd) => {
            link.cmd_count = link.cmd_count + 1;
            link.last_cmd_at = Some(now);
            if cmd.distance_m.bits == crate::link::SAFE_STOP_DISTANCE {
                return GimbalOrder::Hold;
            }
            GimbalOrder::Aim {
                yaw_deg: cmd.yaw_deg,
                pitch_deg: cmd.pitch_deg,
                fire: cmd.fire_advice == 1,
            }
        },
        None => GimbalOrder::Nothing,
    }
}

/// What a command orders once the link has judged it: a refused one orders nothing.
pub open spec fn order_under(cmd: GimbalCmd, verdict: LinkVerdict) -> GimbalOrder {
    match verdict {
        LinkVerdict::Control { fire } => GimbalOrder::Aim {
            yaw_deg: cmd.yaw_deg,
            pitch_deg: cmd.pitch_deg,
            fire,
        },
        LinkVerdict::SafeStop => GimbalOrder::Hold,
        LinkVerdict::Reject(reason) => GimbalOrder::Nothing,
    }
}

/// What a command orders once the link has judged it.
pub fn judged_order(cmd: &GimbalCmd, verdict: LinkVerdict) -> (r: GimbalOrder)
    ensures
        r == order_under(*cmd, verdict),
{
    match verdict {
        LinkVerdict::Control { fire } => GimbalOrder::Aim {
            yaw_deg: cmd.yaw_deg,
            pitch_deg: cmd.pitch_deg,
            fire,
        },
        LinkVerdict::SafeStop => GimbalOrder::Hold,
        LinkVerdict::Reject(_) => GimbalOrder::Nothing,
    }
}

/// A command that the link judges moves the gimbal only to finite angles and only where the link is
/// then engaged, and fires only where the link lets it. A command that the link does not refuse
/// orders what it would order without the link.
pub proof fn law_judged_orders_obey_the_link(
    link: crate::link::AutoAimLink,
    cmd: GimbalCmd,
    now: u64,
    now_ns: u64,
    lease_ns: u64,
)
    ensures
        ({
            let verdict = link.verdict(cmd, now_ns, lease_ns);
            let order = order_under(cmd, verdict);
            &&& order is Aim ==> cmd.yaw_deg.finite() && cmd.pitch_deg.finite() && link.ingested(
                cmd,
                now,
                now_ns,
                lease_ns,
            ).state is Engaged
            &&& order matches GimbalOrder::Aim { yaw_deg, pitch_deg, fire } ==> fire
                == (verdict == LinkVerdict::Control { fire: true })
            &&& verdict is Reject ==> order is Nothing
            &&& !(verdict is Reject) ==> order == order_of(Some(cmd))
        }),
{
}

/// A safe stop never moves the gimbal and never fires, whatever else the command says.
pub proof fn law_safe_stop_orders_nothing(cmd: GimbalCmd)
    requires
        crate::link::is_safe_stop(cmd),
    ensures
        order_of(Some(cmd)) is Hold,
{
}

/// What a command orders: nothing where none came, a halt at the distance of minus one, and else a
/// turn to the very angles it bears, with fire exactly where the advice is one, whatever the
/// angles.
pub proof fn law_commands_order_what_they_say(cmd: GimbalCmd)
    ensures
        order_of(None) is Nothing,
        order_of(Some(cmd)) is Hold <==> cmd.distance_m.bits == 0xbf80_0000,
        order_of(Some(cmd)) is Aim <==> cmd.distance_m.bits != 0xbf80_0000,
        order_of(Some(cmd)) matches GimbalOrder::Aim { yaw_deg, pitch_deg, fire } ==> {
            &&& yaw_deg.bits == cmd.yaw_deg.bits
            &&& pitch_deg.bits == cmd.pitch_deg.bits
            &&& fire <==> cmd.fire_advice == 1
        },
{
}

/// What a judged command orders: a turn to the very angles it bears where it controls, with fire
/// exactly where the verdict grants it; a halt on a safe stop; nothing where it is refused.
pub proof fn law_judged_commands_order_what_the_verdict_grants(
    cmd: GimbalCmd,
    verdict: LinkVerdict,
)
    ensures
        order_under(cmd, verdict) is Aim <==> verdict is Control,
        order_under(cmd, verdict) is Hold <==> verdict is SafeStop,
        order_under(cmd, verdict) is Nothing <==> verdict is Reject,
        order_under(cmd, verdict) matches GimbalOrder::Aim { yaw_deg, pitch_deg, fire } ==> {
            &&& yaw_deg.bits == cmd.yaw_deg.bits
            &&& pitch_deg.bits == cmd.pitch_deg.bits
            &&& fire <==> verdict == (LinkVerdict::Control { fire: true })
        },
{
}

/// A command that comes in orders what it says: a halt at the distance of minus one, and else a
/// turn to its angles with fire exactly where the advice is one, whatever the angles. It is counted
/// and its arrival noted; where none came nothing changes.
pub proof fn law_calls_of_process_subscription(
    link: &mut AutoAimLink,
    cmd: Option<&GimbalCmd>,
    now: u64,
    r: GimbalOrder,
)
    requires
        call_ensures(process_subscription, (link, cmd, now), r),
        old(link).cmd_count < u64::MAX,
    ensures
        cmd is None ==> r is Nothing && *final(link) == *old(link),
        cmd is Some ==> {
            &&& r is Hold <==> cmd->0.distance_m.bits == 0xbf80_0000
            &&& cmd->0.distance_m.bits != 0xbf80_0000 ==> r == (GimbalOrder::Aim {
                yaw_deg: cmd->0.yaw_deg,
                pitch_deg: cmd->0.pitch_deg,
                fire: cmd->0.fire_advice == 1,
            })
            &&& final(link).cmd_count == old(link).cmd_count + 1
            &&& final(link).last_cmd_at == Some(now)
        },
{
}

/// A judged command turns the gimbal to its angles exactly where it controls, and fires exactly
/// where the verdict grants it.
pub proof fn law_calls_of_judged_order(cmd: GimbalCmd, verdict: LinkVerdict, r: GimbalOrder)
    requires
        call_ensures(judged_order, (&cmd, verdict), r),
    ensures
        r is Hold <==> verdict is SafeStop,
        r is Nothing <==> verdict is Reject,
        verdict matches LinkVerdict::Control { fire } ==> r == (GimbalOrder::Aim {
            yaw_deg: cmd.yaw_deg,
            pitch_deg: cmd.pitch_deg,
            fire,
        }),
{
}

} // verus!
