//! Who the gimbal obeys.
//!
//! Two things are kept apart here. The peer is alive while commands that pass the checks keep
//! coming, safe stops among them. The peer controls the gimbal only while control commands keep
//! coming. What the head-up display says, who may move the gimbal and who may fire are all read
//! from the same state, wherever commands go through [`AutoAimLink::ingest`] and are carried out as
//! [`crate::plugin::judged_order`] says. [`crate::plugin::process_subscription`] takes commands as
//! they are and asks nothing of this state.
//!
//! Moments are nanoseconds since the start of the simulation.
use crate::config::AutoAimLinkConfig;
use crate::layout::GimbalCmd;
use vstd::prelude::*;

verus! {

/// The pattern of `-1.0`, the distance that stands for a safe stop.
pub const SAFE_STOP_DISTANCE: u32 = 0xbf80_0000;

/// The state of the link.
#[derive(Debug, Clone, Copy, PartialEq, Eq, Structural)]
pub enum LinkState {
    /// Not subscribed. The gimbal is the operator's.
    Unsubscribed,
    /// Subscribed, but nothing valid has come. Nobody has taken over, so there is nothing to give
    /// back, and the gimbal is the operator's.
    Waiting,
    /// The peer is alive but has not controlled within the lease. The gimbal is the operator's.
    Standby,
    /// The peer controls: a control command came within the lease.
    Engaged,
    /// The peer had taken over and then fell silent. The gimbal stays where the last command put
    /// it, nothing may fire, and only unsubscribing gives the gimbal back to the operator.
    Lost,
}

impl Default for LinkState {
    fn default() -> (r: Self)
        ensures
            r is Unsubscribed,
    {
        LinkState::Unsubscribed
    }
}

impl LinkState {
    /// The gimbal is not the operator's.
    pub open spec fn external(self) -> bool {
        self is Engaged || self is Lost
    }

    /// Whether the gimbal follows, or is held by, the peer.
    pub fn external_owns_gimbal(self) -> (r: bool)
        ensures
            r == self.external(),
    {
        match self {
            LinkState::Engaged | LinkState::Lost => true,
            _ => false,
        }
    }

    /// Whether the operator may move the gimbal.
    pub fn allows_manual_gimbal(self) -> (r: bool)
        ensures
            r == !self.external(),
    {
        !self.external_owns_gimbal()
    }

    /// Whether the peer may fire.
    pub fn allows_fire(self) -> (r: bool)
        ensures
            r == (self is Engaged),
    {
        match self {
            LinkState::Engaged => true,
            _ => false,
        }
    }

    /// What the head-up display says of the state.
    pub open spec fn text(self) -> Seq<char> {
        match self {
            LinkState::Unsubscribed => "未订阅"@,
            LinkState::Waiting => "未收到"@,
            LinkState::Standby => "待命"@,
            LinkState::Engaged => "接管"@,
            LinkState::Lost => "中断"@,
        }
    }

    /// What the head-up display says of the state.
    pub fn label(self) -> (r: &'static str)
        ensures
            r@ == self.text(),
    {
        match self {
            LinkState::Unsubscribed => "未订阅",
            LinkState::Waiting => "未收到",
            LinkState::Standby => "待命",
            LinkState::Engaged => "接管",
            LinkState::Lost => "中断",
        }
    }
}

/// Why a command was refused.
#[derive(Debug, Clone, Copy, PartialEq, Eq, Structural)]
pub enum RejectReason {
    /// An angle or the distance is no finite number.
    NonFinite,
    /// The peer gave no time.
    TimestampZero,
    /// The time has not moved on since the last accepted command.
    TimestampRegressed,
    /// The command was under way for longer than the lease.
    Expired,
    /// The command is from the future by more than the lease.
    TimestampFuture,
}

impl RejectReason {
    /// What the head-up display says of the refusal.
    pub open spec fn text(self) -> Seq<char> {
        match self {
            RejectReason::NonFinite => "非有限值"@,
            RejectReason::TimestampZero => "时间戳为0"@,
            RejectReason::TimestampRegressed => "时间戳倒退"@,
            RejectReason::Expired => "命令过期"@,
            RejectReason::TimestampFuture => "时间戳超前"@,
        }
    }

    /// What the head-up display says of the refusal.
    pub fn label(self) -> (r: &'static str)
        ensures
            r@ == self.text(),
    {
        match self {
            RejectReason::NonFinite => "非有限值",
            RejectReason::TimestampZero => "时间戳为0",
            RejectReason::TimestampRegressed => "时间戳倒退",
            RejectReason::Expired => "命令过期",
            RejectReason::TimestampFuture => "时间戳超前",
        }
    }
}

/// What becomes of a command.
#[derive(Debug, Clone, Copy, PartialEq, Eq, Structural)]
pub enum LinkVerdict {
    /// Move the gimbal as it says; fire only where `fire` is set.
    Control { fire: bool },
    /// Move nothing and do not fire; the peer is alive.
    SafeStop,
    /// Drop it.
    Reject(RejectReason),
}

/// How many commands were refused, by reason.
#[derive(Debug, Clone, Copy, PartialEq, Eq, Structural)]
pub struct RejectCounts {
    pub non_finite: u64,
    pub timestamp_zero: u64,
    pub timestamp_regressed: u64,
    pub expired: u64,
    pub timestamp_future: u64,
}

impl Default for RejectCounts {
    fn default() -> (r: Self)
        ensures
            r == RejectCounts::none(),
    {
        RejectCounts {
            non_finite: 0,
            timestamp_zero: 0,
            timestamp_regressed: 0,
            expired: 0,
            timestamp_future: 0,
        }
    }
}

impl RejectCounts {
    /// Nothing refused.
    pub open spec fn none() -> RejectCounts {
        RejectCounts {
            non_finite: 0,
            timestamp_zero: 0,
            timestamp_regressed: 0,
            expired: 0,
            timestamp_future: 0,
        }
    }

    /// All refusals together.
    pub open spec fn sum(self) -> int {
        self.non_finite + self.timestamp_zero + self.timestamp_regressed + self.expired
            + self.timestamp_future
    }

    /// One more refusal for `reason`.
    pub open spec fn with(self, reason: RejectReason) -> RejectCounts {
        match reason {
            RejectReason::NonFinite => RejectCounts {
                non_finite: (self.non_finite + 1) as u64,
                ..self
            },
            RejectReason::TimestampZero => RejectCounts {
                timestamp_zero: (self.timestamp_zero + 1) as u64,
                ..self
            },
            RejectReason::TimestampRegressed => RejectCounts {
                timestamp_regressed: (self.timestamp_regressed + 1) as u64,
                ..self
            },
            RejectReason::Expired => RejectCounts { expired: (self.expired + 1) as u64, ..self },
            RejectReason::TimestampFuture => RejectCounts {
                timestamp_future: (self.timestamp_future + 1) as u64,
                ..self
            },
        }
    }

    /// All refusals together.
    pub fn total(&self) -> (r: u64)
        requires
            self.sum() <= u64::MAX,
        ensures
            r == self.sum(),
    {
        self.non_finite + self.timestamp_zero + self.timestamp_regressed + self.expired
            + self.timestamp_future
    }

    /// Counts one refusal more.
    pub fn record(&mut self, reason: RejectReason)
        requires
            old(self).sum() < u64::MAX,
        ensures
            *final(self) == old(self).with(reason),
            final(self).sum() == old(self).sum() + 1,
    {
        match reason {
            RejectReason::NonFinite => {
                self.non_finite = self.non_finite + 1;
            },
            RejectReason::TimestampZero => {
                self.timestamp_zero = self.timestamp_zero + 1;
            },
            RejectReason::TimestampRegressed => {
                self.timestamp_regressed = self.timestamp_regressed + 1;
            },
            RejectReason::Expired => {
                self.expired = self.expired + 1;
            },
            RejectReason::TimestampFuture => {
                self.timestamp_future = self.timestamp_future + 1;
            },
        }
    }
}

/// All there is to know of the link.
#[derive(Debug, Clone, Copy, PartialEq, Eq, Structural)]
pub struct AutoAimLink {
    pub state: LinkState,
    /// All commands that came, the refused among them.
    pub cmd_count: u64,
    /// Those that passed the checks.
    pub accepted: u64,
    /// The control commands among the accepted.
    pub control: u64,
    /// The safe stops among the accepted.
    pub safe_stops: u64,
    pub rejects: RejectCounts,
    /// How often the peer fell silent while it controlled.
    pub link_lost_count: u64,
    /// When the last command came, refused or not.
    pub last_cmd_at: Option<u64>,
    /// When the last accepted command came. Being alive depends on it.
    pub last_accept_at: Option<u64>,
    /// When the last control command came. Control depends on it.
    pub last_control_at: Option<u64>,
    /// The time that the last accepted command bore; zero where there is none to compare with.
    pub last_timestamp_ns: u64,
    /// Why the last refused command was refused.
    pub last_reject: Option<RejectReason>,
}

/// Something came within the lease.
pub open spec fn within_lease(at: Option<u64>, now: u64, lease_ns: u64) -> bool {
    at matches Some(t) && now - t <= lease_ns
}

/// Why a command is refused: the first of the reasons that holds, if any does.
pub open spec fn objection(
    cmd: GimbalCmd,
    last_timestamp_ns: u64,
    now_ns: u64,
    lease_ns: u64,
) -> Option<RejectReason> {
    if !(cmd.yaw_deg.finite() && cmd.pitch_deg.finite() && cmd.distance_m.finite()) {
        Some(RejectReason::NonFinite)
    } else if cmd.timestamp_ns == 0 {
        Some(RejectReason::TimestampZero)
    } else if cmd.timestamp_ns <= last_timestamp_ns {
        Some(RejectReason::TimestampRegressed)
    } else if cmd.timestamp_ns > now_ns + lease_ns {
        Some(RejectReason::TimestampFuture)
    } else if now_ns - cmd.timestamp_ns > lease_ns {
        Some(RejectReason::Expired)
    } else {
        None
    }
}

/// The command asks for a safe stop.
pub open spec fn is_safe_stop(cmd: GimbalCmd) -> bool {
    cmd.distance_m.bits == SAFE_STOP_DISTANCE
}

impl AutoAimLink {
    /// A link on which nothing has happened.
    pub open spec fn fresh() -> AutoAimLink {
        AutoAimLink {
            state: LinkState::Unsubscribed,
            cmd_count: 0,
            accepted: 0,
            control: 0,
            safe_stops: 0,
            rejects: RejectCounts::none(),
            link_lost_count: 0,
            last_cmd_at: None,
            last_accept_at: None,
            last_control_at: None,
            last_timestamp_ns: 0,
            last_reject: None,
        }
    }

    /// The counts agree with one another and with the state.
    pub open spec fn wf(self) -> bool {
        &&& self.accepted + self.rejects.sum() == self.cmd_count
        &&& self.control + self.safe_stops == self.accepted
        &&& self.link_lost_count + (if self.state is Engaged {
            1int
        } else {
            0int
        }) <= self.control
        &&& self.last_cmd_at is Some <==> self.cmd_count > 0
        &&& self.last_accept_at is Some <==> self.accepted > 0
        &&& self.last_control_at is Some <==> self.control > 0
        &&& self.last_reject is Some <==> self.rejects.sum() > 0
        &&& self.state is Lost ==> self.link_lost_count > 0
    }

    /// The link in another state. The time that the next command has to exceed is forgotten where
    /// the peer may come back as another process.
    pub open spec fn entered(self, next: LinkState) -> AutoAimLink {
        if self.state == next {
            self
        } else {
            AutoAimLink {
                state: next,
                link_lost_count: if next is Lost {
                    (self.link_lost_count + 1) as u64
                } else {
                    self.link_lost_count
                },
                last_timestamp_ns: if next is Unsubscribed || next is Waiting || next is Lost {
                    0
                } else {
                    self.last_timestamp_ns
                },
                ..self
            }
        }
    }

    /// The link after a frame.
    pub open spec fn ticked(self, subscribed: bool, now: u64, lease_ns: u64) -> AutoAimLink {
        let alive = within_lease(self.last_accept_at, now, lease_ns);
        let controlling = within_lease(self.last_control_at, now, lease_ns);
        if !subscribed {
            self.entered(LinkState::Unsubscribed)
        } else {
            match self.state {
                LinkState::Unsubscribed => self.entered(LinkState::Waiting),
                LinkState::Engaged => if controlling {
                    self
                } else if alive {
                    self.entered(LinkState::Standby)
                } else {
                    self.entered(LinkState::Lost)
                },
                LinkState::Standby => if alive {
                    self
                } else {
                    self.entered(LinkState::Waiting)
                },
                _ => self,
            }
        }
    }

    /// What becomes of a command.
    pub open spec fn verdict(self, cmd: GimbalCmd, now_ns: u64, lease_ns: u64) -> LinkVerdict {
        match objection(cmd, self.last_timestamp_ns, now_ns, lease_ns) {
            Some(reason) => LinkVerdict::Reject(reason),
            None => if is_safe_stop(cmd) {
                LinkVerdict::SafeStop
            } else {
                LinkVerdict::Control { fire: cmd.fire_advice == 1 }
            },
        }
    }

    /// The link after a command.
    pub open spec fn ingested(
        self,
        cmd: GimbalCmd,
        now: u64,
        now_ns: u64,
        lease_ns: u64,
    ) -> AutoAimLink {
        let counted = AutoAimLink {
            cmd_count: (self.cmd_count + 1) as u64,
            last_cmd_at: Some(now),
            ..self
        };
        let accepted = AutoAimLink {
            accepted: (self.accepted + 1) as u64,
            last_accept_at: Some(now),
            last_timestamp_ns: cmd.timestamp_ns,
            ..counted
        };
        match self.verdict(cmd, now_ns, lease_ns) {
            LinkVerdict::Reject(reason) => AutoAimLink {
                rejects: self.rejects.with(reason),
                last_reject: Some(reason),
                ..counted
            },
            LinkVerdict::SafeStop => {
                let stopped = AutoAimLink { safe_stops: (self.safe_stops + 1) as u64, ..accepted };
                if self.state.external() {
                    stopped
                } else {
                    stopped.entered(LinkState::Standby)
                }
            },
            LinkVerdict::Control { fire } => AutoAimLink {
                control: (self.control + 1) as u64,
                last_control_at: Some(now),
                ..accepted
            }.entered(LinkState::Engaged),
        }
    }

    /// The state of the link.
    pub fn state(&self) -> (r: LinkState)
        ensures
            r == self.state,
    {
        self.state
    }

    /// Takes note of the subscription and of leases that have run out. To be called every frame,
    /// whether a command came or not.
    pub fn tick(&mut self, subscribed: bool, now: u64, cfg: &AutoAimLinkConfig)
        requires
            old(self).wf(),
        ensures
            final(self).wf(),
            *final(self) == old(self).ticked(subscribed, now, cfg.lease()),
    {
        if !subscribed {
            if self.state != LinkState::Unsubscribed {
                self.enter(LinkState::Unsubscribed);
            }
            return;
        }
        if self.state == LinkState::Unsubscribed {
            self.enter(LinkState::Waiting);
        }
        let lease: u64 = cfg.lease_ns();
        let alive = match self.last_accept_at {
            Some(t) => now.saturating_sub(t) <= lease,
            None => false,
        };
        let controlling = match self.last_control_at {
            Some(t) => now.saturating_sub(t) <= lease,
            None => false,
        };
        match self.state {
            LinkState::Engaged => {
                if !controlling {
                    if alive {
                        self.enter(LinkState::Standby);
                    } else {
                        self.enter(LinkState::Lost);
                    }
                }
            },
            LinkState::Standby => {
                if !alive {
                    self.enter(LinkState::Waiting);
                }
            },
            _ => {},
        }
    }

    /// Checks a command and takes it in. `now_ns` is the local time of day, in the peer's epoch.
    pub fn ingest(&mut self, cmd: &GimbalCmd, now: u64, now_ns: u64, cfg: &AutoAimLinkConfig) -> (r:
        LinkVerdict)
        requires
            old(self).wf(),
            old(self).cmd_count < u64::MAX,
        ensures
            final(self).wf(),
            *final(self) == old(self).ingested(*cmd, now, now_ns, cfg.lease()),
            r == old(self).verdict(*cmd, now_ns, cfg.lease()),
    {
        self.cmd_count = self.cmd_count + 1;
        self.last_cmd_at = Some(now);
        if let Some(reason) = self.validate(cmd, now_ns, cfg) {
            self.rejects.record(reason);
            self.last_reject = Some(reason);
            return LinkVerdict::Reject(reason);
        }
        self.accepted = self.accepted + 1;
        self.last_accept_at = Some(now);
        self.last_timestamp_ns = cmd.timestamp_ns;
        if cmd.distance_m.bits == SAFE_STOP_DISTANCE {
            self.safe_stops = self.safe_stops + 1;
            if self.state != LinkState::Engaged && self.state != LinkState::Lost {
                self.enter(LinkState::Standby);
            }
            return LinkVerdict::SafeStop;
        }
        self.control = self.control + 1;
        self.last_control_at = Some(now);
        self.enter(LinkState::Engaged);
        LinkVerdict::Control { fire: cmd.fire_advice == 1 }
    }

    /// Why a command is refused, if it is.
    pub fn validate(&self, cmd: &GimbalCmd, now_ns: u64, cfg: &AutoAimLinkConfig) -> (r: Option<
        RejectReason,
    >)
        ensures
            r == objection(*cmd, self.last_timestamp_ns, now_ns, cfg.lease()),
    {
        if !cmd.yaw_deg.is_finite() || !cmd.pitch_deg.is_finite() || !cmd.distance_m.is_finite() {
            return Some(RejectReason::NonFinite);
        }
        if cmd.timestamp_ns == 0 {
            return Some(RejectReason::TimestampZero);
        }
        if cmd.timestamp_ns <= self.last_timestamp_ns {
            return Some(RejectReason::TimestampRegressed);
        }
        let lease_ns: u64 = cfg.lease_ns();
        if cmd.timestamp_ns > now_ns.saturating_add(lease_ns) {
            return Some(RejectReason::TimestampFuture);
        }
        if now_ns.saturating_sub(cmd.timestamp_ns) > lease_ns {
            return Some(RejectReason::Expired);
        }
        None
    }

    fn enter(&mut self, next: LinkState)
        requires
            next is Lost ==> old(self).link_lost_count < u64::MAX,
        ensures
            *final(self) == old(self).entered(next),
    {
        if self.state == next {
            return;
        }
        if next == LinkState::Lost {
            self.link_lost_count = self.link_lost_count + 1;
        }
        match next {
            LinkState::Unsubscribed | LinkState::Waiting | LinkState::Lost => {
                self.last_timestamp_ns = 0;
            },
            _ => {},
        }
        self.state = next;
    }
}

impl Default for AutoAimLink {
    fn default() -> (r: Self)
        ensures
            r == AutoAimLink::fresh(),
            r.wf(),
    {
        AutoAimLink {
            state: LinkState::Unsubscribed,
            cmd_count: 0,
            accepted: 0,
            control: 0,
            safe_stops: 0,
            rejects: RejectCounts::default(),
            link_lost_count: 0,
            last_cmd_at: None,
            last_accept_at: None,
            last_control_at: None,
            last_timestamp_ns: 0,
            last_reject: None,
        }
    }
}

/// What can happen to a link.
pub ghost enum LinkEvent {
    Tick { subscribed: bool, now: u64 },
    Command { cmd: GimbalCmd, now: u64, now_ns: u64 },
}

impl AutoAimLink {
    /// The link after one event.
    pub open spec fn after(self, event: LinkEvent, lease_ns: u64) -> AutoAimLink {
        match event {
            LinkEvent::Tick { subscribed, now } => self.ticked(subscribed, now, lease_ns),
            LinkEvent::Command { cmd, now, now_ns } => self.ingested(cmd, now, now_ns, lease_ns),
        }
    }

    /// The link after a sequence of events.
    pub open spec fn after_all(self, events: Seq<LinkEvent>, lease_ns: u64) -> AutoAimLink
        decreases events.len(),
    {
        if events.len() == 0 {
            self
        } else {
            self.after_all(events.drop_last(), lease_ns).after(events.last(), lease_ns)
        }
    }

    /// The event is a command that takes control.
    pub open spec fn takes_control(self, event: LinkEvent, lease_ns: u64) -> bool {
        event matches LinkEvent::Command { cmd, now, now_ns } && self.verdict(
            cmd,
            now_ns,
            lease_ns,
        ) is Control
    }
}

/// A lost link yields to nothing but the operator, who unsubscribes, or a new control command: no
/// other event, and no sequence of other events, lets the operator move the gimbal or lets the peer
/// fire.
pub proof fn law_lost_link_stays_locked(link: AutoAimLink, events: Seq<LinkEvent>, lease_ns: u64)
    requires
        link.state is Lost,
        forall|i: int|
            0 <= i < events.len() ==> !link.after_all(
                #[trigger] events.subrange(0, i),
                lease_ns,
            ).takes_control(events[i], lease_ns) && !(events[i] matches LinkEvent::Tick {
                subscribed,
                now,
            } && !subscribed),
    ensures
        link.after_all(events, lease_ns).state is Lost,
    decreases events.len(),
{
    if events.len() > 0 {
        let rest = events.drop_last();
        let n = rest.len() as int;
        assert forall|i: int| 0 <= i < n implies !link.after_all(
            #[trigger] rest.subrange(0, i),
            lease_ns,
        ).takes_control(rest[i], lease_ns) && !(rest[i] matches LinkEvent::Tick {
            subscribed,
            now,
        } && !subscribed) by {
            assert(rest.subrange(0, i) =~= events.subrange(0, i));
        }
        law_lost_link_stays_locked(link, rest, lease_ns);
        assert(events.subrange(0, n) =~= rest);
        assert(!link.after_all(events.subrange(0, n), lease_ns).takes_control(events[n], lease_ns));
    }
}

/// A peer that never sends a control command never gets the gimbal: whatever else happens on a new
/// link, the operator may move the gimbal, the peer may not fire, and the link is not lost.
pub proof fn law_without_control_the_gimbal_stays_manual(events: Seq<LinkEvent>, lease_ns: u64)
    requires
        forall|i: int|
            0 <= i < events.len() ==> !AutoAimLink::fresh().after_all(
                #[trigger] events.subrange(0, i),
                lease_ns,
            ).takes_control(events[i], lease_ns),
    ensures
        !AutoAimLink::fresh().after_all(events, lease_ns).state.external(),
        AutoAimLink::fresh().after_all(events, lease_ns).link_lost_count == 0,
    decreases events.len(),
{
    if events.len() > 0 {
        let rest = events.drop_last();
        let n = rest.len() as int;
        assert forall|i: int| 0 <= i < n implies !AutoAimLink::fresh().after_all(
            #[trigger] rest.subrange(0, i),
            lease_ns,
        ).takes_control(rest[i], lease_ns) by {
            assert(rest.subrange(0, i) =~= events.subrange(0, i));
            assert(!AutoAimLink::fresh().after_all(events.subrange(0, i), lease_ns).takes_control(
                events[i],
                lease_ns,
            ));
        }
        law_without_control_the_gimbal_stays_manual(rest, lease_ns);
        assert(events.subrange(0, n) =~= rest);
        assert(!AutoAimLink::fresh().after_all(events.subrange(0, n), lease_ns).takes_control(
            events[n],
            lease_ns,
        ));
    }
}

/// A refused command changes nothing but the counts: it renews no lease, moves no time mark and
/// leaves the state, so that a peer who sends nothing else is lost as if it sent nothing.
pub proof fn law_refused_command_renews_nothing(
    link: AutoAimLink,
    cmd: GimbalCmd,
    now: u64,
    now_ns: u64,
    lease_ns: u64,
)
    requires
        link.verdict(cmd, now_ns, lease_ns) is Reject,
    ensures
        ({
            let after = link.ingested(cmd, now, now_ns, lease_ns);
            &&& after.state == link.state
            &&& after.last_accept_at == link.last_accept_at
            &&& after.last_control_at == link.last_control_at
            &&& after.last_timestamp_ns == link.last_timestamp_ns
            &&& after.accepted == link.accepted
            &&& forall|subscribed: bool, later: u64|
                (#[trigger] after.ticked(subscribed, later, lease_ns)).state == link.ticked(
                    subscribed,
                    later,
                    lease_ns,
                ).state
        }),
{
}

/// A command that was accepted is refused when it comes again, at once or with an older one.
pub proof fn law_replayed_command_is_refused(
    link: AutoAimLink,
    cmd: GimbalCmd,
    now: u64,
    now_ns: u64,
    again: GimbalCmd,
    again_ns: u64,
    lease_ns: u64,
)
    requires
        !(link.verdict(cmd, now_ns, lease_ns) is Reject),
        again.timestamp_ns <= cmd.timestamp_ns,
    ensures
        link.ingested(cmd, now, now_ns, lease_ns).verdict(again, again_ns, lease_ns) is Reject,
{
}

/// A safe stop says that the peer is alive, and gives it nothing: the gimbal is whose it was, and
/// nothing fires.
pub proof fn law_safe_stop_takes_nothing(
    link: AutoAimLink,
    cmd: GimbalCmd,
    now: u64,
    now_ns: u64,
    lease_ns: u64,
)
    requires
        link.verdict(cmd, now_ns, lease_ns) is SafeStop,
    ensures
        ({
            let after = link.ingested(cmd, now, now_ns, lease_ns);
            &&& after.state.external() == link.state.external()
            &&& after.last_control_at == link.last_control_at
            &&& after.last_accept_at == Some(now)
        }),
{
}

/// Silence ends control: a peer that controls and sends nothing acceptable for longer than the
/// lease is lost at the next frame, and the gimbal is neither moved nor given away. One that goes on
/// sending safe stops hands the gimbal back instead.
pub proof fn law_silence_ends_control(
    link: AutoAimLink,
    now: u64,
    lease_ns: u64,
)
    requires
        link.wf(),
        link.state is Engaged,
        !within_lease(link.last_control_at, now, lease_ns),
    ensures
        ({
            let after = link.ticked(true, now, lease_ns);
            &&& !(after.state is Engaged)
            &&& !within_lease(link.last_accept_at, now, lease_ns) ==> after.state is Lost
                && after.link_lost_count == link.link_lost_count + 1
            &&& within_lease(link.last_accept_at, now, lease_ns) ==> after.state is Standby
                && after.link_lost_count == link.link_lost_count
        }),
{
}

/// Fire is granted only to a fresh control command that asks for it, and then the state allows it.
pub proof fn law_fire_needs_a_valid_control_command(
    link: AutoAimLink,
    cmd: GimbalCmd,
    now: u64,
    now_ns: u64,
    lease_ns: u64,
)
    requires
        link.verdict(cmd, now_ns, lease_ns) == (LinkVerdict::Control { fire: true }),
    ensures
        cmd.fire_advice == 1,
        cmd.yaw_deg.finite() && cmd.pitch_deg.finite() && cmd.distance_m.finite(),
        now_ns - lease_ns <= cmd.timestamp_ns <= now_ns + lease_ns,
        cmd.timestamp_ns > link.last_timestamp_ns,
        !is_safe_stop(cmd),
        link.ingested(cmd, now, now_ns, lease_ns).state is Engaged,
{
}

/// A peer that comes back after it was lost is heard, also where its clock is behind the one it had
/// before: the first command within the lease of the local clock is accepted.
pub proof fn law_restarted_peer_is_heard(
    link: AutoAimLink,
    at: u64,
    cmd: GimbalCmd,
    now_ns: u64,
    lease_ns: u64,
)
    requires
        link.ticked(true, at, lease_ns).state is Lost,
        !(link.state is Lost),
        cmd.yaw_deg.finite() && cmd.pitch_deg.finite() && cmd.distance_m.finite(),
        0 < cmd.timestamp_ns,
        now_ns - lease_ns <= cmd.timestamp_ns <= now_ns + lease_ns,
    ensures
        !(link.ticked(true, at, lease_ns).verdict(cmd, now_ns, lease_ns) is Reject),
{
}

/// The head-up display tells the states apart, and the reasons of refusals too.
pub proof fn law_labels_tell_apart(
    states: (LinkState, LinkState),
    reasons: (RejectReason, RejectReason),
)
    ensures
        states.0.text() == states.1.text() <==> states.0 == states.1,
        reasons.0.text() == reasons.1.text() <==> reasons.0 == reasons.1,
{
    reveal_strlit("未订阅");
    reveal_strlit("未收到");
    reveal_strlit("待命");
    reveal_strlit("接管");
    reveal_strlit("中断");
    reveal_strlit("非有限值");
    reveal_strlit("时间戳为0");
    reveal_strlit("时间戳倒退");
    reveal_strlit("命令过期");
    reveal_strlit("时间戳超前");
    assert("未订阅"@[1] != "未收到"@[1]);
    assert("待命"@[0] != "接管"@[0]);
    assert("待命"@[0] != "中断"@[0]);
    assert("接管"@[0] != "中断"@[0]);
    assert("非有限值"@[0] != "命令过期"@[0]);
    assert("时间戳为0"@[3] != "时间戳倒退"@[3]);
    assert("时间戳为0"@[3] != "时间戳超前"@[3]);
    assert("时间戳倒退"@[3] != "时间戳超前"@[3]);
}

/// The counts stay consistent, whatever happens, as long as they fit.
pub proof fn law_counts_agree(link: AutoAimLink, event: LinkEvent, lease_ns: u64)
    requires
        link.wf(),
        link.cmd_count < u64::MAX,
    ensures
        link.after(event, lease_ns).wf(),
{
}

/// The command is acceptable: its numbers are finite, it bears a time that has moved on, and that
/// time is no further from the local one than the lease, either way.
pub open spec fn acceptable(
    cmd: GimbalCmd,
    last_timestamp_ns: u64,
    now_ns: u64,
    lease_ns: u64,
) -> bool {
    &&& cmd.yaw_deg.bits % 0x8000_0000 < 0x7f80_0000
    &&& cmd.pitch_deg.bits % 0x8000_0000 < 0x7f80_0000
    &&& cmd.distance_m.bits % 0x8000_0000 < 0x7f80_0000
    &&& 0 < cmd.timestamp_ns
    &&& last_timestamp_ns < cmd.timestamp_ns
    &&& cmd.timestamp_ns - now_ns <= lease_ns
    &&& now_ns - cmd.timestamp_ns <= lease_ns
}

/// What becomes of a command. Exactly the acceptable ones are accepted; of those the distance of
/// minus one is a safe stop, and every other controls, with fire exactly where the advice is one,
/// whatever its angles and its distance.
pub proof fn law_acceptable_commands_are_obeyed(
    link: AutoAimLink,
    cmd: GimbalCmd,
    now_ns: u64,
    lease_ns: u64,
)
    ensures
        ({
            let verdict = link.verdict(cmd, now_ns, lease_ns);
            let accepted = acceptable(cmd, link.last_timestamp_ns, now_ns, lease_ns);
            &&& verdict is Reject <==> !accepted
            &&& verdict is SafeStop <==> accepted && cmd.distance_m.bits == 0xbf80_0000
            &&& accepted && cmd.distance_m.bits != 0xbf80_0000 ==> verdict == (
            LinkVerdict::Control { fire: cmd.fire_advice == 1 })
        }),
{
}

/// Why a command is refused. Numbers that are not finite come first, then a missing time, a time
/// that has not moved on, one too far ahead, and one too long ago.
pub proof fn law_each_refusal_has_its_reason(
    link: AutoAimLink,
    cmd: GimbalCmd,
    now_ns: u64,
    lease_ns: u64,
)
    ensures
        ({
            let verdict = link.verdict(cmd, now_ns, lease_ns);
            let finite = cmd.yaw_deg.bits % 0x8000_0000 < 0x7f80_0000 && cmd.pitch_deg.bits
                % 0x8000_0000 < 0x7f80_0000 && cmd.distance_m.bits % 0x8000_0000 < 0x7f80_0000;
            let forward = finite && 0 < cmd.timestamp_ns && link.last_timestamp_ns
                < cmd.timestamp_ns;
            &&& verdict == LinkVerdict::Reject(RejectReason::NonFinite) <==> !finite
            &&& verdict == LinkVerdict::Reject(RejectReason::TimestampZero) <==> finite
                && cmd.timestamp_ns == 0
            &&& verdict == LinkVerdict::Reject(RejectReason::TimestampRegressed) <==> finite && 0
                < cmd.timestamp_ns <= link.last_timestamp_ns
            &&& verdict == LinkVerdict::Reject(RejectReason::TimestampFuture) <==> forward
                && cmd.timestamp_ns - now_ns > lease_ns
            &&& verdict == LinkVerdict::Reject(RejectReason::Expired) <==> forward && now_ns
                - cmd.timestamp_ns > lease_ns
        }),
{
}

/// What a command changes on the link. Every command is counted and its arrival noted. An accepted
/// one is a sign of life and sets the time that the next has to exceed; one that controls takes the
/// gimbal; a safe stop leaves the gimbal to whoever has it. A refused one is counted by its reason.
pub proof fn law_commands_change_what_they_should(
    link: AutoAimLink,
    cmd: GimbalCmd,
    now: u64,
    now_ns: u64,
    lease_ns: u64,
)
    requires
        link.wf(),
        link.cmd_count < u64::MAX,
    ensures
        ({
            let after = link.ingested(cmd, now, now_ns, lease_ns);
            let accepted = acceptable(cmd, link.last_timestamp_ns, now_ns, lease_ns);
            let stop = cmd.distance_m.bits == 0xbf80_0000;
            &&& after.cmd_count == link.cmd_count + 1
            &&& after.last_cmd_at == Some(now)
            &&& after.link_lost_count == link.link_lost_count
            &&& accepted ==> {
                &&& after.accepted == link.accepted + 1
                &&& after.last_accept_at == Some(now)
                &&& after.last_timestamp_ns == cmd.timestamp_ns
                &&& after.rejects == link.rejects
                &&& after.last_reject == link.last_reject
            }
            &&& accepted && !stop ==> {
                &&& after.state is Engaged
                &&& after.control == link.control + 1
                &&& after.last_control_at == Some(now)
                &&& after.safe_stops == link.safe_stops
            }
            &&& accepted && stop ==> {
                &&& link.state is Engaged ==> after.state is Engaged
                &&& link.state is Lost ==> after.state is Lost
                &&& !(link.state is Engaged) && !(link.state is Lost) ==> after.state is Standby
                &&& after.safe_stops == link.safe_stops + 1
                &&& after.control == link.control
                &&& after.last_control_at == link.last_control_at
            }
            &&& !accepted ==> {
                &&& after.state == link.state
                &&& after.accepted == link.accepted
                &&& after.control == link.control
                &&& after.safe_stops == link.safe_stops
                &&& after.last_accept_at == link.last_accept_at
                &&& after.last_control_at == link.last_control_at
                &&& after.last_timestamp_ns == link.last_timestamp_ns
                &&& after.rejects.sum() == link.rejects.sum() + 1
                &&& after.last_reject is Some
                &&& LinkVerdict::Reject(after.last_reject->0) == link.verdict(cmd, now_ns, lease_ns)
            }
        }),
{
}

/// A refusal is counted under its own reason, and the other counts stay.
pub proof fn law_refusals_are_counted_by_reason(counts: RejectCounts, reason: RejectReason)
    requires
        counts.sum() < u64::MAX,
    ensures
        counts.with(reason).non_finite == counts.non_finite + (if reason is NonFinite {
            1int
        } else {
            0int
        }),
        counts.with(reason).timestamp_zero == counts.timestamp_zero + (if reason is TimestampZero {
            1int
        } else {
            0int
        }),
        counts.with(reason).timestamp_regressed == counts.timestamp_regressed + (
        if reason is TimestampRegressed {
            1int
        } else {
            0int
        }),
        counts.with(reason).expired == counts.expired + (if reason is Expired {
            1int
        } else {
            0int
        }),
        counts.with(reason).timestamp_future == counts.timestamp_future + (
        if reason is TimestampFuture {
            1int
        } else {
            0int
        }),
        counts.sum() == counts.non_finite + counts.timestamp_zero + counts.timestamp_regressed
            + counts.expired + counts.timestamp_future,
{
}

/// What a frame changes on the link. Without the subscription the gimbal is the operator's. With
/// it, control lasts while the last control command is no older than the lease; when it ends, the
/// link stands by where anything was accepted within the lease, and is lost where nothing was.
/// Standing by ends where nothing was accepted within the lease. Nothing else changes, but that
/// leaving, waiting and losing forget the time that the next command has to exceed.
pub proof fn law_frames_change_what_they_should(
    link: AutoAimLink,
    subscribed: bool,
    now: u64,
    lease_ns: u64,
)
    requires
        link.wf(),
    ensures
        ({
            let after = link.ticked(subscribed, now, lease_ns);
            let alive = link.last_accept_at is Some && now <= link.last_accept_at->0 + lease_ns;
            let controls = link.last_control_at is Some && now <= link.last_control_at->0
                + lease_ns;
            &&& !subscribed ==> after.state is Unsubscribed
            &&& subscribed && link.state is Unsubscribed ==> after.state is Waiting
            &&& subscribed && link.state is Waiting ==> after.state is Waiting
            &&& subscribed && link.state is Lost ==> after.state is Lost
            &&& subscribed && link.state is Standby && alive ==> after.state is Standby
            &&& subscribed && link.state is Standby && !alive ==> after.state is Waiting
            &&& subscribed && link.state is Engaged && controls ==> after.state is Engaged
            &&& subscribed && link.state is Engaged && !controls && alive ==> after.state is Standby
            &&& subscribed && link.state is Engaged && !controls && !alive ==> after.state is Lost
            &&& after.link_lost_count == link.link_lost_count + (if after.state is Lost && !(
            link.state is Lost) {
                1int
            } else {
                0int
            })
            &&& after.last_timestamp_ns == (if after.state != link.state && !(
            after.state is Standby) {
                0
            } else {
                link.last_timestamp_ns
            })
            &&& after.cmd_count == link.cmd_count
            &&& after.accepted == link.accepted
            &&& after.control == link.control
            &&& after.safe_stops == link.safe_stops
            &&& after.rejects == link.rejects
            &&& after.last_cmd_at == link.last_cmd_at
            &&& after.last_accept_at == link.last_accept_at
            &&& after.last_control_at == link.last_control_at
            &&& after.last_reject == link.last_reject
        }),
{
}

/// The gimbal is the operator's in all states but two, and the peer may fire in one.
pub proof fn law_who_has_the_gimbal(state: LinkState)
    ensures
        !state.external() <==> state is Unsubscribed || state is Waiting || state is Standby,
        AutoAimLink::fresh().state is Unsubscribed,
        AutoAimLink::fresh().wf(),
{
}

/// What becomes of a command that comes in, and what it changes. Exactly the acceptable ones are
/// accepted; of those the distance of minus one is a safe stop, and every other controls, with fire
/// exactly where the advice is one. Every command is counted and its arrival noted, an accepted one
/// sets the time that the next has to exceed, and one that controls takes the gimbal.
pub proof fn law_calls_of_ingest(
    link: &mut AutoAimLink,
    cmd: GimbalCmd,
    now: u64,
    now_ns: u64,
    cfg: AutoAimLinkConfig,
    r: LinkVerdict,
)
    requires
        call_ensures(AutoAimLink::ingest, (link, &cmd, now, now_ns, &cfg), r),
        old(link).wf(),
        old(link).cmd_count < u64::MAX,
    ensures
        ({
            let accepted = acceptable(cmd, old(link).last_timestamp_ns, now_ns, cfg.lease());
            let stop = cmd.distance_m.bits == 0xbf80_0000;
            &&& r is Reject <==> !accepted
            &&& r is SafeStop <==> accepted && stop
            &&& accepted && !stop ==> r == (LinkVerdict::Control { fire: cmd.fire_advice == 1 })
            &&& final(link).cmd_count == old(link).cmd_count + 1
            &&& final(link).last_cmd_at == Some(now)
            &&& accepted ==> final(link).accepted == old(link).accepted + 1
                && final(link).last_accept_at == Some(now) && final(link).last_timestamp_ns
                == cmd.timestamp_ns
            &&& accepted && !stop ==> final(link).state is Engaged && final(link).last_control_at
                == Some(now) && final(link).control == old(link).control + 1
            &&& accepted && stop ==> final(link).safe_stops == old(link).safe_stops + 1
                && final(link).last_control_at == old(link).last_control_at
            &&& !accepted ==> final(link).state == old(link).state && final(link).accepted == old(
                link,
            ).accepted && final(link).last_timestamp_ns == old(link).last_timestamp_ns
                && final(link).rejects.sum() == old(link).rejects.sum() + 1
        }),
        *final(link) == old(link).ingested(cmd, now, now_ns, cfg.lease()),
{
    law_acceptable_commands_are_obeyed(*old(link), cmd, now_ns, cfg.lease());
    law_commands_change_what_they_should(*old(link), cmd, now, now_ns, cfg.lease());
}

/// Checking a command finds nothing wrong exactly with the acceptable ones, and else the reason
/// under which it would be refused.
pub proof fn law_calls_of_validate(
    link: AutoAimLink,
    cmd: GimbalCmd,
    now_ns: u64,
    cfg: AutoAimLinkConfig,
    r: Option<RejectReason>,
)
    requires
        call_ensures(AutoAimLink::validate, (&link, &cmd, now_ns, &cfg), r),
    ensures
        r is None <==> acceptable(cmd, link.last_timestamp_ns, now_ns, cfg.lease()),
        r matches Some(reason) ==> link.verdict(cmd, now_ns, cfg.lease()) == LinkVerdict::Reject(
            reason,
        ),
{
    law_acceptable_commands_are_obeyed(link, cmd, now_ns, cfg.lease());
}

/// What a frame makes of the link: without the subscription the gimbal is the operator's; control
/// lasts while the last control command is no older than the lease, and silence behind it loses the
/// link.
pub proof fn law_calls_of_tick(
    link: &mut AutoAimLink,
    subscribed: bool,
    now: u64,
    cfg: AutoAimLinkConfig,
    r: (),
)
    requires
        call_ensures(AutoAimLink::tick, (link, subscribed, now, &cfg), r),
        old(link).wf(),
    ensures
        ({
            let alive = old(link).last_accept_at is Some && now <= old(link).last_accept_at->0
                + cfg.lease();
            let controls = old(link).last_control_at is Some && now <= old(link).last_control_at->0
                + cfg.lease();
            let (was, now_is) = (old(link).state, final(link).state);
            &&& !subscribed ==> now_is is Unsubscribed
            &&& subscribed && was is Unsubscribed ==> now_is is Waiting
            &&& subscribed && was is Waiting ==> now_is is Waiting
            &&& subscribed && was is Lost ==> now_is is Lost
            &&& subscribed && was is Standby ==> (now_is is Standby <==> alive) && (
            now_is is Waiting <==> !alive)
            &&& subscribed && was is Engaged ==> (now_is is Engaged <==> controls) && (
            now_is is Standby <==> !controls && alive) && (now_is is Lost <==> !controls && !alive)
            &&& final(link).cmd_count == old(link).cmd_count
            &&& final(link).accepted == old(link).accepted
            &&& final(link).control == old(link).control
            &&& final(link).safe_stops == old(link).safe_stops
            &&& final(link).rejects == old(link).rejects
        }),
        *final(link) == old(link).ticked(subscribed, now, cfg.lease()),
{
    law_frames_change_what_they_should(*old(link), subscribed, now, cfg.lease());
}

/// Who has the gimbal and who may fire, by the state of the link.
pub proof fn law_calls_of_the_states(
    link: AutoAimLink,
    state: LinkState,
    external: bool,
    manual: bool,
    fire: bool,
)
    requires
        call_ensures(AutoAimLink::state, (&link,), state),
        call_ensures(LinkState::external_owns_gimbal, (state,), external),
        call_ensures(LinkState::allows_manual_gimbal, (state,), manual),
        call_ensures(LinkState::allows_fire, (state,), fire),
    ensures
        state == link.state,
        external <==> state is Engaged || state is Lost,
        manual <==> !external,
        fire <==> state is Engaged,
{
}

/// A refusal is counted under its own reason; the total is the sum of all five.
pub proof fn law_calls_of_record_and_total(
    counts: &mut RejectCounts,
    reason: RejectReason,
    r: (),
    all: RejectCounts,
    total: u64,
)
    requires
        call_ensures(RejectCounts::record, (counts, reason), r),
        call_ensures(RejectCounts::total, (&all,), total),
        old(counts).sum() < u64::MAX,
    ensures
        final(counts).non_finite == old(counts).non_finite + (if reason is NonFinite {
            1int
        } else {
            0int
        }),
        final(counts).timestamp_zero == old(counts).timestamp_zero + (if reason is TimestampZero {
            1int
        } else {
            0int
        }),
        final(counts).timestamp_regressed == old(counts).timestamp_regressed + (
        if reason is TimestampRegressed {
            1int
        } else {
            0int
        }),
        final(counts).expired == old(counts).expired + (if reason is Expired {
            1int
        } else {
            0int
        }),
        final(counts).timestamp_future == old(counts).timestamp_future + (
        if reason is TimestampFuture {
            1int
        } else {
            0int
        }),
        total == all.non_finite + all.timestamp_zero + all.timestamp_regressed + all.expired
            + all.timestamp_future,
{
    law_refusals_are_counted_by_reason(*old(counts), reason);
}

/// A new link is not subscribed, has counted nothing and remembers nothing.
pub proof fn law_new_links(link: AutoAimLink)
    requires
        call_ensures(AutoAimLink::default, (), link),
    ensures
        link.state is Unsubscribed,
        link.cmd_count == 0 && link.accepted == 0 && link.control == 0 && link.safe_stops == 0,
        link.rejects.non_finite == 0 && link.rejects.timestamp_zero == 0
            && link.rejects.timestamp_regressed == 0 && link.rejects.expired == 0
            && link.rejects.timestamp_future == 0,
        link.link_lost_count == 0 && link.last_timestamp_ns == 0,
        link.last_cmd_at is None && link.last_accept_at is None && link.last_control_at is None,
        link.last_reject is None,
{
}

/// What the states and the reasons are called.
pub proof fn law_calls_of_label(
    state: LinkState,
    state_label: &'static str,
    reason: RejectReason,
    reason_label: &'static str,
)
    requires
        call_ensures(LinkState::label, (state,), state_label),
        call_ensures(RejectReason::label, (reason,), reason_label),
    ensures
        state is Unsubscribed ==> state_label@ == "未订阅"@,
        state is Waiting ==> state_label@ == "未收到"@,
        state is Standby ==> state_label@ == "待命"@,
        state is Engaged ==> state_label@ == "接管"@,
        state is Lost ==> state_label@ == "中断"@,
        reason is NonFinite ==> reason_label@ == "非有限值"@,
        reason is TimestampZero ==> reason_label@ == "时间戳为0"@,
        reason is TimestampRegressed ==> reason_label@ == "时间戳倒退"@,
        reason is Expired ==> reason_label@ == "命令过期"@,
        reason is TimestampFuture ==> reason_label@ == "时间戳超前"@,
{
}

} // verus!
