use daedalus::config::AutoAimLinkConfig;
use daedalus::float::F32;
use daedalus::layout::GimbalCmd;
use daedalus::link::{
    AutoAimLink, LinkState, LinkVerdict, RejectCounts, RejectReason, SAFE_STOP_DISTANCE,
};

const LEASE_MS: f32 = 500.0;
/// A time of day far from zero, so that no age is cut off at zero.
const T0_NS: u64 = 1_700_000_000_000_000_000;

fn f(v: f32) -> F32 {
    F32 { bits: v.to_bits() }
}

/// Seconds since the start, in nanoseconds.
fn ns(secs: f32) -> u64 {
    (secs as f64 * 1e9) as u64
}

fn cfg() -> AutoAimLinkConfig {
    AutoAimLinkConfig { lease_ms: f(LEASE_MS) }
}

fn control(ts_ns: u64) -> GimbalCmd {
    GimbalCmd {
        timestamp_ns: ts_ns,
        yaw_deg: f(10.0),
        pitch_deg: f(-2.0),
        distance_m: f(3.5),
        fire_advice: 0,
        command_seq: 1,
    }
}

fn safe_stop(ts_ns: u64) -> GimbalCmd {
    GimbalCmd {
        distance_m: F32 { bits: SAFE_STOP_DISTANCE },
        ..control(ts_ns)
    }
}

/// A link that is subscribed and has heard nothing.
fn subscribed() -> AutoAimLink {
    let mut link = AutoAimLink::default();
    link.tick(true, 0, &cfg());
    link
}

#[test]
fn unsubscribed_link_leaves_gimbal_to_the_operator() {
    let link = AutoAimLink::default();
    assert_eq!(link.state(), LinkState::Unsubscribed);
    assert!(link.state().allows_manual_gimbal());
    assert!(!link.state().allows_fire());
}

#[test]
fn subscribed_but_nothing_received_stays_manual() {
    let link = subscribed();
    assert_eq!(link.state(), LinkState::Waiting);
    assert_eq!(link.state().label(), "未收到");
    assert!(link.state().allows_manual_gimbal());
    assert!(!link.state().allows_fire());
}

#[test]
fn control_command_puts_the_link_online_and_takes_the_gimbal() {
    let mut link = subscribed();
    let v = link.ingest(&control(T0_NS), ns(0.0), T0_NS, &cfg());
    assert_eq!(v, LinkVerdict::Control { fire: false });
    assert_eq!(link.state(), LinkState::Engaged);
    assert_eq!(link.state().label(), "接管");
    assert!(link.state().external_owns_gimbal());
    assert!(!link.state().allows_manual_gimbal());
    assert!(link.state().allows_fire());
    assert_eq!((link.accepted, link.control, link.safe_stops), (1, 1, 0));
}

#[test]
fn safe_stop_only_link_is_alive_but_does_not_hold_the_gimbal() {
    let mut link = subscribed();
    let mut t = 0u64;
    let mut ts = T0_NS;
    for _ in 0..10 {
        assert_eq!(
            link.ingest(&safe_stop(ts), t, ts, &cfg()),
            LinkVerdict::SafeStop
        );
        t += 20_000_000;
        ts += 20_000_000;
    }
    assert_eq!(link.state(), LinkState::Standby);
    assert_eq!(link.state().label(), "待命");
    assert!(
        link.state().allows_manual_gimbal(),
        "safe stops do not hold the gimbal"
    );
    assert!(!link.state().allows_fire());
    assert_eq!(link.safe_stops, 10);
    assert_eq!(link.control, 0);
}

#[test]
fn losing_the_peer_while_engaged_enters_external_link_lost() {
    let mut link = subscribed();
    link.ingest(&control(T0_NS), ns(0.0), T0_NS, &cfg());
    assert_eq!(link.state(), LinkState::Engaged);
    link.tick(true, ns(0.4), &cfg());
    assert_eq!(link.state(), LinkState::Engaged, "the lease still runs");
    link.tick(true, ns(0.6), &cfg());

    assert_eq!(link.state(), LinkState::Lost);
    assert_eq!(link.state().label(), "中断");
    assert_eq!(link.link_lost_count, 1);
    assert!(link.state().external_owns_gimbal());
    assert!(!link.state().allows_manual_gimbal(), "the gimbal is not handed over by itself");
    assert!(!link.state().allows_fire(), "nothing fires after the lease");
}

#[test]
fn safe_stops_keep_the_peer_alive_and_demote_to_standby_not_lost() {
    let mut link = subscribed();
    link.ingest(&control(T0_NS), ns(0.0), T0_NS, &cfg());
    link.ingest(
        &safe_stop(T0_NS + 300_000_000),
        ns(0.3),
        T0_NS + 300_000_000,
        &cfg(),
    );
    link.tick(true, ns(0.6), &cfg());

    assert_eq!(link.state(), LinkState::Standby);
    assert_eq!(link.link_lost_count, 0);
    assert!(link.state().allows_manual_gimbal());
    assert!(!link.state().allows_fire());
    link.tick(true, ns(1.0), &cfg());
    assert_eq!(link.state(), LinkState::Waiting);
    assert_eq!(link.link_lost_count, 0);
}

#[test]
fn safe_stop_after_link_loss_does_not_unlock_manual_control() {
    let mut link = subscribed();
    link.ingest(&control(T0_NS), ns(0.0), T0_NS, &cfg());
    link.tick(true, ns(0.6), &cfg());
    assert_eq!(link.state(), LinkState::Lost);

    let stop = safe_stop(T0_NS + 700_000_000);
    assert_eq!(
        link.ingest(&stop, ns(0.7), T0_NS + 700_000_000, &cfg()),
        LinkVerdict::SafeStop
    );
    assert_eq!(link.state(), LinkState::Lost);
    assert!(!link.state().allows_manual_gimbal());
    link.tick(false, ns(0.8), &cfg());
    assert_eq!(link.state(), LinkState::Unsubscribed);
    assert!(link.state().allows_manual_gimbal());
}

#[test]
fn a_restarted_peer_recovers_from_lost_even_with_a_lower_timestamp() {
    let mut link = subscribed();
    link.ingest(
        &control(T0_NS + 900_000_000),
        ns(0.0),
        T0_NS + 900_000_000,
        &cfg(),
    );
    link.tick(true, ns(0.6), &cfg());
    assert_eq!(link.state(), LinkState::Lost);
    let ts = T0_NS + 700_000_000;
    let v = link.ingest(&control(ts), ns(5.0), ts, &cfg());
    assert_eq!(v, LinkVerdict::Control { fire: false });
    assert_eq!(link.state(), LinkState::Engaged);
    assert!(link.state().allows_fire());
    assert_eq!(link.rejects.timestamp_regressed, 0);
    assert_eq!(link.link_lost_count, 1, "coming back is not counted");
}

#[test]
fn toggling_the_subscription_off_returns_the_gimbal_to_the_operator() {
    let mut link = subscribed();
    link.ingest(&control(T0_NS), ns(0.0), T0_NS, &cfg());
    link.tick(true, ns(0.6), &cfg());
    assert_eq!(link.state(), LinkState::Lost);
    link.tick(false, ns(0.7), &cfg());
    assert_eq!(link.state(), LinkState::Unsubscribed);
    assert!(link.state().allows_manual_gimbal());

    link.tick(true, ns(0.8), &cfg());
    assert_eq!(link.state(), LinkState::Waiting);
}

#[test]
fn a_regressed_timestamp_is_rejected_and_does_not_renew_the_lease() {
    let mut link = subscribed();
    let first = T0_NS + 400_000_000;
    link.ingest(&control(first), ns(0.0), first, &cfg());
    for (ts, now) in [(first - 100_000_000, ns(0.1)), (first, ns(0.2))] {
        let v = link.ingest(&control(ts), now, first, &cfg());
        assert_eq!(v, LinkVerdict::Reject(RejectReason::TimestampRegressed));
    }
    assert_eq!(link.rejects.timestamp_regressed, 2);
    assert_eq!(link.rejects.total(), 2);
    assert_eq!(link.accepted, 1, "a refused command is not accepted");
    assert_eq!(link.last_timestamp_ns, first, "a refused command moves no time mark");
    assert_eq!(link.last_reject, Some(RejectReason::TimestampRegressed));
    link.tick(true, ns(0.6), &cfg());
    assert_eq!(link.state(), LinkState::Lost);
}

#[test]
fn zero_timestamp_is_rejected() {
    let mut link = subscribed();
    let v = link.ingest(&GimbalCmd::default(), ns(0.0), T0_NS, &cfg());
    assert_eq!(v, LinkVerdict::Reject(RejectReason::TimestampZero));
    assert_eq!(link.state(), LinkState::Waiting);
    assert_eq!(link.rejects.timestamp_zero, 1);
}

#[test]
fn non_finite_commands_are_rejected_on_every_field() {
    let cases: [(&str, GimbalCmd); 6] = [
        (
            "yaw NaN",
            GimbalCmd {
                yaw_deg: f(f32::NAN),
                ..control(T0_NS + 1)
            },
        ),
        (
            "yaw inf",
            GimbalCmd {
                yaw_deg: f(f32::INFINITY),
                ..control(T0_NS + 2)
            },
        ),
        (
            "pitch NaN",
            GimbalCmd {
                pitch_deg: f(f32::NAN),
                ..control(T0_NS + 3)
            },
        ),
        (
            "pitch -inf",
            GimbalCmd {
                pitch_deg: f(f32::NEG_INFINITY),
                ..control(T0_NS + 4)
            },
        ),
        (
            "distance NaN",
            GimbalCmd {
                distance_m: f(f32::NAN),
                ..control(T0_NS + 5)
            },
        ),
        (
            "distance inf",
            GimbalCmd {
                distance_m: f(f32::INFINITY),
                ..control(T0_NS + 6)
            },
        ),
    ];
    let mut link = subscribed();
    for (name, cmd) in cases {
        let v = link.ingest(&cmd, ns(0.0), T0_NS + 10, &cfg());
        assert_eq!(v, LinkVerdict::Reject(RejectReason::NonFinite), "{name}");
    }
    assert_eq!(link.rejects.non_finite, 6);
    assert_eq!(link.accepted, 0);
    assert_eq!(link.state(), LinkState::Waiting);
    assert!(link.state().allows_manual_gimbal());
    assert!(!link.state().allows_fire());
}

#[test]
fn nan_cannot_take_over_an_engaged_link_either() {
    let mut link = subscribed();
    link.ingest(&control(T0_NS), ns(0.0), T0_NS, &cfg());
    let bad = GimbalCmd {
        pitch_deg: f(f32::NAN),
        ..control(T0_NS + 1)
    };
    assert_eq!(
        link.ingest(&bad, ns(0.01), T0_NS + 1, &cfg()),
        LinkVerdict::Reject(RejectReason::NonFinite)
    );
    assert_eq!(link.last_timestamp_ns, T0_NS);
    link.tick(true, ns(0.6), &cfg());
    assert_eq!(link.state(), LinkState::Lost);
}

#[test]
fn a_stale_command_is_rejected_and_cannot_fire() {
    let mut link = subscribed();
    let ts = T0_NS;
    let mut cmd = control(ts);
    cmd.fire_advice = 1;
    let now_ns = ts + 700_000_000;
    let v = link.ingest(&cmd, ns(0.7), now_ns, &cfg());
    assert_eq!(v, LinkVerdict::Reject(RejectReason::Expired));
    assert!(
        !matches!(v, LinkVerdict::Control { .. }),
        "an old command does not fire"
    );
    assert_eq!(link.rejects.expired, 1);
    assert_eq!(link.state(), LinkState::Waiting);
}

#[test]
fn a_command_from_the_future_is_rejected() {
    let mut link = subscribed();
    let ts = T0_NS + 2_000_000_000;
    let v = link.ingest(&control(ts), ns(0.0), T0_NS, &cfg());
    assert_eq!(v, LinkVerdict::Reject(RejectReason::TimestampFuture));
    assert_eq!(link.rejects.timestamp_future, 1);
    assert_eq!(link.state(), LinkState::Waiting);
}

#[test]
fn fire_advice_is_only_honoured_on_control_commands() {
    let mut link = subscribed();
    let mut cmd = control(T0_NS);
    cmd.fire_advice = 1;
    assert_eq!(
        link.ingest(&cmd, ns(0.0), T0_NS, &cfg()),
        LinkVerdict::Control { fire: true }
    );
    assert!(link.state().allows_fire());
    let mut stop = safe_stop(T0_NS + 1);
    stop.fire_advice = 1;
    assert_eq!(
        link.ingest(&stop, ns(0.01), T0_NS + 1, &cfg()),
        LinkVerdict::SafeStop
    );
}

#[test]
fn safe_stop_distance_is_minus_one() {
    assert_eq!(f32::from_bits(SAFE_STOP_DISTANCE), -1.0);
}

#[test]
fn labels_name_every_state_and_every_reason() {
    assert_eq!(LinkState::Unsubscribed.label(), "未订阅");
    assert_eq!(LinkState::Waiting.label(), "未收到");
    assert_eq!(LinkState::Standby.label(), "待命");
    assert_eq!(LinkState::Engaged.label(), "接管");
    assert_eq!(LinkState::Lost.label(), "中断");
    assert_eq!(RejectReason::NonFinite.label(), "非有限值");
    assert_eq!(RejectReason::TimestampZero.label(), "时间戳为0");
    assert_eq!(RejectReason::TimestampRegressed.label(), "时间戳倒退");
    assert_eq!(RejectReason::Expired.label(), "命令过期");
    assert_eq!(RejectReason::TimestampFuture.label(), "时间戳超前");
    assert_eq!(LinkState::default(), LinkState::Unsubscribed);
}

#[test]
fn refusals_are_counted_by_reason() {
    let mut counts = RejectCounts::default();
    for reason in [
        RejectReason::NonFinite,
        RejectReason::TimestampZero,
        RejectReason::TimestampRegressed,
        RejectReason::Expired,
        RejectReason::TimestampFuture,
        RejectReason::Expired,
    ] {
        counts.record(reason);
    }
    assert_eq!(
        counts,
        RejectCounts {
            non_finite: 1,
            timestamp_zero: 1,
            timestamp_regressed: 1,
            expired: 2,
            timestamp_future: 1,
        }
    );
    assert_eq!(counts.total(), 6);
}

#[test]
fn the_lease_ends_one_nanosecond_after_its_length() {
    let mut link = subscribed();
    link.ingest(&control(T0_NS), 0, T0_NS, &cfg());
    link.tick(true, 500_000_000, &cfg());
    assert_eq!(link.state(), LinkState::Engaged);
    link.tick(true, 500_000_001, &cfg());
    assert_eq!(link.state(), LinkState::Lost);
}

#[test]
fn a_command_at_the_edge_of_the_lease_is_still_heard() {
    let mut link = subscribed();
    let old = control(T0_NS);
    assert_eq!(
        link.ingest(&old, 0, T0_NS + 500_000_000, &cfg()),
        LinkVerdict::Control { fire: false }
    );
    let ahead = control(T0_NS + 1_000_000_000);
    assert_eq!(
        link.ingest(&ahead, 0, T0_NS + 500_000_000, &cfg()),
        LinkVerdict::Control { fire: false }
    );
    let too_far = control(T0_NS + 1_000_000_001);
    assert_eq!(
        link.ingest(&too_far, 0, T0_NS + 500_000_000, &cfg()),
        LinkVerdict::Reject(RejectReason::TimestampFuture)
    );
}

#[test]
fn lease_is_cut_to_whole_nanoseconds_and_never_negative() {
    let lease = |ms: f32| AutoAimLinkConfig { lease_ms: f(ms) }.lease_ns();
    assert_eq!(lease(500.0), 500_000_000);
    assert_eq!(lease(0.0000015), 1);
    assert_eq!(lease(0.1), 100_000);
    assert_eq!(lease(-3.0), 0);
    assert_eq!(lease(f32::NAN), 0);
    assert_eq!(lease(f32::INFINITY), u64::MAX);
    assert_eq!(lease(f32::MAX), u64::MAX);
    for ms in [0.1f32, 0.3, 1.7, 16.6667, 333.333, 86_400_000.0] {
        assert_eq!(lease(ms), (ms.max(0.0) as f64 * 1e6) as u64, "{ms}");
    }
    assert_eq!(AutoAimLinkConfig::default().lease_ns(), 500_000_000);
}

/// A peer that only stops never gets the gimbal, whatever else it sends.
#[test]
fn a_peer_without_control_commands_never_gets_the_gimbal() {
    let mut link = AutoAimLink::default();
    let mut now = 0u64;
    for i in 1..200u64 {
        now += 7_000_000;
        let ts = T0_NS + now;
        match i % 5 {
            0 => link.tick(i % 3 != 0, now, &cfg()),
            1 => {
                link.ingest(&safe_stop(ts), now, ts, &cfg());
            }
            2 => {
                link.ingest(&control(ts), now, ts + 900_000_000, &cfg());
            }
            3 => {
                link.ingest(&GimbalCmd { pitch_deg: f(f32::NAN), ..control(ts) }, now, ts, &cfg());
            }
            _ => link.tick(true, now + 600_000_000, &cfg()),
        }
        assert!(link.state().allows_manual_gimbal());
        assert!(!link.state().allows_fire());
    }
    assert_eq!(link.control, 0);
    assert_eq!(link.link_lost_count, 0);
    assert_eq!(link.cmd_count, link.accepted + link.rejects.total());
    assert_eq!(link.accepted, link.control + link.safe_stops);
}
