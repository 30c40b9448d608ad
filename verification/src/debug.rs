//! What is shown and logged, and when.
use crate::controller::ControllerState;
use crate::float::F32;
use crate::keys::KeyFrame;
use crate::names::{chars_of, reads};
use crate::statistic::ProjectileStatistics;
use vstd::prelude::*;

verus! {

/// The value of an environment variable that switches something on.
pub const SWITCHED_ON: &'static str = "1";

pub const ON: &'static str = "开";

pub const OFF: &'static str = "关";

/// The parts of the help text.
#[derive(Debug, Clone, Copy)]
pub struct HelpText {
    pub auto_aim: &'static str,
    pub launch_count: u32,
    pub accurate_count: u32,
    /// The share of hits in percent, as a numerator and a denominator.
    pub accurate_pct: (u64, u64),
    pub source: &'static str,
    pub mode: &'static str,
    pub controlled_spin: &'static str,
    pub remote_spin: &'static str,
    pub controls: &'static str,
}

/// The word for a switch.
pub open spec fn switch_word(on: bool) -> &'static str {
    if on {
        ON
    } else {
        OFF
    }
}

fn word(on: bool) -> (r: &'static str)
    ensures
        r == switch_word(on),
{
    if on {
        ON
    } else {
        OFF
    }
}

/// The parts of the help text. They all go by whether automatic aim is in effect.
pub fn create_help_text(
    auto_aim: bool,
    stats: &ProjectileStatistics,
    controller: &ControllerState,
) -> (r: HelpText)
    ensures
        r.auto_aim == switch_word(auto_aim),
        r.launch_count == stats.launch_count,
        r.accurate_count == stats.accurate_count,
        stats.launch_count == 0 ==> r.accurate_pct == (0u64, 1u64),
        stats.launch_count != 0 ==> r.accurate_pct == (
            (100 * stats.accurate_count) as u64,
            stats.launch_count as u64,
        ),
        r.source == controller.help.source,
        r.mode == (if auto_aim {
            crate::controller::MODE_AUTO_AIM
        } else {
            crate::controller::MODE_MANUAL
        }),
        r.controlled_spin == switch_word(controller.controlled_chassis_spin is On),
        r.remote_spin == switch_word(controller.remote_chassis_spin is On),
        r.controls == (if auto_aim {
            controller.help.auto_aim
        } else {
            controller.help.manual
        }),
{
    HelpText {
        auto_aim: word(auto_aim),
        launch_count: stats.launch_count,
        accurate_count: stats.accurate_count,
        accurate_pct: stats.accurate_pct(),
        source: controller.help_source(),
        mode: controller.help_mode(auto_aim),
        controlled_spin: word(controller.controlled_chassis_spin()),
        remote_spin: word(controller.remote_chassis_spin()),
        controls: controller.help_controls(auto_aim),
    }
}

/// The value switches something on.
pub open spec fn switches_on(value: Option<Seq<char>>) -> bool {
    value matches Some(v) && v == SWITCHED_ON@
}

/// What is logged of the hits, and whether anything is.
#[derive(Debug, Clone, Copy, PartialEq, Eq, Structural)]
pub struct HitLog {
    /// Whether hits are logged, once that has been found out.
    pub enabled: Option<bool>,
    /// The launches and hits that were logged last.
    pub last_launched: u32,
    pub last_accurate: u32,
}

/// The counts to log, where logging is switched on and they have changed. `value` is what the
/// environment says, without blanks around it; it is looked at once.
pub fn log_projectile_stats(log: &mut HitLog, value: Option<&str>, stats: &ProjectileStatistics) -> (r:
    bool)
    ensures
        ({
            let on = match old(log).enabled {
                Some(on) => on,
                None => switches_on(
                    match value {
                        Some(v) => Some(v@),
                        None => None,
                    },
                ),
            };
            let changed = stats.launch_count != old(log).last_launched || stats.accurate_count
                != old(log).last_accurate;
            &&& final(log).enabled == Some(on)
            &&& r == (on && changed)
            &&& final(log).last_launched == (if r {
                stats.launch_count
            } else {
                old(log).last_launched
            })
            &&& final(log).last_accurate == (if r {
                stats.accurate_count
            } else {
                old(log).last_accurate
            })
        }),
{
    let on = match log.enabled {
        Some(on) => on,
        None => match value {
            Some(v) => {
                let chars = chars_of(v);
                assert(chars@.subrange(0, chars@.len() as int) =~= chars@);
                reads(&chars, 0, chars.len(), &chars_of(SWITCHED_ON))
            },
            None => false,
        },
    };
    log.enabled = Some(on);
    if !on {
        return false;
    }
    if stats.launch_count == log.last_launched && stats.accurate_count == log.last_accurate {
        return false;
    }
    log.last_launched = stats.launch_count;
    log.last_accurate = stats.accurate_count;
    true
}

/// Whether the keys ask for another appearance.
pub fn appearance_asked(keys: &KeyFrame) -> (r: bool)
    ensures
        r == (keys.shift_left && keys.c_struck),
{
    keys.shift_left && keys.c_struck
}

/// The label that all plates get when the appearance changes: that of the sticker that was advanced
/// last.
pub fn change_appearance(keys: &KeyFrame, advanced: &Vec<u8>) -> (r: Option<u8>)
    ensures
        r == (if keys.shift_left && keys.c_struck && advanced@.len() > 0 {
            Some(advanced@.last())
        } else {
            None
        }),
{
    if !appearance_asked(keys) || advanced.len() == 0 {
        return None;
    }
    Some(advanced[advanced.len() - 1])
}

/// Whether the one timed screenshot is due. It is taken once.
pub fn screenshot_on_timer(done: &mut bool, after_s: Option<F32>, elapsed_s: F32) -> (r: bool)
    ensures
        r == (after_s matches Some(after) && !*old(done) && (elapsed_s.nan() || after.nan()
            || elapsed_s.rank() >= after.rank())),
        *final(done) == (*old(done) || r),
{
    match after_s {
        Some(after) => {
            if *done || elapsed_s.lt(after) {
                return false;
            }
            *done = true;
            true
        },
        None => false,
    }
}

/// The number of the next screenshot.
pub fn screenshot_on_f2(counter: &mut u32) -> (r: u32)
    requires
        *old(counter) < u32::MAX,
    ensures
        r == *old(counter),
        *final(counter) == *old(counter) + 1,
{
    let number: u32 = *counter;
    *counter = number + 1;
    number
}

/// What the pointer looks like while screenshots are being saved.
#[derive(Debug, Clone, Copy, PartialEq, Eq, Structural)]
pub enum PointerLook {
    Plain,
    Progress,
}

/// What the pointer looks like while `saving` screenshots are being saved.
pub fn screenshot_saving(saving: usize) -> (r: PointerLook)
    ensures
        r is Plain <==> saving == 0,
{
    if saving == 0 {
        PointerLook::Plain
    } else {
        PointerLook::Progress
    }
}

/// A switch that is on reads otherwise than one that is off, each with its own sign.
pub proof fn law_switches_read_on_and_off(on: bool)
    ensures
        switch_word(on)@ == seq![
            if on {
                '开'
            } else {
                '关'
            },
        ],
{
    reveal_strlit("开");
    reveal_strlit("关");
    assert("开"@ =~= seq!['开']);
    assert("关"@ =~= seq!['关']);
}

/// Only the single digit one switches something on.
pub proof fn law_the_digit_one_switches_on(value: Seq<char>)
    ensures
        switches_on(Some(value)) <==> value == seq!['1'],
        !switches_on(None),
{
    reveal_strlit("1");
    assert("1"@ =~= seq!['1']);
}

/// Every part of the help text is the word, the count or the text of what it is named after.
pub proof fn law_calls_of_create_help_text(
    auto_aim: bool,
    stats: ProjectileStatistics,
    controller: ControllerState,
    r: HelpText,
)
    requires
        call_ensures(create_help_text, (auto_aim, &stats, &controller), r),
    ensures
        r.auto_aim@ == seq![
            if auto_aim {
                '开'
            } else {
                '关'
            },
        ],
        r.controlled_spin@ == seq![
            if controller.controlled_chassis_spin is On {
                '开'
            } else {
                '关'
            },
        ],
        r.remote_spin@ == seq![
            if controller.remote_chassis_spin is On {
                '开'
            } else {
                '关'
            },
        ],
        r.launch_count == stats.launch_count,
        r.accurate_count == stats.accurate_count,
        stats.launch_count > 0 ==> r.accurate_pct.0 * stats.launch_count == 100
            * stats.accurate_count * r.accurate_pct.1,
        stats.launch_count == 0 ==> r.accurate_pct.0 == 0,
        r.accurate_pct.1 > 0,
        r.source == controller.help.source,
        auto_aim ==> r.mode == crate::controller::MODE_AUTO_AIM && r.controls
            == controller.help.auto_aim,
        !auto_aim ==> r.mode == crate::controller::MODE_MANUAL && r.controls
            == controller.help.manual,
{
    law_switches_read_on_and_off(auto_aim);
    law_switches_read_on_and_off(controller.controlled_chassis_spin is On);
    law_switches_read_on_and_off(controller.remote_chassis_spin is On);
    assert((100 * stats.accurate_count) * stats.launch_count == 100 * stats.accurate_count
        * stats.launch_count) by (nonlinear_arith);
}

/// Hits are logged exactly where that is switched on and a count differs from the one logged last;
/// then these counts are the ones logged last, and else they stay. The environment is asked once.
pub proof fn law_calls_of_log_projectile_stats(
    log: &mut HitLog,
    value: Option<&str>,
    stats: ProjectileStatistics,
    r: bool,
)
    requires
        call_ensures(log_projectile_stats, (log, value, &stats), r),
    ensures
        final(log).enabled is Some,
        old(log).enabled is Some ==> final(log).enabled == old(log).enabled,
        old(log).enabled is None ==> (final(log).enabled == Some(true) <==> value is Some
            && value->0@ == seq!['1']),
        r <==> final(log).enabled == Some(true) && (stats.launch_count != old(log).last_launched
            || stats.accurate_count != old(log).last_accurate),
        r ==> final(log).last_launched == stats.launch_count && final(log).last_accurate
            == stats.accurate_count,
        !r ==> final(log).last_launched == old(log).last_launched && final(log).last_accurate
            == old(log).last_accurate,
{
    if value is Some {
        law_the_digit_one_switches_on(value->0@);
    }
}

/// The plates get the label of the sticker that was advanced last, exactly where the keys ask for
/// another appearance and any was advanced.
pub proof fn law_calls_of_change_appearance(keys: KeyFrame, advanced: Vec<u8>, r: Option<u8>)
    requires
        call_ensures(change_appearance, (&keys, &advanced), r),
    ensures
        r is Some <==> keys.shift_left && keys.c_struck && advanced@.len() > 0,
        r matches Some(label) ==> label == advanced@[advanced@.len() - 1],
{
}

/// Another appearance is asked for by the left shift held and C struck.
pub proof fn law_calls_of_appearance_asked(keys: KeyFrame, r: bool)
    requires
        call_ensures(appearance_asked, (&keys,), r),
    ensures
        r <==> keys.shift_left && keys.c_struck,
{
}

/// The timed screenshot is taken once, and not before its time.
pub proof fn law_calls_of_screenshot_on_timer(
    done: &mut bool,
    after_s: Option<F32>,
    elapsed_s: F32,
    r: bool,
)
    requires
        call_ensures(screenshot_on_timer, (done, after_s, elapsed_s), r),
    ensures
        *old(done) ==> !r && *final(done),
        !*old(done) ==> *final(done) == r,
        after_s is None ==> !r,
        after_s is Some && !*old(done) ==> (r <==> after_s->0.nan() || elapsed_s.nan()
            || elapsed_s.rank() >= after_s->0.rank()),
{
}

/// Screenshots are numbered one after the other.
pub proof fn law_calls_of_screenshot_on_f2(counter: &mut u32, r: u32)
    requires
        call_ensures(screenshot_on_f2, (counter,), r),
    ensures
        r == *old(counter),
        *final(counter) == r + 1,
{
}

/// The pointer shows progress exactly while anything is being saved.
pub proof fn law_calls_of_screenshot_saving(saving: usize, r: PointerLook)
    requires
        call_ensures(screenshot_saving, (saving,), r),
    ensures
        r is Progress <==> saving > 0,
{
}

} // verus!
