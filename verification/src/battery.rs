//! The battery: what the power service reports, and how it is shown.

use vstd::arithmetic::div_mod::{
    lemma_div_denominator, lemma_fundamental_div_mod_converse, lemma_mod_breakdown,
};
use vstd::prelude::*;

use crate::labels::Labels;
use crate::percent::Percent;
use crate::text::{
    decimal, decimal_reads_back, is_digit, join, joined, joining_is_piecewise, number,
    push_decimal, texts,
};

verus! {

/// What is known of the battery.
#[derive(Clone, Copy, Debug, PartialEq, Eq, Structural)]
pub struct BatteryState {
    pub percent: Percent,
    pub on_battery: bool,
    /// In seconds; nothing is known where it is not positive.
    pub time_to_empty: i64,
}

/// A report of the power service.
#[derive(Clone, Copy, Debug, PartialEq, Eq, Structural)]
pub enum BatteryEvent {
    NoBattery,
    Update { on_battery: bool, percent: Percent, time_to_empty: i64 },
}

/// The battery after a report.
pub open spec fn battery_after(event: BatteryEvent) -> Option<BatteryState> {
    match event {
        BatteryEvent::NoBattery => None,
        BatteryEvent::Update { on_battery, percent, time_to_empty } => Some(
            BatteryState { percent, on_battery, time_to_empty },
        ),
    }
}

impl BatteryState {
    /// The battery after a report.
    pub fn reported(event: BatteryEvent) -> (r: Option<BatteryState>)
        ensures
            r == battery_after(event),
    {
        match event {
            BatteryEvent::NoBattery => None,
            BatteryEvent::Update { on_battery, percent, time_to_empty } => Some(
                BatteryState { percent, on_battery, time_to_empty },
            ),
        }
    }
}

/// The charge level whose icon stands for `percent`.
pub open spec fn icon_level(percent: Percent) -> nat {
    if percent.exceeds(95) {
        100
    } else if percent.exceeds(80) {
        90
    } else if percent.exceeds(65) {
        80
    } else if percent.exceeds(35) {
        50
    } else if percent.exceeds(20) {
        35
    } else if percent.exceeds(14) {
        20
    } else if percent.exceeds(9) {
        10
    } else if percent.exceeds(5) {
        5
    } else {
        0
    }
}

/// The name of the icon that stands for the battery.
pub open spec fn icon_name(state: BatteryState) -> Seq<char> {
    "cosmic-applet-battery-level-"@ + decimal(icon_level(state.percent)) + (if state.on_battery {
        "-symbolic"@
    } else {
        "-charging-symbolic"@
    })
}

/// The name of the icon that stands for the battery.
pub fn battery_icon_name(state: BatteryState) -> (r: String)
    ensures
        r@ == icon_name(state),
{
    let percent: u64 = state.percent.ceiling();
    let level: u64 = if percent > 95 {
        100
    } else if percent > 80 {
        90
    } else if percent > 65 {
        80
    } else if percent > 35 {
        50
    } else if percent > 20 {
        35
    } else if percent > 14 {
        20
    } else if percent > 9 {
        10
    } else if percent > 5 {
        5
    } else {
        0
    };
    let mut r = "cosmic-applet-battery-level-".to_owned();
    push_decimal(&mut r, level);
    if state.on_battery {
        r.append("-symbolic");
    } else {
        r.append("-charging-symbolic");
    }
    r
}

pub open spec fn whole_days(seconds: int) -> int {
    seconds / 86400
}

pub open spec fn whole_hours(seconds: int) -> int {
    seconds % 86400 / 3600
}

pub open spec fn whole_minutes(seconds: int) -> int {
    seconds % 3600 / 60
}

/// `count` with its unit, where there is anything to count.
pub open spec fn time_part(count: int, unit: Seq<char>) -> Seq<Seq<char>> {
    if count > 0 {
        seq![decimal(count as nat) + unit]
    } else {
        Seq::empty()
    }
}

/// The days, hours and minutes of a duration, those that are zero left out.
pub open spec fn time_parts(seconds: int) -> Seq<Seq<char>> {
    time_part(whole_days(seconds), "d"@) + time_part(whole_hours(seconds), "h"@) + time_part(
        whole_minutes(seconds),
        "m"@,
    )
}

/// A duration as it is shown, to the minute.
pub open spec fn time_text(seconds: int, less_than_minute: Seq<char>) -> Seq<char> {
    if seconds < 60 {
        less_than_minute
    } else {
        joined(time_parts(seconds), " "@)
    }
}

fn push_time_part(parts: &mut Vec<String>, count: u64, unit: &str)
    ensures
        texts(final(parts)@) == texts(old(parts)@) + time_part(count as int, unit@),
{
    if count > 0 {
        let mut part = String::new();
        push_decimal(&mut part, count);
        part.append(unit);
        assert(part@ =~= decimal(count as nat) + unit@);
        parts.push(part);
    }
    assert(texts(parts@) =~= texts(old(parts)@) + time_part(count as int, unit@));
}

/// Counting in minutes first comes to the same days, hours and minutes.
proof fn lemma_clock(seconds: int)
    requires
        0 <= seconds,
    ensures
        seconds / 60 / 1440 == whole_days(seconds),
        seconds / 60 % 1440 / 60 == whole_hours(seconds),
        seconds / 60 % 60 == whole_minutes(seconds),
{
    let minutes = seconds / 60;
    let rest = seconds % 60;
    lemma_div_denominator(seconds, 60, 1440);
    lemma_mod_breakdown(seconds, 60, 1440);
    lemma_mod_breakdown(seconds, 60, 60);
    let of_day = minutes % 1440;
    assert(seconds % 86400 == 60 * of_day + rest);
    lemma_fundamental_div_mod_converse(seconds % 86400, 60, of_day, rest);
    lemma_div_denominator(seconds % 86400, 60, 60);
    lemma_fundamental_div_mod_converse(seconds % 3600, 60, minutes % 60, rest);
}

/// A duration as it is shown, to the minute.
pub fn battery_time(seconds: i64, labels: &Labels) -> (r: String)
    ensures
        r@ == time_text(seconds as int, labels.less_than_minute@),
{
    if seconds < 60 {
        return labels.less_than_minute.clone();
    }
    let minutes: u64 = seconds as u64 / 60;
    let mut parts: Vec<String> = Vec::new();
    assert(texts(parts@) =~= Seq::empty());
    proof {
        lemma_clock(seconds as int);
    }
    push_time_part(&mut parts, minutes / (24 * 60), "d");
    push_time_part(&mut parts, (minutes % (24 * 60)) / 60, "h");
    push_time_part(&mut parts, minutes % 60, "m");
    assert(texts(parts@) =~= time_parts(seconds as int));
    join(&parts, " ")
}

/// The time that the battery lasts, as it goes into the message on the time
/// that remains, where that message is shown.
pub open spec fn remaining_text(
    state: BatteryState,
    less_than_minute: Seq<char>,
) -> Option<Seq<char>> {
    if state.time_to_empty > 0 {
        Some(time_text(state.time_to_empty as int, less_than_minute))
    } else {
        None
    }
}

/// The time that goes into the message on the time that remains, where that message is
/// shown.
pub fn battery_remaining(state: BatteryState, labels: &Labels) -> (r: Option<String>)
    ensures
        crate::text::optional_text(r) == remaining_text(state, labels.less_than_minute@),
{
    if state.time_to_empty > 0 {
        Some(battery_time(state.time_to_empty, labels))
    } else {
        None
    }
}

/// The line under the battery's title. `remaining` is the message on the time
/// that remains.
pub open spec fn caption(
    state: BatteryState,
    on_battery: Seq<char>,
    charging: Seq<char>,
    remaining: Seq<char>,
) -> Seq<char> {
    let line = state.percent.text() + " \u{b7} "@ + (if state.on_battery {
        on_battery
    } else {
        charging
    });
    if state.time_to_empty > 0 {
        line + " \u{b7} "@ + remaining
    } else {
        line
    }
}

/// The line under the battery's title. `remaining` is the message on the time that
/// remains.
pub fn battery_caption(state: BatteryState, labels: &Labels, remaining: &str) -> (r: String)
    ensures
        r@ == caption(state, labels.on_battery@, labels.charging@, remaining@),
{
    let mut r = state.percent.percentage();
    r.append(" \u{b7} ");
    if state.on_battery {
        r.append(labels.on_battery.as_str());
    } else {
        r.append(labels.charging.as_str());
    }
    if state.time_to_empty > 0 {
        r.append(" \u{b7} ");
        r.append(remaining);
    }
    r
}

/// From a minute on, days, hours and minutes add up to the duration, less what is left
/// of the last minute, and at least one of them is shown.
pub proof fn time_adds_up(seconds: int)
    requires
        60 <= seconds,
    ensures
        ({
            let shown = whole_days(seconds) * 86400 + whole_hours(seconds) * 3600
                + whole_minutes(seconds) * 60;
            shown <= seconds < shown + 60
        }),
        0 <= whole_hours(seconds) < 24,
        0 <= whole_minutes(seconds) < 60,
        1 <= time_parts(seconds).len() <= 3,
{
    lemma_clock(seconds);
    let minutes = seconds / 60;
    lemma_mod_breakdown(minutes, 60, 24);
    lemma_fundamental_div_mod_converse(
        minutes % 1440,
        60,
        minutes / 60 % 24,
        minutes % 60,
    );
    assert(minutes == minutes / 1440 * 1440 + minutes % 1440);
}

/// Whether the number that `low` encodes is at most the one that `high` does.
pub open spec fn at_most(low: Percent, high: Percent) -> bool {
    &&& !low.is_nan()
    &&& !high.is_nan()
    &&& if low.negative() && high.negative() {
        high.units() <= low.units()
    } else if low.negative() {
        true
    } else if high.negative() {
        low.units() == 0 && high.units() == 0
    } else {
        low.units() <= high.units()
    }
}

/// A fuller battery has no emptier icon.
pub proof fn icon_follows_charge(low: Percent, high: Percent)
    requires
        at_most(low, high),
    ensures
        icon_level(low) <= icon_level(high) <= 100,
{
    assert(forall|t: nat| #[trigger] low.exceeds(t) ==> high.exceeds(t));
}

/// Every report but that of a missing battery makes the battery known, with just what was
/// reported, whatever that is.
pub proof fn reported_battery_is_known(on_battery: bool, percent: Percent, time_to_empty: i64)
    ensures
        ({
            let after = battery_after(BatteryEvent::Update { on_battery, percent, time_to_empty });
            &&& after is Some
            &&& after->0.on_battery == on_battery
            &&& after->0.percent == percent
            &&& after->0.time_to_empty == time_to_empty
        }),
        battery_after(BatteryEvent::NoBattery) is None,
{
}

/// Each icon stands for a band of charges.
pub proof fn icons_stand_for_bands(percent: Percent)
    ensures
        ({
            let level = icon_level(percent);
            &&& set![0nat, 5, 10, 20, 35, 50, 80, 90, 100].contains(level)
            &&& level == 100 <==> percent.exceeds(95)
            &&& level >= 90 <==> percent.exceeds(80)
            &&& level >= 80 <==> percent.exceeds(65)
            &&& level >= 50 <==> percent.exceeds(35)
            &&& level >= 35 <==> percent.exceeds(20)
            &&& level >= 20 <==> percent.exceeds(14)
            &&& level >= 10 <==> percent.exceeds(9)
            &&& level >= 5 <==> percent.exceeds(5)
        }),
{
    crate::percent::lemma_exceeding_is_downward(percent);
}

/// An icon's name holds the level in digits, and tells a battery that is charging apart by
/// one word.
pub proof fn icon_name_tells_level_and_charging(state: BatteryState)
    ensures
        ({
            let discharging = icon_name(BatteryState { on_battery: true, ..state });
            let charging = icon_name(BatteryState { on_battery: false, ..state });
            let prefix = "cosmic-applet-battery-level-"@;
            let level = discharging.subrange(prefix.len() as int, discharging.len() - 9);
            &&& discharging == prefix + level + "-symbolic"@
            &&& charging == prefix + level + "-charging-symbolic"@
            &&& number(level) == icon_level(state.percent)
            &&& forall|i: int| 0 <= i < level.len() ==> is_digit(#[trigger] level[i])
        }),
{
    reveal_strlit("cosmic-applet-battery-level-");
    reveal_strlit("-symbolic");
    decimal_reads_back(icon_level(state.percent));
    let discharging = icon_name(BatteryState { on_battery: true, ..state });
    let prefix = "cosmic-applet-battery-level-"@;
    assert(discharging.subrange(prefix.len() as int, discharging.len() - 9) =~= decimal(
        icon_level(state.percent),
    ));
}

/// A duration of so many days, hours, minutes and seconds is told by its days, hours and
/// minutes, in this order and each with its unit, those that are zero left out; one of
/// under a minute by a text of its own.
pub proof fn time_is_told(days: nat, hours: nat, minutes: nat, seconds: nat, short: Seq<char>)
    requires
        hours < 24,
        minutes < 60,
        seconds < 60,
    ensures
        ({
            let told = time_text(
                days * 86400 + hours * 3600 + minutes * 60 + seconds as int,
                short,
            );
            let d = decimal(days) + "d"@;
            let h = decimal(hours) + "h"@;
            let m = decimal(minutes) + "m"@;
            told == if days > 0 && hours > 0 && minutes > 0 {
                d + " "@ + h + " "@ + m
            } else if days > 0 && hours > 0 {
                d + " "@ + h
            } else if days > 0 && minutes > 0 {
                d + " "@ + m
            } else if hours > 0 && minutes > 0 {
                h + " "@ + m
            } else if days > 0 {
                d
            } else if hours > 0 {
                h
            } else if minutes > 0 {
                m
            } else {
                short
            }
        }),
{
    let total = days * 86400 + hours * 3600 + minutes * 60 + seconds as int;
    let of_day = hours * 3600 + minutes * 60 + seconds as int;
    let of_hour = minutes * 60 + seconds as int;
    lemma_fundamental_div_mod_converse(total, 86400, days as int, of_day);
    lemma_fundamental_div_mod_converse(of_day, 3600, hours as int, of_hour);
    lemma_fundamental_div_mod_converse(total, 3600, days * 24 + hours as int, of_hour);
    lemma_fundamental_div_mod_converse(of_hour, 60, minutes as int, seconds as int);
    if total >= 60 {
        let d = time_part(days as int, "d"@);
        let h = time_part(hours as int, "h"@);
        let m = time_part(minutes as int, "m"@);
        assert(time_parts(total) == d + h + m);
        if days > 0 {
            joining_is_piecewise(d, h + m, d[0], " "@);
            assert(d =~= seq![d[0]]);
            assert(d + h + m =~= d + (h + m));
        } else {
            assert(d + h + m =~= h + m);
        }
        if hours > 0 {
            joining_is_piecewise(h, m, h[0], " "@);
            assert(h =~= seq![h[0]]);
        } else {
            assert(h + m =~= m);
        }
        if minutes > 0 {
            joining_is_piecewise(m, m, m[0], " "@);
            assert(m =~= seq![m[0]]);
        } else {
            assert(h + m =~= h);
            if hours == 0 {
                assert(d + (h + m) =~= d);
            }
        }
    }
}

/// A time is told just where it is positive.
pub proof fn positive_times_are_told(state: BatteryState, short: Seq<char>)
    ensures
        state.time_to_empty <= 0 ==> remaining_text(state, short) is None,
        state.time_to_empty > 0 ==> remaining_text(state, short) == Some(
            time_text(state.time_to_empty as int, short),
        ),
{
}

/// The line under the title begins with the percentage, then says whether the battery is
/// charging, and ends with the message on the time just where a time is told.
pub proof fn caption_tells_charge_status_and_time(
    state: BatteryState,
    on_battery: Seq<char>,
    charging: Seq<char>,
    remaining: Seq<char>,
)
    ensures
        ({
            let told = caption(state, on_battery, charging, remaining);
            let percentage = state.percent.text();
            let dot = " \u{b7} "@;
            let timed = state.time_to_empty > 0;
            &&& state.on_battery && !timed ==> told == percentage + dot + on_battery
            &&& !state.on_battery && !timed ==> told == percentage + dot + charging
            &&& state.on_battery && timed ==> told == percentage + dot + on_battery + dot
                + remaining
            &&& !state.on_battery && timed ==> told == percentage + dot + charging + dot
                + remaining
        }),
{
}

} // verus!
