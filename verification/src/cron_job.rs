//! The times of the day and night switches, kept by `cron` schedules.

use std::str::FromStr;
use vstd::prelude::*;
use chrono::TimeZone;

verus! {

/// `cron::Schedule`, a parsed cron expression.
#[verifier::external_type_specification]
#[verifier::external_body]
pub struct ExSchedule(cron::Schedule);

/// The last second that `chrono` holds, counted from the start of 1970:
/// the end of the year 262142. A schedule is asked for the times after a
/// moment that lies before it, for `cron` looks one second ahead.
pub const LAST_MOMENT: i64 = 8_210_266_876_799;

/// Whether `cron` takes a text for a cron expression.
pub uninterp spec fn cron_accepts(expression: Seq<char>) -> bool;

/// The cron expression of the switch to the day variant: six o'clock every morning.
pub open spec fn day_expression() -> Seq<char> {
    "0 0 6 * * * *"@
}

/// The cron expression of the switch to the night variant: six o'clock every evening.
pub open spec fn night_expression() -> Seq<char> {
    "0 0 18 * * * *"@
}

/// The cron expression that a schedule was parsed from, which it keeps.
pub uninterp spec fn schedule_source(schedule: cron::Schedule) -> Seq<char>;

/// Parses a cron expression with `cron::Schedule::from_str`. Whether the
/// parse succeeds is a function of the text alone, and the schedule keeps
/// the text that it was parsed from.
#[verifier::external_body]
fn parse_schedule(expression: &str) -> (r: Option<cron::Schedule>)
    ensures
        r is Some == cron_accepts(expression@),
        r matches Some(schedule) ==> schedule_source(schedule) == expression@,
{
    cron::Schedule::from_str(expression).ok()
}

/// The whole seconds from the given moment, in seconds and nanoseconds
/// since the start of 1970, to the first time after it that the schedule
/// names in the local time zone, by `cron::Schedule::after`. `None` when
/// the moment is out of `chrono`'s range or the schedule names no later
/// time. The result depends on the machine's time zone. The moment lies
/// before `LAST_MOMENT`: `cron` adds a second to it, which `chrono`
/// refuses with a panic at the end of its range.
#[verifier::external_body]
fn seconds_until_next(schedule: &cron::Schedule, secs: i64, nanos: u32) -> Option<i64>
    requires
        secs < LAST_MOMENT,
{
    let now = chrono::Local.timestamp_opt(secs, nanos).single()?;
    let next = schedule.after(&now).next()?;
    Some(next.signed_duration_since(&now).num_seconds())
}

/// The two schedules of the day and night engine.
pub struct CronJob {
    day: cron::Schedule,
    night: cron::Schedule,
}

/// The seconds to wait for a time that is `seconds` away: none when the
/// time is not in the future.
pub open spec fn delay_of(seconds: i64) -> u64 {
    if seconds < 0 {
        0
    } else {
        seconds as u64
    }
}

/// The wait and the variant of the switch that comes first, given the
/// seconds until each. The day variant goes first when both are due at once.
pub open spec fn sooner_of(day: i64, night: i64) -> (u64, Seq<char>) {
    if delay_of(day) <= delay_of(night) {
        (delay_of(day), "DAY"@)
    } else {
        (delay_of(night), "NIGHT"@)
    }
}

/// The seconds to wait and the variant to switch to, given the seconds
/// until the next switch of each kind.
pub fn sooner(day: i64, night: i64) -> (r: (u64, &'static str))
    ensures
        (r.0, r.1@) == sooner_of(day, night),
{
    let day_delay: u64 = if day < 0 {
        0
    } else {
        day as u64
    };
    let night_delay: u64 = if night < 0 {
        0
    } else {
        night as u64
    };
    if day_delay <= night_delay {
        (day_delay, "DAY")
    } else {
        (night_delay, "NIGHT")
    }
}

impl CronJob {
    /// The cron expression of the schedule that switches to the day variant.
    pub closed spec fn day_source(&self) -> Seq<char> {
        schedule_source(self.day)
    }

    /// The cron expression of the schedule that switches to the night variant.
    pub closed spec fn night_source(&self) -> Seq<char> {
        schedule_source(self.night)
    }

    /// The schedules of the default switches, to the day variant at six in
    /// the morning and to the night variant at six in the evening, if
    /// `cron` takes both expressions.
    pub fn new() -> (r: Option<CronJob>)
        ensures
            r is Some == (cron_accepts(day_expression()) && cron_accepts(night_expression())),
            r matches Some(job) ==> job.day_source() == day_expression() && job.night_source()
                == night_expression(),
    {
        let day = match parse_schedule("0 0 6 * * * *") {
            Some(schedule) => schedule,
            None => {
                return None;
            },
        };
        match parse_schedule("0 0 18 * * * *") {
            Some(night) => Some(CronJob { day, night }),
            None => None,
        }
    }

    /// The seconds to wait from the given moment, in seconds and
    /// nanoseconds since the start of 1970, and the variant to switch to
    /// then. `None` when a schedule names no time after the moment. The
    /// moment lies before `LAST_MOMENT`, the end of the time that can be
    /// counted.
    pub fn next_switch(&self, secs: i64, nanos: u32) -> (r: Option<(u64, &'static str)>)
        requires
            secs < LAST_MOMENT,
        ensures
            r matches Some((delay, spec)) ==> {
                &&& spec@ == "DAY"@ || spec@ == "NIGHT"@
                &&& exists|day: i64, night: i64| (delay, spec@) == #[trigger] sooner_of(day, night)
            },
    {
        let day = match seconds_until_next(&self.day, secs, nanos) {
            Some(seconds) => seconds,
            None => {
                return None;
            },
        };
        match seconds_until_next(&self.night, secs, nanos) {
            Some(night) => Some(sooner(day, night)),
            None => None,
        }
    }
}

} // verus!
