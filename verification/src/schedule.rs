//! Cron schedules and the clock.
//!
//! The cron grammar and the calendar belong to the `cron` and `chrono`
//! crates. What this module adds is the arithmetic between two instants: how
//! long a job waits for its next occurrence.

use std::str::FromStr;
use vstd::prelude::*;

verus! {

/// The parsed schedule of the `cron` crate. Nothing of what it holds is
/// read here: a schedule is made by the parser and handed back to the crate.
#[verifier::external_type_specification]
#[verifier::external_body]
pub struct ExSchedule(cron::Schedule);

/// The number of nanoseconds in a second.
pub const NANOS_PER_SEC: u32 = 1_000_000_000;

/// A point in time, counted from the Unix epoch.
#[derive(Clone, Copy, Debug, PartialEq, Eq, Structural)]
pub struct Instant {
    /// Whole seconds since the epoch; negative before it.
    pub secs: i64,
    /// Nanoseconds on top of `secs`.
    pub nanos: u32,
}

impl Instant {
    /// The instant as a count of nanoseconds since the epoch.
    pub open spec fn as_nanos(self) -> int {
        self.secs * NANOS_PER_SEC + self.nanos
    }
}

/// A span of time that never runs backwards.
#[derive(Clone, Copy, Debug, PartialEq, Eq, Structural)]
pub struct Delay {
    /// Whole seconds.
    pub secs: u64,
    /// Nanoseconds on top of `secs`, fewer than a second's worth.
    pub nanos: u32,
}

impl Delay {
    /// The span as a count of nanoseconds.
    pub open spec fn as_nanos(self) -> int {
        self.secs * NANOS_PER_SEC + self.nanos
    }

    /// The nanoseconds stay below a second, so that every span is written
    /// in one way only.
    pub open spec fn wf(self) -> bool {
        self.nanos < NANOS_PER_SEC
    }
}

/// The longest span that a `Delay` holds, in nanoseconds.
pub open spec fn longest_delay() -> int {
    u64::MAX * NANOS_PER_SEC + (NANOS_PER_SEC - 1)
}

/// The time from `now` until `next` in nanoseconds: nothing where `next` is
/// not in the future, and no more than a `Delay` holds.
pub open spec fn wait_nanos(now: Instant, next: Instant) -> int {
    let span = next.as_nanos() - now.as_nanos();
    if span <= 0 {
        0
    } else if span >= longest_delay() {
        longest_delay()
    } else {
        span
    }
}

/// The delay of `total` nanoseconds.
pub open spec fn delay_of(total: int) -> Delay {
    Delay { secs: (total / NANOS_PER_SEC as int) as u64, nanos: (total % NANOS_PER_SEC as int) as u32 }
}

/// The delay from `now` until `next`.
pub open spec fn wait_between(now: Instant, next: Instant) -> Delay {
    delay_of(wait_nanos(now, next))
}

/// How long to wait at `now` for something due at `next`.
///
/// An occurrence that is already past is due at once: the delay is zero, not
/// an error.
pub fn delay_until(now: Instant, next: Instant) -> (delay: Delay)
    ensures
        delay == wait_between(now, next),
        delay.wf(),
        delay.as_nanos() == wait_nanos(now, next),
{
    let span: i128 = (next.secs as i128 - now.secs as i128) * 1_000_000_000 + (next.nanos as i128
        - now.nanos as i128);
    let longest: i128 = 18_446_744_073_709_551_615 * 1_000_000_000 + 999_999_999;
    let total: i128 = if span <= 0 {
        0
    } else if span >= longest {
        longest
    } else {
        span
    };
    let secs: i128 = total / 1_000_000_000;
    let nanos: i128 = total % 1_000_000_000;
    Delay { secs: secs as u64, nanos: nanos as u32 }
}

/// What the `cron` crate's parser says of `expression`: `None` where it takes
/// the expression for a schedule, else the text of its error.
pub uninterp spec fn cron_rejection(expression: Seq<char>) -> Option<Seq<char>>;

/// Whether `expression` is a cron expression that the `cron` crate accepts.
pub open spec fn is_cron_expression(expression: Seq<char>) -> bool {
    cron_rejection(expression) is None
}

/// Parses a cron expression with `cron::Schedule::from_str`. The parse
/// depends on the expression alone; the error is handed on as the text that
/// the crate gives it.
#[verifier::external_body]
pub(crate) fn parse_schedule(expression: &str) -> (parsed: Result<cron::Schedule, String>)
    ensures
        match parsed {
            Ok(_) => cron_rejection(expression@) is None,
            Err(reason) => cron_rejection(expression@) == Some(reason@),
        },
{
    match cron::Schedule::from_str(expression) {
        Ok(schedule) => Ok(schedule),
        Err(error) => Err(error.to_string()),
    }
}

/// Asks the schedule, through `cron::Schedule::upcoming`, for its first
/// occurrence after the present moment in the machine's local time zone.
/// Which instant comes back, if any, depends on the clock and on the zone, so
/// nothing is claimed of it. Where the zone repeats an hour the instant may
/// even lie before the moment of asking. The crate reads the clock through
/// `chrono`, which gives up on a system clock that stands before 1970.
#[verifier::external_body]
pub(crate) fn next_occurrence(schedule: &cron::Schedule) -> (next: Option<Instant>) {
    match schedule.upcoming(chrono::Local).next() {
        Some(time) => Some(Instant { secs: time.timestamp(), nanos: time.timestamp_subsec_nanos() }),
        None => None,
    }
}

/// Reads the clock with `chrono::Local::now`, which gives up on a system
/// clock that stands before 1970. Nothing is claimed of the instant read.
#[verifier::external_body]
pub(crate) fn current_time() -> (now: Instant) {
    let time = chrono::Local::now();
    Instant { secs: time.timestamp(), nanos: time.timestamp_subsec_nanos() }
}

} // verus!
