//! Points in time as plain numbers, the two clocks that the application
//! reads, and the clock that a time hack puts in their place.

use vstd::prelude::*;
use chrono::Timelike;
use crate::key_utils::digit_char;
use crate::text::push_char;

verus! {

/// A point in time: the seconds and nanoseconds that have passed since
/// 1970-01-01T00:00:00 UTC, and the offset from UTC, in seconds east, of the
/// zone in which it is shown. Two timestamps with the same `secs` and `nanos`
/// are the same instant, whatever their offsets.
#[derive(Debug, Clone, Copy, Eq)]
pub struct Timestamp {
    pub secs: i64,
    /// From 1_000_000_000 on, a leap second.
    pub nanos: u32,
    pub offset: i32,
}

impl PartialEq for Timestamp {
    fn eq(&self, other: &Timestamp) -> (r: bool) {
        self.secs == other.secs && self.nanos == other.nanos
    }
}

impl vstd::std_specs::cmp::PartialEqSpecImpl for Timestamp {
    open spec fn obeys_eq_spec() -> bool {
        true
    }

    open spec fn eq_spec(&self, other: &Timestamp) -> bool {
        self.secs == other.secs && self.nanos == other.nanos
    }
}

impl Timestamp {
    /// Whether the fields are in range: the nanoseconds below two seconds,
    /// the offset within a day either way, and the seconds within ten to the
    /// fifteenth either way, some thirty million years, so that a day and
    /// more can be added without leaving the range of `i64`.
    pub open spec fn wf(self) -> bool {
        &&& -1_000_000_000_000_000 <= self.secs <= 1_000_000_000_000_000
        &&& self.nanos < 2_000_000_000
        &&& -86_400 < self.offset < 86_400
    }

    /// Whether two timestamps are the same instant.
    pub open spec fn same_instant(self, other: Timestamp) -> bool {
        self.secs == other.secs && self.nanos == other.nanos
    }

    /// The seconds since midnight on the wall clock of the timestamp's zone.
    pub open spec fn second_of_day(self) -> int {
        (self.secs + self.offset) % 86_400
    }

    /// The seconds since midnight on the wall clock of the timestamp's zone.
    pub fn seconds_from_midnight(&self) -> (s: u32)
        ensures
            s == self.second_of_day(),
            s < 86_400,
    {
        let local: i128 = self.secs as i128 + self.offset as i128;
        let r: i128 = local % 86_400;
        if r < 0 {
            (r + 86_400) as u32
        } else {
            r as u32
        }
    }
}

/// A time of day: whole seconds since midnight, and nanoseconds.
#[derive(Debug, Clone, Copy, PartialEq, Eq, Structural)]
pub struct TimeOfDay {
    /// Below 86_400.
    pub secs: u32,
    /// Below 2_000_000_000; from 1_000_000_000 on, a leap second.
    pub nanos: u32,
}

impl TimeOfDay {
    /// Whether the fields are in range.
    pub open spec fn wf(self) -> bool {
        self.secs < 86_400 && self.nanos < 2_000_000_000
    }
}

/// A length of time: whole seconds and nanoseconds.
#[derive(Debug, Clone, Copy, PartialEq, Eq, Structural)]
pub struct Elapsed {
    pub secs: u64,
    pub nanos: u32,
}

/// A reading of std's monotonic clock. Nothing is known of one reading but
/// how far it lies from another.
#[verifier::external_type_specification]
#[verifier::external_body]
pub struct ExInstant(std::time::Instant);

/// A clock set by hand: `base` was the time of day at the moment `started`.
#[derive(Debug, Clone, Copy)]
pub struct TimeHack {
    pub base: TimeOfDay,
    pub started: std::time::Instant,
}

/// What a text is as a time of day under a `strftime` format, as chrono's
/// `NaiveTime::parse_from_str` reads it; `None` where it rejects the text.
pub uninterp spec fn time_parsed(text: Seq<char>, format: Seq<char>) -> Option<TimeOfDay>;

/// Reads the system clock with chrono's `Local::now` and hands back the
/// instant and the local offset as numbers. Nothing is claimed of them.
#[verifier::external_body]
pub(crate) fn local_now() -> (t: Timestamp) {
    let now = chrono::Local::now();
    Timestamp {
        secs: now.timestamp(),
        nanos: now.timestamp_subsec_nanos(),
        offset: now.offset().local_minus_utc(),
    }
}

/// Reads the monotonic clock with std's `Instant::now`.
#[verifier::external_body]
pub(crate) fn monotonic_now() -> (i: std::time::Instant) {
    std::time::Instant::now()
}

/// The time that has passed on the monotonic clock from the reading
/// `earlier` to the reading `later`, as std's
/// `Instant::saturating_duration_since` tells it: no time where `later` is
/// the earlier of the two.
pub uninterp spec fn elapsed_time(later: std::time::Instant, earlier: std::time::Instant) -> Elapsed;

/// Measures the time from `earlier` to `later` with std's
/// `Instant::saturating_duration_since` and hands it back as whole seconds
/// and nanoseconds. The result is [`elapsed_time`] of the two readings.
#[verifier::external_body]
pub(crate) fn elapsed_between(later: std::time::Instant, earlier: std::time::Instant) -> (e: Elapsed)
    ensures
        e == elapsed_time(later, earlier),
{
    let d = later.saturating_duration_since(earlier);
    Elapsed { secs: d.as_secs(), nanos: d.subsec_nanos() }
}

/// Parses a time of day with chrono's `NaiveTime::parse_from_str`. The
/// result is [`time_parsed`] of the two texts; a time that chrono hands out
/// has its seconds below 86_400 and its nanoseconds below 2_000_000_000.
#[verifier::external_body]
pub(crate) fn parse_time(text: &str, format: &str) -> (r: Option<TimeOfDay>)
    ensures
        r == time_parsed(text@, format@),
        r matches Some(t) ==> t.wf(),
{
    chrono::NaiveTime::parse_from_str(text, format).ok().map(
        |t| TimeOfDay { secs: t.num_seconds_from_midnight(), nanos: t.nanosecond() },
    )
}

/// The time of day that a text of the time hack input stands for: hours,
/// minutes and seconds, with or without a fraction of a second.
pub open spec fn hack_input_time(text: Seq<char>) -> Option<TimeOfDay> {
    match time_parsed(text, "%H:%M:%S%.f"@) {
        Some(t) => Some(t),
        None => time_parsed(text, "%H:%M:%S"@),
    }
}

/// Reads the text of the time hack input.
pub fn parse_time_of_day(text: &str) -> (r: Option<TimeOfDay>)
    ensures
        r == hack_input_time(text@),
        r matches Some(t) ==> t.wf(),
{
    match parse_time(text, "%H:%M:%S%.f") {
        Some(t) => Some(t),
        None => parse_time(text, "%H:%M:%S"),
    }
}

/// `x` brought into the range of `i64`.
pub open spec fn clamp_i64(x: int) -> i64 {
    if x < i64::MIN {
        i64::MIN
    } else if x > i64::MAX {
        i64::MAX
    } else {
        x as i64
    }
}

/// The time that a hacked clock shows: the date that `now` falls on in its
/// zone, at the time of day `base`, plus `elapsed`. The result keeps the
/// offset of `now`.
pub open spec fn hacked_time(base: TimeOfDay, now: Timestamp, elapsed: Elapsed) -> Timestamp {
    let local = now.secs + now.offset;
    let midnight = local - local % 86_400;
    let nanos = base.nanos + elapsed.nanos;
    let secs = midnight + base.secs + elapsed.secs + nanos / 1_000_000_000 - now.offset;
    Timestamp { secs: clamp_i64(secs), nanos: (nanos % 1_000_000_000) as u32, offset: now.offset }
}

/// Computes [`hacked_time`].
pub fn hacked_clock(base: TimeOfDay, now: Timestamp, elapsed: Elapsed) -> (t: Timestamp)
    ensures
        t == hacked_time(base, now, elapsed),
{
    let local: i128 = now.secs as i128 + now.offset as i128;
    let midnight: i128 = local - now.seconds_from_midnight() as i128;
    let nanos: u64 = base.nanos as u64 + elapsed.nanos as u64;
    let secs: i128 = midnight + base.secs as i128 + elapsed.secs as i128 + (nanos / 1_000_000_000) as i128
        - now.offset as i128;
    let secs: i64 = if secs < i64::MIN as i128 {
        i64::MIN
    } else if secs > i64::MAX as i128 {
        i64::MAX
    } else {
        secs as i64
    };
    Timestamp { secs, nanos: (nanos % 1_000_000_000) as u32, offset: now.offset }
}

/// A number below one hundred in two digits.
pub open spec fn two_digits(n: nat) -> Seq<char> {
    seq![digit_char(n / 10), digit_char(n % 10)]
}

/// The wall-clock time of a timestamp in its zone as `HH:MM:SS`. A leap
/// second shows as second 60.
pub open spec fn clock_text(t: Timestamp) -> Seq<char> {
    let day = t.second_of_day();
    let leap: int = if t.nanos >= 1_000_000_000 { 1 } else { 0 };
    two_digits((day / 3600) as nat) + seq![':'] + two_digits(((day / 60) % 60) as nat) + seq![':']
        + two_digits((day % 60 + leap) as nat)
}

fn push_two_digits(out: &mut String, n: u32)
    requires
        n < 100,
    ensures
        final(out)@ == old(out)@ + two_digits(n as nat),
{
    push_char(out, (48u8 + (n / 10) as u8) as char);
    push_char(out, (48u8 + (n % 10) as u8) as char);
    assert(final(out)@ =~= old(out)@ + two_digits(n as nat));
}

/// Writes the wall-clock time of a timestamp as `HH:MM:SS`.
pub fn format_clock(t: &Timestamp) -> (s: String)
    ensures
        s@ == clock_text(*t),
{
    let day = t.seconds_from_midnight();
    let leap: u32 = if t.nanos >= 1_000_000_000 { 1 } else { 0 };
    let mut out = String::new();
    push_two_digits(&mut out, day / 3600);
    push_char(&mut out, ':');
    push_two_digits(&mut out, (day / 60) % 60);
    push_char(&mut out, ':');
    push_two_digits(&mut out, day % 60 + leap);
    assert(out@ =~= clock_text(*t));
    out
}

/// Right after a time hack is set, the hacked clock shows the time of day
/// that was asked for: with nothing elapsed, the wall-clock second of the
/// hacked time is the second of `base`, unless `base` is a leap second.
pub proof fn lemma_hacked_clock_starts_at_base(base: TimeOfDay, now: Timestamp)
    requires
        base.wf(),
        base.nanos < 1_000_000_000,
        now.wf(),
    ensures
        hacked_time(base, now, Elapsed { secs: 0, nanos: 0 }).second_of_day() == base.secs,
        hacked_time(base, now, Elapsed { secs: 0, nanos: 0 }).nanos == base.nanos,
        hacked_time(base, now, Elapsed { secs: 0, nanos: 0 }).offset == now.offset,
{
    let local = now.secs + now.offset;
    let midnight = local - local % 86_400;
    assert(midnight % 86_400 == 0) by (nonlinear_arith)
        requires
            midnight == local - local % 86_400,
    ;
    assert(0 <= local % 86_400 < 86_400);
    assert((midnight + base.secs) % 86_400 == base.secs) by (nonlinear_arith)
        requires
            midnight % 86_400 == 0,
            0 <= base.secs < 86_400,
    ;
}

} // verus!
