//! Clocks, calendar days and times of day.

use crate::text::digit;
use vstd::prelude::*;
use vstd::string::*;

verus! {

/// First second that `chrono` can place on its calendar.
pub const FIRST_SECOND: i64 = -8_334_601_228_800;

/// Last second that `chrono` can place on its calendar.
pub const LAST_SECOND: i64 = 8_210_266_876_799;

/// Seconds of a day.
pub const DAY_SECONDS: i64 = 86_400;

/// A Unix time that `chrono` can place on its calendar.
pub open spec fn on_calendar(seconds: int) -> bool {
    FIRST_SECOND <= seconds <= LAST_SECOND
}

/// The UTC day of a Unix time, counted from 1 January 1970.
pub open spec fn day_of(seconds: int) -> int {
    seconds / 86_400
}

/// A number below a hundred as two digits.
pub open spec fn two_digits(n: nat) -> Seq<char> {
    seq![digit(n / 10), digit(n % 10)]
}

/// A time of day as `HH:MM:SS`.
pub open spec fn clock_face(hour: nat, minute: nat, second: nat) -> Seq<char> {
    two_digits(hour) + seq![':'] + two_digits(minute) + seq![':'] + two_digits(second)
}

/// The UTC time of day of a Unix time, as `HH:MM:SS`.
pub open spec fn utc_clock_face(seconds: int) -> Seq<char> {
    let s = (seconds % 86_400) as nat;
    clock_face(s / 3600, s / 60 % 60, s % 60)
}

/// Some time of day as `HH:MM:SS`.
pub open spec fn is_clock_face(s: Seq<char>) -> bool {
    exists|hour: nat, minute: nat, second: nat|
        hour < 24 && minute < 60 && second <= 60 && s == #[trigger] clock_face(hour, minute, second)
}

/// Whether a Unix time is the whole seconds of some system time.
pub open spec fn is_moment(seconds: i64) -> bool {
    exists|time: std::time::SystemTime|
        #[trigger] epoch_reading(time) matches Some(ms) && seconds == ms / 1_000
}

/// `chrono::Utc::now().timestamp()`: the current Unix time, which is the whole
/// seconds of the system time. It is different at every call; what holds of each
/// is that it is not before 1970 and that the calendar reaches it.
#[verifier::external_body]
fn utc_seconds() -> (now: i64)
    ensures
        0 <= now <= LAST_SECOND,
        is_moment(now),
{
    chrono::Utc::now().timestamp()
}

/// `chrono::Local::now()` printed with `format`: the wall clock, which depends
/// on the moment and on the machine's time zone.
#[verifier::external_body]
fn local_time(format: &str) -> (r: String)
    requires
        format@ == "%H:%M:%S"@,
    ensures
        is_clock_face(r@),
{
    chrono::Local::now().format(format).to_string()
}

/// The calendar day of `chrono::DateTime::from_timestamp`, counted in days from
/// 1 January 1970.
#[verifier::external_body]
fn calendar_day(seconds: i64) -> (day: Option<i64>)
    ensures
        match day {
            Some(d) => on_calendar(seconds as int) && d == day_of(seconds as int),
            None => !on_calendar(seconds as int),
        },
{
    chrono::DateTime::from_timestamp(seconds, 0).map(|t| t.date_naive().to_epoch_days() as i64)
}

/// `chrono::DateTime::from_timestamp` printed with `format`: the UTC time of
/// day.
#[verifier::external_body]
fn utc_time(seconds: i64, format: &str) -> (r: Option<String>)
    requires
        format@ == "%H:%M:%S"@,
    ensures
        match r {
            Some(s) => on_calendar(seconds as int) && s@ == utc_clock_face(seconds as int),
            None => !on_calendar(seconds as int),
        },
{
    chrono::DateTime::from_timestamp(seconds, 0).map(|t| t.format(format).to_string())
}

/// The current Unix time.
pub fn now() -> (seconds: i64)
    ensures
        0 <= seconds <= LAST_SECOND,
        is_moment(seconds),
{
    utc_seconds()
}

/// The wall clock as it stands in front of a log line.
pub fn log_stamp() -> (r: String)
    ensures
        is_clock_face(r@),
{
    local_time("%H:%M:%S")
}

/// The time of day that a table shows.
pub open spec fn shown_time(seconds: int) -> Seq<char> {
    if on_calendar(seconds) {
        utc_clock_face(seconds)
    } else {
        Seq::empty()
    }
}

/// The time column of a table: the UTC time of day, or nothing for a time off
/// the calendar.
pub fn time_column(seconds: i64) -> (r: String)
    ensures
        r@ == shown_time(seconds as int),
{
    match utc_time(seconds, "%H:%M:%S") {
        Some(s) => s,
        None => String::new(),
    }
}

/// A stored time belongs to the day of `now`. A time off the calendar counts as
/// being of that day.
pub fn same_day(stored: i64, now: i64) -> (r: bool)
    requires
        on_calendar(now as int),
    ensures
        r == (on_calendar(stored as int) ==> day_of(stored as int) == day_of(now as int)),
{
    match (calendar_day(stored), calendar_day(now)) {
        (Some(a), Some(b)) => a == b,
        _ => true,
    }
}

/// `std::time::Instant`, carried without being looked into.
#[verifier::external_type_specification]
#[verifier::external_body]
pub struct ExInstant(std::time::Instant);

/// `Instant::now`.
#[verifier::external_body]
pub(crate) fn instant_now() -> (now: std::time::Instant) {
    std::time::Instant::now()
}

/// Milliseconds from one instant to another, as `Instant` counts them.
pub uninterp spec fn millis_apart(start: std::time::Instant, end: std::time::Instant) -> u128;

/// `Instant::saturating_duration_since` in whole milliseconds, which depends on
/// the two instants alone.
#[verifier::external_body]
fn millis_from(start: &std::time::Instant, end: std::time::Instant) -> (ms: u128)
    ensures
        ms == millis_apart(*start, end),
{
    end.saturating_duration_since(*start).as_millis()
}

/// `std::time::SystemTime`, carried without being looked into.
#[verifier::external_type_specification]
#[verifier::external_body]
pub struct ExSystemTime(std::time::SystemTime);

/// `SystemTime::now`.
#[verifier::external_body]
fn system_now() -> (now: std::time::SystemTime) {
    std::time::SystemTime::now()
}

/// Milliseconds from the Unix epoch to a system time; none where the time lies
/// before the epoch.
pub uninterp spec fn epoch_reading(time: std::time::SystemTime) -> Option<u128>;

/// `SystemTime::duration_since` the Unix epoch in whole milliseconds, which
/// depends on the time alone; nothing where the time lies before the epoch.
#[verifier::external_body]
fn millis_since_epoch(time: std::time::SystemTime) -> (ms: Option<u128>)
    ensures
        ms == epoch_reading(time),
{
    time.duration_since(std::time::UNIX_EPOCH).ok().map(|d| d.as_millis())
}

/// A count of milliseconds cut to 64 bits.
pub open spec fn cut_millis(ms: u128) -> u64 {
    (ms % 0x1_0000_0000_0000_0000) as u64
}

/// A count of milliseconds cut to 64 bits.
pub fn low_millis(ms: u128) -> (r: u64)
    ensures
        r == cut_millis(ms),
{
    (ms % 0x1_0000_0000_0000_0000) as u64
}

/// The milliseconds that a reading of the clock stands for: the reading cut to
/// 64 bits, or zero where the clock stands before the Unix epoch.
pub open spec fn epoch_millis(reading: Option<u128>) -> u64 {
    match reading {
        Some(ms) => cut_millis(ms),
        None => 0,
    }
}

/// The milliseconds that a reading of the clock stands for.
pub fn unix_ms_of(reading: Option<u128>) -> (ms: u64)
    ensures
        ms == epoch_millis(reading),
{
    match reading {
        Some(ms) => low_millis(ms),
        None => 0,
    }
}

/// Milliseconds from an instant to the instant of the call.
pub fn elapsed_millis(start: &std::time::Instant) -> (ms: u128)
    ensures
        exists|now: std::time::Instant| ms == #[trigger] millis_apart(*start, now),
{
    millis_from(start, instant_now())
}

/// Milliseconds from the Unix epoch to the system time at the call, or zero where
/// the clock stands before the epoch.
pub fn unix_ms() -> (ms: u64)
    ensures
        exists|time: std::time::SystemTime| ms == epoch_millis(#[trigger] epoch_reading(time)),
{
    unix_ms_of(millis_since_epoch(system_now()))
}

/// A clock face is eight characters long.
pub proof fn clock_face_has_eight_characters(s: Seq<char>)
    requires
        is_clock_face(s),
    ensures
        s.len() == 8,
{
}

/// Two times are of one UTC day exactly if no midnight lies between them.
pub proof fn one_day_means_no_midnight_between(a: int, b: int)
    requires
        a <= b,
    ensures
        day_of(a) == day_of(b) <==> forall|k: int| !(a < #[trigger] (k * 86_400) <= b),
{
    if day_of(a) != day_of(b) {
        assert(a < day_of(b) * 86_400 <= b);
    }
}

/// A clock face shows the time since midnight: its hours, minutes and seconds, two
/// digits each with colons between them, make up the seconds of the day.
pub proof fn a_clock_face_tells_the_time_of_day(seconds: int)
    ensures
        ({
            let f = utc_clock_face(seconds);
            let hours = (f[0] as int - 48) * 10 + (f[1] as int - 48);
            let minutes = (f[3] as int - 48) * 10 + (f[4] as int - 48);
            let rest = (f[6] as int - 48) * 10 + (f[7] as int - 48);
            &&& f.len() == 8 && f[2] == ':' && f[5] == ':'
            &&& 0 <= hours < 24 && 0 <= minutes < 60 && 0 <= rest < 60
            &&& hours * 3_600 + minutes * 60 + rest == seconds % 86_400
        }),
{
    let s = (seconds % 86_400) as nat;
    let f = utc_clock_face(seconds);
    let h = s / 3600;
    let m = s / 60 % 60;
    assert(f[0] == digit(h / 10) && f[1] == digit(h % 10));
    assert(f[3] == digit(m / 10) && f[4] == digit(m % 10));
    assert(f[6] == digit(s % 60 / 10) && f[7] == digit(s % 60 % 10));
    assert(digit(h / 10) as int == 48 + h / 10 && digit(h % 10) as int == 48 + h % 10);
    assert(digit(m / 10) as int == 48 + m / 10 && digit(m % 10) as int == 48 + m % 10);
    assert(digit(s % 60 / 10) as int == 48 + s % 60 / 10 && digit(s % 60 % 10) as int == 48 + s % 60 % 10);
}

/// A count of milliseconds is kept as it is while it fits, and a clock that stands
/// before the epoch reads zero.
pub proof fn readings_are_kept_while_they_fit(ms: u128)
    ensures
        ms <= u64::MAX ==> cut_millis(ms) == ms,
        cut_millis(ms) as int == ms as int % 0x1_0000_0000_0000_0000,
        epoch_millis(Some(ms)) == cut_millis(ms),
        epoch_millis(None) == 0,
{
}

/// A day has 86400 seconds, counted from the epoch in both directions.
pub proof fn days_are_counted_from_the_epoch(seconds: int)
    ensures
        day_of(seconds) * 86_400 <= seconds < (day_of(seconds) + 1) * 86_400,
        on_calendar(seconds) <==> -8_334_601_228_800 <= seconds <= 8_210_266_876_799,
{
}

/// Every time on the calendar is shown by its time of day, and no other time is shown.
pub proof fn times_on_the_calendar_are_shown(seconds: int)
    ensures
        -8_334_601_228_800 <= seconds <= 8_210_266_876_799 ==> shown_time(seconds) == utc_clock_face(seconds),
        seconds < -8_334_601_228_800 || seconds > 8_210_266_876_799 ==> shown_time(seconds).len() == 0,
{
}

} // verus!
