//! Hour keys derived from the wall clock, and the time left until the next
//! top of the hour.

use vstd::prelude::*;
use vstd::string::*;

verus! {

/// Hours in a day; hour keys run from `00` to one below this.
pub const HOURS_PER_DAY: u32 = 24;

/// Nanoseconds in one second.
pub const NANOS_PER_SECOND: u64 = 1_000_000_000;

/// Nanoseconds in one hour.
pub const NANOS_PER_HOUR: u64 = 3_600_000_000_000;

/// How far past the top of the hour the rollover timer aims, so that it never
/// fires while the local clock still shows the old hour.
pub const ROLLOVER_MARGIN_NANOS: u64 = 500_000_000;

/// The decimal digit character for `d`, for `d` from 0 to 9.
pub open spec fn digit_char(d: int) -> char {
    if d == 0 {
        '0'
    } else if d == 1 {
        '1'
    } else if d == 2 {
        '2'
    } else if d == 3 {
        '3'
    } else if d == 4 {
        '4'
    } else if d == 5 {
        '5'
    } else if d == 6 {
        '6'
    } else if d == 7 {
        '7'
    } else if d == 8 {
        '8'
    } else {
        '9'
    }
}

/// The value of a decimal digit character, or `None` for any other character.
pub open spec fn digit_value(c: char) -> Option<int> {
    if c == '0' {
        Some(0)
    } else if c == '1' {
        Some(1)
    } else if c == '2' {
        Some(2)
    } else if c == '3' {
        Some(3)
    } else if c == '4' {
        Some(4)
    } else if c == '5' {
        Some(5)
    } else if c == '6' {
        Some(6)
    } else if c == '7' {
        Some(7)
    } else if c == '8' {
        Some(8)
    } else if c == '9' {
        Some(9)
    } else {
        None
    }
}

/// The two-character, zero-padded text of an hour.
pub open spec fn hour_key_text(hour: int) -> Seq<char> {
    seq![digit_char(hour / 10), digit_char(hour % 10)]
}

/// The hour after `hour`, wrapping from the last hour of the day to the first.
pub open spec fn following_hour(hour: int) -> int {
    (hour + 1) % 24
}

/// A decimal digit as a one-character string.
pub fn digit_str(d: u32) -> (s: &'static str)
    requires
        d < 10,
    ensures
        s@ == seq![digit_char(d as int)],
{
    proof {
        reveal_strlit("0");
        reveal_strlit("1");
        reveal_strlit("2");
        reveal_strlit("3");
        reveal_strlit("4");
        reveal_strlit("5");
        reveal_strlit("6");
        reveal_strlit("7");
        reveal_strlit("8");
        reveal_strlit("9");
    }
    let s = if d == 0 {
        "0"
    } else if d == 1 {
        "1"
    } else if d == 2 {
        "2"
    } else if d == 3 {
        "3"
    } else if d == 4 {
        "4"
    } else if d == 5 {
        "5"
    } else if d == 6 {
        "6"
    } else if d == 7 {
        "7"
    } else if d == 8 {
        "8"
    } else {
        "9"
    };
    assert(s@ =~= seq![digit_char(d as int)]);
    s
}

/// Reads a decimal digit character.
pub fn digit_of(c: char) -> (d: Option<u32>)
    ensures
        match d {
            Some(v) => digit_value(c) == Some(v as int) && v < 10,
            None => digit_value(c) is None,
        },
{
    if c == '0' {
        Some(0)
    } else if c == '1' {
        Some(1)
    } else if c == '2' {
        Some(2)
    } else if c == '3' {
        Some(3)
    } else if c == '4' {
        Some(4)
    } else if c == '5' {
        Some(5)
    } else if c == '6' {
        Some(6)
    } else if c == '7' {
        Some(7)
    } else if c == '8' {
        Some(8)
    } else if c == '9' {
        Some(9)
    } else {
        None
    }
}

/// The hour after `hour`, wrapping from 23 to 0.
pub fn next_hour_of(hour: u32) -> (next: u32)
    ensures
        next == following_hour(hour as int),
        next < HOURS_PER_DAY,
{
    ((hour as u64 + 1) % 24) as u32
}

/// The two-digit, zero-padded key of an hour of the day.
pub fn hour_key(hour: u32) -> (key: String)
    requires
        hour < HOURS_PER_DAY,
    ensures
        key@ == hour_key_text(hour as int),
{
    let mut key = String::from_str(digit_str(hour / 10));
    key.append(digit_str(hour % 10));
    assert(key@ =~= hour_key_text(hour as int));
    key
}

/// The two-digit, zero-padded key of the hour that follows `hour`.
pub fn next_hour_key(hour: u32) -> (key: String)
    requires
        hour < HOURS_PER_DAY,
    ensures
        key@ == hour_key_text(following_hour(hour as int)),
{
    hour_key(next_hour_of(hour))
}

/// The time-of-day part of a wall-clock reading.
///
/// `nanosecond` may reach into a second billion while a leap second is in
/// progress; `second` then stays at 59.
#[derive(Debug, PartialEq, Eq, Structural, Clone, Copy)]
pub struct WallClock {
    pub hour: u32,
    pub minute: u32,
    pub second: u32,
    pub nanosecond: u32,
}

impl WallClock {
    /// Every field lies in the range a clock can show.
    pub open spec fn wf(self) -> bool {
        &&& self.hour < 24
        &&& self.minute < 60
        &&& self.second < 60
        &&& self.nanosecond < 2_000_000_000
    }

    /// Nanoseconds from this reading to the rollover instant: the next top of
    /// the hour plus the safety margin. A leap second in progress counts as
    /// an extra second of the hour, so only its fraction is elapsed time.
    pub open spec fn rollover_delay(self) -> int {
        NANOS_PER_HOUR + ROLLOVER_MARGIN_NANOS - (self.minute * 60 + self.second)
            * NANOS_PER_SECOND - self.nanosecond % 1_000_000_000
    }

    /// Checks that every field lies in the range a clock can show.
    pub fn is_valid(&self) -> (ok: bool)
        ensures
            ok == self.wf(),
    {
        self.hour < 24 && self.minute < 60 && self.second < 60 && self.nanosecond < 2_000_000_000
    }

    /// Nanoseconds to wait before the next rollover.
    ///
    /// The result is re-derived from the reading alone, so arming the timer
    /// afresh after each firing cannot accumulate drift. It is always longer
    /// than the safety margin and never longer than an hour plus the margin.
    pub fn until_rollover(&self) -> (nanos: u64)
        requires
            self.wf(),
        ensures
            nanos == self.rollover_delay(),
            ROLLOVER_MARGIN_NANOS < nanos <= NANOS_PER_HOUR + ROLLOVER_MARGIN_NANOS,
    {
        let whole: u64 = (self.minute as u64 * 60 + self.second as u64) * NANOS_PER_SECOND;
        let fraction: u64 = (self.nanosecond % 1_000_000_000) as u64;
        NANOS_PER_HOUR + ROLLOVER_MARGIN_NANOS - whole - fraction
    }
}

/// Reads the local wall clock.
///
/// Calls `chrono::Local::now` and copies the four `chrono::Timelike` fields
/// of the reading. The contract claims only the ranges that `Timelike`
/// documents: hour 0 to 23, minute and second 0 to 59, and a nanosecond count
/// below two billion. Which reading comes back is up to the clock. `now`
/// itself gives up on a system clock set before 1970.
#[verifier::external_body]
fn local_clock() -> (now: WallClock)
    ensures
        now.wf(),
{
    let t = chrono::Local::now();
    WallClock {
        hour: chrono::Timelike::hour(&t),
        minute: chrono::Timelike::minute(&t),
        second: chrono::Timelike::second(&t),
        nanosecond: chrono::Timelike::nanosecond(&t),
    }
}

/// Derives hour keys from the local wall clock.
///
/// Nothing is remembered between calls: every key is computed from a fresh
/// reading, which is what lets a caller detect that an hour boundary passed.
pub struct TimeToKey;

impl TimeToKey {
    /// A fresh reading of the local wall clock.
    pub fn now(&self) -> (clock: WallClock)
        ensures
            clock.wf(),
    {
        local_clock()
    }

    /// The key of the hour the local clock shows now.
    pub fn current_hour(&self) -> (key: String)
        ensures
            exists|h: int| 0 <= h < 24 && key@ == hour_key_text(h),
    {
        let clock = local_clock();
        let key = hour_key(clock.hour);
        assert(key@ == hour_key_text(clock.hour as int));
        key
    }

    /// The key of the hour after the one the local clock shows now.
    pub fn next_hour(&self) -> (key: String)
        ensures
            exists|h: int| 0 <= h < 24 && key@ == hour_key_text(h),
    {
        let clock = local_clock();
        let next = next_hour_of(clock.hour);
        let key = hour_key(next);
        assert(key@ == hour_key_text(next as int));
        key
    }
}

} // verus!
