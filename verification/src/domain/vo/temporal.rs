//! Moments and days, on the calendar of the `chrono` crate.
//!
//! A moment is held as the seconds since the start of 1970 in UTC and the
//! nanoseconds into that second; a day as its year, month and day of the
//! month. What the calendar says of a moment is asked of `chrono`; how a
//! moment or a day is written is decided here.

use vstd::prelude::*;
use chrono::{Datelike, Timelike};

verus! {

/// Whether `chrono` has a moment for these seconds and nanoseconds: whether
/// `chrono::DateTime::from_timestamp` gives one.
pub uninterp spec fn is_timestamp(secs: i64, nanos: u32) -> bool;

/// What the calendar says of a moment: year, month, day, hour, minute and
/// second, as `chrono` counts them in UTC.
pub uninterp spec fn civil_time(secs: i64, nanos: u32) -> (i32, u32, u32, u32, u32, u32);

/// The fields of a date and a time of day are in their ranges.
pub open spec fn in_civil_ranges(fields: (i32, u32, u32, u32, u32, u32)) -> bool {
    &&& 1 <= fields.1 <= 12
    &&& 1 <= fields.2 <= 31
    &&& fields.3 <= 23
    &&& fields.4 <= 59
    &&& fields.5 <= 59
}

/// Reads the clock with `chrono::Utc::now` and gives the seconds since the
/// start of 1970 (`timestamp`) and the nanoseconds into the second
/// (`timestamp_subsec_nanos`). `Utc::now` takes both from the time since
/// the epoch and stops the program where the clock stands before it, so
/// the seconds are not negative and the nanoseconds are below a second;
/// `chrono` has a moment for them, the one it just made.
#[verifier::external_body]
fn utc_now() -> (now: (i64, u32))
    ensures
        0 <= now.0,
        now.1 < 1_000_000_000,
        is_timestamp(now.0, now.1),
{
    let now = chrono::Utc::now();
    (now.timestamp(), now.timestamp_subsec_nanos())
}

/// Asks `chrono::DateTime::from_timestamp` whether it has a moment for
/// these seconds and nanoseconds.
#[verifier::external_body]
fn has_timestamp(secs: i64, nanos: u32) -> (b: bool)
    ensures
        b == is_timestamp(secs, nanos),
{
    chrono::DateTime::from_timestamp(secs, nanos).is_some()
}

/// Asks `chrono` for the date and the time of day of a moment in UTC:
/// `year`, `month`, `day`, `hour`, `minute` and `second` of the
/// `DateTime` that `from_timestamp` gives. The contract names the answer
/// `civil_time` and claims the ranges that `chrono` documents for the
/// fields.
#[verifier::external_body]
fn civil_fields(secs: i64, nanos: u32) -> (fields: (i32, u32, u32, u32, u32, u32))
    requires
        is_timestamp(secs, nanos),
    ensures
        fields == civil_time(secs, nanos),
        in_civil_ranges(fields),
{
    let t = chrono::DateTime::from_timestamp(secs, nanos).unwrap();
    (t.year(), t.month(), t.day(), t.hour(), t.minute(), t.second())
}

/// The ten digits.
pub open spec fn digits() -> Seq<char> {
    seq!['0', '1', '2', '3', '4', '5', '6', '7', '8', '9']
}

/// A number in decimal, without leading zeros.
pub open spec fn decimal(n: nat) -> Seq<char>
    decreases n,
{
    if n < 10 {
        seq![digits()[n as int]]
    } else {
        decimal(n / 10).push(digits()[(n % 10) as int])
    }
}

/// A number below a hundred in two digits.
pub open spec fn two_digits(n: nat) -> Seq<char> {
    seq![digits()[(n / 10) as int], digits()[(n % 10) as int]]
}

/// A number in decimal with at least four digits, zeros in front.
pub open spec fn four_digits(n: nat) -> Seq<char> {
    if n < 10 {
        seq!['0', '0', '0'] + decimal(n)
    } else if n < 100 {
        seq!['0', '0'] + decimal(n)
    } else if n < 1000 {
        seq!['0'] + decimal(n)
    } else {
        decimal(n)
    }
}

/// A year as it is written: four digits from 0 to 9999; outside of that a
/// sign and at least four digits.
pub open spec fn year_text(year: int) -> Seq<char> {
    if 0 <= year <= 9999 {
        four_digits(year as nat)
    } else if year < 0 {
        seq!['-'] + four_digits((-year) as nat)
    } else {
        seq!['+'] + four_digits(year as nat)
    }
}

/// A day as it is written: year, month and day with hyphens between them.
pub open spec fn date_text(year: int, month: nat, day: nat) -> Seq<char> {
    year_text(year) + seq!['-'] + two_digits(month) + seq!['-'] + two_digits(day)
}

/// A time of day as it is written: hour, minute and second with colons
/// between them.
pub open spec fn time_text(hour: nat, minute: nat, second: nat) -> Seq<char> {
    two_digits(hour) + seq![':'] + two_digits(minute) + seq![':'] + two_digits(second)
}

/// The second as it is written for a moment: the second of the minute, or
/// 60 within a leap second, which is held as a nanosecond count of a
/// second or more.
pub open spec fn written_second(second: u32, nanos: u32) -> nat {
    (second + nanos / 1_000_000_000) as nat
}

/// A moment as it is written: the day, a space and the time of day.
pub open spec fn moment_text(secs: i64, nanos: u32) -> Seq<char> {
    let f = civil_time(secs, nanos);
    date_text(f.0 as int, f.1 as nat, f.2 as nat) + seq![' '] + time_text(
        f.3 as nat,
        f.4 as nat,
        written_second(f.5, nanos),
    )
}

/// The char of a digit.
fn digit_char(d: u32) -> (c: char)
    requires
        d < 10,
    ensures
        c == digits()[d as int],
{
    if d == 0 {
        '0'
    } else if d == 1 {
        '1'
    } else if d == 2 {
        '2'
    } else if d == 3 {
        '3'
    } else if d == 4 {
        '4'
    } else if d == 5 {
        '5'
    } else if d == 6 {
        '6'
    } else if d == 7 {
        '7'
    } else if d == 8 {
        '8'
    } else {
        '9'
    }
}

/// Appends `n` in decimal.
fn push_decimal(out: &mut Vec<char>, n: u32)
    ensures
        final(out)@ == old(out)@ + decimal(n as nat),
    decreases n,
{
    if n >= 10 {
        push_decimal(out, n / 10);
    }
    out.push(digit_char(n % 10));
}

/// Appends `n` in two digits.
fn push_two_digits(out: &mut Vec<char>, n: u32)
    requires
        n < 100,
    ensures
        final(out)@ == old(out)@ + two_digits(n as nat),
{
    out.push(digit_char(n / 10));
    out.push(digit_char(n % 10));
}

/// Appends `n` with at least four digits.
fn push_four_digits(out: &mut Vec<char>, n: u32)
    ensures
        final(out)@ == old(out)@ + four_digits(n as nat),
{
    if n < 1000 {
        out.push('0');
    }
    if n < 100 {
        out.push('0');
    }
    if n < 10 {
        out.push('0');
    }
    push_decimal(out, n);
}

/// Appends a year as it is written.
fn push_year(out: &mut Vec<char>, year: i32)
    ensures
        final(out)@ == old(out)@ + year_text(year as int),
{
    if 0 <= year && year <= 9999 {
        push_four_digits(out, year as u32);
    } else if year < 0 {
        out.push('-');
        let wide: i64 = year as i64;
        push_four_digits(out, (0 - wide) as u32);
    } else {
        out.push('+');
        push_four_digits(out, year as u32);
    }
}

/// Appends a day as it is written.
fn push_date(out: &mut Vec<char>, year: i32, month: u32, day: u32)
    requires
        month < 100,
        day < 100,
    ensures
        final(out)@ == old(out)@ + date_text(year as int, month as nat, day as nat),
{
    push_year(out, year);
    out.push('-');
    push_two_digits(out, month);
    out.push('-');
    push_two_digits(out, day);
}

/// A moment in time.
#[derive(Debug)]
pub struct DateTime {
    secs: i64,
    nanos: u32,
}

impl View for DateTime {
    type V = (i64, u32);

    closed spec fn view(&self) -> (i64, u32) {
        (self.secs, self.nanos)
    }
}

impl Clone for DateTime {
    fn clone(&self) -> (copy: Self)
        ensures
            copy@ == self@,
    {
        proof {
            use_type_invariant(self);
        }
        DateTime { secs: self.secs, nanos: self.nanos }
    }
}

impl Default for DateTime {
    /// The moment of the call.
    fn default() -> (now: Self)
        ensures
            now@.0 >= 0,
    {
        Self::new()
    }
}

impl DateTime {
    #[verifier::type_invariant]
    spec fn is_on_the_calendar(&self) -> bool {
        is_timestamp(self.secs, self.nanos)
    }

    /// The moment of the call. It never lies before 1970.
    pub fn new() -> (now: Self)
        ensures
            now@.0 >= 0,
            now@.1 < 1_000_000_000,
            is_timestamp(now@.0, now@.1),
    {
        let (secs, nanos) = utc_now();
        DateTime { secs, nanos }
    }

    /// The moment of a timestamp that the calendar has.
    pub fn new_from_date_time(secs: i64, nanos: u32) -> (moment: Self)
        requires
            is_timestamp(secs, nanos),
        ensures
            moment@ == (secs, nanos),
    {
        DateTime { secs, nanos }
    }

    /// The moment of a timestamp, where the calendar has one for it.
    pub fn from_timestamp(secs: i64, nanos: u32) -> (r: Option<Self>)
        ensures
            match r {
                Some(moment) => is_timestamp(secs, nanos) && moment@ == (secs, nanos),
                None => !is_timestamp(secs, nanos),
            },
    {
        if has_timestamp(secs, nanos) {
            Some(Self::new_from_date_time(secs, nanos))
        } else {
            None
        }
    }

    /// The moment as it is written: `YYYY-MM-DD HH:MM:SS`.
    pub fn value(&self) -> (text: String)
        ensures
            text@ == moment_text(self@.0, self@.1),
            text@.len() >= 19,
    {
        proof {
            use_type_invariant(self);
        }
        let (year, month, day, hour, minute, second) = civil_fields(self.secs, self.nanos);
        let mut out: Vec<char> = Vec::new();
        push_date(&mut out, year, month, day);
        out.push(' ');
        push_two_digits(&mut out, hour);
        out.push(':');
        push_two_digits(&mut out, minute);
        out.push(':');
        push_two_digits(&mut out, second + self.nanos / 1_000_000_000);
        proof {
            lemma_year_has_four_chars(year as int);
        }
        crate::text::string_of(out.as_slice())
    }

    /// The timestamp of the moment: seconds since the start of 1970 in UTC
    /// and nanoseconds into the second. The calendar has it.
    pub fn to_chono_date_time(&self) -> (stamp: (i64, u32))
        ensures
            stamp == self@,
            is_timestamp(stamp.0, stamp.1),
    {
        proof {
            use_type_invariant(self);
        }
        (self.secs, self.nanos)
    }
}

/// A number in decimal has at least one digit.
pub proof fn lemma_decimal_is_not_empty(n: nat)
    ensures
        decimal(n).len() >= 1,
    decreases n,
{
    if n >= 10 {
        lemma_decimal_is_not_empty(n / 10);
    }
}

/// A number of four digits or more is written with four chars or more.
pub proof fn lemma_decimal_of_thousands(n: nat)
    requires
        n >= 1000,
    ensures
        decimal(n).len() >= 4,
{
    lemma_decimal_is_not_empty(n / 1000);
    assert(decimal(n / 100) == decimal(n / 1000).push(digits()[((n / 100) % 10) as int])) by {
        assert((n / 100) / 10 == n / 1000);
    }
    assert(decimal(n / 10) == decimal(n / 100).push(digits()[((n / 10) % 10) as int])) by {
        assert((n / 10) / 10 == n / 100);
    }
}

/// A year is written with four chars or more.
pub proof fn lemma_year_has_four_chars(year: int)
    ensures
        year_text(year).len() >= 4,
{
    let n: nat = if year < 0 {
        (-year) as nat
    } else {
        year as nat
    };
    if n >= 1000 {
        lemma_decimal_of_thousands(n);
    } else {
        lemma_decimal_is_not_empty(n);
        if n >= 10 {
            lemma_decimal_is_not_empty(n / 10);
        }
        if n >= 100 {
            lemma_decimal_is_not_empty(n / 100);
            assert((n / 10) / 10 == n / 100);
        }
    }
}

/// A day of the calendar.
#[derive(Debug, Clone, Copy, PartialEq, Eq, Structural)]
pub struct Date {
    year: i32,
    month: u32,
    day: u32,
}

impl View for Date {
    type V = (i32, u32, u32);

    closed spec fn view(&self) -> (i32, u32, u32) {
        (self.year, self.month, self.day)
    }
}

impl Date {
    #[verifier::type_invariant]
    spec fn is_a_day(&self) -> bool {
        1 <= self.month <= 12 && 1 <= self.day <= 31
    }

    /// The day on which a moment falls in UTC.
    pub fn of(moment: &DateTime) -> (day: Self)
        ensures
            day@.0 == civil_time(moment@.0, moment@.1).0,
            day@.1 == civil_time(moment@.0, moment@.1).1,
            day@.2 == civil_time(moment@.0, moment@.1).2,
            1 <= day@.1 <= 12,
            1 <= day@.2 <= 31,
    {
        let (secs, nanos) = moment.to_chono_date_time();
        let (year, month, day, _, _, _) = civil_fields(secs, nanos);
        Date { year, month, day }
    }

    /// The day of the call, in UTC.
    pub fn new() -> (today: Self)
        ensures
            1 <= today@.1 <= 12,
            1 <= today@.2 <= 31,
    {
        Self::of(&DateTime::new())
    }

    /// The day as it is written: `YYYY-MM-DD`.
    pub fn value(&self) -> (text: String)
        ensures
            text@ == date_text(self@.0 as int, self@.1 as nat, self@.2 as nat),
            text@.len() >= 10,
    {
        proof {
            use_type_invariant(self);
            lemma_year_has_four_chars(self.year as int);
        }
        let mut out: Vec<char> = Vec::new();
        push_date(&mut out, self.year, self.month, self.day);
        crate::text::string_of(out.as_slice())
    }
}

} // verus!
