//! Date serials of the 1900 date system and calendar moments.
//!
//! A serial counts days from the epoch, 30 December 1899; this module holds
//! moments as whole milliseconds from that epoch, so that every conversion
//! is exact. A serial is given twice: as the number itself, on which the
//! correction for the leap day of 1900 is decided, and scaled to whole
//! milliseconds. Calendar arithmetic, parsing and formatting are chrono's.

use vstd::prelude::*;
use vstd::string::*;
use chrono::{DateTime, NaiveDate, NaiveDateTime, NaiveTime, TimeDelta};
use crate::number::Number64;
use crate::text::{chars_of, contains_char, has_char, lowercase, lowered, string_of};

verus! {

/// Milliseconds in one day.
pub const MS_PER_DAY: i64 = 86_400_000;

/// The epoch of the 1900 date system, midnight of 30 December 1899, in
/// milliseconds from the Unix epoch.
pub const EPOCH_UNIX_MS: i64 = -2_209_161_600_000;

/// Serial 60 in milliseconds: the first serial that is read without
/// correction, where the 1900 date system puts a 29 February that never was.
pub const LEAP_BUG_END_MS: i64 = 5_184_000_000;

/// The bit pattern of the number 60.
pub const SIXTY_BITS: u64 = 0x404E_0000_0000_0000;

/// The sign bit of a number.
pub const SIGN_BIT: u64 = 0x8000_0000_0000_0000;

/// The bit pattern of negative infinity, the largest pattern of a negative
/// number.
pub const NEGATIVE_INFINITY_BITS: u64 = 0xFFF0_0000_0000_0000;

/// The earliest moment of chrono's calendar, midnight of 1 January −262143,
/// in milliseconds from the Unix epoch.
pub const MIN_UNIX_MS: i64 = -8_334_601_228_800_000;

/// The last millisecond of chrono's calendar, on 31 December 262142, in
/// milliseconds from the Unix epoch.
pub const MAX_UNIX_MS: i64 = 8_210_266_876_799_999;

/// The earliest moment of the calendar in milliseconds from the epoch of
/// the 1900 date system.
pub const MIN_MOMENT_MS: i64 = -8_332_392_067_200_000;

/// The last millisecond of the calendar in milliseconds from the epoch of
/// the 1900 date system.
pub const MAX_MOMENT_MS: i64 = 8_212_476_038_399_999;

/// Whether chrono's calendar holds the moment `unix_ms` milliseconds from
/// the Unix epoch.
pub open spec fn chrono_holds(unix_ms: int) -> bool {
    MIN_UNIX_MS <= unix_ms <= MAX_UNIX_MS
}

/// Whether the calendar holds the moment `ms` milliseconds from the epoch
/// of the 1900 date system.
pub open spec fn in_calendar(ms: int) -> bool {
    MIN_MOMENT_MS <= ms <= MAX_MOMENT_MS
}

/// The text that chrono writes, under the format `fmt`, for the moment
/// `unix_ms` milliseconds from the Unix epoch.
pub uninterp spec fn moment_text(unix_ms: int, fmt: Seq<char>) -> Seq<char>;

/// What chrono's date parser makes of `s` under the format `fmt`: midnight
/// of the date it reads, in milliseconds from the moment that lies `epoch`
/// milliseconds from the Unix epoch, or `None` where it rejects `s`.
pub uninterp spec fn date_offset(s: Seq<char>, fmt: Seq<char>, epoch: int) -> Option<int>;

/// What chrono's date-time parser makes of `s` under the format `fmt`: the
/// moment it reads, in whole milliseconds from the moment that lies `epoch`
/// milliseconds from the Unix epoch, cut towards that moment, or `None`
/// where it rejects `s`.
pub uninterp spec fn datetime_offset(s: Seq<char>, fmt: Seq<char>, epoch: int) -> Option<int>;

/// The format of a day.
pub open spec fn date_format() -> Seq<char> {
    "%Y-%m-%d"@
}

/// The format of a moment to the second.
pub open spec fn datetime_format() -> Seq<char> {
    "%Y-%m-%dT%H:%M:%S"@
}

/// The format of a moment with a fraction of a second.
pub open spec fn fractional_format() -> Seq<char> {
    "%Y-%m-%dT%H:%M:%S%.f"@
}

/// The `YYYY-MM-DD` text of the day that holds the moment `ms` milliseconds
/// from the epoch of the 1900 date system.
pub open spec fn date_text(ms: int) -> Seq<char> {
    moment_text(EPOCH_UNIX_MS + ms, date_format())
}

/// The `YYYY-MM-DDTHH:MM:SS` text of the moment `ms` milliseconds from the
/// epoch of the 1900 date system.
pub open spec fn datetime_text(ms: int) -> Seq<char> {
    moment_text(EPOCH_UNIX_MS + ms, datetime_format())
}

/// Calls `NaiveDateTime::format` with `fmt` on the moment that
/// `NaiveDateTime::checked_add_signed` finds `ms` milliseconds after the
/// moment `epoch_unix_ms`. Trusted: the addition succeeds exactly where the
/// sum lies in chrono's calendar, and the text is a function of the sum and
/// the format. The two formats admitted are ones that chrono can write.
#[verifier::external_body]
fn format_moment(epoch_unix_ms: i64, ms: i64, fmt: &str) -> (r: Option<String>)
    requires
        chrono_holds(epoch_unix_ms as int),
        fmt@ == date_format() || fmt@ == datetime_format(),
    ensures
        r is Some <==> chrono_holds(epoch_unix_ms + ms),
        r is Some ==> r.unwrap()@ == moment_text(epoch_unix_ms + ms, fmt@),
{
    let epoch = DateTime::from_timestamp_millis(epoch_unix_ms)?.naive_utc();
    let at = epoch.checked_add_signed(TimeDelta::try_milliseconds(ms)?)?;
    Some(at.format(fmt).to_string())
}

/// Calls `NaiveDate::parse_from_str` with `fmt` and measures midnight of the
/// date from the moment `epoch_unix_ms` with
/// `NaiveDateTime::signed_duration_since`. Trusted: the result is a function
/// of the text, the format and the epoch; a date that chrono accepts lies in
/// its calendar, and its midnight is a whole number of days from the Unix
/// epoch. Only the date format is admitted.
#[verifier::external_body]
fn parse_date_offset(epoch_unix_ms: i64, s: &str, fmt: &str) -> (r: Option<i64>)
    requires
        chrono_holds(epoch_unix_ms as int),
        fmt@ == date_format(),
    ensures
        r is Some <==> date_offset(s@, fmt@, epoch_unix_ms as int) is Some,
        r is Some ==> r.unwrap() == date_offset(s@, fmt@, epoch_unix_ms as int).unwrap(),
        r is Some ==> chrono_holds(epoch_unix_ms + r.unwrap()) && (epoch_unix_ms + r.unwrap()) % (
        MS_PER_DAY as int) == 0,
{
    let epoch = DateTime::from_timestamp_millis(epoch_unix_ms)?.naive_utc();
    let date = NaiveDate::parse_from_str(s, fmt).ok()?;
    Some(date.and_time(NaiveTime::MIN).signed_duration_since(epoch).num_milliseconds())
}

/// Calls `NaiveDateTime::parse_from_str` with `fmt` and measures the moment
/// from the moment `epoch_unix_ms` with
/// `NaiveDateTime::signed_duration_since` and `TimeDelta::num_milliseconds`.
/// Trusted: the result is a function of the text, the format and the
/// epoch. Only the two date-time formats are admitted.
#[verifier::external_body]
fn parse_datetime_offset(epoch_unix_ms: i64, s: &str, fmt: &str) -> (r: Option<i64>)
    requires
        chrono_holds(epoch_unix_ms as int),
        fmt@ == datetime_format() || fmt@ == fractional_format(),
    ensures
        r is Some <==> datetime_offset(s@, fmt@, epoch_unix_ms as int) is Some,
        r is Some ==> r.unwrap() == datetime_offset(s@, fmt@, epoch_unix_ms as int).unwrap(),
{
    let epoch = DateTime::from_timestamp_millis(epoch_unix_ms)?.naive_utc();
    let at = NaiveDateTime::parse_from_str(s, fmt).ok()?;
    Some(at.signed_duration_since(epoch).num_milliseconds())
}

/// A moment of chrono's calendar, without a time zone, to the millisecond.
#[derive(Clone, Copy, Debug, PartialEq, Eq)]
pub struct Moment {
    millis: i64,
}

impl View for Moment {
    type V = int;

    /// The milliseconds from midnight of 30 December 1899 to the moment.
    closed spec fn view(&self) -> int {
        self.millis as int
    }
}

impl Moment {
    #[verifier::type_invariant]
    spec fn in_range(self) -> bool {
        in_calendar(self.millis as int)
    }

    /// The moment `millis` milliseconds from the epoch, if the calendar
    /// holds it.
    pub fn from_millis(millis: i64) -> (r: Option<Moment>)
        ensures
            r is Some <==> in_calendar(millis as int),
            r is Some ==> r.unwrap()@ == millis,
    {
        if MIN_MOMENT_MS <= millis && millis <= MAX_MOMENT_MS {
            Some(Moment { millis })
        } else {
            None
        }
    }

    /// The milliseconds from the epoch to the moment.
    pub fn millis(&self) -> (ms: i64)
        ensures
            ms == self@,
            in_calendar(ms as int),
    {
        proof {
            use_type_invariant(self);
        }
        self.millis
    }

    /// Whether the time of day is exactly midnight.
    pub fn is_midnight(&self) -> (r: bool)
        ensures
            r == at_midnight(self@),
    {
        proof {
            use_type_invariant(self);
        }
        if self.millis >= 0 {
            self.millis % MS_PER_DAY == 0
        } else {
            let up: i64 = -self.millis;
            assert((up as int % 86_400_000 == 0) == (self.millis as int % 86_400_000 == 0)) by {
                let a = self.millis as int;
                if a % 86_400_000 == 0 {
                    assert((-a) % 86_400_000 == 0) by (nonlinear_arith)
                        requires
                            a % 86_400_000 == 0,
                    ;
                }
                if (-a) % 86_400_000 == 0 {
                    assert(a % 86_400_000 == 0) by (nonlinear_arith)
                        requires
                            (-a) % 86_400_000 == 0,
                    ;
                }
            }
            up % MS_PER_DAY == 0
        }
    }

    /// The day of the moment as `YYYY-MM-DD`.
    pub fn date_string(&self) -> (out: String)
        ensures
            out@ == date_text(self@),
    {
        proof {
            use_type_invariant(self);
        }
        format_moment(EPOCH_UNIX_MS, self.millis, "%Y-%m-%d").unwrap()
    }

    /// The moment as `YYYY-MM-DDTHH:MM:SS`.
    pub fn datetime_string(&self) -> (out: String)
        ensures
            out@ == datetime_text(self@),
    {
        proof {
            use_type_invariant(self);
        }
        format_moment(EPOCH_UNIX_MS, self.millis, "%Y-%m-%dT%H:%M:%S").unwrap()
    }
}

/// Whether a moment, in milliseconds from the epoch, falls exactly on
/// midnight.
pub open spec fn at_midnight(ms: int) -> bool {
    ms % (MS_PER_DAY as int) == 0
}

/// Whether a number is less than 60, decided on its bit pattern: with the
/// sign bit clear, patterns are ordered as the numbers are; with it set, the
/// number is negative, or a zero, unless the pattern lies beyond that of
/// negative infinity, where it is a NaN. A NaN is below nothing.
pub open spec fn is_below_sixty(value: Number64) -> bool {
    if value.bits < SIGN_BIT {
        value.bits < SIXTY_BITS
    } else {
        value.bits <= NEGATIVE_INFINITY_BITS
    }
}

/// The serial that is really meant by a stored one: a serial below 60 is
/// moved forward by one day, which undoes the leap day that the 1900 date
/// system wrongly counts. The serial is given twice: as the number itself,
/// which decides, and scaled to whole milliseconds.
pub open spec fn corrected_serial(value: Number64, serial_ms: int) -> int {
    if is_below_sixty(value) {
        serial_ms + MS_PER_DAY
    } else {
        serial_ms
    }
}

/// The moment that a serial stands for, in milliseconds from the epoch,
/// where the calendar holds it.
pub open spec fn moment_of_serial(value: Number64, serial_ms: int) -> Option<int> {
    if in_calendar(corrected_serial(value, serial_ms)) {
        Some(corrected_serial(value, serial_ms))
    } else {
        None
    }
}

/// Whether a number is less than 60.
pub fn below_sixty(value: Number64) -> (r: bool)
    ensures
        r == is_below_sixty(value),
{
    if value.bits < SIGN_BIT {
        value.bits < SIXTY_BITS
    } else {
        value.bits <= NEGATIVE_INFINITY_BITS
    }
}

/// Converts a serial to its calendar moment. The serial is given as the
/// number itself and scaled to whole milliseconds. `None` where the moment
/// lies outside the calendar.
pub fn excel_serial_to_naive_datetime(value: Number64, serial_ms: i64) -> (r: Option<Moment>)
    ensures
        r is Some <==> moment_of_serial(value, serial_ms as int) is Some,
        r is Some ==> r.unwrap()@ == moment_of_serial(value, serial_ms as int).unwrap(),
{
    if below_sixty(value) {
        if serial_ms > MAX_MOMENT_MS {
            None
        } else {
            Moment::from_millis(serial_ms + MS_PER_DAY)
        }
    } else {
        Moment::from_millis(serial_ms)
    }
}

/// Converts a calendar moment to its serial in whole milliseconds: the
/// distance from the epoch. Always `Some`.
pub fn naive_datetime_to_excel_serial(dt: Moment) -> (r: Option<i64>)
    ensures
        r is Some,
        r.unwrap() == dt@,
{
    Some(dt.millis())
}

/// The offset that an ISO date text stands for: midnight of the day that
/// chrono reads, in milliseconds from the epoch of the 1900 date system.
pub open spec fn iso_date_offset(s: Seq<char>) -> Option<int> {
    date_offset(s, date_format(), EPOCH_UNIX_MS as int)
}

/// Parses `YYYY-MM-DD` into midnight of that day.
pub fn parse_iso_date(s: &str) -> (r: Option<Moment>)
    ensures
        r is Some <==> iso_date_offset(s@) is Some,
        r is Some ==> r.unwrap()@ == iso_date_offset(s@).unwrap(),
        r is Some ==> in_calendar(r.unwrap()@) && at_midnight(r.unwrap()@),
{
    match parse_date_offset(EPOCH_UNIX_MS, s, "%Y-%m-%d") {
        Some(ms) => Some(Moment { millis: ms }),
        None => None,
    }
}

/// `s` without the run of `Z` at its end.
pub open spec fn without_zulu(s: Seq<char>) -> Seq<char>
    decreases s.len(),
{
    if s.len() > 0 && s.last() == 'Z' {
        without_zulu(s.drop_last())
    } else {
        s
    }
}

/// The offset that an ISO date-time text stands for: after any trailing `Z`
/// is dropped, what the format with whole seconds reads, else what the
/// format with fractional seconds reads; `None` where both reject the text
/// or the moment lies outside the calendar.
pub open spec fn iso_datetime_offset(s: Seq<char>) -> Option<int> {
    let raw = without_zulu(s);
    let whole = datetime_offset(raw, datetime_format(), EPOCH_UNIX_MS as int);
    let frac = datetime_offset(raw, fractional_format(), EPOCH_UNIX_MS as int);
    let found = if whole is Some {
        whole
    } else {
        frac
    };
    if found is Some && in_calendar(found.unwrap()) {
        found
    } else {
        None
    }
}

/// Parses `YYYY-MM-DDTHH:MM:SS`, with or without a fraction of a second and
/// a trailing `Z`.
pub fn parse_iso_datetime(s: &str) -> (r: Option<Moment>)
    ensures
        r is Some <==> iso_datetime_offset(s@) is Some,
        r is Some ==> r.unwrap()@ == iso_datetime_offset(s@).unwrap(),
{
    let chars = chars_of(s);
    let mut end: usize = chars.len();
    assert(chars@.subrange(0, end as int) =~= chars@);
    while end > 0 && chars[end - 1] == 'Z'
        invariant
            end <= chars.len(),
            without_zulu(chars@) == without_zulu(chars@.subrange(0, end as int)),
        decreases end,
    {
        assert(chars@.subrange(0, end as int).drop_last() =~= chars@.subrange(0, end - 1));
        end = end - 1;
    }
    let mut kept: Vec<char> = Vec::new();
    let mut i: usize = 0;
    while i < end
        invariant
            i <= end <= chars.len(),
            kept@ == chars@.subrange(0, i as int),
        decreases end - i,
    {
        kept.push(chars[i]);
        assert(kept@ =~= chars@.subrange(0, i + 1));
        i = i + 1;
    }
    proof {
        if end > 0 {
            assert(chars@.subrange(0, end as int).last() == chars@[end - 1]);
        }
    }
    let raw = string_of(&kept);
    let found = match parse_datetime_offset(EPOCH_UNIX_MS, raw.as_str(), "%Y-%m-%dT%H:%M:%S") {
        Some(ms) => Some(ms),
        None => parse_datetime_offset(EPOCH_UNIX_MS, raw.as_str(), "%Y-%m-%dT%H:%M:%S%.f"),
    };
    match found {
        Some(ms) => Moment::from_millis(ms),
        None => None,
    }
}

/// A number-format code is date-shaped when, with case ignored, it holds
/// both a year token `y` and a day token `d`.
pub open spec fn is_date_shaped(code: Seq<char>) -> bool {
    has_char(lowered(code), 'y') && has_char(lowered(code), 'd')
}

/// Whether a number-format code is date-shaped.
pub fn looks_like_date_format(code: &str) -> (r: bool)
    ensures
        r == is_date_shaped(code@),
{
    let chars = chars_of(code);
    let lc = lowercase(&chars);
    contains_char(&lc, 'y') && contains_char(&lc, 'd')
}

/// Reading back the serial of a moment gives the moment again, wherever
/// the serial, as a number, is not below 60. Where it is, the reading moves
/// the moment one day forward. The serial of a moment is its distance from
/// the epoch; as a number it is below 60 exactly before day 60.
pub proof fn lemma_moment_round_trip(value: Number64, moment_ms: int)
    requires
        in_calendar(moment_ms),
    ensures
        !is_below_sixty(value) ==> moment_of_serial(value, moment_ms) == Some(moment_ms),
        is_below_sixty(value) && moment_ms < LEAP_BUG_END_MS ==> moment_of_serial(
            value,
            moment_ms,
        ) == Some(moment_ms + MS_PER_DAY),
{
}

/// The serial of the moment that a serial stands for is that serial again,
/// for every serial from 60 on that the calendar holds.
pub proof fn lemma_serial_round_trip(value: Number64, serial_ms: int)
    requires
        !is_below_sixty(value),
        in_calendar(serial_ms),
    ensures
        moment_of_serial(value, serial_ms) == Some(serial_ms),
{
}

} // verus!
