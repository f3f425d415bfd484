//! Calendar time stamps, and the text that stands for one in a file name.

use crate::path::has_no_slash;
use crate::text::{
    digit_char, lemma_digit_char_injective, lemma_digit_is_plain, lemma_padded_decimal_injective,
    lemma_padded_decimal_shape, lemma_three_digits, lemma_two_digits, padded_decimal,
};
use vstd::prelude::*;

verus! {

/// The pattern that renders a time stamp for a log file's name: year, month,
/// day, hour, minute, second and millisecond, joined by hyphens.
pub const STAMP_PATTERN: &'static str = "%Y-%m-%d-%H-%M-%S-%3f";

/// The earliest year a time stamp can carry.
pub const MIN_YEAR: i32 = -262143;

/// The latest year a time stamp can carry.
pub const MAX_YEAR: i32 = 262142;

/// A local calendar date and time of day, to the nanosecond.
#[derive(Clone, Copy, Debug, PartialEq, Eq, Structural)]
pub struct Timestamp {
    pub year: i32,
    pub month: u32,
    pub day: u32,
    pub hour: u32,
    pub minute: u32,
    pub second: u32,
    pub nanosecond: u32,
}

/// Whether `year` is a leap year of the proleptic Gregorian calendar.
pub open spec fn is_leap_year(year: int) -> bool {
    year % 4 == 0 && (year % 100 != 0 || year % 400 == 0)
}

/// The number of days of `month` in `year`, for a month from 1 to 12; 31
/// for a number that names no month.
pub open spec fn days_in_month(year: int, month: int) -> int {
    if month == 2 {
        if is_leap_year(year) {
            29
        } else {
            28
        }
    } else if month == 4 || month == 6 || month == 9 || month == 11 {
        30
    } else {
        31
    }
}

/// How a year is written: four digits from 0 to 9999, and a sign in front of
/// at least four digits outside that range.
pub open spec fn year_text(year: int) -> Seq<char> {
    if 0 <= year <= 9999 {
        padded_decimal(year as nat, 4)
    } else if year < 0 {
        seq!['-'] + padded_decimal((-year) as nat, 4)
    } else {
        seq!['+'] + padded_decimal(year as nat, 4)
    }
}

impl Timestamp {
    /// A time stamp is valid when it names a day that the calendar has and a
    /// time of day on the clock.
    pub open spec fn is_valid(&self) -> bool {
        &&& MIN_YEAR <= self.year <= MAX_YEAR
        &&& 1 <= self.month <= 12
        &&& 1 <= self.day <= days_in_month(self.year as int, self.month as int)
        &&& self.hour < 24
        &&& self.minute < 60
        &&& self.second < 60
        &&& self.nanosecond < 1_000_000_000
    }

    /// The millisecond within the second, from 0 to 999.
    pub open spec fn millisecond(&self) -> nat {
        (self.nanosecond / 1_000_000) as nat
    }

    /// The text of a time stamp in a log file's name, for example
    /// `2024-03-16-17-50-40-843`.
    pub open spec fn text(&self) -> Seq<char> {
        year_text(self.year as int) + seq!['-'] + padded_decimal(self.month as nat, 2) + seq!['-']
            + padded_decimal(self.day as nat, 2) + seq!['-'] + padded_decimal(self.hour as nat, 2)
            + seq!['-'] + padded_decimal(self.minute as nat, 2) + seq!['-'] + padded_decimal(
            self.second as nat,
            2,
        ) + seq!['-'] + padded_decimal(self.millisecond(), 3)
    }

    /// Whether two time stamps fall into the same millisecond of the same
    /// second.
    pub open spec fn same_millisecond(&self, other: &Timestamp) -> bool {
        &&& self.year == other.year
        &&& self.month == other.month
        &&& self.day == other.day
        &&& self.hour == other.hour
        &&& self.minute == other.minute
        &&& self.second == other.second
        &&& self.millisecond() == other.millisecond()
    }

    /// What follows the year in the text of a valid time stamp: nineteen
    /// characters, a hyphen before each group of digits.
    pub open spec fn clock_text(&self) -> Seq<char> {
        seq![
            '-',
            digit_char((self.month / 10) as int),
            digit_char((self.month % 10) as int),
            '-',
            digit_char((self.day / 10) as int),
            digit_char((self.day % 10) as int),
            '-',
            digit_char((self.hour / 10) as int),
            digit_char((self.hour % 10) as int),
            '-',
            digit_char((self.minute / 10) as int),
            digit_char((self.minute % 10) as int),
            '-',
            digit_char((self.second / 10) as int),
            digit_char((self.second % 10) as int),
            '-',
            digit_char((self.millisecond() / 100) as int),
            digit_char((self.millisecond() / 10 % 10) as int),
            digit_char((self.millisecond() % 10) as int),
        ]
    }

    /// Builds a time stamp from its parts; `None` unless they form a valid
    /// one.
    pub fn new(
        year: i32,
        month: u32,
        day: u32,
        hour: u32,
        minute: u32,
        second: u32,
        nanosecond: u32,
    ) -> (made: Option<Timestamp>)
        ensures
            ({
                let stamp = (Timestamp { year, month, day, hour, minute, second, nanosecond });
                made == if stamp.is_valid() {
                    Some(stamp)
                } else {
                    None
                }
            }),
    {
        if year < MIN_YEAR || year > MAX_YEAR || month < 1 || month > 12 || day < 1 {
            return None;
        }
        if day > month_length(year, month) {
            return None;
        }
        if hour >= 24 || minute >= 60 || second >= 60 || nanosecond >= 1_000_000_000 {
            return None;
        }
        Some(Timestamp { year, month, day, hour, minute, second, nanosecond })
    }

    /// The current local date and time.
    pub fn now() -> (stamp: Timestamp)
        ensures
            stamp.is_valid(),
    {
        local_now()
    }

    /// Renders the time stamp for a log file's name.
    pub fn render(&self) -> (rendered: String)
        requires
            self.is_valid(),
        ensures
            rendered@ == self.text(),
    {
        format_stamp(self, STAMP_PATTERN)
    }
}

/// The number of days of `month` in `year`.
pub fn month_length(year: i32, month: u32) -> (days: u32)
    ensures
        days == days_in_month(year as int, month as int),
{
    if month == 2 {
        // The shift is a multiple of 400, so it keeps every remainder that
        // the leap year rule looks at, and it leaves no year negative.
        let shifted: u64 = (year as i64 + 2_147_484_000) as u64;
        if shifted % 4 == 0 && (shifted % 100 != 0 || shifted % 400 == 0) {
            29
        } else {
            28
        }
    } else if month == 4 || month == 6 || month == 9 || month == 11 {
        30
    } else {
        31
    }
}

/// Reads the clock through `chrono::Local::now` and takes the local date and
/// time of day apart with chrono's own accessors.  Claimed of it: the parts
/// form a valid time stamp, since chrono hands out only dates of its calendar
/// and never reports a leap second for the system clock.  The call does not
/// return when the system clock stands before 1970 or beyond chrono's last
/// year.
#[verifier::external_body]
fn local_now() -> (stamp: Timestamp)
    ensures
        stamp.is_valid(),
{
    let now = chrono::Local::now().naive_local();
    Timestamp {
        year: chrono::Datelike::year(&now),
        month: chrono::Datelike::month(&now),
        day: chrono::Datelike::day(&now),
        hour: chrono::Timelike::hour(&now),
        minute: chrono::Timelike::minute(&now),
        second: chrono::Timelike::second(&now),
        nanosecond: chrono::Timelike::nanosecond(&now),
    }
}

/// Renders a time stamp with `chrono::NaiveDateTime::format`.  Claimed of it,
/// for the pattern of log file names: `%Y` gives the year as `year_text`
/// writes it, `%m`, `%d`, `%H`, `%M` and `%S` give two digits each, `%3f`
/// gives the three digits of the millisecond, and the hyphens of the pattern
/// are copied.
#[verifier::external_body]
fn format_stamp(stamp: &Timestamp, pattern: &str) -> (rendered: String)
    requires
        stamp.is_valid(),
        pattern@ == STAMP_PATTERN@,
    ensures
        rendered@ == stamp.text(),
{
    chrono::NaiveDate::from_ymd_opt(stamp.year, stamp.month, stamp.day)
        .unwrap()
        .and_hms_nano_opt(stamp.hour, stamp.minute, stamp.second, stamp.nanosecond)
        .unwrap()
        .format(pattern)
        .to_string()
}

/// Different years are written differently.
pub proof fn lemma_year_text_injective(a: int, b: int)
    requires
        year_text(a) == year_text(b),
    ensures
        a == b,
{
    let size_a: nat = if a < 0 {
        (-a) as nat
    } else {
        a as nat
    };
    let size_b: nat = if b < 0 {
        (-b) as nat
    } else {
        b as nat
    };
    let digits_a = padded_decimal(size_a, 4);
    let digits_b = padded_decimal(size_b, 4);
    lemma_padded_decimal_shape(size_a, 4);
    lemma_padded_decimal_shape(size_b, 4);
    lemma_digit_is_plain(digits_a[0]);
    lemma_digit_is_plain(digits_b[0]);
    let plain_a = 0 <= a <= 9999;
    let plain_b = 0 <= b <= 9999;
    assert(year_text(a)[0] == year_text(b)[0]);
    if plain_a {
        assert(year_text(a)[0] == digits_a[0]);
    } else if a < 0 {
        assert(year_text(a)[0] == '-');
        assert(year_text(a).skip(1) =~= digits_a);
    } else {
        assert(year_text(a)[0] == '+');
        assert(year_text(a).skip(1) =~= digits_a);
    }
    if plain_b {
        assert(year_text(b)[0] == digits_b[0]);
    } else if b < 0 {
        assert(year_text(b)[0] == '-');
        assert(year_text(b).skip(1) =~= digits_b);
    } else {
        assert(year_text(b)[0] == '+');
        assert(year_text(b).skip(1) =~= digits_b);
    }
    assert(digits_a == digits_b);
    lemma_padded_decimal_injective(size_a, size_b, 4);
}

/// The text of a valid time stamp is the year, written as `year_text` has
/// it, and the nineteen characters of `clock_text`.
pub proof fn lemma_text_parts(stamp: Timestamp)
    requires
        stamp.is_valid(),
    ensures
        stamp.text() == year_text(stamp.year as int) + stamp.clock_text(),
        stamp.clock_text().len() == 19,
        year_text(stamp.year as int).len() >= 4,
{
    lemma_two_digits(stamp.month as nat);
    lemma_two_digits(stamp.day as nat);
    lemma_two_digits(stamp.hour as nat);
    lemma_two_digits(stamp.minute as nat);
    lemma_two_digits(stamp.second as nat);
    lemma_three_digits(stamp.millisecond());
    lemma_padded_decimal_shape(
        if stamp.year < 0 {
            (-stamp.year) as nat
        } else {
            stamp.year as nat
        },
        4,
    );
    assert(stamp.text() =~= year_text(stamp.year as int) + stamp.clock_text());
}

/// No `/` stands among the nineteen characters behind the year.
proof fn lemma_clock_text_has_no_slash(stamp: Timestamp)
    ensures
        has_no_slash(stamp.clock_text()),
{
    let clock = stamp.clock_text();
    assert forall|i: int| 0 <= i < clock.len() implies clock[i] != '/' by {
        if i < 5 {
            assert(clock[0] != '/' && clock[1] != '/' && clock[2] != '/' && clock[3] != '/'
                && clock[4] != '/');
        } else if i < 10 {
            assert(clock[5] != '/' && clock[6] != '/' && clock[7] != '/' && clock[8] != '/'
                && clock[9] != '/');
        } else if i < 15 {
            assert(clock[10] != '/' && clock[11] != '/' && clock[12] != '/' && clock[13] != '/'
                && clock[14] != '/');
        } else {
            assert(clock[15] != '/' && clock[16] != '/' && clock[17] != '/' && clock[18] != '/');
        }
    }
}

/// No `/` stands in a year as it is written.
proof fn lemma_year_text_has_no_slash(year: int)
    ensures
        has_no_slash(year_text(year)),
{
    let size: nat = if year < 0 {
        (-year) as nat
    } else {
        year as nat
    };
    let digits = padded_decimal(size, 4);
    let written = year_text(year);
    lemma_padded_decimal_shape(size, 4);
    assert forall|i: int| 0 <= i < written.len() implies written[i] != '/' by {
        if 0 <= year <= 9999 {
            lemma_digit_is_plain(digits[i]);
        } else if i > 0 {
            assert(written[i] == digits[i - 1]);
            lemma_digit_is_plain(digits[i - 1]);
        }
    }
}

/// The text of a valid time stamp holds no `/`.
pub proof fn lemma_text_has_no_slash(stamp: Timestamp)
    requires
        stamp.is_valid(),
    ensures
        has_no_slash(stamp.text()),
{
    lemma_text_parts(stamp);
    lemma_clock_text_has_no_slash(stamp);
    lemma_year_text_has_no_slash(stamp.year as int);
    let written = year_text(stamp.year as int);
    let clock = stamp.clock_text();
    assert forall|i: int| 0 <= i < stamp.text().len() implies stamp.text()[i] != '/' by {
        if i < written.len() {
            assert(stamp.text()[i] == written[i]);
        } else {
            assert(stamp.text()[i] == clock[i - written.len()]);
        }
    }
}

/// Two valid time stamps are written alike exactly when they fall into the
/// same millisecond.
pub proof fn lemma_text_injective(a: Timestamp, b: Timestamp)
    requires
        a.is_valid(),
        b.is_valid(),
    ensures
        a.text() == b.text() <==> a.same_millisecond(&b),
{
    lemma_text_parts(a);
    lemma_text_parts(b);
    if a.text() == b.text() {
        let year_a = year_text(a.year as int);
        let year_b = year_text(b.year as int);
        let clock_a = a.clock_text();
        let clock_b = b.clock_text();
        let length = year_a.len() as int;
        assert(a.text().len() == year_a.len() + clock_a.len());
        assert(b.text().len() == year_b.len() + clock_b.len());
        assert(year_a.len() == year_b.len());
        assert(year_a =~= a.text().subrange(0, length));
        assert(year_b =~= b.text().subrange(0, length));
        lemma_year_text_injective(a.year as int, b.year as int);
        assert(clock_a =~= a.text().subrange(length, length + 19));
        assert(clock_b =~= b.text().subrange(length, length + 19));
        assert(clock_a == clock_b);
        lemma_same_clock_text(a, b);
    }
}

/// Time stamps with the same `clock_text` agree from the month down to the
/// millisecond.
proof fn lemma_same_clock_text(a: Timestamp, b: Timestamp)
    requires
        a.is_valid(),
        b.is_valid(),
        a.clock_text() == b.clock_text(),
    ensures
        a.month == b.month,
        a.day == b.day,
        a.hour == b.hour,
        a.minute == b.minute,
        a.second == b.second,
        a.millisecond() == b.millisecond(),
{
    let x = a.clock_text();
    let y = b.clock_text();
    assert(x[1] == y[1] && x[2] == y[2]);
    lemma_digit_char_injective((a.month / 10) as int, (b.month / 10) as int);
    lemma_digit_char_injective((a.month % 10) as int, (b.month % 10) as int);
    assert(x[4] == y[4] && x[5] == y[5]);
    lemma_digit_char_injective((a.day / 10) as int, (b.day / 10) as int);
    lemma_digit_char_injective((a.day % 10) as int, (b.day % 10) as int);
    assert(x[7] == y[7] && x[8] == y[8]);
    lemma_digit_char_injective((a.hour / 10) as int, (b.hour / 10) as int);
    lemma_digit_char_injective((a.hour % 10) as int, (b.hour % 10) as int);
    assert(x[10] == y[10] && x[11] == y[11]);
    lemma_digit_char_injective((a.minute / 10) as int, (b.minute / 10) as int);
    lemma_digit_char_injective((a.minute % 10) as int, (b.minute % 10) as int);
    assert(x[13] == y[13] && x[14] == y[14]);
    lemma_digit_char_injective((a.second / 10) as int, (b.second / 10) as int);
    lemma_digit_char_injective((a.second % 10) as int, (b.second % 10) as int);
    assert(x[16] == y[16] && x[17] == y[17] && x[18] == y[18]);
    let ms_a = a.millisecond();
    let ms_b = b.millisecond();
    lemma_digit_char_injective((ms_a / 100) as int, (ms_b / 100) as int);
    lemma_digit_char_injective((ms_a / 10 % 10) as int, (ms_b / 10 % 10) as int);
    lemma_digit_char_injective((ms_a % 10) as int, (ms_b % 10) as int);
}

} // verus!
