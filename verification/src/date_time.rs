//! The two timestamps of Windows structures: the packed date and time of
//! DOS, and the count of ticks since 1601.
use crate::reader_error::ReaderError;
use crate::text::digit;
use crate::text::digits_value;
use crate::text::opt_text;
use crate::text::two_digits;
use chrono::DateTime;
use chrono::NaiveDate;
use chrono::Utc;
use vstd::prelude::*;

verus! {

/// True for a year with a 29th of February.
pub open spec fn is_leap_year(year: int) -> bool {
    year % 4 == 0 && (year % 100 != 0 || year % 400 == 0)
}

/// The number of days of a month.
pub open spec fn days_in_month(year: int, month: int) -> int {
    if month == 2 {
        if is_leap_year(year) {
            29
        } else {
            28
        }
    } else if month == 4 || month == 6 || month == 9 || month == 11 {
        30
    } else {
        31
    }
}

/// True for a day that the calendar has.
pub open spec fn is_calendar_date(year: int, month: int, day: int) -> bool {
    1 <= month <= 12 && 1 <= day <= days_in_month(year, month)
}

/// True for a time of day on a clock without leap seconds.
pub open spec fn is_clock_time(hour: int, minutes: int, seconds: int) -> bool {
    0 <= hour < 24 && 0 <= minutes < 60 && 0 <= seconds < 60
}

/// A year as it stands in a timestamp: four digits, or a plus sign and
/// five digits from the year 10000 on.
pub open spec fn year_text(year: int) -> Seq<char>
    recommends
        0 <= year < 100_000,
{
    if year <= 9999 {
        two_digits(year / 100) + two_digits(year % 100)
    } else {
        seq!['+', digit(year / 10_000)] + two_digits(year / 100 % 100) + two_digits(year % 100)
    }
}

/// A date and time of day in the form `2022-03-25T10:12:10Z`.
pub open spec fn utc_text(
    year: int,
    month: int,
    day: int,
    hour: int,
    minutes: int,
    seconds: int,
) -> Seq<char> {
    year_text(year) + seq!['-'] + two_digits(month) + seq!['-'] + two_digits(day) + seq!['T']
        + two_digits(hour) + seq![':'] + two_digits(minutes) + seq![':'] + two_digits(seconds)
        + seq!['Z']
}

/// `chrono::NaiveDate::from_ymd_opt`, `NaiveDate::and_hms_opt` and
/// `DateTime::format` with `%Y-%m-%dT%H:%M:%SZ`: `None` where the calendar
/// has no such day or the clock no such time, else the timestamp written
/// with a year of four digits (a sign and five from 10000 on) and two
/// digits for each other field.
#[verifier::external_body]
fn format_utc(year: u16, month: u8, day: u8, hour: u8, minutes: u8, seconds: u8) -> (r: Option<String>)
    ensures
        r is Some <==> DosDateTime::new_spec(year, month, day, hour, minutes, seconds).is_valid(),
        r is Some ==> r->Some_0@ == DosDateTime::new_spec(year, month, day, hour, minutes, seconds).text(),
{
    let date = NaiveDate::from_ymd_opt(i32::from(year), u32::from(month), u32::from(day))?;
    let at = date.and_hms_opt(u32::from(hour), u32::from(minutes), u32::from(seconds))?;
    Some(at.and_utc().format("%Y-%m-%dT%H:%M:%SZ").to_string())
}

/// A date and time as DOS packs them into 32 bits.
#[derive(Clone, Copy, Debug, PartialEq, Eq, Structural)]
pub struct DosDateTime {
    pub year: u16,
    pub month: u8,
    pub day: u8,
    pub hour: u8,
    pub minutes: u8,
    pub seconds: u8,
}

impl DosDateTime {
    /// The first moment that the format can hold.
    pub open spec fn epoch() -> DosDateTime {
        DosDateTime { year: 1980, month: 1, day: 1, hour: 0, minutes: 0, seconds: 0 }
    }

    /// The fields that the 32 bits of `num` hold: the day in the lowest five
    /// bits, then four of the month, seven of the years since 1980, five of
    /// the seconds halved, six of the minutes and five of the hour. Seconds
    /// above 59 are taken as 59.
    pub open spec fn spec_from_u32(num: u32) -> DosDateTime {
        let halved = (num as int / 0x1_0000) % 32;
        DosDateTime {
            year: (1980 + (num as int / 0x200) % 128) as u16,
            month: ((num as int / 0x20) % 16) as u8,
            day: (num as int % 32) as u8,
            hour: ((num as int / 0x800_0000) % 32) as u8,
            minutes: ((num as int / 0x20_0000) % 64) as u8,
            seconds: if 2 * halved > 59 {
                59u8
            } else {
                (2 * halved) as u8
            },
        }
    }

    /// The value with the given fields.
    pub open spec fn new_spec(
        year: u16,
        month: u8,
        day: u8,
        hour: u8,
        minutes: u8,
        seconds: u8,
    ) -> DosDateTime {
        DosDateTime { year, month, day, hour, minutes, seconds }
    }

    /// The calendar has the day and the clock has the time.
    pub open spec fn is_valid(self) -> bool {
        is_calendar_date(self.year as int, self.month as int, self.day as int) && is_clock_time(
            self.hour as int,
            self.minutes as int,
            self.seconds as int,
        )
    }

    /// The timestamp as text; that of the epoch where the fields name no
    /// moment.
    pub open spec fn text(self) -> Seq<char> {
        if self.is_valid() {
            utc_text(
                self.year as int,
                self.month as int,
                self.day as int,
                self.hour as int,
                self.minutes as int,
                self.seconds as int,
            )
        } else {
            utc_text(1980, 1, 1, 0, 0, 0)
        }
    }

    /// Creates a `DosDateTime` from its fields.
    pub fn new(year: u16, month: u8, day: u8, hour: u8, minutes: u8, seconds: u8) -> (d:
        DosDateTime)
        ensures
            d == DosDateTime::new_spec(year, month, day, hour, minutes, seconds),
    {
        DosDateTime { year, month, day, hour, minutes, seconds }
    }

    /// Unpacks a `DosDateTime` from 32 bits. Every value unpacks.
    pub fn from_u32(num: u32) -> (r: Result<DosDateTime, ReaderError>)
        ensures
            r == Ok::<DosDateTime, ReaderError>(DosDateTime::spec_from_u32(num)),
    {
        let day = (num & 31) as u8;
        let month = ((num >> 5) & 15) as u8;
        let year_bits = ((num >> 9) & 127) as u16;
        let halved = ((num >> 16) & 31) as u8;
        let minutes = ((num >> 21) & 63) as u8;
        let hour = ((num >> 27) & 31) as u8;
        proof {
            assert(num & 31 == num % 32) by (bit_vector);
            assert((num >> 5) & 15 == (num / 0x20) % 16) by (bit_vector);
            assert((num >> 9) & 127 == (num / 0x200) % 128) by (bit_vector);
            assert((num >> 16) & 31 == (num / 0x1_0000) % 32) by (bit_vector);
            assert((num >> 21) & 63 == (num / 0x20_0000) % 64) by (bit_vector);
            assert((num >> 27) & 31 == (num / 0x800_0000) % 32) by (bit_vector);
        }
        let year: u16 = year_bits + 1980;
        let mut seconds: u8 = halved * 2;
        if seconds > 59 {
            seconds = 59;
        }
        Ok(DosDateTime { day, month, year, hour, minutes, seconds })
    }

    /// The timestamp as text, such as `2022-03-25T10:12:10Z`.
    pub fn to_string(&self) -> (text: String)
        ensures
            text@ == self.text(),
    {
        match format_utc(self.year, self.month, self.day, self.hour, self.minutes, self.seconds) {
            Some(text) => text,
            None => match format_utc(1980, 1, 1, 0, 0, 0) {
                Some(text) => text,
                None => String::new(),
            },
        }
    }
}

impl Default for DosDateTime {
    fn default() -> (d: DosDateTime)
        ensures
            d == DosDateTime::epoch(),
    {
        DosDateTime::new(1980, 1, 1, 0, 0, 0)
    }
}

/// The number that the digits of `text` from `from` up to `to` stand for.
pub open spec fn number_at(text: Seq<char>, from: int, to: int) -> int {
    digits_value(text.subrange(from, to))
}

/// Two digits stand for the number that they were made of.
pub proof fn lemma_two_digits_value(n: int)
    requires
        0 <= n < 100,
    ensures
        two_digits(n).len() == 2,
        digits_value(two_digits(n)) == n,
{
    let t = two_digits(n);
    assert(t.drop_last() =~= seq![digit(n / 10)]);
    assert(t.drop_last().drop_last() =~= Seq::<char>::empty());
    reveal_with_fuel(digits_value, 3);
}

/// The four digits of a year stand for the year.
pub proof fn lemma_year_text_value(year: int)
    requires
        0 <= year <= 9999,
    ensures
        year_text(year).len() == 4,
        digits_value(year_text(year)) == year,
{
    let t = year_text(year);
    let t3 = t.drop_last();
    let t2 = t3.drop_last();
    let t1 = t2.drop_last();
    assert(t =~= seq![
        digit(year / 100 / 10),
        digit(year / 100 % 10),
        digit(year % 100 / 10),
        digit(year % 100 % 10),
    ]);
    assert(t1.drop_last() =~= Seq::<char>::empty());
    reveal_with_fuel(digits_value, 5);
}

/// A packed date and time whose fields name a moment is written as a
/// text of twenty characters from which the same fields are read: the
/// year that the bits hold, counted from 1980, the month, the day, the
/// hour, the minutes, and twice the seconds that the bits hold, or 59
/// where that is more.
pub proof fn lemma_packed_date_time_round_trips(num: u32)
    requires
        DosDateTime::spec_from_u32(num).is_valid(),
    ensures
        ({
            let text = DosDateTime::spec_from_u32(num).text();
            &&& text.len() == 20
            &&& text[4] == '-' && text[7] == '-' && text[10] == 'T' && text[13] == ':' && text[16]
                == ':' && text[19] == 'Z'
            &&& number_at(text, 0, 4) == 1980 + (num as int / 0x200) % 128
            &&& number_at(text, 5, 7) == (num as int / 0x20) % 16
            &&& number_at(text, 8, 10) == num as int % 32
            &&& number_at(text, 11, 13) == (num as int / 0x800_0000) % 32
            &&& number_at(text, 14, 16) == (num as int / 0x20_0000) % 64
            &&& number_at(text, 17, 19) == if 2 * ((num as int / 0x1_0000) % 32) > 59 {
                59
            } else {
                2 * ((num as int / 0x1_0000) % 32)
            }
        }),
{
    let d = DosDateTime::spec_from_u32(num);
    lemma_date_time_text_holds_fields(d);
}

/// The text of a date and time whose fields name a moment, in a year of
/// four digits, holds each field where the form has it.
pub proof fn lemma_date_time_text_holds_fields(d: DosDateTime)
    requires
        d.is_valid(),
        d.year <= 9999,
    ensures
        d.text().len() == 20,
        d.text()[4] == '-' && d.text()[7] == '-' && d.text()[10] == 'T' && d.text()[13] == ':'
            && d.text()[16] == ':' && d.text()[19] == 'Z',
        number_at(d.text(), 0, 4) == d.year,
        number_at(d.text(), 5, 7) == d.month,
        number_at(d.text(), 8, 10) == d.day,
        number_at(d.text(), 11, 13) == d.hour,
        number_at(d.text(), 14, 16) == d.minutes,
        number_at(d.text(), 17, 19) == d.seconds,
{
    let text = d.text();
    lemma_year_text_value(d.year as int);
    lemma_two_digits_value(d.month as int);
    lemma_two_digits_value(d.day as int);
    lemma_two_digits_value(d.hour as int);
    lemma_two_digits_value(d.minutes as int);
    lemma_two_digits_value(d.seconds as int);
    assert(text.subrange(0, 4) =~= year_text(d.year as int));
    assert(text.subrange(5, 7) =~= two_digits(d.month as int));
    assert(text.subrange(8, 10) =~= two_digits(d.day as int));
    assert(text.subrange(11, 13) =~= two_digits(d.hour as int));
    assert(text.subrange(14, 16) =~= two_digits(d.minutes as int));
    assert(text.subrange(17, 19) =~= two_digits(d.seconds as int));
}

/// The microseconds from the first day of 1601 to the first day of 1970.
pub const MICROSECONDS_TO_1970: u64 = 11_644_473_600_000_000;

/// What `chrono::DateTime::from_timestamp_micros` and `DateTime::format`
/// with `%Y-%m-%dT%H:%M:%SZ` give for a count of microseconds since 1970.
pub uninterp spec fn utc_text_at(unix_microseconds: i64) -> Option<Seq<char>>;

/// `chrono::DateTime::from_timestamp_micros`, then `DateTime::format` with
/// `%Y-%m-%dT%H:%M:%SZ`: the timestamp of a moment given in microseconds
/// since 1970. There is one for every moment of the years 1601 to 60000,
/// which lie well inside the 262,000 years that the type holds.
#[verifier::external_body]
fn format_unix_microseconds(unix_microseconds: i64) -> (r: Option<String>)
    ensures
        opt_text(r) == utc_text_at(unix_microseconds),
        -11_644_473_600_000_000 <= unix_microseconds <= 1_833_029_933_770_955_161 ==> r is Some,
{
    let at = DateTime::from_timestamp_micros(unix_microseconds)?;
    Some(at.format("%Y-%m-%dT%H:%M:%SZ").to_string())
}

/// A moment as the count of 100-nanosecond ticks since the first day of
/// 1601, kept to the microsecond.
#[derive(Clone, Copy, Debug, PartialEq, Eq, Structural)]
pub struct FileTime {
    pub microseconds: u64,
}

impl FileTime {
    /// The moment in microseconds since 1970.
    pub open spec fn unix_microseconds(self) -> int {
        self.microseconds as int - MICROSECONDS_TO_1970 as int
    }

    /// Nothing more than ten ticks make a microsecond.
    pub open spec fn wf(self) -> bool {
        self.microseconds <= u64::MAX / 10
    }

    /// Creates a `FileTime` from a count of ticks.
    pub fn new(timestamp: u64) -> (t: FileTime)
        ensures
            t.wf(),
            t.microseconds == timestamp / 10,
    {
        FileTime { microseconds: timestamp / 10 }
    }

    /// The timestamp as text, such as `2022-03-25T10:12:10Z`.
    pub fn to_string(&self) -> (text: String)
        requires
            self.wf(),
        ensures
            Some(text@) == utc_text_at(self.unix_microseconds() as i64),
    {
        let at: i64 = if self.microseconds >= MICROSECONDS_TO_1970 {
            (self.microseconds - MICROSECONDS_TO_1970) as i64
        } else {
            -((MICROSECONDS_TO_1970 - self.microseconds) as i64)
        };
        match format_unix_microseconds(at) {
            Some(text) => text,
            None => String::new(),
        }
    }
}

} // verus!
