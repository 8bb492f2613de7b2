//! Reading service timestamps and showing them in local time.
use vstd::prelude::*;
use crate::error::WeatherError;
use crate::text::{digit_char, digit_chars, push_two_digits, two_digits};

verus! {

/// Seconds that local time lies behind UTC (UTC−4:00, with no daylight-saving
/// adjustment).
pub const LOCAL_OFFSET_WEST_SECS: i32 = 14400;

/// A calendar date and time of day, proleptic Gregorian, to the second.
#[derive(Clone, Copy, Debug, PartialEq, Eq, Structural)]
pub struct Timestamp {
    pub year: i32,
    pub month: u32,
    pub day: u32,
    pub hour: u32,
    pub minute: u32,
    pub second: u32,
}

pub open spec fn is_leap_year(y: int) -> bool {
    y % 4 == 0 && (y % 100 != 0 || y % 400 == 0)
}

pub open spec fn days_in_month(y: int, m: int) -> int {
    if m == 2 {
        if is_leap_year(y) {
            29
        } else {
            28
        }
    } else if m == 4 || m == 6 || m == 9 || m == 11 {
        30
    } else {
        31
    }
}

impl Timestamp {
    /// A real date and time, with a year of at most four digits either way.
    pub open spec fn wf(self) -> bool {
        &&& -9999 <= self.year <= 9999
        &&& 1 <= self.month <= 12
        &&& 1 <= self.day <= days_in_month(self.year as int, self.month as int)
        &&& self.hour < 24
        &&& self.minute < 60
        &&& self.second < 60
    }

    pub open spec fn second_of_day(self) -> int {
        self.hour * 3600 + self.minute * 60 + self.second
    }
}

/// The day before the date of `t`, at the same time of day.
pub open spec fn day_before(t: Timestamp) -> Timestamp {
    if t.day > 1 {
        Timestamp { day: (t.day - 1) as u32, ..t }
    } else if t.month > 1 {
        Timestamp {
            month: (t.month - 1) as u32,
            day: days_in_month(t.year as int, t.month - 1) as u32,
            ..t
        }
    } else {
        Timestamp { year: (t.year - 1) as i32, month: 12, day: 31, ..t }
    }
}

/// `t` with its time of day set to the second `s` of the day.
pub open spec fn at_second_of_day(t: Timestamp, s: int) -> Timestamp {
    Timestamp {
        hour: (s / 3600) as u32,
        minute: ((s % 3600) / 60) as u32,
        second: (s % 60) as u32,
        ..t
    }
}

/// The wall-clock reading `offset` seconds (less than a day) behind `t`.
pub open spec fn shifted_west(t: Timestamp, offset: int) -> Timestamp {
    let s = t.second_of_day() - offset;
    if s >= 0 {
        at_second_of_day(t, s)
    } else {
        at_second_of_day(day_before(t), s + 86400)
    }
}

pub open spec fn is_digit(c: char) -> bool {
    '0' <= c && c <= '9'
}

/// The number written by the digits `s[lo..hi]`.
pub open spec fn number(s: Seq<char>, lo: int, hi: int) -> int
    decreases hi - lo,
{
    if hi <= lo {
        0
    } else {
        number(s, lo, hi - 1) * 10 + (s[hi - 1] as int - '0' as int)
    }
}

pub open spec fn all_digits(s: Seq<char>, lo: int, hi: int) -> bool {
    forall|i: int| lo <= i < hi ==> is_digit(#[trigger] s[i])
}

/// Whether `s` has the form `YYYY-MM-DD HH:MM:SS`, digits and separators.
pub open spec fn timestamp_shape(s: Seq<char>) -> bool {
    &&& s.len() == 19
    &&& all_digits(s, 0, 4) && s[4] == '-'
    &&& all_digits(s, 5, 7) && s[7] == '-'
    &&& all_digits(s, 8, 10) && s[10] == ' '
    &&& all_digits(s, 11, 13) && s[13] == ':'
    &&& all_digits(s, 14, 16) && s[16] == ':'
    &&& all_digits(s, 17, 19)
}

/// The date and time written as `YYYY-MM-DD HH:MM:SS`, if `s` is one that exists.
pub open spec fn parse_spec(s: Seq<char>) -> Option<Timestamp> {
    if !timestamp_shape(s) {
        None
    } else {
        let t = Timestamp {
            year: number(s, 0, 4) as i32,
            month: number(s, 5, 7) as u32,
            day: number(s, 8, 10) as u32,
            hour: number(s, 11, 13) as u32,
            minute: number(s, 14, 16) as u32,
            second: number(s, 17, 19) as u32,
        };
        if t.wf() {
            Some(t)
        } else {
            None
        }
    }
}

/// `MM-DD at HH:MM` of a date and time.
pub open spec fn local_text(t: Timestamp) -> Seq<char> {
    two_digits(t.month as nat) + "-"@ + two_digits(t.day as nat) + " at "@ + two_digits(
        t.hour as nat,
    ) + ":"@ + two_digits(t.minute as nat)
}

/// The local display of a UTC timestamp text, or `None` when it is malformed.
pub open spec fn localize_spec(s: Seq<char>) -> Option<Seq<char>> {
    match parse_spec(s) {
        Some(t) => Some(local_text(shifted_west(t, LOCAL_OFFSET_WEST_SECS as int))),
        None => None,
    }
}

proof fn lemma_number_bound(s: Seq<char>, lo: int, hi: int)
    requires
        0 <= lo <= hi <= s.len(),
        all_digits(s, lo, hi),
    ensures
        0 <= number(s, lo, hi) < pow10((hi - lo) as nat),
    decreases hi - lo,
{
    if hi > lo {
        assert(is_digit(s[hi - 1]));
        lemma_number_bound(s, lo, hi - 1);
    }
}

pub open spec fn pow10(n: nat) -> int
    decreases n,
{
    if n == 0 {
        1
    } else {
        10 * pow10((n - 1) as nat)
    }
}

/// The number written by `text[lo..hi]`, when those are all digits.
fn read_number(text: &str, lo: usize, hi: usize) -> (r: Option<u32>)
    requires
        lo <= hi <= text@.len(),
        hi - lo <= 4,
    ensures
        r is Some <==> all_digits(text@, lo as int, hi as int),
        r matches Some(v) ==> v == number(text@, lo as int, hi as int),
{
    let mut v: u32 = 0;
    let mut i: usize = lo;
    while i < hi
        invariant
            lo <= i <= hi <= text@.len(),
            hi - lo <= 4,
            all_digits(text@, lo as int, i as int),
            v == number(text@, lo as int, i as int),
        decreases hi - i,
    {
        let c = text.get_char(i);
        if !('0' <= c && c <= '9') {
            return None;
        }
        proof {
            lemma_number_bound(text@, lo as int, i as int);
            assert(pow10((i - lo) as nat) <= 1000) by {
                reveal_with_fuel(pow10, 4);
            }
        }
        v = v * 10 + (c as u32 - '0' as u32);
        i = i + 1;
    }
    Some(v)
}

fn month_length(y: u32, m: u32) -> (r: u32)
    requires
        1 <= m <= 12,
    ensures
        r == days_in_month(y as int, m as int),
{
    if m == 2 {
        if y % 4 == 0 && (y % 100 != 0 || y % 400 == 0) {
            29
        } else {
            28
        }
    } else if m == 4 || m == 6 || m == 9 || m == 11 {
        30
    } else {
        31
    }
}

/// Reads a `YYYY-MM-DD HH:MM:SS` timestamp; anything else, or a date that does
/// not exist, is a `Parse` error.
pub fn parse_timestamp(text: &str) -> (r: Result<Timestamp, WeatherError>)
    ensures
        match r {
            Ok(t) => parse_spec(text@) == Some(t),
            Err(e) => parse_spec(text@) is None && e == WeatherError::Parse,
        },
{
    if text.unicode_len() != 19 {
        return Err(WeatherError::Parse);
    }
    if text.get_char(4) != '-' || text.get_char(7) != '-' || text.get_char(10) != ' '
        || text.get_char(13) != ':' || text.get_char(16) != ':' {
        return Err(WeatherError::Parse);
    }
    let year = match read_number(text, 0, 4) {
        Some(v) => v,
        None => return Err(WeatherError::Parse),
    };
    let month = match read_number(text, 5, 7) {
        Some(v) => v,
        None => return Err(WeatherError::Parse),
    };
    let day = match read_number(text, 8, 10) {
        Some(v) => v,
        None => return Err(WeatherError::Parse),
    };
    let hour = match read_number(text, 11, 13) {
        Some(v) => v,
        None => return Err(WeatherError::Parse),
    };
    let minute = match read_number(text, 14, 16) {
        Some(v) => v,
        None => return Err(WeatherError::Parse),
    };
    let second = match read_number(text, 17, 19) {
        Some(v) => v,
        None => return Err(WeatherError::Parse),
    };
    proof {
        lemma_number_bound(text@, 0, 4);
        lemma_number_bound(text@, 5, 7);
        lemma_number_bound(text@, 8, 10);
        lemma_number_bound(text@, 11, 13);
        lemma_number_bound(text@, 14, 16);
        lemma_number_bound(text@, 17, 19);
        reveal_with_fuel(pow10, 5);
    }
    if month < 1 || month > 12 || day < 1 || day > month_length(year, month) || hour >= 24
        || minute >= 60 || second >= 60 {
        return Err(WeatherError::Parse);
    }
    Ok(Timestamp { year: year as i32, month, day, hour, minute, second })
}

/// Relies on chrono: the `NaiveDateTime` built from `t` (`NaiveDate::from_ymd_opt`,
/// `and_hms_opt`), taken as UTC (`DateTime::from_naive_utc_and_offset`) and
/// moved by `DateTime::with_timezone` to `FixedOffset::west_opt(offset_secs)`,
/// reads `offset_secs` seconds earlier on the wall clock, across day, month
/// and year ends.
#[verifier::external_body]
fn to_fixed_offset(t: &Timestamp, offset_secs: i32) -> (r: Timestamp)
    requires
        t.wf(),
        0 <= offset_secs < 86400,
    ensures
        r == shifted_west(*t, offset_secs as int),
{
    let date = chrono::NaiveDate::from_ymd_opt(t.year, t.month, t.day).unwrap();
    let utc = chrono::DateTime::<chrono::Utc>::from_naive_utc_and_offset(
        date.and_hms_opt(t.hour, t.minute, t.second).unwrap(),
        chrono::Utc,
    );
    let local = utc.with_timezone(&chrono::FixedOffset::west_opt(offset_secs).unwrap());
    Timestamp {
        year: chrono::Datelike::year(&local),
        month: chrono::Datelike::month(&local),
        day: chrono::Datelike::day(&local),
        hour: chrono::Timelike::hour(&local),
        minute: chrono::Timelike::minute(&local),
        second: chrono::Timelike::second(&local),
    }
}

proof fn lemma_shift_in_range(t: Timestamp, offset: int)
    requires
        t.wf(),
        0 <= offset < 86400,
    ensures
        ({
            let r = shifted_west(t, offset);
            &&& 1 <= r.month <= 12
            &&& 1 <= r.day <= 31
            &&& r.hour < 24
            &&& r.minute < 60
            &&& r.second < 60
        }),
{
}

/// Writes a date and time as `MM-DD at HH:MM`.
pub fn format_local(t: &Timestamp) -> (r: String)
    requires
        t.month < 100,
        t.day < 100,
        t.hour < 100,
        t.minute < 100,
    ensures
        r@ == local_text(*t),
{
    let mut s = String::new();
    push_two_digits(&mut s, t.month);
    s.append("-");
    push_two_digits(&mut s, t.day);
    s.append(" at ");
    push_two_digits(&mut s, t.hour);
    s.append(":");
    push_two_digits(&mut s, t.minute);
    assert(s@ =~= local_text(*t));
    s
}

/// The local (UTC−4:00) display `MM-DD at HH:MM` of a UTC timestamp written
/// `YYYY-MM-DD HH:MM:SS`; a `Parse` error for any other text.
pub fn localize(utc_text: &str) -> (r: Result<String, WeatherError>)
    ensures
        match r {
            Ok(s) => localize_spec(utc_text@) == Some(s@),
            Err(e) => localize_spec(utc_text@) is None && e == WeatherError::Parse,
        },
{
    let t = parse_timestamp(utc_text)?;
    let local = to_fixed_offset(&t, LOCAL_OFFSET_WEST_SECS);
    proof {
        lemma_shift_in_range(t, LOCAL_OFFSET_WEST_SECS as int);
    }
    Ok(format_local(&local))
}

/// Whether `o` has the form `MM-DD at HH:MM`, digits and separators.
pub open spec fn display_shape(o: Seq<char>) -> bool {
    &&& o.len() == 14
    &&& all_digits(o, 0, 2) && o[2] == '-'
    &&& all_digits(o, 3, 5) && o.subrange(5, 9) == " at "@
    &&& all_digits(o, 9, 11) && o[11] == ':'
    &&& all_digits(o, 12, 14)
}

/// Localizing is total on well-formed timestamps, where it always yields text
/// of the form `MM-DD at HH:MM`, and fails exactly on malformed ones.
pub proof fn lemma_localize_shape(s: Seq<char>)
    ensures
        parse_spec(s) is Some <==> localize_spec(s) is Some,
        localize_spec(s) matches Some(o) ==> display_shape(o),
{
    if let Some(t) = parse_spec(s) {
        let r = shifted_west(t, LOCAL_OFFSET_WEST_SECS as int);
        lemma_shift_in_range(t, LOCAL_OFFSET_WEST_SECS as int);
        let o = local_text(r);
        reveal_strlit("-");
        reveal_strlit(" at ");
        reveal_strlit(":");
        let (mo, d, h, mi) = (r.month as nat, r.day as nat, r.hour as nat, r.minute as nat);
        let w = seq![
            digit_char(mo / 10), digit_char(mo % 10), '-',
            digit_char(d / 10), digit_char(d % 10), ' ', 'a', 't', ' ',
            digit_char(h / 10), digit_char(h % 10), ':',
            digit_char(mi / 10), digit_char(mi % 10),
        ];
        assert(o =~= w);
        assert(o.subrange(5, 9) =~= " at "@);
        assert forall|n: nat| n < 10 implies is_digit(#[trigger] digit_char(n)) by {
            assert(digit_chars()[n as int] == seq!['0', '1', '2', '3', '4', '5', '6', '7', '8', '9'][n as int]);
        }
    }
}

} // verus!
