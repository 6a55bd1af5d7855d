//! Describing the distance between two moments in Persian, exactly or
//! roughly.

use vstd::prelude::*;
use crate::digits::convert_text;
use crate::digits::en_to_ar;
use crate::digits::en_to_fa;
use crate::text::chars_of;
use crate::text::dec_digits;
use crate::text::extend_with_chars;
use crate::text::extend_with_str;
use crate::text::string_from_chars;
use crate::text::u64_to_chars;

verus! {

/// Seconds in a minute.
pub const MINUTE: i64 = 60;

/// Seconds in an hour.
pub const HOUR: i64 = MINUTE * 60;

/// Seconds in a day.
pub const DAY: i64 = HOUR * 24;

/// Seconds in a thirty-day month.
pub const MONTH: i64 = DAY * 30;

/// Seconds in a year of three hundred and sixty-five days.
pub const YEAR: i64 = DAY * 365;

/// What can go wrong when reading a moment from text.
#[derive(Clone, Copy, Debug, Hash, PartialEq, Eq, Structural)]
pub enum TimeAgoError {
    /// The text matches none of the accepted forms.
    InvalidDateTimeFormat,
    /// The moment has no single local reading.
    Unknown,
}

/// A moment, given either as text or as seconds since the epoch.
#[derive(Clone, Debug, Hash, PartialEq, Eq)]
pub enum Timestamp {
    Text(String),
    Seconds(i64),
}

impl From<i64> for Timestamp {
    fn from(timestamp: i64) -> (r: Timestamp)
        ensures
            r == Timestamp::Seconds(timestamp),
    {
        Timestamp::Seconds(timestamp)
    }
}

impl vstd::std_specs::convert::FromSpecImpl<i64> for Timestamp {
    open spec fn obeys_from_spec() -> bool {
        true
    }

    open spec fn from_spec(v: i64) -> Timestamp {
        Timestamp::Seconds(v)
    }
}

impl From<String> for Timestamp {
    fn from(datetime_str: String) -> (r: Timestamp)
        ensures
            r == Timestamp::Text(datetime_str),
    {
        Timestamp::Text(datetime_str)
    }
}

impl vstd::std_specs::convert::FromSpecImpl<String> for Timestamp {
    open spec fn obeys_from_spec() -> bool {
        true
    }

    open spec fn from_spec(v: String) -> Timestamp {
        Timestamp::Text(v)
    }
}

impl<'a> From<&'a str> for Timestamp {
    fn from(datetime_str: &'a str) -> (r: Timestamp)
        ensures
            r matches Timestamp::Text(t) && t@ == datetime_str@,
    {
        Timestamp::Text(<String as vstd::string::StringExecFns>::from_str(datetime_str))
    }
}

impl<'a> vstd::std_specs::convert::FromSpecImpl<&'a str> for Timestamp {
    open spec fn obeys_from_spec() -> bool {
        false
    }

    open spec fn from_spec(v: &'a str) -> Timestamp {
        Timestamp::Seconds(0)
    }
}

/// The distance between two moments, split into calendar-like parts, with
/// the direction of travel.
#[derive(PartialEq, Eq, Debug, Clone, Copy, Hash, Structural)]
pub struct TimeDiff {
    pub years: u32,
    pub months: u8,
    pub days: u8,
    pub hours: u8,
    pub minutes: u8,
    pub seconds: u8,
    pub is_future: bool,
}

/// The parts of a signed distance in seconds: years first, the remainder
/// split down to seconds; the year count wraps at the unsigned 32-bit
/// boundary.
pub open spec fn diff_fields(ts: int) -> TimeDiff {
    let mag = if ts < 0 {
        -ts
    } else {
        ts
    };
    TimeDiff {
        years: ((mag / (YEAR as int)) % 0x1_0000_0000) as u32,
        months: ((mag % (YEAR as int)) / (MONTH as int)) as u8,
        days: (((mag % (YEAR as int)) % (MONTH as int)) / (DAY as int)) as u8,
        hours: ((((mag % (YEAR as int)) % (MONTH as int)) % (DAY as int)) / (HOUR as int)) as u8,
        minutes: (((((mag % (YEAR as int)) % (MONTH as int)) % (DAY as int)) % (HOUR as int)) / (
        MINUTE as int)) as u8,
        seconds: (((((mag % (YEAR as int)) % (MONTH as int)) % (DAY as int)) % (HOUR as int)) % (
        MINUTE as int)) as u8,
        is_future: ts > 0,
    }
}

/// Splits a signed distance in seconds into its parts.
fn get_time_diff(timestamp_diff: i64) -> (r: TimeDiff)
    ensures
        r == diff_fields(timestamp_diff as int),
{
    let is_future = timestamp_diff > 0;
    let mag: u64 = if timestamp_diff == i64::MIN {
        9223372036854775808u64
    } else if timestamp_diff < 0 {
        (-timestamp_diff) as u64
    } else {
        timestamp_diff as u64
    };
    let years_wide: u64 = mag / (YEAR as u64);
    let years: u32 = (years_wide % 0x1_0000_0000) as u32;
    let mut rem: u64 = mag % (YEAR as u64);
    let months: u8 = (rem / (MONTH as u64)) as u8;
    rem = rem % (MONTH as u64);
    let days: u8 = (rem / (DAY as u64)) as u8;
    rem = rem % (DAY as u64);
    let hours: u8 = (rem / (HOUR as u64)) as u8;
    rem = rem % (HOUR as u64);
    let minutes: u8 = (rem / (MINUTE as u64)) as u8;
    rem = rem % (MINUTE as u64);
    let seconds: u8 = rem as u8;
    TimeDiff { years, months, days, hours, minutes, seconds, is_future }
}

/// The word for the direction of travel.
pub open spec fn direction_word(is_future: bool) -> Seq<char> {
    if is_future {
        "بعد"@
    } else {
        "قبل"@
    }
}

/// Parts joined with the conjunction.
pub open spec fn join_and(parts: Seq<Seq<char>>) -> Seq<char>
    decreases parts.len(),
{
    if parts.len() == 0 {
        Seq::empty()
    } else if parts.len() == 1 {
        parts[0]
    } else {
        parts[0] + " و "@ + join_and(parts.drop_first())
    }
}

/// One "count unit" piece.
pub open spec fn count_part(n: int, unit: Seq<char>) -> Seq<char> {
    dec_digits(n as nat) + " "@ + unit
}

/// The non-zero parts of a distance, largest first.
pub open spec fn long_parts(d: &TimeDiff) -> Seq<Seq<char>> {
    let p0: Seq<Seq<char>> = Seq::empty();
    let p1 = if d.years > 0 {
        p0.push(count_part(d.years as int, "سال"@))
    } else {
        p0
    };
    let p2 = if d.months > 0 {
        p1.push(count_part(d.months as int, "ماه"@))
    } else {
        p1
    };
    let p3 = if d.days > 0 {
        p2.push(count_part(d.days as int, "روز"@))
    } else {
        p2
    };
    let p4 = if d.hours > 0 {
        p3.push(count_part(d.hours as int, "ساعت"@))
    } else {
        p3
    };
    let p5 = if d.minutes > 0 {
        p4.push(count_part(d.minutes as int, "دقیقه"@))
    } else {
        p4
    };
    if d.seconds > 0 {
        p5.push(count_part(d.seconds as int, "ثانیه"@))
    } else {
        p5
    }
}

/// The exact description: every non-zero part joined with the conjunction,
/// then the direction.
pub open spec fn long_form_spec(d: &TimeDiff) -> Seq<char> {
    join_and(long_parts(d)) + " "@ + direction_word(d.is_future)
}

/// The rough description: the largest non-zero part alone, the day count
/// shown as weeks past seven days, the coarse scales marked as approximate.
pub open spec fn short_form_spec(d: &TimeDiff) -> Seq<char> {
    if d.years != 0 {
        "حدود "@ + count_part(d.years as int, "سال"@) + " "@ + direction_word(d.is_future)
    } else if d.months != 0 {
        "حدود "@ + count_part(d.months as int, "ماه"@) + " "@ + direction_word(d.is_future)
    } else if d.days > 7 {
        "حدود "@ + count_part(d.days as int / 7, "هفته"@) + " "@ + direction_word(d.is_future)
    } else if d.days != 0 {
        "حدود "@ + count_part(d.days as int, "روز"@) + " "@ + direction_word(d.is_future)
    } else if d.hours != 0 {
        count_part(d.hours as int, "ساعت"@) + " "@ + direction_word(d.is_future)
    } else if d.minutes != 0 {
        count_part(d.minutes as int, "دقیقه"@) + " "@ + direction_word(d.is_future)
    } else if d.seconds != 0 {
        count_part(d.seconds as int, "ثانیه"@) + " "@ + direction_word(d.is_future)
    } else {
        "اکنون"@
    }
}

fn push_count_part(out: &mut Vec<char>, n: u64, unit: &str)
    ensures
        final(out)@ == old(out)@ + count_part(n as int, unit@),
{
    let d = u64_to_chars(n);
    extend_with_chars(out, &d);
    extend_with_str(out, " ");
    extend_with_str(out, unit);
}

impl TimeDiff {
    /// The exact description: every non-zero part, joined, then the
    /// direction.
    pub fn long_form(&self) -> (r: String)
        ensures
            r@ == long_form_spec(self),
    {
        let mut parts: Vec<Vec<char>> = Vec::new();
        if self.years > 0 {
            let mut p: Vec<char> = Vec::new();
            push_count_part(&mut p, self.years as u64, "سال");
            proof {
                assert(p@ =~= count_part(self.years as int, "سال"@));
            }
            parts.push(p);
        }
        if self.months > 0 {
            let mut p: Vec<char> = Vec::new();
            push_count_part(&mut p, self.months as u64, "ماه");
            proof {
                assert(p@ =~= count_part(self.months as int, "ماه"@));
            }
            parts.push(p);
        }
        if self.days > 0 {
            let mut p: Vec<char> = Vec::new();
            push_count_part(&mut p, self.days as u64, "روز");
            proof {
                assert(p@ =~= count_part(self.days as int, "روز"@));
            }
            parts.push(p);
        }
        if self.hours > 0 {
            let mut p: Vec<char> = Vec::new();
            push_count_part(&mut p, self.hours as u64, "ساعت");
            proof {
                assert(p@ =~= count_part(self.hours as int, "ساعت"@));
            }
            parts.push(p);
        }
        if self.minutes > 0 {
            let mut p: Vec<char> = Vec::new();
            push_count_part(&mut p, self.minutes as u64, "دقیقه");
            proof {
                assert(p@ =~= count_part(self.minutes as int, "دقیقه"@));
            }
            parts.push(p);
        }
        if self.seconds > 0 {
            let mut p: Vec<char> = Vec::new();
            push_count_part(&mut p, self.seconds as u64, "ثانیه");
            proof {
                assert(p@ =~= count_part(self.seconds as int, "ثانیه"@));
            }
            parts.push(p);
        }
        proof {
            assert(parts@.map_values(|t: Vec<char>| t@) =~= long_parts(self));
        }
        let joined = join_and_exec(&parts);
        let mut out = joined;
        extend_with_str(&mut out, " ");
        extend_with_str(&mut out, self.pre_or_next_str());
        string_from_chars(&out)
    }

    /// The rough description: the largest non-zero part, weeks standing in
    /// for longer day counts.
    pub fn short_form(&self) -> (r: String)
        ensures
            r@ == short_form_spec(self),
    {
        let mut out: Vec<char> = Vec::new();
        if self.years != 0 {
            extend_with_str(&mut out, "حدود ");
            push_count_part(&mut out, self.years as u64, "سال");
        } else if self.months != 0 {
            extend_with_str(&mut out, "حدود ");
            push_count_part(&mut out, self.months as u64, "ماه");
        } else if self.days > 7 {
            extend_with_str(&mut out, "حدود ");
            push_count_part(&mut out, (self.days / 7) as u64, "هفته");
        } else if self.days != 0 {
            extend_with_str(&mut out, "حدود ");
            push_count_part(&mut out, self.days as u64, "روز");
        } else if self.hours != 0 {
            push_count_part(&mut out, self.hours as u64, "ساعت");
        } else if self.minutes != 0 {
            push_count_part(&mut out, self.minutes as u64, "دقیقه");
        } else if self.seconds != 0 {
            push_count_part(&mut out, self.seconds as u64, "ثانیه");
        } else {
            extend_with_str(&mut out, "اکنون");
            proof {
                assert(out@ =~= short_form_spec(self));
            }
            return string_from_chars(&out);
        }
        extend_with_str(&mut out, " ");
        extend_with_str(&mut out, self.pre_or_next_str());
        proof {
            assert(out@ =~= short_form_spec(self));
        }
        string_from_chars(&out)
    }

    /// The rough description in Persian digits.
    pub fn short_form_fa_digits(&self) -> (r: String)
        ensures
            r@ == convert_text(short_form_spec(self), 48, 57, 1728),
    {
        let s = self.short_form();
        en_to_fa(s.as_str())
    }

    /// The exact description in Persian digits.
    pub fn long_form_fa_digits(&self) -> (r: String)
        ensures
            r@ == convert_text(long_form_spec(self), 48, 57, 1728),
    {
        let s = self.long_form();
        en_to_fa(s.as_str())
    }

    /// The rough description in Arabic digits.
    pub fn short_form_ar_digits(&self) -> (r: String)
        ensures
            r@ == convert_text(short_form_spec(self), 48, 57, 1584),
    {
        let s = self.short_form();
        en_to_ar(s.as_str())
    }

    /// The exact description in Arabic digits.
    pub fn long_form_ar_digits(&self) -> (r: String)
        ensures
            r@ == convert_text(long_form_spec(self), 48, 57, 1584),
    {
        let s = self.long_form();
        en_to_ar(s.as_str())
    }

    fn pre_or_next_str(&self) -> (r: &'static str)
        ensures
            r@ == direction_word(self.is_future),
    {
        if self.is_future {
            "بعد"
        } else {
            "قبل"
        }
    }

    /// The word for the direction of travel.
    pub fn pre_or_next(&self) -> (r: String)
        ensures
            r@ == direction_word(self.is_future),
    {
        <String as vstd::string::StringExecFns>::from_str(self.pre_or_next_str())
    }
}

/// When one part follows the others, the joined text grows by the
/// conjunction and that part.
proof fn lemma_join_and_push(parts: Seq<Seq<char>>, x: Seq<char>)
    requires
        parts.len() >= 1,
    ensures
        join_and(parts.push(x)) == join_and(parts) + " و "@ + x,
    decreases parts.len(),
{
    if parts.len() == 1 {
        assert(parts.push(x)[0] == parts[0]);
        assert(parts.push(x).drop_first() =~= seq![x]);
        assert(join_and(seq![x]) == x);
    } else {
        lemma_join_and_push(parts.drop_first(), x);
        assert(parts.push(x).drop_first() =~= parts.drop_first().push(x));
        assert((parts[0] + " و "@ + (join_and(parts.drop_first()) + " و "@ + x)) =~= (parts[0]
            + " و "@ + join_and(parts.drop_first())) + " و "@ + x);
    }
}

fn join_and_exec(parts: &Vec<Vec<char>>) -> (r: Vec<char>)
    ensures
        r@ == join_and(parts@.map_values(|t: Vec<char>| t@)),
{
    let ghost ps = parts@.map_values(|t: Vec<char>| t@);
    let mut r: Vec<char> = Vec::new();
    if parts.len() == 0 {
        return r;
    }
    extend_with_chars(&mut r, &parts[0]);
    proof {
        assert(Seq::<char>::empty() + ps[0] =~= ps[0]);
        assert(ps.take(1) =~= seq![ps[0]]);
    }
    let mut i: usize = 1;
    while i < parts.len()
        invariant
            1 <= i <= parts@.len(),
            ps == parts@.map_values(|t: Vec<char>| t@),
            r@ == join_and(ps.take(i as int)),
        decreases parts@.len() - i,
    {
        proof {
            lemma_join_and_push(ps.take(i as int), ps[i as int]);
            assert(ps.take(i as int).push(ps[i as int]) =~= ps.take(i + 1));
        }
        extend_with_str(&mut r, " و ");
        extend_with_chars(&mut r, &parts[i]);
        i = i + 1;
    }
    proof {
        assert(ps.take(ps.len() as int) =~= ps);
    }
    r
}

/// Relies on chrono's `NaiveDateTime::parse_from_str` and
/// `Local.from_local_datetime`: reads the text with the given format and
/// resolves it in the machine's local time zone. The outer option is the
/// parse succeeding; the inner is the local reading being unambiguous. The
/// value depends on the machine's time zone, so nothing is promised of it.
#[verifier::external_body]
fn parse_local(datetime: &str, format: &str) -> Option<Option<i64>> {
    match chrono::NaiveDateTime::parse_from_str(datetime, format) {
        Ok(parsed) => {
            match chrono::TimeZone::from_local_datetime(&chrono::Local, &parsed).earliest() {
                Some(dt) => Some(Some(dt.timestamp())),
                None => Some(None),
            }
        },
        Err(_) => None,
    }
}

/// Relies on chrono's `Local::now`: the moment of the call, as seconds since
/// the epoch. The value depends on the clock, so nothing is promised of it.
#[verifier::external_body]
pub fn get_current_timestamp() -> i64 {
    chrono::Local::now().timestamp()
}

/// Reads a moment from text, trying the sortable, ISO 8601 and RFC 2822
/// forms in turn, in the machine's local time zone. The errors are a text
/// matching no form, and a moment with no unambiguous local reading.
pub fn convert_to_timestamp(datetime: &str) -> (r: Result<i64, TimeAgoError>)
    ensures
        r is Err ==> r == Err::<i64, TimeAgoError>(TimeAgoError::InvalidDateTimeFormat) || r
            == Err::<i64, TimeAgoError>(TimeAgoError::Unknown),
{
    let formats: [&'static str; 5] = [
        "%Y-%m-%d %H:%M:%S",
        "%Y/%m/%d %H:%M:%S",
        "%Y-%m-%dT%H:%M:%S%:z",
        "%Y-%m-%dT%H:%M:%S%.3f%:z",
        "%a, %d %b %Y %H:%M:%S %z",
    ];
    let mut i: usize = 0;
    while i < 5
        decreases 5 - i,
    {
        match parse_local(datetime, formats[i]) {
            Some(Some(ts)) => {
                return Ok(ts);
            },
            Some(None) => {
                return Err(TimeAgoError::Unknown);
            },
            None => (),
        }
        i = i + 1;
    }
    Err(TimeAgoError::InvalidDateTimeFormat)
}

/// The distance from now to the given moment, split into parts; the
/// direction says whether the moment lies ahead. The distance wraps at the
/// signed 64-bit boundary.
pub fn time_diff_now(datetime: Timestamp) -> (r: Result<TimeDiff, TimeAgoError>)
    ensures
        (r matches Ok(d) ==> exists|diff: int| d == diff_fields(diff)),
        r is Err ==> r == Err::<TimeDiff, TimeAgoError>(TimeAgoError::InvalidDateTimeFormat) || r
            == Err::<TimeDiff, TimeAgoError>(TimeAgoError::Unknown),
{
    let ts_now = get_current_timestamp();
    let ts = match datetime {
        Timestamp::Text(datetime_str) => {
            match convert_to_timestamp(datetime_str.as_str()) {
                Ok(t) => t,
                Err(e) => {
                    return Err(e);
                },
            }
        },
        Timestamp::Seconds(timestamp) => timestamp,
    };
    let diff = ts.wrapping_sub(ts_now);
    let d = get_time_diff(diff);
    proof {
        assert(d == diff_fields(diff as int));
    }
    Ok(d)
}

/// The distance from `start` to `end`, split into parts; when both moments
/// come as seconds, the distance is their difference, wrapping at the signed
/// 64-bit boundary.
pub fn time_diff_between(start: Timestamp, end: Timestamp) -> (r: Result<TimeDiff, TimeAgoError>)
    ensures
        (start is Seconds && end is Seconds) ==> r == Ok::<TimeDiff, TimeAgoError>(
            diff_fields(
                vstd::wrapping::i64_specs::wrapping_sub(end->Seconds_0, start->Seconds_0) as int,
            ),
        ),
        (r matches Ok(d) ==> exists|diff: int| d == diff_fields(diff)),
        r is Err ==> r == Err::<TimeDiff, TimeAgoError>(TimeAgoError::InvalidDateTimeFormat) || r
            == Err::<TimeDiff, TimeAgoError>(TimeAgoError::Unknown),
{
    let ts_start = match start {
        Timestamp::Text(datetime_str) => {
            match convert_to_timestamp(datetime_str.as_str()) {
                Ok(t) => t,
                Err(e) => {
                    return Err(e);
                },
            }
        },
        Timestamp::Seconds(timestamp) => timestamp,
    };
    let ts_end = match end {
        Timestamp::Text(datetime_str) => {
            match convert_to_timestamp(datetime_str.as_str()) {
                Ok(t) => t,
                Err(e) => {
                    return Err(e);
                },
            }
        },
        Timestamp::Seconds(timestamp) => timestamp,
    };
    let diff = ts_end.wrapping_sub(ts_start);
    let d = get_time_diff(diff);
    proof {
        assert(d == diff_fields(diff as int));
    }
    Ok(d)
}

} // verus!
