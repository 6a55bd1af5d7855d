//! A rough Persian phrase for how long ago a moment was, or how far ahead
//! it lies.

use vstd::prelude::*;
use crate::text::dec_digits;
use crate::text::extend_with_str;
use crate::text::string_from_chars;
use crate::text::u64_to_chars;
use crate::text::extend_with_chars;
use crate::time_diff::MINUTE;
use crate::time_diff::HOUR;
use crate::time_diff::DAY;
use crate::time_diff::MONTH;
use crate::time_diff::YEAR;

verus! {

/// Seconds in a week.
pub const WEEK: i64 = DAY * 7;

/// What can go wrong when reading a moment from text.
#[derive(Clone, Copy, Debug, Hash, PartialEq, Eq, Structural)]
pub enum TimeAgoError {
    /// The text matches none of the accepted forms.
    InvalidDateTimeFormat,
    /// The moment has no single local reading.
    Unknown,
}

/// Reads a moment from text, trying the sortable, ISO 8601 and RFC 2822
/// forms in turn, in the machine's local time zone.
pub fn convert_to_timestamp(datetime: &str) -> (r: Result<i64, TimeAgoError>)
    ensures
        r is Err ==> r == Err::<i64, TimeAgoError>(TimeAgoError::InvalidDateTimeFormat) || r
            == Err::<i64, TimeAgoError>(TimeAgoError::Unknown),
{
    match crate::time_diff::convert_to_timestamp(datetime) {
        Ok(ts) => Ok(ts),
        Err(crate::time_diff::TimeAgoError::InvalidDateTimeFormat) => Err(
            TimeAgoError::InvalidDateTimeFormat,
        ),
        Err(crate::time_diff::TimeAgoError::Unknown) => Err(TimeAgoError::Unknown),
    }
}

/// The moment of the call, as seconds since the epoch.
pub fn get_current_timestamp() -> i64 {
    crate::time_diff::get_current_timestamp()
}

/// The word for now.
pub open spec fn now_word() -> Seq<char> {
    "اکنون"@
}

/// The phrase for a signed distance in seconds: within a second of now, the
/// word for now; under an hour, minutes; under a day, hours; then days,
/// weeks, months and years, marked as approximate.
pub open spec fn ago_phrase(e: int) -> Seq<char> {
    if -1 <= e && e <= 1 {
        now_word()
    } else {
        let pre = if e > 0 {
            "قبل"@
        } else {
            "بعد"@
        };
        let a = if e < 0 {
            -e
        } else {
            e
        };
        if a < MINUTE {
            dec_digits(a as nat) + " ثانیه "@ + pre
        } else if a < HOUR {
            dec_digits((a / (MINUTE as int)) as nat) + " دقیقه "@ + pre
        } else if a < DAY {
            dec_digits((a / (HOUR as int)) as nat) + " ساعت "@ + pre
        } else if a < WEEK {
            "حدود "@ + dec_digits((a / (DAY as int)) as nat) + " روز "@ + pre
        } else if a < MONTH {
            "حدود "@ + dec_digits((a / (WEEK as int)) as nat) + " هفته "@ + pre
        } else if a < YEAR {
            "حدود "@ + dec_digits((a / (MONTH as int)) as nat) + " ماه "@ + pre
        } else {
            "حدود "@ + dec_digits((a / (YEAR as int)) as nat) + " سال "@ + pre
        }
    }
}

/// The phrase for a signed distance in seconds.
pub fn time_ago_phrase(elapsed: i64) -> (r: String)
    ensures
        r@ == ago_phrase(elapsed as int),
{
    if -1 <= elapsed && elapsed <= 1 {
        let mut out: Vec<char> = Vec::new();
        extend_with_str(&mut out, "اکنون");
        proof {
            assert(Seq::<char>::empty() + "اکنون"@ =~= "اکنون"@);
        }
        return string_from_chars(&out);
    }
    let pre: &'static str = if elapsed > 0 {
        "قبل"
    } else {
        "بعد"
    };
    let a: u64 = if elapsed == i64::MIN {
        9223372036854775808u64
    } else if elapsed < 0 {
        (-elapsed) as u64
    } else {
        elapsed as u64
    };
    let mut out: Vec<char> = Vec::new();
    if a < MINUTE as u64 {
        let d = u64_to_chars(a);
        extend_with_chars(&mut out, &d);
        extend_with_str(&mut out, " ثانیه ");
        proof {
            assert(Seq::<char>::empty() + d@ =~= d@);
        }
    } else if a < HOUR as u64 {
        let d = u64_to_chars(a / (MINUTE as u64));
        extend_with_chars(&mut out, &d);
        extend_with_str(&mut out, " دقیقه ");
        proof {
            assert(Seq::<char>::empty() + d@ =~= d@);
        }
    } else if a < DAY as u64 {
        let d = u64_to_chars(a / (HOUR as u64));
        extend_with_chars(&mut out, &d);
        extend_with_str(&mut out, " ساعت ");
        proof {
            assert(Seq::<char>::empty() + d@ =~= d@);
        }
    } else if a < WEEK as u64 {
        extend_with_str(&mut out, "حدود ");
        let d = u64_to_chars(a / (DAY as u64));
        extend_with_chars(&mut out, &d);
        extend_with_str(&mut out, " روز ");
    } else if a < MONTH as u64 {
        extend_with_str(&mut out, "حدود ");
        let d = u64_to_chars(a / (WEEK as u64));
        extend_with_chars(&mut out, &d);
        extend_with_str(&mut out, " هفته ");
    } else if a < YEAR as u64 {
        extend_with_str(&mut out, "حدود ");
        let d = u64_to_chars(a / (MONTH as u64));
        extend_with_chars(&mut out, &d);
        extend_with_str(&mut out, " ماه ");
    } else {
        extend_with_str(&mut out, "حدود ");
        let d = u64_to_chars(a / (YEAR as u64));
        extend_with_chars(&mut out, &d);
        extend_with_str(&mut out, " سال ");
    }
    extend_with_str(&mut out, pre);
    proof {
        assert(out@ =~= ago_phrase(elapsed as int));
    }
    string_from_chars(&out)
}

/// The phrase for how far the given moment lies from now; no moment stands
/// for now itself. The distance wraps at the signed 64-bit boundary.
pub fn time_ago(datetime: Option<&str>) -> (r: Result<String, TimeAgoError>)
    ensures
        datetime is None ==> (r matches Ok(s) && s@ == now_word()),
        (r matches Ok(s) ==> (s@ == now_word() || exists|e: int| s@ == #[trigger] ago_phrase(e))),
        r is Err ==> r == Err::<String, TimeAgoError>(TimeAgoError::InvalidDateTimeFormat) || r
            == Err::<String, TimeAgoError>(TimeAgoError::Unknown),
{
    let datetime_str = match datetime {
        None => {
            let mut out: Vec<char> = Vec::new();
            extend_with_str(&mut out, "اکنون");
            proof {
                assert(Seq::<char>::empty() + "اکنون"@ =~= "اکنون"@);
            }
            return Ok(string_from_chars(&out));
        },
        Some(s) => s,
    };
    let ts_now = get_current_timestamp();
    let ts = match convert_to_timestamp(datetime_str) {
        Ok(t) => t,
        Err(e) => {
            return Err(e);
        },
    };
    let elapsed = ts_now.wrapping_sub(ts);
    let phrase = time_ago_phrase(elapsed);
    proof {
        assert(phrase@ == ago_phrase(elapsed as int));
    }
    Ok(phrase)
}

} // verus!
