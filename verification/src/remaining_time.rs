//! How much time is left until a moment, split into parts.

use vstd::prelude::*;
use crate::time_ago::convert_to_timestamp;
use crate::time_ago::get_current_timestamp;
use crate::time_ago::TimeAgoError;
use crate::time_diff::MINUTE;
use crate::time_diff::HOUR;
use crate::time_diff::DAY;
use crate::time_diff::MONTH;
use crate::time_diff::YEAR;

verus! {

/// The time left until a moment, split into parts; a moment already past is
/// finished, with every part zero.
#[derive(Debug, PartialEq, Eq, Clone, Copy, Hash, Structural)]
pub struct RemainingTime {
    pub years: u32,
    pub months: u8,
    pub days: u8,
    pub hours: u8,
    pub minutes: u8,
    pub seconds: u8,
    pub is_finished: bool,
}

/// The parts of a non-negative distance in seconds; a distance of zero or
/// less is the finished value. The year count wraps at the unsigned 32-bit
/// boundary.
pub open spec fn remaining_fields(rem: int) -> RemainingTime {
    if rem <= 0 {
        RemainingTime {
            years: 0,
            months: 0,
            days: 0,
            hours: 0,
            minutes: 0,
            seconds: 0,
            is_finished: true,
        }
    } else {
        RemainingTime {
            years: ((rem / (YEAR as int)) % 0x1_0000_0000) as u32,
            months: ((rem % (YEAR as int)) / (MONTH as int)) as u8,
            days: (((rem % (YEAR as int)) % (MONTH as int)) / (DAY as int)) as u8,
            hours: ((((rem % (YEAR as int)) % (MONTH as int)) % (DAY as int)) / (
            HOUR as int)) as u8,
            minutes: (((((rem % (YEAR as int)) % (MONTH as int)) % (DAY as int)) % (HOUR as int))
                / (MINUTE as int)) as u8,
            seconds: (((((rem % (YEAR as int)) % (MONTH as int)) % (DAY as int)) % (HOUR as int))
                % (MINUTE as int)) as u8,
            is_finished: false,
        }
    }
}

/// The time left until the given moment; a moment at or before now is
/// finished. The distance wraps at the signed 64-bit boundary.
pub fn remaining_time(datetime: &str) -> (r: Result<RemainingTime, TimeAgoError>)
    ensures
        (r matches Ok(t) ==> exists|rem: int| t == #[trigger] remaining_fields(rem)),
        r is Err ==> r == Err::<RemainingTime, TimeAgoError>(TimeAgoError::InvalidDateTimeFormat)
            || r == Err::<RemainingTime, TimeAgoError>(TimeAgoError::Unknown),
{
    let due_date = match convert_to_timestamp(datetime) {
        Ok(t) => t,
        Err(e) => {
            return Err(e);
        },
    };
    let now = get_current_timestamp();
    let rem = due_date.wrapping_sub(now);
    if rem <= 0 {
        let t = RemainingTime {
            years: 0,
            months: 0,
            days: 0,
            hours: 0,
            minutes: 0,
            seconds: 0,
            is_finished: true,
        };
        proof {
            assert(t == remaining_fields(rem as int));
        }
        return Ok(t);
    }
    let mag: u64 = rem as u64;
    let years: u32 = ((mag / (YEAR as u64)) % 0x1_0000_0000) as u32;
    let mut r2: u64 = mag % (YEAR as u64);
    let months: u8 = (r2 / (MONTH as u64)) as u8;
    r2 = r2 % (MONTH as u64);
    let days: u8 = (r2 / (DAY as u64)) as u8;
    r2 = r2 % (DAY as u64);
    let hours: u8 = (r2 / (HOUR as u64)) as u8;
    r2 = r2 % (HOUR as u64);
    let minutes: u8 = (r2 / (MINUTE as u64)) as u8;
    r2 = r2 % (MINUTE as u64);
    let seconds: u8 = r2 as u8;
    let t = RemainingTime { years, months, days, hours, minutes, seconds, is_finished: false };
    proof {
        assert(t == remaining_fields(rem as int));
    }
    Ok(t)
}

} // verus!
