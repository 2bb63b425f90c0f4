//! How long ago something happened, in words.

use crate::decimal::{decimal, to_decimal};
use vstd::prelude::*;
use vstd::string::StringExecFns;

verus! {

/// A point in time as whole seconds since the start of 1970 (UTC) and the
/// nanoseconds into that second.
#[derive(Debug, Clone, Copy, PartialEq, Eq, Hash, Structural)]
pub struct UtcInstant {
    pub secs: i64,
    pub nanos: u32,
}

/// The nanoseconds from `date` to `now`; negative where `date` is later.
pub open spec fn elapsed_nanos(now: UtcInstant, date: UtcInstant) -> int {
    (now.secs - date.secs) * 1_000_000_000 + (now.nanos - date.nanos)
}

/// The whole seconds of a duration given in nanoseconds, rounded toward
/// zero.
pub open spec fn whole_seconds(nanos: int) -> int {
    if nanos >= 0 {
        nanos / 1_000_000_000
    } else {
        -((-nanos) / 1_000_000_000)
    }
}

/// The words for a duration of whole seconds.
///
/// Days, hours and minutes are the whole ones of the duration. More than one
/// day is told in days (2 to 6), weeks (up to 27 days), months of 30 days (up
/// to 364 days) or years of 365 days; one day or less, but more than one
/// hour, is told in hours; more than one minute in minutes; anything less,
/// and every time that lies in the future, is "just now".
pub open spec fn elapsed_text(seconds: int) -> Seq<char> {
    let days = seconds / 86_400;
    let hours = seconds / 3_600;
    let minutes = seconds / 60;
    if seconds < 120 {
        "just now"@
    } else if days > 1 {
        if days <= 6 {
            decimal(days as nat) + " days ago"@
        } else if days <= 13 {
            "1 week ago"@
        } else if days <= 20 {
            "2 weeks ago"@
        } else if days <= 27 {
            "3 weeks ago"@
        } else if days <= 30 {
            "1 month ago"@
        } else if days <= 364 {
            decimal((days / 30) as nat) + " months ago"@
        } else if days <= 729 {
            "1 year ago"@
        } else {
            decimal((days / 365) as nat) + " years ago"@
        }
    } else if hours > 1 {
        decimal(hours as nat) + " hours ago"@
    } else {
        decimal(minutes as nat) + " minutes ago"@
    }
}

/// The words for the time from `date` to `now`.
pub open spec fn time_ago_text(now: UtcInstant, date: UtcInstant) -> Seq<char> {
    elapsed_text(whole_seconds(elapsed_nanos(now, date)))
}

/// A number followed by a unit.
fn counted(n: u128, unit: &str) -> (text: String)
    ensures
        text@ == decimal(n as nat) + unit@,
{
    to_decimal(n).concat(unit)
}

/// Tells a duration of whole seconds in words.
pub fn elapsed_label(seconds: i128) -> (text: String)
    ensures
        text@ == elapsed_text(seconds as int),
{
    if seconds < 120 {
        return String::from_str("just now");
    }
    let s: u128 = seconds as u128;
    let days: u128 = s / 86_400;
    let hours: u128 = s / 3_600;
    let minutes: u128 = s / 60;
    if days > 1 {
        if days <= 6 {
            counted(days, " days ago")
        } else if days <= 13 {
            String::from_str("1 week ago")
        } else if days <= 20 {
            String::from_str("2 weeks ago")
        } else if days <= 27 {
            String::from_str("3 weeks ago")
        } else if days <= 30 {
            String::from_str("1 month ago")
        } else if days <= 364 {
            counted(days / 30, " months ago")
        } else if days <= 729 {
            String::from_str("1 year ago")
        } else {
            counted(days / 365, " years ago")
        }
    } else if hours > 1 {
        counted(hours, " hours ago")
    } else {
        counted(minutes, " minutes ago")
    }
}

/// The whole seconds from `date` to `now`, rounded toward zero.
pub fn elapsed_seconds(now: UtcInstant, date: UtcInstant) -> (seconds: i128)
    ensures
        seconds == whole_seconds(elapsed_nanos(now, date)),
{
    let whole: i128 = now.secs as i128 - date.secs as i128;
    let part: i128 = now.nanos as i128 - date.nanos as i128;
    let nanos: i128 = whole * 1_000_000_000 + part;
    if nanos >= 0 {
        let positive: u128 = nanos as u128;
        (positive / 1_000_000_000) as i128
    } else {
        let positive: u128 = (-nanos) as u128;
        -((positive / 1_000_000_000) as i128)
    }
}

/// Tells in words how long before `now` the time `date` was. Reading the
/// clock is the caller's part: `now` is the time that it read.
pub fn time_ago(now: UtcInstant, date: UtcInstant) -> (text: String)
    ensures
        text@ == time_ago_text(now, date),
{
    elapsed_label(elapsed_seconds(now, date))
}

} // verus!
