//! Values of the snapshot statistics as they are shown.

use crate::snapshot_stats::ModifiedTime;
use crate::time_ago::UtcInstant;
use vstd::prelude::*;

verus! {

/// The first second that chrono has a time for: the start of the year
/// -262143.
pub const MIN_UTC_SECONDS: i64 = -8_334_601_228_800;

/// The last second that chrono has a time for: the end of the year 262142.
pub const MAX_UTC_SECONDS: i64 = 8_210_266_876_799;

/// Whether a number of seconds since the start of 1970 lies in the years
/// that chrono can hold.
pub open spec fn is_utc_timestamp(secs: i64) -> bool {
    MIN_UTC_SECONDS <= secs <= MAX_UTC_SECONDS
}

/// Calls `chrono::DateTime::from_timestamp(secs, 0)` and hands the time out
/// by its `timestamp()` and `timestamp_subsec_nanos()`. Trusted: chrono has
/// a time exactly for the seconds whose day lies in the years -262143 to
/// 262142, which are the seconds from `MIN_UTC_SECONDS` to
/// `MAX_UTC_SECONDS`, and then, as it documents the round trip, it is the
/// time of `secs` with no nanoseconds.
#[verifier::external_body]
fn instant_of_timestamp(secs: i64) -> (r: Option<UtcInstant>)
    ensures
        r == (if is_utc_timestamp(secs) {
            Some(UtcInstant { secs, nanos: 0 })
        } else {
            None
        }),
{
    match chrono::DateTime::from_timestamp(secs, 0) {
        Some(time) => Some(
            UtcInstant { secs: time.timestamp(), nanos: time.timestamp_subsec_nanos() },
        ),
        None => None,
    }
}

/// The seconds of a modification time as a signed number: the same number
/// where it fits, wrapped around where it does not.
pub open spec fn signed_seconds(secs: u64) -> i64 {
    if secs <= i64::MAX as u64 {
        secs as i64
    } else {
        (secs - 0x1_0000_0000_0000_0000) as i64
    }
}

/// The time to show for what the conversion of a timestamp gave: the time
/// itself, or the start of 1970 where the timestamp has no time.
pub fn instant_or_epoch(converted: Option<UtcInstant>) -> (instant: UtcInstant)
    ensures
        instant == (match converted {
            Some(i) => i,
            None => UtcInstant { secs: 0, nanos: 0 },
        }),
{
    match converted {
        Some(i) => i,
        None => UtcInstant { secs: 0, nanos: 0 },
    }
}

/// The time to show for a modification time: that of its whole seconds, or
/// the start of 1970 where they have no time.
pub fn modified_instant(date_modified: ModifiedTime) -> (instant: UtcInstant)
    ensures
        instant == (if is_utc_timestamp(signed_seconds(date_modified.secs_since_epoch)) {
            UtcInstant { secs: signed_seconds(date_modified.secs_since_epoch), nanos: 0 }
        } else {
            UtcInstant { secs: 0, nanos: 0 }
        }),
{
    let secs: i64 = wrap_seconds(date_modified.secs_since_epoch);
    instant_or_epoch(instant_of_timestamp(secs))
}

/// Reads the seconds of a modification time as a signed number.
pub fn wrap_seconds(secs: u64) -> (signed: i64)
    ensures
        signed == signed_seconds(secs),
{
    if secs <= 0x7fff_ffff_ffff_ffff {
        secs as i64
    } else {
        let over: u64 = secs - 0x8000_0000_0000_0000;
        (over as i64) + i64::MIN
    }
}

/// The low 32 bits of a directory size, which is what the size label shows.
pub fn shown_size(directory_size: u64) -> (low: u32)
    ensures
        low == directory_size % 0x1_0000_0000,
{
    (directory_size % 0x1_0000_0000) as u32
}

/// A decimal digit.
pub open spec fn is_decimal_digit(c: char) -> bool {
    c == '0' || c == '1' || c == '2' || c == '3' || c == '4' || c == '5' || c == '6' || c == '7'
        || c == '8' || c == '9'
}

/// A number written with two decimals: one digit or more, a point, and two
/// digits.
pub open spec fn has_two_decimals(number: Seq<char>) -> bool {
    &&& number.len() >= 4
    &&& number[number.len() - 3] == '.'
    &&& forall|i: int|
        0 <= i < number.len() && i != number.len() - 3 ==> is_decimal_digit(#[trigger] number[i])
}

/// The unit of bytes, alone or behind a binary prefix from kibi to yobi.
pub open spec fn is_binary_unit(unit: Seq<char>) -> bool {
    unit == "B"@ || unit == "kiB"@ || unit == "MiB"@ || unit == "GiB"@ || unit == "TiB"@ || unit
        == "PiB"@ || unit == "EiB"@ || unit == "ZiB"@ || unit == "YiB"@
}

/// The shape of a size label: a number with two decimals, a space, and the
/// unit of bytes with its binary prefix.
pub open spec fn is_size_label(text: Seq<char>) -> bool {
    exists|number: Seq<char>, unit: Seq<char>|
        #![trigger has_two_decimals(number), is_binary_unit(unit)]
        has_two_decimals(number) && is_binary_unit(unit) && text == number + " "@ + unit
}

/// Calls `si_scale::helpers::bibytes2`, which writes a number of bytes with
/// a binary prefix and two decimals. Trusted: the text has the shape that
/// the source of si_scale gives every result for a number that is not
/// negative, the scaled number formatted with `{:.2}`, a space, the symbol
/// of a prefix from the unit to yotta, `i` behind a prefix, and `B`. Which
/// prefix and which digits is not claimed: si_scale finds the scale with
/// `log2` and `powf`, whose precision differs between machines.
#[verifier::external_body]
fn bibytes2_label(bytes: u32) -> (text: String)
    ensures
        is_size_label(text@),
{
    si_scale::helpers::bibytes2(bytes)
}

/// The label of a directory size: the low 32 bits of the size, written as a
/// number with two decimals, a space and the unit of bytes with its binary
/// prefix.
pub fn size_label(directory_size: u64) -> (text: String)
    ensures
        is_size_label(text@),
{
    bibytes2_label(shown_size(directory_size))
}

} // verus!
