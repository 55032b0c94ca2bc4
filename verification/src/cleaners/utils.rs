//! How long an entry still has to rest, in words.

use vstd::prelude::*;
use vstd::string::StringExecFns;
use crate::text::{decimal, render_decimal};
use crate::time::Timestamp;

verus! {

/// The plural ending for a count of units.
pub open spec fn plural_suffix(units: int) -> Seq<char> {
    if units > 1 {
        "s"@
    } else {
        ""@
    }
}

/// A count with its unit, in the singular for one.
pub open spec fn counted(units: int, unit: Seq<char>) -> Seq<char> {
    decimal(units as nat) + " "@ + unit + plural_suffix(units)
}

/// The whole seconds from `retention` to `last_played`.
pub open spec fn seconds_left(last_played: Timestamp, retention: Timestamp) -> int {
    (last_played.instant() - retention.instant()) / 1_000_000_000
}

/// The time from the retention date to the last play, in the largest unit
/// of days, hours and minutes that it fills once; `0` where the retention
/// date is not before the last play.
pub open spec fn retention_text(last_played: Timestamp, retention: Timestamp) -> Seq<char> {
    let left = seconds_left(last_played, retention);
    if last_played.instant() <= retention.instant() {
        "0"@
    } else if left / 86_400 > 0 {
        counted(left / 86_400, "day"@)
    } else if left / 3_600 > 0 {
        counted(left / 3_600, "hour"@)
    } else {
        counted(left / 60, "minute"@)
    }
}

/// Where no time is left, the text is `0`.
pub proof fn lemma_nothing_left(last_played: Timestamp, retention: Timestamp)
    requires
        last_played.instant() <= retention.instant(),
    ensures
        retention_text(last_played, retention) == "0"@,
{
}

/// One unit is written in the singular, more than one in the plural.
pub proof fn lemma_singular_and_plural(units: int, unit: Seq<char>)
    ensures
        units == 1 ==> counted(units, unit) == "1 "@ + unit,
        units > 1 ==> counted(units, unit) == decimal(units as nat) + " "@ + unit + "s"@,
{
    reveal_strlit("1 ");
    reveal_strlit(" ");
    reveal_strlit("");
    reveal_strlit("s");
    reveal_strlit("1");
    if units == 1 {
        assert(decimal(1) =~= seq!['1']);
        assert(counted(units, unit) =~= "1 "@ + unit);
    }
}

/// The plural ending for a count of units.
pub fn suffix(units: i64) -> (ending: String)
    ensures
        ending@ == plural_suffix(units as int),
{
    if units > 1 {
        String::from_str("s")
    } else {
        String::from_str("")
    }
}

fn counted_text(units: u64, unit: &str) -> (text: String)
    requires
        units <= i64::MAX,
    ensures
        text@ == counted(units as int, unit@),
{
    let mut text: String = render_decimal(units);
    text.append(" ");
    text.append(unit);
    let ending: String = suffix(units as i64);
    text.append(ending.as_str());
    text
}

/// Says how far the last play lies after the retention date: that is how
/// long the entry still has to rest.
pub fn retention_str(last_played_dt: &Timestamp, retention_dt: &Timestamp) -> (text: String)
    ensures
        text@ == retention_text(*last_played_dt, *retention_dt),
{
    let last: i128 = last_played_dt.total_nanos();
    let limit: i128 = retention_dt.total_nanos();
    if last <= limit {
        String::from_str("0")
    } else {
        let left: i128 = (last - limit) / 1_000_000_000;
        assert(left == seconds_left(*last_played_dt, *retention_dt));
        let days: i128 = left / 86_400;
        if days > 0 {
            counted_text(days as u64, "day")
        } else {
            let hours: i128 = left / 3_600;
            if hours > 0 {
                counted_text(hours as u64, "hour")
            } else {
                let minutes: i128 = left / 60;
                counted_text(minutes as u64, "minute")
            }
        }
    }
}

} // verus!
