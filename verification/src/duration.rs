//! A span of time as a short text.
//!
//! A span of a day or more is written by its days, hours and minutes, as in
//! `D+1 01:03`; a shorter one by its hours, minutes and seconds, as in
//! `T-00:00:05`. Whole units are counted towards zero, so a span of minus
//! twenty-five hours has minus one whole day, not minus two.

use vstd::prelude::*;
use vstd::string::*;
use crate::text::{append_padded, append_signed, padded, signed};
use crate::units::{left_over, magnitude, magnitude_of, whole, whole_days, DAY, HOUR, MINUTE};

verus! {

/// The text of a span of `seconds` seconds.
///
/// The sign of the first form is that of the whole days, the sign of the
/// second that of the seconds themselves; the other numbers are magnitudes.
pub open spec fn duration_text(seconds: int) -> Seq<char> {
    let days = whole(seconds, DAY as int);
    let hours = whole(seconds, HOUR as int);
    let minutes = whole(seconds, MINUTE as int);
    if days != 0 {
        "D"@ + signed(days) + " "@ + padded(magnitude(left_over(hours, 24))) + ":"@ + padded(
            magnitude(left_over(minutes, 60)),
        )
    } else {
        "T"@ + (if seconds < 0 {
            "-"@
        } else {
            "+"@
        }) + padded(magnitude(hours)) + ":"@ + padded(magnitude(left_over(minutes, 60))) + ":"@
            + padded(magnitude(left_over(seconds, 60)))
    }
}

/// Writes a span of `seconds` seconds: `D<days> <HH>:<MM>` with the days
/// signed where the span has a whole day, `T<sign><HH>:<MM>:<SS>` where it
/// has none.
pub fn duration_display(seconds: i64) -> (text: String)
    ensures
        text@ == duration_text(seconds as int),
{
    let days = whole_days(seconds);
    let size = magnitude_of(seconds);
    let hours = size / HOUR;
    let minutes = size / MINUTE;
    let mut text = String::new();
    if days != 0 {
        text.append("D");
        append_signed(&mut text, days);
        text.append(" ");
        append_padded(&mut text, hours % 24);
        text.append(":");
        append_padded(&mut text, minutes % 60);
    } else {
        text.append("T");
        if seconds < 0 {
            text.append("-");
        } else {
            text.append("+");
        }
        append_padded(&mut text, hours);
        text.append(":");
        append_padded(&mut text, minutes % 60);
        text.append(":");
        append_padded(&mut text, size % 60);
    }
    text
}

} // verus!
