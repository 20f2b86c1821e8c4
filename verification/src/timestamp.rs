//! Instants of UTC, and the one text form in which they arrive.
//!
//! A timestamp is sixteen characters, `YYYYMMDDTHHMMSSZ`: four digits of
//! year, two each of month, day, hour, minute and second, with a `T` between
//! date and time and a `Z` at the end. Nothing else is read as a timestamp.

use vstd::prelude::*;
use vstd::string::*;
use crate::chrono_calls::{civil_seconds, on_calendar, utc_seconds, EARLIEST, LATEST};
use crate::units::{whole, SECOND_NANOS};

verus! {

/// Why a record could not be decoded.
#[derive(Clone, Copy, Debug, PartialEq, Eq, Structural)]
pub enum DecodeError {
    /// A date field is not a timestamp of the form `YYYYMMDDTHHMMSSZ`, or
    /// names a day or a time of day that does not exist.
    DateFormat,
}

/// A point of UTC, to the nanosecond.
///
/// Its view is the number of nanoseconds from 1970-01-01T00:00:00Z to it,
/// negative before 1970.
#[derive(Clone, Copy, Debug)]
pub struct Instant {
    seconds: i64,
    nanos: u32,
}

impl View for Instant {
    type V = int;

    closed spec fn view(&self) -> int {
        self.seconds * SECOND_NANOS + self.nanos
    }
}

impl Instant {
    #[verifier::type_invariant]
    spec fn in_range(self) -> bool {
        EARLIEST <= self.seconds <= LATEST && self.nanos < SECOND_NANOS
    }

    /// The instant `nanos` nanoseconds after the second `seconds`, counted
    /// from the start of 1970; `None` where the second is outside
    /// `EARLIEST..=LATEST` or `nanos` is a whole second or more.
    pub fn from_timestamp(seconds: i64, nanos: u32) -> (instant: Option<Instant>)
        ensures
            instant is Some <==> EARLIEST <= seconds <= LATEST && nanos < SECOND_NANOS,
            instant matches Some(t) ==> t@ == seconds * SECOND_NANOS + nanos,
    {
        if EARLIEST <= seconds && seconds <= LATEST && nanos < 1_000_000_000 {
            Some(Instant { seconds, nanos })
        } else {
            None
        }
    }

    /// The whole seconds from the start of 1970 to this instant, counted
    /// downwards: the second in which the instant lies.
    pub fn timestamp(&self) -> (seconds: i64)
        ensures
            seconds == self@ / (SECOND_NANOS as int),
            EARLIEST <= seconds <= LATEST,
    {
        proof {
            use_type_invariant(self);
        }
        self.seconds
    }

    /// The nanoseconds from the start of its second to this instant.
    pub fn subsec_nanos(&self) -> (nanos: u32)
        ensures
            nanos == self@ % (SECOND_NANOS as int),
    {
        proof {
            use_type_invariant(self);
        }
        self.nanos
    }

    /// The whole seconds from `earlier` to this instant, counted towards
    /// zero; negative where this one comes first.
    pub fn seconds_since(&self, earlier: &Instant) -> (span: i64)
        ensures
            span == whole(self@ - earlier@, SECOND_NANOS as int),
    {
        proof {
            use_type_invariant(self);
            use_type_invariant(earlier);
        }
        let seconds = self.seconds - earlier.seconds;
        if seconds < 0 && self.nanos > earlier.nanos {
            seconds + 1
        } else if seconds > 0 && self.nanos < earlier.nanos {
            seconds - 1
        } else {
            seconds
        }
    }

    /// Whether the two are the same instant.
    pub fn same(&self, other: &Instant) -> (same: bool)
        ensures
            same == (self@ == other@),
    {
        proof {
            use_type_invariant(self);
            use_type_invariant(other);
        }
        self.seconds == other.seconds && self.nanos == other.nanos
    }
}

/// Whether `c` is one of the ten digits.
pub open spec fn is_digit(c: char) -> bool {
    '0' <= c <= '9'
}

/// The number that the digit `c` stands for.
pub open spec fn digit_value(c: char) -> int {
    c as int - '0' as int
}

/// The number written by the two digits of `s` at `at`.
pub open spec fn two_digits(s: Seq<char>, at: int) -> int {
    digit_value(s[at]) * 10 + digit_value(s[at + 1])
}

/// The number written by the four digits of `s` at `at`.
pub open spec fn four_digits(s: Seq<char>, at: int) -> int {
    two_digits(s, at) * 100 + two_digits(s, at + 2)
}

/// Whether `s` has the shape `YYYYMMDDTHHMMSSZ`.
pub open spec fn well_formed(s: Seq<char>) -> bool {
    &&& s.len() == 16
    &&& forall|i: int| 0 <= i < 15 && i != 8 ==> is_digit(#[trigger] s[i])
    &&& s[8] == 'T'
    &&& s[15] == 'Z'
}

/// Whether `s` is a timestamp: it has the shape, and its numbers name a
/// second that exists.
pub open spec fn is_timestamp(s: Seq<char>) -> bool {
    &&& well_formed(s)
    &&& on_calendar(
        four_digits(s, 0),
        two_digits(s, 4),
        two_digits(s, 6),
        two_digits(s, 9),
        two_digits(s, 11),
        two_digits(s, 13),
    )
}

/// The second that the timestamp `s` names, counted from 1970.
pub open spec fn timestamp_seconds(s: Seq<char>) -> int {
    utc_seconds(
        four_digits(s, 0),
        two_digits(s, 4),
        two_digits(s, 6),
        two_digits(s, 9),
        two_digits(s, 11),
        two_digits(s, 13),
    )
}

/// The number of the digit at `at`, or `None` where no digit stands there.
fn digit_at(text: &str, at: usize) -> (value: Option<u32>)
    requires
        at < text@.len(),
    ensures
        value is Some <==> is_digit(text@[at as int]),
        value matches Some(v) ==> v == digit_value(text@[at as int]) && v <= 9,
{
    let c = text.get_char(at);
    if '0' <= c && c <= '9' {
        Some(c as u32 - '0' as u32)
    } else {
        None
    }
}

/// The number of the two digits at `at`, or `None` where one is no digit.
fn pair_at(text: &str, at: usize) -> (value: Option<u32>)
    requires
        at + 1 < text@.len(),
        at < usize::MAX,
    ensures
        value is Some <==> is_digit(text@[at as int]) && is_digit(text@[at + 1]),
        value matches Some(v) ==> v == two_digits(text@, at as int) && v <= 99,
{
    match digit_at(text, at) {
        Some(tens) => match digit_at(text, at + 1) {
            Some(ones) => Some(tens * 10 + ones),
            None => None,
        },
        None => None,
    }
}

/// Decodes a timestamp of the form `YYYYMMDDTHHMMSSZ`.
///
/// The result is the instant that the text names where the text is a
/// timestamp, and `DateFormat` for every other text.
pub fn deserialize(text: &str) -> (decoded: Result<Instant, DecodeError>)
    ensures
        decoded is Ok <==> is_timestamp(text@),
        decoded matches Ok(instant) ==> instant@ == timestamp_seconds(text@) * SECOND_NANOS,
        decoded matches Err(e) ==> e == DecodeError::DateFormat,
{
    if text.unicode_len() != 16 {
        return Err(DecodeError::DateFormat);
    }
    if text.get_char(8) != 'T' || text.get_char(15) != 'Z' {
        return Err(DecodeError::DateFormat);
    }
    let century = pair_at(text, 0);
    let year = pair_at(text, 2);
    let month = pair_at(text, 4);
    let day = pair_at(text, 6);
    let hour = pair_at(text, 9);
    let minute = pair_at(text, 11);
    let second = pair_at(text, 13);
    match (century, year, month, day, hour, minute, second) {
        (Some(c), Some(y), Some(mo), Some(d), Some(h), Some(mi), Some(s)) => {
            match civil_seconds((c * 100 + y) as i32, mo, d, h, mi, s) {
                Some(seconds) => Ok(Instant { seconds, nanos: 0 }),
                None => Err(DecodeError::DateFormat),
            }
        },
        _ => {
            Err(DecodeError::DateFormat)
        },
    }
}

} // verus!
