//! Decimal numerals as text.
//!
//! Numbers are written digit by digit into a `String`; the specification of
//! each writer is a sequence of characters.

use vstd::prelude::*;
use vstd::string::*;
use crate::units::{magnitude, magnitude_of};

verus! {

/// The character that stands for the digit `d`, for `0 <= d <= 9`.
pub open spec fn digit(d: int) -> char {
    ('0' as int + d) as char
}

/// The decimal numeral of `n`, without leading zeros.
pub open spec fn decimal(n: nat) -> Seq<char>
    decreases n,
{
    if n < 10 {
        seq![digit(n as int)]
    } else {
        decimal(n / 10).push(digit((n % 10) as int))
    }
}

/// The decimal numeral of `n`, padded with a zero to at least two digits.
pub open spec fn padded(n: nat) -> Seq<char> {
    if n < 10 {
        seq!['0', digit(n as int)]
    } else {
        decimal(n)
    }
}

/// The decimal numeral of `i`, with a minus sign in front of a negative number.
pub open spec fn integer(i: int) -> Seq<char> {
    if i < 0 {
        seq!['-'] + decimal(magnitude(i))
    } else {
        decimal(magnitude(i))
    }
}

/// The decimal numeral of `i` with its sign always written: `+` for zero and
/// above, `-` below.
pub open spec fn signed(i: int) -> Seq<char> {
    if i < 0 {
        seq!['-'] + decimal(magnitude(i))
    } else {
        seq!['+'] + decimal(magnitude(i))
    }
}

/// Whether `part` stands somewhere in `text`, unbroken.
pub open spec fn contains(text: Seq<char>, part: Seq<char>) -> bool {
    exists|at: int|
        0 <= at && at + part.len() <= text.len() && #[trigger] text.subrange(
            at,
            at + part.len(),
        ) == part
}

/// Whether `text` ends with `part`.
pub open spec fn ends_with(text: Seq<char>, part: Seq<char>) -> bool {
    part.len() <= text.len() && text.subrange(text.len() - part.len(), text.len() as int) == part
}

/// Whether `line` is a line of `text`: it stands at the start of `text` or
/// after a line break, a line break follows it, and it holds none.
pub open spec fn is_line(text: Seq<char>, line: Seq<char>) -> bool {
    exists|at: int|
        {
            &&& 0 <= at
            &&& at + line.len() < text.len()
            &&& #[trigger] text.subrange(at, at + line.len()) == line
            &&& text[at + line.len()] == '\n'
            &&& (at == 0 || text[at - 1] == '\n')
            &&& !line.contains('\n')
        }
}

/// One digit as a string slice.
fn digit_str(d: u8) -> (s: &'static str)
    requires
        d <= 9,
    ensures
        s@ == seq![digit(d as int)],
{
    proof {
        reveal_strlit("0");
        reveal_strlit("1");
        reveal_strlit("2");
        reveal_strlit("3");
        reveal_strlit("4");
        reveal_strlit("5");
        reveal_strlit("6");
        reveal_strlit("7");
        reveal_strlit("8");
        reveal_strlit("9");
    }
    match d {
        0 => "0",
        1 => "1",
        2 => "2",
        3 => "3",
        4 => "4",
        5 => "5",
        6 => "6",
        7 => "7",
        8 => "8",
        _ => "9",
    }
}

/// Appends the decimal numeral of `n` to `out`.
pub fn append_decimal(out: &mut String, n: u64)
    ensures
        final(out)@ == old(out)@ + decimal(n as nat),
    decreases n,
{
    if n >= 10 {
        append_decimal(out, n / 10);
    }
    out.append(digit_str((n % 10) as u8));
}

/// Appends the decimal numeral of `n`, padded with a zero to at least two
/// digits.
pub fn append_padded(out: &mut String, n: u64)
    ensures
        final(out)@ == old(out)@ + padded(n as nat),
{
    if n < 10 {
        out.append("0");
        out.append(digit_str(n as u8));
        proof {
            reveal_strlit("0");
        }
    } else {
        append_decimal(out, n);
    }
}

/// Appends the decimal numeral of `i`, with a minus sign in front of a
/// negative number.
pub fn append_integer(out: &mut String, i: i64)
    ensures
        final(out)@ == old(out)@ + integer(i as int),
{
    if i < 0 {
        out.append("-");
    }
    append_decimal(out, magnitude_of(i));
    proof {
        reveal_strlit("-");
    }
}

/// Appends the decimal numeral of `i` with its sign, `+` or `-`.
pub fn append_signed(out: &mut String, i: i64)
    ensures
        final(out)@ == old(out)@ + signed(i as int),
{
    if i < 0 {
        out.append("-");
    } else {
        out.append("+");
    }
    append_decimal(out, magnitude_of(i));
    proof {
        reveal_strlit("-");
        reveal_strlit("+");
    }
}

} // verus!
