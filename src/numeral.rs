//! Decimal numerals, as written on a command line.
use vstd::prelude::*;

verus! {

/// Whether `c` is one of the ASCII digits `0` to `9`.
pub open spec fn is_digit(c: char) -> bool {
    '0' <= c && c <= '9'
}

/// A non-empty run of ASCII digits.
pub open spec fn is_digit_run(s: Seq<char>) -> bool {
    s.len() > 0 && forall|i: int| 0 <= i < s.len() ==> #[trigger] is_digit(s[i])
}

/// The value of a run of digits, most significant first.
pub open spec fn digits_value(s: Seq<char>) -> nat
    decreases s.len(),
{
    if s.len() == 0 {
        0
    } else {
        digits_value(s.drop_last()) * 10 + (s.last() as nat - '0' as nat) as nat
    }
}

/// The number an unsigned numeral denotes: an optional `+` and then digits.
pub open spec fn unsigned_numeral(s: Seq<char>) -> Option<int> {
    if s.len() > 0 && s[0] == '+' && is_digit_run(s.drop_first()) {
        Some(digits_value(s.drop_first()) as int)
    } else if is_digit_run(s) {
        Some(digits_value(s) as int)
    } else {
        None
    }
}

/// The number a signed numeral denotes: an optional `+` or `-` and then digits.
pub open spec fn signed_numeral(s: Seq<char>) -> Option<int> {
    if s.len() > 0 && s[0] == '-' && is_digit_run(s.drop_first()) {
        Some(-(digits_value(s.drop_first()) as int))
    } else {
        unsigned_numeral(s)
    }
}

/// What reading `s` as a `u16` gives: its value where it is a numeral in range.
pub open spec fn u16_of(s: Seq<char>) -> Option<u16> {
    match unsigned_numeral(s) {
        Some(n) => if n <= u16::MAX {
            Some(n as u16)
        } else {
            None
        },
        None => None,
    }
}

/// What reading `s` as an `i32` gives: its value where it is a numeral in range.
pub open spec fn i32_of(s: Seq<char>) -> Option<i32> {
    match signed_numeral(s) {
        Some(n) => if i32::MIN <= n <= i32::MAX {
            Some(n as i32)
        } else {
            None
        },
        None => None,
    }
}

/// Relies on `<u16 as FromStr>::from_str`, which accepts exactly an optional
/// `+` followed by decimal digits whose value fits in a `u16`.
#[verifier::external_body]
pub(crate) fn parse_u16(s: &str) -> (r: Option<u16>)
    ensures
        r == u16_of(s@),
{
    s.parse::<u16>().ok()
}

/// Relies on `<i32 as FromStr>::from_str`, which accepts exactly an optional
/// `+` or `-` followed by decimal digits whose value fits in an `i32`.
#[verifier::external_body]
pub(crate) fn parse_i32(s: &str) -> (r: Option<i32>)
    ensures
        r == i32_of(s@),
{
    s.parse::<i32>().ok()
}

} // verus!
