//! Decimal numerals as read by `u64`'s `FromStr`.
use vstd::prelude::*;

verus! {

#[verifier::external_type_specification]
#[verifier::external_body]
pub struct ExParseIntError(std::num::ParseIntError);

/// An ASCII decimal digit.
pub open spec fn is_decimal_digit(c: char) -> bool {
    '0' <= c && c <= '9'
}

/// The numeric value of an ASCII decimal digit.
pub open spec fn digit_value(c: char) -> nat {
    (c as int - '0' as int) as nat
}

/// Every character of `s` is an ASCII decimal digit.
pub open spec fn all_decimal_digits(s: Seq<char>) -> bool {
    forall|i: int| 0 <= i < s.len() ==> is_decimal_digit(#[trigger] s[i])
}

/// The value of the decimal numeral `s` (most significant digit first).
pub open spec fn decimal_value(s: Seq<char>) -> nat
    decreases s.len(),
{
    if s.len() == 0 {
        0
    } else {
        decimal_value(s.drop_last()) * 10 + digit_value(s.last())
    }
}

/// The digits of an unsigned numeral: `s` without one optional leading `+`.
pub open spec fn unsigned_digits(s: Seq<char>) -> Seq<char> {
    if s.len() > 0 && s[0] == '+' {
        s.drop_first()
    } else {
        s
    }
}

/// The `u64` that `s` denotes: an optional `+` followed by one or more ASCII
/// digits whose value fits in a `u64`; `None` for any other string.
pub open spec fn spec_parse_u64(s: Seq<char>) -> Option<u64> {
    let d = unsigned_digits(s);
    if d.len() > 0 && all_decimal_digits(d) && decimal_value(d) <= u64::MAX {
        Some(decimal_value(d) as u64)
    } else {
        None
    }
}

/// The kind of a failed integer parse, as `std::num::IntErrorKind` reports it.
#[derive(Clone, Copy, Debug, Eq, PartialEq, Structural)]
pub enum ParseIntErrorKind {
    /// The string was empty.
    Empty,
    /// The string held a character that is not a digit in its place.
    InvalidDigit,
    /// The value was too large for the integer type.
    PosOverflow,
    /// The value was too small for the integer type.
    NegOverflow,
    /// The value was zero where zero is not allowed.
    Zero,
    /// A kind that `IntErrorKind` gained after these were listed.
    Unknown,
}

/// The kind of error that `<u64 as FromStr>::from_str` reports for `s`.
pub uninterp spec fn u64_error_kind(s: Seq<char>) -> ParseIntErrorKind;

/// The error that `<u64 as FromStr>::from_str` returns for `s`, where it
/// fails. The error holds nothing but its kind, which depends on `s` alone.
pub uninterp spec fn u64_parse_error(s: Seq<char>) -> std::num::ParseIntError;

/// `s` is a well-formed unsigned numeral whose value exceeds `u64::MAX`.
pub open spec fn too_large_for_u64(s: Seq<char>) -> bool {
    let d = unsigned_digits(s);
    d.len() > 0 && all_decimal_digits(d) && decimal_value(d) > u64::MAX
}

/// `s` has a character that is not a digit where digits belong, and is too
/// short (at most 19 digit places) for any value it could hold to exceed
/// `u64::MAX`.
pub open spec fn short_with_invalid_digit(s: Seq<char>) -> bool {
    let d = unsigned_digits(s);
    !all_decimal_digits(d) && d.len() <= 19
}

/// Reads `s` with `<u64 as core::str::FromStr>::from_str`, and on failure
/// also reports the error's `kind()`.
///
/// Its documentation (through `u64::from_str_radix` with radix 10) says that
/// the string must be an optional `+` sign followed by only the digits `0`-`9`,
/// and that an empty string, any other character, or a value above
/// `u64::MAX` is an error: `Ok(v)` precisely when [`spec_parse_u64`] gives
/// `Some(v)`. The error itself is named by [`u64_parse_error`] and its kind
/// by [`u64_error_kind`], both functions of `s` alone; of the kind the
/// contract states what `IntErrorKind`'s documentation gives: `Empty` exactly for the empty string, `InvalidDigit` for a lone `+`
/// and for an invalid character where no value could overflow, and
/// `PosOverflow` for a value too large. Which kind a long string with both an
/// invalid character and an overflowing value gives is left unsaid.
#[verifier::external_body]
pub(crate) fn parse_u64(s: &str) -> (r: Result<u64, (std::num::ParseIntError, ParseIntErrorKind)>)
    ensures
        r is Ok <==> spec_parse_u64(s@) is Some,
        r matches Ok(v) ==> spec_parse_u64(s@) == Some(v),
        r matches Err((e, _)) ==> e == u64_parse_error(s@),
        r matches Err((_, kind)) ==> kind == u64_error_kind(s@),
        r matches Err((_, kind)) ==> (kind == ParseIntErrorKind::Empty <==> s@.len() == 0),
        r matches Err((_, kind)) ==> (s@ == seq!['+'] ==> kind == ParseIntErrorKind::InvalidDigit),
        r matches Err((_, kind)) ==> (short_with_invalid_digit(s@) ==> kind
            == ParseIntErrorKind::InvalidDigit),
        r matches Err((_, kind)) ==> (too_large_for_u64(s@) ==> kind
            == ParseIntErrorKind::PosOverflow),
{
    match s.parse::<u64>() {
        Ok(v) => Ok(v),
        Err(e) => {
            let kind = match e.kind() {
                std::num::IntErrorKind::Empty => ParseIntErrorKind::Empty,
                std::num::IntErrorKind::InvalidDigit => ParseIntErrorKind::InvalidDigit,
                std::num::IntErrorKind::PosOverflow => ParseIntErrorKind::PosOverflow,
                std::num::IntErrorKind::NegOverflow => ParseIntErrorKind::NegOverflow,
                std::num::IntErrorKind::Zero => ParseIntErrorKind::Zero,
                _ => ParseIntErrorKind::Unknown,
            };
            Err((e, kind))
        },
    }
}

} // verus!
