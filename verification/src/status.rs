//! Status codes as text: three decimal digits, the first of them not zero.

use vstd::prelude::*;

verus! {

/// The value of a decimal digit.
pub open spec fn digit_value(c: char) -> int {
    c as u32 as int - 48
}

/// A decimal digit.
pub open spec fn is_digit(c: char) -> bool {
    0 <= digit_value(c) <= 9
}

/// The status code that a text denotes: exactly three decimal digits, the
/// first not zero, read as a number from 100 to 999.
pub open spec fn status_of(text: Seq<char>) -> Option<u16> {
    if text.len() == 3 && is_digit(text[0]) && digit_value(text[0]) != 0 && is_digit(text[1])
        && is_digit(text[2]) {
        Some((digit_value(text[0]) * 100 + digit_value(text[1]) * 10 + digit_value(text[2])) as u16)
    } else {
        None
    }
}

/// `StatusCode::from_str` followed by `StatusCode::as_u16`: a text is
/// accepted exactly when it is three ASCII digits of which the first is not
/// `0`, and the code is then their decimal value.
#[verifier::external_body]
pub(crate) fn parse_status(text: &str) -> (code: Option<u16>)
    ensures
        code == status_of(text@),
{
    match text.parse::<actix_http::StatusCode>() {
        Ok(status) => Some(status.as_u16()),
        Err(_) => None,
    }
}

/// Reads a status code from text.
pub fn status_from_text(text: &str) -> (code: Option<u16>)
    ensures
        code == status_of(text@),
        code matches Some(n) ==> 100 <= n <= 999,
{
    parse_status(text)
}

} // verus!
