//! HTTP status codes and how they are written.

use vstd::prelude::*;

verus! {

/// Whether `code` is in the range of HTTP status codes, 100 to 999.
pub open spec fn is_status(code: u16) -> bool {
    100 <= code <= 999
}

/// The digit `0` to `9` as a character.
pub open spec fn digit_char(digit: int) -> char {
    if digit == 0 {
        '0'
    } else if digit == 1 {
        '1'
    } else if digit == 2 {
        '2'
    } else if digit == 3 {
        '3'
    } else if digit == 4 {
        '4'
    } else if digit == 5 {
        '5'
    } else if digit == 6 {
        '6'
    } else if digit == 7 {
        '7'
    } else if digit == 8 {
        '8'
    } else {
        '9'
    }
}

/// The three decimal digits of a status code.
pub open spec fn status_digits(code: u16) -> Seq<char> {
    seq![digit_char(code as int / 100), digit_char(code as int / 10 % 10), digit_char(code as int % 10)]
}

/// `StatusCode::as_str` of the `http` crate, on the status code with the
/// number `code`: its three decimal digits.
#[verifier::external_body]
pub(crate) fn status_text(code: u16) -> (text: String)
    requires
        is_status(code),
    ensures
        text@ == status_digits(code),
{
    match axum::http::StatusCode::from_u16(code) {
        Ok(status) => status.as_str().to_string(),
        Err(_) => String::new(),
    }
}

} // verus!
