//! The text-to-number collaborator and the failure it reports.

use vstd::prelude::*;

verus! {

#[verifier::external_type_specification]
#[verifier::external_body]
pub struct ExParseIntError(std::num::ParseIntError);

/// True when every character of `s` is an ASCII decimal digit.
pub open spec fn all_digits(s: Seq<char>) -> bool {
    forall|i: int| 0 <= i < s.len() ==> '0' <= #[trigger] s[i] <= '9'
}

/// The value of a string of decimal digits, most significant first.
pub open spec fn digits_value(s: Seq<char>) -> int
    decreases s.len(),
{
    if s.len() == 0 {
        0
    } else {
        digits_value(s.drop_last()) * 10 + (s.last() as int - '0' as int)
    }
}

/// The integer written by `s`: an optional `+` or `-` followed by one or more
/// decimal digits, and nothing else.
pub open spec fn int_literal(s: Seq<char>) -> Option<int> {
    if s.len() > 0 && (s[0] == '+' || s[0] == '-') {
        let rest = s.drop_first();
        if rest.len() > 0 && all_digits(rest) {
            if s[0] == '-' {
                Some(-digits_value(rest))
            } else {
                Some(digits_value(rest))
            }
        } else {
            None
        }
    } else if s.len() > 0 && all_digits(s) {
        Some(digits_value(s))
    } else {
        None
    }
}

/// The `i32` written by `s`, if it is an integer literal within range.
pub open spec fn i32_value(s: Seq<char>) -> Option<i32> {
    match int_literal(s) {
        Some(v) => if i32::MIN <= v <= i32::MAX {
            Some(v as i32)
        } else {
            None
        },
        None => None,
    }
}

/// Relies on `str::parse::<i32>` (that is `i32::from_str_radix(s, 10)`): it
/// accepts an optional sign followed by decimal digits only, and fails on an
/// empty string, on any other character and on a value outside `i32`.
#[verifier::external_body]
pub(crate) fn parse_i32(s: &str) -> (r: Result<i32, std::num::ParseIntError>)
    ensures
        r is Ok <==> i32_value(s@) is Some,
        r is Ok ==> r->Ok_0 == i32_value(s@)->0,
{
    s.parse::<i32>()
}

/// The `u64` written by `s`: digits with an optional `+`, within range.
pub open spec fn u64_value(s: Seq<char>) -> Option<u64> {
    match int_literal(s) {
        Some(v) => if s[0] != '-' && 0 <= v <= u64::MAX {
            Some(v as u64)
        } else {
            None
        },
        None => None,
    }
}

/// Relies on `<u64 as FromStr>::from_str` (that is `u64::from_str_radix(s, 10)`):
/// it accepts an optional `+` followed by decimal digits only, and fails on an
/// empty string, on any other character and on a value above `u64::MAX`.
#[verifier::external_body]
pub(crate) fn parse_u64(s: &str) -> (r: Result<u64, std::num::ParseIntError>)
    ensures
        r is Ok <==> u64_value(s@) is Some,
        r is Ok ==> r->Ok_0 == u64_value(s@)->0,
{
    <u64 as std::str::FromStr>::from_str(s)
}

/// The `u8` written by `s`: digits with an optional `+`, within range.
pub open spec fn u8_value(s: Seq<char>) -> Option<u8> {
    match int_literal(s) {
        Some(v) => if s[0] != '-' && 0 <= v <= u8::MAX {
            Some(v as u8)
        } else {
            None
        },
        None => None,
    }
}

/// Relies on `str::parse::<u8>` (that is `u8::from_str_radix(s, 10)`): it
/// accepts an optional `+` followed by decimal digits only, and fails on an
/// empty string, on any other character and on a value above `u8::MAX`.
#[verifier::external_body]
pub(crate) fn parse_u8(s: &str) -> (r: Result<u8, std::num::ParseIntError>)
    ensures
        r is Ok <==> u8_value(s@) is Some,
        r is Ok ==> r->Ok_0 == u8_value(s@)->0,
{
    s.parse::<u8>()
}

/// The failure of the text-to-number collaborator: the text that could not be
/// read as a number, std's own report of why, and that report rendered.
#[derive(Debug, PartialEq, Eq)]
pub struct MalformedInput {
    text: String,
    error: std::num::ParseIntError,
    message: String,
}

impl MalformedInput {
    /// Keeps the text that failed and the error std gave for it.
    pub fn new(text: &str, error: std::num::ParseIntError) -> (r: MalformedInput)
        ensures
            r.text_view() == text@,
            r.error_view() == error,
    {
        let message = error.to_string();
        MalformedInput { text: text.to_owned(), error, message }
    }

    /// The text that could not be read.
    pub closed spec fn text_view(&self) -> Seq<char> {
        self.text@
    }

    /// The error std reported for that text.
    pub closed spec fn error_view(&self) -> std::num::ParseIntError {
        self.error
    }

    pub fn text(&self) -> (r: &str)
        ensures
            r@ == self.text_view(),
    {
        self.text.as_str()
    }

    pub fn error(&self) -> (r: &std::num::ParseIntError)
        ensures
            *r == self.error_view(),
    {
        &self.error
    }

    /// The failure's own one-line message, as std renders the parse error.
    pub closed spec fn message_view(&self) -> Seq<char> {
        self.message@
    }

    pub fn message(&self) -> (r: String)
        ensures
            r@ == self.message_view(),
    {
        self.message.clone()
    }
}

/// Reads `s` as an `i32`; on failure the offending text is kept beside the
/// underlying error.
pub fn parse_number(s: &str) -> (r: Result<i32, MalformedInput>)
    ensures
        r is Ok <==> i32_value(s@) is Some,
        r is Ok ==> r->Ok_0 == i32_value(s@)->0,
        r is Err ==> r->Err_0.text_view() == s@,
{
    match parse_i32(s) {
        Ok(n) => Ok(n),
        Err(error) => Err(MalformedInput::new(s, error)),
    }
}

/// Reads `s` as a `u8`; on failure the offending text is kept beside the
/// underlying error.
pub fn parse_byte(s: &str) -> (r: Result<u8, MalformedInput>)
    ensures
        r is Ok <==> u8_value(s@) is Some,
        r is Ok ==> r->Ok_0 == u8_value(s@)->0,
        r is Err ==> r->Err_0.text_view() == s@,
{
    match parse_u8(s) {
        Ok(n) => Ok(n),
        Err(error) => Err(MalformedInput::new(s, error)),
    }
}

} // verus!
