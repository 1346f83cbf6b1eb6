//! The success/failure container: sequencing dependent steps, and the
//! several ways of carrying a failure out of a computation.

use crate::parse::{i32_value, parse_number, MalformedInput};
use crate::taxonomy::{DoubleError, EmptyVec, Failure, OpaqueError};
use vstd::prelude::*;

verus! {

/// Runs the dependent step `f` on a success; a failure passes through and
/// `f` is not called.
pub fn and_then<T, U, E, F: FnOnce(T) -> Result<U, E>>(r: Result<T, E>, f: F) -> (out: Result<U, E>)
    requires
        r is Ok ==> f.requires((r->Ok_0,)),
    ensures
        r is Ok ==> f.ensures((r->Ok_0,), out),
        r is Err ==> out == Err::<U, E>(r->Err_0),
{
    match r {
        Ok(v) => f(v),
        Err(e) => Err(e),
    }
}

/// The product of two `i32`, which always fits an `i64`.
pub fn wide_product(x: i32, y: i32) -> (p: i64)
    ensures
        p == x as int * y as int,
{
    proof {
        assert(-0x4000_0000_0000_0000 <= x as int * y as int <= 0x4000_0000_0000_0000) by (nonlinear_arith)
            requires
                i32::MIN <= x <= i32::MAX,
                i32::MIN <= y <= i32::MAX,
        ;
    }
    x as i64 * y as i64
}

/// A result whose failure is always a collaborator failure.
pub type AliasedResult<T> = Result<T, MalformedInput>;

/// The outcome of multiplying two numbers given as text.
pub type Product = AliasedResult<i64>;

/// The product of the numbers that `a` and `b` write, or the text of the
/// first of them that is not an `i32`.
pub open spec fn product_of(a: Seq<char>, b: Seq<char>) -> Result<int, Seq<char>> {
    match i32_value(a) {
        None => Err(a),
        Some(x) => match i32_value(b) {
            None => Err(b),
            Some(y) => Ok(x * y),
        },
    }
}

/// `r` is the outcome that `product_of(a, b)` describes.
pub open spec fn is_product(r: AliasedResult<i64>, a: Seq<char>, b: Seq<char>) -> bool {
    match r {
        Ok(v) => product_of(a, b) == Ok::<int, Seq<char>>(v as int),
        Err(m) => product_of(a, b) == Err::<int, Seq<char>>(m.text_view()),
    }
}

/// Once `a` has been read as `x`, `r` is the product's outcome.
pub open spec fn after_first_read(r: AliasedResult<i64>, a: &str, b: &str, x: i32) -> bool {
    i32_value(a@) == Some(x) ==> is_product(r, a@, b@)
}

/// Multiplies two numbers given as text, sequencing the two reads with
/// combinators.
pub fn multiply(a: &str, b: &str) -> (r: AliasedResult<i64>)
    ensures
        is_product(r, a@, b@),
{
    let then_b = |x: i32| -> (r: Product)
        ensures
            after_first_read(r, a, b, x),
        { parse_number(b).map(|y: i32| -> (p: i64)
            ensures
                p == x as int * y as int,
            { wide_product(x, y) }) };
    and_then(parse_number(a), then_b)
}

/// Multiplies two numbers given as text, leaving at the first failed read.
pub fn try_multiply(a: &str, b: &str) -> (r: AliasedResult<i64>)
    ensures
        is_product(r, a@, b@),
{
    let x = parse_number(a)?;
    let y = parse_number(b)?;
    Ok(wide_product(x, y))
}

/// The first of `strs` doubled: absent when there is none; otherwise twice
/// its value, or its text when it is not an `i32`.
pub open spec fn first_doubled(strs: Seq<&str>) -> Option<Result<int, Seq<char>>> {
    if strs.len() == 0 {
        None
    } else {
        match i32_value(strs[0]@) {
            Some(v) => Some(Ok(2 * v)),
            None => Some(Err(strs[0]@)),
        }
    }
}

/// Twice `x`, which always fits an `i64`.
fn twice(x: i32) -> (r: i64)
    ensures
        r == 2 * x,
{
    2 * (x as i64)
}

/// Doubles the first string's number. An empty input is not a failure here:
/// the optional result is pulled out of the outcome.
pub fn double_first_opt(vec: &Vec<&str>) -> (r: Result<Option<i64>, MalformedInput>)
    ensures
        match first_doubled(vec@) {
            None => r == Ok::<Option<i64>, MalformedInput>(None),
            Some(Ok(v)) => r is Ok && r->Ok_0 is Some && r->Ok_0->0 == v,
            Some(Err(t)) => r is Err && r->Err_0.text_view() == t,
        },
{
    if vec.len() == 0 {
        return Ok(None);
    }
    match parse_number(vec[0]) {
        Ok(n) => Ok(Some(twice(n))),
        Err(e) => Err(e),
    }
}

/// Doubles the first string's number; any failure is the one marker error.
pub fn double_first_marker(vec: &Vec<&str>) -> (r: Result<i64, EmptyVec>)
    ensures
        match first_doubled(vec@) {
            Some(Ok(v)) => r == Ok::<i64, EmptyVec>(v as i64),
            _ => r == Err::<i64, EmptyVec>(EmptyVec),
        },
{
    let first = if vec.len() == 0 {
        None
    } else {
        Some(vec[0])
    };
    match first.ok_or(EmptyVec) {
        Ok(s) => match parse_number(s) {
            Ok(n) => Ok(twice(n)),
            Err(_) => Err(EmptyVec),
        },
        Err(e) => Err(e),
    }
}

/// Doubles the first string's number; the two causes of failure are told
/// apart, and a failed read keeps the collaborator's failure.
pub fn wrapping_errors(vec: &Vec<&str>) -> (r: Result<i64, DoubleError>)
    ensures
        match first_doubled(vec@) {
            None => r == Err::<i64, DoubleError>(DoubleError::EmptyVec),
            Some(Ok(v)) => r == Ok::<i64, DoubleError>(v as i64),
            Some(Err(t)) => r is Err && r->Err_0 is Parse && r->Err_0->Parse_0.text_view() == t,
        },
{
    if vec.len() == 0 {
        return Err(DoubleError::EmptyVec);
    }
    let n = match parse_number(vec[0]) {
        Ok(n) => n,
        Err(e) => {
            return Err(DoubleError::from(e));
        },
    };
    Ok(twice(n))
}

/// Doubles the first string's number behind a boundary that erases the
/// failure's shape: an empty input gives the marker error's message; a failed
/// read gives the collaborator's failure itself, with its own message and
/// itself as the link to follow.
pub fn double_first_boxed(vec: &Vec<&str>) -> (r: Result<i64, OpaqueError>)
    ensures
        match first_doubled(vec@) {
            None => r is Err && r->Err_0.message_view() == EmptyVec.message_view()
                && r->Err_0.cause_view() is None,
            Some(Ok(v)) => r is Ok && r->Ok_0 == v,
            Some(Err(t)) => r is Err && r->Err_0.cause_view() is Some
                && r->Err_0.message_view() == r->Err_0.cause_view()->0.message_view()
                && r->Err_0.cause_view()->0.text_view() == t,
        },
{
    if vec.len() == 0 {
        return Err(OpaqueError::from(EmptyVec));
    }
    match parse_number(vec[0]) {
        Ok(n) => Ok(twice(n)),
        Err(e) => Err(OpaqueError::from(e)),
    }
}

} // verus!
