use fallible::results::{
    and_then, double_first_boxed, double_first_marker, double_first_opt, multiply, try_multiply,
    wide_product, wrapping_errors,
};
use fallible::taxonomy::{DoubleError, EmptyVec, Failure};

#[test]
fn multiply_numbers() {
    assert_eq!(multiply("10", "2"), Ok(20));
    assert_eq!(try_multiply("10", "2"), Ok(20));
    assert_eq!(multiply("-7", "+6"), Ok(-42));
}

#[test]
fn multiply_reports_first_bad_text() {
    assert_eq!(multiply("t", "2").unwrap_err().text(), "t");
    assert_eq!(multiply("2", "t").unwrap_err().text(), "t");
    assert_eq!(try_multiply("x", "y").unwrap_err().text(), "x");
}

#[test]
fn multiply_extremes_do_not_overflow() {
    assert_eq!(wide_product(i32::MIN, i32::MIN), 4611686018427387904);
    assert_eq!(multiply("2147483647", "-2147483648"), Ok(-4611686016279904256));
}

#[test]
fn and_then_short_circuits() {
    let mut called = false;
    let r: Result<i32, &str> = and_then(Err("no"), |x: i32| {
        called = true;
        Ok(x + 1)
    });
    assert_eq!(r, Err("no"));
    assert!(!called);
    let r: Result<i32, &str> = and_then(Ok(4), |x: i32| Ok(x * 3));
    assert_eq!(r, Ok(12));
}

#[test]
fn double_first_empty_is_input_absent() {
    let empty: Vec<&str> = vec![];
    assert_eq!(wrapping_errors(&empty), Err(DoubleError::EmptyVec));
    assert_eq!(double_first_marker(&empty), Err(EmptyVec));
    assert_eq!(double_first_opt(&empty), Ok(None));
    let e = double_first_boxed(&empty).unwrap_err();
    assert_eq!(e.message(), "invalid first item to double");
    assert!(e.source().is_none());
}

#[test]
fn double_first_numbers() {
    let numbers = vec!["42", "93", "18"];
    assert_eq!(wrapping_errors(&numbers), Ok(84));
    assert_eq!(double_first_marker(&numbers), Ok(84));
    assert_eq!(double_first_opt(&numbers), Ok(Some(84)));
    assert_eq!(double_first_boxed(&numbers).unwrap(), 84);
}

#[test]
fn double_first_bad_text() {
    let strings = vec!["tofu", "93", "18"];
    match wrapping_errors(&strings) {
        Err(DoubleError::Parse(m)) => assert_eq!(m.text(), "tofu"),
        other => panic!("unexpected {:?}", other),
    }
    assert_eq!(double_first_marker(&strings), Err(EmptyVec));
    assert_eq!(double_first_opt(&strings).unwrap_err().text(), "tofu");
    let e = double_first_boxed(&strings).unwrap_err();
    assert_eq!(e.message(), "invalid digit found in string");
    let cause = e.source().unwrap();
    assert_eq!(cause.text(), "tofu");
    assert_eq!(cause.error(), &"tofu".parse::<i32>().unwrap_err());
    assert_eq!(cause.message(), "invalid digit found in string");
}

#[test]
fn double_first_large_value() {
    let v = vec!["2147483647"];
    assert_eq!(wrapping_errors(&v), Ok(4294967294));
    let v = vec!["-2147483648"];
    assert_eq!(wrapping_errors(&v), Ok(-4294967296));
}
