use fallible::parse::{parse_number, MalformedInput};
use fallible::taxonomy::{DoubleError, EmptyVec, Failure, OpaqueError};

fn bad(text: &str) -> MalformedInput {
    parse_number(text).unwrap_err()
}

#[test]
fn messages() {
    assert_eq!(EmptyVec.message(), "invalid first item to double");
    assert_eq!(DoubleError::EmptyVec.message(), "please use a vector with at least one element");
    assert_eq!(DoubleError::Parse(bad("x")).message(), "the provided string could not be parsed as int");
}

#[test]
fn sources() {
    assert!(EmptyVec.source().is_none());
    assert!(DoubleError::EmptyVec.source().is_none());
    let e = DoubleError::Parse(bad("abc"));
    assert_eq!(e.source().unwrap().text(), "abc");
    assert_eq!(e.into_source().unwrap(), bad("abc"));
}

#[test]
fn conversion_keeps_the_failure() {
    let e: DoubleError = bad("12a").into();
    assert_eq!(e, DoubleError::Parse(bad("12a")));
}

#[test]
fn erasure_keeps_message_and_source() {
    let original = DoubleError::Parse(bad("abc"));
    let message = original.message();
    let opaque = OpaqueError::from(original);
    assert_eq!(opaque.message(), message);
    assert_eq!(opaque.source().unwrap(), &bad("abc"));
    let opaque = OpaqueError::erase(EmptyVec);
    assert_eq!(opaque.message(), "invalid first item to double");
    assert!(opaque.into_source().is_none());
    let opaque: OpaqueError = DoubleError::EmptyVec.into();
    assert_eq!(opaque.message(), "please use a vector with at least one element");
    assert!(opaque.source().is_none());
}

#[test]
fn erasing_twice_changes_nothing() {
    let once = OpaqueError::from(DoubleError::Parse(bad("q")));
    let twice = OpaqueError::erase(OpaqueError::from(DoubleError::Parse(bad("q"))));
    assert_eq!(once, twice);
}

#[test]
fn erasing_a_parse_failure_keeps_it() {
    let m = bad("abc");
    let message = m.message();
    let opaque = OpaqueError::from(m);
    assert_eq!(opaque.message(), message);
    assert_eq!(opaque.message(), "invalid digit found in string");
    assert_eq!(opaque.source().unwrap(), &bad("abc"));
    assert!(opaque.source().unwrap().text() == "abc");
}
