use fallible::collect::{collect_all, filter_successes, parse_all, parse_partition, parse_successes, partition};
use fallible::taxonomy::DoubleError;
use std::num::IntErrorKind;

#[test]
fn fail_fast_all_numbers() {
    let strs = vec!["42", "93", "18"];
    assert_eq!(parse_all(&strs), Ok(vec![42, 93, 18]));
}

#[test]
fn fail_fast_first_is_bad() {
    let strs = vec!["abc", "93", "18"];
    match parse_all(&strs) {
        Err(DoubleError::Parse(m)) => {
            assert_eq!(m.text(), "abc");
            assert_eq!(m.error().kind(), &IntErrorKind::InvalidDigit);
        }
        other => panic!("unexpected {:?}", other),
    }
}

#[test]
fn fail_fast_reports_first_failure_not_later() {
    let strs = vec!["1", "x", "99999999999", "y"];
    match parse_all(&strs) {
        Err(DoubleError::Parse(m)) => assert_eq!(m.text(), "x"),
        other => panic!("unexpected {:?}", other),
    }
}

#[test]
fn fail_fast_empty_input_is_ok() {
    let strs: Vec<&str> = vec![];
    assert_eq!(parse_all(&strs), Ok(vec![]));
}

#[test]
fn partition_scenario() {
    let strs = vec!["42", "abc", "18"];
    let (good, bad) = parse_partition(&strs);
    assert_eq!(good, vec![42, 18]);
    assert_eq!(bad.len(), 1);
    match &bad[0] {
        DoubleError::Parse(m) => assert_eq!(m.text(), "abc"),
        other => panic!("unexpected {:?}", other),
    }
}

#[test]
fn partition_keeps_counts_and_order() {
    let strs = vec!["42", "tofu", "93", "2147483648", "18", ""];
    let (good, bad) = parse_partition(&strs);
    assert_eq!(good, vec![42, 93, 18]);
    assert_eq!(good.len() + bad.len(), strs.len());
    let texts: Vec<String> = bad
        .into_iter()
        .map(|e| match e {
            DoubleError::Parse(m) => m.text().to_string(),
            DoubleError::EmptyVec => String::new(),
        })
        .collect();
    assert_eq!(texts, vec!["tofu", "2147483648", ""]);
}

#[test]
fn successes_drop_failures() {
    let strs = vec!["tofu", "93", "18"];
    assert_eq!(parse_successes(&strs), vec![93, 18]);
}

#[test]
fn generic_collect_all() {
    let items: Vec<Result<u8, &str>> = vec![Ok(1), Ok(2), Ok(3)];
    assert_eq!(collect_all(items), Ok(vec![1, 2, 3]));
    let items: Vec<Result<u8, &str>> = vec![Ok(1), Err("first"), Ok(3), Err("second")];
    assert_eq!(collect_all(items), Err("first"));
}

#[test]
fn generic_filter_and_partition() {
    let items: Vec<Result<u8, &str>> = vec![Err("a"), Ok(1), Err("b"), Ok(2)];
    let (good, bad) = partition(items.clone());
    assert_eq!(good, vec![1, 2]);
    assert_eq!(bad, vec!["a", "b"]);
    assert_eq!(filter_successes(items), vec![1, 2]);
}

#[test]
fn generic_partition_rebuilds_mask() {
    let items: Vec<Result<u8, char>> = vec![Ok(7), Err('x'), Err('y'), Ok(8), Ok(9)];
    let mask: Vec<bool> = items.iter().map(|r| r.is_ok()).collect();
    let (good, bad) = partition(items.clone());
    let (mut g, mut b) = (good.into_iter(), bad.into_iter());
    let rebuilt: Vec<Result<u8, char>> = mask
        .iter()
        .map(|&ok| if ok { Ok(g.next().unwrap()) } else { Err(b.next().unwrap()) })
        .collect();
    assert_eq!(rebuilt, items);
}

#[test]
fn partition_reads_bytes() {
    let strs = vec!["42", "tofu", "93", "999", "18"];
    let (numbers, errors) = parse_partition(&strs);
    assert_eq!(numbers, vec![42u8, 93, 18]);
    assert_eq!(errors.len(), 2);
    match (&errors[0], &errors[1]) {
        (DoubleError::Parse(a), DoubleError::Parse(b)) => {
            assert_eq!(a.error().kind(), &IntErrorKind::InvalidDigit);
            assert_eq!(b.error().kind(), &IntErrorKind::PosOverflow);
            assert_eq!(b.text(), "999");
        }
        other => panic!("unexpected {:?}", other),
    }
}
