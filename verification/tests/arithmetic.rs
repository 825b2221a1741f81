use dosio::arith::{combine_payloads, scale_payload};
use dosio::{Kind, IO};

#[test]
fn combine_applies_elementwise_on_same_kind() {
    let mut a: IO<Vec<u64>> = IO::filled(Kind::M1HPCmd, vec![1, 2, 3]);
    let b: IO<Vec<u64>> = IO::filled(Kind::M1HPCmd, vec![4, 5, 6]);
    let applied = combine_payloads(&mut a, &b, &|x: u64, y: u64| x.wrapping_add(y));
    assert!(applied);
    assert_eq!(a.data, Some(vec![5, 7, 9]));
    assert_eq!(a.kind_name(), "M1HPCmd");
}

#[test]
fn combine_mismatched_kind_leaves_left_operand_unchanged() {
    let mut a: IO<Vec<u64>> = IO::filled(Kind::M1HPCmd, vec![1, 2, 3]);
    let b: IO<Vec<u64>> = IO::filled(Kind::TTcmd, vec![4, 5, 6]);
    let applied = combine_payloads(&mut a, &b, &|x: u64, y: u64| x.wrapping_add(y));
    assert!(!applied);
    assert_eq!(a.data, Some(vec![1, 2, 3]));
    assert_eq!(a.kind_name(), "M1HPCmd");
}

#[test]
fn combine_absent_payload_is_a_reported_no_op() {
    let mut a: IO<Vec<u64>> = IO::filled(Kind::PZTF, vec![1]);
    let none: IO<Vec<u64>> = IO::empty(Kind::PZTF);
    assert!(!combine_payloads(&mut a, &none, &|x: u64, y: u64| x.wrapping_add(y)));
    assert_eq!(a.data, Some(vec![1]));

    let mut empty: IO<Vec<u64>> = IO::empty(Kind::PZTF);
    let b: IO<Vec<u64>> = IO::filled(Kind::PZTF, vec![1]);
    assert!(!combine_payloads(&mut empty, &b, &|x: u64, y: u64| x.wrapping_add(y)));
    assert_eq!(empty.data, None);
}

#[test]
fn combine_length_mismatch_is_a_reported_no_op() {
    let mut a: IO<Vec<u64>> = IO::filled(Kind::PZTFB, vec![1, 2]);
    let b: IO<Vec<u64>> = IO::filled(Kind::PZTFB, vec![1, 2, 3]);
    assert!(!combine_payloads(&mut a, &b, &|x: u64, y: u64| x.wrapping_add(y)));
    assert_eq!(a.data, Some(vec![1, 2]));
}

#[test]
fn combine_subtraction_pairs_by_position() {
    let mut a: IO<Vec<i64>> = IO::filled(Kind::TTFB, vec![10, 20, 30]);
    let b: IO<Vec<i64>> = IO::filled(Kind::TTFB, vec![1, 2, 3]);
    assert!(combine_payloads(&mut a, &b, &|x: i64, y: i64| x.wrapping_sub(y)));
    assert_eq!(a.data, Some(vec![9, 18, 27]));
}

#[test]
fn scale_rewrites_every_element() {
    let mut a: IO<Vec<u64>> = IO::filled(Kind::SrcWfeRms, vec![1, 2, 3]);
    assert!(scale_payload(&mut a, &|x: u64| x.wrapping_mul(2)));
    assert_eq!(a.data, Some(vec![2, 4, 6]));
}

#[test]
fn scale_absent_payload_is_a_reported_no_op() {
    let mut a: IO<Vec<u64>> = IO::empty(Kind::SrcWfeRms);
    assert!(!scale_payload(&mut a, &|x: u64| x.wrapping_mul(2)));
    assert_eq!(a.data, None);
    assert_eq!(a.kind_name(), "SrcWfeRms");
}
