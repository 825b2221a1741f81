use dosio::collection::{lookup, pop_these, pop_this, position_of_kind, swap_these, swap_this};
use dosio::{IOVec, Kind, IO};

fn sample() -> Vec<IO<Vec<f64>>> {
    vec![
        IO::filled(Kind::OSSAzEncoderAngle, vec![1.0]),
        IO::filled(Kind::OSSElEncoderAngle, vec![2.0]),
        IO::filled(Kind::OSSRotEncoderAngle, vec![3.0]),
    ]
}

#[test]
fn pop_these_missing_kind_leaves_collection_intact() {
    let mut v = sample();
    let tags: Vec<IO<()>> = vec![IO::empty(Kind::OSSAzEncoderAngle), IO::empty(Kind::Pssn)];
    let r = pop_these(&mut v, &tags);
    assert!(r.is_none());
    assert_eq!(v.len(), 3);
    assert_eq!(v[0].kind_name(), "OSSAzEncoderAngle");
    assert_eq!(v[0].data, Some(vec![1.0]));
    assert_eq!(v[1].kind_name(), "OSSElEncoderAngle");
    assert_eq!(v[2].kind_name(), "OSSRotEncoderAngle");
}

#[test]
fn pop_these_returns_in_tag_order_and_removes() {
    let mut v = sample();
    let tags: Vec<IO<()>> = vec![
        IO::empty(Kind::OSSRotEncoderAngle),
        IO::empty(Kind::OSSAzEncoderAngle),
    ];
    let r = pop_these(&mut v, &tags).expect("both kinds are present");
    assert_eq!(r.len(), 2);
    assert_eq!(r[0].kind_name(), "OSSRotEncoderAngle");
    assert_eq!(r[0].data, Some(vec![3.0]));
    assert_eq!(r[1].kind_name(), "OSSAzEncoderAngle");
    assert_eq!(r[1].data, Some(vec![1.0]));
    assert_eq!(v.len(), 1);
    assert_eq!(v[0].kind_name(), "OSSElEncoderAngle");
}

#[test]
fn pop_these_demands_one_entry_per_request() {
    let mut v = sample();
    let tags: Vec<IO<()>> = vec![
        IO::empty(Kind::OSSAzEncoderAngle),
        IO::empty(Kind::OSSAzEncoderAngle),
    ];
    let r = pop_these(&mut v, &tags);
    assert!(r.is_none());
    assert_eq!(v.len(), 3);
    assert_eq!(v[0].kind_name(), "OSSAzEncoderAngle");
}

#[test]
fn pop_these_empty_request_pops_nothing() {
    let mut v = sample();
    let r = pop_these(&mut v, &Vec::new()).expect("empty request always succeeds");
    assert!(r.is_empty());
    assert_eq!(v.len(), 3);
}

#[test]
fn pop_this_present_and_absent() {
    let mut v = sample();
    let got = pop_this(&mut v, &IO::empty(Kind::OSSElEncoderAngle)).expect("present");
    assert_eq!(got.data, Some(vec![2.0]));
    assert_eq!(v.len(), 2);
    assert!(pop_this(&mut v, &IO::empty(Kind::OSSElEncoderAngle)).is_none());
    assert_eq!(v.len(), 2);
}

#[test]
fn swap_these_replaces_present_skips_absent() {
    let mut v = sample();
    swap_these(
        &mut v,
        vec![
            IO::filled(Kind::OSSAzEncoderAngle, vec![10.0]),
            IO::filled(Kind::Pssn, vec![30.0]),
        ],
    );
    assert_eq!(v.len(), 3);
    assert_eq!(v[0].kind_name(), "OSSAzEncoderAngle");
    assert_eq!(v[0].data, Some(vec![10.0]));
    assert_eq!(v[1].data, Some(vec![2.0]));
    assert_eq!(v[2].data, Some(vec![3.0]));
    assert!(v.iter().all(|io| io.kind_name() != "Pssn"));
}

#[test]
fn swap_these_keeps_order_and_replaces_first_match_only() {
    let mut v = vec![
        IO::filled(Kind::TTcmd, vec![1.0]),
        IO::filled(Kind::TTcmd, vec![2.0]),
    ];
    swap_these(&mut v, vec![IO::filled(Kind::TTcmd, vec![9.0])]);
    assert_eq!(v[0].data, Some(vec![9.0]));
    assert_eq!(v[1].data, Some(vec![2.0]));
}

#[test]
fn swap_this_absent_kind_is_a_no_op() {
    let mut v = sample();
    swap_this(&mut v, IO::filled(Kind::SensorData, vec![5.0]));
    assert_eq!(v.len(), 3);
    assert_eq!(v[0].data, Some(vec![1.0]));
    assert_eq!(v[1].data, Some(vec![2.0]));
    assert_eq!(v[2].data, Some(vec![3.0]));
}

#[test]
fn lookup_finds_first_kind_equal_entry() {
    let v = sample();
    let tag: IO<usize> = IO::empty(Kind::OSSElEncoderAngle);
    let found = lookup(&v, &tag);
    assert_eq!(found.data, Some(vec![2.0]));
}

#[test]
fn position_of_kind_some_and_none() {
    let v = sample();
    assert_eq!(
        position_of_kind(&v, &IO::<()>::empty(Kind::OSSRotEncoderAngle)),
        Some(2)
    );
    assert_eq!(position_of_kind(&v, &IO::<()>::empty(Kind::M1HPLC)), None);
}

#[test]
fn iovec_trait_methods_mirror_the_free_functions() {
    let mut v = sample();
    let popped = v
        .pop_these(vec![IO::empty(Kind::OSSAzEncoderAngle)])
        .expect("present");
    assert_eq!(popped.len(), 1);
    assert_eq!(popped[0].data, Some(vec![1.0]));
    assert_eq!(v.len(), 2);

    v.swap_this(IO::filled(Kind::OSSElEncoderAngle, vec![20.0]));
    assert_eq!(v[0].data, Some(vec![20.0]));

    let one = v.pop_this(IO::empty(Kind::OSSRotEncoderAngle)).expect("present");
    assert_eq!(one.data, Some(vec![3.0]));
    assert_eq!(v.len(), 1);

    v.swap_these(vec![IO::filled(Kind::M1CGFM, vec![0.0])]);
    assert_eq!(v.len(), 1);
    assert_eq!(v[0].data, Some(vec![20.0]));
}
