use dosio::io::{kind_equal, pull_next, retag, with_payload, Stream};
use dosio::{IOError, Kind, IO};

#[test]
fn kind_equal_ignores_payload() {
    let bare: IO<()> = IO::empty(Kind::Pssn);
    let filled: IO<Vec<f64>> = IO::filled(Kind::Pssn, vec![1.0, 2.0]);
    assert!(kind_equal(&bare, &filled));
    assert!(kind_equal(&filled, &bare));
}

#[test]
fn kind_equal_same_kind_different_payload_types() {
    let a: IO<usize> = IO::filled(Kind::MountCmd, 3);
    let b: IO<Vec<f64>> = IO::filled(Kind::MountCmd, vec![0.5]);
    assert!(kind_equal(&a, &b));
}

#[test]
fn kind_equal_distinct_kinds_false() {
    let a: IO<usize> = IO::filled(Kind::TTcmd, 1);
    let b: IO<usize> = IO::filled(Kind::Pssn, 1);
    assert!(!kind_equal(&a, &b));
    let c: IO<()> = IO::empty(Kind::TTcmd);
    let d: IO<Vec<f64>> = IO::empty(Kind::PZTF);
    assert!(!kind_equal(&c, &d));
}

#[test]
fn retag_preserves_kind_and_clears_payload() {
    let x: IO<usize> = IO::filled(Kind::M1HPCmd, 42);
    let r: IO<Vec<f64>> = retag(&x);
    assert_eq!(r.kind_name(), x.kind_name());
    assert_eq!(r.kind_name(), "M1HPCmd");
    assert!(r.data.is_none());
}

#[test]
fn assign_overwrites_any_prior_payload() {
    let mut io: IO<usize> = IO::empty(Kind::MountCmd);
    io.assign(7);
    assert_eq!(io.data, Some(7));
    io.assign(9);
    assert_eq!(io.data, Some(9));
    assert_eq!(io.kind_name(), "MountCmd");
}

#[test]
fn with_payload_takes_kind_from_tag() {
    let tag: IO<()> = IO::empty(Kind::SensorData);
    let io: IO<Vec<f64>> = with_payload(&tag, Some(vec![1.0, 2.0]));
    assert_eq!(io.kind_name(), "SensorData");
    assert_eq!(io.data, Some(vec![1.0, 2.0]));
    let none: IO<usize> = with_payload(&tag, None);
    assert!(none.data.is_none());
}

#[test]
fn extract_payload_returns_data() {
    let io: IO<usize> = IO::filled(Kind::TTSP, 11);
    assert_eq!(io.extract_payload(), Some(11));
    let io: IO<usize> = IO::empty(Kind::TTSP);
    assert_eq!(io.extract_payload(), None);
}

#[test]
fn payload_ref_and_cloned() {
    let io: IO<Vec<f64>> = IO::filled(Kind::SrcWfeRms, vec![3.0]);
    assert_eq!(io.payload_ref(), Some(&vec![3.0]));
    assert_eq!(io.payload_cloned(), Some(vec![3.0]));
    let empty: IO<Vec<f64>> = IO::empty(Kind::SrcWfeRms);
    assert_eq!(empty.payload_ref(), None);
    assert_eq!(empty.payload_cloned(), None);
}

#[test]
fn into_result_ok_on_filled() {
    let io: IO<usize> = IO::filled(Kind::HPFcmd, 5);
    match io.into_result() {
        Ok(v) => assert_eq!(v, 5),
        Err(_) => panic!("filled signal must convert to Ok"),
    }
}

#[test]
fn into_result_err_names_the_missing_kind() {
    let io: IO<usize> = IO::empty(Kind::HPFcmd);
    match io.into_result() {
        Ok(_) => panic!("empty signal must convert to Err"),
        Err(IOError::Missing(m)) => {
            assert_eq!(m.kind_name(), "HPFcmd");
            assert!(m.data.is_none());
        }
    }
}

#[test]
fn kind_name_matches_catalog_text() {
    let io: IO<()> = IO::empty(Kind::OSSAzDriveTorque);
    assert_eq!(io.kind_name(), "OSSAzDriveTorque");
    assert_eq!(Kind::OSSHarpointDeltaF.name(), "OSSHarpointDeltaF");
}

#[test]
fn stream_pulls_in_order_then_exhausts() {
    let s = Stream::from_vec(vec![10u32, 20, 30]);
    let mut io: IO<Stream<u32>> = IO::filled(Kind::SensorData, s);
    let first = pull_next(&mut io).expect("first pull");
    assert_eq!(first.data, Some(10));
    assert_eq!(first.kind_name(), "SensorData");
    assert_eq!(pull_next(&mut io).unwrap().data, Some(20));
    assert_eq!(pull_next(&mut io).unwrap().data, Some(30));
    assert!(pull_next(&mut io).is_none());
    assert!(pull_next(&mut io).is_none());
    assert_eq!(io.kind_name(), "SensorData");
}

#[test]
fn stream_remaining_counts_down() {
    let mut s = Stream::from_vec(vec![1i64, 2]);
    assert_eq!(s.remaining(), 2);
    assert_eq!(s.next(), Some(1));
    assert_eq!(s.remaining(), 1);
    assert_eq!(s.next(), Some(2));
    assert_eq!(s.next(), None);
    assert_eq!(s.remaining(), 0);
}

#[test]
fn pull_next_on_absent_payload_is_none() {
    let mut io: IO<Stream<u8>> = IO::empty(Kind::M1modes);
    assert!(pull_next(&mut io).is_none());
    assert_eq!(io.kind_name(), "M1modes");
}
