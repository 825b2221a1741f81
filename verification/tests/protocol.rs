use dosio::{DOSIOSError, Dos, IOTags, Kind, IO};

/// A test component: recognizes `MountCmd` inputs, advances four times
/// and then reports exhaustion, and emits one `SensorData` output per
/// phase. It counts how often each phase ran.
struct FourTicks {
    command: Option<Vec<f64>>,
    ticks: usize,
    outputs_called: usize,
}

impl FourTicks {
    fn new() -> Self {
        FourTicks { command: None, ticks: 0, outputs_called: 0 }
    }
}

impl Dos for FourTicks {
    type Input = Vec<f64>;
    type Output = Vec<f64>;

    fn outputs(&mut self) -> Option<Vec<IO<Vec<f64>>>> {
        self.outputs_called += 1;
        Some(vec![IO::filled(Kind::SensorData, vec![self.ticks as f64])])
    }

    fn inputs(&mut self, data: Option<Vec<IO<Vec<f64>>>>) -> Result<(), DOSIOSError> {
        match data {
            None => Ok(()),
            Some(ios) => {
                for io in ios {
                    if io.kind_name() == "MountCmd" {
                        if let Some(values) = io.extract_payload() {
                            self.command = Some(values);
                        }
                    } else {
                        return Err(DOSIOSError::Inputs(
                            "FourTicks invalid inputs".to_string(),
                        ));
                    }
                }
                Ok(())
            }
        }
    }

    fn advance(&mut self) -> Option<()> {
        if self.ticks < 4 {
            self.ticks += 1;
            Some(())
        } else {
            None
        }
    }
}

impl IOTags for FourTicks {
    fn outputs_tags(&self) -> Vec<IO<()>> {
        vec![IO::empty(Kind::SensorData)]
    }

    fn inputs_tags(&self) -> Vec<IO<()>> {
        vec![IO::empty(Kind::MountCmd)]
    }
}

#[test]
fn in_step_out_four_successes_then_step_error_and_no_fifth_outputs() {
    let mut c = FourTicks::new();
    for tick in 1..=4usize {
        let r = c.in_step_out(Some(vec![IO::filled(Kind::MountCmd, vec![0.1])]));
        match r {
            Ok(Some(out)) => {
                assert_eq!(out.len(), 1);
                assert_eq!(out[0].kind_name(), "SensorData");
                assert_eq!(out[0].data, Some(vec![tick as f64]));
            }
            _ => panic!("tick {} should succeed with outputs", tick),
        }
    }
    let fifth = c.in_step_out(None);
    match fifth {
        Err(DOSIOSError::Step(cause)) => {
            assert_eq!(cause, "DOS next step has issued None");
        }
        _ => panic!("fifth call must fail in the Step phase"),
    }
    assert_eq!(c.outputs_called, 4);
}

#[test]
fn inputs_rejects_unrecognized_kinds() {
    let mut c = FourTicks::new();
    let r = c.inputs(Some(vec![IO::filled(Kind::Pssn, vec![1.0])]));
    match r {
        Err(e @ DOSIOSError::Inputs(_)) => {
            assert_eq!(e.cause(), "FourTicks invalid inputs");
        }
        _ => panic!("unrecognized kind must be an Inputs error"),
    }
}

#[test]
fn inputs_accepts_absent_payload_and_absent_collection() {
    let mut c = FourTicks::new();
    assert!(c.inputs(None).is_ok());
    assert!(c.inputs(Some(vec![IO::empty(Kind::MountCmd)])).is_ok());
    assert!(c.command.is_none());
    assert!(c.inputs(Some(vec![IO::filled(Kind::MountCmd, vec![2.0])])).is_ok());
    assert_eq!(c.command, Some(vec![2.0]));
}

#[test]
fn step_alone_reports_exhaustion_as_step_error() {
    let mut c = FourTicks::new();
    for _ in 0..4 {
        assert!(c.step().is_ok());
    }
    match c.step() {
        Err(DOSIOSError::Step(_)) => {}
        _ => panic!("exhausted advance must yield a Step error"),
    }
}

#[test]
fn io_tags_lists_declared_signals() {
    let c = FourTicks::new();
    let outs = c.outputs_tags();
    assert_eq!(outs.len(), 1);
    assert_eq!(outs[0].kind_name(), "SensorData");
    let ins = c.inputs_tags();
    assert_eq!(ins[0].kind_name(), "MountCmd");
}

#[test]
fn error_carries_category_and_cause() {
    let e = DOSIOSError::Inputs("bad signal".to_string());
    assert_eq!(
        e.category(),
        "An error occured with the Inputs method from DOS trait"
    );
    assert_eq!(e.cause(), "bad signal");
    assert_eq!(
        e.message(),
        "An error occured with the Inputs method from DOS trait\nCaused by: bad signal"
    );

    let e = DOSIOSError::Outputs("no sub-model".to_string());
    assert_eq!(
        e.category(),
        "An error occured with the Outputs method from DOS trait"
    );

    let e = DOSIOSError::Step("done".to_string());
    assert_eq!(
        e.category(),
        "An error occured with the Step method from DOS trait"
    );
    assert_eq!(
        e.message(),
        "An error occured with the Step method from DOS trait\nCaused by: done"
    );
}
