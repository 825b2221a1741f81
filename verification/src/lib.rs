//! Data-interchange backbone for a discrete-time telescope simulation.
//!
//! A fixed catalog of named engineering signals flows between independently
//! implemented simulation components. Every input and output of a component
//! is a tagged signal ([`io::IO`]): one of the catalog kinds ([`kind::Kind`]),
//! optionally carrying a payload. Components are composed through the
//! three-phase protocol of the [`Dos`] trait: `inputs`, `step`, `outputs`.

pub mod arith;
pub mod catalog;
pub mod ceo;
pub mod collection;
pub mod error;
pub mod io;
pub mod kind;

pub use collection::IOVec;
pub use error::DOSIOSError;
pub use io::IO;
pub use io::IOError;
pub use kind::Kind;

use vstd::prelude::*;

verus! {

/// Used to get the list of inputs or outputs a component declares.
pub trait IOTags {
    /// The list of output tags.
    fn outputs_tags(&self) -> Vec<IO<()>>;

    /// The list of input tags.
    fn inputs_tags(&self) -> Vec<IO<()>>;
}

/// The three-phase protocol every simulation component implements so a
/// driver can compose it into a pipeline: route inputs in, advance the
/// internal physical state by one discrete tick, collect outputs.
///
/// A failing phase reports its own error category, so a driver that sees
/// the error knows which phase to blame; the provided methods guarantee
/// this for `step` and `in_step_out`.
pub trait Dos {
    /// Payload type of the input signals.
    type Input;

    /// Payload type of the output signals.
    type Output;

    /// Computes the component's declared output signals for the current
    /// state; nothing when the component produces no outputs this phase.
    fn outputs(&mut self) -> Option<Vec<IO<Self::Output>>>;

    /// Routes each incoming tagged signal to the component's internal
    /// state. An unrecognized kind is a hard input error; a recognized
    /// kind with an absent payload is accepted as a no-op, which lets a
    /// driver omit signals the component does not currently need. An
    /// absent collection means "no signals this phase".
    fn inputs(&mut self, data: Option<Vec<IO<Self::Input>>>) -> (r: Result<(), DOSIOSError>)
        ensures
            r matches Err(e) ==> e is Inputs,
    ;

    /// Advances the internal physical state by one discrete tick;
    /// nothing when the state advance is exhausted. Exhaustion is the
    /// terminal condition: the protocol does not define resumption.
    fn advance(&mut self) -> Option<()>;

    /// One discrete time step: a failure reports the state advance's
    /// exhaustion as a `Step` error.
    fn step(&mut self) -> (r: Result<(), DOSIOSError>)
        ensures
            r matches Err(e) ==> e is Step,
    {
        match self.advance() {
            Some(_) => Ok(()),
            None => Err(DOSIOSError::Step("DOS next step has issued None".to_owned())),
        }
    }

    /// Sequential composition of `inputs`, `step` and `outputs`,
    /// short-circuiting on the first error: after a failing phase no
    /// later phase runs, and the error that comes out is the failing
    /// phase's own, so it is never an `Outputs` error.
    fn in_step_out(&mut self, data: Option<Vec<IO<Self::Input>>>) -> (r: Result<
        Option<Vec<IO<Self::Output>>>,
        DOSIOSError,
    >)
        ensures
            r matches Err(e) ==> (e is Inputs || e is Step),
    {
        match self.inputs(data) {
            Err(e) => Err(e),
            Ok(_) => match self.step() {
                Err(e) => Err(e),
                Ok(_) => Ok(self.outputs()),
            },
        }
    }
}

} // verus!
