//! Error taxonomy of the component protocol.
//!
//! Three categories, one per protocol phase, each wrapping the underlying
//! cause as text so the causal chain stays visible in diagnostics.

use vstd::prelude::*;

verus! {

/// Failure of one phase of the component protocol.
#[derive(Debug)]
pub enum DOSIOSError {
    /// An incoming signal's kind was not recognized, or its kind-specific
    /// validation failed.
    Inputs(String),
    /// An output could not be constructed, e.g. a required sub-model was
    /// never configured.
    Outputs(String),
    /// The internal state advance reported exhaustion or termination.
    Step(String),
}

impl DOSIOSError {
    /// The underlying cause carried by any of the three categories.
    pub open spec fn spec_cause(&self) -> Seq<char> {
        match self {
            DOSIOSError::Inputs(s) => s@,
            DOSIOSError::Outputs(s) => s@,
            DOSIOSError::Step(s) => s@,
        }
    }

    /// The fixed description of the failing phase.
    pub open spec fn spec_category(&self) -> Seq<char> {
        match self {
            DOSIOSError::Inputs(_) => "An error occured with the Inputs method from DOS trait"@,
            DOSIOSError::Outputs(_) => "An error occured with the Outputs method from DOS trait"@,
            DOSIOSError::Step(_) => "An error occured with the Step method from DOS trait"@,
        }
    }

    /// The fixed description of the failing phase, as text.
    pub fn category(&self) -> (r: &'static str)
        ensures
            r@ == self.spec_category(),
    {
        match self {
            DOSIOSError::Inputs(_) => "An error occured with the Inputs method from DOS trait",
            DOSIOSError::Outputs(_) => "An error occured with the Outputs method from DOS trait",
            DOSIOSError::Step(_) => "An error occured with the Step method from DOS trait",
        }
    }

    /// The underlying cause, as text.
    pub fn cause(&self) -> (r: &str)
        ensures
            r@ == self.spec_cause(),
    {
        match self {
            DOSIOSError::Inputs(s) => s.as_str(),
            DOSIOSError::Outputs(s) => s.as_str(),
            DOSIOSError::Step(s) => s.as_str(),
        }
    }

    /// The full report: the failing phase, then the cause it wraps.
    pub fn message(&self) -> (r: String)
        ensures
            r@ == self.spec_category() + "\nCaused by: "@ + self.spec_cause(),
    {
        let mut m = self.category().to_owned();
        m.append("\nCaused by: ");
        m.append(self.cause());
        m
    }
}

} // verus!
