//! The fixed error taxonomy of the binding layer.
//!
//! Every internal failure — a bad construction parameter, malformed input,
//! a call on an untrained model, or a failure inside the engine — is
//! normalized to one discriminated value: a kind plus the original message.
//! No failure is swallowed or retried; callers can match on the kind.

use vstd::prelude::*;

verus! {

/// Which of the fixed failure modes occurred.
#[derive(Clone, Copy, Debug, PartialEq, Eq, Structural)]
pub enum ErrorKind {
    /// An invalid construction parameter.
    Config,
    /// Malformed or empty sequence input.
    Validation,
    /// An operation that needs a trained model was invoked while unfitted.
    NotFitted,
    /// The underlying engine failed during training.
    Training,
    /// The underlying engine failed during scoring.
    Detection,
}

/// One boundary failure: its kind and the original message, preserved
/// verbatim from wherever the failure arose.
#[derive(Debug)]
pub struct DetectorError {
    pub kind: ErrorKind,
    pub message: String,
}

impl DetectorError {
    pub fn new(kind: ErrorKind, message: String) -> (r: DetectorError)
        ensures
            r.kind == kind,
            r.message == message,
    {
        DetectorError { kind, message }
    }

    /// The kind, for callers that dispatch on the failure mode.
    pub fn kind(&self) -> (r: ErrorKind)
        ensures
            r == self.kind,
    {
        self.kind
    }

    /// The preserved original message.
    pub fn message(&self) -> (r: &String)
        ensures
            r@ == self.message@,
    {
        &self.message
    }
}

} // verus!
