//! Failures of the operations of this crate.

use crate::cuda::cudaError_t;
use crate::cufft::cufftResult;
use crate::decimal::{nat_digits, push_nat};
use vstd::prelude::*;

verus! {

/// A misuse that is detected here, before any foreign call is issued for it.
#[derive(Debug, Copy, Clone, PartialEq, Eq, Structural)]
pub enum LocalError {
    /// Two element counts that have to agree differ.
    SizeMismatch { expected: u64, actual: u64 },
    /// A size does not fit the integer type that the foreign interface takes.
    SizeOverflow,
    /// A reply reports success but lacks the value that its call writes.
    MissingOutput,
}

/// Why an operation failed.
#[derive(Debug, Copy, Clone, PartialEq, Eq, Structural)]
pub enum Error {
    /// The caller misused the operation; no foreign status is involved.
    Local(LocalError),
    /// The accelerator runtime reported a failure.
    Runtime(cudaError_t),
    /// The transform library could not set up a plan.
    Plan(cufftResult),
    /// The transform library could not execute a plan.
    Execution(cufftResult),
    /// The device could not be synchronized after a transform was issued.
    Synchronization(cudaError_t),
}

impl LocalError {
    /// The text that describes this misuse.
    pub open spec fn message(self) -> Seq<char> {
        match self {
            LocalError::SizeMismatch { expected, actual } => "Size mismatch: expected "@
                + nat_digits(expected as nat) + ", got "@ + nat_digits(actual as nat),
            LocalError::SizeOverflow => "Size overflow"@,
            LocalError::MissingOutput => "Missing output"@,
        }
    }

    /// Renders the misuse for a diagnostic.
    pub fn to_string(&self) -> (text: String)
        ensures
            text@ == self.message(),
    {
        match *self {
            LocalError::SizeMismatch { expected, actual } => {
                let mut text = String::from_str("Size mismatch: expected ");
                push_nat(&mut text, expected);
                text.append(", got ");
                push_nat(&mut text, actual);
                text
            },
            LocalError::SizeOverflow => String::from_str("Size overflow"),
            LocalError::MissingOutput => String::from_str("Missing output"),
        }
    }
}

impl Error {
    /// Whether the failure is a misuse by the caller rather than a status that
    /// the foreign side reported.
    pub open spec fn spec_is_local(&self) -> bool {
        self is Local
    }

    /// The text that describes this failure.
    pub open spec fn message(self) -> Seq<char> {
        match self {
            Error::Local(e) => e.message(),
            Error::Runtime(status) => status.name(),
            Error::Plan(status) => status.name(),
            Error::Execution(status) => "cuFFT execution failed: "@ + status.name(),
            Error::Synchronization(status) => "CUDA synchronization failed: "@ + status.name(),
        }
    }

    /// Whether the failure is a misuse by the caller rather than a status that
    /// the foreign side reported.
    #[verifier::when_used_as_spec(spec_is_local)]
    pub fn is_local(&self) -> (local: bool)
        ensures
            local == self.spec_is_local(),
    {
        match self {
            Error::Local(_) => true,
            _ => false,
        }
    }

    /// Renders the failure for a diagnostic.
    pub fn to_string(&self) -> (text: String)
        ensures
            text@ == self.message(),
    {
        match *self {
            Error::Local(e) => e.to_string(),
            Error::Runtime(status) => status.to_string(),
            Error::Plan(status) => status.to_string(),
            Error::Execution(status) => {
                let mut text = String::from_str("cuFFT execution failed: ");
                let name = status.to_string();
                text.append(name.as_str());
                text
            },
            Error::Synchronization(status) => {
                let mut text = String::from_str("CUDA synchronization failed: ");
                let name = status.to_string();
                text.append(name.as_str());
                text
            },
        }
    }
}

} // verus!
