//! The ways in which an operation of this library can fail.

use vstd::prelude::*;

verus! {

/// Failure of one operation. Every error ends the operation that reports it;
/// nothing is retried.
#[derive(Debug, Clone, Copy, PartialEq, Eq, Structural)]
pub enum Error {
    /// The text is not a version string of the vendor's format.
    MalformedVersion,
    /// The integer is not the code of a version that the format can express.
    CodeOutOfRange,
    /// The operating system is not one that the driver package is published for.
    UnsupportedSystem,
    /// The driver library was loaded but asking it for its version went wrong.
    ProbeFault,
}

impl Error {
    /// A one-line description for the user.
    pub fn message(&self) -> (text: &'static str)
        ensures
            text@ == match *self {
                Error::MalformedVersion => "could not parse version"@,
                Error::CodeOutOfRange => "version code out of range"@,
                Error::UnsupportedSystem => "Unsupported system"@,
                Error::ProbeFault => "installed version probe failed"@,
            },
    {
        match self {
            Error::MalformedVersion => "could not parse version",
            Error::CodeOutOfRange => "version code out of range",
            Error::UnsupportedSystem => "Unsupported system",
            Error::ProbeFault => "installed version probe failed",
        }
    }
}

} // verus!
