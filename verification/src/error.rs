//! The ways in which a reading can fail.

use vstd::prelude::*;
use vstd::string::StringExecFns;

verus! {

/// Why a reading or a write failed. None of these is fatal: the caller
/// reports it and goes on with the next tick.
#[derive(Clone, Copy, Debug, PartialEq, Eq, Structural)]
pub enum HealthError {
    /// No process matches the service, or the process is gone.
    NotFound,
    /// A record that the kernel exposes is malformed.
    ParseError,
    /// A file could not be read or a record could not be written.
    IoError,
    /// A command ended with a failure status.
    CommandFailure,
    /// A total is too large for the integers that hold it.
    OutOfRange,
}

impl HealthError {
    /// What `describe` writes before the subject.
    pub open spec fn lead(self) -> Seq<char> {
        match self {
            HealthError::NotFound => "Service "@,
            HealthError::ParseError => "Failed to parse "@,
            HealthError::IoError => "Failed to read "@,
            HealthError::CommandFailure => "Failed to execute command: "@,
            HealthError::OutOfRange => "Value out of range: "@,
        }
    }

    /// What `describe` writes after the subject.
    pub open spec fn tail(self) -> Seq<char> {
        match self {
            HealthError::NotFound => " not found"@,
            _ => ""@,
        }
    }

    /// A sentence that reports the failure of `subject`: the service, the
    /// record or the command's error output.
    pub fn describe(&self, subject: &str) -> (out: String)
        ensures
            out@ == self.lead() + subject@ + self.tail(),
    {
        let lead = match self {
            HealthError::NotFound => "Service ",
            HealthError::ParseError => "Failed to parse ",
            HealthError::IoError => "Failed to read ",
            HealthError::CommandFailure => "Failed to execute command: ",
            HealthError::OutOfRange => "Value out of range: ",
        };
        let tail = match self {
            HealthError::NotFound => " not found",
            _ => "",
        };
        let mut out = String::from_str(lead);
        out.append(subject);
        out.append(tail);
        out
    }
}

} // verus!
