//! The error taxonomy of the core: scanner capability absence, signal
//! rejection by privilege, any other kill rejection with the reported reason,
//! external tool failure, and configuration store failure.

use vstd::prelude::*;

use crate::text::dec_digits;
use crate::text::u64_to_string;
use vstd::string::*;

verus! {

#[derive(Debug)]
pub enum Error {
    /// A scanner variant has no implementation on this platform.
    UnsupportedPlatform(String),
    /// The caller lacks the rights to signal the target process.
    PermissionDenied(String),
    /// The OS rejected the signal for any other reason.
    KillFailed { pid: u32, reason: String },
    /// An external tool could not be invoked at all.
    CommandFailed(String),
    /// The configuration store failed.
    ConfigError(String),
}

/// The user-facing text of an error.
pub open spec fn error_text(e: Error) -> Seq<char> {
    match e {
        Error::UnsupportedPlatform(m) => m@,
        Error::PermissionDenied(m) => m@,
        Error::KillFailed { pid, reason } => "Failed to kill process "@ + dec_digits(
            pid as nat,
        ) + ": "@ + reason@,
        Error::CommandFailed(m) => m@,
        Error::ConfigError(m) => m@,
    }
}

impl Error {
    /// Renders the error as its user-facing text.
    pub fn message(&self) -> (r: String)
        ensures
            r@ == error_text(*self),
    {
        match self {
            Error::UnsupportedPlatform(m) => m.clone(),
            Error::PermissionDenied(m) => m.clone(),
            Error::KillFailed { pid, reason } => {
                let mut s = String::from_str("Failed to kill process ");
                s.append(u64_to_string(*pid as u64).as_str());
                s.append(": ");
                s.append(reason.as_str());
                s
            },
            Error::CommandFailed(m) => m.clone(),
            Error::ConfigError(m) => m.clone(),
        }
    }
}

} // verus!
