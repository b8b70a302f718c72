//! The error taxonomy of the supervisor.
//!
//! Every command handler returns a typed result; each variant names one
//! failure class, and explicit conversions bring the native subprocess and
//! I/O errors into the taxonomy.

use vstd::prelude::*;

use subprocess::PopenError;
use std::io::Error as IOError;

verus! {

/// Declares `subprocess::PopenError` (the error of a failed process launch
/// or wait) so that it can stand in fields and signatures.
#[verifier::external_type_specification]
#[verifier::external_body]
pub struct ExPopenError(PopenError);

/// Declares `std::io::Error` so that it can stand in fields and signatures.
#[verifier::external_type_specification]
#[verifier::external_body]
pub struct ExIoError(IOError);

/// The failures a supervisor command can report.
#[derive(Debug)]
pub enum Error {
    /// The env specification was not whitespace-separated `KEY=VALUE` pairs.
    EnvParseError,
    /// `Run` was issued while the supervised process is already running.
    AlreadyRunning,
    /// `Stop` was issued while no supervised process is running.
    NotRunning,
    /// The underlying process launch or wait failed.
    SubprocessError(PopenError),
    /// Log file access or a termination signal failed.
    IO(IOError),
    /// The HTTP request carrying an RPC call failed; the message preserves
    /// the underlying cause.
    RpcTransportFailure(String),
    /// The HTTP body did not decode as a JSON-RPC response envelope; the
    /// message preserves the underlying cause.
    RpcParseFailure(String),
}

impl From<PopenError> for Error {
    fn from(error: PopenError) -> (r: Self) {
        Error::SubprocessError(error)
    }
}

impl vstd::std_specs::convert::FromSpecImpl<PopenError> for Error {
    open spec fn obeys_from_spec() -> bool {
        true
    }

    open spec fn from_spec(t: PopenError) -> Self {
        Error::SubprocessError(t)
    }
}

impl From<IOError> for Error {
    fn from(error: IOError) -> (r: Self) {
        Error::IO(error)
    }
}

impl vstd::std_specs::convert::FromSpecImpl<IOError> for Error {
    open spec fn obeys_from_spec() -> bool {
        true
    }

    open spec fn from_spec(t: IOError) -> Self {
        Error::IO(t)
    }
}

} // verus!
