use vstd::prelude::*;

verus! {

/// Error kinds reported by the stream operations. Every error leaves the
/// stream store exactly as it was.
#[derive(Clone, Copy, Debug, PartialEq, Eq, Structural)]
pub enum StreamError {
    /// Malformed schedule, zero amount, or identical employer and employee.
    ValidationError,
    /// The signer is not allowed to perform the operation.
    AuthorizationError,
    /// The operation is not valid for the stream's status.
    StateError,
    /// An amount or a timestamp does not fit the fixed-width integers.
    ArithmeticError,
    /// Emergency withdrawal attempted before the inactivity threshold elapsed.
    InactivityNotMet,
    /// No stream is stored under the given identifier.
    UnknownStream,
}

} // verus!
