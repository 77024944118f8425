//! Error taxonomy of one client invocation, and the exit code owed to each
//! error.  Every error is terminal: the client performs a single linear
//! attempt and never retries.

use vstd::prelude::*;

verus! {

/// A malformed invocation, detected locally before any contact with the
/// daemon.
#[derive(Clone, Copy, Debug, PartialEq, Eq, Structural)]
pub enum UsageError {
    /// No command token was supplied.
    NoCommand,
    /// The joined wire message would exceed the wire size limit.
    MessageTooLong,
}

/// A failure to derive a usable socket endpoint from the process
/// environment, detected before connecting.
#[derive(Clone, Copy, Debug, PartialEq, Eq, Structural)]
pub enum EnvironmentError {
    /// A required environment value is unset or empty.
    MissingVariable,
    /// The derived socket path is too long for a socket address.
    PathTooLong,
}

/// A failure in the socket exchange with the daemon.  The stage is recorded
/// so the caller can report which step broke; every stage maps to the same
/// exit code.
#[derive(Clone, Copy, Debug, PartialEq, Eq, Structural)]
pub enum ConnectionError {
    /// Opening the stream connection failed.
    ConnectFailed,
    /// Writing the wire message failed or was partial.
    SendFailed,
    /// Shutting down the write half of the connection failed.
    ShutdownFailed,
    /// Reading the reply to end of stream failed, or the bytes read were
    /// not valid text.
    ReadFailed,
}

/// Any terminal failure of an invocation that prevents a classified daemon
/// reply.  A daemon-reported command failure is not an error here: it is an
/// outcome of response classification.
#[derive(Clone, Copy, Debug, PartialEq, Eq, Structural)]
pub enum ClientError {
    Usage(UsageError),
    Environment(EnvironmentError),
    Connection(ConnectionError),
}

/// The exit code owed to each terminal error.
pub open spec fn error_exit_code_spec(e: ClientError) -> int {
    match e {
        ClientError::Usage(_) => 1,
        ClientError::Environment(_) => 2,
        ClientError::Connection(_) => 3,
    }
}

/// Maps a terminal error to its process exit code: usage errors exit 1,
/// environment errors exit 2, connection errors exit 3.
pub fn error_exit_code(e: &ClientError) -> (code: i32)
    ensures
        code == error_exit_code_spec(*e),
{
    match e {
        ClientError::Usage(_) => 1,
        ClientError::Environment(_) => 2,
        ClientError::Connection(_) => 3,
    }
}

} // verus!
