//! The ways in which running a command on a remote machine fails.

use vstd::prelude::*;

verus! {

/// A failure to run a command on a remote machine. Each carries the address
/// of the machine.
#[derive(Clone, Debug, PartialEq, Eq)]
pub enum SshError {
    /// The machine could not be reached, or the connection broke while data
    /// went over it.
    ConnectionError { address: String, error: String },
    /// The handshake, the authentication or a channel of the session failed.
    SessionError { address: String, error: String },
    /// The remote command ran and returned a status other than zero.
    NonZeroExitCode { address: String, code: i32, message: String },
}

pub type SshResult<T> = Result<T, SshError>;

impl SshError {
    /// The address of the machine on which the failure occurred.
    pub open spec fn host(&self) -> String {
        match self {
            SshError::ConnectionError { address, .. } => *address,
            SshError::SessionError { address, .. } => *address,
            SshError::NonZeroExitCode { address, .. } => *address,
        }
    }

    /// The address of the machine on which the failure occurred.
    pub fn address(&self) -> (address: &String)
        ensures
            *address == self.host(),
    {
        match self {
            SshError::ConnectionError { address, .. } => address,
            SshError::SessionError { address, .. } => address,
            SshError::NonZeroExitCode { address, .. } => address,
        }
    }
}

} // verus!
