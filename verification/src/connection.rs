//! What a connection to one machine decides: its timeout, how a failed step
//! is reported, and what the exit status of a command makes of its output.

use crate::command::{in_directory, run_in_directory};
use crate::error::{SshError, SshResult};
use crate::manager::Output;
use crate::text::path_text;
use crate::time::duration_millis;
use std::path::PathBuf;
use std::time::Duration;
use vstd::prelude::*;

verus! {

/// The seconds before a connection times out, where none are set.
pub const DEFAULT_TIMEOUT_SECS: u64 = 30;

/// The mode of the files that are uploaded.
pub const UPLOAD_MODE: i32 = 0o644;

/// A step of the work on a connection.
#[derive(Clone, Copy, Debug, PartialEq, Eq, Structural)]
pub enum Step {
    /// Reaching the machine over the network.
    Connect,
    /// Setting up the session.
    StartSession,
    /// The protocol handshake.
    Handshake,
    /// The authentication with the private key.
    Authenticate,
    /// Opening a channel for a command.
    OpenChannel,
    /// Starting the command.
    Execute,
    /// Reading the standard output of the command.
    ReadOutput,
    /// Reading the standard error of the command.
    ReadErrors,
    /// Closing the channel.
    CloseChannel,
    /// Waiting for the remote side to close the channel.
    AwaitClose,
    /// Reading the exit status of the command.
    ReadExitStatus,
    /// Opening a channel to send a file.
    OpenUpload,
    /// Writing the content of the file sent.
    WriteUpload,
    /// Opening a channel to receive a file.
    OpenDownload,
    /// Reading the content of the file received.
    ReadDownload,
}

impl Step {
    /// Whether the step moves data over the network, so that its failure is
    /// one of the connection and not of the session.
    pub open spec fn is_transport(self) -> bool {
        self is Connect || self is ReadOutput || self is ReadErrors || self is WriteUpload
            || self is ReadDownload
    }
}

/// The timeout of a connection in milliseconds, as the 32-bit number that the
/// session takes: the low 32 bits of the milliseconds set, and of the default
/// where none are set.
pub open spec fn timeout_millis_of(timeout: Option<Duration>) -> nat {
    match timeout {
        Some(timeout) => duration_millis(timeout) % 0x1_0000_0000,
        None => (DEFAULT_TIMEOUT_SECS * 1000) as nat,
    }
}

/// The timeout to set on the session of a connection, in milliseconds. If no
/// timeout is specified, it is the default value.
pub fn timeout_millis(timeout: &Option<Duration>) -> (millis: u32)
    ensures
        millis == timeout_millis_of(*timeout),
{
    let duration: Duration = match timeout {
        Some(value) => *value,
        None => Duration::from_secs(DEFAULT_TIMEOUT_SECS),
    };
    (duration.as_millis() % 0x1_0000_0000) as u32
}

/// The error that reports the failure of a step on the connection to the
/// machine at `address`: a connection error where the step moves data over
/// the network, and a session error otherwise.
pub fn failure(address: String, step: Step, cause: String) -> (error: SshError)
    ensures
        step.is_transport() ==> error == (SshError::ConnectionError { address, error: cause }),
        !step.is_transport() ==> error == (SshError::SessionError { address, error: cause }),
{
    match step {
        Step::Connect
        | Step::ReadOutput
        | Step::ReadErrors
        | Step::WriteUpload
        | Step::ReadDownload => SshError::ConnectionError { address, error: cause },
        _ => SshError::SessionError { address, error: cause },
    }
}

/// What a command that ran to its end on the machine at `address` comes to:
/// its output where it returned the status zero, and else the error that
/// carries the status and what the command wrote to its standard error.
pub fn check_exit_status(address: String, output: Output, exit_status: i32) -> (result: SshResult<
    Output,
>)
    ensures
        exit_status == 0 ==> result == Ok::<Output, SshError>(output),
        exit_status != 0 ==> result == Err::<Output, SshError>(
            SshError::NonZeroExitCode { address, code: exit_status, message: output.1 },
        ),
{
    if exit_status == 0 {
        Ok(output)
    } else {
        Err(SshError::NonZeroExitCode { address, code: exit_status, message: output.1 })
    }
}

/// The command that runs `command` from the directory `path`.
pub fn execute_from_path(command: String, path: &PathBuf) -> (wrapped: String)
    ensures
        wrapped@ == in_directory(command@, path_text(*path)),
{
    run_in_directory(command.as_str(), path)
}

} // verus!
