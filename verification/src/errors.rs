//! The error taxonomy of the toolchain and build pipeline, with the exact
//! human-readable record each error surfaces to the caller.

use vstd::prelude::*;
use vstd::string::*;
use crate::text::{spec_decimal, decimal_string};

verus! {

/// Which of the two output streams of a child process could not be acquired.
#[derive(Clone, Copy, Debug, PartialEq, Eq, Structural)]
pub enum StreamKind {
    Stdout,
    Stderr,
}

/// Every failure the toolchain resolution and build pipeline can report.
#[derive(Debug)]
pub enum BuildError {
    /// The candidate toolchain path does not exist or is not a directory.
    InvalidToolchainPath,
    /// The expected compiler binary is missing inside the toolchain tree.
    BinaryNotFound,
    /// The version token was absent from the compiler's version output.
    VersionParseError,
    /// The toolchain manager's home directory could not be located.
    ManagerNotFound,
    /// The manager's configuration file could not be read.
    ConfigReadError,
    /// The manager's configuration file could not be decoded.
    ConfigParseError,
    /// The child process could not be started.
    SpawnError,
    /// One of the child's output streams was unavailable.
    StreamAcquisitionError(StreamKind),
    /// Waiting for the child process to exit failed.
    WaitError,
    /// The child process exited with the given non-zero code.
    CommandFailed(i32),
    /// A downstream collaborator (config loader, packer, deployer) failed;
    /// the field holds the full message surfaced for it.
    DownstreamFailure(String),
}

/// The record surfaced for each error, one per fatal condition.
pub open spec fn spec_message(e: BuildError) -> Seq<char> {
    match e {
        BuildError::InvalidToolchainPath => "Invalid toolchain path"@,
        BuildError::BinaryNotFound => "Swift binary not found in toolchain"@,
        BuildError::VersionParseError => "Failed to parse swift version"@,
        BuildError::ManagerNotFound => "Swiftly home directory not found"@,
        BuildError::ConfigReadError => "Failed to read config file"@,
        BuildError::ConfigParseError => "Failed to parse config file"@,
        BuildError::SpawnError => "Failed to spawn build command"@,
        BuildError::StreamAcquisitionError(StreamKind::Stdout) => "Failed to get stdout"@,
        BuildError::StreamAcquisitionError(StreamKind::Stderr) => "Failed to get stderr"@,
        BuildError::WaitError => "Failed to wait for command"@,
        BuildError::CommandFailed(code) => "Command exited with code "@ + spec_decimal(
            code as int,
        ),
        BuildError::DownstreamFailure(m) => m@,
    }
}

impl BuildError {
    /// The human-readable description of this error, exactly one per variant.
    pub fn message(&self) -> (r: String)
        ensures
            r@ == spec_message(*self),
    {
        match self {
            BuildError::InvalidToolchainPath => String::from_str("Invalid toolchain path"),
            BuildError::BinaryNotFound => String::from_str("Swift binary not found in toolchain"),
            BuildError::VersionParseError => String::from_str("Failed to parse swift version"),
            BuildError::ManagerNotFound => String::from_str("Swiftly home directory not found"),
            BuildError::ConfigReadError => String::from_str("Failed to read config file"),
            BuildError::ConfigParseError => String::from_str("Failed to parse config file"),
            BuildError::SpawnError => String::from_str("Failed to spawn build command"),
            BuildError::StreamAcquisitionError(StreamKind::Stdout) => String::from_str(
                "Failed to get stdout",
            ),
            BuildError::StreamAcquisitionError(StreamKind::Stderr) => String::from_str(
                "Failed to get stderr",
            ),
            BuildError::WaitError => String::from_str("Failed to wait for command"),
            BuildError::CommandFailed(code) => {
                let prefix = String::from_str("Command exited with code ");
                prefix.concat(decimal_string(*code).as_str())
            },
            BuildError::DownstreamFailure(m) => m.clone(),
        }
    }
}

} // verus!
