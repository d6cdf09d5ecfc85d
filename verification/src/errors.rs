//! The failure taxonomy of an invocation.  Configuration and environment
//! errors are fatal and end the invocation; a child process's non-zero
//! exit is reported as a structured failure, never silently ignored.
//! Argument compilation itself never fails for a well-formed descriptor.

use vstd::prelude::*;
use vstd::string::StringExecFns;

verus! {

/// What went wrong around one invocation.
pub enum SandmanError {
    /// The configuration source does not exist.
    ConfigNotFound,
    /// The configuration source cannot be parsed into the schema.
    ConfigMalformed,
    /// The home directory or another required path cannot be determined.
    EnvironmentUnavailable,
    /// The runtime child process could not be spawned.
    ChildSpawnFailed,
    /// Writing the instruction stream to the child failed.
    ChildIoFailed,
    /// The child ran and exited with a non-zero status, carried here when
    /// the platform reports one.
    ChildExitedNonZero(Option<i32>),
}

impl SandmanError {
    /// A short description of the failure kind.
    pub fn message(&self) -> (r: String)
        ensures
            match self {
                SandmanError::ConfigNotFound => r@ == "configuration file not found"@,
                SandmanError::ConfigMalformed => r@ == "configuration file is malformed"@,
                SandmanError::EnvironmentUnavailable => r@
                    == "required environment is unavailable"@,
                SandmanError::ChildSpawnFailed => r@ == "failed to spawn the container runtime"@,
                SandmanError::ChildIoFailed => r@ == "failed to stream input to the runtime"@,
                SandmanError::ChildExitedNonZero(_) => r@ == "the runtime exited with an error"@,
            },
    {
        match self {
            SandmanError::ConfigNotFound => String::from_str("configuration file not found"),
            SandmanError::ConfigMalformed => String::from_str("configuration file is malformed"),
            SandmanError::EnvironmentUnavailable => String::from_str(
                "required environment is unavailable",
            ),
            SandmanError::ChildSpawnFailed => String::from_str(
                "failed to spawn the container runtime",
            ),
            SandmanError::ChildIoFailed => String::from_str(
                "failed to stream input to the runtime",
            ),
            SandmanError::ChildExitedNonZero(_) => String::from_str(
                "the runtime exited with an error",
            ),
        }
    }
}

} // verus!
