//! The error type of the library.
use vstd::prelude::*;

verus! {

/// What went wrong, by category: configuration, parsing, environment
/// resolution and execution of child processes.
#[derive(Debug, Clone, PartialEq, Eq)]
pub enum FigError {
    /// A configuration block is missing or unusable.
    ConfigError(String),
    /// A required external program is not available.
    DoctorError(String),
    /// A child process could not be started or supervised.
    ExecError(String),
    /// The primary child process ended unsuccessfully; holds its exit code,
    /// or `None` when it was ended by a signal.
    ChildFailed(Option<i32>),
    /// The supervisor was interrupted before the primary process ended.
    Interrupted,
    /// The requested environment name is not one of the known ones.
    EnvError(String),
    /// Malformed command-line input.
    ParseError(String),
    /// An operating-system level failure.
    IoError(String),
    /// The configuration file does not exist or cannot be read.
    NotFound(String),
    /// The configuration file is not a well-formed document of the schema.
    MalformedConfig(String),
    /// A text is not a UUID.
    UuidError(String),
}

} // verus!
