//! The error kinds of the library. Every failure of a run is one of these;
//! all of them are fatal to the invocation that raised them.
use vstd::prelude::*;

verus! {

/// Everything that can go wrong during one invocation.
///
/// `ConfigNotFound`, `ProcessSpawnError` and `FilesystemError` arise at the
/// I/O edge (reading the configuration file, spawning the shell, writing the
/// default file); the surrounding program constructs them and hands them back
/// through this type so that every failure is reported uniformly.
#[derive(Clone, Copy, Debug, PartialEq, Eq, Structural)]
pub enum QError {
    /// The configuration file does not exist or could not be read.
    ConfigNotFound,
    /// The configuration text does not have the expected structure.
    ConfigParseError,
    /// A record lacks a field that the requested operation needs.
    MissingField,
    /// No record's name equals the invocation text.
    CommandNotFound,
    /// The subprocess could not be started at all.
    ProcessSpawnError,
    /// The captured output bytes are not valid text.
    OutputDecodeError,
    /// Creating the default configuration file failed.
    FilesystemError,
}

impl QError {
    /// The message reported to the user for this error.
    pub fn message(&self) -> (r: &'static str)
        ensures
            r@ == self.spec_message(),
    {
        match self {
            QError::ConfigNotFound => "config file not found",
            QError::ConfigParseError => "config file is malformed",
            QError::MissingField => "record is missing a required field",
            QError::CommandNotFound => "not found command",
            QError::ProcessSpawnError => "failed to execute process",
            QError::OutputDecodeError => "process output is not valid text",
            QError::FilesystemError => "could not create the config file",
        }
    }

    /// What `message` returns, variant by variant.
    pub open spec fn spec_message(self) -> Seq<char> {
        match self {
            QError::ConfigNotFound => "config file not found"@,
            QError::ConfigParseError => "config file is malformed"@,
            QError::MissingField => "record is missing a required field"@,
            QError::CommandNotFound => "not found command"@,
            QError::ProcessSpawnError => "failed to execute process"@,
            QError::OutputDecodeError => "process output is not valid text"@,
            QError::FilesystemError => "could not create the config file"@,
        }
    }
}

} // verus!
