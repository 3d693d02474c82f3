//! Failures that end a run before any target is checked.

use vstd::prelude::*;
use vstd::string::*;

use crate::config::ConfigError;

verus! {

/// A failure of the run's setup. None of these is the outcome of a target:
/// a run that meets one checks nothing.
#[derive(Debug, PartialEq, Eq)]
pub enum FatalError {
    /// The configuration could not be read.
    ConfigUnreadable { reason: String },
    /// The configuration is not a document of the expected form.
    ConfigUnparsable { reason: String },
    /// The configuration was read and then refused.
    ConfigRefused { error: ConfigError },
    /// The HTTP client could not be built.
    ClientSetup { reason: String },
}

/// The words for a refused configuration.
pub open spec fn config_error_text(error: ConfigError) -> Seq<char> {
    match error {
        ConfigError::MissingUrls => "missing field `urls`"@,
        ConfigError::MissingTimeout => "missing field `timeout`"@,
        ConfigError::TimeoutNotPositive { .. } => "timeout must be a positive number of seconds"@,
    }
}

/// The message of a fatal error: what failed, then why.
pub open spec fn fatal_text(error: FatalError) -> Seq<char> {
    match error {
        FatalError::ConfigUnreadable { reason } => "Failed to read config.toml: "@ + reason@,
        FatalError::ConfigUnparsable { reason } => "Failed to parse config.toml: "@ + reason@,
        FatalError::ConfigRefused { error } => "Failed to parse config.toml: "@
            + config_error_text(error),
        FatalError::ClientSetup { reason } => "Failed to build HTTP client: "@ + reason@,
    }
}

impl ConfigError {
    /// The words for this error.
    pub fn message(&self) -> (text: String)
        ensures
            text@ == config_error_text(*self),
    {
        match self {
            ConfigError::MissingUrls => "missing field `urls`".to_owned(),
            ConfigError::MissingTimeout => "missing field `timeout`".to_owned(),
            ConfigError::TimeoutNotPositive { .. } => {
                "timeout must be a positive number of seconds".to_owned()
            },
        }
    }
}

impl FatalError {
    /// The message of this error.
    pub fn message(&self) -> (text: String)
        ensures
            text@ == fatal_text(*self),
    {
        match self {
            FatalError::ConfigUnreadable { reason } => {
                "Failed to read config.toml: ".to_owned().concat(reason.as_str())
            },
            FatalError::ConfigUnparsable { reason } => {
                "Failed to parse config.toml: ".to_owned().concat(reason.as_str())
            },
            FatalError::ConfigRefused { error } => {
                let why = error.message();
                "Failed to parse config.toml: ".to_owned().concat(why.as_str())
            },
            FatalError::ClientSetup { reason } => {
                "Failed to build HTTP client: ".to_owned().concat(reason.as_str())
            },
        }
    }
}

} // verus!
