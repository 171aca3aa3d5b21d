//! Failures of reading the process configuration.

use vstd::prelude::*;
use vstd::string::*;

verus! {

/// Why the configuration could not be loaded. Each variant carries the
/// description of the underlying cause.
#[derive(Clone, Debug, PartialEq, Eq)]
pub enum ConfigError {
    /// A required environment variable is not set, or not valid Unicode.
    EnvVarNotFound(String),
    /// The `.env` file could not be loaded.
    Dotenv(String),
    /// A value is set but cannot be read as what it stands for.
    ParsingError(String),
}

/// The message of each failure.
pub open spec fn config_error_text(error: ConfigError) -> Seq<char> {
    match error {
        ConfigError::EnvVarNotFound(cause) => "Failed to load environment variable: "@ + cause@,
        ConfigError::Dotenv(cause) => "Error loading .env file: "@ + cause@,
        ConfigError::ParsingError(cause) => "Error parsing data: "@ + cause@,
    }
}

impl ConfigError {
    /// The message shown for this failure.
    pub fn to_string(&self) -> (text: String)
        ensures
            text@ == config_error_text(*self),
    {
        match self {
            ConfigError::EnvVarNotFound(cause) => String::from_str(
                "Failed to load environment variable: ",
            ).concat(cause.as_str()),
            ConfigError::Dotenv(cause) => String::from_str("Error loading .env file: ").concat(
                cause.as_str(),
            ),
            ConfigError::ParsingError(cause) => String::from_str("Error parsing data: ").concat(
                cause.as_str(),
            ),
        }
    }
}

} // verus!
