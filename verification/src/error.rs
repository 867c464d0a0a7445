//! The failures of loading and saving a configuration.

use vstd::prelude::*;
use vstd::string::StringExecFns;

verus! {

/// Why a configuration could not be loaded or saved. The variants that come
/// from the file system or from a codec carry that failure's own message.
#[derive(Debug, PartialEq, Eq)]
pub enum ConfigError {
    /// The file could not be read or written, or did not hold valid text.
    Io(String),
    /// The file's text is not in the expected format, or does not have the
    /// shape of the requested type.
    Decode(String),
    /// The value cannot be represented in the target format.
    Encode(String),
    /// The path ends with none of the recognised suffixes.
    UnsupportedFormat,
}

impl ConfigError {
    /// The text shown for this error: the carried message, or a fixed
    /// sentence for an unrecognised suffix.
    pub open spec fn message_text(self) -> Seq<char> {
        match self {
            ConfigError::Io(message) => message@,
            ConfigError::Decode(message) => message@,
            ConfigError::Encode(message) => message@,
            ConfigError::UnsupportedFormat => "Unsupported file format"@,
        }
    }

    /// The text shown for this error.
    pub fn message(&self) -> (text: String)
        ensures
            text@ == self.message_text(),
    {
        match self {
            ConfigError::Io(message) => message.clone(),
            ConfigError::Decode(message) => message.clone(),
            ConfigError::Encode(message) => message.clone(),
            ConfigError::UnsupportedFormat => String::from_str("Unsupported file format"),
        }
    }
}

} // verus!
