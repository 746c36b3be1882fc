//! What can go wrong while a configuration is loaded, read or changed.

use vstd::prelude::*;
use vstd::string::StringExecFns;

verus! {

/// The failures of the library. The text, where there is one, says what the
/// source, the parser or the typed schema reported.
#[derive(Debug)]
pub enum ConfigError {
    /// A file is missing or cannot be read.
    Io(String),
    /// The content of a file is not valid for its declared format.
    Parse(String),
    /// A remote source could not be fetched, or did not answer with valid JSON.
    Network(String),
    /// A value could not be written as a tree.
    Serialize(String),
    /// A tree does not satisfy the typed schema.
    Deserialize(String),
    /// The dotted path is empty.
    InvalidPath,
    /// A segment of the dotted path does not exist.
    PathNotFound,
}

impl ConfigError {
    /// What the error says, as a sequence of characters.
    pub open spec fn text(&self) -> Seq<char> {
        match self {
            ConfigError::Io(m) => m@,
            ConfigError::Parse(m) => m@,
            ConfigError::Network(m) => m@,
            ConfigError::Serialize(m) => m@,
            ConfigError::Deserialize(m) => m@,
            ConfigError::InvalidPath => "Invalid attribute string"@,
            ConfigError::PathNotFound => "Path not found"@,
        }
    }

    /// What the error says.
    pub fn message(&self) -> (m: String)
        ensures
            m@ == self.text(),
    {
        match self {
            ConfigError::Io(m) => m.clone(),
            ConfigError::Parse(m) => m.clone(),
            ConfigError::Network(m) => m.clone(),
            ConfigError::Serialize(m) => m.clone(),
            ConfigError::Deserialize(m) => m.clone(),
            ConfigError::InvalidPath => String::from_str("Invalid attribute string"),
            ConfigError::PathNotFound => String::from_str("Path not found"),
        }
    }
}

impl Clone for ConfigError {
    fn clone(&self) -> (r: ConfigError)
        ensures
            r == *self,
    {
        match self {
            ConfigError::Io(m) => ConfigError::Io(m.clone()),
            ConfigError::Parse(m) => ConfigError::Parse(m.clone()),
            ConfigError::Network(m) => ConfigError::Network(m.clone()),
            ConfigError::Serialize(m) => ConfigError::Serialize(m.clone()),
            ConfigError::Deserialize(m) => ConfigError::Deserialize(m.clone()),
            ConfigError::InvalidPath => ConfigError::InvalidPath,
            ConfigError::PathNotFound => ConfigError::PathNotFound,
        }
    }
}

} // verus!
