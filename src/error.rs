//! The failures of loading and saving a configuration record.
use vstd::prelude::*;

verus! {

/// Why a configuration record could not be loaded or saved.
#[derive(Debug, Clone, PartialEq, Eq)]
pub enum ConfigError {
    /// The file or its directory could not be created, read or written.
    Io(String),
    /// The stored text is not JSON, or does not have the record's shape.
    Parse(String),
}

impl ConfigError {
    /// The text of the failure, as handed to the user interface.
    pub fn message(&self) -> (r: String)
        ensures
            match self {
                ConfigError::Io(m) => r@ == m@,
                ConfigError::Parse(m) => r@ == m@,
            },
    {
        match self {
            ConfigError::Io(m) => m.clone(),
            ConfigError::Parse(m) => m.clone(),
        }
    }
}

} // verus!
