use vstd::prelude::*;

verus! {

/// Why a configuration could not be loaded.
#[derive(Clone, Copy, Debug, PartialEq, Eq, Structural)]
pub enum LoadError {
    /// The command line gave field `field` a text its kind cannot read.
    MalformedArguments { field: usize },
    /// The configuration file exists but its contents cannot be decoded.
    FileDecode,
}

impl LoadError {
    /// A human-readable description of the error.
    pub fn message(&self) -> String {
        match self {
            LoadError::MalformedArguments { .. } => "malformed command-line arguments".to_string(),
            LoadError::FileDecode => "the configuration file cannot be decoded".to_string(),
        }
    }
}

} // verus!
