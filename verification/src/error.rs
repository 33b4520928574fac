//! Error taxonomy of the generator.

use vstd::prelude::*;

verus! {

/// Every failure the generator can report.  Each variant carries the
/// user-facing detail text; `message` renders the single-line form that the
/// shell prints before exiting.
#[derive(Debug)]
pub enum GeneratorError {
    Io(String),
    InvalidProjectName(String),
    InvalidBundleId(String),
    AddonNotFound(String),
    InvalidAddonMode(String),
    InvalidEntryMode(String),
    InvalidTemplate(String),
    ProjectExists(String),
    ProjectNotFound(String),
    RootNotFound(String),
    Config(String),
    BuildFile(String),
    Validation(String),
    PlatformUnsupported(String),
    Other(String),
}

impl GeneratorError {
    /// The single-line message for this error, with its fixed prefix.
    pub open spec fn spec_message(&self) -> Seq<char> {
        match self {
            GeneratorError::Io(s) => "IO error: "@ + s@,
            GeneratorError::InvalidProjectName(s) => "Invalid project name: "@ + s@,
            GeneratorError::InvalidBundleId(s) => "Invalid bundle ID: "@ + s@,
            GeneratorError::AddonNotFound(s) => "Addon not found: "@ + s@,
            GeneratorError::InvalidAddonMode(s) => "Invalid addon mode: "@ + s@,
            GeneratorError::InvalidEntryMode(s) => "Invalid entry mode: "@ + s@,
            GeneratorError::InvalidTemplate(s) => "Invalid template: "@ + s@,
            GeneratorError::ProjectExists(s) => "Project already exists: "@ + s@,
            GeneratorError::ProjectNotFound(s) => "Project not found: "@ + s@,
            GeneratorError::RootNotFound(s) => "Root not found: "@ + s@,
            GeneratorError::Config(s) => "Config error: "@ + s@,
            GeneratorError::BuildFile(s) => "Build file error: "@ + s@,
            GeneratorError::Validation(s) => "Validation error: "@ + s@,
            GeneratorError::PlatformUnsupported(s) => "Platform not supported: "@ + s@,
            GeneratorError::Other(s) => s@,
        }
    }

    pub fn message(&self) -> (r: String)
        ensures
            r@ == self.spec_message(),
    {
        match self {
            GeneratorError::Io(s) => String::from_str("IO error: ").concat(s.as_str()),
            GeneratorError::InvalidProjectName(s) => String::from_str("Invalid project name: ").concat(s.as_str()),
            GeneratorError::InvalidBundleId(s) => String::from_str("Invalid bundle ID: ").concat(s.as_str()),
            GeneratorError::AddonNotFound(s) => String::from_str("Addon not found: ").concat(s.as_str()),
            GeneratorError::InvalidAddonMode(s) => String::from_str("Invalid addon mode: ").concat(s.as_str()),
            GeneratorError::InvalidEntryMode(s) => String::from_str("Invalid entry mode: ").concat(s.as_str()),
            GeneratorError::InvalidTemplate(s) => String::from_str("Invalid template: ").concat(s.as_str()),
            GeneratorError::ProjectExists(s) => String::from_str("Project already exists: ").concat(s.as_str()),
            GeneratorError::ProjectNotFound(s) => String::from_str("Project not found: ").concat(s.as_str()),
            GeneratorError::RootNotFound(s) => String::from_str("Root not found: ").concat(s.as_str()),
            GeneratorError::Config(s) => String::from_str("Config error: ").concat(s.as_str()),
            GeneratorError::BuildFile(s) => String::from_str("Build file error: ").concat(s.as_str()),
            GeneratorError::Validation(s) => String::from_str("Validation error: ").concat(s.as_str()),
            GeneratorError::PlatformUnsupported(s) => String::from_str("Platform not supported: ").concat(s.as_str()),
            GeneratorError::Other(s) => s.clone(),
        }
    }
}

} // verus!
