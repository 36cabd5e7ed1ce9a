//! Failures that the command line reports, each with the text shown to the user.

use vstd::prelude::*;
use vstd::string::StringExecFns;

verus! {

/// Why a command could not be started.
#[derive(Debug, Clone, Copy, PartialEq, Eq, Structural)]
pub enum RunnableError {
    InvalidManifest,
    InvalidModule,
    InvalidConfig,
    InvalidInventory,
    InvalidTarget,
    InvalidGroup,
    InvalidPath,
    InvalidDestination,
}

impl RunnableError {
    /// The text shown for this failure.
    pub open spec fn text(self) -> Seq<char> {
        match self {
            RunnableError::InvalidManifest => "Invalid manifest"@,
            RunnableError::InvalidModule => "Invalid module"@,
            RunnableError::InvalidConfig => "Invalid module path"@,
            RunnableError::InvalidInventory => "Invalid inventory"@,
            RunnableError::InvalidTarget => "Invalid target"@,
            RunnableError::InvalidGroup => "Invalid group"@,
            RunnableError::InvalidPath => "Invalid agent config"@,
            RunnableError::InvalidDestination => "Invalid destination"@,
        }
    }

    pub fn message(&self) -> (s: String)
        ensures
            s@ == self.text(),
    {
        match self {
            RunnableError::InvalidManifest => "Invalid manifest".to_string(),
            RunnableError::InvalidModule => "Invalid module".to_string(),
            RunnableError::InvalidConfig => "Invalid module path".to_string(),
            RunnableError::InvalidInventory => "Invalid inventory".to_string(),
            RunnableError::InvalidTarget => "Invalid target".to_string(),
            RunnableError::InvalidGroup => "Invalid group".to_string(),
            RunnableError::InvalidPath => "Invalid agent config".to_string(),
            RunnableError::InvalidDestination => "Invalid destination".to_string(),
        }
    }
}

/// Why `ship` refused to run.
#[derive(Debug, Clone, PartialEq, Eq)]
pub enum ClientError {
    /// No manifest at the path that was given.
    ManifestNotFound(String),
    /// Neither targets nor groups were named.
    TargetsOrGroupsRequired,
}

impl ClientError {
    /// The text shown for this failure.
    pub open spec fn text(self) -> Seq<char> {
        match self {
            ClientError::ManifestNotFound(path) => "Manifest not found at path "@ + path@,
            ClientError::TargetsOrGroupsRequired => "You must provide either targets or groups!"@,
        }
    }

    pub fn message(&self) -> (s: String)
        ensures
            s@ == self.text(),
    {
        match self {
            ClientError::ManifestNotFound(path) => {
                "Manifest not found at path ".to_string().concat(path.as_str())
            },
            ClientError::TargetsOrGroupsRequired => {
                "You must provide either targets or groups!".to_string()
            },
        }
    }
}

/// The agent's configuration file could not be used; holds its path.
#[derive(Debug, Clone, PartialEq, Eq)]
pub struct InvalidAgentConfigPath(pub String);

impl InvalidAgentConfigPath {
    /// The text shown for this failure.
    pub open spec fn text(self) -> Seq<char> {
        "Invalid agent config path "@ + self.0@
    }

    pub fn message(&self) -> (s: String)
        ensures
            s@ == self.text(),
    {
        "Invalid agent config path ".to_string().concat(self.0.as_str())
    }
}

} // verus!
