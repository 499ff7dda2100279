//! Platform kinds: their display names, how they are named in requests,
//! and the adapter that performs platform-specific work.
use vstd::prelude::*;
use crate::model::{PlatformType, ProjectState, SessionId};

verus! {

/// The address every deployment publishes to.
pub open spec fn master_repository_url() -> Seq<char> {
    "https://bekalah.github.io/cathedral"@
}

/// The name under which a platform kind is shown and grouped.
pub open spec fn platform_label(p: PlatformType) -> Seq<char> {
    match p {
        PlatformType::Replit => "Replit"@,
        PlatformType::GitHubCodespaces => "GitHub Codespaces"@,
        PlatformType::LocalVSCode => "Local VSCode"@,
        PlatformType::DockerRust => "Docker Rust"@,
        PlatformType::CustomRustPlatform(name) => name@,
    }
}

/// The platform kind that a request string names: the four known strings
/// name their kind, anything else names a custom platform of that name.
pub open spec fn names_platform(s: Seq<char>, p: PlatformType) -> bool {
    if s == "replit"@ {
        p is Replit
    } else if s == "github-codespaces"@ {
        p is GitHubCodespaces
    } else if s == "local-vscode"@ {
        p is LocalVSCode
    } else if s == "docker-rust"@ {
        p is DockerRust
    } else {
        p matches PlatformType::CustomRustPlatform(name) && name@ == s
    }
}

/// Returns the display name of a platform kind.
pub fn platform_name(platform: &PlatformType) -> (r: &str)
    ensures
        r@ == platform_label(*platform),
{
    match platform {
        PlatformType::Replit => "Replit",
        PlatformType::GitHubCodespaces => "GitHub Codespaces",
        PlatformType::LocalVSCode => "Local VSCode",
        PlatformType::DockerRust => "Docker Rust",
        PlatformType::CustomRustPlatform(name) => name.as_str(),
    }
}

impl PlatformType {
    /// A copy of this platform kind.
    pub fn duplicate(&self) -> (r: Self)
        ensures
            r == *self,
    {
        match self {
            PlatformType::Replit => PlatformType::Replit,
            PlatformType::GitHubCodespaces => PlatformType::GitHubCodespaces,
            PlatformType::LocalVSCode => PlatformType::LocalVSCode,
            PlatformType::DockerRust => PlatformType::DockerRust,
            PlatformType::CustomRustPlatform(name) => PlatformType::CustomRustPlatform(name.clone()),
        }
    }
}

/// Reads a platform kind from the platform field of a request; a request
/// without one is taken to come from Replit.
pub fn extract_platform_type(platform: Option<&str>) -> (r: PlatformType)
    ensures
        platform is None ==> r is Replit,
        platform matches Some(s) ==> names_platform(s@, r),
{
    match platform {
        None => PlatformType::Replit,
        Some(s) => {
            let given = String::from_str(s);
            if given == String::from_str("replit") {
                PlatformType::Replit
            } else if given == String::from_str("github-codespaces") {
                PlatformType::GitHubCodespaces
            } else if given == String::from_str("local-vscode") {
                PlatformType::LocalVSCode
            } else if given == String::from_str("docker-rust") {
                PlatformType::DockerRust
            } else {
                PlatformType::CustomRustPlatform(given)
            }
        },
    }
}

/// Why a platform refused or failed a request.
#[derive(Debug, Clone)]
pub enum PlatformError {
    Validation(String),
    Init(String),
    Sync(String),
    Deploy(String),
}

impl PlatformError {
    /// The human-readable explanation the platform gave.
    pub open spec fn detail(&self) -> Seq<char> {
        match self {
            PlatformError::Validation(m) => m@,
            PlatformError::Init(m) => m@,
            PlatformError::Sync(m) => m@,
            PlatformError::Deploy(m) => m@,
        }
    }

    /// Returns the explanation the platform gave.
    pub fn message(&self) -> (r: &str)
        ensures
            r@ == self.detail(),
    {
        match self {
            PlatformError::Validation(m) => m.as_str(),
            PlatformError::Init(m) => m.as_str(),
            PlatformError::Sync(m) => m.as_str(),
            PlatformError::Deploy(m) => m.as_str(),
        }
    }
}

/// The adapter through which the coordinator validates, initializes,
/// syncs and deploys on every platform kind alike.
///
/// Each capability is a stand-in that succeeds for every kind; an adapter
/// that reaches real platforms replaces these bodies.
pub struct PlatformIntegrations {}

impl PlatformIntegrations {
    pub fn new() -> (r: Self) {
        PlatformIntegrations {}
    }

    /// Checks that a platform can take sessions.
    pub fn validate_platform(&self, platform: &PlatformType) -> (r: Result<(), PlatformError>)
        ensures
            r is Ok,
    {
        match platform {
            PlatformType::Replit => Ok(()),
            PlatformType::GitHubCodespaces => Ok(()),
            _ => Ok(()),
        }
    }

    /// Performs the platform's bootstrap for a new session.
    pub fn initialize_platform(&self, platform: &PlatformType, session_id: SessionId) -> (r: Result<
        (),
        PlatformError,
    >)
        ensures
            r is Ok,
    {
        match platform {
            PlatformType::Replit => Ok(()),
            PlatformType::GitHubCodespaces => Ok(()),
            _ => Ok(()),
        }
    }

    /// Propagates a session's project state to its platform.
    pub fn sync_with_platform(
        &self,
        platform: &PlatformType,
        session_id: SessionId,
        project_state: &ProjectState,
    ) -> (r: Result<(), PlatformError>)
        ensures
            r is Ok,
    {
        match platform {
            PlatformType::Replit => Ok(()),
            PlatformType::GitHubCodespaces => Ok(()),
            _ => Ok(()),
        }
    }

    /// Deploys a session's project and returns the address it is live at.
    pub fn deploy_to_master_repository(&self, platform: &PlatformType, session_id: SessionId) -> (r:
        Result<String, PlatformError>)
        ensures
            r matches Ok(url) && url@ == master_repository_url(),
    {
        Ok(String::from_str("https://bekalah.github.io/cathedral"))
    }
}

} // verus!
