//! The data carried by a session: who opened it, from which platform, and
//! the state of the project it tracks.
use vstd::prelude::*;

verus! {

/// A session identifier: the 128-bit value of a UUID.
pub type SessionId = u128;

/// The kind of client environment a session comes from.
#[derive(Debug, Clone)]
pub enum PlatformType {
    Replit,
    GitHubCodespaces,
    LocalVSCode,
    DockerRust,
    CustomRustPlatform(String),
}

/// A capability granted to a session's user when the session is created.
#[derive(Debug, Clone, Copy, PartialEq, Eq, Structural)]
pub enum Permission {
    Read,
    Write,
    Admin,
    Deploy,
}

/// Who opened a session.
#[derive(Debug, Clone)]
pub struct UserDetails {
    pub username: String,
    pub email: String,
    pub github_token: Option<String>,
    pub replit_token: Option<String>,
    pub permissions: Vec<Permission>,
}

/// The build state of a project; exactly one variant holds at a time.
#[derive(Debug, Clone)]
pub enum CompilationStatus {
    Success(String),
    Error(String),
    InProgress,
    Pending,
}

impl CompilationStatus {
    /// Whether the compilation succeeded.
    pub fn is_success(&self) -> (r: bool)
        ensures
            r == (*self is Success),
    {
        match self {
            CompilationStatus::Success(_) => true,
            _ => false,
        }
    }
}

/// The outcome of a deployment. `timestamp` is in milliseconds since the
/// Unix epoch, UTC.
#[derive(Debug, Clone)]
pub struct DeploymentStatus {
    pub target: String,
    pub status: String,
    pub url: Option<String>,
    pub timestamp: i64,
}

/// A summary of a test run. Coverage is a percentage in hundredths
/// (`8250` stands for 82.50%).
#[derive(Debug, Clone, Copy, PartialEq, Eq, Structural)]
pub struct TestResults {
    pub total_tests: u32,
    pub passed: u32,
    pub failed: u32,
    pub coverage_hundredths: u32,
}

/// The snapshot of a project that a session tracks. A sync replaces it
/// as a whole.
#[derive(Debug, Clone)]
pub struct ProjectState {
    pub current_branch: String,
    pub files_modified: Vec<String>,
    pub compilation_status: CompilationStatus,
    pub deployment_status: Option<DeploymentStatus>,
    pub test_results: Option<TestResults>,
}

/// How a project is built.
#[derive(Debug, Clone, Copy, PartialEq, Eq, Structural)]
pub enum OptimizationLevel {
    Debug,
    Release,
    Performance,
    Size,
}

/// The toolchain settings a session starts with.
#[derive(Debug, Clone)]
pub struct RustPlatformConfig {
    pub version: String,
    pub edition: String,
    pub target: String,
    pub features: Vec<String>,
    pub wasm_support: bool,
    pub optimization_level: OptimizationLevel,
}

/// One session as the registry stores it. Timestamps are in milliseconds
/// since the Unix epoch, UTC.
#[derive(Debug, Clone)]
pub struct SessionData {
    pub id: SessionId,
    pub platform: PlatformType,
    pub user_details: UserDetails,
    pub project_state: ProjectState,
    pub rust_platform_config: RustPlatformConfig,
    pub created_at: i64,
    pub last_activity: i64,
    pub is_active: bool,
}

/// Why a request about a session was refused.
#[derive(Debug, Clone, Copy, PartialEq, Eq, Structural)]
pub enum SessionError {
    /// No session with the identifier exists.
    SessionNotFound,
    /// A token does not spell a session identifier.
    InvalidToken,
    /// A required field is missing from a request.
    MalformedRequest,
}

/// What a request asks for.
#[derive(Debug, Clone, Copy, PartialEq, Eq, Structural)]
pub enum SessionAction {
    CreateSession,
    UpdateState,
    SyncPlatform,
    DeployProject,
    RunTests,
    GetStatus,
}

/// A request to open a session.
#[derive(Debug, Clone)]
pub struct SessionRequest {
    pub action: SessionAction,
    pub platform: PlatformType,
    pub user_details: Option<UserDetails>,
}

/// The number of active sessions that share one platform name.
#[derive(Debug, Clone)]
pub struct PlatformCount {
    pub platform: String,
    pub count: usize,
}

/// Aggregate counters over the active sessions.
#[derive(Debug, Clone)]
pub struct StatusReport {
    pub active_sessions: usize,
    pub compilation_success: usize,
    pub deployment_success: usize,
    pub platform_distribution: Vec<PlatformCount>,
    pub system_ready: bool,
}

/// The payload some responses carry.
#[derive(Debug, Clone)]
pub enum ResponseData {
    Deployment { deployment_url: String, timestamp: i64 },
    Status(StatusReport),
}

/// The envelope every operation answers with.
#[derive(Debug, Clone)]
pub struct SessionResponse {
    pub success: bool,
    pub session_id: Option<SessionId>,
    pub message: String,
    pub data: Option<ResponseData>,
}

/// The user a session gets when the request names none.
pub open spec fn is_default_user(u: UserDetails) -> bool {
    &&& u.username@ == "cathedral-dev"@
    &&& u.email@ == "dev@cathedral.magnus"@
    &&& u.github_token is None
    &&& u.replit_token is None
    &&& u.permissions@ == seq![Permission::Read, Permission::Write]
}

impl Default for UserDetails {
    fn default() -> (r: Self)
        ensures
            is_default_user(r),
    {
        UserDetails {
            username: String::from_str("cathedral-dev"),
            email: String::from_str("dev@cathedral.magnus"),
            github_token: None,
            replit_token: None,
            permissions: vec![Permission::Read, Permission::Write],
        }
    }
}

/// The toolchain settings every new session starts with.
pub open spec fn is_default_config(c: RustPlatformConfig) -> bool {
    &&& c.version@ == "1.75.0"@
    &&& c.edition@ == "2021"@
    &&& c.target@ == "stable"@
    &&& c.features@.len() == 1
    &&& c.features@[0]@ == "default"@
    &&& c.wasm_support
    &&& c.optimization_level == OptimizationLevel::Release
}

impl Default for RustPlatformConfig {
    fn default() -> (r: Self)
        ensures
            is_default_config(r),
    {
        RustPlatformConfig {
            version: String::from_str("1.75.0"),
            edition: String::from_str("2021"),
            target: String::from_str("stable"),
            features: vec![String::from_str("default")],
            wasm_support: true,
            optimization_level: OptimizationLevel::Release,
        }
    }
}

/// The project state of a freshly created session: branch `main`, nothing
/// modified, compilation pending, no deployment and no test results.
pub open spec fn is_initial_project_state(p: ProjectState) -> bool {
    &&& p.current_branch@ == "main"@
    &&& p.files_modified@.len() == 0
    &&& p.compilation_status is Pending
    &&& p.deployment_status is None
    &&& p.test_results is None
}

impl ProjectState {
    /// The project state a new session starts with.
    pub fn initial() -> (r: Self)
        ensures
            is_initial_project_state(r),
    {
        ProjectState {
            current_branch: String::from_str("main"),
            files_modified: Vec::new(),
            compilation_status: CompilationStatus::Pending,
            deployment_status: None,
            test_results: None,
        }
    }
}

} // verus!
