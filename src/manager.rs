//! The coordinator: turns requests into registry operations and adapter
//! calls, and answers each with a response envelope.
use vstd::prelude::*;
use crate::clock::now_millis;
use crate::ids::new_session_id;
use crate::model::{
    DeploymentStatus, PlatformType, ProjectState, ResponseData, SessionData, SessionError,
    SessionId, SessionRequest, SessionResponse, UserDetails, is_default_user,
};
use crate::platform::{PlatformError, PlatformIntegrations, master_repository_url, platform_label, platform_name};
use crate::registry::{
    SessionRegistry, active_records, activity_kept, contains_id, deployed, ids_unique, index_of, is_fresh_record,
    synced,
};
use crate::security::SecurityManager;
use crate::status::{describes_status, summarize};

verus! {

/// The message of a session created on a platform.
pub open spec fn created_message(p: PlatformType) -> Seq<char> {
    "Cathedral session created successfully on "@ + platform_label(p)
}

/// The user a request puts on its session: the one it names, else the
/// default user.
pub open spec fn requested_user(request: SessionRequest, user: UserDetails) -> bool {
    match request.user_details {
        Some(u) => user == u,
        None => is_default_user(user),
    }
}

/// The answer to a request about an unknown session.
pub open spec fn is_not_found(r: SessionResponse) -> bool {
    &&& !r.success
    &&& r.session_id is None
    &&& r.message@ == "Session not found"@
    &&& r.data is None
}

/// The deployment status recorded for a deployment to `url` at `now`.
pub open spec fn is_master_deployment(d: DeploymentStatus, url: Seq<char>, now: i64) -> bool {
    &&& d.target@ == "master"@
    &&& d.status@ == "deployed"@
    &&& d.url matches Some(u) && u@ == url
    &&& d.timestamp == now
}

/// Builds the answer to a session creation from the platform's setup
/// result; a failed setup leaves the session registered but says so.
pub fn creation_response(platform: &PlatformType, session_id: SessionId, setup: Result<
    (),
    PlatformError,
>) -> (r: SessionResponse)
    ensures
        r.session_id == Some(session_id),
        r.data is None,
        setup is Ok ==> r.success && r.message@ == created_message(*platform),
        setup matches Err(e) ==> !r.success && r.message@ == "Platform setup failed: "@
            + e.detail(),
{
    match setup {
        Ok(()) => {
            let mut message = String::from_str("Cathedral session created successfully on ");
            message.append(platform_name(platform));
            SessionResponse { success: true, session_id: Some(session_id), message, data: None }
        },
        Err(e) => {
            let mut message = String::from_str("Platform setup failed: ");
            message.append(e.message());
            SessionResponse { success: false, session_id: Some(session_id), message, data: None }
        },
    }
}

/// Builds the answer to a platform that refused a new session.
pub fn validation_failure_response(error: &PlatformError) -> (r: SessionResponse)
    ensures
        !r.success,
        r.session_id is None,
        r.data is None,
        r.message@ == "Platform validation failed: "@ + error.detail(),
{
    let mut message = String::from_str("Platform validation failed: ");
    message.append(error.message());
    SessionResponse { success: false, session_id: None, message, data: None }
}

/// Builds the answer to a request about an unknown session.
pub fn not_found_response() -> (r: SessionResponse)
    ensures
        is_not_found(r),
{
    SessionResponse {
        success: false,
        session_id: None,
        message: String::from_str("Session not found"),
        data: None,
    }
}

/// Builds the answer to a sync from the platform's result.
pub fn sync_response(session_id: SessionId, result: Result<(), PlatformError>) -> (r:
    SessionResponse)
    ensures
        r.session_id == Some(session_id),
        r.data is None,
        result is Ok ==> r.success && r.message@ == "Project state synchronized successfully"@,
        result matches Err(e) ==> !r.success && r.message@ == "Sync failed: "@ + e.detail(),
{
    match result {
        Ok(()) => SessionResponse {
            success: true,
            session_id: Some(session_id),
            message: String::from_str("Project state synchronized successfully"),
            data: None,
        },
        Err(e) => {
            let mut message = String::from_str("Sync failed: ");
            message.append(e.message());
            SessionResponse { success: false, session_id: Some(session_id), message, data: None }
        },
    }
}

/// Builds the answer to a deployment from the platform's result: on
/// success the address it is live at and the time.
pub fn deploy_response(session_id: SessionId, result: Result<String, PlatformError>, now: i64) -> (r:
    SessionResponse)
    ensures
        r.session_id == Some(session_id),
        result matches Ok(url) ==> r.success && r.message@
            == "Deployment to master repository successful"@ && (r.data matches Some(
            ResponseData::Deployment { deployment_url, timestamp },
        ) && deployment_url@ == url@ && timestamp == now),
        result matches Err(e) ==> !r.success && r.message@ == "Deployment failed: "@ + e.detail()
            && r.data is None,
{
    match result {
        Ok(url) => SessionResponse {
            success: true,
            session_id: Some(session_id),
            message: String::from_str("Deployment to master repository successful"),
            data: Some(ResponseData::Deployment { deployment_url: url, timestamp: now }),
        },
        Err(e) => {
            let mut message = String::from_str("Deployment failed: ");
            message.append(e.message());
            SessionResponse { success: false, session_id: Some(session_id), message, data: None }
        },
    }
}

/// The coordinator: owns the registry, the platform adapter and the token
/// reader.
pub struct CathedralSessionManager {
    sessions: SessionRegistry,
    platform_integrations: PlatformIntegrations,
    security: SecurityManager,
}

impl View for CathedralSessionManager {
    type V = Seq<SessionData>;

    closed spec fn view(&self) -> Seq<SessionData> {
        self.sessions@
    }
}

impl CathedralSessionManager {
    /// One record per identifier.
    pub open spec fn wf(&self) -> bool {
        ids_unique(self@)
    }

    /// A coordinator with no sessions.
    pub fn new() -> (r: Self)
        ensures
            r.wf(),
            r@ == Seq::<SessionData>::empty(),
    {
        CathedralSessionManager {
            sessions: SessionRegistry::new(),
            platform_integrations: PlatformIntegrations::new(),
            security: SecurityManager::new(),
        }
    }

    /// The token reader.
    pub fn security(&self) -> (r: &SecurityManager) {
        &self.security
    }

    /// Looks a session up.
    pub fn get_session(&self, session_id: SessionId) -> (r: Result<&SessionData, SessionError>)
        requires
            self.wf(),
        ensures
            contains_id(self@, session_id) ==> (r matches Ok(rec) && *rec == self@[index_of(
                self@,
                session_id,
            )]),
            !contains_id(self@, session_id) ==> r == Err::<&SessionData, SessionError>(
                SessionError::SessionNotFound,
            ),
    {
        self.sessions.get(session_id)
    }

    /// Opens a session under a fresh random identifier at the current time;
    /// see `create_session_with`.
    pub fn create_session(&mut self, request: SessionRequest) -> (r: SessionResponse)
        requires
            old(self).wf(),
        ensures
            final(self).wf(),
            activity_kept(old(self)@, final(self)@),
            r.success ==> r.session_id is Some,
            r.success ==> {
                let id = r.session_id->Some_0;
                let created = final(self)@.last();
                &&& !contains_id(old(self)@, id)
                &&& final(self)@.len() == old(self)@.len() + 1
                &&& final(self)@.drop_last() == old(self)@
                &&& exists|now: i64|
                    #[trigger] is_fresh_record(created, id, request.platform, created.user_details, now)
                &&& requested_user(request, created.user_details)
                &&& r.message@ == created_message(request.platform)
                &&& r.data is None
            },
            !r.success ==> {
                &&& final(self)@ == old(self)@
                &&& old(self)@.len() > 0
                &&& r.session_id is None
                &&& r.data is None
                &&& r.message@ == "Session identifier already in use"@
            },
            old(self)@.len() == 0 ==> r.success,
    {
        let session_id = new_session_id();
        let now = now_millis();
        self.create_session_with(request, session_id, now)
    }

    /// Opens a session under `session_id` at time `now`: the platform is
    /// validated, the record registered, then the platform initialized. An
    /// identifier already in use is refused and nothing changes.
    pub fn create_session_with(&mut self, request: SessionRequest, session_id: SessionId, now: i64) -> (r:
        SessionResponse)
        requires
            old(self).wf(),
        ensures
            final(self).wf(),
            activity_kept(old(self)@, final(self)@),
            !contains_id(old(self)@, session_id) ==> {
                &&& final(self)@.len() == old(self)@.len() + 1
                &&& final(self)@.drop_last() == old(self)@
                &&& is_fresh_record(
                    final(self)@.last(),
                    session_id,
                    request.platform,
                    final(self)@.last().user_details,
                    now,
                )
                &&& requested_user(request, final(self)@.last().user_details)
                &&& r.success
                &&& r.session_id == Some(session_id)
                &&& r.message@ == created_message(request.platform)
                &&& r.data is None
            },
            contains_id(old(self)@, session_id) ==> {
                &&& final(self)@ == old(self)@
                &&& !r.success
                &&& r.session_id is None
                &&& r.message@ == "Session identifier already in use"@
                &&& r.data is None
            },
    {
        match self.platform_integrations.validate_platform(&request.platform) {
            Ok(()) => {
                let platform = request.platform.duplicate();
                let user_details = match request.user_details {
                    Some(u) => u,
                    None => UserDetails::default(),
                };
                let ghost user = user_details;
                if !self.sessions.create(session_id, request.platform, user_details, now) {
                    return SessionResponse {
                        success: false,
                        session_id: None,
                        message: String::from_str("Session identifier already in use"),
                        data: None,
                    };
                }
                assert(self@.last().user_details == user);
                let setup = self.platform_integrations.initialize_platform(&platform, session_id);
                creation_response(&platform, session_id, setup)
            },
            Err(e) => validation_failure_response(&e),
        }
    }

    /// Replaces a session's project state at the current time; see
    /// `sync_project_state_at`.
    pub fn sync_project_state(&mut self, session_id: SessionId, project_state: ProjectState) -> (r:
        SessionResponse)
        requires
            old(self).wf(),
        ensures
            final(self).wf(),
            activity_kept(old(self)@, final(self)@),
            contains_id(old(self)@, session_id) ==> {
                let i = index_of(old(self)@, session_id);
                &&& exists|now: i64|
                    final(self)@ == old(self)@.update(i, #[trigger] synced(old(self)@[i], project_state, now))
                &&& r.success
                &&& r.session_id == Some(session_id)
                &&& r.message@ == "Project state synchronized successfully"@
                &&& r.data is None
            },
            !contains_id(old(self)@, session_id) ==> is_not_found(r) && final(self)@ == old(self)@,
    {
        let now = now_millis();
        self.sync_project_state_at(session_id, project_state, now)
    }

    /// Replaces a session's project state as a whole, bumps its last
    /// activity to `now`, then syncs the platform. An unknown session is
    /// reported and nothing changes.
    pub fn sync_project_state_at(
        &mut self,
        session_id: SessionId,
        project_state: ProjectState,
        now: i64,
    ) -> (r: SessionResponse)
        requires
            old(self).wf(),
        ensures
            final(self).wf(),
            activity_kept(old(self)@, final(self)@),
            contains_id(old(self)@, session_id) ==> {
                let i = index_of(old(self)@, session_id);
                &&& final(self)@ == old(self)@.update(i, synced(old(self)@[i], project_state, now))
                &&& r.success
                &&& r.session_id == Some(session_id)
                &&& r.message@ == "Project state synchronized successfully"@
                &&& r.data is None
            },
            !contains_id(old(self)@, session_id) ==> is_not_found(r) && final(self)@ == old(self)@,
    {
        match self.sessions.update_project_state(session_id, project_state, now) {
            Ok(()) => {
                assert(self.sessions@[index_of(old(self)@, session_id)].id == session_id);
                let record = self.sessions.get(session_id).unwrap();
                let result = self.platform_integrations.sync_with_platform(
                    &record.platform,
                    session_id,
                    &record.project_state,
                );
                sync_response(session_id, result)
            },
            Err(_) => not_found_response(),
        }
    }

    /// Deploys a session at the current time; see `deploy_to_master_at`.
    pub fn deploy_to_master(&mut self, session_id: SessionId) -> (r: SessionResponse)
        requires
            old(self).wf(),
        ensures
            final(self).wf(),
            activity_kept(old(self)@, final(self)@),
            contains_id(old(self)@, session_id) ==> {
                let i = index_of(old(self)@, session_id);
                let d = final(self)@[i].project_state.deployment_status->Some_0;
                &&& final(self)@[i].project_state.deployment_status is Some
                &&& exists|now: i64|
                    final(self)@ == old(self)@.update(i, #[trigger] deployed(old(self)@[i], d, now))
                        && is_master_deployment(d, master_repository_url(), now)
                &&& r.success
                &&& r.session_id == Some(session_id)
                &&& r.message@ == "Deployment to master repository successful"@
                &&& r.data matches Some(ResponseData::Deployment { deployment_url, timestamp })
                &&& deployment_url@ == master_repository_url()
                &&& timestamp == d.timestamp
            },
            !contains_id(old(self)@, session_id) ==> is_not_found(r) && final(self)@ == old(self)@,
    {
        let now = now_millis();
        self.deploy_to_master_at(session_id, now)
    }

    /// Deploys a session's project through its platform and, on success,
    /// records the deployment (target `master`, status `deployed`, the
    /// address, `now`) and bumps the session's last activity. An unknown
    /// session is reported and nothing changes.
    pub fn deploy_to_master_at(&mut self, session_id: SessionId, now: i64) -> (r: SessionResponse)
        requires
            old(self).wf(),
        ensures
            final(self).wf(),
            activity_kept(old(self)@, final(self)@),
            contains_id(old(self)@, session_id) ==> {
                let i = index_of(old(self)@, session_id);
                &&& final(self)@.len() == old(self)@.len()
                &&& final(self)@ == old(self)@.update(i, deployed(old(self)@[i], final(self)@[i].project_state.deployment_status->Some_0, now))
                &&& is_master_deployment(final(self)@[i].project_state.deployment_status->Some_0, master_repository_url(), now)
                &&& r.success
                &&& r.session_id == Some(session_id)
                &&& r.message@ == "Deployment to master repository successful"@
                &&& r.data matches Some(ResponseData::Deployment { deployment_url, timestamp })
                &&& deployment_url@ == master_repository_url()
                &&& timestamp == now
            },
            !contains_id(old(self)@, session_id) ==> is_not_found(r) && final(self)@ == old(self)@,
    {
        let platform = match self.sessions.get(session_id) {
            Ok(record) => record.platform.duplicate(),
            Err(_) => {
                return not_found_response();
            },
        };
        let result = self.platform_integrations.deploy_to_master_repository(&platform, session_id);
        match result {
            Ok(url) => {
                let status = DeploymentStatus {
                    target: String::from_str("master"),
                    status: String::from_str("deployed"),
                    url: Some(url.clone()),
                    timestamp: now,
                };
                let _ = self.sessions.mark_deployed(session_id, status, now);
                deploy_response(session_id, Ok(url), now)
            },
            Err(e) => deploy_response(session_id, Err(e), now),
        }
    }

    /// Reports on the active sessions: how many there are, how many
    /// compiled, how many were deployed, and their grouping by platform.
    pub fn get_status(&self) -> (r: SessionResponse)
        ensures
            r.success,
            r.session_id is None,
            r.message@ == "Status retrieved successfully"@,
            r.data matches Some(ResponseData::Status(report)) && describes_status(
                report,
                active_records(self@),
            ),
    {
        let active_sessions = self.sessions.snapshot_active();
        let report = summarize(&active_sessions);
        SessionResponse {
            success: true,
            session_id: None,
            message: String::from_str("Status retrieved successfully"),
            data: Some(ResponseData::Status(report)),
        }
    }
}

} // verus!
