use cathedral_session_manager::manager::CathedralSessionManager;
use cathedral_session_manager::model::{
    CompilationStatus, OptimizationLevel, Permission, PlatformType, ProjectState, ResponseData,
    SessionAction, SessionError, SessionRequest, StatusReport, UserDetails,
};

fn request(platform: PlatformType, user: Option<UserDetails>) -> SessionRequest {
    SessionRequest { action: SessionAction::CreateSession, platform, user_details: user }
}

fn alice() -> UserDetails {
    UserDetails {
        username: "alice".to_string(),
        email: "alice@example.org".to_string(),
        github_token: None,
        replit_token: None,
        permissions: vec![Permission::Read],
    }
}

fn state(branch: &str, files: &[&str], status: CompilationStatus) -> ProjectState {
    ProjectState {
        current_branch: branch.to_string(),
        files_modified: files.iter().map(|f| f.to_string()).collect(),
        compilation_status: status,
        deployment_status: None,
        test_results: None,
    }
}

fn report(manager: &CathedralSessionManager) -> StatusReport {
    let response = manager.get_status();
    assert!(response.success);
    assert!(response.session_id.is_none());
    assert_eq!(response.message, "Status retrieved successfully");
    match response.data {
        Some(ResponseData::Status(report)) => report,
        _ => panic!("status response without a report"),
    }
}

fn count_for(report: &StatusReport, name: &str) -> Option<usize> {
    report.platform_distribution.iter().find(|c| c.platform == name).map(|c| c.count)
}

#[test]
fn create_replit_alice_then_status() {
    let mut manager = CathedralSessionManager::new();
    let response = manager.create_session(request(PlatformType::Replit, Some(alice())));
    assert!(response.success);
    assert!(response.session_id.is_some());
    assert_eq!(response.message, "Cathedral session created successfully on Replit");
    let report = report(&manager);
    assert_eq!(report.active_sessions, 1);
    assert_eq!(report.platform_distribution.len(), 1);
    assert_eq!(count_for(&report, "Replit"), Some(1));
    assert!(report.system_ready);
}

#[test]
fn deploy_unknown_session_is_not_found() {
    let mut manager = CathedralSessionManager::new();
    let response = manager.deploy_to_master(0x123e4567_e89b_12d3_a456_426614174000);
    assert!(!response.success);
    assert!(response.message.contains("not found"));
    assert!(response.session_id.is_none());
    assert!(response.data.is_none());
    assert_eq!(report(&manager).active_sessions, 0);
}

#[test]
fn sync_success_counts_in_status() {
    let mut manager = CathedralSessionManager::new();
    let id = manager.create_session(request(PlatformType::Replit, None)).session_id.unwrap();
    assert_eq!(report(&manager).compilation_success, 0);
    let response =
        manager.sync_project_state(id, state("main", &[], CompilationStatus::Success("ok".to_string())));
    assert!(response.success);
    assert_eq!(response.session_id, Some(id));
    assert_eq!(response.message, "Project state synchronized successfully");
    assert_eq!(report(&manager).compilation_success, 1);
}

#[test]
fn create_adds_one_per_platform_kind() {
    let mut manager = CathedralSessionManager::new();
    let kinds = vec![
        (PlatformType::Replit, "Replit"),
        (PlatformType::GitHubCodespaces, "GitHub Codespaces"),
        (PlatformType::LocalVSCode, "Local VSCode"),
        (PlatformType::DockerRust, "Docker Rust"),
        (PlatformType::CustomRustPlatform("gitpod".to_string()), "gitpod"),
        (PlatformType::Replit, "Replit"),
    ];
    for (i, (kind, name)) in kinds.into_iter().enumerate() {
        let before = report(&manager);
        let response = manager.create_session(request(kind, None));
        assert!(response.success);
        assert_eq!(response.message, format!("Cathedral session created successfully on {}", name));
        let after = report(&manager);
        assert_eq!(after.active_sessions, before.active_sessions + 1);
        assert_eq!(after.active_sessions, i + 1);
        assert_eq!(count_for(&after, name), Some(count_for(&before, name).unwrap_or(0) + 1));
    }
    let last = report(&manager);
    assert_eq!(last.platform_distribution.len(), 5);
    assert_eq!(count_for(&last, "Replit"), Some(2));
}

#[test]
fn custom_platform_named_like_a_known_one_groups_with_it() {
    let mut manager = CathedralSessionManager::new();
    manager.create_session(request(PlatformType::Replit, None));
    manager.create_session(request(PlatformType::CustomRustPlatform("Replit".to_string()), None));
    let report = report(&manager);
    assert_eq!(report.platform_distribution.len(), 1);
    assert_eq!(count_for(&report, "Replit"), Some(2));
}

#[test]
fn create_with_given_identifier_and_time() {
    let mut manager = CathedralSessionManager::new();
    let response = manager.create_session_with(request(PlatformType::DockerRust, Some(alice())), 42, 1_000);
    assert!(response.success);
    assert_eq!(response.session_id, Some(42));
    let record = manager.get_session(42).unwrap();
    assert_eq!(record.id, 42);
    assert!(matches!(record.platform, PlatformType::DockerRust));
    assert_eq!(record.user_details.username, "alice");
    assert_eq!(record.project_state.current_branch, "main");
    assert!(record.project_state.files_modified.is_empty());
    assert!(matches!(record.project_state.compilation_status, CompilationStatus::Pending));
    assert!(record.project_state.deployment_status.is_none());
    assert_eq!(record.rust_platform_config.version, "1.75.0");
    assert_eq!(record.rust_platform_config.edition, "2021");
    assert_eq!(record.rust_platform_config.features, vec!["default".to_string()]);
    assert_eq!(record.rust_platform_config.optimization_level, OptimizationLevel::Release);
    assert_eq!(record.created_at, 1_000);
    assert_eq!(record.last_activity, 1_000);
    assert!(record.is_active);
}

#[test]
fn create_without_user_takes_default_user() {
    let mut manager = CathedralSessionManager::new();
    manager.create_session_with(request(PlatformType::Replit, None), 7, 0);
    let user = &manager.get_session(7).unwrap().user_details;
    assert_eq!(user.username, "cathedral-dev");
    assert_eq!(user.email, "dev@cathedral.magnus");
    assert_eq!(user.permissions, vec![Permission::Read, Permission::Write]);
}

#[test]
fn create_with_identifier_in_use_changes_nothing() {
    let mut manager = CathedralSessionManager::new();
    assert!(manager.create_session_with(request(PlatformType::Replit, None), 9, 5).success);
    let response = manager.create_session_with(request(PlatformType::LocalVSCode, Some(alice())), 9, 6);
    assert!(!response.success);
    assert!(response.session_id.is_none());
    assert_eq!(response.message, "Session identifier already in use");
    assert_eq!(report(&manager).active_sessions, 1);
    assert!(matches!(manager.get_session(9).unwrap().platform, PlatformType::Replit));
}

#[test]
fn random_identifiers_are_version_four_and_distinct() {
    let mut manager = CathedralSessionManager::new();
    let a = manager.create_session(request(PlatformType::Replit, None)).session_id.unwrap();
    let b = manager.create_session(request(PlatformType::Replit, None)).session_id.unwrap();
    assert_ne!(a, b);
    assert_eq!((a >> 76) & 0xf, 4);
    assert_eq!((b >> 76) & 0xf, 4);
}

#[test]
fn create_stamps_current_time() {
    let mut manager = CathedralSessionManager::new();
    let id = manager.create_session(request(PlatformType::Replit, None)).session_id.unwrap();
    let record = manager.get_session(id).unwrap();
    // 2020-01-01T00:00:00Z in milliseconds
    assert!(record.created_at > 1_577_836_800_000);
    assert_eq!(record.created_at, record.last_activity);
}

#[test]
fn unknown_session_sync_and_lookup_are_not_found() {
    let mut manager = CathedralSessionManager::new();
    manager.create_session_with(request(PlatformType::Replit, None), 1, 10);
    let response = manager.sync_project_state(2, state("dev", &["a.rs"], CompilationStatus::InProgress));
    assert!(!response.success);
    assert_eq!(response.message, "Session not found");
    assert!(response.session_id.is_none());
    assert_eq!(report(&manager).active_sessions, 1);
    assert_eq!(manager.get_session(2).err(), Some(SessionError::SessionNotFound));
    let response = manager.deploy_to_master_at(2, 20);
    assert!(!response.success);
    assert_eq!(report(&manager).active_sessions, 1);
    assert!(manager.get_session(1).unwrap().project_state.deployment_status.is_none());
}

#[test]
fn sync_twice_replaces_files() {
    let mut manager = CathedralSessionManager::new();
    manager.create_session_with(request(PlatformType::Replit, None), 3, 0);
    let files = ["src/lib.rs", "README.md"];
    for t in [10, 20] {
        let response = manager.sync_project_state_at(3, state("feature", &files, CompilationStatus::Pending), t);
        assert!(response.success);
    }
    let record = manager.get_session(3).unwrap();
    assert_eq!(record.project_state.files_modified, vec!["src/lib.rs".to_string(), "README.md".to_string()]);
    assert_eq!(record.project_state.current_branch, "feature");
    assert_eq!(record.last_activity, 20);
}

#[test]
fn last_activity_never_moves_backwards() {
    let mut manager = CathedralSessionManager::new();
    manager.create_session_with(request(PlatformType::Replit, None), 4, 100);
    manager.sync_project_state_at(4, state("main", &[], CompilationStatus::Pending), 50);
    assert_eq!(manager.get_session(4).unwrap().last_activity, 100);
    manager.sync_project_state_at(4, state("main", &[], CompilationStatus::Pending), 150);
    assert_eq!(manager.get_session(4).unwrap().last_activity, 150);
    manager.deploy_to_master_at(4, 120);
    assert_eq!(manager.get_session(4).unwrap().last_activity, 150);
    manager.deploy_to_master_at(4, 200);
    assert_eq!(manager.get_session(4).unwrap().last_activity, 200);
    assert_eq!(manager.get_session(4).unwrap().created_at, 100);
}

#[test]
fn serialized_syncs_keep_the_last_state() {
    let mut manager = CathedralSessionManager::new();
    manager.create_session_with(request(PlatformType::Replit, None), 5, 0);
    manager.create_session_with(request(PlatformType::LocalVSCode, None), 6, 0);
    let branches = ["one", "two", "three", "four"];
    for (t, b) in branches.iter().enumerate() {
        manager.sync_project_state_at(5, state(b, &[b], CompilationStatus::Error(b.to_string())), t as i64);
    }
    let record = manager.get_session(5).unwrap();
    assert_eq!(record.project_state.current_branch, "four");
    assert_eq!(record.project_state.files_modified, vec!["four".to_string()]);
    assert!(matches!(&record.project_state.compilation_status, CompilationStatus::Error(m) if m == "four"));
    assert_eq!(manager.get_session(6).unwrap().project_state.current_branch, "main");
}

#[test]
fn deploy_records_deployment() {
    let mut manager = CathedralSessionManager::new();
    manager.create_session_with(request(PlatformType::GitHubCodespaces, None), 8, 0);
    let response = manager.deploy_to_master_at(8, 77);
    assert!(response.success);
    assert_eq!(response.session_id, Some(8));
    assert_eq!(response.message, "Deployment to master repository successful");
    match response.data {
        Some(ResponseData::Deployment { deployment_url, timestamp }) => {
            assert_eq!(deployment_url, "https://bekalah.github.io/cathedral");
            assert_eq!(timestamp, 77);
        }
        _ => panic!("deployment response without its data"),
    }
    let deployment = manager.get_session(8).unwrap().project_state.deployment_status.clone().unwrap();
    assert_eq!(deployment.target, "master");
    assert_eq!(deployment.status, "deployed");
    assert_eq!(deployment.url.as_deref(), Some("https://bekalah.github.io/cathedral"));
    assert_eq!(deployment.timestamp, 77);
    assert_eq!(report(&manager).deployment_success, 1);
}

#[test]
fn deploy_with_clock_succeeds_for_known_session() {
    let mut manager = CathedralSessionManager::new();
    let id = manager.create_session(request(PlatformType::Replit, None)).session_id.unwrap();
    let response = manager.deploy_to_master(id);
    assert!(response.success);
    assert!(manager.get_session(id).unwrap().project_state.deployment_status.is_some());
}

#[test]
fn sync_after_deploy_replaces_deployment_status() {
    let mut manager = CathedralSessionManager::new();
    manager.create_session_with(request(PlatformType::Replit, None), 11, 0);
    manager.deploy_to_master_at(11, 1);
    assert_eq!(report(&manager).deployment_success, 1);
    manager.sync_project_state_at(11, state("main", &[], CompilationStatus::Pending), 2);
    assert_eq!(report(&manager).deployment_success, 0);
}

#[test]
fn empty_registry_status() {
    let manager = CathedralSessionManager::new();
    let report = report(&manager);
    assert_eq!(report.active_sessions, 0);
    assert_eq!(report.compilation_success, 0);
    assert_eq!(report.deployment_success, 0);
    assert!(report.platform_distribution.is_empty());
}

#[test]
fn concurrent_syncs_leave_one_whole_input() {
    let runtime = tokio::runtime::Runtime::new().unwrap();
    runtime.block_on(async {
        let shared = std::sync::Arc::new(tokio::sync::RwLock::new(CathedralSessionManager::new()));
        assert!(shared.write().await.create_session_with(request(PlatformType::Replit, None), 1, 0).success);
        let mut handles = Vec::new();
        for k in 0..16i64 {
            let manager = shared.clone();
            handles.push(tokio::spawn(async move {
                let branch = format!("b{}", k);
                let file = format!("f{}", k);
                let input = state(&branch, &[file.as_str()], CompilationStatus::Error(format!("e{}", k)));
                manager.write().await.sync_project_state_at(1, input, k)
            }));
        }
        for handle in handles {
            assert!(handle.await.unwrap().success);
        }
        let manager = shared.read().await;
        let record = manager.get_session(1).unwrap();
        let k: i64 = record.project_state.current_branch[1..].parse().unwrap();
        assert!((0..16).contains(&k));
        assert_eq!(record.project_state.files_modified, vec![format!("f{}", k)]);
        assert!(matches!(&record.project_state.compilation_status, CompilationStatus::Error(m) if *m == format!("e{}", k)));
        assert_eq!(record.last_activity, 15);
        assert_eq!(report(&manager).active_sessions, 1);
    });
}

#[test]
fn create_on_new_manager_registers_alice() {
    let mut manager = CathedralSessionManager::new();
    let response = manager.create_session(request(PlatformType::Replit, Some(alice())));
    assert!(response.success);
    assert!(response.data.is_none());
    let record = manager.get_session(response.session_id.unwrap()).unwrap();
    assert_eq!(record.user_details.username, "alice");
    assert!(record.is_active);
}
