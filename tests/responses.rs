use cathedral_session_manager::manager::{
    creation_response, deploy_response, not_found_response, sync_response,
    validation_failure_response,
};
use cathedral_session_manager::model::{PlatformType, ResponseData};
use cathedral_session_manager::platform::{
    extract_platform_type, platform_name, PlatformError, PlatformIntegrations,
};

#[test]
fn creation_response_success_and_setup_failure() {
    let platform = PlatformType::LocalVSCode;
    let ok = creation_response(&platform, 5, Ok(()));
    assert!(ok.success);
    assert_eq!(ok.session_id, Some(5));
    assert_eq!(ok.message, "Cathedral session created successfully on Local VSCode");
    let failed = creation_response(&platform, 5, Err(PlatformError::Init("webhook refused".to_string())));
    assert!(!failed.success);
    assert_eq!(failed.session_id, Some(5));
    assert_eq!(failed.message, "Platform setup failed: webhook refused");
}

#[test]
fn validation_failure_has_no_session() {
    let r = validation_failure_response(&PlatformError::Validation("unreachable".to_string()));
    assert!(!r.success);
    assert!(r.session_id.is_none());
    assert_eq!(r.message, "Platform validation failed: unreachable");
}

#[test]
fn sync_response_variants() {
    let ok = sync_response(3, Ok(()));
    assert!(ok.success);
    assert_eq!(ok.message, "Project state synchronized successfully");
    let failed = sync_response(3, Err(PlatformError::Sync("timeout".to_string())));
    assert!(!failed.success);
    assert_eq!(failed.session_id, Some(3));
    assert_eq!(failed.message, "Sync failed: timeout");
}

#[test]
fn deploy_response_variants() {
    let ok = deploy_response(4, Ok("https://example.org/site".to_string()), 99);
    assert!(ok.success);
    match ok.data {
        Some(ResponseData::Deployment { deployment_url, timestamp }) => {
            assert_eq!(deployment_url, "https://example.org/site");
            assert_eq!(timestamp, 99);
        }
        _ => panic!("missing deployment data"),
    }
    let failed = deploy_response(4, Err(PlatformError::Deploy("denied".to_string())), 99);
    assert!(!failed.success);
    assert_eq!(failed.message, "Deployment failed: denied");
    assert!(failed.data.is_none());
}

#[test]
fn not_found_response_shape() {
    let r = not_found_response();
    assert!(!r.success);
    assert!(r.session_id.is_none());
    assert_eq!(r.message, "Session not found");
}

#[test]
fn platform_names() {
    assert_eq!(platform_name(&PlatformType::Replit), "Replit");
    assert_eq!(platform_name(&PlatformType::GitHubCodespaces), "GitHub Codespaces");
    assert_eq!(platform_name(&PlatformType::LocalVSCode), "Local VSCode");
    assert_eq!(platform_name(&PlatformType::DockerRust), "Docker Rust");
    assert_eq!(platform_name(&PlatformType::CustomRustPlatform("gitpod".to_string())), "gitpod");
}

#[test]
fn platform_strings_from_requests() {
    assert!(matches!(extract_platform_type(None), PlatformType::Replit));
    assert!(matches!(extract_platform_type(Some("replit")), PlatformType::Replit));
    assert!(matches!(extract_platform_type(Some("github-codespaces")), PlatformType::GitHubCodespaces));
    assert!(matches!(extract_platform_type(Some("local-vscode")), PlatformType::LocalVSCode));
    assert!(matches!(extract_platform_type(Some("docker-rust")), PlatformType::DockerRust));
    assert!(matches!(extract_platform_type(Some("Replit")), PlatformType::CustomRustPlatform(n) if n == "Replit"));
    assert!(matches!(extract_platform_type(Some("")), PlatformType::CustomRustPlatform(n) if n.is_empty()));
}

#[test]
fn adapter_stand_ins_succeed() {
    let adapter = PlatformIntegrations::new();
    let kind = PlatformType::CustomRustPlatform("x".to_string());
    assert!(adapter.validate_platform(&kind).is_ok());
    assert!(adapter.initialize_platform(&kind, 1).is_ok());
    assert_eq!(adapter.deploy_to_master_repository(&kind, 1).unwrap(), "https://bekalah.github.io/cathedral");
}
