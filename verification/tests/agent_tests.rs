use zexio_agent::caddy::{Caddy, CaddySettings};
use zexio_agent::config::Settings;
use zexio_agent::deploy::{
    artifact_filename_from_url, deploy_source, env_file_content, is_zip_artifact, ArtifactSource,
    DeployError, DeployProjectRequest,
};
use zexio_agent::errors::AppError;
use zexio_agent::firewall::FirewallManager;
use zexio_agent::registration::{
    choose_token, default_relay, heartbeat_action, register_outcome, unregister_removes_identity,
    validate_token_format, HeartbeatAction, Identity, RegisterOutcome, TokenError,
};
use zexio_agent::services::valid_service_name;
use zexio_agent::stats::{default_limit, project_status_from_unit, service_status};
use zexio_agent::storage::{ProjectConfig, ProjectStore};
use zexio_agent::text::{contains_str, ends_with, find_str, parse_port, rfind_str, starts_with};
use zexio_agent::tunnel_mgr::{parse_provider, tunnel_forward_port, TunnelProvider};

#[test]
fn heartbeat_statuses() {
    assert_eq!(heartbeat_action(200), HeartbeatAction::Valid);
    assert_eq!(heartbeat_action(204), HeartbeatAction::Valid);
    assert_eq!(heartbeat_action(403), HeartbeatAction::RemoveIdentity);
    assert_eq!(heartbeat_action(404), HeartbeatAction::RemoveIdentity);
    assert_eq!(heartbeat_action(500), HeartbeatAction::Degraded);
    assert_eq!(heartbeat_action(401), HeartbeatAction::Degraded);
}

#[test]
fn register_statuses() {
    assert_eq!(register_outcome(Some(200)), RegisterOutcome::Persist);
    assert_eq!(register_outcome(Some(400)), RegisterOutcome::Fatal);
    assert_eq!(register_outcome(Some(401)), RegisterOutcome::Fatal);
    assert_eq!(register_outcome(Some(500)), RegisterOutcome::Retry);
    assert_eq!(register_outcome(None), RegisterOutcome::Retry);
}

#[test]
fn unregister_statuses() {
    assert!(unregister_removes_identity(200));
    assert!(!unregister_removes_identity(500));
    assert!(!unregister_removes_identity(403));
}

#[test]
fn token_priority() {
    assert_eq!(
        choose_token(Some("cfg".to_string()), Some("file".to_string())),
        Some("cfg".to_string())
    );
    assert_eq!(choose_token(None, Some("file".to_string())), Some("file".to_string()));
    assert_eq!(choose_token(None, None), None);
}

#[test]
fn token_format() {
    assert_eq!(validate_token_format(""), Err(TokenError::Empty));
    assert_eq!(validate_token_format("zxp_12"), Err(TokenError::TooShort));
    assert!(validate_token_format("zxp_1234").is_ok());
}

#[test]
fn identity_relay_default() {
    let id = Identity::from_registration("w-1".to_string(), "s".to_string(), None);
    assert_eq!(id.worker_id, "w-1");
    assert_eq!(id.secret_key, "s");
    assert_eq!(id.relay_url, default_relay());
    assert_eq!(id.relay_url, "wss://relay.zexio.io:443");

    let id = Identity::from_registration("w-1".to_string(), "s".to_string(), Some("R".to_string()));
    assert_eq!(id.relay_url, "R");
}

#[test]
fn settings_defaults() {
    let s = Settings::build(None, None, "/etc/zexio", "/var/lib/zexio");
    assert_eq!(s.server.port, 8081);
    assert_eq!(s.server.mesh_port, 8082);
    assert_eq!(s.server.host, "0.0.0.0");
    assert_eq!(s.storage.projects_dir, "/var/lib/zexio/apps");
    assert_eq!(s.secrets.identity_path, "/etc/zexio/identity.json");
    assert_eq!(s.secrets.master_key_path, "/etc/zexio/master.key");
    assert_eq!(s.secrets.provisioning_token_path, "/etc/zexio/provisioning_token");
    assert_eq!(s.cloud.api_url, "https://api.zexio.io");
    assert!(!s.is_cloud_mode());

    let s = Settings::build(Some(3000), Some(8080), "/c", "/d");
    assert_eq!(s.server.port, 3000);
    assert_eq!(s.server.mesh_port, 8080);
}

#[test]
fn cloud_mode_needs_both() {
    let mut s = Settings::build(None, None, "/c", "/d");
    s.cloud.token = Some("t".to_string());
    assert!(!s.is_cloud_mode());
    s.cloud.worker_id = Some("w".to_string());
    assert!(s.is_cloud_mode());
}

#[test]
fn store_paths() {
    let store = ProjectStore::new("/var/lib/zexio/apps".to_string());
    assert_eq!(store.config_path("p1"), "/var/lib/zexio/apps/p1/config.json");
    assert_eq!(store.project_dir("p1"), "/var/lib/zexio/apps/p1");
}

#[test]
fn caddy_block_text() {
    let block = Caddy::domain_block("example.com", 8123);
    assert_eq!(block, "\nexample.com {\n    reverse_proxy localhost:8123\n}\n");
}

#[test]
fn caddy_has_domain() {
    let content = "\na.com {\n    reverse_proxy localhost:8000\n}\n";
    assert!(Caddy::has_domain(content, "a.com"));
    assert!(!Caddy::has_domain(content, "b.com"));
    // The naive marker match also hits a domain that suffixes another
    // entry's marker line.
    assert!(Caddy::has_domain(content, ".com"));
}

#[test]
fn caddy_remove_domain() {
    let content = format!(
        "{}{}",
        Caddy::domain_block("a.com", 8000),
        Caddy::domain_block("b.com", 8001)
    );
    let removed = Caddy::remove_domain_block(&content, "a.com").unwrap();
    assert!(!Caddy::has_domain(&removed, "a.com"));
    assert!(Caddy::has_domain(&removed, "b.com"));
    assert_eq!(removed, "\n\nb.com {\n    reverse_proxy localhost:8001\n}\n");

    assert!(Caddy::remove_domain_block(&content, "c.com").is_none());
}

#[test]
fn caddy_settings_path() {
    let caddy = Caddy::new(CaddySettings { caddyfile_path: "/etc/caddy/Caddyfile".to_string() });
    assert_eq!(caddy.caddyfile_path().as_str(), "/etc/caddy/Caddyfile");
}

#[test]
fn artifact_filename() {
    assert_eq!(artifact_filename_from_url("https://cdn.io/app/bundle.zip", 0), "bundle.zip");
    assert_eq!(artifact_filename_from_url("bundle.tar.gz", 0), "bundle.tar.gz");
    assert_eq!(artifact_filename_from_url("https://cdn.io/app/", 7), "artifact_7.zip");
    assert_eq!(
        artifact_filename_from_url("https://cdn.io/app/noext", 1700000000),
        "artifact_1700000000.zip"
    );
}

#[test]
fn deploy_source_priority() {
    let req = DeployProjectRequest {
        url: Some("https://x/y.zip".to_string()),
        file: Some("old.zip".to_string()),
        environment: None,
    };
    assert!(matches!(deploy_source(req), Ok(ArtifactSource::Download { .. })));

    let req = DeployProjectRequest {
        url: None,
        file: Some("old.zip".to_string()),
        environment: None,
    };
    match deploy_source(req) {
        Ok(ArtifactSource::Existing { file }) => assert_eq!(file, "old.zip"),
        _ => panic!("file source expected"),
    }

    let req = DeployProjectRequest { url: None, file: None, environment: None };
    assert!(matches!(deploy_source(req), Err(DeployError::MissingSource)));
}

#[test]
fn zip_detection() {
    assert!(is_zip_artifact("bundle.zip"));
    assert!(!is_zip_artifact("app"));
    assert!(!is_zip_artifact("bundle.tar.gz"));
}

#[test]
fn env_content() {
    let pairs = vec![
        ("A".to_string(), "1".to_string()),
        ("B".to_string(), "two".to_string()),
    ];
    assert_eq!(env_file_content(&pairs, None), "A=1\nB=two\n");
    let stored = "S=3\n".to_string();
    assert_eq!(
        env_file_content(&pairs, Some(&stored)),
        "A=1\nB=two\n\n# Stored Secret Env\nS=3\n"
    );
    assert_eq!(env_file_content(&Vec::new(), None), "");
}

#[test]
fn service_names() {
    assert!(valid_service_name("redis"));
    assert!(valid_service_name("postgresql-14"));
    assert!(!valid_service_name("rm -rf /"));
    assert!(!valid_service_name("a;b"));
    assert!(!valid_service_name("x&&y"));
}

#[test]
fn workload_status() {
    let project = ProjectConfig {
        id: "p1".to_string(),
        domains: vec!["a.com".to_string(), "b.com".to_string()],
        encrypted_env: String::new(),
        webhook_secret: String::new(),
        created_at_secs: 0,
    };
    let up = service_status(&project, Some(12));
    assert_eq!(up.status, "UP");
    assert_eq!(up.latency_ms, 12);
    assert_eq!(up.name, "a.com");
    assert_eq!(up.id, "p1");
    assert_eq!(up.domains, vec!["a.com".to_string(), "b.com".to_string()]);

    let down = service_status(&project, None);
    assert_eq!(down.status, "DOWN");
    assert_eq!(down.latency_ms, 0);

    let bare = ProjectConfig {
        id: "p2".to_string(),
        domains: Vec::new(),
        encrypted_env: String::new(),
        webhook_secret: String::new(),
        created_at_secs: 0,
    };
    assert_eq!(service_status(&bare, None).name, "unknown");
}

#[test]
fn unit_status() {
    let st = project_status_from_unit("active".to_string());
    assert!(st.active);
    assert_eq!(st.status, "active");
    assert!(!project_status_from_unit("inactive".to_string()).active);
    assert!(!project_status_from_unit("failed".to_string()).active);
}

#[test]
fn log_limit_default() {
    assert_eq!(default_limit(), 100);
}

#[test]
fn providers() {
    assert_eq!(parse_provider("cloudflare"), Some(TunnelProvider::Cloudflare));
    assert_eq!(parse_provider("pangolin"), Some(TunnelProvider::Pangolin));
    assert_eq!(parse_provider("ngrok"), None);
    assert_eq!(tunnel_forward_port(Some(3000), 8082), 3000);
    assert_eq!(tunnel_forward_port(None, 8082), 8082);
}

#[test]
fn error_statuses() {
    assert_eq!(AppError::InternalServerError.status_code(), 500);
    assert_eq!(AppError::Unauthorized("x".to_string()).status_code(), 401);
    assert_eq!(AppError::BadRequest("x".to_string()).status_code(), 400);
}

#[test]
fn firewall_rules_always_succeed() {
    assert!(FirewallManager::update_rules(8082, &["org-A".to_string()]).is_ok());
    assert!(FirewallManager::clear_rules(8082).is_ok());
}

#[test]
fn registration_success_scenario() {
    // The control plane answers registration with a node id, a secret and
    // a relay endpoint; a success status persists exactly that identity.
    let response = "{\"data\":{\"worker_id\":\"w-1\",\"secret_key\":\"s\",\"relay_url\":\"R\"}}";
    let parsed: serde_json::Value = serde_json::from_str(response).unwrap();
    assert_eq!(register_outcome(Some(200)), RegisterOutcome::Persist);
    let id = Identity::from_registration(
        parsed["data"]["worker_id"].as_str().unwrap().to_string(),
        parsed["data"]["secret_key"].as_str().unwrap().to_string(),
        parsed["data"]["relay_url"].as_str().map(|s| s.to_string()),
    );
    assert_eq!(id.worker_id, "w-1");
    assert_eq!(id.secret_key, "s");
    assert_eq!(id.relay_url, "R");
}

#[test]
fn port_parsing() {
    assert_eq!(parse_port("9000"), Some(9000));
    assert_eq!(parse_port("0"), Some(0));
    assert_eq!(parse_port("65535"), Some(65535));
    assert_eq!(parse_port("65536"), None);
    assert_eq!(parse_port("70000"), None);
    assert_eq!(parse_port(""), None);
    assert_eq!(parse_port("12a"), None);
    assert_eq!(parse_port("-1"), None);
}

#[test]
fn text_searching() {
    assert!(ends_with("a.zexio.app", ".zexio.app"));
    assert!(!ends_with("app", ".zexio.app"));
    assert!(starts_with("sha256=ff", "sha256="));
    assert_eq!(find_str("a--b--c", "--"), Some(1));
    assert_eq!(rfind_str("a--b--c", "--"), Some(4));
    assert_eq!(rfind_str("abc", "--"), None);
    assert!(contains_str("one two", "e t"));
    assert!(!contains_str("one two", "xyz"));
}
