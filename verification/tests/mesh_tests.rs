use zexio_agent::mesh::{
    authorize, mesh_request, mesh_route, outcome_status, MeshClaims, MeshOutcome,
};
use zexio_agent::resolver::{
    classify_host, entry_from_fields, legacy_port, needs_directory, resolve_host, strip_port,
    DirectoryEntry, DirectoryLookup, HostClass,
};

fn claims(org: &str) -> MeshClaims {
    MeshClaims {
        user_id: "u1".to_string(),
        org_id: org.to_string(),
        source_service: "a".to_string(),
        target_service: "b".to_string(),
        worker_id: None,
    }
}

fn directory_entry(ip: &str, port: u16, owner: &str) -> DirectoryEntry {
    DirectoryEntry {
        worker_ip: ip.to_string(),
        port,
        owner_id: owner.to_string(),
    }
}

#[test]
fn strip_port_suffix() {
    assert_eq!(strip_port("a.svc.zexio.internal:8080"), "a.svc.zexio.internal");
    assert_eq!(strip_port("a.svc.zexio.internal"), "a.svc.zexio.internal");
    assert_eq!(strip_port(":443"), "");
}

#[test]
fn classify_hosts() {
    assert!(matches!(
        classify_host("a.svc.zexio.internal"),
        HostClass::Managed { .. }
    ));
    match classify_host("proj.zexio.internal") {
        HostClass::LegacyInternal { project_id } => assert_eq!(project_id, "proj"),
        _ => panic!("single-label internal host must be legacy"),
    }
    match classify_host("env--1234.zexio.app") {
        HostClass::App { project_id } => assert_eq!(project_id, "1234"),
        _ => panic!("app host must classify as App"),
    }
    match classify_host("plain.zexio.app") {
        HostClass::App { project_id } => assert_eq!(project_id, "plain"),
        _ => panic!("app host must classify as App"),
    }
    assert!(matches!(classify_host("example.com"), HostClass::Unknown));
}

#[test]
fn needs_directory_only_for_managed() {
    assert!(needs_directory("a.svc.zexio.internal"));
    assert!(needs_directory("a.svc.zexio.internal:9000"));
    assert!(!needs_directory("proj.zexio.internal"));
    assert!(!needs_directory("x.zexio.app"));
    assert!(!needs_directory("example.com"));
}

#[test]
fn legacy_port_formula() {
    for id in ["proj", "1234", "another-project"] {
        let expected = 8000 + (crc32fast::hash(id.as_bytes()) % 1000) as u16;
        assert_eq!(legacy_port(id), expected);
    }
}

#[test]
fn directory_entry_fields() {
    let pairs = vec![
        ("worker_ip".to_string(), "10.0.0.2".to_string()),
        ("port".to_string(), "9000".to_string()),
        ("owner_id".to_string(), "org-A".to_string()),
    ];
    let entry = entry_from_fields(&pairs).unwrap();
    assert_eq!(entry.worker_ip, "10.0.0.2");
    assert_eq!(entry.port, 9000);
    assert_eq!(entry.owner_id, "org-A");
}

#[test]
fn directory_entry_defaults() {
    let pairs = vec![("worker_ip".to_string(), "10.0.0.2".to_string())];
    let entry = entry_from_fields(&pairs).unwrap();
    assert_eq!(entry.port, 80);
    assert_eq!(entry.owner_id, "");

    let bad_port = vec![
        ("worker_ip".to_string(), "10.0.0.2".to_string()),
        ("port".to_string(), "not-a-port".to_string()),
    ];
    assert_eq!(entry_from_fields(&bad_port).unwrap().port, 80);

    let oversized = vec![
        ("worker_ip".to_string(), "10.0.0.2".to_string()),
        ("port".to_string(), "70000".to_string()),
    ];
    assert_eq!(entry_from_fields(&oversized).unwrap().port, 80);

    assert!(entry_from_fields(&vec![("port".to_string(), "80".to_string())]).is_none());
}

#[test]
fn resolve_managed_collapses_loopback() {
    let entry = directory_entry("127.0.0.1", 9000, "org-A");
    let res = resolve_host("a.svc.zexio.internal", &DirectoryLookup::Found(entry), None).unwrap();
    assert_eq!(res.upstream_host, "127.0.0.1");
    assert_eq!(res.upstream_port, 9000);
    assert_eq!(res.owner_id, "org-A");
}

#[test]
fn resolve_managed_remote_worker() {
    let entry = directory_entry("10.0.0.9", 9000, "org-A");
    let public_ip = "203.0.113.5".to_string();
    let res = resolve_host("a.svc.zexio.internal", &DirectoryLookup::Found(entry), Some(&public_ip)).unwrap();
    assert_eq!(res.upstream_host, "10.0.0.9");

    // A worker_ip equal to this node's public IP is collapsed to loopback.
    let local = directory_entry("203.0.113.5", 9000, "org-A");
    let res = resolve_host("a.svc.zexio.internal", &DirectoryLookup::Found(local), Some(&public_ip)).unwrap();
    assert_eq!(res.upstream_host, "127.0.0.1");
}

#[test]
fn resolve_directory_unavailable_is_not_found() {
    // With the directory unreachable a managed host cannot be routed:
    // the proxy answers 404 rather than guessing a legacy port.
    assert!(resolve_host("a.svc.zexio.internal", &DirectoryLookup::Unavailable, None).is_none());
}

#[test]
fn resolve_directory_miss_falls_back_to_legacy() {
    let res = resolve_host("a.svc.zexio.internal", &DirectoryLookup::Miss, None).unwrap();
    assert_eq!(res.upstream_host, "127.0.0.1");
    assert_eq!(res.upstream_port, legacy_port("a.svc"));
    assert_eq!(res.owner_id, "");
}

#[test]
fn resolve_unknown_host_fails() {
    assert!(resolve_host("example.com", &DirectoryLookup::Miss, None).is_none());
    assert!(resolve_host("zexio.internal", &DirectoryLookup::Miss, None).is_none());
}

fn make_token(secret: &[u8], org: &str, issuer: &str) -> String {
    let mut claims = serde_json::Map::new();
    claims.insert("userId".to_string(), serde_json::Value::from("u1"));
    claims.insert("orgId".to_string(), serde_json::Value::from(org));
    claims.insert("sourceService".to_string(), serde_json::Value::from("svc-a"));
    claims.insert("targetService".to_string(), serde_json::Value::from("svc-b"));
    claims.insert("iss".to_string(), serde_json::Value::from(issuer));
    claims.insert("exp".to_string(), serde_json::Value::from(4102444800u64));
    let header = jsonwebtoken::Header::new(jsonwebtoken::Algorithm::HS256);
    let key = jsonwebtoken::EncodingKey::from_secret(secret);
    jsonwebtoken::encode(&header, &claims, &key).unwrap()
}

fn routed(token: Option<&str>, secret: &[u8]) -> MeshOutcome {
    let entry = directory_entry("127.0.0.1", 9000, "org-A");
    let res = resolve_host("a.svc.zexio.internal", &DirectoryLookup::Found(entry), None);
    mesh_request(true, res, token, secret)
}

#[test]
fn token_decode_round_trip() {
    let secret = b"mesh-secret";
    let token = make_token(secret, "org-A", "zexio-service-mesh");
    match routed(Some(&token), secret) {
        MeshOutcome::Forward { upstream_host, upstream_port, owner_id } => {
            assert_eq!(upstream_host, "127.0.0.1");
            assert_eq!(upstream_port, 9000);
            assert_eq!(owner_id, "org-A");
        },
        _ => panic!("a valid token of the owning tenant must be forwarded"),
    }
}

#[test]
fn token_wrong_tenant_rejected() {
    let secret = b"mesh-secret";
    let token = make_token(secret, "org-B", "zexio-service-mesh");
    assert!(matches!(routed(Some(&token), secret), MeshOutcome::Forbidden));
}

#[test]
fn token_wrong_secret_rejected() {
    let token = make_token(b"mesh-secret", "org-A", "zexio-service-mesh");
    assert!(matches!(routed(Some(&token), b"other-secret"), MeshOutcome::Forbidden));
}

#[test]
fn token_wrong_issuer_rejected() {
    let secret = b"mesh-secret";
    let token = make_token(secret, "org-A", "someone-else");
    assert!(matches!(routed(Some(&token), secret), MeshOutcome::Forbidden));
}

#[test]
fn token_missing_rejected_by_request() {
    assert!(matches!(routed(None, b"mesh-secret"), MeshOutcome::Forbidden));
}

#[test]
fn token_garbage_rejected() {
    assert!(matches!(routed(Some("not-a-jwt"), b"mesh-secret"), MeshOutcome::Forbidden));
}

#[test]
fn tenant_pass() {
    // Directory entry for the host, token of the owning tenant: forward,
    // to the entry's upstream.
    let entry = directory_entry("127.0.0.1", 9000, "org-A");
    let res = resolve_host("a.svc.zexio.internal", &DirectoryLookup::Found(entry), None);
    let c = claims("org-A");
    match mesh_route(true, res, Some(&c)) {
        MeshOutcome::Forward { upstream_host, upstream_port, owner_id } => {
            assert_eq!(upstream_host, "127.0.0.1");
            assert_eq!(upstream_port, 9000);
            assert_eq!(owner_id, "org-A");
        },
        _ => panic!("owning tenant must be forwarded"),
    }
}

#[test]
fn tenant_block() {
    // Same directory entry, token of another tenant: 403, nothing
    // forwarded.
    let entry = directory_entry("127.0.0.1", 9000, "org-A");
    let res = resolve_host("a.svc.zexio.internal", &DirectoryLookup::Found(entry), None);
    let c = claims("org-B");
    let outcome = mesh_route(true, res, Some(&c));
    assert!(matches!(outcome, MeshOutcome::Forbidden));
    assert_eq!(outcome_status(&outcome), Some(403));
}

#[test]
fn missing_token_blocked() {
    let entry = directory_entry("127.0.0.1", 9000, "org-A");
    let res = resolve_host("a.svc.zexio.internal", &DirectoryLookup::Found(entry), None);
    let outcome = mesh_route(true, res, None);
    assert!(matches!(outcome, MeshOutcome::Forbidden));
}

#[test]
fn missing_host_is_bad_request() {
    let outcome = mesh_route(false, None, None);
    assert!(matches!(outcome, MeshOutcome::BadRequest));
    assert_eq!(outcome_status(&outcome), Some(400));
}

#[test]
fn unknown_host_is_not_found() {
    let outcome = mesh_route(true, resolve_host("example.com", &DirectoryLookup::Miss, None), Some(&claims("org-A")));
    assert!(matches!(outcome, MeshOutcome::NotFound));
    assert_eq!(outcome_status(&outcome), Some(404));
}

#[test]
fn legacy_host_passes_only_empty_tenant() {
    let res = resolve_host("proj.zexio.internal", &DirectoryLookup::Miss, None);
    assert!(matches!(
        mesh_route(true, res, Some(&claims("org-A"))),
        MeshOutcome::Forbidden
    ));
    let res = resolve_host("proj.zexio.internal", &DirectoryLookup::Miss, None);
    assert!(matches!(
        mesh_route(true, res, Some(&claims(""))),
        MeshOutcome::Forward { .. }
    ));
}

#[test]
fn authorize_is_exact_match() {
    assert!(authorize(Some(&claims("org-A")), "org-A"));
    assert!(!authorize(Some(&claims("org-A")), "org-B"));
    assert!(!authorize(None, "org-A"));
    assert!(authorize(Some(&claims("")), ""));
}
