use axiom_shell::registry::{
    AxiomRegistry, DeleteBindingRequest, FeaturePromoteOutcome, FeaturePromoteRequest,
    PromoteOutcome, PromoteRequest, RegisterBindingRequest, RegisterFeatureRequest,
    RegisterTomainRequest, ResolveBindingQuery, RetireRequest, UploadFeatureWasmRequest,
    UploadOutcome, default_min_perspective, default_perspective, health_status_for,
};

fn register_req(name: &str) -> RegisterTomainRequest {
    RegisterTomainRequest {
        name: name.to_string(),
        owner: "owner".to_string(),
        team_name: None,
        package_name: Some("pkg".to_string()),
        creator_name: None,
    }
}

#[test]
fn defaults_are_dev() {
    assert_eq!(default_perspective(), "DEV");
    assert_eq!(default_min_perspective(), "DEV");
}

#[test]
fn register_tomain_conflicts_on_present_name() {
    let mut reg = AxiomRegistry::new();
    assert!(reg.register_tomain(register_req("t"), "2024-01-01T00:00:00Z".to_string()));
    assert!(!reg.register_tomain(register_req("t"), "2024-01-02T00:00:00Z".to_string()));
    let entry = reg.tomains.get("t").unwrap();
    assert_eq!(entry.status, "Active");
    assert_eq!(entry.perspective, "DEV");
    assert_eq!(entry.created_at, "2024-01-01T00:00:00Z");
}

#[test]
fn promotion_to_prod_is_gated_on_staging_health() {
    let mut reg = AxiomRegistry::new();
    assert!(reg.register_tomain(register_req("t"), "now".to_string()));
    let req = PromoteRequest { target: "prod".to_string(), wasm_base64: None };
    assert!(matches!(reg.promote_tomain("t", req, false), PromoteOutcome::Blocked));
    assert_eq!(reg.tomains.get("t").unwrap().perspective, "DEV");
    let req = PromoteRequest { target: "prod".to_string(), wasm_base64: Some("AAAA".to_string()) };
    assert!(matches!(reg.promote_tomain("t", req, true), PromoteOutcome::Promoted));
    let entry = reg.tomains.get("t").unwrap();
    assert_eq!(entry.perspective, "PROD");
    assert_eq!(entry.wasm_hashes.get("PROD").unwrap(), "AAAA");
    let req = PromoteRequest { target: "BLUE".to_string(), wasm_base64: None };
    assert!(matches!(reg.promote_tomain("missing", req, true), PromoteOutcome::NotFound));
}

#[test]
fn feature_lifecycle_promotes_the_feature_kernel() {
    let mut reg = AxiomRegistry::new();
    assert!(reg.register_tomain(register_req("t"), "now".to_string()));
    assert!(reg.register_feature(
        "t",
        RegisterFeatureRequest { name: "v2-auth".to_string(), branch: "feat/v2".to_string() },
    ));
    // No kernel anywhere yet.
    let req = FeaturePromoteRequest {
        feature_name: "v2-auth".to_string(),
        from: "dev".to_string(),
        to: "blue".to_string(),
    };
    assert!(matches!(reg.promote_feature("t", &req), FeaturePromoteOutcome::NoWasm));
    // Attach a kernel to the feature, then promote it.
    assert!(matches!(
        reg.upload_feature_wasm(
            "t",
            "v2-auth",
            UploadFeatureWasmRequest { wasm_base64: "BBBB".to_string() },
        ),
        UploadOutcome::Uploaded
    ));
    assert!(matches!(reg.promote_feature("t", &req), FeaturePromoteOutcome::Promoted));
    let entry = reg.tomains.get("t").unwrap();
    assert_eq!(entry.perspective, "BLUE");
    assert_eq!(entry.wasm_hashes.get("BLUE").unwrap(), "BBBB");
    let feature = entry.features.get("v2-auth").unwrap();
    assert!(feature.environments.iter().any(|e| e == "BLUE"));
    assert!(matches!(
        reg.upload_feature_wasm(
            "t",
            "missing",
            UploadFeatureWasmRequest { wasm_base64: "CC".to_string() },
        ),
        UploadOutcome::FeatureNotFound
    ));
}

#[test]
fn retire_removes_the_environment_kernel() {
    let mut reg = AxiomRegistry::new();
    assert!(reg.register_tomain(register_req("t"), "now".to_string()));
    let req = PromoteRequest { target: "GREEN".to_string(), wasm_base64: Some("AA".to_string()) };
    assert!(matches!(reg.promote_tomain("t", req, true), PromoteOutcome::Promoted));
    assert!(reg.retire_tomain("t", RetireRequest { env: "green".to_string() }));
    assert!(reg.tomains.get("t").unwrap().wasm_hashes.get("GREEN").is_none());
    assert!(!reg.retire_tomain("missing", RetireRequest { env: "GREEN".to_string() }));
}

#[test]
fn bindings_register_resolve_and_delete() {
    let mut reg = AxiomRegistry::new();
    reg.register_binding(RegisterBindingRequest {
        tomain_id: "t".to_string(),
        alias: "db".to_string(),
        physical_url: "http://db:5432".to_string(),
        environment: "green".to_string(),
    });
    let hit = reg.resolve_binding(&ResolveBindingQuery {
        tomain_id: "t".to_string(),
        alias: "db".to_string(),
        environment: "GREEN".to_string(),
    });
    assert_eq!(hit, Some("http://db:5432".to_string()));
    let rows = reg.list_bindings();
    assert_eq!(rows.len(), 1);
    assert_eq!(rows[0].0, "t");
    assert_eq!(rows[0].1, "GREEN");
    assert_eq!(rows[0].2, "db");
    assert_eq!(rows[0].3, "http://db:5432");
    // Deleting by alias name drops the tenant's entry at the
    // environment level that carries the alias's name, so the GREEN
    // binding stays while no GREEN-named alias entry exists.
    reg.delete_binding(DeleteBindingRequest {
        tomain_id: "t".to_string(),
        alias: "GREEN".to_string(),
    });
    let miss = reg.resolve_binding(&ResolveBindingQuery {
        tomain_id: "t".to_string(),
        alias: "db".to_string(),
        environment: "GREEN".to_string(),
    });
    assert_eq!(miss, None);
}

#[test]
fn delete_tomain_sweeps_every_table() {
    let mut reg = AxiomRegistry::new();
    assert!(reg.register_tomain(register_req("t"), "now".to_string()));
    reg.register_binding(RegisterBindingRequest {
        tomain_id: "t".to_string(),
        alias: "db".to_string(),
        physical_url: "u".to_string(),
        environment: "GREEN".to_string(),
    });
    reg.delete_tomain("t");
    assert!(reg.tomains.get("t").is_none());
    assert!(reg.bindings.get("t").is_none());
    assert_eq!(reg.list_bindings().len(), 0);
}

#[test]
fn resolve_tomain_builds_color_defaults() {
    let mut reg = AxiomRegistry::new();
    assert!(reg.register_tomain(register_req("shop"), "now".to_string()));
    let m = reg.resolve_tomain("shop", "dev").unwrap();
    assert_eq!(m.environment, "Context (DEV)");
    assert_eq!(m.database_url, "postgres://dev-db.internal/shop");
    assert_eq!(m.cache_url, "redis://localhost:6379");
    assert_eq!(m.message_queue, "nats://localhost:4222");
    let m = reg.resolve_tomain("shop", "PROD").unwrap();
    assert_eq!(m.database_url, "postgres://prod-db.internal/shop");
    let m = reg.resolve_tomain("shop", "purple").unwrap();
    assert_eq!(m.database_url, "postgres://localhost:5432/shop");
    assert!(reg.resolve_tomain("missing", "DEV").is_none());
}

#[test]
fn resolve_tomain_prefers_the_database_secret() {
    let mut reg = AxiomRegistry::new();
    assert!(reg.register_tomain(register_req("t"), "now".to_string()));
    let mut secrets = axiom_shell::smap::StrMap::new();
    secrets.insert("DATABASE_URL".to_string(), "postgres://custom/db".to_string());
    reg.secrets.insert("t".to_string(), secrets);
    let m = reg.resolve_tomain("t", "DEV").unwrap();
    assert_eq!(m.database_url, "postgres://custom/db");
}

#[test]
fn health_status_follows_the_active_tenants() {
    let active = vec!["a".to_string(), "b".to_string()];
    assert_eq!(health_status_for(&active, "a", "Active"), "Active");
    assert_eq!(health_status_for(&active, "c", "Active"), "Inactive");
}
