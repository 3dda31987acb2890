use axiom_shell::db::{
    db_response_json, AxiomDatabaseProvider, AxiomQuery, AxiomResponse, DatabaseRegistry,
    MockAdapter, ProviderSpec,
};
use axiom_shell::docs::{get_swagger_html, render_error_template, render_swagger_template};

#[test]
fn explorer_page_carries_the_project_name() {
    let html = get_swagger_html("shop");
    assert!(html.contains("<title>shop - Axiom API Explorer</title>"));
    assert!(html.contains("shop API Explorer</h1>"));
    assert!(html.contains("/api/health"));
}

#[test]
fn error_page_carries_package_and_reason() {
    let html = render_error_template("pkg.shop", "Shell returned status 502");
    assert!(html.contains("API Explorer Error - pkg.shop"));
    assert!(html.contains("<p>Shell returned status 502</p>"));
    assert!(html.contains("ax deploy dev"));
}

#[test]
fn swagger_page_embeds_the_document() {
    let html = render_swagger_template("{\"openapi\":\"3.0.0\"}", "shop");
    assert!(html.contains("<title>shop - Axiom API Explorer</title>"));
    assert!(html.contains("spec: {\"openapi\":\"3.0.0\"},"));
}

#[test]
fn mock_adapter_answers_with_its_fixed_row() {
    let q = AxiomQuery { sql: "SELECT 1".to_string(), params: Vec::new() };
    let r = MockAdapter.execute_query(&q).unwrap();
    assert_eq!(r.affected_rows, 1);
    assert_eq!(r.rows, vec!["{\"id\":1,\"name\":\"Mock Item\"}".to_string()]);
    assert_eq!(MockAdapter.provider_name(), "mock");
    assert_eq!(MockAdapter.health_check().unwrap(), "Mock Healthy");
}

#[test]
fn db_response_document_is_exact() {
    let resp = AxiomResponse {
        rows: vec!["{\"a\":1}".to_string(), "{\"b\":2}".to_string()],
        affected_rows: 42,
    };
    assert_eq!(
        String::from_utf8(db_response_json(&resp)).unwrap(),
        "{\"rows\":[{\"a\":1},{\"b\":2}],\"affected_rows\":42}"
    );
    let empty = AxiomResponse { rows: Vec::new(), affected_rows: 0 };
    assert_eq!(
        String::from_utf8(db_response_json(&empty)).unwrap(),
        "{\"rows\":[],\"affected_rows\":0}"
    );
}

#[test]
fn db_registry_dispatches_by_alias() {
    let mut reg = DatabaseRegistry::new();
    reg.register("main".to_string(), ProviderSpec::Mock);
    reg.register(
        "analytics".to_string(),
        ProviderSpec::Postgres { url: "postgres://db/a".to_string() },
    );
    assert!(matches!(reg.get("main"), Some(ProviderSpec::Mock)));
    match reg.get("analytics") {
        Some(ProviderSpec::Postgres { url }) => assert_eq!(url, "postgres://db/a"),
        _ => panic!("the analytics alias is a Postgres provider"),
    }
    assert!(reg.get("missing").is_none());
}
