use axiom_shell::egress::EgressResolver;
use axiom_shell::smap::StrMap;

fn bindings_doc() -> StrMap<StrMap<StrMap<String>>> {
    let mut aliases: StrMap<String> = StrMap::new();
    aliases.insert("db".to_string(), "http://green-db:5432".to_string());
    let mut globals: StrMap<String> = StrMap::new();
    globals.insert("cache".to_string(), "http://cache:6379".to_string());
    let mut envs: StrMap<StrMap<String>> = StrMap::new();
    envs.insert("GREEN".to_string(), aliases);
    envs.insert("GLOBAL".to_string(), globals);
    let mut bindings: StrMap<StrMap<StrMap<String>>> = StrMap::new();
    bindings.insert("t".to_string(), envs);
    bindings
}

fn manifests_doc() -> StrMap<StrMap<String>> {
    let mut logical: StrMap<String> = StrMap::new();
    logical.insert("main-db".to_string(), "db".to_string());
    let mut manifests: StrMap<StrMap<String>> = StrMap::new();
    manifests.insert("t".to_string(), logical);
    manifests
}

#[test]
fn environment_binding_wins() {
    let mut r = EgressResolver::new();
    r.reload_from_doc(bindings_doc(), manifests_doc());
    assert_eq!(r.resolve("t", "db", "GREEN"), Some("http://green-db:5432".to_string()));
}

#[test]
fn logical_name_goes_through_the_manifest() {
    let mut r = EgressResolver::new();
    r.reload_from_doc(bindings_doc(), manifests_doc());
    assert_eq!(r.resolve("t", "main-db", "GREEN"), Some("http://green-db:5432".to_string()));
}

#[test]
fn global_binding_is_the_fallback() {
    let mut r = EgressResolver::new();
    r.reload_from_doc(bindings_doc(), manifests_doc());
    // `cache` has no GREEN binding, only a GLOBAL one.
    assert_eq!(r.resolve("t", "cache", "GREEN"), Some("http://cache:6379".to_string()));
}

#[test]
fn unresolved_alias_yields_nothing() {
    let mut r = EgressResolver::new();
    r.reload_from_doc(bindings_doc(), manifests_doc());
    assert_eq!(r.resolve("t", "missing", "GREEN"), None);
    assert_eq!(r.resolve("other", "db", "GREEN"), None);
    // The GREEN binding does not leak into BLUE.
    assert_eq!(r.resolve("t", "db", "BLUE"), None);
}

#[test]
fn reloading_twice_over_the_same_document_changes_nothing() {
    let mut a = EgressResolver::new();
    a.reload_from_doc(bindings_doc(), manifests_doc());
    let mut b = EgressResolver::new();
    b.reload_from_doc(bindings_doc(), manifests_doc());
    b.reload_from_doc(bindings_doc(), manifests_doc());
    for (tenant, logical, env) in [
        ("t", "db", "GREEN"),
        ("t", "main-db", "GREEN"),
        ("t", "cache", "GREEN"),
        ("t", "missing", "GREEN"),
        ("u", "db", "GREEN"),
    ] {
        assert_eq!(a.resolve(tenant, logical, env), b.resolve(tenant, logical, env));
    }
}
