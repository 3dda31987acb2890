use base64::Engine;
use axiom_shell::runtime::{
    AttemptOutcome, DeployError, EgressDecision, RetryStep, WasmSupervisor,
};
use axiom_shell::smap::StrMap;

fn tiny_wasm_base64() -> String {
    base64::engine::general_purpose::STANDARD.encode([0x00u8, 0x61, 0x73, 0x6D, 0x01, 0, 0, 0])
}

fn supervisor_with_binding(alias: &str, url: &str) -> WasmSupervisor {
    let mut sup = WasmSupervisor::new();
    let mut aliases: StrMap<String> = StrMap::new();
    aliases.insert(alias.to_string(), url.to_string());
    let mut envs: StrMap<StrMap<String>> = StrMap::new();
    envs.insert("GREEN".to_string(), aliases);
    let mut bindings: StrMap<StrMap<StrMap<String>>> = StrMap::new();
    bindings.insert("t".to_string(), envs);
    sup.egress.reload_from_doc(bindings, StrMap::new());
    sup
}

#[test]
fn deploy_kernel_decodes_and_registers() {
    let mut sup = WasmSupervisor::new();
    assert!(sup.deploy_kernel("t", "GREEN", &tiny_wasm_base64()).is_ok());
    assert!(sup.active_slot("t").is_some());
}

#[test]
fn deploy_kernel_rejects_bad_base64() {
    let mut sup = WasmSupervisor::new();
    match sup.deploy_kernel("t", "GREEN", "!!! not base64 !!!") {
        Err(DeployError::BadBase64) => {},
        _ => panic!("broken base64 must be refused"),
    }
}

#[test]
fn unix_socket_capacity_scenario() {
    // Four tenants deployed; a fifth over the socket path never appears
    // among the tenants, while the first four are still served.
    let mut sup = WasmSupervisor::new();
    let wasm = tiny_wasm_base64();
    for id in ["a", "b", "c", "d"] {
        assert!(sup.deploy_kernel(id, "GREEN", &wasm).is_ok());
        sup.apply_perspective(id, "GREEN");
    }
    match sup.deploy_kernel("e", "GREEN", &wasm) {
        Err(DeployError::Capacity) => {},
        _ => panic!("the fifth tenant must be refused"),
    }
    let ids = sup.manager.list_tenants();
    assert_eq!(ids.len(), 4);
    assert!(!ids.iter().any(|i| i == "e"));
    for id in ["a", "b", "c", "d"] {
        assert!(sup.active_slot(id).is_some());
    }
}

#[test]
fn perspective_switch_serves_the_other_slot() {
    let mut sup = WasmSupervisor::new();
    let green = tiny_wasm_base64();
    let blue = base64::engine::general_purpose::STANDARD.encode([
        0x00u8, 0x61, 0x73, 0x6D, 0x01, 0x00, 0x00, 0x00, 0x00, 0x04, 0x02, 0x68, 0x69, 0x00,
    ]);
    assert!(sup.deploy_kernel("t", "GREEN", &green).is_ok());
    sup.apply_perspective("t", "GREEN");
    // The BLUE slot is cold: a switch first needs a kernel fetched.
    assert!(sup.perspective_needs_fetch("t", "BLUE"));
    assert!(sup.deploy_kernel("t", "BLUE", &blue).is_ok());
    assert!(!sup.perspective_needs_fetch("t", "BLUE"));
    sup.apply_perspective("t", "blue");
    assert_eq!(sup.get_perspective("t"), "BLUE");
    let inst = sup.active_slot("t").expect("BLUE slot must serve");
    assert_eq!(inst.wasm.len(), 14);
}

#[test]
fn default_perspective_is_green() {
    let sup = WasmSupervisor::new();
    assert_eq!(sup.get_perspective("anyone"), "GREEN");
}

#[test]
fn red_perspective_audits_outbound_calls() {
    let mut sup = supervisor_with_binding("x", "http://upstream:1");
    sup.apply_perspective("t", "RED");
    // Perspective RED resolves nothing under GREEN bindings; rebind RED.
    let mut aliases: StrMap<String> = StrMap::new();
    aliases.insert("x".to_string(), "http://upstream:1".to_string());
    let mut envs: StrMap<StrMap<String>> = StrMap::new();
    envs.insert("RED".to_string(), aliases);
    let mut bindings: StrMap<StrMap<StrMap<String>>> = StrMap::new();
    bindings.insert("t".to_string(), envs);
    sup.egress.reload_from_doc(bindings, StrMap::new());
    // The logical alias `x` is not promoted to RED, so the security
    // boundary refuses the call; the audit entry lands first anyway.
    match sup.egress_gate("t", "x", "GET", 0) {
        EgressDecision::Blocked { message } => {
            assert_eq!(message, "Error: Security Boundary: x not promoted to RED");
        },
        _ => panic!("an unpromoted logical alias is refused"),
    }
    let entries = sup.audit_log.get("t").expect("RED must have an audit list");
    assert_eq!(entries.len(), 1);
    assert_eq!(entries[0], "HTTP GET t (Alias: x)");
    // An http-named alias passes the boundary and is audited too.
    let mut aliases: StrMap<String> = StrMap::new();
    aliases.insert("http-up".to_string(), "http://upstream:1".to_string());
    let mut envs: StrMap<StrMap<String>> = StrMap::new();
    envs.insert("RED".to_string(), aliases);
    let mut bindings: StrMap<StrMap<StrMap<String>>> = StrMap::new();
    bindings.insert("t".to_string(), envs);
    sup.egress.reload_from_doc(bindings, StrMap::new());
    match sup.egress_gate("t", "http-up", "GET", 1) {
        EgressDecision::Proceed { url, token } => {
            assert_eq!(url, "http://upstream:1");
            assert!(token.is_none());
        },
        _ => panic!("an http-named alias goes through"),
    }
    let entries = sup.audit_log.get("t").unwrap();
    assert_eq!(entries.len(), 2);
    assert_eq!(entries[1], "HTTP GET t (Alias: http-up)");
}

#[test]
fn egress_gate_unresolved_alias() {
    let mut sup = WasmSupervisor::new();
    match sup.egress_gate("t", "nowhere", "GET", 0) {
        EgressDecision::Unresolved => {},
        _ => panic!("an unbound alias resolves to nothing"),
    }
}

#[test]
fn egress_gate_security_boundary() {
    // `svc` resolves to a URL but is a logical name and no tenant of
    // that name is promoted to GREEN: the boundary refuses the call.
    let mut sup = supervisor_with_binding("svc", "http://svc:1");
    match sup.egress_gate("t", "svc", "GET", 0) {
        EgressDecision::Blocked { message } => {
            assert_eq!(message, "Error: Security Boundary: svc not promoted to GREEN");
        },
        _ => panic!("the boundary must refuse an unpromoted logical alias"),
    }
}

#[test]
fn egress_gate_rate_limits_the_eleventh_burst_call() {
    let mut sup = supervisor_with_binding("http-api", "http://api:1");
    for _ in 0..10 {
        match sup.egress_gate("t", "http-api", "GET", 5_000) {
            EgressDecision::Proceed { .. } => {},
            _ => panic!("the first ten calls fit the default downstream rate"),
        }
    }
    match sup.egress_gate("t", "http-api", "GET", 5_000) {
        EgressDecision::RateLimited => {},
        _ => panic!("the eleventh call in the same instant must be throttled"),
    }
}

#[test]
fn egress_gate_circuit_break_scenario() {
    let mut sup = supervisor_with_binding("http-flaky", "http://flaky:1");
    // Five consecutive upstream failures open the alias's breaker.
    for i in 0..5u64 {
        match sup.egress_gate("t", "http-flaky", "GET", 10_000 + i * 1_000) {
            EgressDecision::Proceed { .. } => {},
            _ => panic!("a closed breaker admits the call"),
        }
        let step = sup.egress_attempt_result(
            "http-flaky",
            &AttemptOutcome::ClientError,
            1,
            10_000 + i * 1_000,
        );
        assert!(matches!(step, RetryStep::ReturnFailure));
    }
    // The sixth call is refused immediately.
    match sup.egress_gate("t", "http-flaky", "GET", 15_000) {
        EgressDecision::BreakerOpen => {},
        _ => panic!("an open breaker must block the call"),
    }
    // After the cooldown the next call probes upstream again.
    match sup.egress_gate("t", "http-flaky", "GET", 14_000 + 31_001) {
        EgressDecision::Proceed { .. } => {},
        _ => panic!("the cooled-down breaker admits one probe"),
    }
}

#[test]
fn vault_token_rides_along() {
    let mut sup = supervisor_with_binding("http-api", "http://api:1");
    sup.resilience.security.vault.insert("http-api".to_string(), "SECRET-REDACTED".to_string());
    match sup.egress_gate("t", "http-api", "GET", 0) {
        EgressDecision::Proceed { token, .. } => {
            assert_eq!(token, Some("SECRET-REDACTED".to_string()));
        },
        _ => panic!("the call should pass every guard"),
    }
}

#[test]
fn retry_backoff_doubles_and_gives_up_after_three_retries() {
    let mut sup = WasmSupervisor::new();
    for (attempt, delay) in [(1u32, 1u64), (2, 2), (3, 4)] {
        match sup.egress_attempt_result("a", &AttemptOutcome::ServerError, attempt, 0) {
            RetryStep::Backoff { delay_s } => assert_eq!(delay_s, delay),
            _ => panic!("a transient failure within the cap must back off"),
        }
    }
    match sup.egress_attempt_result("a", &AttemptOutcome::TransportError, 4, 0) {
        RetryStep::GiveUp => {},
        _ => panic!("the fourth attempt is the last"),
    }
    match sup.egress_attempt_result("a", &AttemptOutcome::Success, 2, 0) {
        RetryStep::ReturnSuccess => {},
        _ => panic!("a success returns the body"),
    }
}

#[test]
fn retire_service_empties_the_slot() {
    let mut sup = WasmSupervisor::new();
    assert!(sup.deploy_kernel("t", "GREEN", &tiny_wasm_base64()).is_ok());
    sup.retire_service("t", "GREEN");
    assert!(sup.active_slot("t").is_none());
    assert!(!sup.manager.list_tenants().iter().any(|i| i == "t"));
}

#[test]
fn db_calls_are_audited_only_under_red() {
    let mut sup = WasmSupervisor::new();
    sup.record_db_call("t", "main");
    assert!(sup.audit_log.get("t").is_none());
    sup.apply_perspective("t", "RED");
    sup.record_db_call("t", "main");
    let entries = sup.audit_log.get("t").unwrap();
    assert_eq!(entries.len(), 1);
    assert_eq!(entries[0], "DB_EXECUTE t (Alias: main)");
}
