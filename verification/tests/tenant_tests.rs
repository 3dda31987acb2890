use axiom_shell::tenants::{TenantError, TenantManager};

fn tiny_wasm() -> Vec<u8> {
    // The smallest valid module: magic and version only.
    vec![0x00, 0x61, 0x73, 0x6D, 0x01, 0x00, 0x00, 0x00]
}

fn tiny_wasm_with_note() -> Vec<u8> {
    // The same module with one custom section, so the bytes differ.
    vec![
        0x00, 0x61, 0x73, 0x6D, 0x01, 0x00, 0x00, 0x00, 0x00, 0x04, 0x02, 0x68, 0x69, 0x00,
    ]
}

#[test]
fn register_then_get_returns_the_registered_bytes() {
    let mut m = TenantManager::new();
    let wasm = tiny_wasm();
    assert!(m.register_tenant("alpha", "green", &wasm).is_ok());
    let inst = m.get_tenant("alpha", "GREEN").expect("slot should be filled");
    assert_eq!(inst.wasm, wasm);
    assert_eq!(inst.id, "alpha");
    // The same slot under the lowercase name: environments are folded.
    assert!(m.get_tenant("alpha", "green").is_some());
    assert!(m.get_tenant("alpha", "BLUE").is_none());
}

#[test]
fn fifth_distinct_tenant_is_refused_but_new_slots_of_present_tenants_pass() {
    let mut m = TenantManager::new();
    let wasm = tiny_wasm();
    for id in ["a", "b", "c", "d"] {
        assert!(m.register_tenant(id, "GREEN", &wasm).is_ok());
    }
    match m.register_tenant("e", "GREEN", &wasm) {
        Err(TenantError::Capacity) => {},
        _ => panic!("a fifth distinct tenant must hit the capacity ceiling"),
    }
    // Another environment of a present tenant never counts against
    // capacity.
    assert!(m.register_tenant("a", "BLUE", &wasm).is_ok());
    let ids = m.list_tenants();
    assert_eq!(ids.len(), 4);
    assert!(!ids.iter().any(|i| i == "e"));
}

#[test]
fn removing_the_last_slot_drops_the_tenant() {
    let mut m = TenantManager::new();
    let wasm = tiny_wasm();
    assert!(m.register_tenant("t", "GREEN", &wasm).is_ok());
    assert!(m.register_tenant("t", "BLUE", &wasm).is_ok());
    m.remove_tenant("t", "GREEN");
    assert!(m.list_tenants().iter().any(|i| i == "t"));
    m.remove_tenant("t", "BLUE");
    assert!(!m.list_tenants().iter().any(|i| i == "t"));
    assert!(m.get_tenant("t", "BLUE").is_none());
}

#[test]
fn compile_failure_names_the_tenant() {
    let mut m = TenantManager::new();
    let garbage = vec![1, 2, 3, 4];
    match m.register_tenant("bad", "GREEN", &garbage) {
        Err(TenantError::Compile { tenant }) => assert_eq!(tenant, "bad"),
        _ => panic!("garbage bytes must fail to compile"),
    }
    assert!(m.get_tenant("bad", "GREEN").is_none());
}

#[test]
fn reregistering_a_slot_replaces_the_module() {
    let mut m = TenantManager::new();
    assert!(m.register_tenant("t", "GREEN", &tiny_wasm()).is_ok());
    assert!(m.register_tenant("t", "GREEN", &tiny_wasm_with_note()).is_ok());
    let inst = m.get_tenant("t", "GREEN").unwrap();
    assert_eq!(inst.wasm, tiny_wasm_with_note());
    assert_eq!(m.list_tenants().len(), 1);
}
