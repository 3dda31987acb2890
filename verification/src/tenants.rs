//! The tenant manager: compiled guest modules keyed by tenant id and
//! environment slot, under a hard capacity ceiling.
//!
//! Every deployed kernel gets its own engine, configured for asynchronous
//! execution, fuel metering and the component model.  An instance pairs
//! the compiled module with the exact bytes it was compiled from, so that
//! contracts can speak about what a slot holds.

use vstd::prelude::*;
use crate::smap::StrMap;
use crate::textutil::{env_key, to_upper_ascii};

verus! {

/// Hard ceiling on distinct tenants deployed at once.
pub const MAX_TENANTS: usize = 4;

#[verifier::external_type_specification]
#[verifier::external_body]
pub struct ExConfig(wasmtime::Config);

#[verifier::external_type_specification]
#[verifier::external_body]
pub struct ExEngine(wasmtime::Engine);

#[verifier::external_type_specification]
#[verifier::external_body]
pub struct ExModule(wasmtime::Module);

#[verifier::external_type_specification]
#[verifier::external_body]
pub struct ExAnyhowError(anyhow::Error);

/// Relies on wasmtime::Config::new for a default engine configuration.
#[verifier::external_body]
fn config_new() -> wasmtime::Config {
    wasmtime::Config::new()
}

/// Relies on wasmtime::Config::async_support to switch async execution.
#[verifier::external_body]
fn config_async_support(c: &mut wasmtime::Config, enable: bool) {
    c.async_support(enable);
}

/// Relies on wasmtime::Config::consume_fuel to switch fuel metering.
#[verifier::external_body]
fn config_consume_fuel(c: &mut wasmtime::Config, enable: bool) {
    c.consume_fuel(enable);
}

/// Relies on wasmtime::Config::wasm_component_model to switch the
/// component model.
#[verifier::external_body]
fn config_component_model(c: &mut wasmtime::Config, enable: bool) {
    c.wasm_component_model(enable);
}

/// Relies on wasmtime::Engine::new to build an engine from a
/// configuration.
#[verifier::external_body]
fn engine_new(c: &wasmtime::Config) -> Result<wasmtime::Engine, anyhow::Error> {
    wasmtime::Engine::new(c)
}

/// Relies on wasmtime::Module::new to compile WebAssembly bytes on the
/// given engine.
#[verifier::external_body]
fn module_new(engine: &wasmtime::Engine, bytes: &[u8]) -> Result<wasmtime::Module, anyhow::Error> {
    wasmtime::Module::new(engine, bytes)
}

/// Why a deploy was refused.
pub enum TenantError {
    /// A fifth distinct tenant was refused by the capacity ceiling.
    Capacity,
    /// The engine could not be built or the bytes refused to compile; the
    /// offending tenant id is carried along.
    Compile { tenant: String },
}

/// One deployed kernel: the compiled module, its engine, and the bytes it
/// was compiled from.
pub struct TenantInstance {
    pub id: String,
    pub engine: wasmtime::Engine,
    pub module: wasmtime::Module,
    pub wasm: Vec<u8>,
}

/// The slot table: tenant id to environment to instance.
pub struct TenantManager {
    pub tenants: StrMap<StrMap<TenantInstance>>,
}

/// What a successful registration does to the slot table: the one slot
/// `(id, env_key(env))` now holds an instance compiled from `bytes`, and
/// every other slot is untouched.
pub open spec fn register_effect(
    m0: TenantManager,
    m1: TenantManager,
    id: Seq<char>,
    env: Seq<char>,
    bytes: Seq<u8>,
) -> bool {
    let ek = env_key(env);
    &&& forall|t: Seq<char>, e: Seq<char>|
        #[trigger] m1.has_slot(t, e) <==> (m0.has_slot(t, e) || (t == id && e == ek))
    &&& forall|t: Seq<char>, e: Seq<char>|
        m0.has_slot(t, e) && !(t == id && e == ek) ==> #[trigger] m1.slot(t, e) == m0.slot(t, e)
    &&& m1.slot(id, ek).wasm@ == bytes
    &&& m1.slot(id, ek).id@ == id
    &&& forall|t: Seq<char>|
        #[trigger] m1.tenants@.contains_key(t) <==> (m0.tenants@.contains_key(t) || t == id)
}

/// What a removal does to the slot table: the one slot `(id, env_key(env))`
/// is gone, every other slot is untouched, and the tenant itself is gone
/// when that was its last slot.
pub open spec fn remove_effect(
    m0: TenantManager,
    m1: TenantManager,
    id: Seq<char>,
    env: Seq<char>,
) -> bool {
    let ek = env_key(env);
    &&& forall|t: Seq<char>, e: Seq<char>|
        #[trigger] m1.has_slot(t, e) <==> (m0.has_slot(t, e) && !(t == id && e == ek))
    &&& forall|t: Seq<char>, e: Seq<char>|
        m0.has_slot(t, e) && !(t == id && e == ek) ==> #[trigger] m1.slot(t, e) == m0.slot(t, e)
    &&& forall|t: Seq<char>|
        #[trigger] m1.tenants@.contains_key(t) <==> (m0.tenants@.contains_key(t) && (t != id
            || exists|e: Seq<char>| e != ek && #[trigger] m0.has_slot(id, e)))
}

/// A fifth distinct tenant is refused; slots for present tenants are not.
pub open spec fn capacity_refused(m: TenantManager, id: Seq<char>) -> bool {
    m.tenants@.dom().len() >= MAX_TENANTS && !m.tenants@.contains_key(id)
}

impl TenantManager {
    /// Whether a module is deployed for this tenant and environment key.
    pub open spec fn has_slot(self, t: Seq<char>, e: Seq<char>) -> bool {
        self.tenants@.contains_key(t) && self.tenants@[t]@.contains_key(e)
    }

    /// The instance deployed for this tenant and environment key.
    pub open spec fn slot(self, t: Seq<char>, e: Seq<char>) -> TenantInstance {
        self.tenants@[t]@[e]
    }

    /// An empty slot table.
    pub fn new() -> (r: Self)
        ensures
            r.tenants@ == Map::<Seq<char>, StrMap<TenantInstance>>::empty(),
    {
        TenantManager { tenants: StrMap::new() }
    }

    /// Build the engine a kernel runs on: asynchronous execution, fuel
    /// metering and the component model are all switched on.
    pub fn create_engine(&self) -> (r: Result<wasmtime::Engine, anyhow::Error>) {
        let mut config = config_new();
        config_component_model(&mut config, true);
        config_async_support(&mut config, true);
        config_consume_fuel(&mut config, true);
        engine_new(&config)
    }

    /// Compile the bytes and deploy them into the tenant's environment
    /// slot.  A fifth distinct tenant is refused with the capacity error;
    /// a slot for an already-present tenant never counts against capacity.
    pub fn register_tenant(&mut self, id: &str, env: &str, wasm_bytes: &[u8]) -> (r: Result<
        (),
        TenantError,
    >)
        ensures
            r matches Err(TenantError::Capacity) <==> capacity_refused(*old(self), id@),
            r is Err ==> *final(self) == *old(self),
            r matches Err(TenantError::Compile { tenant }) ==> tenant@ == id@,
            r is Ok ==> register_effect(*old(self), *final(self), id@, env@, wasm_bytes@),
    {
        let present = self.tenants.contains_key(id);
        if self.tenants.len() >= MAX_TENANTS && !present {
            return Err(TenantError::Capacity);
        }
        let engine = match self.create_engine() {
            Ok(e) => e,
            Err(_) => {
                return Err(TenantError::Compile { tenant: id.to_owned() });
            },
        };
        let module = match module_new(&engine, wasm_bytes) {
            Ok(m) => m,
            Err(_) => {
                return Err(TenantError::Compile { tenant: id.to_owned() });
            },
        };
        let instance = TenantInstance {
            id: id.to_owned(),
            engine,
            module,
            wasm: vstd::slice::slice_to_vec(wasm_bytes),
        };
        let ek = to_upper_ascii(env);
        let mut inner: StrMap<TenantInstance> = match self.tenants.remove(id) {
            Some(m) => m,
            None => StrMap::new(),
        };
        inner.insert(ek, instance);
        self.tenants.insert(id.to_owned(), inner);
        Ok(())
    }

    /// The instance for this tenant in this environment, if deployed.
    pub fn get_tenant<'a>(&'a self, id: &str, env: &str) -> (r: Option<&'a TenantInstance>)
        ensures
            match r {
                Some(inst) => self.has_slot(id@, env_key(env@)) && *inst == self.slot(
                    id@,
                    env_key(env@),
                ),
                None => !self.has_slot(id@, env_key(env@)),
            },
    {
        let ek = to_upper_ascii(env);
        match self.tenants.get(id) {
            Some(inner) => inner.get(ek.as_str()),
            None => None,
        }
    }

    /// Retire the tenant's slot in this environment; the tenant itself is
    /// dropped with its last slot.
    pub fn remove_tenant(&mut self, id: &str, env: &str)
        ensures
            remove_effect(*old(self), *final(self), id@, env@),
    {
        let ghost m0 = *old(self);
        let ghost ekv = env_key(env@);
        let ek = to_upper_ascii(env);
        match self.tenants.remove(id) {
            Some(mut inner) => {
                proof {
                    assert(inner@ == m0.tenants@[id@]@);
                }
                let _ = inner.remove(ek.as_str());
                let ghost innerv = inner@;
                if inner.is_empty() {
                    proof {
                        assert(innerv == m0.tenants@[id@]@.remove(ekv));
                        assert forall|e: Seq<char>| #[trigger] m0.has_slot(id@, e) implies e
                            == ekv by {
                            if e != ekv {
                                assert(innerv.contains_key(e));
                            }
                        }
                        assert forall|t: Seq<char>|
                            (#[trigger] self.tenants@.contains_key(t) <==> (
                            m0.tenants@.contains_key(t) && (t != id@ || exists|e: Seq<char>|
                                e != ekv && #[trigger] m0.has_slot(id@, e)))) by {
                            if t == id@ {
                                if exists|e: Seq<char>| e != ekv && #[trigger] m0.has_slot(
                                    id@,
                                    e,
                                ) {
                                    let e0 = choose|e: Seq<char>|
                                        e != ekv && #[trigger] m0.has_slot(id@, e);
                                    assert(e0 == ekv);
                                }
                            }
                        }
                    }
                } else {
                    proof {
                        if forall|e: Seq<char>| !#[trigger] innerv.contains_key(e) {
                            assert(innerv =~= Map::<Seq<char>, TenantInstance>::empty());
                        }
                        let e0 = choose|e: Seq<char>| #[trigger] innerv.contains_key(e);
                        assert(e0 != ekv);
                        assert(m0.has_slot(id@, e0));
                    }
                    self.tenants.insert(id.to_owned(), inner);
                }
            },
            None => {},
        }
    }

    /// The ids of all deployed tenants, each once.
    pub fn list_tenants(&self) -> (r: Vec<String>)
        ensures
            r@.len() == self.tenants@.dom().len(),
            forall|i: int| 0 <= i < r@.len() ==> self.tenants@.contains_key(#[trigger] r@[i]@),
            forall|i: int, j: int| 0 <= i < j < r@.len() ==> r@[i]@ != r@[j]@,
            forall|t: Seq<char>|
                self.tenants@.contains_key(t) ==> exists|i: int|
                    0 <= i < r@.len() && #[trigger] r@[i]@ == t,
    {
        self.tenants.keys()
    }
}

/// Registration is visible: after a successful `register_tenant`, the
/// tenant's slot holds an instance whose bytes are exactly the registered
/// ones, which is what `get_tenant` hands back.
pub proof fn lemma_register_then_get(
    m0: TenantManager,
    m1: TenantManager,
    id: Seq<char>,
    env: Seq<char>,
    bytes: Seq<u8>,
)
    requires
        register_effect(m0, m1, id, env, bytes),
    ensures
        m1.has_slot(id, env_key(env)),
        m1.slot(id, env_key(env)).wasm@ == bytes,
        m1.slot(id, env_key(env)).id@ == id,
{
}

/// Removing a tenant's last slot removes the tenant: afterwards its id is
/// no longer among the deployed tenants.
pub proof fn lemma_remove_last_drops_tenant(
    m0: TenantManager,
    m1: TenantManager,
    id: Seq<char>,
    env: Seq<char>,
)
    requires
        remove_effect(m0, m1, id, env),
        forall|e: Seq<char>| #[trigger] m0.has_slot(id, e) ==> e == env_key(env),
    ensures
        !m1.tenants@.contains_key(id),
        forall|e: Seq<char>| !#[trigger] m1.has_slot(id, e),
{
}

/// Capacity never refuses a tenant that is already deployed: only a fifth
/// distinct tenant is turned away.
pub proof fn lemma_capacity_spares_present_tenants(m: TenantManager, id: Seq<char>)
    requires
        m.tenants@.contains_key(id),
    ensures
        !capacity_refused(m, id),
{
}

} // verus!
