//! Egress resolution: alias to physical URL, with a two-step logical
//! indirection and a GLOBAL fallback.
//!
//! The binding table maps `(tenant, environment, alias)` to a URL and the
//! logical manifest maps `(tenant, logical name)` to an alias.  Both are a
//! pure reflection of the registry document: a reload replaces them
//! wholesale, so reloading twice over the same document leaves identical
//! tables.

use vstd::prelude::*;
use crate::smap::StrMap;

verus! {

/// The environment key under which environment-independent bindings live.
pub open spec fn global_env() -> Seq<char> {
    "GLOBAL"@
}

/// Alias to URL lookups, tenant by tenant and environment by environment.
pub struct EgressResolver {
    /// tenant -> environment -> alias -> physical URL.
    pub bindings: StrMap<StrMap<StrMap<String>>>,
    /// tenant -> logical name -> alias.
    pub manifests: StrMap<StrMap<String>>,
}

impl EgressResolver {
    /// The alias a logical name stands for: the manifest entry when there
    /// is one, else the logical name itself.
    pub open spec fn spec_alias(self, t: Seq<char>, logical: Seq<char>) -> Seq<char> {
        if self.manifests@.contains_key(t) && self.manifests@[t]@.contains_key(logical) {
            self.manifests@[t]@[logical]@
        } else {
            logical
        }
    }

    /// The URL bound to `(t, e, a)`, if any.
    pub open spec fn spec_binding(self, t: Seq<char>, e: Seq<char>, a: Seq<char>) -> Option<
        Seq<char>,
    > {
        if self.bindings@.contains_key(t) && self.bindings@[t]@.contains_key(e)
            && self.bindings@[t]@[e]@.contains_key(a) {
            Some(self.bindings@[t]@[e]@[a]@)
        } else {
            None
        }
    }

    /// Full resolution: manifest indirection, then the environment's
    /// binding, then the GLOBAL fallback.
    pub open spec fn spec_resolve(self, t: Seq<char>, logical: Seq<char>, e: Seq<char>) -> Option<
        Seq<char>,
    > {
        let a = self.spec_alias(t, logical);
        match self.spec_binding(t, e, a) {
            Some(u) => Some(u),
            None => self.spec_binding(t, global_env(), a),
        }
    }

    /// Empty tables.
    pub fn new() -> (r: Self)
        ensures
            r.bindings@ == Map::<Seq<char>, StrMap<StrMap<String>>>::empty(),
            r.manifests@ == Map::<Seq<char>, StrMap<String>>::empty(),
    {
        EgressResolver { bindings: StrMap::new(), manifests: StrMap::new() }
    }

    /// The alias a logical name stands for, as `spec_alias` says.
    pub fn resolve_alias(&self, tomain_id: &str, logical_name: &str) -> (r: String)
        ensures
            r@ == self.spec_alias(tomain_id@, logical_name@),
    {
        match self.manifests.get(tomain_id) {
            Some(logical_map) => match logical_map.get(logical_name) {
                Some(a) => a.clone(),
                None => logical_name.to_owned(),
            },
            None => logical_name.to_owned(),
        }
    }

    /// The URL bound to `(t, e, a)`, if any.
    fn lookup(&self, t: &str, e: &str, a: &str) -> (r: Option<String>)
        ensures
            match r {
                Some(u) => self.spec_binding(t@, e@, a@) == Some(u@),
                None => self.spec_binding(t@, e@, a@) is None,
            },
    {
        match self.bindings.get(t) {
            Some(envs) => match envs.get(e) {
                Some(aliases) => match aliases.get(a) {
                    Some(u) => Some(u.clone()),
                    None => None,
                },
                None => None,
            },
            None => None,
        }
    }

    /// Resolve a logical name for a tenant in an environment.  The
    /// environment's own binding wins; an environment-independent GLOBAL
    /// binding is the fallback; otherwise there is no URL.
    pub fn resolve(&self, tomain_id: &str, logical_name: &str, environment: &str) -> (r: Option<
        String,
    >)
        ensures
            match r {
                Some(u) => self.spec_resolve(tomain_id@, logical_name@, environment@) == Some(u@),
                None => self.spec_resolve(tomain_id@, logical_name@, environment@) is None,
            },
    {
        let alias: String = match self.manifests.get(tomain_id) {
            Some(logical_map) => match logical_map.get(logical_name) {
                Some(a) => a.clone(),
                None => logical_name.to_owned(),
            },
            None => logical_name.to_owned(),
        };
        match self.lookup(tomain_id, environment, alias.as_str()) {
            Some(u) => Some(u),
            None => self.lookup(tomain_id, "GLOBAL", alias.as_str()),
        }
    }

    /// Replace both tables with the ones read from the registry document.
    pub fn reload_from_doc(
        &mut self,
        bindings: StrMap<StrMap<StrMap<String>>>,
        manifests: StrMap<StrMap<String>>,
    )
        ensures
            final(self).bindings == bindings,
            final(self).manifests == manifests,
    {
        self.bindings = bindings;
        self.manifests = manifests;
    }
}

/// Resolution is exactly the documented fallback chain: a binding under
/// the tenant's environment is returned; failing that, one under GLOBAL;
/// failing both, there is no URL.
pub proof fn lemma_resolution_fallback(
    r: EgressResolver,
    t: Seq<char>,
    logical: Seq<char>,
    e: Seq<char>,
)
    ensures
        ({
            let a = r.spec_alias(t, logical);
            &&& r.spec_binding(t, e, a) is Some ==> r.spec_resolve(t, logical, e) == r.spec_binding(
                t,
                e,
                a,
            )
            &&& r.spec_binding(t, e, a) is None ==> r.spec_resolve(t, logical, e) == r.spec_binding(
                t,
                global_env(),
                a,
            )
        }),
{
}

/// A reload is a pure function of the registry document: two resolvers
/// reloaded from the same document hold identical tables, so applying a
/// reload twice changes nothing after the first.
pub proof fn lemma_reload_idempotent(
    a: EgressResolver,
    b: EgressResolver,
    bindings: StrMap<StrMap<StrMap<String>>>,
    manifests: StrMap<StrMap<String>>,
)
    requires
        a.bindings == bindings,
        a.manifests == manifests,
        b.bindings == bindings,
        b.manifests == manifests,
    ensures
        a == b,
{
}

} // verus!
