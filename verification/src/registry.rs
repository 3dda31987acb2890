//! The control plane's registry: tenant metadata, binding tables,
//! manifests and feature branches, mutated by administrative requests.
//!
//! The registry is the in-memory image of the persisted session
//! document; reading and writing that document is the caller's business.
//! Every administrative change here is a pure state transition with an
//! exact contract.

use vstd::prelude::*;
use crate::smap::StrMap;
use crate::textutil::{env_key, to_upper_ascii, vec_contains_str};

verus! {

/// The perspective a fresh tenant record starts in.
pub fn default_perspective() -> (r: String)
    ensures
        r@ == "DEV"@,
{
    ("DEV").to_owned()
}

/// The lowest perspective a fresh tenant record may fall to.
pub fn default_min_perspective() -> (r: String)
    ensures
        r@ == "DEV"@,
{
    ("DEV").to_owned()
}

/// One exported function of a tenant's API.
pub struct ApiDetail {
    pub name: String,
    pub method: String,
    pub params: Vec<(String, String)>,
    pub doc: Option<String>,
}

/// One feature branch of a tenant.
pub struct FeatureDetail {
    pub wasm_hash: Option<String>,
    pub branch: Option<String>,
    pub status: String,
    /// The environments this feature was promoted to.
    pub environments: Vec<String>,
    pub commits_ahead: Option<u32>,
}

/// One tenant's record.
pub struct TomainEntry {
    pub owner: String,
    pub status: String,
    pub package_name: Option<String>,
    pub creator_name: Option<String>,
    pub team_name: Option<String>,
    pub created_at: String,
    pub perspective: String,
    pub min_perspective: String,
    /// environment -> base64 kernel.
    pub wasm_hashes: StrMap<String>,
    pub repo_url: Option<String>,
    pub features: StrMap<FeatureDetail>,
    pub wit: Option<String>,
    pub apis: Option<Vec<ApiDetail>>,
}

/// The whole registry document held in memory.
pub struct AxiomRegistry {
    pub tomains: StrMap<TomainEntry>,
    /// tenant -> environment -> alias -> physical URL.
    pub bindings: StrMap<StrMap<StrMap<String>>>,
    /// tenant -> key -> value.
    pub secrets: StrMap<StrMap<String>>,
    /// tenant -> logical name -> alias.
    pub manifests: StrMap<StrMap<String>>,
    pub repositories: Vec<String>,
    /// tenant -> requests per second.
    pub rate_limits: Option<StrMap<u64>>,
    /// tenant -> public key PEM.
    pub public_keys: Option<StrMap<String>>,
    /// alias -> bearer token.
    pub vault: Option<StrMap<String>>,
    pub infra: StrMap<String>,
}

/// A request to register a tenant.
pub struct RegisterTomainRequest {
    pub name: String,
    pub owner: String,
    pub team_name: Option<String>,
    pub package_name: Option<String>,
    pub creator_name: Option<String>,
}

/// A request to promote a tenant to an environment.
pub struct PromoteRequest {
    pub target: String,
    pub wasm_base64: Option<String>,
}

/// A request to promote one feature between environments.
pub struct FeaturePromoteRequest {
    pub feature_name: String,
    pub from: String,
    pub to: String,
}

/// A request to retire a tenant from an environment.
pub struct RetireRequest {
    pub env: String,
}

/// A request to register a feature branch.
pub struct RegisterFeatureRequest {
    pub name: String,
    pub branch: String,
}

/// A request to attach a kernel to a feature.
pub struct UploadFeatureWasmRequest {
    pub wasm_base64: String,
}

/// One resource named by a tenant's manifest.
pub struct ResourceDef {
    pub alias: String,
    pub resource_type: String,
}

/// A request to replace a tenant's logical manifest.
pub struct UpdateManifestRequest {
    pub resources: StrMap<ResourceDef>,
    pub apis: Option<Vec<ApiDetail>>,
    pub vault_path: Option<String>,
}

/// A request to register one binding.
pub struct RegisterBindingRequest {
    pub tomain_id: String,
    pub alias: String,
    pub physical_url: String,
    pub environment: String,
}

/// A lookup of one binding.
pub struct ResolveBindingQuery {
    pub tomain_id: String,
    pub alias: String,
    pub environment: String,
}

/// A request to delete a binding.
pub struct DeleteBindingRequest {
    pub tomain_id: String,
    pub alias: String,
}

/// The color asked of a tenant resolution.
pub struct ResolveQuery {
    pub color: Option<String>,
}

/// The connection endpoints resolved for a tenant in a color.
pub struct ConnectionMetadata {
    pub environment: String,
    pub database_url: String,
    pub cache_url: String,
    pub message_queue: String,
}

/// How a promotion request ended.
pub enum PromoteOutcome {
    /// No record with that id.
    NotFound,
    /// A promotion to PROD was refused because staging was not healthy.
    Blocked,
    /// The record was promoted.
    Promoted,
}

/// How a feature promotion ended.
pub enum FeaturePromoteOutcome {
    /// No record with that id.
    NotFound,
    /// Neither the feature nor the source environment held a kernel.
    NoWasm,
    /// The feature's kernel now serves the target environment.
    Promoted,
}

/// How a feature upload ended.
pub enum UploadOutcome {
    /// No record with that id.
    NotFound,
    /// The record has no feature of that name.
    FeatureNotFound,
    /// The kernel is attached to the feature.
    Uploaded,
}

impl AxiomRegistry {
    /// An empty registry.
    pub fn new() -> (r: Self)
        ensures
            r.tomains@ == Map::<Seq<char>, TomainEntry>::empty(),
            r.bindings@ == Map::<Seq<char>, StrMap<StrMap<String>>>::empty(),
            r.secrets@ == Map::<Seq<char>, StrMap<String>>::empty(),
            r.manifests@ == Map::<Seq<char>, StrMap<String>>::empty(),
            r.repositories@.len() == 0,
            r.rate_limits is None,
            r.public_keys is None,
            r.vault is None,
            r.infra@ == Map::<Seq<char>, String>::empty(),
    {
        AxiomRegistry {
            tomains: StrMap::new(),
            bindings: StrMap::new(),
            secrets: StrMap::new(),
            manifests: StrMap::new(),
            repositories: Vec::new(),
            rate_limits: None,
            public_keys: None,
            vault: None,
            infra: StrMap::new(),
        }
    }

    /// Register a new tenant record; a present name is a conflict and
    /// nothing changes.  A fresh record starts Active in DEV with empty
    /// kernel and feature tables.
    pub fn register_tomain(&mut self, req: RegisterTomainRequest, created_at: String) -> (r: bool)
        ensures
            r <==> !old(self).tomains@.contains_key(req.name@),
            !r ==> *final(self) == *old(self),
            r ==> ({
                &&& final(self).tomains@.contains_key(req.name@)
                &&& ({
                    let e = final(self).tomains@[req.name@];
                    &&& e.owner == req.owner
                    &&& e.status@ == "Active"@
                    &&& e.package_name == req.package_name
                    &&& e.creator_name == req.creator_name
                    &&& e.team_name == req.team_name
                    &&& e.created_at == created_at
                    &&& e.perspective@ == "DEV"@
                    &&& e.min_perspective@ == "DEV"@
                    &&& e.wasm_hashes@ == Map::<Seq<char>, String>::empty()
                    &&& e.repo_url is None
                    &&& e.features@ == Map::<Seq<char>, FeatureDetail>::empty()
                    &&& e.wit is None
                    &&& e.apis is None
                })
                &&& forall|k: Seq<char>|
                    k != req.name@ ==> (final(self).tomains@.contains_key(k) == old(self).tomains@.contains_key(k) && (old(self).tomains@.contains_key(k)
                        ==> final(self).tomains@[k] == old(self).tomains@[k]))
                &&& final(self).bindings == old(self).bindings
                &&& final(self).secrets == old(self).secrets
                &&& final(self).manifests == old(self).manifests
                &&& final(self).rate_limits == old(self).rate_limits
                &&& final(self).public_keys == old(self).public_keys
                &&& final(self).vault == old(self).vault
                &&& final(self).infra == old(self).infra
            }),
    {
        if self.tomains.contains_key(req.name.as_str()) {
            return false;
        }
        let entry = TomainEntry {
            owner: req.owner,
            status: ("Active").to_owned(),
            package_name: req.package_name,
            creator_name: req.creator_name,
            team_name: req.team_name,
            created_at,
            perspective: default_perspective(),
            min_perspective: default_min_perspective(),
            wasm_hashes: StrMap::new(),
            repo_url: None,
            features: StrMap::new(),
            wit: None,
            apis: None,
        };
        self.tomains.insert(req.name, entry);
        true
    }

    /// Drop a tenant's record and everything keyed by it: bindings,
    /// secrets, rate limit, public key and vault entry.
    pub fn delete_tomain(&mut self, id: &str)
        ensures
            final(self).tomains@ == old(self).tomains@.remove(id@),
            final(self).bindings@ == old(self).bindings@.remove(id@),
            final(self).secrets@ == old(self).secrets@.remove(id@),
            match old(self).rate_limits {
                Some(rl) => final(self).rate_limits matches Some(rl2) && rl2@ == rl@.remove(id@),
                None => final(self).rate_limits is None,
            },
            match old(self).public_keys {
                Some(pk) => final(self).public_keys matches Some(pk2) && pk2@ == pk@.remove(id@),
                None => final(self).public_keys is None,
            },
            match old(self).vault {
                Some(v) => final(self).vault matches Some(v2) && v2@ == v@.remove(id@),
                None => final(self).vault is None,
            },
            final(self).manifests == old(self).manifests,
            final(self).infra == old(self).infra,
            final(self).repositories == old(self).repositories,
    {
        let _ = self.tomains.remove(id);
        let _ = self.bindings.remove(id);
        let _ = self.secrets.remove(id);
        match &mut self.rate_limits {
            Some(rl) => {
                let _ = rl.remove(id);
            },
            None => {},
        }
        match &mut self.public_keys {
            Some(pk) => {
                let _ = pk.remove(id);
            },
            None => {},
        }
        match &mut self.vault {
            Some(v) => {
                let _ = v.remove(id);
            },
            None => {},
        }
    }

    /// Promote a tenant to an environment.  A promotion to PROD is gated
    /// on staging health; otherwise the record's perspective moves, and a
    /// kernel carried with the request lands in the target's slot.
    pub fn promote_tomain(
        &mut self,
        id: &str,
        req: PromoteRequest,
        staging_healthy: bool,
    ) -> (r: PromoteOutcome)
        ensures
            r is NotFound <==> !old(self).tomains@.contains_key(id@),
            r is Blocked <==> (old(self).tomains@.contains_key(id@) && env_key(req.target@)
                == "PROD"@ && !staging_healthy),
            (r is NotFound || r is Blocked) ==> *final(self) == *old(self),
            r is Promoted ==> ({
                let e0 = old(self).tomains@[id@];
                let e = final(self).tomains@[id@];
                &&& final(self).tomains@.contains_key(id@)
                &&& e.perspective@ == env_key(req.target@)
                &&& (match req.wasm_base64 {
                    Some(w) => e.wasm_hashes@ == e0.wasm_hashes@.insert(env_key(req.target@), w),
                    None => e.wasm_hashes == e0.wasm_hashes,
                })
                &&& e.owner == e0.owner
                &&& e.status == e0.status
                &&& e.created_at == e0.created_at
                &&& e.min_perspective == e0.min_perspective
                &&& e.features == e0.features
                &&& e.repo_url == e0.repo_url
                &&& e.wit == e0.wit
                &&& e.apis == e0.apis
                &&& forall|k: Seq<char>|
                    k != id@ ==> (final(self).tomains@.contains_key(k) == old(self).tomains@.contains_key(k) && (old(self).tomains@.contains_key(k)
                        ==> final(self).tomains@[k] == old(self).tomains@[k]))
                &&& final(self).bindings == old(self).bindings
                &&& final(self).secrets == old(self).secrets
                &&& final(self).manifests == old(self).manifests
                &&& final(self).rate_limits == old(self).rate_limits
                &&& final(self).public_keys == old(self).public_keys
                &&& final(self).vault == old(self).vault
                &&& final(self).infra == old(self).infra
            }),
    {
        let target = to_upper_ascii(req.target.as_str());
        let prod = ("PROD").to_owned();
        if !self.tomains.contains_key(id) {
            return PromoteOutcome::NotFound;
        }
        if target == prod && !staging_healthy {
            return PromoteOutcome::Blocked;
        }
        let mut entry = match self.tomains.remove(id) {
            Some(e) => e,
            None => {
                proof {
                    assert(false);
                }
                return PromoteOutcome::NotFound;
            },
        };
        match req.wasm_base64 {
            Some(w) => {
                entry.wasm_hashes.insert(target.clone(), w);
            },
            None => {},
        }
        entry.perspective = target;
        self.tomains.insert(id.to_owned(), entry);
        proof {
            assert forall|k: Seq<char>|
                k != id@ implies (final(self).tomains@.contains_key(k) == old(self).tomains@.contains_key(k) && (old(self).tomains@.contains_key(k) ==> final(self).tomains@[k] == old(self).tomains@[k])) by {}
        }
        PromoteOutcome::Promoted
    }

    /// Promote one feature between environments: the feature's kernel,
    /// or failing that the source environment's, lands in the target's
    /// slot; the record's perspective moves to the target; the feature
    /// notes the target among its environments.
    pub fn promote_feature(&mut self, id: &str, req: &FeaturePromoteRequest) -> (r:
        FeaturePromoteOutcome)
        ensures
            r is NotFound <==> !old(self).tomains@.contains_key(id@),
            ({
                let e0 = old(self).tomains@[id@];
                let from = env_key(req.from@);
                let to = env_key(req.to@);
                let fw: Option<String> = if e0.features@.contains_key(req.feature_name@) {
                    e0.features@[req.feature_name@].wasm_hash
                } else {
                    None
                };
                let w: Option<String> = match fw {
                    Some(x) => Some(x),
                    None => if e0.wasm_hashes@.contains_key(from) {
                        Some(e0.wasm_hashes@[from])
                    } else {
                        None
                    },
                };
                &&& (r is NoWasm <==> (old(self).tomains@.contains_key(id@) && w is None))
                &&& ((r is NotFound || r is NoWasm) ==> *final(self) == *old(self))
                &&& (r is Promoted ==> ({
                    let e = final(self).tomains@[id@];
                    &&& w matches Some(wasm) && e.wasm_hashes@ == e0.wasm_hashes@.insert(to, wasm)
                    &&& e.perspective@ == to
                    &&& (e0.features@.contains_key(req.feature_name@) ==> ({
                        let f0 = e0.features@[req.feature_name@];
                        let f = e.features@[req.feature_name@];
                        &&& e.features@.contains_key(req.feature_name@)
                        &&& (if exists|i: int|
                            0 <= i < f0.environments@.len() && (#[trigger] f0.environments@[i])@
                                == to {
                            f.environments == f0.environments
                        } else {
                            f.environments@.len() == f0.environments@.len() + 1 && (forall|j: int|
                                0 <= j < f0.environments@.len() ==> f.environments@[j]
                                    == f0.environments@[j]) && f.environments@.last()@ == to
                        })
                        &&& f.wasm_hash == f0.wasm_hash
                        &&& f.branch == f0.branch
                        &&& f.status == f0.status
                        &&& forall|k: Seq<char>|
                            k != req.feature_name@ ==> (e.features@.contains_key(k)
                                == e0.features@.contains_key(k) && (e0.features@.contains_key(k)
                                ==> e.features@[k] == e0.features@[k]))
                    }))
                    &&& (!e0.features@.contains_key(req.feature_name@) ==> e.features
                        == e0.features)
                    &&& e.owner == e0.owner
                    &&& e.status == e0.status
                    &&& e.created_at == e0.created_at
                    &&& forall|k: Seq<char>|
                        k != id@ ==> (final(self).tomains@.contains_key(k) == old(
                            self,
                        ).tomains@.contains_key(k) && (old(self).tomains@.contains_key(k)
                            ==> final(self).tomains@[k] == old(self).tomains@[k]))
                    &&& final(self).bindings == old(self).bindings
                    &&& final(self).manifests == old(self).manifests
                }))
            }),
    {
        let from = to_upper_ascii(req.from.as_str());
        let to = to_upper_ascii(req.to.as_str());
        let wasm: String = match self.tomains.get(id) {
            Some(e) => {
                let feature_wasm: Option<String> = match e.features.get(
                    req.feature_name.as_str(),
                ) {
                    Some(f) => match &f.wasm_hash {
                        Some(w) => Some(w.clone()),
                        None => None,
                    },
                    None => None,
                };
                match feature_wasm {
                    Some(w) => w,
                    None => match e.wasm_hashes.get(from.as_str()) {
                        Some(w) => w.clone(),
                        None => {
                            return FeaturePromoteOutcome::NoWasm;
                        },
                    },
                }
            },
            None => {
                return FeaturePromoteOutcome::NotFound;
            },
        };
        let mut entry = match self.tomains.remove(id) {
            Some(e) => e,
            None => {
                proof {
                    assert(false);
                }
                return FeaturePromoteOutcome::NotFound;
            },
        };
        entry.wasm_hashes.insert(to.clone(), wasm);
        entry.perspective = to.clone();
        match entry.features.remove(req.feature_name.as_str()) {
            Some(mut f) => {
                if !vec_contains_str(&f.environments, to.as_str()) {
                    f.environments.push(to.clone());
                }
                entry.features.insert(req.feature_name.as_str().to_owned(), f);
            },
            None => {},
        }
        self.tomains.insert(id.to_owned(), entry);
        FeaturePromoteOutcome::Promoted
    }

    /// Retire a tenant from an environment: its kernel leaves that slot.
    pub fn retire_tomain(&mut self, id: &str, req: RetireRequest) -> (r: bool)
        ensures
            r <==> old(self).tomains@.contains_key(id@),
            !r ==> *final(self) == *old(self),
            r ==> ({
                let e0 = old(self).tomains@[id@];
                let e = final(self).tomains@[id@];
                &&& final(self).tomains@.contains_key(id@)
                &&& e.wasm_hashes@ == e0.wasm_hashes@.remove(env_key(req.env@))
                &&& e.perspective == e0.perspective
                &&& e.owner == e0.owner
                &&& e.status == e0.status
                &&& e.features == e0.features
                &&& forall|k: Seq<char>|
                    k != id@ ==> (final(self).tomains@.contains_key(k) == old(self).tomains@.contains_key(k) && (old(self).tomains@.contains_key(k)
                        ==> final(self).tomains@[k] == old(self).tomains@[k]))
                &&& final(self).bindings == old(self).bindings
                &&& final(self).manifests == old(self).manifests
            }),
    {
        let env = to_upper_ascii(req.env.as_str());
        if !self.tomains.contains_key(id) {
            return false;
        }
        let mut entry = match self.tomains.remove(id) {
            Some(e) => e,
            None => {
                proof {
                    assert(false);
                }
                return false;
            },
        };
        let _ = entry.wasm_hashes.remove(env.as_str());
        self.tomains.insert(id.to_owned(), entry);
        true
    }

    /// Register a feature branch on a tenant: Active, starting in DEV,
    /// with no kernel yet.
    pub fn register_feature(&mut self, id: &str, req: RegisterFeatureRequest) -> (r: bool)
        ensures
            r <==> old(self).tomains@.contains_key(id@),
            !r ==> *final(self) == *old(self),
            r ==> ({
                let e0 = old(self).tomains@[id@];
                let e = final(self).tomains@[id@];
                &&& final(self).tomains@.contains_key(id@)
                &&& e.features@.contains_key(req.name@)
                &&& ({
                    let f = e.features@[req.name@];
                    &&& f.wasm_hash is None
                    &&& f.branch matches Some(b) && b == req.branch
                    &&& f.status@ == "Active"@
                    &&& f.environments@.len() == 1 && f.environments@[0]@ == "DEV"@
                    &&& f.commits_ahead is None
                })
                &&& forall|k: Seq<char>|
                    k != req.name@ ==> (e.features@.contains_key(k) == e0.features@.contains_key(k)
                        && (e0.features@.contains_key(k) ==> e.features@[k] == e0.features@[k]))
                &&& e.wasm_hashes == e0.wasm_hashes
                &&& e.perspective == e0.perspective
            }),
    {
        if !self.tomains.contains_key(id) {
            return false;
        }
        let mut entry = match self.tomains.remove(id) {
            Some(e) => e,
            None => {
                proof {
                    assert(false);
                }
                return false;
            },
        };
        let mut environments: Vec<String> = Vec::new();
        environments.push(("DEV").to_owned());
        let feature = FeatureDetail {
            wasm_hash: None,
            branch: Some(req.branch),
            status: ("Active").to_owned(),
            environments,
            commits_ahead: None,
        };
        entry.features.insert(req.name, feature);
        self.tomains.insert(id.to_owned(), entry);
        true
    }

    /// Attach a kernel to a feature branch.
    pub fn upload_feature_wasm(
        &mut self,
        id: &str,
        feature_name: &str,
        req: UploadFeatureWasmRequest,
    ) -> (r: UploadOutcome)
        ensures
            r is NotFound <==> !old(self).tomains@.contains_key(id@),
            r is FeatureNotFound <==> (old(self).tomains@.contains_key(id@) && !old(self).tomains@[id@].features@.contains_key(feature_name@)),
            (r is NotFound || r is FeatureNotFound) ==> *final(self) == *old(self),
            r is Uploaded ==> ({
                let e0 = old(self).tomains@[id@];
                let e = final(self).tomains@[id@];
                let f0 = e0.features@[feature_name@];
                let f = e.features@[feature_name@];
                &&& final(self).tomains@.contains_key(id@)
                &&& e.features@.contains_key(feature_name@)
                &&& f.wasm_hash matches Some(w) && w == req.wasm_base64
                &&& f.branch == f0.branch
                &&& f.status == f0.status
                &&& f.environments == f0.environments
                &&& forall|k: Seq<char>|
                    k != feature_name@ ==> (e.features@.contains_key(k)
                        == e0.features@.contains_key(k) && (e0.features@.contains_key(k)
                        ==> e.features@[k] == e0.features@[k]))
                &&& forall|k: Seq<char>|
                    k != id@ ==> (final(self).tomains@.contains_key(k) == old(self).tomains@.contains_key(k) && (old(self).tomains@.contains_key(k)
                        ==> final(self).tomains@[k] == old(self).tomains@[k]))
            }),
    {
        match self.tomains.get(id) {
            Some(e) => {
                if !e.features.contains_key(feature_name) {
                    return UploadOutcome::FeatureNotFound;
                }
            },
            None => {
                return UploadOutcome::NotFound;
            },
        }
        let mut entry = match self.tomains.remove(id) {
            Some(e) => e,
            None => {
                proof {
                    assert(false);
                }
                return UploadOutcome::NotFound;
            },
        };
        let mut feature = match entry.features.remove(feature_name) {
            Some(f) => f,
            None => {
                proof {
                    assert(false);
                }
                self.tomains.insert(id.to_owned(), entry);
                return UploadOutcome::FeatureNotFound;
            },
        };
        feature.wasm_hash = Some(req.wasm_base64);
        entry.features.insert(feature_name.to_owned(), feature);
        self.tomains.insert(id.to_owned(), entry);
        proof {
            assert(final(self).tomains@[id@].features@ =~= old(self).tomains@[id@].features@.insert(
                feature_name@,
                final(self).tomains@[id@].features@[feature_name@],
            ));
        }
        UploadOutcome::Uploaded
    }

    /// Register or update one binding: tenant, environment (folded to
    /// upper case) and alias point at the physical URL.
    pub fn register_binding(&mut self, req: RegisterBindingRequest)
        ensures
            ({
                let t = req.tomain_id@;
                let ek = env_key(req.environment@);
                &&& final(self).bindings@.contains_key(t)
                &&& final(self).bindings@[t]@.contains_key(ek)
                &&& final(self).bindings@[t]@[ek]@.contains_key(req.alias@)
                &&& final(self).bindings@[t]@[ek]@[req.alias@] == req.physical_url
                &&& forall|a: Seq<char>|
                    a != req.alias@ ==> (old(self).bindings@.contains_key(t) && old(self).bindings@[t]@.contains_key(ek) && old(self).bindings@[t]@[ek]@.contains_key(
                        a,
                    ) ==> (final(self).bindings@[t]@[ek]@.contains_key(a) && final(self).bindings@[t]@[ek]@[a] == old(self).bindings@[t]@[ek]@[a]))
                &&& forall|k: Seq<char>|
                    k != t ==> (final(self).bindings@.contains_key(k) == old(self).bindings@.contains_key(k) && (old(self).bindings@.contains_key(k)
                        ==> final(self).bindings@[k] == old(self).bindings@[k]))
                &&& final(self).tomains == old(self).tomains
                &&& final(self).manifests == old(self).manifests
            }),
    {
        let env = to_upper_ascii(req.environment.as_str());
        let mut tenant_map: StrMap<StrMap<String>> = match self.bindings.remove(
            req.tomain_id.as_str(),
        ) {
            Some(m) => m,
            None => StrMap::new(),
        };
        let mut alias_map: StrMap<String> = match tenant_map.remove(env.as_str()) {
            Some(m) => m,
            None => StrMap::new(),
        };
        alias_map.insert(req.alias, req.physical_url);
        tenant_map.insert(env, alias_map);
        self.bindings.insert(req.tomain_id, tenant_map);
    }

    /// Delete a binding: the alias's entry leaves the tenant's table at
    /// the environment level, whichever environment bears its name.
    pub fn delete_binding(&mut self, req: DeleteBindingRequest)
        ensures
            old(self).bindings@.contains_key(req.tomain_id@) ==> ({
                &&& final(self).bindings@.contains_key(req.tomain_id@)
                &&& final(self).bindings@[req.tomain_id@]@ == old(self).bindings@[req.tomain_id@]@.remove(req.alias@)
            }),
            !old(self).bindings@.contains_key(req.tomain_id@) ==> *final(self) == *old(self),
            forall|k: Seq<char>|
                k != req.tomain_id@ ==> (final(self).bindings@.contains_key(k) == old(self).bindings@.contains_key(k) && (old(self).bindings@.contains_key(k)
                    ==> final(self).bindings@[k] == old(self).bindings@[k])),
            final(self).tomains == old(self).tomains,
            final(self).manifests == old(self).manifests,
    {
        if !self.bindings.contains_key(req.tomain_id.as_str()) {
            return ;
        }
        let mut tenant_map: StrMap<StrMap<String>> = match self.bindings.remove(
            req.tomain_id.as_str(),
        ) {
            Some(m) => m,
            None => {
                proof {
                    assert(false);
                }
                return ;
            },
        };
        let _ = tenant_map.remove(req.alias.as_str());
        self.bindings.insert(req.tomain_id, tenant_map);
    }

    /// The URL bound for the queried tenant, environment and alias.
    pub fn resolve_binding(&self, q: &ResolveBindingQuery) -> (r: Option<String>)
        ensures
            ({
                let t = q.tomain_id@;
                let ek = env_key(q.environment@);
                match r {
                    Some(u) => self.bindings@.contains_key(t) && self.bindings@[t]@.contains_key(ek)
                        && self.bindings@[t]@[ek]@.contains_key(q.alias@) && u@
                        == self.bindings@[t]@[ek]@[q.alias@]@,
                    None => !(self.bindings@.contains_key(t) && self.bindings@[t]@.contains_key(ek)
                        && self.bindings@[t]@[ek]@.contains_key(q.alias@)),
                }
            }),
    {
        let env = to_upper_ascii(q.environment.as_str());
        match self.bindings.get(q.tomain_id.as_str()) {
            Some(tenant_map) => match tenant_map.get(env.as_str()) {
                Some(alias_map) => match alias_map.get(q.alias.as_str()) {
                    Some(u) => Some(u.clone()),
                    None => None,
                },
                None => None,
            },
            None => None,
        }
    }

    /// Replace a tenant's logical manifest with the one the request
    /// carries: each resource name points at its alias.  API details and
    /// a vault path ride along onto the tenant's record when it exists.
    pub fn update_manifest(&mut self, id: &str, req: UpdateManifestRequest)
        ensures
            final(self).manifests@.contains_key(id@),
            forall|k: Seq<char>|
                #[trigger] final(self).manifests@[id@]@.contains_key(k)
                    <==> req.resources@.contains_key(k),
            forall|k: Seq<char>|
                req.resources@.contains_key(k) ==> final(self).manifests@[id@]@[k]
                    == req.resources@[k].alias,
            forall|k: Seq<char>|
                k != id@ ==> (final(self).manifests@.contains_key(k) == old(self).manifests@.contains_key(k) && (old(self).manifests@.contains_key(k)
                    ==> final(self).manifests@[k] == old(self).manifests@[k])),
            final(self).bindings == old(self).bindings,
            old(self).tomains@.contains_key(id@) ==> ({
                let e0 = old(self).tomains@[id@];
                let e = final(self).tomains@[id@];
                &&& final(self).tomains@.contains_key(id@)
                &&& (match req.apis {
                    Some(apis) => e.apis matches Some(a) && a == apis,
                    None => e.apis == e0.apis,
                })
                &&& (match req.vault_path {
                    Some(vp) => e.repo_url matches Some(u) && u == vp,
                    None => e.repo_url == e0.repo_url,
                })
                &&& e.wasm_hashes == e0.wasm_hashes
                &&& e.perspective == e0.perspective
                &&& e.features == e0.features
            }),
            !old(self).tomains@.contains_key(id@) ==> final(self).tomains == old(self).tomains,
    {
        let mut manifest_map: StrMap<String> = StrMap::new();
        let resources = req.resources.pairs();
        let n = resources.len();
        let mut i: usize = 0;
        while i < n
            invariant
                n == resources@.len(),
                i <= n,
                forall|j: int|
                    0 <= j < n ==> req.resources@.contains_key(#[trigger] resources@[j].0@)
                        && req.resources@[resources@[j].0@] == resources@[j].1,
                forall|j: int, l: int| 0 <= j < l < n ==> resources@[j].0@ != resources@[l].0@,
                forall|k: Seq<char>|
                    req.resources@.contains_key(k) ==> exists|j: int|
                        0 <= j < n && #[trigger] resources@[j].0@ == k,
                forall|k: Seq<char>|
                    #[trigger] manifest_map@.contains_key(k) ==> exists|j: int|
                        0 <= j < i && #[trigger] resources@[j].0@ == k,
                forall|j: int|
                    0 <= j < i ==> manifest_map@.contains_key(#[trigger] resources@[j].0@)
                        && manifest_map@[resources@[j].0@] == resources@[j].1.alias,
            decreases n - i,
        {
            let name = resources[i].0.clone();
            let alias = resources[i].1.alias.clone();
            manifest_map.insert(name, alias);
            i += 1;
        }
        self.manifests.insert(id.to_owned(), manifest_map);
        if !self.tomains.contains_key(id) {
            return ;
        }
        let mut entry = match self.tomains.remove(id) {
            Some(e) => e,
            None => {
                proof {
                    assert(false);
                }
                return ;
            },
        };
        match req.apis {
            Some(apis) => {
                entry.apis = Some(apis);
            },
            None => {},
        }
        match req.vault_path {
            Some(vp) => {
                entry.repo_url = Some(vp);
            },
            None => {},
        }
        self.tomains.insert(id.to_owned(), entry);
    }
}

/// The default database URL for a color: each known color has its own
/// host, and an unknown color falls back to the local database.
pub open spec fn default_db_url(c: Seq<char>, tomain: Seq<char>) -> Seq<char> {
    if c == "DEV"@ {
        "postgres://dev-db.internal/"@ + tomain
    } else if c == "QA"@ {
        "postgres://qa-db.internal/"@ + tomain
    } else if c == "STAGING"@ {
        "postgres://staging-db.internal/"@ + tomain
    } else if c == "PROD"@ {
        "postgres://prod-db.internal/"@ + tomain
    } else {
        "postgres://localhost:5432/"@ + tomain
    }
}

impl AxiomRegistry {
    /// The connection endpoints for a tenant in a color: the tenant's
    /// DATABASE_URL secret when it has one, else the color's default; the
    /// cache and queue endpoints from the infra table, with local
    /// defaults.
    pub fn resolve_tomain(&self, tomain: &str, color: &str) -> (r: Option<ConnectionMetadata>)
        ensures
            r is None <==> !self.tomains@.contains_key(tomain@),
            r matches Some(m) ==> ({
                let c = env_key(color@);
                &&& m.environment@ == "Context ("@ + c + ")"@
                &&& (self.secrets@.contains_key(tomain@) && self.secrets@[tomain@]@.contains_key(
                    "DATABASE_URL"@,
                ) ==> m.database_url@ == self.secrets@[tomain@]@["DATABASE_URL"@]@)
                &&& (!(self.secrets@.contains_key(tomain@)
                    && self.secrets@[tomain@]@.contains_key("DATABASE_URL"@))
                    ==> m.database_url@ == default_db_url(c, tomain@))
                &&& (self.infra@.contains_key("cache_url"@) ==> m.cache_url@
                    == self.infra@["cache_url"@]@)
                &&& (!self.infra@.contains_key("cache_url"@) ==> m.cache_url@
                    == "redis://localhost:6379"@)
                &&& (self.infra@.contains_key("message_queue"@) ==> m.message_queue@
                    == self.infra@["message_queue"@]@)
                &&& (!self.infra@.contains_key("message_queue"@) ==> m.message_queue@
                    == "nats://localhost:4222"@)
            }),
    {
        if !self.tomains.contains_key(tomain) {
            return None;
        }
        let c = to_upper_ascii(color);
        let mut environment = ("Context (").to_owned();
        environment.append(c.as_str());
        environment.append(")");
        let secret_url: Option<String> = match self.secrets.get(tomain) {
            Some(m) => match m.get("DATABASE_URL") {
                Some(u) => Some(u.clone()),
                None => None,
            },
            None => None,
        };
        let database_url: String = match secret_url {
            Some(u) => u,
            None => {
                let dev = ("DEV").to_owned();
                let qa = ("QA").to_owned();
                let staging = ("STAGING").to_owned();
                let prod = ("PROD").to_owned();
                let mut base = if c == dev {
                    ("postgres://dev-db.internal/").to_owned()
                } else if c == qa {
                    ("postgres://qa-db.internal/").to_owned()
                } else if c == staging {
                    ("postgres://staging-db.internal/").to_owned()
                } else if c == prod {
                    ("postgres://prod-db.internal/").to_owned()
                } else {
                    ("postgres://localhost:5432/").to_owned()
                };
                base.append(tomain);
                base
            },
        };
        let cache_url: String = match self.infra.get("cache_url") {
            Some(u) => u.clone(),
            None => ("redis://localhost:6379").to_owned(),
        };
        let message_queue: String = match self.infra.get("message_queue") {
            Some(u) => u.clone(),
            None => ("nats://localhost:4222").to_owned(),
        };
        Some(ConnectionMetadata { environment, database_url, cache_url, message_queue })
    }

    /// Every binding of the registry, flattened into rows of tenant,
    /// environment, alias and URL: each row is a binding, and each
    /// binding has a row.
    pub fn list_bindings(&self) -> (r: Vec<(String, String, String, String)>)
        ensures
            forall|i: int|
                0 <= i < r@.len() ==> ({
                    let row = #[trigger] r@[i];
                    &&& self.bindings@.contains_key(row.0@)
                    &&& self.bindings@[row.0@]@.contains_key(row.1@)
                    &&& self.bindings@[row.0@]@[row.1@]@.contains_key(row.2@)
                    &&& self.bindings@[row.0@]@[row.1@]@[row.2@]@ == row.3@
                }),
            forall|t: Seq<char>, e: Seq<char>, a: Seq<char>|
                (self.bindings@.contains_key(t) && self.bindings@[t]@.contains_key(e)
                    && self.bindings@[t]@[e]@.contains_key(a)) ==> exists|i: int|
                    0 <= i < r@.len() && (#[trigger] r@[i]).0@ == t && r@[i].1@ == e && r@[i].2@
                        == a,
    {
        let mut r: Vec<(String, String, String, String)> = Vec::new();
        let tenants = self.bindings.pairs();
        let tn = tenants.len();
        let mut ti: usize = 0;
        while ti < tn
            invariant
                tn == tenants@.len(),
                ti <= tn,
                forall|j: int|
                    0 <= j < tn ==> self.bindings@.contains_key(#[trigger] tenants@[j].0@)
                        && self.bindings@[tenants@[j].0@] == tenants@[j].1,
                forall|k: Seq<char>|
                    self.bindings@.contains_key(k) ==> exists|j: int|
                        0 <= j < tn && #[trigger] tenants@[j].0@ == k,
                forall|i: int|
                    0 <= i < r@.len() ==> ({
                        let row = #[trigger] r@[i];
                        &&& self.bindings@.contains_key(row.0@)
                        &&& self.bindings@[row.0@]@.contains_key(row.1@)
                        &&& self.bindings@[row.0@]@[row.1@]@.contains_key(row.2@)
                        &&& self.bindings@[row.0@]@[row.1@]@[row.2@]@ == row.3@
                    }),
                forall|j: int, e: Seq<char>, a: Seq<char>|
                    #![trigger tenants@[j].1@[e]@.contains_key(a)]
                    (0 <= j < ti && tenants@[j].1@.contains_key(e)
                        && tenants@[j].1@[e]@.contains_key(a)) ==> exists|i: int|
                        0 <= i < r@.len() && (#[trigger] r@[i]).0@ == tenants@[j].0@ && r@[i].1@
                            == e && r@[i].2@ == a,
            decreases tn - ti,
        {
            let tenant = &tenants[ti].0;
            let envs = tenants[ti].1.pairs();
            let en = envs.len();
            let mut ei: usize = 0;
            while ei < en
                invariant
                    tn == tenants@.len(),
                    ti < tn,
                    en == envs@.len(),
                    ei <= en,
                    tenant@ == tenants@[ti as int].0@,
                    self.bindings@.contains_key(tenant@),
                    self.bindings@[tenant@] == tenants@[ti as int].1,
                    forall|j: int|
                        0 <= j < en ==> tenants@[ti as int].1@.contains_key(
                            #[trigger] envs@[j].0@,
                        ) && tenants@[ti as int].1@[envs@[j].0@] == envs@[j].1,
                    forall|k: Seq<char>|
                        tenants@[ti as int].1@.contains_key(k) ==> exists|j: int|
                            0 <= j < en && #[trigger] envs@[j].0@ == k,
                    forall|i: int|
                        0 <= i < r@.len() ==> ({
                            let row = #[trigger] r@[i];
                            &&& self.bindings@.contains_key(row.0@)
                            &&& self.bindings@[row.0@]@.contains_key(row.1@)
                            &&& self.bindings@[row.0@]@[row.1@]@.contains_key(row.2@)
                            &&& self.bindings@[row.0@]@[row.1@]@[row.2@]@ == row.3@
                        }),
                    forall|j: int, e: Seq<char>, a: Seq<char>|
                        #![trigger tenants@[j].1@[e]@.contains_key(a)]
                        (0 <= j < ti && tenants@[j].1@.contains_key(e)
                            && tenants@[j].1@[e]@.contains_key(a)) ==> exists|i: int|
                            0 <= i < r@.len() && (#[trigger] r@[i]).0@ == tenants@[j].0@ && r@[i].1@
                                == e && r@[i].2@ == a,
                    forall|j: int, a: Seq<char>|
                        #![trigger envs@[j].1@.contains_key(a)]
                        (0 <= j < ei && envs@[j].1@.contains_key(a)) ==> exists|i: int|
                            0 <= i < r@.len() && (#[trigger] r@[i]).0@ == tenant@ && r@[i].1@
                                == envs@[j].0@ && r@[i].2@ == a,
                decreases en - ei,
            {
                let env = &envs[ei].0;
                let aliases = envs[ei].1.pairs();
                let an = aliases.len();
                let mut ai: usize = 0;
                while ai < an
                    invariant
                        tn == tenants@.len(),
                        ti < tn,
                        en == envs@.len(),
                        ei < en,
                        an == aliases@.len(),
                        ai <= an,
                        tenant@ == tenants@[ti as int].0@,
                        env@ == envs@[ei as int].0@,
                        self.bindings@.contains_key(tenant@),
                        self.bindings@[tenant@] == tenants@[ti as int].1,
                        tenants@[ti as int].1@.contains_key(env@),
                        tenants@[ti as int].1@[env@] == envs@[ei as int].1,
                        forall|j: int|
                            0 <= j < an ==> envs@[ei as int].1@.contains_key(
                                #[trigger] aliases@[j].0@,
                            ) && envs@[ei as int].1@[aliases@[j].0@] == aliases@[j].1,
                        forall|k: Seq<char>|
                            envs@[ei as int].1@.contains_key(k) ==> exists|j: int|
                                0 <= j < an && #[trigger] aliases@[j].0@ == k,
                        forall|i: int|
                            0 <= i < r@.len() ==> ({
                                let row = #[trigger] r@[i];
                                &&& self.bindings@.contains_key(row.0@)
                                &&& self.bindings@[row.0@]@.contains_key(row.1@)
                                &&& self.bindings@[row.0@]@[row.1@]@.contains_key(row.2@)
                                &&& self.bindings@[row.0@]@[row.1@]@[row.2@]@ == row.3@
                            }),
                        forall|j: int, e: Seq<char>, a: Seq<char>|
                            #![trigger tenants@[j].1@[e]@.contains_key(a)]
                            (0 <= j < ti && tenants@[j].1@.contains_key(e)
                                && tenants@[j].1@[e]@.contains_key(a)) ==> exists|i: int|
                                0 <= i < r@.len() && (#[trigger] r@[i]).0@ == tenants@[j].0@
                                    && r@[i].1@ == e && r@[i].2@ == a,
                        forall|j: int, a: Seq<char>|
                            #![trigger envs@[j].1@.contains_key(a)]
                            (0 <= j < ei && envs@[j].1@.contains_key(a)) ==> exists|i: int|
                                0 <= i < r@.len() && (#[trigger] r@[i]).0@ == tenant@ && r@[i].1@
                                    == envs@[j].0@ && r@[i].2@ == a,
                        forall|j: int|
                            0 <= j < ai ==> exists|i: int|
                                0 <= i < r@.len() && (#[trigger] r@[i]).0@ == tenant@ && r@[i].1@
                                    == env@ && r@[i].2@ == (#[trigger] aliases@[j]).0@,
                    decreases an - ai,
                {
                    let ghost r0 = r@;
                    let alias = aliases[ai].0.clone();
                    let url = aliases[ai].1.clone();
                    r.push((tenant.clone(), env.clone(), alias, url));
                    proof {
                        assert(r@ =~= r0.push(r@[r@.len() - 1]));
                        assert forall|j: int, e: Seq<char>, a: Seq<char>|
                            #![trigger tenants@[j].1@[e]@.contains_key(a)]
                            (0 <= j < ti && tenants@[j].1@.contains_key(e)
                                && tenants@[j].1@[e]@.contains_key(a)) implies exists|i: int|
                            0 <= i < r@.len() && (#[trigger] r@[i]).0@ == tenants@[j].0@
                                && r@[i].1@ == e && r@[i].2@ == a by {
                            let i0 = choose|i: int|
                                0 <= i < r0.len() && (#[trigger] r0[i]).0@ == tenants@[j].0@
                                    && r0[i].1@ == e && r0[i].2@ == a;
                            assert(r@[i0] == r0[i0]);
                        }
                        assert forall|j: int, a: Seq<char>|
                            #![trigger envs@[j].1@.contains_key(a)]
                            (0 <= j < ei && envs@[j].1@.contains_key(a)) implies exists|i: int|
                            0 <= i < r@.len() && (#[trigger] r@[i]).0@ == tenant@ && r@[i].1@
                                == envs@[j].0@ && r@[i].2@ == a by {
                            let i0 = choose|i: int|
                                0 <= i < r0.len() && (#[trigger] r0[i]).0@ == tenant@ && r0[i].1@
                                    == envs@[j].0@ && r0[i].2@ == a;
                            assert(r@[i0] == r0[i0]);
                        }
                        assert forall|j: int| 0 <= j < ai + 1 implies exists|i: int|
                            0 <= i < r@.len() && (#[trigger] r@[i]).0@ == tenant@ && r@[i].1@
                                == env@ && r@[i].2@ == (#[trigger] aliases@[j]).0@ by {
                            if j < ai {
                                let i0 = choose|i: int|
                                    0 <= i < r0.len() && (#[trigger] r0[i]).0@ == tenant@
                                        && r0[i].1@ == env@ && r0[i].2@ == aliases@[j].0@;
                                assert(r@[i0] == r0[i0]);
                            } else {
                                assert(r@[r@.len() - 1].2@ == aliases@[j].0@);
                            }
                        }
                    }
                    ai += 1;
                }
                proof {
                    assert forall|a: Seq<char>|
                        (#[trigger] (envs@[ei as int].1)@.contains_key(a)) implies exists|i: int|
                        0 <= i < r@.len() && (#[trigger] r@[i]).0@ == tenant@ && r@[i].1@
                            == envs@[ei as int].0@ && r@[i].2@ == a by {
                        let j = choose|j: int| 0 <= j < an && #[trigger] aliases@[j].0@ == a;
                        assert(exists|i: int|
                            0 <= i < r@.len() && (#[trigger] r@[i]).0@ == tenant@ && r@[i].1@
                                == env@ && r@[i].2@ == aliases@[j].0@);
                    }
                }
                ei += 1;
            }
            proof {
                assert forall|e: Seq<char>, a: Seq<char>|
                    #![trigger tenants@[ti as int].1@[e]@.contains_key(a)]
                    (tenants@[ti as int].1@.contains_key(e)
                        && tenants@[ti as int].1@[e]@.contains_key(a)) implies exists|i: int|
                    0 <= i < r@.len() && (#[trigger] r@[i]).0@ == tenants@[ti as int].0@ && r@[i].1@
                        == e && r@[i].2@ == a by {
                    let j = choose|j: int| 0 <= j < en && #[trigger] envs@[j].0@ == e;
                    assert((envs@[j].1)@.contains_key(a));
                }
            }
            ti += 1;
        }
        proof {
            assert forall|t: Seq<char>, e: Seq<char>, a: Seq<char>|
                (self.bindings@.contains_key(t) && self.bindings@[t]@.contains_key(e)
                    && self.bindings@[t]@[e]@.contains_key(a)) implies exists|i: int|
                0 <= i < r@.len() && (#[trigger] r@[i]).0@ == t && r@[i].1@ == e && r@[i].2@
                    == a by {
                let j = choose|j: int| 0 <= j < tn && #[trigger] tenants@[j].0@ == t;
                assert((tenants@[j].1)@.contains_key(e));
                assert(tenants@[j].1@[e]@.contains_key(a));
            }
        }
        r
    }
}

/// The health shown for a tenant: its recorded status while the Shell
/// lists it among the active tenants, Inactive otherwise.
pub fn health_status_for(active_tenants: &Vec<String>, id: &str, status: &str) -> (r: String)
    ensures
        (exists|i: int| 0 <= i < active_tenants@.len() && (#[trigger] active_tenants@[i])@ == id@)
            ==> r@ == status@,
        !(exists|i: int|
            0 <= i < active_tenants@.len() && (#[trigger] active_tenants@[i])@ == id@) ==> r@
            == "Inactive"@,
{
    if vec_contains_str(active_tenants, id) {
        status.to_owned()
    } else {
        ("Inactive").to_owned()
    }
}

} // verus!
