//! The supervisor: slot table, perspective table, audit log and the
//! guards around outbound guest calls.
//!
//! A kernel arrives base64-encoded, is compiled into a tenant slot, and
//! is served under its tenant's active perspective.  Outbound calls made
//! by a guest run through the egress gate: alias resolution, perspective
//! auditing, the security boundary, the downstream rate limit and the
//! circuit breaker; what survives is sent by the host with bounded
//! exponential backoff.

use vstd::prelude::*;
use base64::Engine;
use crate::smap::StrMap;
use crate::egress::EgressResolver;
use crate::resilience::{ResilienceManager, DEFAULT_DOWNSTREAM_RPS};
use crate::tenants::{capacity_refused, register_effect, remove_effect, TenantManager};
use crate::textutil::env_key;

verus! {

/// The default perspective of a tenant nothing was set for.
pub open spec fn default_env() -> Seq<char> {
    "GREEN"@
}

/// The perspective that switches audit logging on.
pub open spec fn audit_env() -> Seq<char> {
    "RED"@
}

/// Status notes per tenant, kept in memory.
pub struct InfraRegistry {
    pub statuses: StrMap<String>,
}

impl InfraRegistry {
    /// An empty registry.
    pub fn new() -> (r: Self)
        ensures
            r.statuses@ == Map::<Seq<char>, String>::empty(),
    {
        InfraRegistry { statuses: StrMap::new() }
    }

    /// Note a tenant's status.
    pub fn update_status(&mut self, id: &str, status: &str)
        ensures
            final(self).statuses@.contains_key(id@),
            final(self).statuses@[id@]@ == status@,
            forall|k: Seq<char>|
                #![trigger final(self).statuses@.contains_key(k)]
                #![trigger final(self).statuses@[k]]
                k != id@ ==> (final(self).statuses@.contains_key(k) == old(
                    self,
                ).statuses@.contains_key(k) && (old(self).statuses@.contains_key(k)
                    ==> final(self).statuses@[k] == old(self).statuses@[k])),
    {
        self.statuses.insert(id.to_owned(), status.to_owned());
    }
}

/// What a base64 text decodes to, if anything; a function of the text
/// alone.
pub uninterp spec fn base64_decoded(s: Seq<char>) -> Option<Seq<u8>>;

/// Relies on base64's STANDARD engine decode: the decoded bytes of a
/// standard-alphabet base64 text, or nothing when the text is rejected.
#[verifier::external_body]
fn base64_decode(s: &str) -> (r: Option<Vec<u8>>)
    ensures
        r is Some <==> base64_decoded(s@) is Some,
        r matches Some(v) ==> base64_decoded(s@) == Some(v@),
{
    base64::engine::general_purpose::STANDARD.decode(s).ok()
}

/// The in-band error a guest sees when the security boundary refuses a
/// call.
pub fn security_boundary_msg(alias: &str, environment: &str) -> (r: String)
    ensures
        r@ == "Error: Security Boundary: "@ + alias@ + " not promoted to "@ + environment@,
{
    let mut s = ("Error: Security Boundary: ").to_owned();
    s.append(alias);
    s.append(" not promoted to ");
    s.append(environment);
    s
}

/// The in-band error a guest sees when the downstream rate limit refuses
/// a call.
pub fn rate_limited_msg() -> (r: String)
    ensures
        r@ == "Error: Rate Limit Exceeded"@,
{
    ("Error: Rate Limit Exceeded").to_owned()
}

/// The in-band error a guest sees when the circuit breaker is open.
pub fn breaker_open_msg() -> (r: String)
    ensures
        r@ == "Error: Circuit Breaker Open"@,
{
    ("Error: Circuit Breaker Open").to_owned()
}

/// The in-band error a guest sees when every retry failed; the detail
/// summarises the last failure.
pub fn exhausted_msg(detail: &str) -> (r: String)
    ensures
        r@ == "Error: Downstream FAILED after 3 retries: "@ + detail@,
{
    let mut s = ("Error: Downstream FAILED after 3 retries: ").to_owned();
    s.append(detail);
    s
}

/// The message of the invocation error for an empty slot.
pub fn tenant_not_found_msg(tomain_id: &str, env: &str) -> (r: String)
    ensures
        r@ == "Tenant '"@ + tomain_id@ + "' not found in "@ + env@ + " slot"@,
{
    let mut s = ("Tenant '").to_owned();
    s.append(tomain_id);
    s.append("' not found in ");
    s.append(env);
    s.append(" slot");
    s
}

/// The audit entry for an outbound HTTP call.
pub fn audit_http_entry(method: &str, tomain_id: &str, alias: &str) -> (r: String)
    ensures
        r@ == "HTTP "@ + method@ + " "@ + tomain_id@ + " (Alias: "@ + alias@ + ")"@,
{
    let mut s = ("HTTP ").to_owned();
    s.append(method);
    s.append(" ");
    s.append(tomain_id);
    s.append(" (Alias: ");
    s.append(alias);
    s.append(")");
    s
}

/// The audit entry for a database call.
pub fn audit_db_entry(tomain_id: &str, alias: &str) -> (r: String)
    ensures
        r@ == "DB_EXECUTE "@ + tomain_id@ + " (Alias: "@ + alias@ + ")"@,
{
    let mut s = ("DB_EXECUTE ").to_owned();
    s.append(tomain_id);
    s.append(" (Alias: ");
    s.append(alias);
    s.append(")");
    s
}

/// An append of one entry to the tenant's audit list, other tenants
/// untouched.
pub open spec fn audit_appended(
    a: Map<Seq<char>, Vec<String>>,
    b: Map<Seq<char>, Vec<String>>,
    t: Seq<char>,
    entry: Seq<char>,
) -> bool {
    let prior: Seq<String> = if a.contains_key(t) {
        a[t]@
    } else {
        Seq::empty()
    };
    &&& b.contains_key(t)
    &&& b[t]@.len() == prior.len() + 1
    &&& forall|j: int| 0 <= j < prior.len() ==> b[t]@[j] == prior[j]
    &&& b[t]@.last()@ == entry
    &&& forall|k: Seq<char>|
        k != t ==> (#[trigger] b.contains_key(k) == a.contains_key(k) && (a.contains_key(k)
            ==> b[k] == a[k]))
}

/// A URL-like alias: it begins with `http`.
pub open spec fn http_named(a: Seq<char>) -> bool {
    a.len() >= "http"@.len() && a.subrange(0, "http"@.len() as int) == "http"@
}

/// What the egress gate decided for one outbound call.
pub enum EgressDecision {
    /// No binding resolved; the guest gets offset zero.
    Unresolved,
    /// The security boundary refused the call; the guest gets this
    /// string.
    Blocked { message: String },
    /// The downstream rate limit refused the call.
    RateLimited,
    /// The circuit breaker is open.
    BreakerOpen,
    /// The call may go out to this URL, carrying this vault token if any.
    Proceed { url: String, token: Option<String> },
}

/// Retry ceiling: after the first send, at most this many more attempts.
pub const MAX_RETRIES: u32 = 3;

/// Two to the power `n`.
pub open spec fn spec_pow2(n: nat) -> nat
    decreases n,
{
    if n == 0 {
        1
    } else {
        2 * spec_pow2((n - 1) as nat)
    }
}

/// How one outbound attempt ended, as the host observed it.
pub enum AttemptOutcome {
    /// An HTTP status in the 2xx or 3xx range.
    Success,
    /// An HTTP status in the 5xx range.
    ServerError,
    /// Any other HTTP status.
    ClientError,
    /// The transport failed before any status came back.
    TransportError,
}

/// What follows one outbound attempt.
pub enum RetryStep {
    /// Record the success and hand the body back.
    ReturnSuccess,
    /// Record the failure and hand the body back without retrying.
    ReturnFailure,
    /// Try again after this many seconds.
    Backoff { delay_s: u64 },
    /// Retries exhausted: record the failure and hand an error string
    /// back.
    GiveUp,
}

/// The outcome class of an HTTP status code: 2xx and 3xx succeed, 5xx is
/// transient, everything else is a plain failure.
pub fn classify_status(code: u16) -> (r: AttemptOutcome)
    ensures
        r is Success <==> (200 <= code && code < 400),
        r is ServerError <==> (500 <= code && code < 600),
        r is ClientError <==> !(200 <= code && code < 400) && !(500 <= code && code < 600),
{
    if 200 <= code && code < 400 {
        AttemptOutcome::Success
    } else if 500 <= code && code < 600 {
        AttemptOutcome::ServerError
    } else {
        AttemptOutcome::ClientError
    }
}

/// Why a deploy was refused.
pub enum DeployError {
    /// A fifth distinct tenant was refused by the capacity ceiling.
    Capacity,
    /// The payload was not valid base64.
    BadBase64,
    /// The bytes refused to compile; the offending tenant id is carried.
    Compile { tenant: String },
}

/// The supervisor: every table the Shell owns.
pub struct WasmSupervisor {
    pub manager: TenantManager,
    pub registry: InfraRegistry,
    pub egress: EgressResolver,
    pub db_registry: crate::db::DatabaseRegistry,
    pub resilience: ResilienceManager,
    /// tenant id -> active environment name.
    pub perspective: StrMap<String>,
    /// tenant id -> audit entries.
    pub audit_log: StrMap<Vec<String>>,
}

impl WasmSupervisor {
    /// The buckets of the resilience stores are well-formed.
    pub open spec fn wf(self) -> bool {
        self.resilience.wf()
    }

    /// The active environment for a tenant: the perspective table's entry,
    /// GREEN when there is none.
    pub open spec fn spec_perspective(self, t: Seq<char>) -> Seq<char> {
        if self.perspective@.contains_key(t) {
            self.perspective@[t]@
        } else {
            default_env()
        }
    }

    /// A fresh supervisor with empty tables.
    pub fn new() -> (r: Self)
        ensures
            r.manager.tenants@ == Map::<Seq<char>, StrMap<crate::tenants::TenantInstance>>::empty(),
            r.registry.statuses@ == Map::<Seq<char>, String>::empty(),
            r.perspective@ == Map::<Seq<char>, String>::empty(),
            r.audit_log@ == Map::<Seq<char>, Vec<String>>::empty(),
            r.egress.bindings@ == Map::<Seq<char>, StrMap<StrMap<String>>>::empty(),
            r.egress.manifests@ == Map::<Seq<char>, StrMap<String>>::empty(),
            r.db_registry.providers@ == Map::<Seq<char>, crate::db::ProviderSpec>::empty(),
            r.wf(),
    {
        WasmSupervisor {
            manager: TenantManager::new(),
            registry: InfraRegistry::new(),
            egress: EgressResolver::new(),
            db_registry: crate::db::DatabaseRegistry::new(),
            resilience: ResilienceManager::new(),
            perspective: StrMap::new(),
            audit_log: StrMap::new(),
        }
    }

    /// The tenant's active environment, GREEN by default.
    pub fn get_perspective(&self, tomain_id: &str) -> (r: String)
        ensures
            r@ == self.spec_perspective(tomain_id@),
    {
        match self.perspective.get(tomain_id) {
            Some(env) => env.clone(),
            None => ("GREEN").to_owned(),
        }
    }

    /// Decode the payload and deploy it into the tenant's slot.  The
    /// capacity ceiling is checked first, then the base64, then the
    /// compile; on success the tenant's status is noted Active.
    pub fn deploy_kernel(&mut self, tomain_id: &str, env: &str, wasm_base64: &str) -> (r: Result<
        (),
        DeployError,
    >)
        ensures
            r matches Err(DeployError::Capacity) <==> capacity_refused(
                old(self).manager,
                tomain_id@,
            ),
            r matches Err(DeployError::BadBase64) <==> (!capacity_refused(
                old(self).manager,
                tomain_id@,
            ) && base64_decoded(wasm_base64@) is None),
            r matches Err(DeployError::Compile { tenant }) ==> tenant@ == tomain_id@,
            r is Err ==> *final(self) == *old(self),
            r is Ok ==> ({
                &&& base64_decoded(wasm_base64@) matches Some(bytes) && register_effect(
                    old(self).manager,
                    final(self).manager,
                    tomain_id@,
                    env@,
                    bytes,
                )
                &&& final(self).registry.statuses@.contains_key(tomain_id@)
                &&& final(self).registry.statuses@[tomain_id@]@ == "Active"@
                &&& forall|k: Seq<char>|
                    k != tomain_id@ ==> (final(self).registry.statuses@.contains_key(k) == old(
                        self,
                    ).registry.statuses@.contains_key(k) && (old(
                        self,
                    ).registry.statuses@.contains_key(k) ==> final(self).registry.statuses@[k]
                        == old(self).registry.statuses@[k]))
                &&& final(self).egress == old(self).egress
                &&& final(self).db_registry == old(self).db_registry
                &&& final(self).resilience == old(self).resilience
                &&& final(self).perspective == old(self).perspective
                &&& final(self).audit_log == old(self).audit_log
            }),
    {
        let present = self.manager.tenants.contains_key(tomain_id);
        if self.manager.tenants.len() >= crate::tenants::MAX_TENANTS && !present {
            return Err(DeployError::Capacity);
        }
        let wasm_bytes = match base64_decode(wasm_base64) {
            Some(b) => b,
            None => {
                return Err(DeployError::BadBase64);
            },
        };
        match self.manager.register_tenant(tomain_id, env, wasm_bytes.as_slice()) {
            Ok(()) => {},
            Err(crate::tenants::TenantError::Capacity) => {
                proof {
                    assert(false);
                }
                return Err(DeployError::Capacity);
            },
            Err(crate::tenants::TenantError::Compile { tenant }) => {
                return Err(DeployError::Compile { tenant });
            },
        }
        self.registry.update_status(tomain_id, "Active");
        Ok(())
    }

    /// Retire the tenant's slot in this environment.
    pub fn retire_service(&mut self, tomain_id: &str, env: &str)
        ensures
            remove_effect(old(self).manager, final(self).manager, tomain_id@, env@),
            final(self).registry == old(self).registry,
            final(self).egress == old(self).egress,
            final(self).db_registry == old(self).db_registry,
            final(self).resilience == old(self).resilience,
            final(self).perspective == old(self).perspective,
            final(self).audit_log == old(self).audit_log,
    {
        self.manager.remove_tenant(tomain_id, env);
    }

    /// Whether a perspective switch to `target` needs a kernel fetched
    /// from the control plane: true when the target slot is empty.
    pub fn perspective_needs_fetch(&self, tomain_id: &str, target: &str) -> (r: bool)
        ensures
            r == !self.manager.has_slot(tomain_id@, env_key(target@)),
    {
        self.manager.get_tenant(tomain_id, target).is_none()
    }

    /// Point the tenant's perspective at the target environment; entering
    /// RED makes sure the tenant has an audit list.
    pub fn apply_perspective(&mut self, tomain_id: &str, target: &str)
        ensures
            final(self).perspective@.contains_key(tomain_id@),
            final(self).perspective@[tomain_id@]@ == env_key(target@),
            forall|k: Seq<char>|
                k != tomain_id@ ==> (final(self).perspective@.contains_key(k) == old(
                    self,
                ).perspective@.contains_key(k) && (old(self).perspective@.contains_key(k)
                    ==> final(self).perspective@[k] == old(self).perspective@[k])),
            env_key(target@) == audit_env() ==> ({
                &&& final(self).audit_log@.contains_key(tomain_id@)
                &&& (old(self).audit_log@.contains_key(tomain_id@) ==> final(self).audit_log@[tomain_id@] == old(self).audit_log@[tomain_id@])
                &&& (!old(self).audit_log@.contains_key(tomain_id@) ==> final(self).audit_log@[tomain_id@]@ == Seq::<String>::empty())
                &&& forall|k: Seq<char>|
                    k != tomain_id@ ==> (final(self).audit_log@.contains_key(k) == old(
                        self,
                    ).audit_log@.contains_key(k) && (old(self).audit_log@.contains_key(k)
                        ==> final(self).audit_log@[k] == old(self).audit_log@[k]))
            }),
            env_key(target@) != audit_env() ==> final(self).audit_log == old(self).audit_log,
            final(self).manager == old(self).manager,
            final(self).registry == old(self).registry,
            final(self).egress == old(self).egress,
            final(self).db_registry == old(self).db_registry,
            final(self).resilience == old(self).resilience,
    {
        let target_env = crate::textutil::to_upper_ascii(target);
        let red = ("RED").to_owned();
        let is_red = target_env == red;
        self.perspective.insert(tomain_id.to_owned(), target_env);
        if is_red {
            if !self.audit_log.contains_key(tomain_id) {
                self.audit_log.insert(tomain_id.to_owned(), Vec::new());
            }
        }
    }

    /// The instance serving the tenant under its active perspective.
    pub fn active_slot<'a>(&'a self, tomain_id: &str) -> (r: Option<
        &'a crate::tenants::TenantInstance,
    >)
        ensures
            match r {
                Some(inst) => self.manager.has_slot(
                    tomain_id@,
                    env_key(self.spec_perspective(tomain_id@)),
                ) && *inst == self.manager.slot(
                    tomain_id@,
                    env_key(self.spec_perspective(tomain_id@)),
                ),
                None => !self.manager.has_slot(
                    tomain_id@,
                    env_key(self.spec_perspective(tomain_id@)),
                ),
            },
    {
        let env = self.get_perspective(tomain_id);
        self.manager.get_tenant(tomain_id, env.as_str())
    }

    /// The security boundary: a logical (non-http) alias may only be
    /// called while a service of that name is promoted to the caller's
    /// environment.
    pub open spec fn gate_blocked(self, t: Seq<char>, a: Seq<char>) -> bool {
        !http_named(a) && !self.manager.has_slot(a, env_key(self.spec_perspective(t)))
    }

    /// The egress gate for one outbound guest call: resolve the alias and
    /// its URL, audit under RED, hold the security boundary, consume a
    /// downstream token and ask the circuit breaker.  Exactly one decision
    /// comes back; the contract pins which, stage by stage.
    pub fn egress_gate(&mut self, tomain_id: &str, alias: &str, method: &str, now_ms: u64) -> (r:
        EgressDecision)
        requires
            old(self).wf(),
        ensures
            final(self).manager == old(self).manager,
            final(self).registry == old(self).registry,
            final(self).egress == old(self).egress,
            final(self).db_registry == old(self).db_registry,
            final(self).perspective == old(self).perspective,
            final(self).resilience.security == old(self).resilience.security,
            final(self).resilience.traffic.upstream_buckets == old(
                self,
            ).resilience.traffic.upstream_buckets,
            final(self).wf(),
            ({
                let t = tomain_id@;
                let e = old(self).spec_perspective(t);
                let a = old(self).egress.spec_alias(t, alias@);
                let url = old(self).egress.spec_resolve(t, alias@, e);
                let entry = "HTTP "@ + method@ + " "@ + t + " (Alias: "@ + a + ")"@;
                &&& (r is Unresolved <==> url is None)
                &&& (r is Unresolved ==> *final(self) == *old(self))
                &&& (url is Some ==> (if e == audit_env() {
                    audit_appended(old(self).audit_log@, final(self).audit_log@, t, entry)
                } else {
                    final(self).audit_log == old(self).audit_log
                }))
                &&& (url is Some && old(self).gate_blocked(t, a) ==> (r matches
                EgressDecision::Blocked { message } && message@
                    == "Error: Security Boundary: "@ + a + " not promoted to "@ + e && final(self).resilience.traffic == old(self).resilience.traffic && final(self).resilience.fault
                    == old(self).resilience.fault))
                &&& (url is Some && !old(self).gate_blocked(t, a) ==> ({
                    let b0 = old(self).resilience.traffic.downstream_buckets.bucket_before(
                        a,
                        DEFAULT_DOWNSTREAM_RPS,
                        now_ms,
                    );
                    &&& final(self).resilience.traffic.downstream_buckets.buckets@ == old(
                        self,
                    ).resilience.traffic.downstream_buckets.buckets@.insert(
                        a,
                        b0.stepped(now_ms),
                    )
                    &&& (r is RateLimited <==> !b0.step_ok(now_ms))
                    &&& (!b0.step_ok(now_ms) ==> final(self).resilience.fault == old(
                        self,
                    ).resilience.fault)
                    &&& (b0.step_ok(now_ms) ==> ({
                        let br0 = old(self).resilience.fault.breaker_before(a);
                        &&& final(self).resilience.fault.breakers@ == old(
                            self,
                        ).resilience.fault.breakers@.insert(a, br0.spec_allow_step(now_ms))
                        &&& (r is BreakerOpen <==> !br0.spec_allow(now_ms))
                        &&& (br0.spec_allow(now_ms) ==> (r matches EgressDecision::Proceed {
                            url: u,
                            token,
                        } && Some(u@) == url && (match token {
                            Some(tok) => old(self).resilience.security.vault@.contains_key(a)
                                && tok@ == old(self).resilience.security.vault@[a]@,
                            None => !old(self).resilience.security.vault@.contains_key(a),
                        })))
                    }))
                }))
            }),
    {
        let env = self.get_perspective(tomain_id);
        let a = self.egress.resolve_alias(tomain_id, alias);
        let url = match self.egress.resolve(tomain_id, alias, env.as_str()) {
            Some(u) => u,
            None => {
                return EgressDecision::Unresolved;
            },
        };
        let red = ("RED").to_owned();
        if env == red {
            let entry = audit_http_entry(method, tomain_id, a.as_str());
            self.append_audit(tomain_id, entry);
        }
        let http_like = crate::textutil::str_starts_with(a.as_str(), "http");
        if !http_like && self.manager.get_tenant(a.as_str(), env.as_str()).is_none() {
            let message = security_boundary_msg(a.as_str(), env.as_str());
            return EgressDecision::Blocked { message };
        }
        if !self.resilience.traffic.check_downstream(a.as_str(), DEFAULT_DOWNSTREAM_RPS, now_ms) {
            return EgressDecision::RateLimited;
        }
        if !self.resilience.fault.allow(a.as_str(), now_ms) {
            return EgressDecision::BreakerOpen;
        }
        let token = self.resilience.security.get_vault_token(a.as_str());
        EgressDecision::Proceed { url, token }
    }

    /// Decide what follows the `attempts_made`-th outbound attempt, and
    /// record the result on the alias's breaker: a success closes it, a
    /// final failure counts against it, a retry touches nothing yet.  A
    /// fifth attempt never happens: after `MAX_RETRIES` retries the call
    /// gives up.
    pub fn egress_attempt_result(
        &mut self,
        alias: &str,
        outcome: &AttemptOutcome,
        attempts_made: u32,
        now_ms: u64,
    ) -> (r: RetryStep)
        requires
            1 <= attempts_made,
        ensures
            final(self).manager == old(self).manager,
            final(self).registry == old(self).registry,
            final(self).egress == old(self).egress,
            final(self).db_registry == old(self).db_registry,
            final(self).perspective == old(self).perspective,
            final(self).audit_log == old(self).audit_log,
            final(self).resilience.security == old(self).resilience.security,
            final(self).resilience.traffic == old(self).resilience.traffic,
            outcome is Success ==> r is ReturnSuccess && final(self).resilience.fault.breakers@
                == old(self).resilience.fault.breakers@.insert(
                alias@,
                old(self).resilience.fault.breaker_before(alias@).spec_succeeded(),
            ),
            outcome is ClientError ==> r is ReturnFailure && final(self).resilience.fault.breakers@
                == old(self).resilience.fault.breakers@.insert(
                alias@,
                old(self).resilience.fault.breaker_before(alias@).spec_failed(now_ms),
            ),
            (outcome is ServerError || outcome is TransportError) && attempts_made <= MAX_RETRIES
                ==> (r matches RetryStep::Backoff { delay_s } && delay_s == spec_pow2(
                (attempts_made - 1) as nat,
            )) && final(self).resilience.fault == old(self).resilience.fault,
            (outcome is ServerError || outcome is TransportError) && attempts_made > MAX_RETRIES
                ==> r is GiveUp && final(self).resilience.fault.breakers@ == old(
                self,
            ).resilience.fault.breakers@.insert(
                alias@,
                old(self).resilience.fault.breaker_before(alias@).spec_failed(now_ms),
            ),
    {
        match outcome {
            AttemptOutcome::Success => {
                self.resilience.fault.report_success(alias);
                RetryStep::ReturnSuccess
            },
            AttemptOutcome::ClientError => {
                self.resilience.fault.report_failure(alias, now_ms);
                RetryStep::ReturnFailure
            },
            AttemptOutcome::ServerError | AttemptOutcome::TransportError => {
                if attempts_made <= MAX_RETRIES {
                    let mut delay: u64 = 1;
                    let mut k: u32 = 1;
                    while k < attempts_made
                        invariant
                            1 <= k <= attempts_made,
                            attempts_made <= MAX_RETRIES,
                            delay == spec_pow2((k - 1) as nat),
                            delay <= 4,
                        decreases attempts_made - k,
                    {
                        proof {
                            assert(spec_pow2(0) == 1);
                            assert(spec_pow2(1) == 2 * spec_pow2(0));
                            assert(spec_pow2(2) == 2 * spec_pow2(1));
                        }
                        delay = delay * 2;
                        k = k + 1;
                    }
                    RetryStep::Backoff { delay_s: delay }
                } else {
                    self.resilience.fault.report_failure(alias, now_ms);
                    RetryStep::GiveUp
                }
            },
        }
    }

    /// Audit one database call: under the RED perspective an entry is
    /// appended to the tenant's list; under any other nothing changes.
    pub fn record_db_call(&mut self, tomain_id: &str, alias: &str)
        ensures
            old(self).spec_perspective(tomain_id@) == audit_env() ==> audit_appended(
                old(self).audit_log@,
                final(self).audit_log@,
                tomain_id@,
                "DB_EXECUTE "@ + tomain_id@ + " (Alias: "@ + alias@ + ")"@,
            ),
            old(self).spec_perspective(tomain_id@) != audit_env() ==> final(self).audit_log == old(
                self,
            ).audit_log,
            final(self).manager == old(self).manager,
            final(self).registry == old(self).registry,
            final(self).egress == old(self).egress,
            final(self).db_registry == old(self).db_registry,
            final(self).resilience == old(self).resilience,
            final(self).perspective == old(self).perspective,
    {
        let env = self.get_perspective(tomain_id);
        let red = ("RED").to_owned();
        if env == red {
            let entry = audit_db_entry(tomain_id, alias);
            self.append_audit(tomain_id, entry);
        }
    }

    /// Whether a health result for this slot is written back: only the
    /// slot of the tenant's active perspective is recorded.
    pub fn status_update_env(&self, tomain_id: &str, env: &str) -> (r: bool)
        ensures
            r == (env@ == self.spec_perspective(tomain_id@)),
    {
        let current = self.get_perspective(tomain_id);
        env.to_owned() == current
    }

    /// Append one entry to the tenant's audit list.
    fn append_audit(&mut self, tomain_id: &str, entry: String)
        ensures
            audit_appended(old(self).audit_log@, final(self).audit_log@, tomain_id@, entry@),
            final(self).manager == old(self).manager,
            final(self).registry == old(self).registry,
            final(self).egress == old(self).egress,
            final(self).db_registry == old(self).db_registry,
            final(self).resilience == old(self).resilience,
            final(self).perspective == old(self).perspective,
    {
        let mut entries: Vec<String> = match self.audit_log.remove(tomain_id) {
            Some(v) => v,
            None => Vec::new(),
        };
        entries.push(entry);
        self.audit_log.insert(tomain_id.to_owned(), entries);
    }
}

} // verus!
