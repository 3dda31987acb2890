//! The security store: public keys for upstream signature validation and
//! vault tokens for downstream credential injection.
//!
//! A tenant with a registered RSA public key must present a bearer token
//! that validates as an RS256 signature over `{sub, exp}` claims; tenants
//! without a key are unauthenticated.  Vault tokens are looked up by alias
//! and injected into outbound calls.

use vstd::prelude::*;
use crate::smap::StrMap;

verus! {

/// The claims carried by an upstream token.
pub struct Claims {
    pub sub: String,
    pub exp: usize,
}

#[verifier::external_type_specification]
#[verifier::external_body]
pub struct ExDecodingKey(jsonwebtoken::DecodingKey);

#[verifier::external_type_specification]
#[verifier::external_body]
pub struct ExValidation(jsonwebtoken::Validation);

/// Relies on jsonwebtoken::DecodingKey::from_rsa_pem to parse an RSA
/// public key in PEM form; None when the PEM is rejected.
#[verifier::external_body]
fn rsa_decoding_key(pem: &str) -> (r: Option<jsonwebtoken::DecodingKey>) {
    jsonwebtoken::DecodingKey::from_rsa_pem(pem.as_bytes()).ok()
}

/// Relies on jsonwebtoken::Validation::new for the default validation of
/// RS256 signatures, which checks `exp` against the clock.
#[verifier::external_body]
fn rs256_validation() -> jsonwebtoken::Validation {
    jsonwebtoken::Validation::new(jsonwebtoken::Algorithm::RS256)
}

/// Relies on jsonwebtoken::decode to verify the token's signature against
/// the key and its claims against the validation; the outcome depends on
/// the clock, so nothing more is claimed of it.
#[verifier::external_body]
fn jwt_decode_ok(
    token: &str,
    key: &jsonwebtoken::DecodingKey,
    validation: &jsonwebtoken::Validation,
) -> (r: bool) {
    jsonwebtoken::decode::<serde_json::Value>(token, key, validation).is_ok()
}

/// Why an upstream token was rejected.
pub enum AuthError {
    /// No public key is registered for the tenant.
    NoKey,
    /// The key or the token was rejected by signature validation.
    BadToken,
}

/// Public keys and vault tokens.
pub struct SecurityManager {
    /// tenant id -> public key PEM.
    pub public_keys: StrMap<String>,
    /// alias -> bearer token.
    pub vault: StrMap<String>,
}

impl SecurityManager {
    /// Empty stores.
    pub fn new() -> (r: Self)
        ensures
            r.public_keys@ == Map::<Seq<char>, String>::empty(),
            r.vault@ == Map::<Seq<char>, String>::empty(),
    {
        SecurityManager { public_keys: StrMap::new(), vault: StrMap::new() }
    }

    /// Validate an upstream bearer token for a tenant.  Fails with
    /// `NoKey` exactly when no public key is registered; otherwise the
    /// registered key decides through RS256 signature validation.
    pub fn validate_jwt(&self, tomain_id: &str, token: &str) -> (r: Result<(), AuthError>)
        ensures
            r matches Err(AuthError::NoKey) <==> !self.public_keys@.contains_key(tomain_id@),
            r is Ok ==> self.public_keys@.contains_key(tomain_id@),
    {
        let pem = match self.public_keys.get(tomain_id) {
            Some(p) => p,
            None => {
                return Err(AuthError::NoKey);
            },
        };
        let key = match rsa_decoding_key(pem.as_str()) {
            Some(k) => k,
            None => {
                return Err(AuthError::BadToken);
            },
        };
        let validation = rs256_validation();
        if jwt_decode_ok(token, &key, &validation) {
            Ok(())
        } else {
            Err(AuthError::BadToken)
        }
    }

    /// The vault token registered for an alias, if any.
    pub fn get_vault_token(&self, alias: &str) -> (r: Option<String>)
        ensures
            match r {
                Some(t) => self.vault@.contains_key(alias@) && t@ == self.vault@[alias@]@,
                None => !self.vault@.contains_key(alias@),
            },
    {
        match self.vault.get(alias) {
            Some(t) => Some(t.clone()),
            None => None,
        }
    }
}

} // verus!
