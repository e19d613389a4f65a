//! Signing of authentication tokens: ES256 JSON web tokens that name the
//! signing key and carry the issuer and issue time.
use vstd::prelude::*;

use crate::error::SendError;

verus! {

/// A signing secret of biscuit.
#[verifier::external_type_specification]
#[verifier::external_body]
pub struct ExSecret(biscuit::jws::Secret);

/// The latest issue time a token can carry: the last second of year 9999.
pub const MAX_ISSUE_TIME: i64 = 253402300799;

/// The bytes parse as a PKCS#8 document holding a P-256 private key.
pub uninterp spec fn p256_pkcs8_ok(der: Seq<u8>) -> bool;

/// The JWS signing input of an ES256 token: the encoded header naming key
/// `kid`, a dot, and the encoded claims `iss` and `iat`.
pub uninterp spec fn jws_signing_input(kid: Seq<char>, iss: Seq<char>, iat: int) -> Seq<char>;

/// `t` is a compact ES256 token for `kid`, `iss` and `iat`: the signing
/// input, a dot, and a non-empty signature.
pub open spec fn signed_token_for(t: Seq<char>, kid: Seq<char>, iss: Seq<char>, iat: int) -> bool {
    let input = jws_signing_input(kid, iss, iat);
    &&& t.len() > input.len() + 1
    &&& t.subrange(0, input.len() as int) == input
    &&& t[input.len() as int] == '.'
}

/// Relies on ring's `EcdsaKeyPair::from_pkcs8` for P-256 with SHA-256, which
/// rejects key material that is not such a key, and on biscuit's
/// `Secret::EcdsaKeyPair` to hold it.
#[verifier::external_body]
fn load_key(der: &[u8]) -> (r: Option<biscuit::jws::Secret>)
    ensures
        !p256_pkcs8_ok(der@) ==> r is None,
{
    let alg = &ring::signature::ECDSA_P256_SHA256_FIXED_SIGNING;
    match ring::signature::EcdsaKeyPair::from_pkcs8(alg, der) {
        Ok(pair) => Some(biscuit::jws::Secret::EcdsaKeyPair(std::sync::Arc::new(pair))),
        Err(_) => None,
    }
}

/// Relies on biscuit's `Compact::into_encoded` with an ES256 header: signs
/// the claims `iss` and `iat` under the key id `kid`, or fails. Header and
/// claims depend on those values alone; the 64-byte signature is
/// randomised, so of it only that it is there is stated. `issued_at`
/// is bounded because biscuit's `Timestamp::from` panics out of range.
#[verifier::external_body]
fn sign_claims(key: &biscuit::jws::Secret, issuer: &str, kid: &str, issued_at: i64) -> (r: Option<String>)
    requires
        0 <= issued_at <= MAX_ISSUE_TIME,
    ensures
        r matches Some(t) ==> {
            &&& t@.len() > jws_signing_input(kid@, issuer@, issued_at as int).len() + 1
            &&& t@.subrange(0, jws_signing_input(kid@, issuer@, issued_at as int).len() as int)
                == jws_signing_input(kid@, issuer@, issued_at as int)
            &&& t@[jws_signing_input(kid@, issuer@, issued_at as int).len() as int] == '.'
        },
{
    let registered = biscuit::RegisteredClaims { issuer: Some(issuer.to_string()), issued_at: Some(issued_at.into()), ..Default::default() };
    let claims = biscuit::ClaimsSet { registered, private: biscuit::Empty {} };
    let header = biscuit::jws::RegisteredHeader { algorithm: biscuit::jwa::SignatureAlgorithm::ES256, key_id: Some(kid.to_string()), ..Default::default() };
    let jwt = biscuit::JWT::<biscuit::Empty, biscuit::Empty>::new_decoded(header.into(), claims);
    jwt.into_encoded(key).ok().map(|t| t.unwrap_encoded().to_string())
}

/// The signing key held in PKCS#8 `der`, or a configuration error where the
/// bytes are no P-256 key.
pub fn signing_key(der: &[u8]) -> (r: Result<biscuit::jws::Secret, SendError>)
    ensures
        r matches Err(e) ==> e is Configuration,
        !p256_pkcs8_ok(der@) ==> (r matches Err(e) && e is Configuration),
{
    match load_key(der) {
        Some(key) => Ok(key),
        None => Err(SendError::Configuration),
    }
}

/// A token signed with `key` for `issuer` under key id `kid`, issued at
/// `issued_at`. An issue time outside the epoch up to [`MAX_ISSUE_TIME`] is
/// a clock error; a failure of the signer is a configuration error.
pub fn sign_token(key: &biscuit::jws::Secret, issuer: &str, kid: &str, issued_at: i64) -> (r: Result<String, SendError>)
    ensures
        !(0 <= issued_at <= MAX_ISSUE_TIME) ==> (r matches Err(e) && e is Clock),
        r matches Err(e) ==> (e is Clock || e is Configuration),
        r matches Err(e) && e is Clock ==> !(0 <= issued_at <= MAX_ISSUE_TIME),
        r matches Ok(t) ==> signed_token_for(t@, kid@, issuer@, issued_at as int),
{
    if issued_at < 0 || issued_at > MAX_ISSUE_TIME {
        return Err(SendError::Clock);
    }
    match sign_claims(key, issuer, kid, issued_at) {
        Some(token) => Ok(token),
        None => Err(SendError::Configuration),
    }
}

} // verus!
