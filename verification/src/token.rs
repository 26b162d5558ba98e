//! Stateless session tokens: minting a signed credential bound to a user
//! identity and verifying a presented credential's integrity.
//!
//! A token binds a claim set to a keyed signature so that any alteration of
//! the string invalidates it. The shared signing key is configuration fixed
//! at startup and injected into [`TokenService::new`]; the same key must be
//! used to verify a token as was used to sign it.

use vstd::prelude::*;

verus! {

/// The token string the signing primitive produces for the one-claim set
/// `{name: value}` under `key` (HMAC-SHA256 over the canonical encoding).
/// Signing is deterministic: a function of the key and the claims alone.
pub uninterp spec fn token_of(key: Seq<u8>, name: Seq<char>, value: Seq<char>) -> Seq<char>;

/// The value of claim `name` that signature verification under `key`
/// recovers from `token`; `None` when the token is malformed, its signature
/// does not match the key, or the claim is absent. Deterministic: a function
/// of the key, the token, and the claim name alone.
pub uninterp spec fn claim_of(key: Seq<u8>, token: Seq<char>, name: Seq<char>) -> Option<
    Seq<char>,
>;

/// Relies on jwt's `SignWithKey` for a claim map under `Hmac<Sha256>`:
/// signing is deterministic in (key, claims); the claims are embedded in the
/// token (base64 of their encoding), so the same token string never arises
/// from a different claim value; and verifying a token under the key that
/// signed it recovers exactly the claims that were signed.
#[verifier::external_body]
fn sign_claim(key: &Vec<u8>, name: &str, value: &str) -> (t: String)
    ensures
        t@ == token_of(key@, name@, value@),
        claim_of(key@, t@, name@) == Some(value@),
        forall|v: Seq<char>| token_of(key@, name@, v) == t@ ==> v == value@,
{
    let k: hmac::Hmac<sha2::Sha256> =
        <hmac::Hmac<sha2::Sha256> as hmac::Mac>::new_from_slice(key.as_slice()).unwrap();
    let mut claims: std::collections::BTreeMap<&str, &str> = std::collections::BTreeMap::new();
    claims.insert(name, value);
    jwt::SignWithKey::sign_with_key(claims, &k).unwrap()
}

/// Relies on jwt's `VerifyWithKey` for a claim map under `Hmac<Sha256>`:
/// verification is deterministic in (key, token); it yields the embedded
/// claims exactly when the token parses and its signature matches the key,
/// and an error otherwise.
#[verifier::external_body]
fn read_claim(key: &Vec<u8>, token: &str, name: &str) -> (r: Option<String>)
    ensures
        r is Some <==> claim_of(key@, token@, name@) is Some,
        r is Some ==> Some(r->Some_0@) == claim_of(key@, token@, name@),
{
    let k: hmac::Hmac<sha2::Sha256> =
        match <hmac::Hmac<sha2::Sha256> as hmac::Mac>::new_from_slice(key.as_slice()) {
            Ok(k) => k,
            Err(_) => return None,
        };
    let claims: std::collections::BTreeMap<String, String> =
        match jwt::VerifyWithKey::verify_with_key(token, &k) {
            Ok(c) => c,
            Err(_) => return None,
        };
    claims.get(name).cloned()
}

/// The uniform failure for any malformed, forged, or subject-less
/// credential; verification never says which of those it was.
#[derive(Clone, Copy, PartialEq, Eq, Structural, Debug)]
pub enum TokenError {
    InvalidToken,
}

/// The claim name under which the user identity is stored.
pub open spec fn subject_claim() -> Seq<char> {
    "sub"@
}

/// The outcome verification owes for `token` under `key`: the subject claim
/// recovered under an intact signature, provided it is non-empty; nothing
/// otherwise.
pub open spec fn verify_model(key: Seq<u8>, token: Seq<char>) -> Option<Seq<char>> {
    match claim_of(key, token, subject_claim()) {
        Some(s) => if s.len() > 0 {
            Some(s)
        } else {
            None
        },
        None => None,
    }
}

/// Mints and checks signed session credentials under one shared key.
///
/// The key is read-only after construction, and issuance and verification
/// are pure functions of (input, key), so a service value may be used from
/// any number of request handlers without coordination.
pub struct TokenService {
    key: Vec<u8>,
}

impl TokenService {
    /// The shared signing key this service was configured with.
    pub closed spec fn key(&self) -> Seq<u8> {
        self.key@
    }

    /// Configure the service with the shared signing key.
    pub fn new(key: Vec<u8>) -> (s: TokenService)
        ensures
            s.key() == key@,
    {
        TokenService { key }
    }

    /// Mint a signed credential bound to `subject`, an identity the caller
    /// has already authenticated.
    ///
    /// The second clause is the round trip: verifying the returned token
    /// under the same key yields exactly `subject`. The third is
    /// distinctness: no other subject's token equals this string.
    pub fn issue(&self, subject: &str) -> (t: String)
        requires
            subject@.len() > 0,
        ensures
            t@ == token_of(self.key(), subject_claim(), subject@),
            verify_model(self.key(), t@) == Some(subject@),
            forall|v: Seq<char>|
                v != subject@ ==> token_of(self.key(), subject_claim(), v) != t@,
    {
        sign_claim(&self.key, "sub", subject)
    }

    /// Check a presented credential: returns the authenticated subject
    /// exactly when the signature is intact under this service's key and the
    /// subject claim is present and non-empty; every other case collapses to
    /// the uniform [`TokenError::InvalidToken`].
    pub fn verify(&self, token: &str) -> (r: Result<String, TokenError>)
        ensures
            r is Ok <==> verify_model(self.key(), token@) is Some,
            r is Ok ==> Some(r->Ok_0@) == verify_model(self.key(), token@),
            r is Err ==> r->Err_0 == TokenError::InvalidToken,
    {
        match read_claim(&self.key, token, "sub") {
            Some(s) => {
                if s.as_str().unicode_len() > 0 {
                    Ok(s)
                } else {
                    Err(TokenError::InvalidToken)
                }
            },
            None => Err(TokenError::InvalidToken),
        }
    }
}

} // verus!
