//! The bearer-credential codec: issues and verifies a signed, time-bounded
//! token carrying an internal user id. Stateless: verification needs only
//! the token, the secret and the clock, never a store lookup.
//!
//! The HS256 signing and validation themselves are the `jsonwebtoken`
//! crate's work, behind trusted wrappers; everything around them —
//! expiry arithmetic, subject rendering, error mapping — is verified.

use vstd::prelude::*;

use crate::clock::current_timestamp;
use crate::errors::AuthError;
use crate::models::Claims;
use crate::strutil::{dec_of, u64_to_dec};

verus! {

/// How long an issued bearer credential stays valid, in seconds.
pub const TOKEN_TTL_SECONDS: u64 = 86400;

/// The compact serialized token that HS256 signing of the claims
/// `{sub, exp}` under `secret` produces. A pure function of its
/// arguments: the encoder draws on nothing else.
pub uninterp spec fn hs256_token_of(sub: Seq<char>, exp: u64, secret: Seq<char>) -> Seq<char>;

/// Whether `token` carries a signature that verifies under `secret` with
/// HS256 — what the decoder's signature comparison computes. A pure
/// function of the token text and the secret.
pub uninterp spec fn hs256_sig_valid(token: Seq<char>, secret: Seq<char>) -> bool;

/// The subject and expiry claims written in `token`'s payload — what the
/// decoder's claims deserialization reads. A pure function of the token
/// text alone; the secret plays no part in it.
pub uninterp spec fn hs256_claims_of(token: Seq<char>) -> (Seq<char>, u64);

/// Relies on `jsonwebtoken::encode`: with the HS256 algorithm the token is
/// a deterministic function of the claims and the secret, signing a
/// two-field claims object over an in-memory buffer cannot fail, the
/// freshly signed token verifies under the secret it was signed with, and
/// its payload reads back as the claims it was encoded from.
#[verifier::external_body]
fn hs256_encode(sub: &str, exp: u64, secret: &str) -> (r: Result<String, ()>)
    ensures
        r is Ok,
        r matches Ok(t) ==> t@ == hs256_token_of(sub@, exp, secret@),
        r matches Ok(t) ==> hs256_sig_valid(t@, secret@),
        r matches Ok(t) ==> hs256_claims_of(t@) == (sub@, exp),
{
    let mut claims = serde_json::Map::new();
    claims.insert("sub".to_string(), serde_json::Value::String(sub.to_string()));
    claims.insert("exp".to_string(), serde_json::Value::from(exp));
    let key = jsonwebtoken::EncodingKey::from_secret(secret.as_bytes());
    let header = jsonwebtoken::Header::new(jsonwebtoken::Algorithm::HS256);
    jsonwebtoken::encode(&header, &serde_json::Value::Object(claims), &key).map_err(|_| ())
}

/// Relies on `jsonwebtoken::decode` with `Validation::new(HS256)`: a token
/// is accepted only if its signature matches the secret and its expiry is
/// within the validator's clock, and the claims of an accepted token are
/// read back from the very payload the encoder wrote — so an accepted
/// token that the encoder produced yields the claims it was encoded from,
/// and every accepted token yields exactly the claims its payload spells.
/// A token whose signature does not verify under the secret — another
/// secret, another algorithm, a tampered part — is always rejected.
/// Whether a validly signed token is accepted depends on the wall clock,
/// so nothing is assumed about when `Ok` comes.
#[verifier::external_body]
fn hs256_decode(token: &str, secret: &str) -> (r: Result<(String, u64), ()>)
    ensures
        r is Ok ==> hs256_sig_valid(token@, secret@),
        r matches Ok(c) ==> c.0@ == hs256_claims_of(token@).0 && c.1 == hs256_claims_of(
            token@,
        ).1,
        forall|sub: Seq<char>, exp: u64|
            r matches Ok(c) ==> token@ == #[trigger] hs256_token_of(sub, exp, secret@) ==> c.0@ == sub
                && c.1 == exp,
{
    let key = jsonwebtoken::DecodingKey::from_secret(secret.as_bytes());
    let validation = jsonwebtoken::Validation::new(jsonwebtoken::Algorithm::HS256);
    let data = jsonwebtoken::decode::<serde_json::Value>(token, &key, &validation).map_err(|_| ())?;
    let sub = data.claims.get("sub").and_then(|v| v.as_str()).ok_or(())?;
    let exp = data.claims.get("exp").and_then(|v| v.as_u64()).ok_or(())?;
    Ok((sub.to_string(), exp))
}

/// Issues the bearer credential for `user_id` as of the instant `now`:
/// the token signs `{sub: decimal form of user_id, exp: now + 24h}`.
/// Deterministic given user id, instant and secret.
pub fn issue_at(user_id: u64, now: u64, secret: &str) -> (r: String)
    requires
        now + TOKEN_TTL_SECONDS <= u64::MAX,
    ensures
        r@ == hs256_token_of(dec_of(user_id as nat), (now + TOKEN_TTL_SECONDS) as u64, secret@),
        hs256_sig_valid(r@, secret@),
        hs256_claims_of(r@) == (dec_of(user_id as nat), (now + TOKEN_TTL_SECONDS) as u64),
{
    let sub = u64_to_dec(user_id);
    match hs256_encode(sub.as_str(), now + TOKEN_TTL_SECONDS, secret) {
        Ok(t) => t,
        Err(_) => {
            proof {
                assert(false);
            }
            String::new()
        },
    }
}

/// Issues a bearer credential for `user_id` as of the clock's present
/// instant. Fails only if the clock is within a day of the counter's end.
pub fn create_jwt(user_id: u64, secret: &str) -> (r: Result<String, AuthError>)
    ensures
        r matches Ok(t) ==> exists|exp: u64|
            t@ == #[trigger] hs256_token_of(dec_of(user_id as nat), exp, secret@),
        r matches Ok(t) ==> hs256_sig_valid(t@, secret@),
        r matches Ok(t) ==> hs256_claims_of(t@).0 == dec_of(user_id as nat),
        r matches Err(e) ==> e == AuthError::TokenIssueError,
{
    let now = current_timestamp();
    if now > u64::MAX - TOKEN_TTL_SECONDS {
        return Err(AuthError::TokenIssueError);
    }
    let token = issue_at(user_id, now, secret);
    proof {
        let exp = (now + TOKEN_TTL_SECONDS) as u64;
        assert(token@ == hs256_token_of(dec_of(user_id as nat), exp, secret@));
    }
    Ok(token)
}

/// Validates a bearer credential: signature under `secret` and unexpired
/// claims, the codec's concern alone. Acceptance entails a valid
/// signature — a token signed otherwise is rejected — and every accepted
/// token, whoever issued it, returns exactly the claims its payload
/// spells; for one this codec issued those are the claims it was issued
/// with. Every rejection is the single kind `InvalidTokenError`.
pub fn verify_jwt(token: &str, secret: &str) -> (r: Result<Claims, AuthError>)
    ensures
        r matches Err(e) ==> e == AuthError::InvalidTokenError,
        r is Ok ==> hs256_sig_valid(token@, secret@),
        r matches Ok(c) ==> c.sub@ == hs256_claims_of(token@).0 && c.exp == hs256_claims_of(
            token@,
        ).1,
        forall|sub: Seq<char>, exp: u64|
            r matches Ok(c) ==> token@ == #[trigger] hs256_token_of(sub, exp, secret@) ==> c.sub@ == sub
                && c.exp == exp,
{
    match hs256_decode(token, secret) {
        Ok((sub, exp)) => Ok(Claims { sub, exp }),
        Err(_) => Err(AuthError::InvalidTokenError),
    }
}

} // verus!
