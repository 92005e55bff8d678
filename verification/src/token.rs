//! Session tokens: HS256 JSON Web Tokens that name a user and expire fifteen
//! minutes after they are issued.

use jsonwebtoken::{DecodingKey, EncodingKey, Header, Validation};
use vstd::prelude::*;

verus! {

/// Seconds a freshly issued token stays valid.
pub const TOKEN_LIFETIME_SECS: i64 = 900;

/// Seconds of clock skew tolerated past a token's expiry.
pub const EXPIRY_LEEWAY_SECS: u64 = 60;

/// The largest Unix timestamp the `time` crate represents (9999-12-31 23:59:59 UTC).
pub const LATEST_CLOCK_READING: i64 = 253402300799;

/// The claims a session token carries: the user it names and its expiry.
#[derive(Debug, Clone, PartialEq, Eq)]
pub struct Claims {
    pub sub: i32,
    pub exp: i64,
}

/// The token `jsonwebtoken::encode` makes with the default header (HS256, typ JWT)
/// from the claims `{"sub": sub, "exp": exp}` and the secret's bytes as HMAC key.
pub uninterp spec fn spec_jwt_encode(sub: i32, exp: i64, secret: Seq<char>) -> Seq<char>;

/// What `jsonwebtoken::decode` accepts of a token signed with the secret, when the
/// expiry is not compared with the clock: `None` when the signature, the header's
/// algorithm (HS256 only), the presence of a non-negative `exp` or an `aud` claim make
/// it refuse the token; otherwise the integer values of its `sub` and `exp` claims,
/// each `None` when the claim is missing or not an integer that fits an `i64`.
pub uninterp spec fn spec_jwt_decode(token: Seq<char>, secret: Seq<char>) -> Option<(Option<i64>, Option<i64>)>;

/// Reads the clock through `time::OffsetDateTime::now_utc().unix_timestamp()`.
/// Claimed: the reading is no later than the last second of year 9999, the latest the
/// `time` crate represents without its `large-dates` feature (off in this build); the
/// crate panics on a later clock, which is not excluded. Nothing else is claimed: the
/// reading depends on the machine's clock.
#[verifier::external_body]
fn utc_now_unix() -> (now: i64)
    ensures
        now <= LATEST_CLOCK_READING,
{
    time::OffsetDateTime::now_utc().unix_timestamp()
}

/// Reads the clock through `jsonwebtoken::get_current_timestamp`, the clock that the
/// crate's own validation uses (seconds since the Unix epoch). Nothing is claimed of
/// the reading; the crate panics when the clock stands before 1970.
#[verifier::external_body]
fn jwt_clock_now() -> (now: u64) {
    jsonwebtoken::get_current_timestamp()
}

/// Calls `jsonwebtoken::encode` with `Header::default()` (HS256), the claims as the JSON
/// object `{"sub": sub, "exp": exp}` (fields in that order), and `EncodingKey::from_secret` of the
/// secret's bytes. HMAC signing of a JSON object cannot fail, so the call never errs.
/// Claimed: the token is the named encoding, and `jsonwebtoken::decode` with the same
/// secret gives the two claims back whenever `exp` is not negative (HMAC verification
/// re-signs the same message with the same key).
#[verifier::external_body]
fn jwt_encode_hs256(sub: i32, exp: i64, secret: &str) -> (token: String)
    ensures
        token@ == spec_jwt_encode(sub, exp, secret@),
        exp >= 0 ==> spec_jwt_decode(token@, secret@) == Some((Some(sub as i64), Some(exp))),
{
    let mut claims = serde_json::Map::new();
    claims.insert("sub".to_string(), serde_json::Value::from(sub));
    claims.insert("exp".to_string(), serde_json::Value::from(exp));
    let key = EncodingKey::from_secret(secret.as_bytes());
    jsonwebtoken::encode(&Header::default(), &claims, &key).unwrap_or_default()
}

/// Calls `jsonwebtoken::decode` with `DecodingKey::from_secret` of the secret's bytes and
/// `Validation::default()` whose `validate_exp` is switched off (the expiry is compared
/// with the clock by `user_from_payload`), and reads the `sub` and `exp` claims of the
/// accepted payload as integers.
/// Claimed: the result is the named decoding.
#[verifier::external_body]
fn jwt_decode_hs256(token: &str, secret: &str) -> (payload: Option<(Option<i64>, Option<i64>)>)
    ensures
        payload == spec_jwt_decode(token@, secret@),
{
    let key = DecodingKey::from_secret(secret.as_bytes());
    let mut validation = Validation::default();
    validation.validate_exp = false;
    match jsonwebtoken::decode::<serde_json::Map<String, serde_json::Value>>(token, &key, &validation) {
        Ok(data) => Some((
            data.claims.get("sub").and_then(serde_json::Value::as_i64),
            data.claims.get("exp").and_then(serde_json::Value::as_i64),
        )),
        Err(_) => None,
    }
}

/// The claims of a token issued at `now` for `user_id`.
pub open spec fn spec_claims_at(user_id: i32, now: i64) -> Claims {
    Claims { sub: user_id, exp: (now + TOKEN_LIFETIME_SECS) as i64 }
}

/// The token issued at clock reading `now` for `user_id`.
pub open spec fn spec_token_at(user_id: i32, now: i64, secret: Seq<char>) -> Seq<char> {
    spec_jwt_encode(user_id, (now + TOKEN_LIFETIME_SECS) as i64, secret)
}

/// A token expiring at `exp` is still accepted at clock reading `now`.
pub open spec fn spec_is_fresh(exp: i64, now: u64) -> bool {
    now <= exp + EXPIRY_LEEWAY_SECS
}

/// The user a decoded payload names at clock reading `now`: its `sub` when that fits
/// an `i32`, an `exp` is present and the token has not expired.
pub open spec fn spec_payload_user(payload: Option<(Option<i64>, Option<i64>)>, now: u64) -> Option<i32> {
    match payload {
        Some((Some(sub), Some(exp))) => {
            if i32::MIN <= sub <= i32::MAX && spec_is_fresh(exp, now) {
                Some(sub as i32)
            } else {
                None
            }
        },
        _ => None,
    }
}

/// The user that `token` names at clock reading `now`, if it is valid then.
pub open spec fn spec_token_user(token: Seq<char>, secret: Seq<char>, now: u64) -> Option<i32> {
    spec_payload_user(spec_jwt_decode(token, secret), now)
}

/// The claims of a token issued at clock reading `now`: it expires fifteen minutes later.
pub fn claims_at(user_id: i32, now: i64) -> (claims: Claims)
    requires
        now <= i64::MAX - TOKEN_LIFETIME_SECS,
    ensures
        claims == spec_claims_at(user_id, now),
{
    Claims { sub: user_id, exp: now + TOKEN_LIFETIME_SECS }
}

/// Issues the session token of `user_id` at clock reading `now`.
/// The token names the user from `now - 900` (so that its expiry is not negative)
/// until fifteen minutes and the leeway after `now`, and no longer.
pub fn generate_jwt_at(user_id: i32, now: i64, secret: &str) -> (token: String)
    requires
        now <= i64::MAX - TOKEN_LIFETIME_SECS,
    ensures
        token@ == spec_token_at(user_id, now, secret@),
        now >= -TOKEN_LIFETIME_SECS ==> forall|later: u64|
            #[trigger] spec_token_user(token@, secret@, later)
                == if later <= now + TOKEN_LIFETIME_SECS + EXPIRY_LEEWAY_SECS {
                    Some(user_id)
                } else {
                    None
                },
{
    let claims = claims_at(user_id, now);
    jwt_encode_hs256(claims.sub, claims.exp, secret)
}

/// Issues the session token of `user_id` now, by the machine's clock reading `now`:
/// the token names the user at every reading up to fifteen minutes and the leeway
/// after `now`, and at none later (for readings from 1969-12-31 23:45 UTC on).
pub fn generate_jwt(user_id: i32, secret: &str) -> (token: String)
    ensures
        exists|now: i64| #![trigger spec_token_at(user_id, now, secret@)]
            now <= LATEST_CLOCK_READING
            && token@ == spec_token_at(user_id, now, secret@)
            && (now >= -TOKEN_LIFETIME_SECS ==> forall|later: u64|
                #[trigger] spec_token_user(token@, secret@, later)
                    == if later <= now + TOKEN_LIFETIME_SECS + EXPIRY_LEEWAY_SECS {
                        Some(user_id)
                    } else {
                        None
                    }),
{
    let now = utc_now_unix();
    generate_jwt_at(user_id, now, secret)
}

/// The user a decoded payload names at clock reading `now`.
pub fn user_from_payload(payload: Option<(Option<i64>, Option<i64>)>, now: u64) -> (user: Option<i32>)
    ensures
        user == spec_payload_user(payload, now),
{
    match payload {
        Some((Some(sub), Some(exp))) => {
            if i32::MIN as i64 <= sub && sub <= i32::MAX as i64 && (now as i128) <= (exp as i128) + (EXPIRY_LEEWAY_SECS as i128) {
                Some(sub as i32)
            } else {
                None
            }
        },
        _ => None,
    }
}

/// The user that `token`, signed with `secret`, names at clock reading `now`.
pub fn verify_token_at(token: &str, secret: &str, now: u64) -> (user: Option<i32>)
    ensures
        user == spec_token_user(token@, secret@, now),
{
    let payload = jwt_decode_hs256(token, secret);
    user_from_payload(payload, now)
}

/// The user that `token`, signed with `secret`, names now, by the machine's clock.
pub fn verify_token(token: &str, secret: &str) -> (user: Option<i32>)
    ensures
        exists|now: u64| user == #[trigger] spec_token_user(token@, secret@, now),
{
    let now = jwt_clock_now();
    verify_token_at(token, secret, now)
}

/// Once a token is accepted, it was accepted at every earlier clock reading too, and
/// named the same user: validity only runs out, it never starts late.
pub proof fn token_validity_only_runs_out(token: Seq<char>, secret: Seq<char>, earlier: u64, later: u64)
    requires
        earlier <= later,
        spec_token_user(token, secret, later) is Some,
    ensures
        spec_token_user(token, secret, earlier) == spec_token_user(token, secret, later),
{
}

} // verus!
