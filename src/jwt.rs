//! Signed, time-bounded claims: minting at login, verifying on each
//! protected request, and reading the bearer token from its header.
use vstd::prelude::*;
use crate::error::AppError;
use crate::text::{str_equal, uuid_string, uuid_text};

verus! {

/// How long a token stays valid after it is issued: 24 hours, in seconds.
pub const TOKEN_LIFETIME_SECS: u64 = 86400;

/// The payload of a token. Instants are seconds since the Unix epoch.
#[derive(Debug, Clone)]
pub struct Claims {
    /// The account id.
    pub sub: String,
    pub email: String,
    pub role: String,
    pub exp: u64,
    pub iat: u64,
}

#[verifier::external_type_specification]
#[verifier::external_body]
pub struct ExJwtError(jsonwebtoken::errors::Error);

/// Relies on chrono's `Utc::now().timestamp()`: the seconds since the Unix
/// epoch, taken from the system clock (`Utc::now` refuses a clock before 1970).
#[verifier::external_body]
fn unix_now() -> (r: i64)
    ensures
        r >= 0,
{
    chrono::Utc::now().timestamp()
}

/// The HS256 token that jsonwebtoken signs for these claim values and secret.
pub uninterp spec fn signed_token(
    sub: Seq<char>,
    email: Seq<char>,
    role: Seq<char>,
    exp: u64,
    iat: u64,
    secret: Seq<char>,
) -> Seq<char>;

/// Relies on jsonwebtoken's `encode` with the default HS256 header: the claims
/// go in as a JSON object of their five fields, signed with the secret's bytes.
/// The token depends on those values alone; with an HMAC key and the HS256
/// header encoding cannot fail, and decoding the token with the same secret
/// gives the five values back.
#[verifier::external_body]
fn encode_claims(claims: &Claims, secret: &str) -> (r: Result<String, jsonwebtoken::errors::Error>)
    ensures
        r is Ok,
        r matches Ok(t) ==> token_claims(t@, secret@) == Some(claim_values(*claims)),
        r matches Ok(t) ==> t@ == signed_token(
            claims.sub@,
            claims.email@,
            claims.role@,
            claims.exp,
            claims.iat,
            secret@,
        ),
{
    let mut payload = serde_json::Map::new();
    payload.insert("sub".to_string(), claims.sub.clone().into());
    payload.insert("email".to_string(), claims.email.clone().into());
    payload.insert("role".to_string(), claims.role.clone().into());
    payload.insert("exp".to_string(), claims.exp.into());
    payload.insert("iat".to_string(), claims.iat.into());
    let key = jsonwebtoken::EncodingKey::from_secret(secret.as_bytes());
    jsonwebtoken::encode(&jsonwebtoken::Header::default(), &serde_json::Value::Object(payload), &key)
}

/// The five claim values of a token, as a tuple of plain values.
pub open spec fn claim_values(c: Claims) -> (Seq<char>, Seq<char>, Seq<char>, u64, u64) {
    (c.sub@, c.email@, c.role@, c.exp, c.iat)
}

/// What jsonwebtoken reads from a token under a secret: the five claims of a
/// well-formed HS256 token whose signature matches, none otherwise.
pub uninterp spec fn token_claims(token: Seq<char>, secret: Seq<char>) -> Option<
    (Seq<char>, Seq<char>, Seq<char>, u64, u64),
>;

/// Relies on jsonwebtoken's `decode` with HS256 and expiry not judged: the
/// payload of a well-formed token whose signature matches the secret, read as
/// a JSON object with text `sub`, `email`, `role` and numeric `exp`, `iat`.
#[verifier::external_body]
fn decode_claims(token: &str, secret: &str) -> (r: Option<Claims>)
    ensures
        match r {
            Some(c) => token_claims(token@, secret@) == Some(claim_values(c)),
            None => token_claims(token@, secret@) is None,
        },
{
    let key = jsonwebtoken::DecodingKey::from_secret(secret.as_bytes());
    let mut validation = jsonwebtoken::Validation::new(jsonwebtoken::Algorithm::HS256);
    validation.validate_exp = false;
    let v = jsonwebtoken::decode::<serde_json::Value>(token, &key, &validation).ok()?.claims;
    let text = |k: &str| v.get(k).and_then(|x| x.as_str()).map(String::from);
    let num = |k: &str| v.get(k).and_then(|x| x.as_u64());
    Some(Claims { sub: text("sub")?, email: text("email")?, role: text("role")?, exp: num("exp")?, iat: num("iat")? })
}

pub open spec fn unexpired(c: Claims, now: u64) -> bool {
    now <= c.exp
}

/// What verification accepts, given the claims read from a token whose
/// signature checked out (none when it did not): claims not yet strictly
/// past their expiry.
pub open spec fn accepted_claims(decoded: Option<Claims>, now: u64) -> Option<Claims> {
    match decoded {
        Some(c) => if unexpired(c, now) {
            Some(c)
        } else {
            None
        },
        None => None,
    }
}

impl Claims {
    /// Claims for an account, issued at `now` and valid for 24 hours.
    pub fn issued_at(user_id: u128, email: String, role: String, now: u64) -> (r: Claims)
        requires
            now <= u64::MAX - TOKEN_LIFETIME_SECS,
        ensures
            r.sub@ == uuid_text(user_id),
            r.email == email,
            r.role == role,
            r.iat == now,
            r.exp == now + TOKEN_LIFETIME_SECS,
    {
        Claims { sub: uuid_string(user_id), email, role, exp: now + TOKEN_LIFETIME_SECS, iat: now }
    }

    /// Claims for an account, issued now and valid for 24 hours.
    pub fn new(user_id: u128, email: String, role: String) -> (r: Claims)
        ensures
            r.sub@ == uuid_text(user_id),
            r.email == email,
            r.role == role,
            r.exp == r.iat + TOKEN_LIFETIME_SECS,
    {
        let now = unix_now() as u64;
        Claims::issued_at(user_id, email, role, now)
    }
}

/// Signs the claims with the secret.
pub fn create_jwt(claims: &Claims, secret: &str) -> (r: Result<String, AppError>)
    ensures
        r matches Ok(t) ==> t@ == signed_token(
            claims.sub@,
            claims.email@,
            claims.role@,
            claims.exp,
            claims.iat,
            secret@,
        ),
        r is Ok,
        r matches Ok(t) ==> token_claims(t@, secret@) == Some(claim_values(*claims)),
{
    match encode_claims(claims, secret) {
        Ok(t) => Ok(t),
        Err(_) => Err(AppError::InternalServerError(String::from_str("Failed to create JWT"))),
    }
}

/// Judges decoded claims at time `now`. Every refusal reads the same, so a
/// client cannot tell a bad signature from an expired token.
pub fn verify_jwt_at(decoded: Option<Claims>, now: u64) -> (r: Result<Claims, AppError>)
    ensures
        r is Ok <==> accepted_claims(decoded, now) is Some,
        r matches Ok(c) ==> accepted_claims(decoded, now) == Some(c),
        r matches Err(e) ==> e is Unauthorized && e->Unauthorized_0@ == "Invalid token"@,
{
    match decoded {
        Some(c) => {
            if now <= c.exp {
                Ok(c)
            } else {
                Err(AppError::Unauthorized(String::from_str("Invalid token")))
            }
        },
        None => Err(AppError::Unauthorized(String::from_str("Invalid token"))),
    }
}

/// What verification at time `now` accepts: the claims of a token signed
/// with the secret, unless they are strictly past their expiry.
pub open spec fn accepted_token(token: Seq<char>, secret: Seq<char>, now: u64) -> Option<
    (Seq<char>, Seq<char>, Seq<char>, u64, u64),
> {
    match token_claims(token, secret) {
        Some(c) => if now <= c.3 {
            Some(c)
        } else {
            None
        },
        None => None,
    }
}

/// Checks a token's signature against the secret and its expiry against `now`.
pub fn verify_token_at(token: &str, secret: &str, now: u64) -> (r: Result<Claims, AppError>)
    ensures
        r is Ok <==> accepted_token(token@, secret@, now) is Some,
        r matches Ok(c) ==> accepted_token(token@, secret@, now) == Some(claim_values(c)),
        r matches Err(e) ==> e is Unauthorized && e->Unauthorized_0@ == "Invalid token"@,
{
    verify_jwt_at(decode_claims(token, secret), now)
}

/// Checks a token's signature against the secret and its expiry against the
/// current time.
pub fn verify_jwt(token: &str, secret: &str) -> (r: Result<Claims, AppError>)
    ensures
        token_claims(token@, secret@) is None ==> r is Err,
        r matches Ok(c) ==> token_claims(token@, secret@) == Some(claim_values(c)),
        r matches Err(e) ==> e is Unauthorized && e->Unauthorized_0@ == "Invalid token"@,
{
    let now = unix_now() as u64;
    verify_token_at(token, secret, now)
}

/// A token minted for some claims and checked with the same secret gives
/// those claims back, as long as it is not past their expiry; after it, it
/// is refused.
pub proof fn lemma_token_round_trip(c: Claims, token: Seq<char>, secret: Seq<char>, now: u64)
    requires
        token_claims(token, secret) == Some(claim_values(c)),
    ensures
        now <= c.exp ==> accepted_token(token, secret, now) == Some(claim_values(c)),
        c.exp < now ==> accepted_token(token, secret, now) is None,
{
}

/// Claims that are past their expiry are refused whatever their signature;
/// claims at or before it are accepted as they are.
pub proof fn lemma_expiry_is_strict(c: Claims, now: u64)
    ensures
        c.exp < now ==> accepted_claims(Some(c), now) is None,
        now <= c.exp ==> accepted_claims(Some(c), now) == Some(c),
        accepted_claims(None, now) is None,
{
}

pub open spec fn bearer_prefix() -> Seq<char> {
    "Bearer "@
}

/// The token of an `Authorization` header of the form `Bearer <token>`.
pub fn extract_token_from_header(auth_header: Option<&str>) -> (r: Result<String, AppError>)
    ensures
        auth_header is None ==> (r matches Err(e) && e is Unauthorized && e->Unauthorized_0@
            == "Missing authorization header"@),
        auth_header matches Some(h) ==> (h@.len() >= 7 && h@.subrange(0, 7) == bearer_prefix()
            <==> r is Ok),
        auth_header matches Some(h) ==> (r is Ok ==> r->Ok_0@ == h@.subrange(7, h@.len() as int)),
        auth_header is Some && r is Err ==> (r matches Err(e) && e is Unauthorized
            && e->Unauthorized_0@ == "Invalid authorization header format"@),
{
    match auth_header {
        None => Err(AppError::Unauthorized(String::from_str("Missing authorization header"))),
        Some(h) => {
            let n = h.unicode_len();
            proof {
                reveal_strlit("Bearer ");
            }
            if n >= 7 && str_equal(h.substring_char(0, 7), "Bearer ") {
                Ok(String::from_str(h.substring_char(7, n)))
            } else {
                Err(AppError::Unauthorized(String::from_str("Invalid authorization header format")))
            }
        },
    }
}

} // verus!
