use vstd::prelude::*;

use jsonwebtoken::errors::Error as TokenError;
use jsonwebtoken::{DecodingKey, EncodingKey, Header, Validation};

use crate::clock::unix_time_secs;
use crate::ports::{Claims, ClaimsView, TokenGenerator};

verus! {

#[verifier::external_type_specification]
#[verifier::external_body]
pub struct ExTokenError(TokenError);

/// The HS256 token that `jsonwebtoken::encode` makes of the claims
/// `{exp, iat, sub}` with the default header and the given secret.
pub uninterp spec fn jwt_token(exp: u64, iat: u64, sub: Seq<char>, secret: Seq<char>) -> Seq<char>;

/// The claims `{exp, iat, sub}` that `jsonwebtoken::decode` reads from a token
/// signed with the given secret, without checking expiry; `None` when the
/// signature, the format or a claim is wrong.
pub uninterp spec fn jwt_claims(token: Seq<char>, secret: Seq<char>) -> Option<(u64, u64, Seq<char>)>;

/// The key that signs and checks tokens.
pub const SECRET: &'static str = "secret";

/// Seconds for which a token is valid after it is issued.
pub const EXPIRATION: u64 = 24 * 60 * 60;

/// Relies on `jsonwebtoken::encode` with `Header::default()` (HS256) and
/// `EncodingKey::from_secret`, on the claims as a JSON object. With an HMAC
/// key and a string-keyed object it does not fail.
#[verifier::external_body]
fn encode_token(exp: u64, iat: u64, sub: &str, secret: &str) -> (r: Result<String, TokenError>)
    ensures
        r is Ok,
        r is Ok ==> r->Ok_0@ == jwt_token(exp, iat, sub@, secret@),
{
    let mut claims = serde_json::Map::new();
    claims.insert("exp".to_string(), exp.into());
    claims.insert("iat".to_string(), iat.into());
    claims.insert("sub".to_string(), sub.into());
    jsonwebtoken::encode(&Header::default(), &claims, &EncodingKey::from_secret(secret.as_bytes()))
}

/// Relies on `jsonwebtoken::decode` with `DecodingKey::from_secret` and the
/// default validation without its expiry check, read as a JSON object. The
/// validation reads the system clock and panics where it is before the Unix
/// epoch; no input decides that.
#[verifier::external_body]
fn decode_token(token: &str, secret: &str) -> (r: Option<(u64, u64, String)>)
    ensures
        r is Some <==> jwt_claims(token@, secret@) is Some,
        r is Some ==> jwt_claims(token@, secret@) == Some(
            (r->Some_0.0, r->Some_0.1, r->Some_0.2@),
        ),
{
    let mut validation = Validation::default();
    validation.validate_exp = false;
    let key = DecodingKey::from_secret(secret.as_bytes());
    let c = jsonwebtoken::decode::<serde_json::Map<String, serde_json::Value>>(token, &key, &validation).ok()?.claims;
    let exp = c.get("exp")?.as_u64()?;
    let iat = c.get("iat")?.as_u64()?;
    let sub = c.get("sub")?.as_str()?;
    Some((exp, iat, sub.to_string()))
}

/// Signed JSON web tokens.
#[derive(Clone, Copy, Debug)]
pub struct Jwt;

#[derive(Clone, Copy, Debug, PartialEq, Eq, Structural)]
pub enum JwtError {
    /// Signing or reading the token failed.
    TokenError,
    /// The system clock is before the Unix epoch.
    TimeError,
}

impl Jwt {
    /// The token for `claims`.
    pub fn encode_claims(claims: &Claims) -> (r: Result<String, JwtError>)
        ensures
            r is Ok,
            r->Ok_0@ == jwt_token(claims@.exp, claims@.iat, claims@.sub, SECRET@),
    {
        match encode_token(claims.exp(), claims.iat(), claims.sub(), SECRET) {
            Ok(t) => Ok(t),
            Err(_) => Err(JwtError::TokenError),
        }
    }

    /// The claims that `token` carries.
    pub fn decode_claims(token: &str) -> (r: Result<Claims, JwtError>)
        ensures
            r is Ok <==> jwt_claims(token@, SECRET@) is Some,
            r is Err ==> r == Err::<Claims, JwtError>(JwtError::TokenError),
            r is Ok ==> jwt_claims(token@, SECRET@) == Some(
                (r->Ok_0@.exp, r->Ok_0@.iat, r->Ok_0@.sub),
            ),
    {
        match decode_token(token, SECRET) {
            Some((exp, iat, sub)) => Ok(Claims::new(exp, iat, sub)),
            None => Err(JwtError::TokenError),
        }
    }

    /// The claims of a token issued now for `id`: valid for `EXPIRATION`
    /// seconds from `now`.
    pub fn claims_for(id: String, now: u64) -> (r: Claims)
        ensures
            r@ == (ClaimsView { exp: EXPIRATION, iat: now, sub: id@ }),
    {
        Claims::new(EXPIRATION, now, id)
    }
}

impl TokenGenerator for Jwt {
    type Error = JwtError;

    open spec fn issued(id: Seq<char>, token: Seq<char>) -> bool {
        exists|now: u64| token == jwt_token(EXPIRATION, now, id, SECRET@)
    }

    open spec fn claims_of(token: Seq<char>) -> Option<ClaimsView> {
        match jwt_claims(token, SECRET@) {
            Some((exp, iat, sub)) => Some(ClaimsView { exp, iat, sub }),
            None => None,
        }
    }

    /// Issuing reads the system clock, which may be before the Unix epoch.
    open spec fn always_issues() -> bool {
        false
    }

    fn generate(id: String) -> (r: Result<String, JwtError>) {
        let now = match unix_time_secs() {
            Ok(n) => n,
            Err(_) => return Err(JwtError::TimeError),
        };
        Jwt::encode_claims(&Jwt::claims_for(id, now))
    }

    fn get_claims(token: String) -> (r: Result<Claims, JwtError>) {
        Jwt::decode_claims(token.as_str())
    }
}

} // verus!
