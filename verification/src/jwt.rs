//! Bearer tokens and password hashes.
//!
//! A token is a JSON Web Token, signed with HMAC-SHA-256 under the secret of
//! the service. It names the user it was issued to, says when it was issued
//! and when it expires, and whether it grants access or only serves to get a
//! new access token.

use vstd::prelude::*;
use crate::ids::Id;
use crate::text::owned;
use crate::time::{Timestamp, LATEST_MICROS};

verus! {

/// The claims that a token carries.
#[derive(Clone, Debug, PartialEq, Eq)]
pub struct Claims {
    /// The identifier of the user, as text.
    pub sub: String,
    /// The second at which the token expires.
    pub exp: i64,
    /// The second at which the token was issued.
    pub iat: i64,
    /// `access` or `refresh`.
    pub token_type: String,
}

/// What a decoded token holds of each claim.
#[derive(Clone, Debug, PartialEq, Eq)]
pub struct RawClaims {
    pub sub: Option<String>,
    pub exp: Option<i64>,
    pub iat: Option<i64>,
    pub token_type: Option<String>,
}

/// The two kinds of token.
#[derive(Clone, Copy, Debug, PartialEq, Eq, Structural)]
pub enum TokenKind {
    Access,
    Refresh,
}

/// Why no token, or no claims, came back.
#[derive(Clone, Copy, Debug, PartialEq, Eq, Structural)]
pub enum TokenError {
    /// The claims could not be encoded and signed.
    Encoding,
    /// The text is no token of this service, or the token has expired.
    Rejected,
    /// The token lacks a claim, or holds one of the wrong type.
    Incomplete,
}

/// Why no hash, or no verdict, came back.
#[derive(Clone, Copy, Debug, PartialEq, Eq, Structural)]
pub enum PasswordError {
    /// The password could not be hashed.
    Hashing,
    /// The hash is not one that a password can be checked against.
    Verifying,
}

/// Seconds for which an access token is valid: one hour.
pub const ACCESS_TOKEN_EXPIRY: i64 = 3600;

/// Seconds for which a refresh token is valid: thirty days.
pub const REFRESH_TOKEN_EXPIRY: i64 = 2592000;

/// The work factor of the password hash.
pub const HASH_COST: u32 = 12;

/// The secret that tokens are signed with.
pub const JWT_SECRET: &'static str = "your-secret-key-change-in-production";

/// The error of `jsonwebtoken`, of which nothing is read.
#[verifier::external_type_specification]
#[verifier::external_body]
pub struct ExTokenFailure(jsonwebtoken::errors::Error);

/// The error of `bcrypt`, of which nothing is read.
#[verifier::external_type_specification]
#[verifier::external_body]
pub struct ExHashFailure(bcrypt::BcryptError);

/// What `jsonwebtoken::encode` makes of the four claims under the default
/// header and the given secret: the token, or `None` where it fails.
pub uninterp spec fn hs256_token(
    sub: Seq<char>,
    exp: int,
    iat: int,
    token_type: Seq<char>,
    secret: Seq<char>,
) -> Option<Seq<char>>;

/// What `bcrypt::verify` says of a password and a hash: whether they match,
/// or `None` where it fails on the hash.
pub uninterp spec fn bcrypt_verdict(password: Seq<char>, hash: Seq<char>) -> Option<bool>;

/// What `jsonwebtoken::decode` reads of the four claims in a token that it
/// accepts under the given secret: each claim, or `None` in its place where
/// the token lacks it or holds it in another type. What a token holds does
/// not change with time; whether the token is accepted does, and of a token
/// that is never accepted nothing is said.
pub uninterp spec fn hs256_claims(token: Seq<char>, secret: Seq<char>) -> Option<
    (Option<Seq<char>>, Option<int>, Option<int>, Option<Seq<char>>),
>;

/// The characters of a text that may be absent.
pub open spec fn text_view(text: Option<String>) -> Option<Seq<char>> {
    match text {
        Some(t) => Some(t@),
        None => None,
    }
}

/// The value of a number that may be absent.
pub open spec fn number_view(number: Option<i64>) -> Option<int> {
    match number {
        Some(n) => Some(n as int),
        None => None,
    }
}

/// What was read of the four claims: subject, expiry, time of issue, kind.
pub open spec fn raw_view(raw: RawClaims) -> (Option<Seq<char>>, Option<int>, Option<int>, Option<Seq<char>>) {
    (text_view(raw.sub), number_view(raw.exp), number_view(raw.iat), text_view(raw.token_type))
}

/// The four claims, all present.
pub open spec fn claims_view(claims: Claims) -> (Option<Seq<char>>, Option<int>, Option<int>, Option<Seq<char>>) {
    (Some(claims.sub@), Some(claims.exp as int), Some(claims.iat as int), Some(claims.token_type@))
}

/// True when all four claims are present.
pub open spec fn all_present(read: (Option<Seq<char>>, Option<int>, Option<int>, Option<Seq<char>>)) -> bool {
    read.0 is Some && read.1 is Some && read.2 is Some && read.3 is Some
}

/// What the decoder reads in `token` under the secret of the service, if it
/// accepts the token.
pub open spec fn token_claims(token: Seq<char>) -> Option<
    (Option<Seq<char>>, Option<int>, Option<int>, Option<Seq<char>>),
> {
    hs256_claims(token, JWT_SECRET@)
}

/// `jsonwebtoken::encode` with the default header (HMAC-SHA-256), a JSON
/// object of the four claims, and the secret as key. The token is the one
/// named by `hs256_token`.
#[verifier::external_body]
fn jwt_encode(claims: &Claims, secret: &str) -> (r: Result<String, jsonwebtoken::errors::Error>)
    ensures
        match r {
            Ok(token) => hs256_token(claims.sub@, claims.exp as int, claims.iat as int, claims.token_type@, secret@)
                == Some(token@),
            Err(_) => hs256_token(claims.sub@, claims.exp as int, claims.iat as int, claims.token_type@, secret@)
                is None,
        },
{
    let mut body = serde_json::Map::new();
    body.insert("sub".to_string(), serde_json::Value::from(claims.sub.as_str()));
    body.insert("exp".to_string(), serde_json::Value::from(claims.exp));
    body.insert("iat".to_string(), serde_json::Value::from(claims.iat));
    body.insert("token_type".to_string(), serde_json::Value::from(claims.token_type.as_str()));
    let key = jsonwebtoken::EncodingKey::from_secret(secret.as_bytes());
    jsonwebtoken::encode(&jsonwebtoken::Header::default(), &body, &key)
}

/// `jsonwebtoken::decode` with the default validation: the signature must be
/// an HMAC-SHA-256 under the secret, and the token must not have expired by
/// the clock of the machine. Whether the token is accepted changes with the
/// time of the call, so nothing is claimed of a refusal; the claims of a
/// token that is accepted are those named by `hs256_claims`.
#[verifier::external_body]
fn jwt_decode(token: &str, secret: &str) -> (r: Result<RawClaims, jsonwebtoken::errors::Error>)
    ensures
        r matches Ok(raw) ==> hs256_claims(token@, secret@) == Some(raw_view(raw)),
{
    let key = jsonwebtoken::DecodingKey::from_secret(secret.as_bytes());
    let data = jsonwebtoken::decode::<serde_json::Value>(token, &key, &jsonwebtoken::Validation::default())?;
    Ok(RawClaims {
        sub: data.claims.get("sub").and_then(|v| v.as_str()).map(|s| s.to_string()),
        exp: data.claims.get("exp").and_then(|v| v.as_i64()),
        iat: data.claims.get("iat").and_then(|v| v.as_i64()),
        token_type: data.claims.get("token_type").and_then(|v| v.as_str()).map(|s| s.to_string()),
    })
}

/// `bcrypt::hash`: a hash of the password under a fresh random salt. Whatever
/// the salt, `bcrypt::verify` finds that the password matches the hash.
#[verifier::external_body]
fn bcrypt_hash(password: &str, cost: u32) -> (r: Result<String, bcrypt::BcryptError>)
    ensures
        r matches Ok(hash) ==> bcrypt_verdict(password@, hash@) == Some(true),
{
    bcrypt::hash(password, cost)
}

/// `bcrypt::verify`. The verdict is the one named by `bcrypt_verdict`.
#[verifier::external_body]
fn bcrypt_verify(password: &str, hash: &str) -> (r: Result<bool, bcrypt::BcryptError>)
    ensures
        match r {
            Ok(matches) => bcrypt_verdict(password@, hash@) == Some(matches),
            Err(_) => bcrypt_verdict(password@, hash@) is None,
        },
{
    bcrypt::verify(password, hash)
}

impl TokenKind {
    /// The name of the kind, as the claim `token_type` holds it.
    pub open spec fn spec_name(self) -> Seq<char> {
        match self {
            TokenKind::Access => "access"@,
            TokenKind::Refresh => "refresh"@,
        }
    }

    /// Seconds for which a token of this kind is valid.
    pub open spec fn spec_expiry(self) -> int {
        match self {
            TokenKind::Access => ACCESS_TOKEN_EXPIRY as int,
            TokenKind::Refresh => REFRESH_TOKEN_EXPIRY as int,
        }
    }

    /// The name of the kind, as the claim `token_type` holds it.
    pub fn name(&self) -> (r: &'static str)
        ensures
            r@ == self.spec_name(),
    {
        match self {
            TokenKind::Access => "access",
            TokenKind::Refresh => "refresh",
        }
    }

    /// Seconds for which a token of this kind is valid.
    pub fn expiry(&self) -> (r: i64)
        ensures
            r == self.spec_expiry(),
    {
        match self {
            TokenKind::Access => ACCESS_TOKEN_EXPIRY,
            TokenKind::Refresh => REFRESH_TOKEN_EXPIRY,
        }
    }
}

/// True when `claims` are those of a token of `kind` issued to `user_id` at
/// `now`: valid from that second, for as long as the kind allows.
pub open spec fn claims_issued(claims: Claims, user_id: Id, now: Timestamp, kind: TokenKind) -> bool {
    &&& claims.sub@ == user_id.text()
    &&& claims.iat == now.spec_seconds()
    &&& claims.exp == now.spec_seconds() + kind.spec_expiry()
    &&& claims.token_type@ == kind.spec_name()
}

/// The token that signing `claims` gives, or `None` where signing fails.
pub open spec fn token_of(claims: Claims) -> Option<Seq<char>> {
    hs256_token(claims.sub@, claims.exp as int, claims.iat as int, claims.token_type@, JWT_SECRET@)
}

/// The token of `kind` issued to `user_id` at `now`, or `None` where signing
/// fails.
pub open spec fn issued_token(user_id: Id, now: Timestamp, kind: TokenKind) -> Option<Seq<char>> {
    hs256_token(
        user_id.text(),
        now.spec_seconds() + kind.spec_expiry(),
        now.spec_seconds(),
        kind.spec_name(),
        JWT_SECRET@,
    )
}

/// The claims of a token of `kind` issued to `user_id` at `now`.
pub fn claims_for(user_id: Id, now: Timestamp, kind: TokenKind) -> (claims: Claims)
    ensures
        claims_issued(claims, user_id, now, kind),
        Id::spec_parse(claims.sub@) == Some(user_id),
{
    let issued: i64 = now.seconds();
    let expiry: i64 = kind.expiry();
    assert(-9_223_372_036_855 <= issued <= 9_223_372_036_855);
    Claims { sub: user_id.to_text(), exp: issued + expiry, iat: issued, token_type: owned(kind.name()) }
}

/// Encodes and signs `claims`.
pub fn sign_claims(claims: &Claims) -> (r: Result<String, TokenError>)
    ensures
        match r {
            Ok(token) => token_of(*claims) == Some(token@),
            Err(e) => e == TokenError::Encoding && token_of(*claims) is None,
        },
{
    match jwt_encode(claims, JWT_SECRET) {
        Ok(token) => Ok(token),
        Err(_) => Err(TokenError::Encoding),
    }
}

/// The token of `kind` issued to `user_id` at `now`.
pub fn issue_token(user_id: Id, now: Timestamp, kind: TokenKind) -> (r: Result<String, TokenError>)
    ensures
        match r {
            Ok(token) => issued_token(user_id, now, kind) == Some(token@),
            Err(e) => e == TokenError::Encoding && issued_token(user_id, now, kind) is None,
        },
{
    let claims = claims_for(user_id, now, kind);
    sign_claims(&claims)
}

/// An access token for `user_id`, issued now and valid for an hour.
pub fn create_access_token(user_id: Id) -> (r: Result<String, TokenError>)
    ensures
        match r {
            Ok(token) => exists|now: Timestamp| 0 <= now.micros <= LATEST_MICROS
                && #[trigger] issued_token(user_id, now, TokenKind::Access) == Some(token@),
            Err(e) => e == TokenError::Encoding && exists|now: Timestamp| 0 <= now.micros <= LATEST_MICROS
                && #[trigger] issued_token(user_id, now, TokenKind::Access) is None,
        },
{
    let now = Timestamp::now();
    issue_token(user_id, now, TokenKind::Access)
}

/// A refresh token for `user_id`, issued now and valid for thirty days.
pub fn create_refresh_token(user_id: Id) -> (r: Result<String, TokenError>)
    ensures
        match r {
            Ok(token) => exists|now: Timestamp| 0 <= now.micros <= LATEST_MICROS
                && #[trigger] issued_token(user_id, now, TokenKind::Refresh) == Some(token@),
            Err(e) => e == TokenError::Encoding && exists|now: Timestamp| 0 <= now.micros <= LATEST_MICROS
                && #[trigger] issued_token(user_id, now, TokenKind::Refresh) is None,
        },
{
    let now = Timestamp::now();
    issue_token(user_id, now, TokenKind::Refresh)
}

/// The claims that a decoded token holds, where it holds all four.
pub fn complete_claims(raw: RawClaims) -> (r: Result<Claims, TokenError>)
    ensures
        match r {
            Ok(claims) => {
                &&& raw.sub == Some(claims.sub)
                &&& raw.exp == Some(claims.exp)
                &&& raw.iat == Some(claims.iat)
                &&& raw.token_type == Some(claims.token_type)
            },
            Err(e) => {
                &&& e == TokenError::Incomplete
                &&& (raw.sub is None || raw.exp is None || raw.iat is None || raw.token_type is None)
            },
        },
{
    match raw.sub {
        Some(sub) => match raw.exp {
            Some(exp) => match raw.iat {
                Some(iat) => match raw.token_type {
                    Some(token_type) => Ok(Claims { sub, exp, iat, token_type }),
                    None => Err(TokenError::Incomplete),
                },
                None => Err(TokenError::Incomplete),
            },
            None => Err(TokenError::Incomplete),
        },
        None => Err(TokenError::Incomplete),
    }
}

/// The claims of `token`, if it is a token of this service that has not
/// expired. Whether it has is decided by the clock at the time of the call.
/// The claims handed out are those that the token holds; a token that is
/// accepted but lacks one of the four is incomplete.
pub fn verify_token(token: &str) -> (r: Result<Claims, TokenError>)
    ensures
        match r {
            Ok(claims) => token_claims(token@) == Some(claims_view(claims)),
            Err(e) => e == TokenError::Rejected || (e == TokenError::Incomplete && match token_claims(token@) {
                Some(read) => !all_present(read),
                None => false,
            }),
        },
{
    match jwt_decode(token, JWT_SECRET) {
        Ok(raw) => complete_claims(raw),
        Err(_) => Err(TokenError::Rejected),
    }
}

/// A hash of `password` under a fresh salt. The password matches its hash.
pub fn hash_password(password: &str) -> (r: Result<String, PasswordError>)
    ensures
        match r {
            Ok(hash) => bcrypt_verdict(password@, hash@) == Some(true),
            Err(e) => e == PasswordError::Hashing,
        },
{
    match bcrypt_hash(password, HASH_COST) {
        Ok(hash) => Ok(hash),
        Err(_) => Err(PasswordError::Hashing),
    }
}

/// Whether `password` matches `hash`.
pub fn verify_password(password: &str, hash: &str) -> (r: Result<bool, PasswordError>)
    ensures
        match r {
            Ok(matches) => bcrypt_verdict(password@, hash@) == Some(matches),
            Err(e) => e == PasswordError::Verifying && bcrypt_verdict(password@, hash@) is None,
        },
{
    match bcrypt_verify(password, hash) {
        Ok(matches) => Ok(matches),
        Err(_) => Err(PasswordError::Verifying),
    }
}

/// A password always matches a hash that was made of it.
pub proof fn lemma_password_matches_its_hash(password: Seq<char>, hash: Seq<char>, verdict: Result<bool, PasswordError>)
    requires
        bcrypt_verdict(password, hash) == Some(true),
        match verdict {
            Ok(matches) => bcrypt_verdict(password, hash) == Some(matches),
            Err(e) => bcrypt_verdict(password, hash) is None,
        },
    ensures
        verdict == Ok::<bool, PasswordError>(true),
{
}

} // verus!
