//! Signed tokens that stand for a signed-in user.
//!
//! A token is a JSON Web Token signed with the secret of the process. Its
//! claims name the user and the second at which it expires. Signing and
//! checking are the work of the `jsonwebtoken` crate; which claims go in,
//! and what a checked token must hold, is decided here.

use vstd::prelude::*;
use crate::common::error::{AppError, ErrorCause, ErrorData, INTERNAL_ERROR_CODE};
use crate::common::result::ResultApp;
use crate::domain::entity::user::User;
use crate::domain::vo::id::{hyphenated, Id};
use crate::domain::vo::temporal::DateTime;

verus! {

/// The failure of the `jsonwebtoken` crate to sign or to check a token.
#[verifier::external_type_specification]
#[verifier::external_body]
pub struct ExTokenError(jsonwebtoken::errors::Error);

/// A JSON value of the `serde_json` crate.
#[verifier::external_type_specification]
#[verifier::external_body]
pub struct ExJsonValue(serde_json::Value);

/// How long a token is good for, in seconds: one day.
pub const TOKEN_LIFETIME_SECONDS: u64 = 86_400;

/// The name of the claim that holds the user.
pub const SUBJECT_CLAIM: &'static str = "sub";

/// The name of the claim that holds the expiry.
pub const EXPIRY_CLAIM: &'static str = "exp";

/// Signs two claims, a text and a number under their names, with
/// `jsonwebtoken::encode`, under the default header (HS256) and the key
/// that `EncodingKey::from_secret` makes of `secret`. Nothing is claimed of
/// the token: the signature is the crate's, made by the provider that the
/// process runs with.
#[verifier::external_body]
fn sign_claims(text: (&str, &str), number: (&str, u64), secret: &[u8]) -> (r: Result<
    String,
    jsonwebtoken::errors::Error,
>) {
    let mut claims = std::collections::BTreeMap::new();
    claims.insert(text.0, serde_json::Value::from(text.1));
    claims.insert(number.0, serde_json::Value::from(number.1));
    let key = jsonwebtoken::EncodingKey::from_secret(secret);
    jsonwebtoken::encode(&jsonwebtoken::Header::default(), &claims, &key)
}

/// Checks a token with `jsonwebtoken::decode` under the default validation
/// (HS256, an expiry that must be there and not be past) and the key that
/// `DecodingKey::from_secret` makes of `secret`, and gives its claims.
/// Nothing is claimed of the outcome: it depends on the signature and on
/// the clock.
#[verifier::external_body]
fn check_token(token: &str, secret: &[u8]) -> (r: Result<
    serde_json::Value,
    jsonwebtoken::errors::Error,
>) {
    let key = jsonwebtoken::DecodingKey::from_secret(secret);
    let validation = jsonwebtoken::Validation::default();
    match jsonwebtoken::decode::<serde_json::Value>(token, &key, &validation) {
        Ok(data) => Ok(data.claims),
        Err(e) => Err(e),
    }
}

/// The string under `name` in a JSON object (`serde_json::Value::get`),
/// where there is one.
#[verifier::external_body]
fn claimed_text(claims: &serde_json::Value, name: &str) -> (r: Option<String>) {
    match claims.get(name) {
        Some(serde_json::Value::String(text)) => Some(text.clone()),
        _ => None,
    }
}

/// The number under `name` in a JSON object, where there is one that is a
/// whole number from 0 to the greatest of 64 bits (`Value::as_u64`).
#[verifier::external_body]
fn claimed_number(claims: &serde_json::Value, name: &str) -> (r: Option<u64>) {
    match claims.get(name) {
        Some(number) => number.as_u64(),
        None => None,
    }
}

/// What a failure of `jsonwebtoken` says of itself, through its `Display`.
#[verifier::external_body]
fn token_error_text(e: &jsonwebtoken::errors::Error) -> (text: String) {
    e.to_string()
}

/// The secret that tokens are signed with: set once when the process
/// starts, and read ever after.
#[derive(Debug)]
pub struct AuthSecret {
    value: Option<String>,
}

impl AuthSecret {
    /// The secret, once it is set.
    pub closed spec fn secret(&self) -> Option<Seq<char>> {
        match self.value {
            Some(s) => Some(s@),
            None => None,
        }
    }

    /// The place of a secret that is not set yet.
    pub fn new() -> (slot: Self)
        ensures
            slot.secret() is None,
    {
        AuthSecret { value: None }
    }

    /// The secret, which must be set.
    fn key(&self) -> (key: &String)
        requires
            self.secret() is Some,
        ensures
            Some(key@) == self.secret(),
    {
        self.value.as_ref().unwrap()
    }

    /// Tells whether the secret is set.
    pub fn is_set(&self) -> (b: bool)
        ensures
            b == self.secret() is Some,
    {
        self.value.is_some()
    }
}

/// Sets the secret. It can be set once: setting it a second time is a
/// fault of the program, which a caller rules out before the call.
pub fn set_auth_secret(slot: &mut AuthSecret, secret: String)
    requires
        old(slot).secret() is None,
    ensures
        final(slot).secret() == Some(secret@),
{
    slot.value = Some(secret);
}

/// What a token claims: the user it stands for, and the second, counted
/// from the start of 1970, at which it expires.
#[derive(Debug)]
pub struct Claims {
    sub: String,
    exp: u64,
}

impl Clone for Claims {
    fn clone(&self) -> (copy: Self)
        ensures
            copy.spec_sub() == self.spec_sub(),
            copy.spec_exp() == self.spec_exp(),
    {
        Claims { sub: self.sub.clone(), exp: self.exp }
    }
}

impl Claims {
    /// The user that the token stands for.
    pub closed spec fn spec_sub(&self) -> Seq<char> {
        self.sub@
    }

    /// The second at which the token expires.
    pub closed spec fn spec_exp(&self) -> u64 {
        self.exp
    }

    /// The user that the token stands for.
    pub fn sub(&self) -> (s: String)
        ensures
            s@ == self.spec_sub(),
    {
        self.sub.clone()
    }

    /// The second at which the token expires.
    pub fn exp(&self) -> (e: u64)
        ensures
            e == self.spec_exp(),
    {
        self.exp
    }
}

/// A token with the claims that it was signed over.
#[derive(Debug)]
pub struct AuthToken {
    pub token: String,
    pub claims: Claims,
}

impl Clone for AuthToken {
    fn clone(&self) -> (copy: Self)
        ensures
            copy.token@ == self.token@,
            copy.claims.spec_sub() == self.claims.spec_sub(),
            copy.claims.spec_exp() == self.claims.spec_exp(),
    {
        AuthToken { token: self.token.clone(), claims: self.claims.clone() }
    }
}

impl AuthToken {
    /// The failure that a token which does not check is reported with.
    /// Tampering, expiry and a malformed token all look the same.
    pub open spec fn is_rejection(e: AppError) -> bool {
        &&& e matches AppError::Validation(d)
        &&& d.code@ == "invalid-token"@
        &&& d.message@ == "Invalid token"@
        &&& d.args is None
    }

    /// The failure that a token which could not be signed is reported
    /// with.
    pub open spec fn is_signing_failure(e: AppError) -> bool {
        &&& e matches AppError::Internal(d)
        &&& d.code@ == INTERNAL_ERROR_CODE@
        &&& d.message@ == "failed to encode token"@
        &&& d.args is None
        &&& d.cause is Some
    }

    /// The failure for a token that does not check, with what led to it.
    fn rejection(cause: Option<ErrorCause>) -> (e: AppError)
        ensures
            Self::is_rejection(e),
            e->Validation_0.cause is Some == cause is Some,
    {
        proof {
            reveal_strlit("invalid-token");
        }
        AppError::Validation(ErrorData::new("invalid-token", "Invalid token").with_cause(cause))
    }

    /// The token for what came of checking it: the claims read from it, or
    /// none. A checked token must name its user in a string and its expiry
    /// in a whole number; one that does not is rejected.
    pub fn from_claims(token: String, sub: Option<String>, exp: Option<u64>) -> (r: ResultApp<Self>)
        ensures
            match (sub, exp) {
                (Some(s), Some(e)) => r matches Ok(t) && t.token == token && t.claims.spec_sub()
                    == s@ && t.claims.spec_exp() == e,
                _ => r matches Err(e) && Self::is_rejection(e) && e->Validation_0.cause is None,
            },
    {
        match (sub, exp) {
            (Some(sub), Some(exp)) => Ok(Self { token, claims: Claims { sub, exp } }),
            _ => Err(Self::rejection(None)),
        }
    }

    /// The token for what came of signing its claims: the signed text, or
    /// what the signer said of its failure.
    pub fn from_signed(claims: Claims, signed: Result<String, String>) -> (r: ResultApp<Self>)
        ensures
            match signed {
                Ok(text) => r matches Ok(t) && t.token == text && t.claims == claims,
                Err(_) => r matches Err(e) && Self::is_signing_failure(e),
            },
    {
        match signed {
            Ok(token) => Ok(Self { token, claims }),
            Err(text) => {
                proof {
                    reveal_strlit("internal");
                }
                Err(
                    AppError::Internal(
                        ErrorData::new(INTERNAL_ERROR_CODE, "failed to encode token").with_cause(
                            Some(ErrorCause::Opaque(text)),
                        ),
                    ),
                )
            },
        }
    }

    /// Checks a token against the secret: its signature and its expiry
    /// together. A token that checks comes back with its claims; any other
    /// is rejected, and the failure does not say why.
    pub fn parse(token: String, secret: &AuthSecret) -> (r: ResultApp<Self>)
        requires
            secret.secret() is Some,
        ensures
            match r {
                Ok(t) => t.token == token,
                Err(e) => Self::is_rejection(e),
            },
    {
        match check_token(token.as_str(), secret.key().as_str().as_bytes()) {
            Ok(claims) => {
                let sub = claimed_text(&claims, SUBJECT_CLAIM);
                let exp = claimed_number(&claims, EXPIRY_CLAIM);
                Self::from_claims(token, sub, exp)
            },
            Err(e) => Err(Self::rejection(Some(ErrorCause::Opaque(token_error_text(&e))))),
        }
    }

    /// Issues a token for a user at a moment: it names the user by the
    /// text of the identifier and expires a day after the moment.
    pub fn issue_at(subject: &Id, secret: &AuthSecret, now_secs: u64) -> (r: ResultApp<Self>)
        requires
            secret.secret() is Some,
            now_secs + TOKEN_LIFETIME_SECONDS <= u64::MAX,
        ensures
            match r {
                Ok(t) => t.claims.spec_sub() == hyphenated(subject@) && t.claims.spec_exp()
                    == now_secs + TOKEN_LIFETIME_SECONDS,
                Err(e) => Self::is_signing_failure(e),
            },
    {
        let claims = Claims { sub: subject.value(), exp: now_secs + TOKEN_LIFETIME_SECONDS };
        let signed = match sign_claims(
            (SUBJECT_CLAIM, claims.sub.as_str()),
            (EXPIRY_CLAIM, claims.exp),
            secret.key().as_str().as_bytes(),
        ) {
            Ok(token) => Ok(token),
            Err(e) => Err(token_error_text(&e)),
        };
        Self::from_signed(claims, signed)
    }

    /// Issues a token for `user` now, good for a day.
    pub fn new(user: User, secret: &AuthSecret) -> (r: ResultApp<Self>)
        requires
            secret.secret() is Some,
        ensures
            match r {
                Ok(t) => t.claims.spec_sub() == hyphenated(user.id@) && t.claims.spec_exp()
                    >= TOKEN_LIFETIME_SECONDS,
                Err(e) => Self::is_signing_failure(e),
            },
    {
        let (secs, _) = DateTime::new().to_chono_date_time();
        Self::issue_at(&user.id, secret, secs as u64)
    }
}

} // verus!
