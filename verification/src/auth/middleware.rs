//! Who is calling: the subject and flags that an access token proves.
//!
//! An access token travels as `Authorization: Bearer <token>`. A refresh
//! token is never accepted here, however valid it is.

use vstd::prelude::*;
use crate::auth::jwt::{
    decoded_claims, signing_key, verified_claims, verify_token_at, Claims, ClaimsView, TokenType,
};
use crate::config::Config;
use crate::error::{AppError, AppResult};
use crate::platform::unix_now;
use crate::text::{strip_prefix, without_prefix};

verus! {

/// The caller of an authenticated request.
#[derive(Debug)]
pub struct AuthUser {
    pub id: u128,
    /// None for sessions without an address.
    pub email: Option<String>,
    pub is_demo: bool,
}

/// An [`AuthUser`] as contracts speak of one.
pub struct AuthUserView {
    pub id: u128,
    pub email: Option<Seq<char>>,
    pub is_demo: bool,
}

impl View for AuthUser {
    type V = AuthUserView;

    open spec fn view(&self) -> AuthUserView {
        AuthUserView {
            id: self.id,
            email: match self.email {
                Some(e) => Some(e@),
                None => None,
            },
            is_demo: self.is_demo,
        }
    }
}

/// The token in an `Authorization` header, if it is a bearer header.
pub open spec fn bearer_token(authorization: Option<Seq<char>>) -> Option<Seq<char>> {
    match authorization {
        Some(value) => without_prefix(value, "Bearer "@),
        None => None,
    }
}

/// The caller that the claims of an access token name; a refresh token
/// names none.
pub open spec fn caller_of(c: ClaimsView) -> Option<AuthUserView> {
    if c.token_type == TokenType::Access {
        Some(
            AuthUserView {
                id: c.sub,
                email: if c.email.len() == 0 {
                    None
                } else {
                    Some(c.email)
                },
                is_demo: c.is_demo == Some(true),
            },
        )
    } else {
        None
    }
}

/// The caller that a header proves at time `now`.
pub open spec fn authenticated(
    authorization: Option<Seq<char>>,
    key: Seq<u8>,
    now: i64,
) -> Option<AuthUserView> {
    match bearer_token(authorization) {
        Some(token) => match verified_claims(token, key, now) {
            Some(c) => caller_of(c),
            None => None,
        },
        None => None,
    }
}

/// What an optional header stands for in contracts.
pub open spec fn header_text(authorization: Option<&str>) -> Option<Seq<char>> {
    match authorization {
        Some(value) => Some(value@),
        None => None,
    }
}

/// The caller that verified claims name, or `Unauthorized` where they are
/// the claims of a refresh token.
pub fn caller_from_claims(claims: Claims) -> (outcome: AppResult<AuthUser>)
    ensures
        match caller_of(claims@) {
            Some(user) => outcome matches Ok(found) && found@ == user,
            None => outcome matches Err(AppError::Unauthorized),
        },
{
    match claims.token_type {
        TokenType::Refresh => Err(AppError::Unauthorized),
        TokenType::Access => {
            let is_demo = match claims.is_demo {
                Some(flag) => flag,
                None => false,
            };
            let email = if claims.email.as_str().is_empty() {
                None
            } else {
                Some(claims.email)
            };
            Ok(AuthUser { id: claims.sub, email, is_demo })
        },
    }
}

/// An authentication at time `now` returned `outcome`: the caller that the
/// header proves at that time, or `Unauthorized` where it proves none.
pub open spec fn authenticated_at(
    outcome: AppResult<AuthUser>,
    authorization: Option<Seq<char>>,
    key: Seq<u8>,
    now: i64,
) -> bool {
    match authenticated(authorization, key, now) {
        Some(user) => outcome matches Ok(found) && found@ == user,
        None => outcome matches Err(AppError::Unauthorized),
    }
}

/// Authenticates a request at time `now` from its `Authorization` header.
/// It succeeds exactly when the header is a bearer header whose token
/// verifies as an access token; every other request is `Unauthorized`.
pub fn require_auth_at(
    authorization: Option<&str>,
    config: &Config,
    now: i64,
) -> (outcome: AppResult<AuthUser>)
    ensures
        authenticated_at(outcome, header_text(authorization), signing_key(*config), now),
{
    let value = match authorization {
        Some(value) => value,
        None => {
            return Err(AppError::Unauthorized);
        },
    };
    let token = match strip_prefix(value, "Bearer ") {
        Some(token) => token,
        None => {
            return Err(AppError::Unauthorized);
        },
    };
    match verify_token_at(token, config, now) {
        Ok(claims) => caller_from_claims(claims),
        Err(_) => Err(AppError::Unauthorized),
    }
}

/// Authenticates a request against the clock: whatever time it shows, the
/// outcome is the one of [`require_auth_at`] at that time. So a caller is
/// only ever the one that the header's token names, and every failure is
/// `Unauthorized`.
pub fn require_auth(authorization: Option<&str>, config: &Config) -> (outcome: AppResult<AuthUser>)
    ensures
        exists|now: i64| authenticated_at(outcome, header_text(authorization), signing_key(*config), now),
        outcome matches Ok(user) ==> (bearer_token(header_text(authorization)) matches Some(token)
            && (decoded_claims(token, signing_key(*config)) matches Some(c) && caller_of(c) == Some(user@))),
        outcome matches Err(e) ==> e is Unauthorized,
{
    let now = unix_now();
    let outcome = require_auth_at(authorization, config, now);
    assert(authenticated_at(outcome, header_text(authorization), signing_key(*config), now));
    outcome
}

} // verus!
