//! The live channel over which changes are pushed to a user's open clients.

use vstd::prelude::*;
use crate::auth::jwt::{decoded_claims, signing_key, verified_claims, verify_token_at, TokenType};
use crate::config::Config;
use crate::platform::{unix_now, uuid_text, uuid_text_of};
use crate::text::same_text;

verus! {

/// Query of a connection.
#[derive(Debug)]
pub struct WsQuery {
    pub token: Option<String>,
}

/// Why a connection is not opened.
#[derive(Debug, Clone, Copy, PartialEq, Eq, Structural)]
pub enum WsRefusal {
    MissingToken,
    InvalidToken,
    NotAnAccessToken,
}

impl WsRefusal {
    /// The reason in words.
    pub open spec fn reason_of(self) -> Seq<char> {
        match self {
            WsRefusal::MissingToken => "Missing token query parameter"@,
            WsRefusal::InvalidToken => "Invalid or expired token"@,
            WsRefusal::NotAnAccessToken => "Must use access token for WebSocket"@,
        }
    }

    /// The reason in words.
    pub fn reason(&self) -> (text: &'static str)
        ensures
            text@ == self.reason_of(),
    {
        match self {
            WsRefusal::MissingToken => "Missing token query parameter",
            WsRefusal::InvalidToken => "Invalid or expired token",
            WsRefusal::NotAnAccessToken => "Must use access token for WebSocket",
        }
    }
}

/// What the `token` parameter of a connection proves at time `now`: the
/// subject of a verified access token, or the reason why there is none.
pub open spec fn ws_subject(token: Option<Seq<char>>, key: Seq<u8>, now: i64) -> Result<u128, WsRefusal> {
    match token {
        None => Err(WsRefusal::MissingToken),
        Some(token) => match verified_claims(token, key, now) {
            None => Err(WsRefusal::InvalidToken),
            Some(c) => if c.token_type == TokenType::Access {
                Ok(c.sub)
            } else {
                Err(WsRefusal::NotAnAccessToken)
            },
        },
    }
}

/// What an optional parameter stands for in contracts.
pub open spec fn param_text(token: Option<&str>) -> Option<Seq<char>> {
    match token {
        Some(value) => Some(value@),
        None => None,
    }
}

/// Authenticates a connection at time `now`.
pub fn authenticate_ws_at(
    token: Option<&str>,
    config: &Config,
    now: i64,
) -> (outcome: Result<u128, WsRefusal>)
    ensures
        outcome == ws_subject(param_text(token), signing_key(*config), now),
{
    let token = match token {
        Some(token) => token,
        None => {
            return Err(WsRefusal::MissingToken);
        },
    };
    match verify_token_at(token, config, now) {
        Err(_) => Err(WsRefusal::InvalidToken),
        Ok(claims) => match claims.token_type {
            TokenType::Access => Ok(claims.sub),
            TokenType::Refresh => Err(WsRefusal::NotAnAccessToken),
        },
    }
}

/// Authenticates a connection against the clock: whatever time it shows, the
/// outcome is the one of [`authenticate_ws_at`] at that time.
pub fn authenticate_ws(token: Option<&str>, config: &Config) -> (outcome: Result<u128, WsRefusal>)
    ensures
        exists|now: i64| outcome == #[trigger] ws_subject(param_text(token), signing_key(*config), now),
        outcome matches Ok(subject) ==> (token matches Some(t) && (decoded_claims(t@, signing_key(*config)) matches Some(
            c,
        ) && c.sub == subject && c.token_type == TokenType::Access)),
        token is None ==> outcome == Err::<u128, WsRefusal>(WsRefusal::MissingToken),
{
    let now = unix_now();
    authenticate_ws_at(token, config, now)
}

/// Whether a broadcast message goes to the client of `subject`: one that
/// names a user goes to that user only, one that names none goes to all.
pub open spec fn goes_to(message_user: Option<Seq<char>>, subject: u128) -> bool {
    match message_user {
        Some(user) => user == uuid_text_of(subject),
        None => true,
    }
}

/// Decides whether a broadcast message is forwarded to the client of
/// `subject`, given the `user_id` that the message names, if it names one.
pub fn forwards_to(message_user: Option<&str>, subject: u128) -> (forward: bool)
    ensures
        forward == goes_to(param_text(message_user), subject),
{
    match message_user {
        Some(user) => same_text(user, uuid_text(subject).as_str()),
        None => true,
    }
}

} // verus!
