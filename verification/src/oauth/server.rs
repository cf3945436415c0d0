//! The decisions of the one-shot callback listener that ends the handshake.

use crate::oauth::{AuthzCode, State};
use vstd::prelude::*;

verus! {

/// Why the callback was answered with an error.
pub enum ServerError {
    /// The authorization server refused; the text is its reason.
    Authz(String),
    /// Anything else; the text says what.
    Generic(String),
}

/// What the authorization server sent to the callback.
pub enum AuthorizationResponse {
    /// Access was granted.
    Success { state: State, code: AuthzCode },
    /// Access was refused.
    Error { error: String },
}

impl ServerError {
    /// The HTTP status that answers the callback: 401 where the
    /// authorization server refused, 500 otherwise.
    pub open spec fn spec_status(self) -> u16 {
        match self {
            ServerError::Authz(_) => 401,
            ServerError::Generic(_) => 500,
        }
    }

    /// The HTTP status that answers the callback.
    pub fn status(&self) -> (code: u16)
        ensures
            code == self.spec_status(),
    {
        match self {
            ServerError::Authz(_) => 401,
            ServerError::Generic(_) => 500,
        }
    }
}

/// What the callback makes of the response, given the state that the
/// handshake was opened with: the code to exchange, where access was granted
/// and the state was echoed; an error otherwise.
pub fn callback(expected: &State, response: AuthorizationResponse) -> (r: Result<
    AuthzCode,
    ServerError,
>)
    ensures
        match response {
            AuthorizationResponse::Success { state, code } => if state@ == expected@ {
                r == Ok::<AuthzCode, ServerError>(code)
            } else {
                r matches Err(ServerError::Generic(text)) && text@ == "invalid state"@
            },
            AuthorizationResponse::Error { error } => r == Err::<AuthzCode, ServerError>(
                ServerError::Authz(error),
            ),
        },
{
    match response {
        AuthorizationResponse::Success { state, code } => {
            if state != *expected {
                Err(ServerError::Generic("invalid state".to_owned()))
            } else {
                Ok(code)
            }
        },
        AuthorizationResponse::Error { error } => Err(ServerError::Authz(error)),
    }
}

} // verus!
