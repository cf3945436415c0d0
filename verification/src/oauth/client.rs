//! The token protocol, seen from the client: what to send to exchange an
//! authorization code or to refresh a bearer token, and what to make of the
//! answer.
//!
//! Nothing here talks to the network or reads a clock. The caller sends the
//! forms, and hands back the answer together with the time at which it came.

use crate::oauth::{
    AccessToken, AuthzCode, ClientCredentials, CodeVerifier, OAuthTokens, RefreshToken,
    State, AUTHZ_ENDPOINT, REDIRECT_URI, SCOPE,
};
use crate::text::form_view;
use crate::time::{Timestamp, MAX_SECS};
use vstd::prelude::*;

verus! {

/// Why a token answer could not be taken over.
#[derive(Debug, PartialEq, Eq, Clone, Copy, Structural)]
pub enum CredentialError {
    /// The lifetime that the server granted ends outside the representable
    /// range of dates.
    ExpiryOutOfRange,
}

/// A refreshed bearer token with its expiry: what has to be persisted and
/// then taken into use.
pub struct AccessTokenUpdate {
    pub access_token: AccessToken,
    pub expires_at: Timestamp,
}

/// The instant at which a lifetime of `expires_in` seconds, granted at
/// `now`, ends; `None` where that lies outside the representable range.
pub open spec fn expiry(now: Timestamp, expires_in: u64) -> Option<(int, int)> {
    if now.spec_secs() + expires_in <= MAX_SECS {
        Some((now.spec_secs() + expires_in, now.spec_nanos()))
    } else {
        None
    }
}

/// Whether `t` is the instant `at`, given as seconds and nanoseconds.
pub open spec fn is_instant(t: Timestamp, at: (int, int)) -> bool {
    t.spec_secs() == at.0 && t.spec_nanos() == at.1
}

/// A client that holds a verifier and awaits the authorization code.
pub struct PartialOAuthClient {
    pub creds: ClientCredentials,
    pub verifier: CodeVerifier,
}

/// A client that holds tokens.
pub struct OAuthClient {
    pub creds: ClientCredentials,
    pub tokens: OAuthTokens,
}

/// The parameters of the authorization request, in the order they are sent.
pub open spec fn authorization_params(
    creds: ClientCredentials,
    state: State,
    challenge: Seq<char>,
) -> Seq<(Seq<char>, Seq<char>)> {
    seq![
        ("client_id"@, creds.id@),
        ("redirect_uri"@, REDIRECT_URI@),
        ("response_type"@, "code"@),
        ("scope"@, SCOPE@),
        ("code_challenge"@, challenge),
        ("code_challenge_method"@, "S256"@),
        ("state"@, state@),
    ]
}

/// The form that exchanges an authorization code for tokens.
pub open spec fn exchange_form(
    creds: ClientCredentials,
    verifier: Seq<char>,
    code: AuthzCode,
) -> Seq<(Seq<char>, Seq<char>)> {
    seq![
        ("code"@, code@),
        ("code_verifier"@, verifier),
        ("client_id"@, creds.id@),
        ("client_secret"@, creds.secret@),
        ("redirect_uri"@, REDIRECT_URI@),
        ("grant_type"@, "authorization_code"@),
    ]
}

/// The form that refreshes a bearer token.
pub open spec fn refresh_form(creds: ClientCredentials, tokens: OAuthTokens) -> Seq<
    (Seq<char>, Seq<char>),
> {
    seq![
        ("client_id"@, creds.id@),
        ("client_secret"@, creds.secret@),
        ("refresh_token"@, tokens.refresh_token@),
        ("grant_type"@, "refresh_token"@),
    ]
}

/// The authorization request that opens the handshake: the endpoint and its
/// query parameters.
pub struct AuthorizationRequest<'a> {
    pub endpoint: &'static str,
    pub client_id: &'a str,
    pub redirect_uri: &'static str,
    pub response_type: &'static str,
    pub scope: &'static str,
    pub code_challenge: String,
    pub code_challenge_method: &'static str,
    pub state: &'a str,
}

impl<'a> AuthorizationRequest<'a> {
    /// The query parameters in the order they are sent.
    pub open spec fn params(self) -> Seq<(Seq<char>, Seq<char>)> {
        seq![
            ("client_id"@, self.client_id@),
            ("redirect_uri"@, self.redirect_uri@),
            ("response_type"@, self.response_type@),
            ("scope"@, self.scope@),
            ("code_challenge"@, self.code_challenge@),
            ("code_challenge_method"@, self.code_challenge_method@),
            ("state"@, self.state@),
        ]
    }

    /// The query parameters in the order they are sent.
    pub fn query(&self) -> (pairs: Vec<(&str, &str)>)
        ensures
            form_view(pairs@) == self.params(),
    {
        let mut pairs: Vec<(&str, &str)> = Vec::new();
        pairs.push(("client_id", self.client_id));
        pairs.push(("redirect_uri", self.redirect_uri));
        pairs.push(("response_type", self.response_type));
        pairs.push(("scope", self.scope));
        pairs.push(("code_challenge", self.code_challenge.as_str()));
        pairs.push(("code_challenge_method", self.code_challenge_method));
        pairs.push(("state", self.state));
        proof {
            assert(form_view(pairs@) =~= self.params());
        }
        pairs
    }
}

impl PartialOAuthClient {
    /// A client that awaits the code for `verifier`.
    pub fn new(creds: ClientCredentials, verifier: CodeVerifier) -> (client: PartialOAuthClient)
        ensures
            client.creds == creds,
            client.verifier == verifier,
    {
        PartialOAuthClient { creds, verifier }
    }

    /// The form that exchanges `code` for tokens.
    pub fn exchange_form<'a>(&'a self, code: &'a AuthzCode) -> (form: Vec<(&'a str, &'a str)>)
        ensures
            form_view(form@) == exchange_form(self.creds, self.verifier@, *code),
    {
        let mut form: Vec<(&str, &str)> = Vec::new();
        form.push(("code", code.as_str()));
        form.push(("code_verifier", self.verifier.as_str()));
        form.push(("client_id", self.creds.id.as_str()));
        form.push(("client_secret", self.creds.secret.as_str()));
        form.push(("redirect_uri", REDIRECT_URI));
        form.push(("grant_type", "authorization_code"));
        proof {
            assert(form_view(form@) =~= exchange_form(self.creds, self.verifier@, *code));
        }
        form
    }

    /// The client that the answer to the exchange makes: it holds the
    /// tokens, with expiries counted from `now`, the time of the answer.
    /// Fails where an expiry lies outside the representable range.
    pub fn exchange_code_for_tokens(
        &self,
        access_token: String,
        expires_in: u64,
        refresh_token: String,
        refresh_token_expires_in: Option<u64>,
        now: &Timestamp,
    ) -> (r: Result<OAuthClient, CredentialError>)
        ensures
            r is Ok <==> expiry(*now, expires_in) is Some && (refresh_token_expires_in matches Some(
                secs,
            ) ==> expiry(*now, secs) is Some),
            r matches Err(e) ==> e == CredentialError::ExpiryOutOfRange,
            r matches Ok(client) ==> {
                &&& client.creds == self.creds
                &&& client.tokens.access_token.0 == access_token
                &&& client.tokens.refresh_token.0 == refresh_token
                &&& is_instant(client.tokens.expires_at, expiry(*now, expires_in)->0)
                &&& match refresh_token_expires_in {
                    Some(secs) => client.tokens.refresh_token_expires_at matches Some(t)
                        && is_instant(t, expiry(*now, secs)->0),
                    None => client.tokens.refresh_token_expires_at is None,
                }
            },
    {
        let expires_at = match now.checked_add_secs(expires_in) {
            Some(t) => t,
            None => {
                return Err(CredentialError::ExpiryOutOfRange);
            },
        };
        let refresh_token_expires_at = match refresh_token_expires_in {
            Some(secs) => match now.checked_add_secs(secs) {
                Some(t) => Some(t),
                None => {
                    return Err(CredentialError::ExpiryOutOfRange);
                },
            },
            None => None,
        };
        Ok(
            OAuthClient {
                creds: self.creds.clone(),
                tokens: OAuthTokens {
                    access_token: AccessToken(access_token),
                    refresh_token: RefreshToken(refresh_token),
                    expires_at,
                    refresh_token_expires_at,
                },
            },
        )
    }
}

impl OAuthClient {
    /// A client that holds `tokens`.
    pub fn new(creds: ClientCredentials, tokens: OAuthTokens) -> (client: OAuthClient)
        ensures
            client.creds == creds,
            client.tokens == tokens,
    {
        OAuthClient { creds, tokens }
    }

    /// The request that opens the handshake for `verifier` and `state`.
    pub fn authorize<'a>(
        creds: &'a ClientCredentials,
        verifier: &CodeVerifier,
        state: &'a State,
    ) -> (request: AuthorizationRequest<'a>)
        ensures
            request.endpoint@ == AUTHZ_ENDPOINT@,
            request.params() == authorization_params(
                *creds,
                *state,
                crate::oauth::base64_url_unpadded(crate::oauth::sha256(verifier.bytes())),
            ),
    {
        let request = AuthorizationRequest {
            endpoint: AUTHZ_ENDPOINT,
            client_id: creds.id.as_str(),
            redirect_uri: REDIRECT_URI,
            response_type: "code",
            scope: SCOPE,
            code_challenge: verifier.to_s256(),
            code_challenge_method: "S256",
            state: state.as_str(),
        };
        proof {
            assert(request.params() =~= authorization_params(
                *creds,
                *state,
                crate::oauth::base64_url_unpadded(crate::oauth::sha256(verifier.bytes())),
            ));
        }
        request
    }

    /// The tokens held.
    pub fn tokens(&self) -> (tokens: &OAuthTokens)
        ensures
            *tokens == self.tokens,
    {
        &self.tokens
    }

    /// The bearer token held. Whether it is still valid is for
    /// `check_access_token` to say.
    pub fn access_token(&self) -> (token: &AccessToken)
        ensures
            *token == self.tokens.access_token,
    {
        &self.tokens.access_token
    }

    /// Whether the bearer token is valid at `now`: its expiry lies strictly
    /// after `now`.
    pub open spec fn valid_at(self, now: Timestamp) -> bool {
        self.tokens.expires_at.total_nanos() > now.total_nanos()
    }

    /// The client after `update` has been taken into use.
    pub open spec fn committed(self, update: AccessTokenUpdate) -> OAuthClient {
        OAuthClient {
            creds: self.creds,
            tokens: OAuthTokens {
                access_token: update.access_token,
                refresh_token: self.tokens.refresh_token,
                expires_at: update.expires_at,
                refresh_token_expires_at: self.tokens.refresh_token_expires_at,
            },
        }
    }

    /// Decides at `now` whether the bearer token can be used. `None`: it is
    /// valid. `Some`: it has expired, and the form is what to send to the
    /// token endpoint for a new one. Refreshing is lazy: while the token is
    /// valid, no form is made.
    pub fn check_access_token<'a>(&'a self, now: &Timestamp) -> (r: Option<Vec<(&'a str, &'a str)>>)
        ensures
            r is None <==> self.valid_at(*now),
            r matches Some(form) ==> form_view(form@) == refresh_form(self.creds, self.tokens),
    {
        if self.tokens.expires_at.is_after(now) {
            return None;
        }
        let mut form: Vec<(&str, &str)> = Vec::new();
        form.push(("client_id", self.creds.id.as_str()));
        form.push(("client_secret", self.creds.secret.as_str()));
        form.push(("refresh_token", self.tokens.refresh_token.as_str()));
        form.push(("grant_type", "refresh_token"));
        proof {
            assert(form_view(form@) =~= refresh_form(self.creds, self.tokens));
        }
        Some(form)
    }

    /// The update that the answer to a refresh makes: the new token, with
    /// its expiry counted from `now`, the time of the answer. The client
    /// itself is left as it is. Fails where the expiry lies outside the
    /// representable range.
    pub fn refreshed(&self, access_token: AccessToken, expires_in: u64, now: &Timestamp) -> (r:
        Result<AccessTokenUpdate, CredentialError>)
        ensures
            r is Ok <==> expiry(*now, expires_in) is Some,
            r matches Err(e) ==> e == CredentialError::ExpiryOutOfRange,
            r matches Ok(update) ==> update.access_token == access_token && is_instant(
                update.expires_at,
                expiry(*now, expires_in)->0,
            ),
    {
        match now.checked_add_secs(expires_in) {
            Some(expires_at) => Ok(AccessTokenUpdate { access_token, expires_at }),
            None => Err(CredentialError::ExpiryOutOfRange),
        }
    }

    /// Takes `update` into use: the bearer token and its expiry are
    /// replaced, everything else stays.
    pub fn commit(&mut self, update: &AccessTokenUpdate)
        ensures
            *final(self) == old(self).committed(*update),
    {
        self.tokens.access_token = update.access_token.clone();
        self.tokens.expires_at = update.expires_at;
    }
}

/// Once a refreshed token has been taken into use, every caller that asks
/// before the new expiry is told that the token is valid and is handed the
/// refreshed token: one refresh serves them all.
pub proof fn lemma_refresh_serves_all_callers(
    before: OAuthClient,
    update: AccessTokenUpdate,
    callers: Seq<Timestamp>,
)
    requires
        forall|i: int|
            0 <= i < callers.len() ==> update.expires_at.total_nanos()
                > (#[trigger] callers[i]).total_nanos(),
    ensures
        forall|i: int|
            0 <= i < callers.len() ==> before.committed(update).valid_at(#[trigger] callers[i]),
        before.committed(update).tokens.access_token == update.access_token,
{
}

/// A token is refreshed only after it has expired: a caller that asks
/// strictly before the expiry is never told to refresh.
pub proof fn lemma_no_refresh_before_expiry(client: OAuthClient, now: Timestamp)
    requires
        now.total_nanos() < client.tokens.expires_at.total_nanos(),
    ensures
        client.valid_at(now),
{
}

} // verus!
