use base64::Engine;
use gmail_archiver::oauth::client::{
    AccessTokenUpdate, CredentialError, OAuthClient, PartialOAuthClient,
};
use gmail_archiver::oauth::server::{callback, AuthorizationResponse, ServerError};
use gmail_archiver::oauth::{
    unreserved_chars, AccessToken, ApplicationSecrets, AuthzCode, ClientCredentials, ClientId,
    ClientSecret, CodeVerifier, OAuthTokens, RefreshToken, SecretsFile, State, TokenManager,
    TokenStep, AUTHZ_ENDPOINT, REDIRECT_URI, SCOPE, STATE_LEN, TOKEN_ENDPOINT, VERIFIER_LEN,
};
use gmail_archiver::time::{Timestamp, MAX_SECS};
use sha2::Digest;

fn creds() -> ClientCredentials {
    ClientCredentials {
        id: ClientId("client-id".to_string()),
        secret: ClientSecret("client-secret".to_string()),
    }
}

fn tokens(expires_at: i64) -> OAuthTokens {
    OAuthTokens {
        access_token: AccessToken("old-access".to_string()),
        refresh_token: RefreshToken("the-refresh".to_string()),
        expires_at: Timestamp::new(expires_at, 0).unwrap(),
        refresh_token_expires_at: None,
    }
}

fn at(secs: i64, nanos: u32) -> Timestamp {
    Timestamp::new(secs, nanos).unwrap()
}

#[test]
fn the_endpoints_are_the_public_ones() {
    assert_eq!(TOKEN_ENDPOINT, "https://oauth2.googleapis.com/token");
    assert_eq!(AUTHZ_ENDPOINT, "https://accounts.google.com/o/oauth2/v2/auth");
    assert_eq!(REDIRECT_URI, "http://127.0.0.1:47218/callback");
    assert_eq!(SCOPE, "https://mail.google.com/");
}

#[test]
fn a_secrets_file_holds_its_secrets_under_either_kind() {
    let installed = SecretsFile::Installed(ApplicationSecrets {
        client_id: ClientId("a".to_string()),
        client_secret: ClientSecret("b".to_string()),
    });
    let inner = installed.into_inner();
    assert_eq!(inner.client_id.as_str(), "a");
    assert_eq!(inner.client_secret.as_str(), "b");
    let web = SecretsFile::Web(ApplicationSecrets {
        client_id: ClientId("c".to_string()),
        client_secret: ClientSecret("d".to_string()),
    });
    let creds = ClientCredentials::from_secrets_file(web);
    assert_eq!(creds.id.as_str(), "c");
    assert_eq!(creds.secret.as_str(), "d");
}

#[test]
fn tokens_are_made_from_strings() {
    assert_eq!(AccessToken::from("abc".to_string()).as_str(), "abc");
    assert_eq!(RefreshToken::from("def".to_string()).as_str(), "def");
    assert_eq!(AccessToken("abc".to_string()).clone().as_str(), "abc");
    assert_eq!(AuthzCode("code".to_string()).as_str(), "code");
}

#[test]
fn the_unreserved_characters_are_the_sixty_six() {
    let chars = unreserved_chars();
    assert_eq!(
        chars,
        b"ABCDEFGHIJKLMNOPQRSTUVWXYZabcdefghijklmnopqrstuvwxyz0123456789-._~".to_vec()
    );
}

#[test]
fn a_verifier_has_its_length_and_alphabet() {
    let allowed = unreserved_chars();
    for _ in 0..20 {
        let verifier = CodeVerifier::new();
        let text = verifier.as_str();
        assert_eq!(text.len(), VERIFIER_LEN);
        assert_eq!(VERIFIER_LEN, 128);
        assert!(text.bytes().all(|b| allowed.contains(&b)));
    }
}

#[test]
fn verifiers_differ() {
    let a = CodeVerifier::new();
    let b = CodeVerifier::new();
    assert_ne!(a.as_str(), b.as_str());
}

#[test]
fn the_challenge_is_the_encoded_digest_of_the_verifier() {
    let verifier = CodeVerifier::new();
    let digest = sha2::Sha256::digest(verifier.as_str().as_bytes());
    let expected = base64::engine::general_purpose::URL_SAFE_NO_PAD.encode(digest);
    let challenge = verifier.to_s256();
    assert_eq!(challenge, expected);
    assert_eq!(challenge.len(), 43);
    assert!(!challenge.contains('='));
    assert_ne!(challenge, verifier.as_str());
}

#[test]
fn a_state_has_its_length_and_alphabet() {
    for _ in 0..20 {
        let state = State::new();
        assert_eq!(state.as_str().len(), STATE_LEN);
        assert_eq!(STATE_LEN, 32);
        assert!(state.as_str().bytes().all(|b| b.is_ascii_alphanumeric()));
    }
    assert_ne!(State::new().as_str(), State::new().as_str());
}

#[test]
fn states_are_equal_by_their_text() {
    assert!(State("abc".to_string()) == State("abc".to_string()));
    assert!(State("abc".to_string()) != State("abd".to_string()));
    assert!(State(String::new()) == State(String::new()));
}

#[test]
fn the_authorization_request_carries_its_parameters() {
    let creds = creds();
    let verifier = CodeVerifier::new();
    let state = State("state-1".to_string());
    let request = OAuthClient::authorize(&creds, &verifier, &state);
    assert_eq!(request.endpoint, AUTHZ_ENDPOINT);
    let challenge = verifier.to_s256();
    assert_eq!(
        request.query(),
        vec![
            ("client_id", "client-id"),
            ("redirect_uri", "http://127.0.0.1:47218/callback"),
            ("response_type", "code"),
            ("scope", "https://mail.google.com/"),
            ("code_challenge", challenge.as_str()),
            ("code_challenge_method", "S256"),
            ("state", "state-1"),
        ]
    );
}

#[test]
fn the_exchange_form_carries_code_and_verifier() {
    let verifier = CodeVerifier::new();
    let text = verifier.as_str().to_string();
    let partial = PartialOAuthClient::new(creds(), verifier);
    let code = AuthzCode("the-code".to_string());
    assert_eq!(
        partial.exchange_form(&code),
        vec![
            ("code", "the-code"),
            ("code_verifier", text.as_str()),
            ("client_id", "client-id"),
            ("client_secret", "client-secret"),
            ("redirect_uri", "http://127.0.0.1:47218/callback"),
            ("grant_type", "authorization_code"),
        ]
    );
}

#[test]
fn the_exchange_makes_a_client_with_expiries_counted_from_now() {
    let partial = PartialOAuthClient::new(creds(), CodeVerifier::new());
    let now = at(1_700_000_000, 250);
    let client = partial
        .exchange_code_for_tokens("acc".to_string(), 3599, "ref".to_string(), Some(604_800), &now)
        .ok()
        .unwrap();
    assert_eq!(client.creds.id.as_str(), "client-id");
    assert_eq!(client.creds.secret.as_str(), "client-secret");
    assert_eq!(client.access_token().as_str(), "acc");
    assert_eq!(client.tokens().refresh_token.as_str(), "ref");
    assert_eq!(client.tokens().expires_at, at(1_700_003_599, 250));
    assert_eq!(client.tokens().refresh_token_expires_at, Some(at(1_700_604_800, 250)));
    let client = partial
        .exchange_code_for_tokens("acc".to_string(), 0, "ref".to_string(), None, &now)
        .ok()
        .unwrap();
    assert_eq!(client.tokens().expires_at, now);
    assert_eq!(client.tokens().refresh_token_expires_at, None);
}

#[test]
fn an_exchange_with_an_expiry_out_of_range_fails() {
    let partial = PartialOAuthClient::new(creds(), CodeVerifier::new());
    let now = at(1_700_000_000, 0);
    let r = partial.exchange_code_for_tokens("a".to_string(), u64::MAX, "r".to_string(), None, &now);
    assert!(matches!(r, Err(CredentialError::ExpiryOutOfRange)));
    let r = partial.exchange_code_for_tokens(
        "a".to_string(),
        10,
        "r".to_string(),
        Some((MAX_SECS - 1_700_000_000) as u64 + 1),
        &now,
    );
    assert!(matches!(r, Err(CredentialError::ExpiryOutOfRange)));
    let r = partial.exchange_code_for_tokens(
        "a".to_string(),
        10,
        "r".to_string(),
        Some((MAX_SECS - 1_700_000_000) as u64),
        &now,
    );
    assert!(r.is_ok());
}

#[test]
fn a_token_is_valid_strictly_before_its_expiry() {
    let client = OAuthClient::new(creds(), tokens(1000));
    assert!(client.check_access_token(&at(999, 999_999_999)).is_none());
    assert!(client.check_access_token(&at(0, 0)).is_none());
    assert!(client.check_access_token(&at(1000, 0)).is_some());
    assert!(client.check_access_token(&at(1000, 1)).is_some());
    assert!(client.check_access_token(&at(2000, 0)).is_some());
}

#[test]
fn an_expired_token_asks_for_the_refresh_form() {
    let client = OAuthClient::new(creds(), tokens(1000));
    let form = client.check_access_token(&at(1000, 0)).unwrap();
    assert_eq!(
        form,
        vec![
            ("client_id", "client-id"),
            ("client_secret", "client-secret"),
            ("refresh_token", "the-refresh"),
            ("grant_type", "refresh_token"),
        ]
    );
}

#[test]
fn a_refresh_counts_the_expiry_from_now() {
    let client = OAuthClient::new(creds(), tokens(1000));
    let update = client
        .refreshed(AccessToken("new".to_string()), 3600, &at(1005, 77))
        .ok()
        .unwrap();
    assert_eq!(update.access_token.as_str(), "new");
    assert_eq!(update.expires_at, at(4605, 77));
    assert_eq!(client.access_token().as_str(), "old-access");
    assert_eq!(client.tokens().expires_at, at(1000, 0));
}

#[test]
fn a_refresh_with_an_expiry_out_of_range_fails_and_changes_nothing() {
    let client = OAuthClient::new(creds(), tokens(1000));
    let r = client.refreshed(AccessToken("new".to_string()), u64::MAX, &at(1005, 0));
    assert!(matches!(r, Err(CredentialError::ExpiryOutOfRange)));
    assert_eq!(client.access_token().as_str(), "old-access");
    assert_eq!(client.tokens().expires_at, at(1000, 0));
}

#[test]
fn a_committed_update_replaces_token_and_expiry_only() {
    let mut client = OAuthClient::new(creds(), tokens(1000));
    let update = AccessTokenUpdate {
        access_token: AccessToken("new".to_string()),
        expires_at: at(5000, 0),
    };
    client.commit(&update);
    assert_eq!(client.access_token().as_str(), "new");
    assert_eq!(client.tokens().expires_at, at(5000, 0));
    assert_eq!(client.tokens().refresh_token.as_str(), "the-refresh");
    assert_eq!(client.tokens().refresh_token_expires_at, None);
    assert_eq!(client.creds.id.as_str(), "client-id");
}

#[test]
fn one_refresh_serves_every_later_caller() {
    let mut manager = TokenManager::new(OAuthClient::new(creds(), tokens(1000)));
    let mut refreshes = 0;
    let mut seen = Vec::new();
    for caller in 0..10u32 {
        let now = at(1500, caller);
        let needs = match manager.current_token(&now) {
            TokenStep::Ready(token) => {
                seen.push(token.as_str().to_string());
                false
            },
            TokenStep::Refresh(form) => {
                assert_eq!(form[2], ("refresh_token", "the-refresh"));
                true
            },
        };
        if needs {
            refreshes += 1;
            let update = manager
                .refreshed(AccessToken(format!("token-{}", refreshes)), 3600, &now)
                .ok()
                .unwrap();
            manager.update_access_token(&update);
            seen.push(manager.access_token().as_str().to_string());
        }
    }
    assert_eq!(refreshes, 1);
    assert_eq!(seen, vec!["token-1".to_string(); 10]);
}

#[test]
fn a_valid_token_is_handed_out_without_a_refresh() {
    let manager = TokenManager::new(OAuthClient::new(creds(), tokens(1000)));
    assert!(matches!(
        manager.current_token(&at(10, 0)),
        TokenStep::Ready(token) if token.as_str() == "old-access"
    ));
    assert_eq!(manager.access_token().as_str(), "old-access");
}

#[test]
fn a_failed_refresh_leaves_the_old_token_in_place() {
    let manager = TokenManager::new(OAuthClient::new(creds(), tokens(1000)));
    assert!(matches!(manager.current_token(&at(2000, 0)), TokenStep::Refresh(_)));
    assert!(manager.refreshed(AccessToken("x".to_string()), u64::MAX, &at(2000, 0)).is_err());
    assert_eq!(manager.access_token().as_str(), "old-access");
    assert!(matches!(manager.current_token(&at(2000, 0)), TokenStep::Refresh(_)));
}

#[test]
fn the_callback_hands_out_the_code_when_the_state_is_echoed() {
    let expected = State("s1".to_string());
    let r = callback(
        &expected,
        AuthorizationResponse::Success {
            state: State("s1".to_string()),
            code: AuthzCode("c1".to_string()),
        },
    );
    assert!(matches!(r, Ok(code) if code.as_str() == "c1"));
}

#[test]
fn the_callback_refuses_a_foreign_state() {
    let expected = State("s1".to_string());
    let r = callback(
        &expected,
        AuthorizationResponse::Success {
            state: State("s2".to_string()),
            code: AuthzCode("c1".to_string()),
        },
    );
    assert!(matches!(&r, Err(ServerError::Generic(text)) if text == "invalid state"));
    assert_eq!(r.err().unwrap().status(), 500);
}

#[test]
fn the_callback_passes_on_a_refusal() {
    let expected = State("s1".to_string());
    let r = callback(&expected, AuthorizationResponse::Error { error: "access_denied".to_string() });
    assert!(matches!(&r, Err(ServerError::Authz(text)) if text == "access_denied"));
    assert_eq!(r.err().unwrap().status(), 401);
}
