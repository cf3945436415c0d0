//! Credentials of the authorization protocol: the client's identity, the
//! proof-key verifier and anti-forgery state of the handshake, the bearer
//! and refresh tokens with their expiries.

use crate::oauth::client::{refresh_form, AccessTokenUpdate, CredentialError, OAuthClient};
use crate::text::{form_view, lemma_ascii_is_utf8, string_from_utf8};
use crate::time::Timestamp;
use vstd::prelude::*;
use vstd::utf8::*;

pub mod client;
pub mod server;

verus! {

/// Where tokens are exchanged and refreshed.
pub const TOKEN_ENDPOINT: &'static str = "https://oauth2.googleapis.com/token";

/// Where the user grants access.
pub const AUTHZ_ENDPOINT: &'static str = "https://accounts.google.com/o/oauth2/v2/auth";

/// Where the authorization response is awaited.
pub const REDIRECT_URI: &'static str = "http://127.0.0.1:47218/callback";

/// The access that is asked for.
pub const SCOPE: &'static str = "https://mail.google.com/";

/// The client's public identifier.
pub struct ClientId(pub String);

/// The client's secret.
pub struct ClientSecret(pub String);

/// The code that the authorization response carries.
pub struct AuthzCode(pub String);

/// A bearer token.
#[derive(Debug)]
pub struct AccessToken(pub String);

/// The token that buys a new bearer token.
#[derive(Debug)]
pub struct RefreshToken(pub String);

impl View for ClientId {
    type V = Seq<char>;

    open spec fn view(&self) -> Seq<char> {
        self.0@
    }
}

impl View for ClientSecret {
    type V = Seq<char>;

    open spec fn view(&self) -> Seq<char> {
        self.0@
    }
}

impl View for AuthzCode {
    type V = Seq<char>;

    open spec fn view(&self) -> Seq<char> {
        self.0@
    }
}

impl View for AccessToken {
    type V = Seq<char>;

    open spec fn view(&self) -> Seq<char> {
        self.0@
    }
}

impl View for RefreshToken {
    type V = Seq<char>;

    open spec fn view(&self) -> Seq<char> {
        self.0@
    }
}

impl ClientId {
    /// The identifier's text.
    pub fn as_str(&self) -> (s: &str)
        ensures
            s@ == self@,
    {
        self.0.as_str()
    }
}

impl ClientSecret {
    /// The secret's text.
    pub fn as_str(&self) -> (s: &str)
        ensures
            s@ == self@,
    {
        self.0.as_str()
    }
}

impl AuthzCode {
    /// The code's text.
    pub fn as_str(&self) -> (s: &str)
        ensures
            s@ == self@,
    {
        self.0.as_str()
    }
}

impl AccessToken {
    /// The token's text.
    pub fn as_str(&self) -> (s: &str)
        ensures
            s@ == self@,
    {
        self.0.as_str()
    }
}

impl RefreshToken {
    /// The token's text.
    pub fn as_str(&self) -> (s: &str)
        ensures
            s@ == self@,
    {
        self.0.as_str()
    }
}

impl Clone for ClientId {
    fn clone(&self) -> (r: Self)
        ensures
            r == *self,
    {
        ClientId(self.0.clone())
    }
}

impl Clone for ClientSecret {
    fn clone(&self) -> (r: Self)
        ensures
            r == *self,
    {
        ClientSecret(self.0.clone())
    }
}

impl Clone for AccessToken {
    fn clone(&self) -> (r: Self)
        ensures
            r == *self,
    {
        AccessToken(self.0.clone())
    }
}

impl From<String> for AccessToken {
    fn from(value: String) -> (r: Self) {
        AccessToken(value)
    }
}

impl vstd::std_specs::convert::FromSpecImpl<String> for AccessToken {
    open spec fn obeys_from_spec() -> bool {
        true
    }

    open spec fn from_spec(value: String) -> Self {
        AccessToken(value)
    }
}

impl From<String> for RefreshToken {
    fn from(value: String) -> (r: Self) {
        RefreshToken(value)
    }
}

impl vstd::std_specs::convert::FromSpecImpl<String> for RefreshToken {
    open spec fn obeys_from_spec() -> bool {
        true
    }

    open spec fn from_spec(value: String) -> Self {
        RefreshToken(value)
    }
}

/// The client's identity towards the authorization server.
pub struct ClientCredentials {
    pub id: ClientId,
    pub secret: ClientSecret,
}

impl Clone for ClientCredentials {
    fn clone(&self) -> (r: Self)
        ensures
            r == *self,
    {
        ClientCredentials { id: self.id.clone(), secret: self.secret.clone() }
    }
}

/// The secrets of one registered application.
pub struct ApplicationSecrets {
    pub client_id: ClientId,
    pub client_secret: ClientSecret,
}

/// A secrets file. It holds the secrets of an application under the name of
/// the application's kind.
pub enum SecretsFile {
    Installed(ApplicationSecrets),
    Web(ApplicationSecrets),
}

impl SecretsFile {
    /// The secrets, whatever the kind of application.
    pub open spec fn secrets(self) -> ApplicationSecrets {
        match self {
            SecretsFile::Installed(inner) => inner,
            SecretsFile::Web(inner) => inner,
        }
    }

    /// The secrets, whatever the kind of application.
    pub fn into_inner(self) -> (inner: ApplicationSecrets)
        ensures
            inner == self.secrets(),
    {
        match self {
            SecretsFile::Installed(inner) => inner,
            SecretsFile::Web(inner) => inner,
        }
    }
}

impl ClientCredentials {
    /// The credentials that a secrets file holds.
    pub fn from_secrets_file(file: SecretsFile) -> (creds: ClientCredentials)
        ensures
            creds.id == file.secrets().client_id,
            creds.secret == file.secrets().client_secret,
    {
        let secrets = file.into_inner();
        ClientCredentials { id: secrets.client_id, secret: secrets.client_secret }
    }
}

/// The tokens of one grant with their expiries.
#[derive(Debug)]
pub struct OAuthTokens {
    pub access_token: AccessToken,
    pub refresh_token: RefreshToken,
    pub expires_at: Timestamp,
    pub refresh_token_expires_at: Option<Timestamp>,
}

/// The characters that a proof-key verifier may hold: letters, digits,
/// `-`, `.`, `_` and `~`.
pub open spec fn is_unreserved(b: u8) -> bool {
    ||| 0x41 <= b <= 0x5a
    ||| 0x61 <= b <= 0x7a
    ||| 0x30 <= b <= 0x39
    ||| b == 0x2d
    ||| b == 0x2e
    ||| b == 0x5f
    ||| b == 0x7e
}

/// Whether a byte is an ASCII letter or digit.
pub open spec fn is_alphanumeric(b: u8) -> bool {
    ||| 0x41 <= b <= 0x5a
    ||| 0x61 <= b <= 0x7a
    ||| 0x30 <= b <= 0x39
}

/// The SHA-256 digest of a byte sequence.
pub uninterp spec fn sha256(data: Seq<u8>) -> Seq<u8>;

/// The URL-safe base64 text of a byte sequence, without padding.
pub uninterp spec fn base64_url_unpadded(data: Seq<u8>) -> Seq<char>;

/// `sha2::Sha256::digest`. The digest is a function of the data alone; the
/// contract gives it its name and claims its length, 32 bytes.
#[verifier::external_body]
fn sha256_digest(data: &[u8]) -> (digest: Vec<u8>)
    ensures
        digest@ == sha256(data@),
        digest@.len() == 32,
{
    <sha2::Sha256 as sha2::Digest>::digest(data).to_vec()
}

/// `base64::Engine::encode` of the engine `URL_SAFE_NO_PAD`. The text is a
/// function of the data alone; the contract gives it its name. The call
/// panics where the length of the text does not fit `usize`, which the
/// precondition rules out.
#[verifier::external_body]
fn url_safe_encode(data: &[u8]) -> (text: String)
    requires
        data@.len() <= usize::MAX / 4,
    ensures
        text@ == base64_url_unpadded(data@),
{
    base64::Engine::encode(&base64::engine::general_purpose::URL_SAFE_NO_PAD, data)
}

/// `rand::seq::IndexedRandom::choose` with the thread's generator: one
/// element of the slice, whichever the generator picks.
#[verifier::external_body]
fn choose_byte(choices: &[u8]) -> (b: u8)
    requires
        choices@.len() > 0,
    ensures
        choices@.contains(b),
{
    *rand::seq::IndexedRandom::choose(choices, &mut rand::rng()).unwrap()
}

/// One sample of `rand::distr::Alphanumeric` from the thread's generator: an
/// ASCII letter or digit, whichever the generator picks.
#[verifier::external_body]
fn sample_alphanumeric() -> (b: u8)
    ensures
        is_alphanumeric(b),
{
    rand::Rng::sample(&mut rand::rng(), rand::distr::Alphanumeric)
}

/// The unreserved character at place `i` of their list: the capital
/// letters, the small letters, the digits, then `-`, `.`, `_` and `~`.
pub open spec fn unreserved_at(i: int) -> u8 {
    if i < 26 {
        (0x41 + i) as u8
    } else if i < 52 {
        (0x61 + i - 26) as u8
    } else if i < 62 {
        (0x30 + i - 52) as u8
    } else if i == 62 {
        0x2d
    } else if i == 63 {
        0x2e
    } else if i == 64 {
        0x5f
    } else {
        0x7e
    }
}

/// The number of unreserved characters.
pub const UNRESERVED_LEN: usize = 66;

/// The list of the unreserved characters, which a verifier is drawn from.
pub fn unreserved_chars() -> (chars: Vec<u8>)
    ensures
        chars@ == Seq::new(UNRESERVED_LEN as nat, |i: int| unreserved_at(i)),
        forall|i: int| 0 <= i < chars@.len() ==> is_unreserved(#[trigger] chars@[i]),
{
    let mut chars: Vec<u8> = Vec::new();
    let mut b: u8 = 0x41;
    while b <= 0x5a
        invariant
            0x41 <= b <= 0x5b,
            chars@.len() == b - 0x41,
            forall|i: int| 0 <= i < chars@.len() ==> #[trigger] chars@[i] == unreserved_at(i),
        decreases 0x5b - b,
    {
        chars.push(b);
        b += 1;
    }
    b = 0x61;
    while b <= 0x7a
        invariant
            0x61 <= b <= 0x7b,
            chars@.len() == 26 + b - 0x61,
            forall|i: int| 0 <= i < chars@.len() ==> #[trigger] chars@[i] == unreserved_at(i),
        decreases 0x7b - b,
    {
        chars.push(b);
        b += 1;
    }
    b = 0x30;
    while b <= 0x39
        invariant
            0x30 <= b <= 0x3a,
            chars@.len() == 52 + b - 0x30,
            forall|i: int| 0 <= i < chars@.len() ==> #[trigger] chars@[i] == unreserved_at(i),
        decreases 0x3a - b,
    {
        chars.push(b);
        b += 1;
    }
    chars.push(0x2d);
    chars.push(0x2e);
    chars.push(0x5f);
    chars.push(0x7e);
    proof {
        assert(chars@ =~= Seq::new(UNRESERVED_LEN as nat, |i: int| unreserved_at(i)));
    }
    chars
}

/// The length of a proof-key verifier.
pub const VERIFIER_LEN: usize = 128;

/// The length of an anti-forgery state.
pub const STATE_LEN: usize = 32;

/// The secret of the proof-key exchange: random unreserved characters.
pub struct CodeVerifier {
    text: String,
}

impl CodeVerifier {
    #[verifier::type_invariant]
    spec fn inv(self) -> bool {
        self.well_formed()
    }

    /// The verifier's text.
    pub closed spec fn view(self) -> Seq<char> {
        self.text@
    }

    /// The verifier's bytes.
    pub open spec fn bytes(self) -> Seq<u8> {
        encode_utf8(self@)
    }

    /// Whether the verifier has its full length and holds unreserved
    /// characters only. Every verifier that executable code holds does.
    pub open spec fn well_formed(self) -> bool {
        &&& self.bytes().len() == VERIFIER_LEN
        &&& forall|i: int| 0 <= i < self.bytes().len() ==> is_unreserved(#[trigger] self.bytes()[i])
    }

    /// A fresh verifier: each character drawn at random from the unreserved
    /// characters.
    pub fn new() -> (v: CodeVerifier)
        ensures
            v.well_formed(),
    {
        let choices = unreserved_chars();
        let mut bytes: Vec<u8> = Vec::new();
        while bytes.len() < VERIFIER_LEN
            invariant
                bytes@.len() <= VERIFIER_LEN,
                choices@.len() == UNRESERVED_LEN,
                forall|i: int| 0 <= i < choices@.len() ==> is_unreserved(#[trigger] choices@[i]),
                forall|i: int| 0 <= i < bytes@.len() ==> is_unreserved(#[trigger] bytes@[i]),
            decreases VERIFIER_LEN - bytes@.len(),
        {
            let b = choose_byte(choices.as_slice());
            bytes.push(b);
        }
        proof {
            lemma_ascii_is_utf8(bytes@);
        }
        match string_from_utf8(bytes) {
            Ok(text) => CodeVerifier { text },
            Err(_) => vstd::pervasive::unreached(),
        }
    }

    /// The challenge that goes with the verifier: the URL-safe base64 text,
    /// without padding, of the SHA-256 digest of its bytes.
    pub fn to_s256(&self) -> (challenge: String)
        ensures
            challenge@ == base64_url_unpadded(sha256(self.bytes())),
    {
        let hashed = sha256_digest(self.text.as_str().as_bytes());
        url_safe_encode(hashed.as_slice())
    }

    /// The verifier's text.
    pub fn as_str(&self) -> (s: &str)
        ensures
            s@ == self@,
            self.well_formed(),
    {
        proof {
            use_type_invariant(self);
        }
        self.text.as_str()
    }
}

/// The anti-forgery value that the authorization response has to echo.
pub struct State(pub String);

impl View for State {
    type V = Seq<char>;

    open spec fn view(&self) -> Seq<char> {
        self.0@
    }
}

impl PartialEq for State {
    fn eq(&self, other: &Self) -> (r: bool) {
        self.0 == other.0
    }
}

impl Eq for State {

}

impl vstd::std_specs::cmp::PartialEqSpecImpl for State {
    open spec fn obeys_eq_spec() -> bool {
        true
    }

    open spec fn eq_spec(&self, other: &Self) -> bool {
        self.0@ == other.0@
    }
}

impl State {
    /// A fresh state: random ASCII letters and digits.
    pub fn new() -> (state: State)
        ensures
            encode_utf8(state@).len() == STATE_LEN,
            forall|i: int|
                0 <= i < encode_utf8(state@).len() ==> is_alphanumeric(
                    #[trigger] encode_utf8(state@)[i],
                ),
    {
        let mut bytes: Vec<u8> = Vec::new();
        while bytes.len() < STATE_LEN
            invariant
                bytes@.len() <= STATE_LEN,
                forall|i: int| 0 <= i < bytes@.len() ==> is_alphanumeric(#[trigger] bytes@[i]),
            decreases STATE_LEN - bytes@.len(),
        {
            let b = sample_alphanumeric();
            bytes.push(b);
        }
        proof {
            lemma_ascii_is_utf8(bytes@);
        }
        match string_from_utf8(bytes) {
            Ok(text) => State(text),
            Err(_) => vstd::pervasive::unreached(),
        }
    }

    /// The state's text.
    pub fn as_str(&self) -> (s: &str)
        ensures
            s@ == self@,
    {
        self.0.as_str()
    }
}

/// What a caller who needs a bearer token has to do next.
pub enum TokenStep<'a> {
    /// The cached token is valid: use it.
    Ready(&'a AccessToken),
    /// The cached token has expired: send this form to the token endpoint,
    /// persist the answer, and take it into use.
    Refresh(Vec<(&'a str, &'a str)>),
}

/// Keeps the bearer token of a client valid. Callers take turns: whoever
/// holds the manager decides, refreshes if told to, and only then lets go.
pub struct TokenManager {
    pub client: OAuthClient,
}

impl TokenManager {
    /// A manager for the tokens of `client`.
    pub fn new(client: OAuthClient) -> (manager: TokenManager)
        ensures
            manager.client == client,
    {
        TokenManager { client }
    }

    /// The bearer token held.
    pub fn access_token(&self) -> (token: &AccessToken)
        ensures
            *token == self.client.tokens.access_token,
    {
        self.client.access_token()
    }

    /// Decides at `now` what a caller has to do: use the cached token while
    /// its expiry lies after `now`, refresh it otherwise.
    pub fn current_token<'a>(&'a self, now: &Timestamp) -> (step: TokenStep<'a>)
        ensures
            match step {
                TokenStep::Ready(token) => self.client.valid_at(*now) && *token
                    == self.client.tokens.access_token,
                TokenStep::Refresh(form) => !self.client.valid_at(*now) && form_view(form@)
                    == refresh_form(self.client.creds, self.client.tokens),
            },
    {
        match self.client.check_access_token(now) {
            None => TokenStep::Ready(self.client.access_token()),
            Some(form) => TokenStep::Refresh(form),
        }
    }

    /// The update that the answer to a refresh makes. The cached token stays
    /// in place until the update is taken into use, so a refresh that fails
    /// on the way leaves the manager as it was.
    pub fn refreshed(&self, access_token: AccessToken, expires_in: u64, now: &Timestamp) -> (r:
        Result<AccessTokenUpdate, CredentialError>)
        ensures
            r is Ok <==> crate::oauth::client::expiry(*now, expires_in) is Some,
            r matches Err(e) ==> e == CredentialError::ExpiryOutOfRange,
            r matches Ok(update) ==> update.access_token == access_token
                && crate::oauth::client::is_instant(
                update.expires_at,
                crate::oauth::client::expiry(*now, expires_in)->0,
            ),
    {
        self.client.refreshed(access_token, expires_in, now)
    }

    /// Takes a persisted update into use.
    pub fn update_access_token(&mut self, update: &AccessTokenUpdate)
        ensures
            final(self).client == old(self).client.committed(*update),
    {
        self.client.commit(update);
    }
}

} // verus!
