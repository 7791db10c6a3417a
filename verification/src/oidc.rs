//! The client of the OpenID Connect provider: discovery, then one token
//! request with the user's name and password.
//!
//! The client decides and never sends. Every call of
//! `PamOidcConfig::authenticate_user` takes what has happened so far and
//! answers with the next thing to do: a request for the caller to perform, or
//! the outcome of the authentication.

use crate::config::{PamOidcConfig, PamOidcConfigView};
use crate::constants::PamResultCode;
use crate::error::{outcome_view, PamOidcError, PamOidcErrorView, TokenFailure, TokenFailureView};
use crate::issuer::{issuer_scheme, parse_issuer};
use crate::model::{read_view, text_view};
use vstd::prelude::*;
use vstd::string::StringExecFns;

verus! {

/// The seconds that the caller may wait for the provider's metadata.
pub const DISCOVERY_TIMEOUT_SECS: u64 = 10;

/// The seconds that the caller may wait for the token endpoint's answer.
pub const TOKEN_TIMEOUT_SECS: u64 = 10;

/// The warning that goes with an issuer that is reached without TLS.
pub const PLAIN_HTTP_WARNING: &'static str =
    "issuer is reached over plain http; use https outside of tests";

/// The summary of a token request that has nowhere to go.
pub const NO_TOKEN_ENDPOINT: &'static str = "provider names no token endpoint";

/// A way in which a client may authenticate at the token endpoint, as a
/// provider's metadata names it.
#[derive(Debug, Clone, Copy, PartialEq, Eq, Structural)]
pub enum ClientAuthMethod {
    ClientSecretBasic,
    ClientSecretJwt,
    ClientSecretPost,
    PrivateKeyJwt,
    Unauthenticated,
    Extension,
}

/// Where the client's identifier and secret travel in a token request.
#[derive(Debug, Clone, Copy, PartialEq, Eq, Structural)]
pub enum AuthType {
    /// In the body of the request, beside the grant.
    RequestBody,
    /// In the HTTP Basic authentication header.
    BasicAuth,
}

/// What the client reads of a provider's metadata.
#[derive(Debug)]
pub struct ProviderMetadata {
    /// The issuer that the document claims to describe.
    pub issuer: String,
    /// The URL of the token endpoint, where the document names one.
    pub token_endpoint: Option<String>,
    /// The client authentication methods of the token endpoint, where the
    /// document lists them.
    pub token_endpoint_auth_methods: Option<Vec<ClientAuthMethod>>,
}

/// The model of a `ProviderMetadata`.
pub struct ProviderMetadataView {
    pub issuer: Seq<char>,
    pub token_endpoint: Option<Seq<char>>,
    pub token_endpoint_auth_methods: Option<Seq<ClientAuthMethod>>,
}

/// The model of a list of methods that a document may lack.
pub open spec fn methods_view(methods: Option<Vec<ClientAuthMethod>>) -> Option<
    Seq<ClientAuthMethod>,
> {
    match methods {
        Some(listed) => Some(listed@),
        None => None,
    }
}

impl View for ProviderMetadata {
    type V = ProviderMetadataView;

    open spec fn view(&self) -> ProviderMetadataView {
        ProviderMetadataView {
            issuer: self.issuer@,
            token_endpoint: text_view(self.token_endpoint),
            token_endpoint_auth_methods: methods_view(self.token_endpoint_auth_methods),
        }
    }
}

/// The request for a provider's metadata.
#[derive(Debug)]
pub struct DiscoveryRequest {
    /// The issuer whose metadata is asked for; the document has to name it.
    pub issuer_url: String,
    /// The seconds after which the caller gives the request up.
    pub timeout_secs: u64,
    /// A warning for the host's log, where the request calls for one.
    pub warning: Option<String>,
}

/// The model of a `DiscoveryRequest`.
pub struct DiscoveryRequestView {
    pub issuer_url: Seq<char>,
    pub timeout_secs: u64,
    pub warning: Option<Seq<char>>,
}

impl View for DiscoveryRequest {
    type V = DiscoveryRequestView;

    open spec fn view(&self) -> DiscoveryRequestView {
        DiscoveryRequestView {
            issuer_url: self.issuer_url@,
            timeout_secs: self.timeout_secs,
            warning: text_view(self.warning),
        }
    }
}

/// A token request under the resource owner password credentials grant. It
/// holds the password and the client's secret and so cannot be printed.
pub struct TokenRequest {
    /// The URL of the token endpoint.
    pub token_endpoint: String,
    /// Where the client's identifier and secret travel.
    pub auth_type: AuthType,
    /// The identifier of the relying party.
    pub client_id: String,
    /// The secret of the relying party.
    pub client_secret: String,
    /// The grant type of the request.
    pub grant_type: String,
    /// The name of the user.
    pub username: String,
    /// The password of the user.
    pub password: String,
    /// The scope that is asked for.
    pub scope: String,
    /// The seconds after which the caller gives the request up.
    pub timeout_secs: u64,
}

/// The model of a `TokenRequest`.
pub struct TokenRequestView {
    pub token_endpoint: Seq<char>,
    pub auth_type: AuthType,
    pub client_id: Seq<char>,
    pub client_secret: Seq<char>,
    pub grant_type: Seq<char>,
    pub username: Seq<char>,
    pub password: Seq<char>,
    pub scope: Seq<char>,
    pub timeout_secs: u64,
}

impl TokenRequestView {
    /// Whether the request is the password grant for `user` and `pass`, with
    /// the scope `openid`, for the client of `config`, and bound in time.
    pub open spec fn is_password_grant(
        self,
        config: PamOidcConfigView,
        user: Seq<char>,
        pass: Seq<char>,
    ) -> bool {
        &&& self.grant_type == "password"@
        &&& self.username == user
        &&& self.password == pass
        &&& self.scope == "openid"@
        &&& self.client_id == config.client_id
        &&& self.client_secret == config.client_secret
        &&& self.timeout_secs == TOKEN_TIMEOUT_SECS
    }
}

impl View for TokenRequest {
    type V = TokenRequestView;

    open spec fn view(&self) -> TokenRequestView {
        TokenRequestView {
            token_endpoint: self.token_endpoint@,
            auth_type: self.auth_type,
            client_id: self.client_id@,
            client_secret: self.client_secret@,
            grant_type: self.grant_type@,
            username: self.username@,
            password: self.password@,
            scope: self.scope@,
            timeout_secs: self.timeout_secs,
        }
    }
}

/// What has happened so far in one authentication.
pub enum OidcEvent {
    /// Nothing yet.
    Start,
    /// Discovery has ended: with the provider's metadata, or with a summary of
    /// why there is none.
    Discovery(Result<ProviderMetadata, String>),
    /// The token request has ended: with a token, which is dropped on the
    /// spot, or with the reason why there is none.
    Token(Result<(), TokenFailure>),
}

/// The model of an `OidcEvent`.
pub enum OidcEventView {
    Start,
    Discovery(Result<ProviderMetadataView, Seq<char>>),
    Token(Result<(), TokenFailureView>),
}

impl View for OidcEvent {
    type V = OidcEventView;

    open spec fn view(&self) -> OidcEventView {
        match self {
            OidcEvent::Start => OidcEventView::Start,
            OidcEvent::Discovery(d) => OidcEventView::Discovery(discovery_view(*d)),
            OidcEvent::Token(t) => OidcEventView::Token(token_view(*t)),
        }
    }
}

/// The model of an ended discovery.
pub open spec fn discovery_view(d: Result<ProviderMetadata, String>) -> Result<
    ProviderMetadataView,
    Seq<char>,
> {
    match d {
        Ok(metadata) => Ok(metadata@),
        Err(e) => Err(e@),
    }
}

/// The model of an ended token request.
pub open spec fn token_view(t: Result<(), TokenFailure>) -> Result<(), TokenFailureView> {
    match t {
        Ok(()) => Ok(()),
        Err(f) => Err(f@),
    }
}

/// The next thing to do in one authentication.
pub enum OidcStep {
    /// Fetch the provider's metadata and come back with `OidcEvent::Discovery`.
    Discover(DiscoveryRequest),
    /// Send the token request and come back with `OidcEvent::Token`.
    RequestToken(TokenRequest),
    /// The authentication has ended.
    Done(Result<PamResultCode, PamOidcError>),
}

/// The model of an `OidcStep`.
pub enum OidcStepView {
    Discover(DiscoveryRequestView),
    RequestToken(TokenRequestView),
    Done(Result<PamResultCode, PamOidcErrorView>),
}

impl View for OidcStep {
    type V = OidcStepView;

    open spec fn view(&self) -> OidcStepView {
        match self {
            OidcStep::Discover(request) => OidcStepView::Discover(request@),
            OidcStep::RequestToken(request) => OidcStepView::RequestToken(request@),
            OidcStep::Done(outcome) => OidcStepView::Done(outcome_view(*outcome)),
        }
    }
}

/// Whether the metadata lists client authentication methods and every one of
/// them is `ClientSecretPost`.
pub open spec fn only_secret_post(methods: Option<Seq<ClientAuthMethod>>) -> bool {
    match methods {
        None => false,
        Some(listed) => listed.len() > 0 && forall|i: int|
            0 <= i < listed.len() ==> listed[i] == ClientAuthMethod::ClientSecretPost,
    }
}

/// Where the client's identifier and secret travel: in the HTTP Basic header,
/// unless the provider declares nothing but `ClientSecretPost`.
pub open spec fn auth_type_for(methods: Option<Seq<ClientAuthMethod>>) -> AuthType {
    if only_secret_post(methods) {
        AuthType::RequestBody
    } else {
        AuthType::BasicAuth
    }
}

/// The summary of a discovery whose document describes another issuer.
pub open spec fn issuer_mismatch(found: Seq<char>, expected: Seq<char>) -> Seq<char> {
    "unexpected issuer URI `"@ + found + "` (expected `"@ + expected + "`)"@
}

/// The summary of an issuer that is a URL of another kind than HTTP.
pub open spec fn unsupported_scheme(scheme: Seq<char>) -> Seq<char> {
    "scheme `"@ + scheme + "` is neither https nor http"@
}

/// The first step. `parsed` is what reading the configured issuer as a URL
/// gave: its scheme, or the reason why it is no URL. An issuer with the
/// scheme `https` is looked up, and so is one with the scheme `http`, with a
/// warning; an issuer of another scheme, or one that is no URL, ends the
/// authentication with a `UrlParseError`.
pub open spec fn discovery_step(
    config: PamOidcConfigView,
    parsed: Result<Seq<char>, Seq<char>>,
) -> OidcStepView {
    match parsed {
        Err(e) => OidcStepView::Done(Err(PamOidcErrorView::UrlParseError(e))),
        Ok(scheme) => if scheme == "https"@ || scheme == "http"@ {
            OidcStepView::Discover(
                DiscoveryRequestView {
                    issuer_url: config.issuer_url,
                    timeout_secs: DISCOVERY_TIMEOUT_SECS,
                    warning: if scheme == "http"@ {
                        Some(PLAIN_HTTP_WARNING@)
                    } else {
                        None
                    },
                },
            )
        } else {
            OidcStepView::Done(Err(PamOidcErrorView::UrlParseError(unsupported_scheme(scheme))))
        },
    }
}

/// The step after discovery. A failed discovery, or a document that
/// describes another issuer than the configured one, ends the authentication
/// with a `DiscoveryError`; a document without a token endpoint ends it with
/// a `RequestTokenError`. Any other document leads to the token request: the
/// password grant for `user` and `pass`, the scope `openid`, and the client's
/// own credentials where the document asks for them.
pub open spec fn token_step(
    config: PamOidcConfigView,
    user: Seq<char>,
    pass: Seq<char>,
    discovery: Result<ProviderMetadataView, Seq<char>>,
) -> OidcStepView {
    match discovery {
        Err(e) => OidcStepView::Done(Err(PamOidcErrorView::DiscoveryError(e))),
        Ok(metadata) => if metadata.issuer != config.issuer_url {
            OidcStepView::Done(
                Err(
                    PamOidcErrorView::DiscoveryError(
                        issuer_mismatch(metadata.issuer, config.issuer_url),
                    ),
                ),
            )
        } else {
            match metadata.token_endpoint {
                None => OidcStepView::Done(
                    Err(
                        PamOidcErrorView::RequestTokenError(
                            TokenFailureView::Other(NO_TOKEN_ENDPOINT@),
                        ),
                    ),
                ),
                Some(url) => OidcStepView::RequestToken(
                    TokenRequestView {
                        token_endpoint: url,
                        auth_type: auth_type_for(metadata.token_endpoint_auth_methods),
                        client_id: config.client_id,
                        client_secret: config.client_secret,
                        grant_type: "password"@,
                        username: user,
                        password: pass,
                        scope: "openid"@,
                        timeout_secs: TOKEN_TIMEOUT_SECS,
                    },
                ),
            }
        },
    }
}

/// The outcome of an authentication whose token request has ended: a token
/// is a success, and anything else is a `RequestTokenError`.
pub open spec fn token_outcome(reply: Result<(), TokenFailureView>) -> Result<
    PamResultCode,
    PamOidcErrorView,
> {
    match reply {
        Ok(()) => Ok(PamResultCode::PAM_SUCCESS),
        Err(f) => Err(PamOidcErrorView::RequestTokenError(f)),
    }
}

/// Whether `url` can be an issuer: a well-formed URL with the scheme `https`
/// or `http`.
pub open spec fn issuer_usable(url: Seq<char>) -> bool {
    issuer_scheme(url) matches Ok(scheme) && (scheme == "https"@ || scheme == "http"@)
}

/// The next thing to do for `config`, `user` and `pass` after `event`.
pub open spec fn authenticate_step(
    config: PamOidcConfigView,
    user: Seq<char>,
    pass: Seq<char>,
    event: OidcEventView,
) -> OidcStepView {
    match event {
        OidcEventView::Start => discovery_step(config, issuer_scheme(config.issuer_url)),
        OidcEventView::Discovery(discovery) => token_step(config, user, pass, discovery),
        OidcEventView::Token(reply) => OidcStepView::Done(token_outcome(reply)),
    }
}

/// Decides where the client's identifier and secret travel.
pub fn choose_auth_type(methods: &Option<Vec<ClientAuthMethod>>) -> (r: AuthType)
    ensures
        r == auth_type_for(methods_view(*methods)),
{
    match methods {
        None => AuthType::BasicAuth,
        Some(listed) => {
            if listed.len() == 0 {
                return AuthType::BasicAuth;
            }
            let mut i: usize = 0;
            while i < listed.len()
                invariant
                    *methods == Some(*listed),
                    0 < listed.len(),
                    i <= listed.len(),
                    forall|j: int| 0 <= j < i ==> listed@[j] == ClientAuthMethod::ClientSecretPost,
                decreases listed.len() - i,
            {
                if listed[i] != ClientAuthMethod::ClientSecretPost {
                    assert(listed@[i as int] != ClientAuthMethod::ClientSecretPost);
                    return AuthType::BasicAuth;
                }
                i = i + 1;
            }
            AuthType::RequestBody
        },
    }
}

impl PamOidcConfig {
    /// Authenticates `user` with `pass` at the provider, one step at a time.
    ///
    /// The caller starts with `OidcEvent::Start`, performs the request that
    /// comes back, and calls again with what the request gave, until the step
    /// is `OidcStep::Done`. A success is `PAM_SUCCESS`; nothing of the token is
    /// kept.
    pub fn authenticate_user(&self, user: &str, pass: &str, event: OidcEvent) -> (step: OidcStep)
        ensures
            step@ == authenticate_step(self@, user@, pass@, event@),
    {
        match event {
            OidcEvent::Start => {
                let parsed = parse_issuer(self.issuer_url());
                self.start_discovery(parsed)
            },
            OidcEvent::Discovery(discovery) => self.request_token(user, pass, discovery),
            OidcEvent::Token(reply) => OidcStep::Done(Self::conclude(reply)),
        }
    }

    /// The first step, given what reading the configured issuer as a URL
    /// gave: its scheme, or the reason why it is no URL.
    pub fn start_discovery(&self, parsed: Result<String, String>) -> (step: OidcStep)
        ensures
            step@ == discovery_step(self@, read_view(parsed)),
    {
        match parsed {
            Err(fault) => OidcStep::Done(Err(PamOidcError::UrlParseError(fault))),
            Ok(scheme) => {
                let plain = scheme == String::from_str("http");
                if !plain && scheme != String::from_str("https") {
                    let summary = String::from_str("scheme `").concat(scheme.as_str()).concat(
                        "` is neither https nor http",
                    );
                    return OidcStep::Done(Err(PamOidcError::UrlParseError(summary)));
                }
                let warning = if plain {
                    Some(String::from_str(PLAIN_HTTP_WARNING))
                } else {
                    None
                };
                OidcStep::Discover(
                    DiscoveryRequest {
                        issuer_url: self.issuer_url().to_owned(),
                        timeout_secs: DISCOVERY_TIMEOUT_SECS,
                        warning,
                    },
                )
            },
        }
    }

    /// The step after discovery, given how discovery ended.
    pub fn request_token(
        &self,
        user: &str,
        pass: &str,
        discovery: Result<ProviderMetadata, String>,
    ) -> (step: OidcStep)
        ensures
            step@ == token_step(self@, user@, pass@, discovery_view(discovery)),
    {
        match discovery {
            Err(fault) => OidcStep::Done(Err(PamOidcError::DiscoveryError(fault))),
            Ok(metadata) => {
                if !self.issuer_is(&metadata.issuer) {
                    let summary = String::from_str("unexpected issuer URI `").concat(
                        metadata.issuer.as_str(),
                    ).concat("` (expected `").concat(self.issuer_url()).concat("`)");
                    return OidcStep::Done(Err(PamOidcError::DiscoveryError(summary)));
                }
                let auth_type = choose_auth_type(&metadata.token_endpoint_auth_methods);
                match metadata.token_endpoint {
                    None => OidcStep::Done(
                        Err(
                            PamOidcError::RequestTokenError(
                                TokenFailure::Other(String::from_str(NO_TOKEN_ENDPOINT)),
                            ),
                        ),
                    ),
                    Some(url) => OidcStep::RequestToken(
                        TokenRequest {
                            token_endpoint: url,
                            auth_type,
                            client_id: self.client_id().to_owned(),
                            client_secret: self.client_secret().to_owned(),
                            grant_type: String::from_str("password"),
                            username: user.to_owned(),
                            password: pass.to_owned(),
                            scope: String::from_str("openid"),
                            timeout_secs: TOKEN_TIMEOUT_SECS,
                        },
                    ),
                }
            },
        }
    }

    /// The outcome of the authentication, given how the token request ended.
    pub fn conclude(reply: Result<(), TokenFailure>) -> (r: Result<PamResultCode, PamOidcError>)
        ensures
            outcome_view(r) == token_outcome(token_view(reply)),
    {
        match reply {
            Ok(()) => Ok(PamResultCode::PAM_SUCCESS),
            Err(failure) => Err(PamOidcError::RequestTokenError(failure)),
        }
    }
}

/// Every outcome of the client belongs to the step that ends with it: the
/// only success is `PAM_SUCCESS` after the token request, a `UrlParseError`
/// comes before discovery and nothing else does, a `DiscoveryError` comes
/// after discovery, and a `RequestTokenError` comes after discovery or after
/// the token request.
pub proof fn lemma_client_outcomes(
    config: PamOidcConfigView,
    user: Seq<char>,
    pass: Seq<char>,
    event: OidcEventView,
)
    ensures
        authenticate_step(config, user, pass, event) is Discover ==> event is Start,
        authenticate_step(config, user, pass, event) is RequestToken ==> event is Discovery,
        authenticate_step(config, user, pass, event) matches OidcStepView::Done(Ok(code))
            ==> code == PamResultCode::PAM_SUCCESS && event is Token,
        authenticate_step(config, user, pass, event) matches OidcStepView::Done(Err(e)) ==> (e
            is UrlParseError && event is Start) || (e is DiscoveryError && event is Discovery) || (e
            is RequestTokenError && (event is Discovery || event is Token)),
{
}

/// A token request that the client hands out is the password grant for the
/// user it was asked about, with the scope `openid`, for the configured
/// client, and bound in time.
pub proof fn lemma_token_request(
    config: PamOidcConfigView,
    user: Seq<char>,
    pass: Seq<char>,
    event: OidcEventView,
)
    ensures
        authenticate_step(config, user, pass, event) matches OidcStepView::RequestToken(request)
            ==> request.is_password_grant(config, user, pass),
{
}

} // verus!
