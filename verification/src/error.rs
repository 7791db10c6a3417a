//! The failures of an authentication call and the result code that each one
//! hands back to the host.

use crate::constants::PamResultCode;
use vstd::prelude::*;
use vstd::std_specs::convert::{FromSpecImpl, IntoSpec};
use vstd::string::StringExecFns;

verus! {

/// Why a token request did not yield a token. Each variant carries a summary
/// that is fit for a log line; none carries the body of a response.
#[derive(Debug)]
pub enum TokenFailure {
    /// The provider answered with an error response; the summary names it.
    ServerResponse(String),
    /// The provider's answer could not be read.
    Parse(String),
    /// The request did not complete: the provider was not reached, or the
    /// bounded wait ran out.
    Request(String),
    /// Anything else, such as a provider that names no token endpoint.
    Other(String),
}

/// The model of a `TokenFailure`.
pub enum TokenFailureView {
    ServerResponse(Seq<char>),
    Parse(Seq<char>),
    Request(Seq<char>),
    Other(Seq<char>),
}

impl View for TokenFailure {
    type V = TokenFailureView;

    open spec fn view(&self) -> TokenFailureView {
        match self {
            TokenFailure::ServerResponse(s) => TokenFailureView::ServerResponse(s@),
            TokenFailure::Parse(s) => TokenFailureView::Parse(s@),
            TokenFailure::Request(s) => TokenFailureView::Request(s@),
            TokenFailure::Other(s) => TokenFailureView::Other(s@),
        }
    }
}

impl TokenFailureView {
    /// The line that describes the failure.
    pub open spec fn text(self) -> Seq<char> {
        match self {
            TokenFailureView::ServerResponse(s) => "request token error (server response): "@ + s,
            TokenFailureView::Parse(s) => "request token error (parse): "@ + s,
            TokenFailureView::Request(s) => "request token error (request): "@ + s,
            TokenFailureView::Other(s) => "request token error (other): "@ + s,
        }
    }
}

/// A failure of an authentication call. Every variant carries a summary of
/// what went wrong; the variant alone decides the result code.
#[derive(Debug)]
pub enum PamOidcError {
    /// The configured issuer is not a well-formed URL.
    UrlParseError(String),
    /// The authentication token is not valid UTF-8.
    Utf8Error(String),
    /// The token endpoint refused the credentials, or the request failed.
    RequestTokenError(TokenFailure),
    /// The provider's metadata could not be had.
    DiscoveryError(String),
    /// The configuration file could not be read.
    ConfigRetrievalError(String),
    /// The configuration file does not hold a configuration.
    ConfigUnmarshalError(String),
    /// An invariant of the module was violated.
    Internal(String),
}

/// The model of a `PamOidcError`.
pub enum PamOidcErrorView {
    UrlParseError(Seq<char>),
    Utf8Error(Seq<char>),
    RequestTokenError(TokenFailureView),
    DiscoveryError(Seq<char>),
    ConfigRetrievalError(Seq<char>),
    ConfigUnmarshalError(Seq<char>),
    Internal(Seq<char>),
}

impl View for PamOidcError {
    type V = PamOidcErrorView;

    open spec fn view(&self) -> PamOidcErrorView {
        match self {
            PamOidcError::UrlParseError(s) => PamOidcErrorView::UrlParseError(s@),
            PamOidcError::Utf8Error(s) => PamOidcErrorView::Utf8Error(s@),
            PamOidcError::RequestTokenError(f) => PamOidcErrorView::RequestTokenError(f@),
            PamOidcError::DiscoveryError(s) => PamOidcErrorView::DiscoveryError(s@),
            PamOidcError::ConfigRetrievalError(s) => PamOidcErrorView::ConfigRetrievalError(s@),
            PamOidcError::ConfigUnmarshalError(s) => PamOidcErrorView::ConfigUnmarshalError(s@),
            PamOidcError::Internal(s) => PamOidcErrorView::Internal(s@),
        }
    }
}

impl PamOidcErrorView {
    /// The result code that the failure hands back to the host: a refused
    /// credential is an authentication error, an unreachable provider makes
    /// the authentication information unavailable, an unreadable
    /// configuration file is an open error, a token that is no text is a token
    /// error, and every misconfiguration or violated invariant aborts.
    pub open spec fn result_code(self) -> PamResultCode {
        match self {
            PamOidcErrorView::Internal(_) => PamResultCode::PAM_ABORT,
            PamOidcErrorView::UrlParseError(_) => PamResultCode::PAM_ABORT,
            PamOidcErrorView::ConfigRetrievalError(_) => PamResultCode::PAM_OPEN_ERR,
            PamOidcErrorView::RequestTokenError(_) => PamResultCode::PAM_AUTH_ERR,
            PamOidcErrorView::ConfigUnmarshalError(_) => PamResultCode::PAM_ABORT,
            PamOidcErrorView::DiscoveryError(_) => PamResultCode::PAM_AUTHINFO_UNAVAIL,
            PamOidcErrorView::Utf8Error(_) => PamResultCode::PAM_AUTHTOK_ERR,
        }
    }

    /// The line that describes the failure: the kind, then the summary.
    pub open spec fn text(self) -> Seq<char> {
        match self {
            PamOidcErrorView::UrlParseError(s) => "url parse error: "@ + s,
            PamOidcErrorView::RequestTokenError(f) => f.text(),
            PamOidcErrorView::Internal(s) => s,
            PamOidcErrorView::ConfigRetrievalError(s) => "config retrieve error: "@ + s,
            PamOidcErrorView::ConfigUnmarshalError(s) => "config unmarshal error: "@ + s,
            PamOidcErrorView::DiscoveryError(s) => "discovery error: "@ + s,
            PamOidcErrorView::Utf8Error(s) => "utf8error: "@ + s,
        }
    }
}

/// The model of a result whose failure is a `PamOidcError`.
pub open spec fn outcome_view<T>(r: Result<T, PamOidcError>) -> Result<T, PamOidcErrorView> {
    match r {
        Ok(v) => Ok(v),
        Err(e) => Err(e@),
    }
}

/// The model of a text that may have failed to come about.
pub open spec fn text_outcome_view(r: Result<String, PamOidcError>) -> Result<
    Seq<char>,
    PamOidcErrorView,
> {
    match r {
        Ok(s) => Ok(s@),
        Err(e) => Err(e@),
    }
}

/// `prefix` followed by `detail`.
fn prefixed(prefix: &str, detail: &str) -> (r: String)
    ensures
        r@ == prefix@ + detail@,
{
    String::from_str(prefix).concat(detail)
}

impl TokenFailure {
    /// The line that describes the failure.
    pub fn to_string(&self) -> (r: String)
        ensures
            r@ == self@.text(),
    {
        match self {
            TokenFailure::ServerResponse(s) => prefixed(
                "request token error (server response): ",
                s.as_str(),
            ),
            TokenFailure::Parse(s) => prefixed("request token error (parse): ", s.as_str()),
            TokenFailure::Request(s) => prefixed("request token error (request): ", s.as_str()),
            TokenFailure::Other(s) => prefixed("request token error (other): ", s.as_str()),
        }
    }
}

impl PamOidcError {
    /// Turns the failure of `result` into a `PamOidcError` and leaves a
    /// success as it is.
    pub fn wrap_err<T, E>(result: Result<T, E>) -> (r: Result<T, PamOidcError>) where
        E: core::fmt::Debug + Into<PamOidcError>,
        ensures
            r is Ok <==> result is Ok,
            result matches Ok(v) ==> r->Ok_0 == v,
            result matches Err(e) ==> (E::obeys_into_spec() ==> r->Err_0 == e.into_spec()),
    {
        match result {
            Ok(res) => Ok(res),
            Err(e) => Err(e.into()),
        }
    }

    /// An `Internal` failure with the summary `msg`.
    pub fn new_internal(msg: String) -> (r: Self)
        ensures
            r == PamOidcError::Internal(msg),
    {
        Self::Internal(msg)
    }

    /// The result code that the failure hands back to the host.
    pub fn result_code(&self) -> (r: PamResultCode)
        ensures
            r == self@.result_code(),
    {
        match self {
            PamOidcError::Internal(_) => PamResultCode::PAM_ABORT,
            PamOidcError::UrlParseError(_) => PamResultCode::PAM_ABORT,
            PamOidcError::ConfigRetrievalError(_) => PamResultCode::PAM_OPEN_ERR,
            PamOidcError::RequestTokenError(_) => PamResultCode::PAM_AUTH_ERR,
            PamOidcError::ConfigUnmarshalError(_) => PamResultCode::PAM_ABORT,
            PamOidcError::DiscoveryError(_) => PamResultCode::PAM_AUTHINFO_UNAVAIL,
            PamOidcError::Utf8Error(_) => PamResultCode::PAM_AUTHTOK_ERR,
        }
    }

    /// The line that describes the failure.
    pub fn to_string(&self) -> (r: String)
        ensures
            r@ == self@.text(),
    {
        match self {
            PamOidcError::UrlParseError(s) => prefixed("url parse error: ", s.as_str()),
            PamOidcError::RequestTokenError(f) => f.to_string(),
            PamOidcError::Internal(s) => s.clone(),
            PamOidcError::ConfigRetrievalError(s) => prefixed("config retrieve error: ", s.as_str()),
            PamOidcError::ConfigUnmarshalError(s) => prefixed(
                "config unmarshal error: ",
                s.as_str(),
            ),
            PamOidcError::DiscoveryError(s) => prefixed("discovery error: ", s.as_str()),
            PamOidcError::Utf8Error(s) => prefixed("utf8error: ", s.as_str()),
        }
    }
}

impl From<PamOidcError> for PamResultCode {
    fn from(value: PamOidcError) -> (r: PamResultCode) {
        value.result_code()
    }
}

impl FromSpecImpl<PamOidcError> for PamResultCode {
    open spec fn obeys_from_spec() -> bool {
        true
    }

    open spec fn from_spec(value: PamOidcError) -> PamResultCode {
        value@.result_code()
    }
}

/// A failure of a token request is a failure of the authentication call.
impl From<TokenFailure> for PamOidcError {
    fn from(value: TokenFailure) -> (r: PamOidcError) {
        PamOidcError::RequestTokenError(value)
    }
}

impl FromSpecImpl<TokenFailure> for PamOidcError {
    open spec fn obeys_from_spec() -> bool {
        true
    }

    open spec fn from_spec(value: TokenFailure) -> PamOidcError {
        PamOidcError::RequestTokenError(value)
    }
}

/// No failure is mistaken for a success, and every failure hands back one of
/// the result codes of an authentication call.
pub proof fn lemma_failure_codes(e: PamOidcErrorView)
    ensures
        e.result_code() != PamResultCode::PAM_SUCCESS,
        e.result_code().is_authentication_result(),
{
}

} // verus!
