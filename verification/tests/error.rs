use pam_oidc::constants::PamResultCode;
use pam_oidc::error::{PamOidcError, TokenFailure};

fn text(s: &str) -> String {
    s.to_string()
}

#[test]
fn every_kind_maps_to_its_result_code() {
    assert_eq!(
        PamOidcError::RequestTokenError(TokenFailure::Other(text("x"))).result_code(),
        PamResultCode::PAM_AUTH_ERR
    );
    assert_eq!(
        PamOidcError::DiscoveryError(text("x")).result_code(),
        PamResultCode::PAM_AUTHINFO_UNAVAIL
    );
    assert_eq!(
        PamOidcError::ConfigRetrievalError(text("x")).result_code(),
        PamResultCode::PAM_OPEN_ERR
    );
    assert_eq!(PamOidcError::Utf8Error(text("x")).result_code(), PamResultCode::PAM_AUTHTOK_ERR);
    assert_eq!(PamOidcError::UrlParseError(text("x")).result_code(), PamResultCode::PAM_ABORT);
    assert_eq!(
        PamOidcError::ConfigUnmarshalError(text("x")).result_code(),
        PamResultCode::PAM_ABORT
    );
    assert_eq!(PamOidcError::Internal(text("x")).result_code(), PamResultCode::PAM_ABORT);
}

#[test]
fn into_gives_the_result_code() {
    let code: PamResultCode = PamOidcError::DiscoveryError(text("down")).into();
    assert_eq!(code, PamResultCode::PAM_AUTHINFO_UNAVAIL);
    let code = PamResultCode::from(PamOidcError::ConfigRetrievalError(text("gone")));
    assert_eq!(code, PamResultCode::PAM_OPEN_ERR);
}

#[test]
fn to_string_names_the_kind_and_the_summary() {
    assert_eq!(
        PamOidcError::UrlParseError(text("empty host")).to_string(),
        "url parse error: empty host"
    );
    assert_eq!(PamOidcError::Utf8Error(text("bad byte")).to_string(), "utf8error: bad byte");
    assert_eq!(
        PamOidcError::DiscoveryError(text("Request failed")).to_string(),
        "discovery error: Request failed"
    );
    assert_eq!(
        PamOidcError::ConfigRetrievalError(text("not found")).to_string(),
        "config retrieve error: not found"
    );
    assert_eq!(
        PamOidcError::ConfigUnmarshalError(text("missing field `x`")).to_string(),
        "config unmarshal error: missing field `x`"
    );
    assert_eq!(PamOidcError::Internal(text("broken")).to_string(), "broken");
}

#[test]
fn to_string_tells_the_token_failures_apart() {
    let line = |f: TokenFailure| PamOidcError::RequestTokenError(f).to_string();
    assert_eq!(
        line(TokenFailure::ServerResponse(text("invalid_grant"))),
        "request token error (server response): invalid_grant"
    );
    assert_eq!(
        line(TokenFailure::Parse(text("expected value"))),
        "request token error (parse): expected value"
    );
    assert_eq!(
        line(TokenFailure::Request(text("timed out"))),
        "request token error (request): timed out"
    );
    assert_eq!(line(TokenFailure::Other(text("odd"))), "request token error (other): odd");
    assert_eq!(
        TokenFailure::Request(text("timed out")).to_string(),
        "request token error (request): timed out"
    );
}

#[test]
fn new_internal_keeps_the_message() {
    let e = PamOidcError::new_internal(text("broken"));
    assert!(matches!(&e, PamOidcError::Internal(m) if m == "broken"));
    assert_eq!(e.result_code(), PamResultCode::PAM_ABORT);
}

#[test]
fn wrap_err_leaves_a_success_alone() {
    let r: Result<u32, TokenFailure> = Ok(7);
    assert!(matches!(PamOidcError::wrap_err(r), Ok(7)));
}

#[test]
fn wrap_err_converts_a_failure() {
    let r: Result<u32, TokenFailure> = Err(TokenFailure::ServerResponse(text("invalid_grant")));
    match PamOidcError::wrap_err(r) {
        Err(PamOidcError::RequestTokenError(TokenFailure::ServerResponse(m))) => {
            assert_eq!(m, "invalid_grant")
        }
        other => panic!("unexpected: {:?}", other),
    }
    let r: Result<(), PamOidcError> = Err(PamOidcError::Internal(text("kept")));
    assert!(matches!(PamOidcError::wrap_err(r), Err(PamOidcError::Internal(m)) if m == "kept"));
}
