use pam_oidc::config::{PamOidcConfig, PAM_OIDC_CONFIG};
use pam_oidc::constants::PamResultCode;
use pam_oidc::error::{PamOidcError, TokenFailure};
use pam_oidc::host::{HostAction, HostEvent, Invocation, NO_AUTHTOK, UNEXPECTED_EVENT};
use pam_oidc::oidc::{AuthType, OidcStep, ProviderMetadata};
use pam_oidc::PamOidc;

const CONFIG: &str = "client_id: rp\nclient_secret: s3cr3t\nissuer_url: https://idp.test\n";

fn invoked() -> HostEvent {
    HostEvent::Invoked { args: vec![b"debug".to_vec()], flags: 0x8000 }
}

fn discovered() -> HostEvent {
    HostEvent::Discovery(Ok(ProviderMetadata {
        issuer: "https://idp.test".to_string(),
        token_endpoint: Some("https://idp.test/token".to_string()),
        token_endpoint_auth_methods: None,
    }))
}

/// Takes the steps up to the reading of the configuration file.
fn with_credentials(invocation: &mut Invocation, user: &str, token: &[u8]) {
    let action = PamOidc::sm_authenticate(invocation, invoked());
    assert!(matches!(action, HostAction::GetUser));
    let action = PamOidc::sm_authenticate(invocation, HostEvent::User(Ok(user.to_string())));
    assert!(matches!(action, HostAction::GetAuthTok));
    let action =
        PamOidc::sm_authenticate(invocation, HostEvent::AuthTok(Ok(Some(token.to_vec()))));
    assert!(matches!(action, HostAction::ReadConfig { path } if path == PAM_OIDC_CONFIG));
}

/// Takes the steps up to the sending of the token request.
fn with_token_request(invocation: &mut Invocation, user: &str, token: &[u8]) {
    with_credentials(invocation, user, token);
    let action =
        PamOidc::sm_authenticate(invocation, HostEvent::ConfigFile(Ok(CONFIG.to_string())));
    match action {
        HostAction::Discover(request) => {
            assert_eq!(request.issuer_url, "https://idp.test");
            assert_eq!(request.warning, None);
        }
        _ => panic!("unexpected step"),
    }
    match PamOidc::sm_authenticate(invocation, discovered()) {
        HostAction::RequestToken(request) => {
            assert_eq!(request.token_endpoint, "https://idp.test/token");
            assert_eq!(request.grant_type, "password");
            assert_eq!(request.username, user);
            assert_eq!(request.password.as_bytes(), token);
            assert_eq!(request.scope, "openid");
            assert_eq!(request.client_id, "rp");
            assert_eq!(request.client_secret, "s3cr3t");
            assert_eq!(request.auth_type, AuthType::BasicAuth);
        }
        _ => panic!("unexpected step"),
    }
    assert!(matches!(invocation, Invocation::AwaitToken));
}

fn returned(action: HostAction) -> (PamResultCode, Option<String>) {
    match action {
        HostAction::Return { code, diagnostic } => (code, diagnostic),
        _ => panic!("unexpected step"),
    }
}

#[test]
fn success() {
    let mut invocation = Invocation::new();
    with_token_request(&mut invocation, "alice", b"open sesame");
    let action = PamOidc::sm_authenticate(&mut invocation, HostEvent::Token(Ok(())));
    let (code, diagnostic) = returned(action);
    assert_eq!(code, PamResultCode::PAM_SUCCESS);
    assert_eq!(code.code(), 0);
    assert_eq!(diagnostic, None);
    assert!(invocation.is_finished());
}

#[test]
fn wrong_password() {
    let mut invocation = Invocation::new();
    with_token_request(&mut invocation, "alice", b"guess");
    let refusal = TokenFailure::ServerResponse("invalid_grant".to_string());
    let action = PamOidc::sm_authenticate(&mut invocation, HostEvent::Token(Err(refusal)));
    let (code, diagnostic) = returned(action);
    assert_eq!(code, PamResultCode::PAM_AUTH_ERR);
    assert_eq!(
        diagnostic.unwrap(),
        "unable to authorize user: request token error (server response): invalid_grant"
    );
    assert!(invocation.is_finished());
}

#[test]
fn provider_down() {
    let mut invocation = Invocation::new();
    with_credentials(&mut invocation, "alice", b"open sesame");
    let action =
        PamOidc::sm_authenticate(&mut invocation, HostEvent::ConfigFile(Ok(CONFIG.to_string())));
    assert!(matches!(action, HostAction::Discover(_)));
    let refused = HostEvent::Discovery(Err("Request failed: connection refused".to_string()));
    let (code, diagnostic) = returned(PamOidc::sm_authenticate(&mut invocation, refused));
    assert_eq!(code, PamResultCode::PAM_AUTHINFO_UNAVAIL);
    assert_eq!(
        diagnostic.unwrap(),
        "unable to authorize user: discovery error: Request failed: connection refused"
    );
    assert!(invocation.is_finished());
}

#[test]
fn missing_config() {
    let mut invocation = Invocation::new();
    with_credentials(&mut invocation, "alice", b"open sesame");
    let missing = HostEvent::ConfigFile(Err("No such file or directory (os error 2)".to_string()));
    let (code, diagnostic) = returned(PamOidc::sm_authenticate(&mut invocation, missing));
    assert_eq!(code, PamResultCode::PAM_OPEN_ERR);
    assert_eq!(
        diagnostic.unwrap(),
        "unable to read in config: config retrieve error: No such file or directory (os error 2)"
    );
    assert!(invocation.is_finished());
}

#[test]
fn malformed_config() {
    let mut invocation = Invocation::new();
    with_credentials(&mut invocation, "alice", b"open sesame");
    let file = HostEvent::ConfigFile(Ok("client_id: rp".to_string()));
    let (code, diagnostic) = returned(PamOidc::sm_authenticate(&mut invocation, file));
    assert_eq!(code, PamResultCode::PAM_ABORT);
    assert_eq!(
        diagnostic.unwrap(),
        "unable to read in config: config unmarshal error: missing field `client_secret`"
    );
}

#[test]
fn non_utf8_password() {
    let mut invocation = Invocation::new();
    assert!(matches!(PamOidc::sm_authenticate(&mut invocation, invoked()), HostAction::GetUser));
    let user = HostEvent::User(Ok("alice".to_string()));
    assert!(matches!(PamOidc::sm_authenticate(&mut invocation, user), HostAction::GetAuthTok));
    let token = HostEvent::AuthTok(Ok(Some(vec![0x6F, 0x70, 0xFF, 0x6E])));
    let (code, diagnostic) = returned(PamOidc::sm_authenticate(&mut invocation, token));
    assert_eq!(code, PamResultCode::PAM_AUTHTOK_ERR);
    assert!(diagnostic.unwrap().starts_with("unable to retrieve password: utf8error: "));
    assert!(invocation.is_finished());
}

#[test]
fn missing_user_aborts() {
    let mut invocation = Invocation::new();
    PamOidc::sm_authenticate(&mut invocation, invoked());
    let refused = HostEvent::User(Err(PamResultCode::PAM_CONV_ERR));
    let (code, diagnostic) = returned(PamOidc::sm_authenticate(&mut invocation, refused));
    assert_eq!(code, PamResultCode::PAM_ABORT);
    assert_eq!(diagnostic.unwrap(), "unable to retrieve user: PAM_CONV_ERR");
}

#[test]
fn missing_authtok_is_a_token_error() {
    let mut invocation = Invocation::new();
    PamOidc::sm_authenticate(&mut invocation, invoked());
    PamOidc::sm_authenticate(&mut invocation, HostEvent::User(Ok("alice".to_string())));
    let (code, diagnostic) =
        returned(PamOidc::sm_authenticate(&mut invocation, HostEvent::AuthTok(Ok(None))));
    assert_eq!(code, PamResultCode::PAM_AUTHTOK_ERR);
    assert_eq!(diagnostic.unwrap(), format!("unable to retrieve password: {}", NO_AUTHTOK));

    let mut invocation = Invocation::new();
    PamOidc::sm_authenticate(&mut invocation, invoked());
    PamOidc::sm_authenticate(&mut invocation, HostEvent::User(Ok("alice".to_string())));
    let refused = HostEvent::AuthTok(Err(PamResultCode::PAM_BAD_ITEM));
    let (code, diagnostic) = returned(PamOidc::sm_authenticate(&mut invocation, refused));
    assert_eq!(code, PamResultCode::PAM_AUTHTOK_ERR);
    assert_eq!(diagnostic.unwrap(), "unable to retrieve password: PAM_BAD_ITEM");
}

#[test]
fn an_issuer_that_is_no_url_aborts() {
    let mut invocation = Invocation::new();
    with_credentials(&mut invocation, "alice", b"open sesame");
    let file = "client_id: rp\nclient_secret: s3cr3t\nissuer_url: idp.test\n".to_string();
    let (code, diagnostic) =
        returned(PamOidc::sm_authenticate(&mut invocation, HostEvent::ConfigFile(Ok(file))));
    assert_eq!(code, PamResultCode::PAM_ABORT);
    assert_eq!(
        diagnostic.unwrap(),
        "unable to authorize user: url parse error: relative URL without a base"
    );
}

#[test]
fn the_diagnostic_never_holds_the_password() {
    let mut invocation = Invocation::new();
    with_token_request(&mut invocation, "alice", b"open sesame");
    let refusal = TokenFailure::ServerResponse("invalid_grant".to_string());
    let action = PamOidc::sm_authenticate(&mut invocation, HostEvent::Token(Err(refusal)));
    let (_, diagnostic) = returned(action);
    assert!(!diagnostic.unwrap().contains("open sesame"));

    let mut invocation = Invocation::new();
    with_credentials(&mut invocation, "alice", b"open sesame");
    let file = HostEvent::ConfigFile(Ok("client_id: rp".to_string()));
    let (_, diagnostic) = returned(PamOidc::sm_authenticate(&mut invocation, file));
    assert!(!diagnostic.unwrap().contains("open sesame"));
}

#[test]
fn an_event_out_of_turn_aborts() {
    let mut invocation = Invocation::new();
    let (code, diagnostic) =
        returned(PamOidc::sm_authenticate(&mut invocation, HostEvent::Token(Ok(()))));
    assert_eq!(code, PamResultCode::PAM_ABORT);
    assert_eq!(diagnostic.unwrap(), UNEXPECTED_EVENT);
    assert!(invocation.is_finished());

    let (code, _) = returned(PamOidc::sm_authenticate(&mut invocation, invoked()));
    assert_eq!(code, PamResultCode::PAM_ABORT);
}

#[test]
fn step_by_value_agrees_with_the_entry_point() {
    let (next, action) = Invocation::new().step(invoked());
    assert!(matches!(next, Invocation::AwaitUser));
    assert!(matches!(action, HostAction::GetUser));
    let (next, action) = next.step(HostEvent::User(Ok("alice".to_string())));
    assert!(matches!(&next, Invocation::AwaitAuthTok { user } if user == "alice"));
    assert!(matches!(action, HostAction::GetAuthTok));
}

#[test]
fn setcred_and_chauthtok_are_ignored() {
    assert_eq!(PamOidc::sm_setcred(Vec::new(), 0), PamResultCode::PAM_IGNORE);
    assert_eq!(PamOidc::sm_setcred(vec![b"use_first_pass".to_vec()], 0x0002), PamResultCode::PAM_IGNORE);
    assert_eq!(PamOidc::sm_chauthtok(Vec::new(), 0), PamResultCode::PAM_IGNORE);
    assert_eq!(PamOidc::sm_chauthtok(vec![vec![0xFF]], 0x8020), PamResultCode::PAM_IGNORE);
    assert_eq!(PamOidc::sm_setcred(Vec::new(), u32::MAX).code(), 25);
}

#[test]
fn sessions_authenticate_once_more() {
    let mut invocation = Invocation::new();
    assert!(matches!(PamOidc::sm_open_session(&mut invocation, invoked()), HostAction::GetUser));
    let refused = HostEvent::User(Err(PamResultCode::PAM_SYSTEM_ERR));
    let (code, _) = returned(PamOidc::sm_open_session(&mut invocation, refused));
    assert_eq!(code, PamResultCode::PAM_ABORT);

    let mut invocation = Invocation::new();
    assert!(matches!(PamOidc::sm_close_session(&mut invocation, invoked()), HostAction::GetUser));
    let user = HostEvent::User(Ok("alice".to_string()));
    assert!(matches!(PamOidc::sm_close_session(&mut invocation, user), HostAction::GetAuthTok));
}

#[test]
fn finish_hands_the_outcome_back() {
    let (next, action) = Invocation::finish(Ok(PamResultCode::PAM_SUCCESS));
    assert!(next.is_finished());
    assert_eq!(returned(action), (PamResultCode::PAM_SUCCESS, None));

    let (_, action) = Invocation::finish(Ok(PamResultCode::PAM_MAXTRIES));
    let (code, diagnostic) = returned(action);
    assert_eq!(code, PamResultCode::PAM_MAXTRIES);
    assert_eq!(diagnostic.unwrap(), "unsuccessful authentication: PAM_MAXTRIES");

    let failure = PamOidcError::DiscoveryError("Request failed".to_string());
    let (next, action) = Invocation::finish(Err(failure));
    assert!(next.is_finished());
    let (code, diagnostic) = returned(action);
    assert_eq!(code, PamResultCode::PAM_AUTHINFO_UNAVAIL);
    assert_eq!(diagnostic.unwrap(), "unable to authorize user: discovery error: Request failed");
}

#[test]
fn follow_client_keeps_the_credentials_until_the_token_request() {
    let config = || match PamOidcConfig::from_text(CONFIG) {
        Ok(config) => config,
        Err(e) => panic!("no record was made: {}", e.to_string()),
    };
    let user = || "alice".to_string();
    let pass = || "open sesame".to_string();

    let step = config().start_discovery(Ok("https".to_string()));
    let (next, action) = Invocation::follow_client(config(), user(), pass(), step);
    assert!(matches!(action, HostAction::Discover(_)));
    assert!(matches!(&next, Invocation::AwaitDiscovery { user, pass, .. }
        if user == "alice" && pass == "open sesame"));

    let document = ProviderMetadata {
        issuer: "https://idp.test".to_string(),
        token_endpoint: Some("https://idp.test/token".to_string()),
        token_endpoint_auth_methods: None,
    };
    let step = config().request_token("alice", "open sesame", Ok(document));
    let (next, action) = Invocation::follow_client(config(), user(), pass(), step);
    assert!(matches!(action, HostAction::RequestToken(r) if r.password == "open sesame"));
    assert!(matches!(next, Invocation::AwaitToken));

    let step = OidcStep::Done(PamOidcConfig::conclude(Ok(())));
    let (next, action) = Invocation::follow_client(config(), user(), pass(), step);
    assert!(next.is_finished());
    assert_eq!(returned(action), (PamResultCode::PAM_SUCCESS, None));
}
