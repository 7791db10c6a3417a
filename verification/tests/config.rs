use pam_oidc::config::{PamOidcConfig, PAM_OIDC_CONFIG};
use pam_oidc::constants::PamResultCode;
use pam_oidc::error::PamOidcError;

const FULL: &str = "client_id: rp\nclient_secret: s3cr3t\nissuer_url: https://idp.test\n";

fn some(s: &str) -> Option<String> {
    Some(s.to_string())
}

fn loaded(r: Result<PamOidcConfig, PamOidcError>) -> PamOidcConfig {
    match r {
        Ok(config) => config,
        Err(e) => panic!("no record was made: {}", e.to_string()),
    }
}

fn failure(r: Result<PamOidcConfig, PamOidcError>) -> PamOidcError {
    match r {
        Err(e) => e,
        Ok(_) => panic!("a record was made"),
    }
}

fn is_unmarshal_error(e: &PamOidcError, summary: &str) -> bool {
    matches!(e, PamOidcError::ConfigUnmarshalError(m) if m == summary)
}

#[test]
fn the_path_is_fixed() {
    assert_eq!(PAM_OIDC_CONFIG, "/etc/pam_oidc/config.yaml");
}

#[test]
fn loads_the_three_fields() {
    let config = loaded(PamOidcConfig::new(Ok(FULL.to_string())));
    assert_eq!(config.client_id(), "rp");
    assert_eq!(config.client_secret(), "s3cr3t");
    assert_eq!(config.issuer_url(), "https://idp.test");
    assert!(config.issuer_is(&"https://idp.test".to_string()));
    assert!(!config.issuer_is(&"https://idp.test/".to_string()));
}

#[test]
fn ignores_unknown_keys() {
    let text = "realm: [a, b]\nissuer_url: 'https://idp.test'\nextra:\n  nested: 1\nclient_secret: \"s3cr3t\"\nclient_id: rp\n";
    let config = loaded(PamOidcConfig::from_text(text));
    assert_eq!(config.client_id(), "rp");
    assert_eq!(config.client_secret(), "s3cr3t");
    assert_eq!(config.issuer_url(), "https://idp.test");
}

#[test]
fn missing_file_is_a_retrieval_error() {
    let reason = "No such file or directory (os error 2)";
    let e = failure(PamOidcConfig::new(Err(reason.to_string())));
    assert!(matches!(&e, PamOidcError::ConfigRetrievalError(m) if m == reason));
    assert_eq!(e.result_code(), PamResultCode::PAM_OPEN_ERR);
    assert_eq!(
        e.to_string(),
        "config retrieve error: No such file or directory (os error 2)"
    );
}

#[test]
fn missing_fields_are_an_unmarshal_error() {
    let e = failure(PamOidcConfig::new(Ok("client_id: rp".to_string())));
    assert!(is_unmarshal_error(&e, "missing field `client_secret`"));
    assert_eq!(e.result_code(), PamResultCode::PAM_ABORT);
}

#[test]
fn the_first_missing_field_is_named() {
    let e = failure(PamOidcConfig::from_text("issuer_url: https://idp.test\n"));
    assert!(is_unmarshal_error(&e, "missing field `client_id`"));
    let e = failure(PamOidcConfig::from_text("client_id: rp\nclient_secret: s3cr3t\n"));
    assert!(is_unmarshal_error(&e, "missing field `issuer_url`"));
}

#[test]
fn empty_fields_are_rejected() {
    let text = "client_id: rp\nclient_secret: ''\nissuer_url: https://idp.test\n";
    let e = failure(PamOidcConfig::from_text(text));
    assert!(is_unmarshal_error(&e, "empty field `client_secret`"));
    assert_eq!(e.result_code(), PamResultCode::PAM_ABORT);
}

#[test]
fn an_empty_file_holds_no_field() {
    let e = failure(PamOidcConfig::from_text(""));
    assert!(is_unmarshal_error(&e, "missing field `client_id`"));
}

#[test]
fn a_field_that_is_no_text_is_missing() {
    let text = "client_id: [rp]\nclient_secret: s3cr3t\nissuer_url: https://idp.test\n";
    let e = failure(PamOidcConfig::from_text(text));
    assert!(is_unmarshal_error(&e, "missing field `client_id`"));
}

#[test]
fn a_document_that_is_no_mapping_holds_no_field() {
    let e = failure(PamOidcConfig::from_text("- client_id\n- rp\n"));
    assert!(is_unmarshal_error(&e, "missing field `client_id`"));
}

#[test]
fn text_that_is_no_yaml_is_an_unmarshal_error() {
    let e = failure(PamOidcConfig::from_text("client_id: [rp\n"));
    match &e {
        PamOidcError::ConfigUnmarshalError(m) => {
            assert!(!m.is_empty());
            assert!(!m.starts_with("missing field"));
        }
        other => panic!("unexpected: {:?}", other),
    }
    assert_eq!(e.result_code(), PamResultCode::PAM_ABORT);
}

#[test]
fn the_parsers_account_is_the_summary() {
    let text = "client_id: rp\nclient_id: again\n";
    let expected = serde_yaml::from_str::<serde_yaml::Value>(text).unwrap_err().to_string();
    let e = failure(PamOidcConfig::from_text(text));
    assert!(is_unmarshal_error(&e, &expected));
}

#[test]
fn from_fields_takes_what_is_there() {
    let config =
        loaded(PamOidcConfig::from_fields(some("rp"), some("s3cr3t"), some("https://idp.test")));
    assert_eq!(config.client_id(), "rp");
    assert_eq!(config.client_secret(), "s3cr3t");
    assert_eq!(config.issuer_url(), "https://idp.test");
}

#[test]
fn from_fields_names_what_is_wrong() {
    let e = failure(PamOidcConfig::from_fields(None, None, None));
    assert!(is_unmarshal_error(&e, "missing field `client_id`"));
    let e = failure(PamOidcConfig::from_fields(some(""), None, None));
    assert!(is_unmarshal_error(&e, "empty field `client_id`"));
    let e = failure(PamOidcConfig::from_fields(some("rp"), some("s"), some("")));
    assert!(is_unmarshal_error(&e, "empty field `issuer_url`"));
}

#[test]
fn tags_are_taken_off() {
    let text = "!relying-party\nclient_id: !name rp\nclient_secret: s3cr3t\nissuer_url: https://idp.test\n";
    let config = loaded(PamOidcConfig::from_text(text));
    assert_eq!(config.client_id(), "rp");
    assert_eq!(config.issuer_url(), "https://idp.test");
}

#[test]
fn a_number_is_no_text() {
    let text = "client_id: 12345\nclient_secret: s3cr3t\nissuer_url: https://idp.test\n";
    let e = failure(PamOidcConfig::from_text(text));
    assert!(is_unmarshal_error(&e, "missing field `client_id`"));
    let text = "client_id: '12345'\nclient_secret: s3cr3t\nissuer_url: https://idp.test\n";
    assert_eq!(loaded(PamOidcConfig::from_text(text)).client_id(), "12345");
}

#[test]
fn a_key_that_is_no_text_is_passed_over() {
    let text = "1: one\nclient_id: rp\nclient_secret: s3cr3t\nissuer_url: https://idp.test\n";
    assert_eq!(loaded(PamOidcConfig::from_text(text)).client_id(), "rp");
}
