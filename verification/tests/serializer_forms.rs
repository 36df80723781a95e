use graph_oauth::app_config::AppConfig;
use graph_oauth::authorization_code_certificate_credential::AuthorizationCodeCertificateCredential;
use graph_oauth::client_secret_credential::ClientSecretCredential;
use graph_oauth::error::{IdentityError, OAuthParameter};
use graph_oauth::executor::{serialize, Credential};
use graph_oauth::grants::{
    AuthorizationCodeCredential, DeviceCodeCredential, InteractiveCredential,
    RefreshTokenCredential,
};
use graph_oauth::web_view::WebViewOptions;

fn missing(p: OAuthParameter) -> IdentityError {
    IdentityError::MissingRequiredParameter(p)
}

#[test]
fn client_secret_form_holds_grant_type_and_scope_only() {
    let credential = ClientSecretCredential::new("client-id", "top-secret");
    let form = credential.form_urlencode().unwrap();
    assert_eq!(form.len(), 2);
    assert_eq!(form.get("grant_type").unwrap().as_str(), "client_credentials");
    assert_eq!(
        form.get("scope").unwrap().as_str(),
        "https://graph.microsoft.com/.default"
    );
    assert!(!form.contains_key("client_id"));
    assert!(!form.contains_key("client_secret"));
}

#[test]
fn client_secret_credentials_travel_via_basic_auth() {
    let credential = ClientSecretCredential::new("client-id", "top-secret");
    let (user, secret) = credential.basic_auth().unwrap();
    assert_eq!(user.as_str(), "client-id");
    assert_eq!(secret.as_str(), "top-secret");
}

#[test]
fn every_variant_rejects_an_empty_client_id() {
    let config = AppConfig::new_with_client_id("");
    let cases: Vec<Credential> = vec![
        Credential::ClientSecret(ClientSecretCredential::new("", "secret")),
        Credential::AuthorizationCode(AuthorizationCodeCredential::new(
            AppConfig::new_with_client_id(""),
            "code".to_string(),
            "https://example.com".to_string(),
        )),
        Credential::AuthorizationCodeCertificate(AuthorizationCodeCertificateCredential::new(
            "",
            "code",
            "assertion",
            None,
        )),
        Credential::RefreshToken(RefreshTokenCredential::new(
            AppConfig::new_with_client_id(""),
            "refresh".to_string(),
        )),
        Credential::DeviceCode(DeviceCodeCredential::new(
            AppConfig::new_with_client_id(""),
            "device".to_string(),
            5,
            900,
        )),
        Credential::Interactive(InteractiveCredential::new(
            config,
            "https://example.com".to_string(),
            WebViewOptions::default(),
        )),
    ];
    for credential in cases.iter() {
        assert_eq!(
            serialize(credential).unwrap_err(),
            missing(OAuthParameter::ClientId)
        );
    }
}

#[test]
fn nil_uuid_client_id_counts_as_missing() {
    let credential = ClientSecretCredential::new(
        "00000000-0000-0000-0000-000000000000",
        "secret",
    );
    assert_eq!(
        credential.form_urlencode().unwrap_err(),
        missing(OAuthParameter::ClientId)
    );
}

#[test]
fn client_secret_must_not_be_blank() {
    let credential = ClientSecretCredential::new("client-id", "   ");
    assert_eq!(
        credential.form_urlencode().unwrap_err(),
        missing(OAuthParameter::ClientSecret)
    );
}

#[test]
fn refresh_token_wins_over_authorization_code() {
    let credential = AuthorizationCodeCertificateCredential::builder()
        .with_client_id("client-id")
        .with_authorization_code("auth-code")
        .with_client_assertion("signed-assertion")
        .build();
    let credential = graph_oauth::authorization_code_certificate_credential::AuthorizationCodeCertificateCredentialBuilder::from(credential)
        .with_refresh_token("refresh-me")
        .with_authorization_code("auth-code")
        .build();
    assert!(credential.refresh_token.is_some());
    assert!(credential.authorization_code.is_some());
    let form = credential.form_urlencode().unwrap();
    assert_eq!(form.get("grant_type").unwrap().as_str(), "refresh_token");
    assert_eq!(form.get("refresh_token").unwrap().as_str(), "refresh-me");
    assert!(!form.contains_key("code"));
}

#[test]
fn with_refresh_token_clears_the_authorization_code() {
    let credential = AuthorizationCodeCertificateCredential::builder()
        .with_client_id("client-id")
        .with_authorization_code("auth-code")
        .with_refresh_token("refresh-me")
        .with_client_assertion("signed-assertion")
        .build();
    assert!(credential.authorization_code.is_none());
}

#[test]
fn certificate_code_exchange_form_is_exact() {
    let credential = AuthorizationCodeCertificateCredential::builder()
        .with_client_id("client-id")
        .with_authorization_code("auth-code")
        .with_redirect_uri("https://example.com/callback")
        .with_code_verifier("verifier")
        .with_client_assertion("signed-assertion")
        .with_scope(vec!["user.read".to_string(), "mail.read".to_string()])
        .build();
    let form = credential.form_urlencode().unwrap();
    assert_eq!(form.get("code").unwrap().as_str(), "auth-code");
    assert_eq!(form.get("client_id").unwrap().as_str(), "client-id");
    assert_eq!(form.get("grant_type").unwrap().as_str(), "authorization_code");
    assert_eq!(
        form.get("redirect_uri").unwrap().as_str(),
        "https://example.com/callback"
    );
    assert_eq!(form.get("code_verifier").unwrap().as_str(), "verifier");
    assert_eq!(
        form.get("client_assertion").unwrap().as_str(),
        "signed-assertion"
    );
    assert_eq!(
        form.get("client_assertion_type").unwrap().as_str(),
        "urn:ietf:params:oauth:client-assertion-type:jwt-bearer"
    );
    assert_eq!(form.get("scope").unwrap().as_str(), "user.read mail.read");
    assert_eq!(form.len(), 8);
}

#[test]
fn certificate_flow_requires_a_code_or_a_refresh_token() {
    let credential = AuthorizationCodeCertificateCredential::builder()
        .with_client_id("client-id")
        .with_client_assertion("signed-assertion")
        .build();
    assert_eq!(
        credential.form_urlencode().unwrap_err(),
        IdentityError::MissingCodeAndRefreshToken
    );
}

#[test]
fn certificate_flow_rejects_blank_pieces() {
    let credential = AuthorizationCodeCertificateCredential::new("client-id", "code", "  ", None);
    assert_eq!(
        credential.form_urlencode().unwrap_err(),
        missing(OAuthParameter::ClientAssertion)
    );
    let credential =
        AuthorizationCodeCertificateCredential::new("client-id", "  ", "assertion", None);
    assert_eq!(
        credential.form_urlencode().unwrap_err(),
        missing(OAuthParameter::AuthorizationCode)
    );
    let credential = AuthorizationCodeCertificateCredential::builder()
        .with_client_id("client-id")
        .with_refresh_token(" ")
        .with_client_assertion("assertion")
        .build();
    assert_eq!(
        credential.form_urlencode().unwrap_err(),
        missing(OAuthParameter::RefreshToken)
    );
}

#[test]
fn blank_assertion_type_serializes_as_jwt_bearer() {
    let credential = AuthorizationCodeCertificateCredential::builder()
        .with_client_id("client-id")
        .with_authorization_code("auth-code")
        .with_client_assertion("signed-assertion")
        .with_client_assertion_type("  ")
        .build();
    let form = credential.form_urlencode().unwrap();
    assert_eq!(
        form.get("client_assertion_type").unwrap().as_str(),
        "urn:ietf:params:oauth:client-assertion-type:jwt-bearer"
    );
}

#[test]
fn authorization_code_form_is_exact() {
    let mut credential = AuthorizationCodeCredential::new(
        AppConfig::new_with_client_id("client-id"),
        "auth-code".to_string(),
        "http://localhost:8080".to_string(),
    );
    credential.code_verifier = Some("verifier".to_string());
    credential.scope = vec!["openid".to_string(), "profile".to_string()];
    let form = credential.form_urlencode().unwrap();
    assert_eq!(form.get("client_id").unwrap().as_str(), "client-id");
    assert_eq!(form.get("grant_type").unwrap().as_str(), "authorization_code");
    assert_eq!(form.get("code").unwrap().as_str(), "auth-code");
    assert_eq!(
        form.get("redirect_uri").unwrap().as_str(),
        "http://localhost:8080"
    );
    assert_eq!(form.get("code_verifier").unwrap().as_str(), "verifier");
    assert_eq!(form.get("scope").unwrap().as_str(), "openid profile");
    assert_eq!(form.len(), 6);
}

#[test]
fn authorization_code_must_not_be_blank() {
    let credential = AuthorizationCodeCredential::new(
        AppConfig::new_with_client_id("client-id"),
        " ".to_string(),
        "http://localhost:8080".to_string(),
    );
    assert_eq!(
        credential.form_urlencode().unwrap_err(),
        missing(OAuthParameter::AuthorizationCode)
    );
}

#[test]
fn refresh_token_form_is_exact() {
    let credential = RefreshTokenCredential::new(
        AppConfig::new_with_client_id("client-id"),
        "refresh-me".to_string(),
    );
    let form = credential.form_urlencode().unwrap();
    assert_eq!(form.get("client_id").unwrap().as_str(), "client-id");
    assert_eq!(form.get("grant_type").unwrap().as_str(), "refresh_token");
    assert_eq!(form.get("refresh_token").unwrap().as_str(), "refresh-me");
    assert_eq!(form.len(), 3);
    let blank = RefreshTokenCredential::new(
        AppConfig::new_with_client_id("client-id"),
        "  ".to_string(),
    );
    assert_eq!(
        blank.form_urlencode().unwrap_err(),
        missing(OAuthParameter::RefreshToken)
    );
}

#[test]
fn device_code_form_is_exact() {
    let credential = DeviceCodeCredential::new(
        AppConfig::new_with_client_id("client-id"),
        "device-123".to_string(),
        5,
        900,
    );
    let form = credential.form_urlencode().unwrap();
    assert_eq!(form.get("client_id").unwrap().as_str(), "client-id");
    assert_eq!(
        form.get("grant_type").unwrap().as_str(),
        "urn:ietf:params:oauth:grant-type:device_code"
    );
    assert_eq!(form.get("device_code").unwrap().as_str(), "device-123");
    assert_eq!(form.len(), 3);
    let blank = DeviceCodeCredential::new(
        AppConfig::new_with_client_id("client-id"),
        " ".to_string(),
        5,
        900,
    );
    assert_eq!(
        blank.form_urlencode().unwrap_err(),
        missing(OAuthParameter::DeviceCode)
    );
}

#[test]
fn interactive_flow_has_no_form_before_a_code_is_captured() {
    let credential = InteractiveCredential::new(
        AppConfig::new_with_client_id("client-id"),
        "http://localhost:8080".to_string(),
        WebViewOptions::default(),
    );
    assert_eq!(
        credential.form_urlencode().unwrap_err(),
        missing(OAuthParameter::AuthorizationCode)
    );
}
