use graph_oauth::authority::{resolve, Authority, AzureCloudInstance};
use graph_oauth::client_credentials_authorization_url::ClientCredentialsAuthorizationUrl;
use graph_oauth::client_secret_credential::ClientSecretCredential;
use graph_oauth::error::{IdentityError, OAuthParameter};
use graph_oauth::executor::Credential;
use graph_oauth::grants::AuthorizationCodeCredential;

#[test]
fn open_id_configuration_url_authority_tenant_id() {
    let credential = Credential::ClientSecret(ClientSecretCredential::new_with_tenant(
        "tenant-id",
        "client-id",
        "client-secret",
    ));
    let url = credential.openid_configuration_url().unwrap();
    assert_eq!(
        "https://login.microsoftonline.com/tenant-id/v2.0/.well-known/openid-configuration",
        url.as_str()
    )
}

#[test]
fn open_id_configuration_url_authority_common() {
    let credential = Credential::ClientSecret(ClientSecretCredential::new(
        "client-id",
        "client-secret",
    ));
    let url = credential.openid_configuration_url().unwrap();
    assert_eq!(
        "https://login.microsoftonline.com/common/v2.0/.well-known/openid-configuration",
        url.as_str()
    )
}

#[test]
fn open_id_configuration_url_follows_authorization_code_authority() {
    let config = graph_oauth::app_config::AppConfig::new_with_tenant_and_client_id(
        "tenant-id",
        "client-id",
    );
    let credential = Credential::AuthorizationCode(AuthorizationCodeCredential::new(
        config,
        "auth-code".to_string(),
        "http://localhost:8080".to_string(),
    ));
    let url = credential.openid_configuration_url().unwrap();
    assert_eq!(
        "https://login.microsoftonline.com/tenant-id/v2.0/.well-known/openid-configuration",
        url.as_str()
    )
}

#[test]
fn resolve_public_cloud_common_endpoints() {
    let endpoints = resolve(&AzureCloudInstance::AzurePublic, &Authority::AzureActiveDirectory)
        .unwrap();
    assert_eq!(
        "https://login.microsoftonline.com/common/oauth2/v2.0/authorize",
        endpoints.authorization_endpoint.as_str()
    );
    assert_eq!(
        "https://login.microsoftonline.com/common/oauth2/v2.0/token",
        endpoints.token_endpoint.as_str()
    );
    assert_eq!(
        "https://login.microsoftonline.com/common/v2.0/.well-known/openid-configuration",
        endpoints.openid_configuration_endpoint.as_str()
    );
}

#[test]
fn resolve_other_clouds_and_authorities() {
    let endpoints = resolve(
        &AzureCloudInstance::AzureChina,
        &Authority::Organizations,
    )
    .unwrap();
    assert_eq!(
        "https://login.chinacloudapi.cn/organizations/oauth2/v2.0/token",
        endpoints.token_endpoint.as_str()
    );
    let endpoints = resolve(&AzureCloudInstance::AzureGermany, &Authority::Consumers).unwrap();
    assert_eq!(
        "https://login.microsoftonline.de/consumers/oauth2/v2.0/token",
        endpoints.token_endpoint.as_str()
    );
    let endpoints = resolve(
        &AzureCloudInstance::AzureUsGovernment,
        &Authority::TenantId("contoso".to_string()),
    )
    .unwrap();
    assert_eq!(
        "https://login.microsoftonline.us/contoso/oauth2/v2.0/token",
        endpoints.token_endpoint.as_str()
    );
}

#[test]
fn resolve_blank_tenant_is_missing_tenant_id() {
    let err = resolve(
        &AzureCloudInstance::AzurePublic,
        &Authority::TenantId("   ".to_string()),
    )
    .unwrap_err();
    assert_eq!(err, IdentityError::MissingTenantId);
}

#[test]
fn token_uri_is_byte_identical_across_calls() {
    let credential = Credential::ClientSecret(ClientSecretCredential::new_with_tenant(
        "tenant-id",
        "client-id",
        "client-secret",
    ));
    let first = credential.uri().unwrap();
    let second = credential.uri().unwrap();
    assert_eq!(first.as_bytes(), second.as_bytes());
    assert_eq!(
        "https://login.microsoftonline.com/tenant-id/oauth2/v2.0/token",
        first.as_str()
    );
}

#[test]
fn admin_consent_url_encodes_query_pairs() {
    let description = ClientCredentialsAuthorizationUrl::builder()
        .with_client_id("client-id")
        .with_redirect_uri("http://localhost:8080")
        .with_state("state-123")
        .build();
    let url = description.url().unwrap();
    assert_eq!(
        "https://login.microsoftonline.com/common/adminconsent?\
         client_id=client-id&redirect_uri=http%3A%2F%2Flocalhost%3A8080&state=state-123",
        url.as_str()
    );
}

#[test]
fn admin_consent_url_with_tenant_and_host() {
    let description = ClientCredentialsAuthorizationUrl::builder()
        .with_client_id("client-id")
        .with_redirect_uri("https://example.com/callback")
        .with_tenant("tenant-id")
        .build();
    let url = description
        .url_with_host(&AzureCloudInstance::AzureChina)
        .unwrap();
    assert_eq!(
        "https://login.chinacloudapi.cn/tenant-id/adminconsent?\
         client_id=client-id&redirect_uri=https%3A%2F%2Fexample.com%2Fcallback",
        url.as_str()
    );
}

#[test]
fn admin_consent_url_requires_client_id_and_redirect_uri() {
    let description = ClientCredentialsAuthorizationUrl::new("  ", "https://example.com");
    assert_eq!(
        description.url().unwrap_err(),
        IdentityError::MissingRequiredParameter(OAuthParameter::ClientId)
    );
    let description = ClientCredentialsAuthorizationUrl::new("client-id", "   ");
    assert_eq!(
        description.url().unwrap_err(),
        IdentityError::MissingRequiredParameter(OAuthParameter::RedirectUri)
    );
    let description = ClientCredentialsAuthorizationUrl::builder()
        .with_client_id("client-id")
        .with_redirect_uri("https://example.com")
        .with_tenant(" ")
        .build();
    assert_eq!(description.url().unwrap_err(), IdentityError::MissingTenantId);
}

#[test]
fn authority_defaults_and_segments() {
    assert_eq!(Authority::default(), Authority::AzureActiveDirectory);
    assert_eq!(Authority::AzureActiveDirectory.segment().as_str(), "common");
    assert_eq!(Authority::Organizations.segment().as_str(), "organizations");
    assert_eq!(Authority::Consumers.segment().as_str(), "consumers");
    let tenant = Authority::TenantId("contoso".to_string());
    assert_eq!(tenant.segment().as_str(), "contoso");
    assert_eq!(tenant.tenant_id().unwrap().as_str(), "contoso");
    assert!(Authority::AzureActiveDirectory.tenant_id().is_none());
    assert_eq!(AzureCloudInstance::default(), AzureCloudInstance::AzurePublic);
    assert_eq!(
        AzureCloudInstance::AzurePublic.base_url().as_str(),
        "https://login.microsoftonline.com"
    );
}

#[test]
fn error_descriptions_are_not_empty() {
    assert!(!IdentityError::MissingTenantId.as_str().is_empty());
    assert!(!IdentityError::MissingCodeAndRefreshToken.as_str().is_empty());
    assert!(
        !IdentityError::MissingRequiredParameter(OAuthParameter::ClientId)
            .as_str()
            .is_empty()
    );
}
