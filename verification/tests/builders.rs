use graph_oauth::app_config::AppConfig;
use graph_oauth::authority::Authority;
use graph_oauth::client_credentials_authorization_url::ClientCredentialsAuthorizationUrl;
use graph_oauth::client_secret_credential::{
    ClientSecretCredential, ClientSecretCredentialBuilder,
};
use graph_oauth::executor::Credential;

#[test]
fn app_config_construction_and_tenant() {
    let config = AppConfig::new_with_client_id("client-id");
    assert_eq!(config.client_id.as_str(), "client-id");
    assert_eq!(config.authority, Authority::AzureActiveDirectory);
    assert!(config.tenant_id().is_none());

    let config = AppConfig::new_with_tenant_and_client_id("tenant-id", "client-id");
    assert_eq!(config.tenant_id().unwrap().as_str(), "tenant-id");
}

#[test]
fn client_secret_credential_builder_round_trip() {
    let credential = ClientSecretCredentialBuilder::new("client-id", "first-secret")
        .with_client_secret("second-secret")
        .credential();
    assert_eq!(credential.client_id().as_str(), "client-id");
    assert_eq!(credential.client_secret.as_str(), "second-secret");
    assert_eq!(credential.authority(), Authority::AzureActiveDirectory);
    assert_eq!(
        credential.scope,
        vec!["https://graph.microsoft.com/.default".to_string()]
    );
}

#[test]
fn authorization_url_builder_is_seeded_with_the_client_id() {
    let url = ClientSecretCredential::authorization_url_builder("client-id")
        .with_redirect_uri("https://example.com/callback")
        .build()
        .url()
        .unwrap();
    assert!(url.as_str().contains("client_id=client-id"));
}

#[test]
fn authorization_url_description_from_new() {
    let description = ClientCredentialsAuthorizationUrl::new("client-id", "https://example.com");
    assert_eq!(description.client_id.as_str(), "client-id");
    assert_eq!(description.redirect_uri.as_str(), "https://example.com");
    assert!(description.state.is_none());
    assert_eq!(description.authority, Authority::AzureActiveDirectory);
}

#[test]
fn credential_accessors_follow_the_variant() {
    let secret = ClientSecretCredential::new_with_tenant("tenant-id", "client-id", "secret");
    let credential = Credential::ClientSecret(secret);
    assert_eq!(credential.client_id().as_str(), "client-id");
    assert_eq!(
        credential.app_config().tenant_id().unwrap().as_str(),
        "tenant-id"
    );
    assert_eq!(
        credential.scope(),
        &vec!["https://graph.microsoft.com/.default".to_string()]
    );
    let id = credential.cache_id();
    assert_eq!(id.client_id.as_str(), "client-id");
    assert_eq!(id.tenant_id.as_deref(), Some("tenant-id"));
    assert_eq!(
        id.scopes,
        vec!["https://graph.microsoft.com/.default".to_string()]
    );
}

#[test]
fn request_parts_carry_the_extra_parameters() {
    let mut secret = ClientSecretCredential::new("client-id", "secret");
    secret
        .app_config
        .extra_header_parameters
        .push(("x-ms-client".to_string(), "tests".to_string()));
    secret
        .app_config
        .extra_query_parameters
        .push(("slice".to_string(), "canary".to_string()));
    let credential = Credential::ClientSecret(secret);
    let request = match credential.authorization_request_parts() {
        Ok(request) => request,
        Err(e) => panic!("the request failed to assemble: {e:?}"),
    };
    assert_eq!(
        request.uri.as_str(),
        "https://login.microsoftonline.com/common/oauth2/v2.0/token"
    );
    assert_eq!(
        request.headers,
        vec![("x-ms-client".to_string(), "tests".to_string())]
    );
    assert_eq!(
        request.query_parameters,
        vec![("slice".to_string(), "canary".to_string())]
    );
    let entries = request.form_urlencoded.entries();
    assert_eq!(entries.len(), 2);
    assert_eq!(entries[0].0.as_str(), "grant_type");
    assert_eq!(entries[1].0.as_str(), "scope");
}

#[test]
fn request_parts_surface_validation_errors() {
    let credential = Credential::ClientSecret(ClientSecretCredential::new("client-id", " "));
    assert!(credential.authorization_request_parts().is_err());
    let credential = Credential::ClientSecret(ClientSecretCredential::new_with_tenant(
        "  ",
        "client-id",
        "secret",
    ));
    match credential.authorization_request_parts() {
        Err(e) => assert_eq!(e, graph_oauth::error::IdentityError::MissingTenantId),
        Ok(_) => panic!("a blank tenant must not resolve"),
    }
}
