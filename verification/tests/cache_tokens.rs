use graph_oauth::cache::{CacheId, TokenCache, REFRESH_MARGIN_SECS};
use graph_oauth::client_secret_credential::ClientSecretCredential;
use graph_oauth::executor::{Credential, SilentTokenFlow};
use graph_oauth::token::Token;

fn token_at(issued_at: u64, expires_in: u64, access: &str) -> Token {
    Token::new(
        access.to_string(),
        "Bearer".to_string(),
        expires_in,
        None,
        None,
        issued_at,
    )
}

fn id(client: &str, tenant: Option<&str>, scopes: &[&str]) -> CacheId {
    CacheId::new(
        client.to_string(),
        tenant.map(|t| t.to_string()),
        scopes.iter().map(|s| s.to_string()).collect(),
    )
}

#[test]
fn lookup_within_margin_triggers_refresh_and_outside_does_not() {
    let issued: u64 = 1_000;
    let mut cache = TokenCache::new();
    let identity = id("client-id", Some("tenant-id"), &["user.read"]);
    cache.store(
        id("client-id", Some("tenant-id"), &["user.read"]),
        token_at(issued, 3_600, "tok"),
    );

    // 3595 seconds in: expiry is 5 seconds away, within the 300-second
    // margin, so the cache asks for a refresh.
    assert!(cache.get_if_fresh(&identity, issued + 3_595).is_none());

    // 3000 seconds in: 600 seconds of life remain, beyond the margin, so
    // the cached token comes back unchanged.
    let hit = cache.get_if_fresh(&identity, issued + 3_000).unwrap();
    assert_eq!(hit.access_token.as_str(), "tok");
    assert_eq!(hit.issued_at, issued);
    assert_eq!(hit.expires_in, 3_600);
}

#[test]
fn expiry_margin_boundaries_are_exact() {
    let token = token_at(1_000, 3_600, "tok");
    // expires at 4600; margin reaches it exactly when now + margin == 4600
    assert!(token.is_expired_within(REFRESH_MARGIN_SECS, 4_300));
    assert!(!token.is_expired_within(REFRESH_MARGIN_SECS, 4_299));
    assert!(token.is_expired_within(0, 4_600));
    assert!(!token.is_expired_within(0, 4_599));
}

#[test]
fn cache_identity_ignores_scope_order() {
    let a = id("client-id", None, &["a", "b"]);
    let b = id("client-id", None, &["b", "a", "b"]);
    assert!(a.matches(&b));
    assert!(b.matches(&a));
    let other_scopes = id("client-id", None, &["a", "c"]);
    assert!(!a.matches(&other_scopes));
    let other_tenant = id("client-id", Some("tenant-id"), &["a", "b"]);
    assert!(!a.matches(&other_tenant));
    let other_client = id("client-2", None, &["a", "b"]);
    assert!(!a.matches(&other_client));
}

#[test]
fn store_overwrites_matching_identity_and_keeps_others() {
    let mut cache = TokenCache::new();
    cache.store(id("client-id", None, &["a", "b"]), token_at(0, 100, "first"));
    cache.store(id("other", None, &["a"]), token_at(0, 100, "other"));
    // Same identity with the scopes in another order: last writer wins.
    cache.store(id("client-id", None, &["b", "a"]), token_at(50, 100, "second"));

    let hit = cache.get(&id("client-id", None, &["a", "b"])).unwrap();
    assert_eq!(hit.access_token.as_str(), "second");
    assert_eq!(hit.issued_at, 50);
    let other = cache.get(&id("other", None, &["a"])).unwrap();
    assert_eq!(other.access_token.as_str(), "other");
    assert!(cache.get(&id("absent", None, &[])).is_none());
}

#[test]
fn silent_flow_acquires_then_reuses_a_token() {
    let now: u64 = 10_000;
    let credential = Credential::ClientSecret(ClientSecretCredential::new_with_tenant(
        "tenant-id",
        "client-id",
        "client-secret",
    ));
    let mut cache = TokenCache::new();

    // First step: nothing cached, so the flow hands back the request to
    // send, built exactly as the executor would send it.
    let flow = match credential.get_token_silent(&cache, now) {
        Ok(flow) => flow,
        Err(e) => panic!("the silent flow failed: {e:?}"),
    };
    let request = match flow {
        SilentTokenFlow::SendTokenRequest(request) => request,
        SilentTokenFlow::UseCachedToken(_) => panic!("nothing was cached yet"),
    };
    assert_eq!(
        request.uri.as_str(),
        "https://login.microsoftonline.com/tenant-id/oauth2/v2.0/token"
    );
    let (user, secret) = request.basic_auth.clone().unwrap();
    assert_eq!(user.as_str(), "client-id");
    assert_eq!(secret.as_str(), "client-secret");
    assert_eq!(
        request.form_urlencoded.get("grant_type").unwrap().as_str(),
        "client_credentials"
    );

    // The mock endpoint's response body, parsed into plain fields.
    let body: serde_json::Value =
        serde_json::from_str("{\"access_token\":\"tok\",\"token_type\":\"Bearer\",\"expires_in\":3600}")
            .unwrap();
    let token = Token::new(
        body["access_token"].as_str().unwrap().to_string(),
        body["token_type"].as_str().unwrap().to_string(),
        body["expires_in"].as_u64().unwrap(),
        None,
        None,
        now,
    );
    assert!(!token.is_expired_within(REFRESH_MARGIN_SECS, now));
    credential.store_token(&mut cache, token);

    // Second step: the stored token is fresh, so it is reused unchanged
    // and no request is assembled.
    let flow = match credential.get_token_silent(&cache, now + 1) {
        Ok(flow) => flow,
        Err(e) => panic!("the silent flow failed: {e:?}"),
    };
    match flow {
        SilentTokenFlow::UseCachedToken(token) => {
            assert_eq!(token.access_token.as_str(), "tok");
            assert_eq!(token.token_type.as_str(), "Bearer");
            assert_eq!(token.expires_in, 3_600);
            assert!(!token.is_expired_within(REFRESH_MARGIN_SECS, now + 1));
        }
        SilentTokenFlow::SendTokenRequest(_) => panic!("the cached token was fresh"),
    }

    // Within the margin of expiry the flow refreshes again.
    match credential.get_token_silent(&cache, now + 3_595) {
        Ok(flow) => assert!(matches!(flow, SilentTokenFlow::SendTokenRequest(_))),
        Err(e) => panic!("the silent flow failed: {e:?}"),
    }
}

#[test]
fn expiry_check_survives_extreme_values() {
    let token = token_at(u64::MAX, u64::MAX, "tok");
    // Expiry lies beyond any clock, so nothing close to it is reached.
    assert!(!token.is_expired_within(0, 0));
    // A margin that large always covers the remaining lifetime.
    assert!(token.is_expired_within(u64::MAX, u64::MAX));
    let token = token_at(0, 0, "tok");
    assert!(token.is_expired_within(0, 0));
}

#[test]
fn token_clone_keeps_every_field() {
    let token = Token::new(
        "tok".to_string(),
        "Bearer".to_string(),
        3_600,
        Some("refresh".to_string()),
        Some("id-token".to_string()),
        42,
    );
    let copy = token.clone();
    assert_eq!(copy.access_token.as_str(), "tok");
    assert_eq!(copy.token_type.as_str(), "Bearer");
    assert_eq!(copy.expires_in, 3_600);
    assert_eq!(copy.refresh_token.as_deref(), Some("refresh"));
    assert_eq!(copy.id_token.as_deref(), Some("id-token"));
    assert_eq!(copy.issued_at, 42);
}
