use graph_oauth::error::{IdentityError, OAuthParameter};
use graph_oauth::web_view::{
    parse_authorization_response, WebViewEvent, WebViewExecutionError, WebViewOptions,
    WebViewSession, WebViewState,
};

const AUTH_URL: &str = "https://login.microsoftonline.com/common/oauth2/v2.0/authorize";

fn session_with(redirect: &str) -> WebViewSession {
    WebViewSession::new(
        AUTH_URL.to_string(),
        vec![redirect.to_string()],
        WebViewOptions::default(),
    )
}

fn live_session(redirect: &str) -> WebViewSession {
    let mut session = session_with(redirect);
    assert_eq!(session.state, WebViewState::Idle);
    session.start_navigation();
    assert_eq!(session.state, WebViewState::NavigatingToAuthUrl);
    session.handle_event(WebViewEvent::Navigated(AUTH_URL.to_string()));
    assert_eq!(session.state, WebViewState::AwaitingRedirect);
    session
}

#[test]
fn loopback_redirect_without_port_fails_before_navigation() {
    let session = session_with("http://localhost");
    match &session.state {
        WebViewState::Failed(WebViewExecutionError::InvalidRedirectUri(uri)) => {
            assert_eq!(uri.as_str(), "http://localhost");
        }
        other => panic!("expected an invalid redirect uri, found {other:?}"),
    }
}

#[test]
fn loopback_redirect_with_port_is_accepted() {
    let session = session_with("http://localhost:8080");
    assert_eq!(session.state, WebViewState::Idle);
    let session = session_with("http://127.0.0.1:8080");
    assert_eq!(session.state, WebViewState::Idle);
    let session = session_with("http://127.0.0.1");
    assert!(matches!(
        session.state,
        WebViewState::Failed(WebViewExecutionError::InvalidRedirectUri(_))
    ));
}

#[test]
fn invalid_start_uri_fails_before_navigation() {
    let session = WebViewSession::new(
        "not a url".to_string(),
        vec!["https://app/callback".to_string()],
        WebViewOptions::default(),
    );
    assert!(matches!(
        session.state,
        WebViewState::Failed(WebViewExecutionError::InvalidStartUri { .. })
    ));
}

#[test]
fn successful_redirect_extracts_the_code() {
    let mut session = live_session("https://app/callback");
    session.handle_event(WebViewEvent::Navigated(
        "https://app/callback?code=ABC123&state=xyz".to_string(),
    ));
    match &session.state {
        WebViewState::Succeeded(response) => {
            assert_eq!(response.code.as_deref(), Some("ABC123"));
            assert_eq!(response.state.as_deref(), Some("xyz"));
            assert!(response.error.is_none());
        }
        other => panic!("expected success, found {other:?}"),
    }
}

#[test]
fn redirect_without_query_or_fragment_fails() {
    let mut session = live_session("https://app/callback");
    session.handle_event(WebViewEvent::Navigated("https://app/callback".to_string()));
    match &session.state {
        WebViewState::Failed(WebViewExecutionError::RedirectUriMissingQueryOrFragment(url)) => {
            assert_eq!(url.as_str(), "https://app/callback");
        }
        other => panic!("expected a missing query or fragment, found {other:?}"),
    }
}

#[test]
fn fragment_carries_the_response_when_query_is_absent() {
    let mut session = live_session("https://app/callback");
    session.handle_event(WebViewEvent::Navigated(
        "https://app/callback#code=FRAG42".to_string(),
    ));
    match &session.state {
        WebViewState::Succeeded(response) => {
            assert_eq!(response.code.as_deref(), Some("FRAG42"));
        }
        other => panic!("expected success, found {other:?}"),
    }
}

#[test]
fn error_responses_still_parse() {
    let mut session = live_session("https://app/callback");
    session.handle_event(WebViewEvent::Navigated(
        "https://app/callback?error=access_denied&error_description=denied".to_string(),
    ));
    match &session.state {
        WebViewState::Succeeded(response) => {
            assert_eq!(response.error.as_deref(), Some("access_denied"));
            assert_eq!(response.error_description.as_deref(), Some("denied"));
            assert!(response.code.is_none());
        }
        other => panic!("expected a parsed error response, found {other:?}"),
    }
}

#[test]
fn shapeless_query_fails_as_serde_error() {
    let mut session = live_session("https://app/callback");
    session.handle_event(WebViewEvent::Navigated(
        "https://app/callback?foo=bar".to_string(),
    ));
    assert!(matches!(
        session.state,
        WebViewState::Failed(WebViewExecutionError::SerdeError(_))
    ));
}

#[test]
fn window_closed_timeout_and_channel_failures() {
    let mut session = live_session("https://app/callback");
    session.handle_event(WebViewEvent::WindowClosed);
    assert_eq!(
        session.state,
        WebViewState::Failed(WebViewExecutionError::WindowClosedRequested)
    );

    let mut session = live_session("https://app/callback");
    session.handle_event(WebViewEvent::TimeoutReached);
    assert_eq!(
        session.state,
        WebViewState::Failed(WebViewExecutionError::WindowClosedOnTimeoutReached)
    );

    let mut session = live_session("https://app/callback");
    session.handle_event(WebViewEvent::ChannelError("sender dropped".to_string()));
    match &session.state {
        WebViewState::Failed(WebViewExecutionError::RecvError(m)) => {
            assert_eq!(m.as_str(), "sender dropped");
        }
        other => panic!("expected a channel failure, found {other:?}"),
    }
}

#[test]
fn foreign_navigation_closes_only_under_enforcement() {
    let mut session = WebViewSession::new(
        AUTH_URL.to_string(),
        vec!["https://app/callback".to_string()],
        WebViewOptions {
            enforce_invalid_navigation: true,
            timeout_secs: Some(60),
        },
    );
    session.start_navigation();
    session.handle_event(WebViewEvent::Navigated("https://evil.example".to_string()));
    assert_eq!(
        session.state,
        WebViewState::Failed(WebViewExecutionError::WindowClosedOnInvalidNavigation)
    );

    let mut relaxed = live_session("https://app/callback");
    relaxed.handle_event(WebViewEvent::Navigated("https://evil.example".to_string()));
    assert_eq!(relaxed.state, WebViewState::AwaitingRedirect);
}

#[test]
fn terminal_states_ignore_further_events() {
    let mut session = live_session("https://app/callback");
    session.handle_event(WebViewEvent::Navigated(
        "https://app/callback?code=KEEP".to_string(),
    ));
    session.handle_event(WebViewEvent::WindowClosed);
    session.handle_event(WebViewEvent::TimeoutReached);
    session.handle_event(WebViewEvent::Navigated(
        "https://app/callback?code=OTHER".to_string(),
    ));
    match &session.state {
        WebViewState::Succeeded(response) => {
            assert_eq!(response.code.as_deref(), Some("KEEP"));
        }
        other => panic!("the terminal state moved: {other:?}"),
    }
    session.fail_authorization(IdentityError::MissingTenantId);
    assert!(matches!(session.state, WebViewState::Succeeded(_)));
}

#[test]
fn credential_and_exchange_failures_are_reported() {
    let mut session = live_session("https://app/callback");
    session.fail_authorization(IdentityError::MissingRequiredParameter(
        OAuthParameter::ClientId,
    ));
    assert_eq!(
        session.state,
        WebViewState::Failed(WebViewExecutionError::AuthorizationError(
            IdentityError::MissingRequiredParameter(OAuthParameter::ClientId)
        ))
    );

    let mut session = live_session("https://app/callback");
    session.fail_execution("the token endpoint answered 400".to_string());
    match &session.state {
        WebViewState::Failed(WebViewExecutionError::AuthExecutionError(m)) => {
            assert_eq!(m.as_str(), "the token endpoint answered 400");
        }
        other => panic!("expected an execution failure, found {other:?}"),
    }
}

#[test]
fn interactive_authorization_url_is_exact() {
    let mut credential = graph_oauth::grants::InteractiveCredential::new(
        graph_oauth::app_config::AppConfig::new_with_tenant_and_client_id(
            "tenant-id",
            "client-id",
        ),
        "http://localhost:8080".to_string(),
        WebViewOptions::default(),
    );
    credential.scope = vec!["user.read".to_string(), "openid".to_string()];
    let url = credential
        .authorization_url(
            &Some("state-1".to_string()),
            &Some("challenge-abc".to_string()),
        )
        .unwrap();
    assert_eq!(
        "https://login.microsoftonline.com/tenant-id/oauth2/v2.0/authorize?\
         client_id=client-id&response_type=code&redirect_uri=http%3A%2F%2Flocalhost%3A8080\
         &scope=user.read+openid&state=state-1&code_challenge=challenge-abc\
         &code_challenge_method=S256",
        url.as_str()
    );
}

#[test]
fn interactive_authorization_url_requires_its_parts() {
    let credential = graph_oauth::grants::InteractiveCredential::new(
        graph_oauth::app_config::AppConfig::new_with_client_id(" "),
        "http://localhost:8080".to_string(),
        WebViewOptions::default(),
    );
    assert_eq!(
        credential.authorization_url(&None, &None).unwrap_err(),
        IdentityError::MissingRequiredParameter(OAuthParameter::ClientId)
    );
    let credential = graph_oauth::grants::InteractiveCredential::new(
        graph_oauth::app_config::AppConfig::new_with_client_id("client-id"),
        "  ".to_string(),
        WebViewOptions::default(),
    );
    assert_eq!(
        credential.authorization_url(&None, &None).unwrap_err(),
        IdentityError::MissingRequiredParameter(OAuthParameter::RedirectUri)
    );
}

#[test]
fn query_parsing_takes_the_first_occurrence_of_each_key() {
    let response = parse_authorization_response("code=first&state=s1&code=second");
    assert_eq!(response.code.as_deref(), Some("first"));
    assert_eq!(response.state.as_deref(), Some("s1"));
    let response = parse_authorization_response("flag&k=v");
    assert!(response.code.is_none());
    assert!(response.error.is_none());
}
