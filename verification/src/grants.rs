use vstd::prelude::*;

use crate::app_config::AppConfig;
use crate::error::{IdentityError, OAuthParameter};
use crate::form::FormMap;
use crate::serializer;
use crate::text;
use crate::text::str_views;
use crate::web_view::WebViewOptions;

verus! {

/// The authorization-code grant: exchanges a code captured from the
/// redirect of an interactive sign-in for a token.
#[derive(Debug)]
pub struct AuthorizationCodeCredential {
    pub app_config: AppConfig,
    /// The code obtained from the authorization endpoint.
    pub authorization_code: String,
    /// The redirect URI the code was delivered to.
    pub redirect_uri: String,
    /// The PKCE verifier matching the challenge sent when the code was
    /// requested, where PKCE was used.
    pub code_verifier: Option<String>,
    pub scope: Vec<String>,
}

impl AuthorizationCodeCredential {
    /// A credential from a captured authorization code.
    pub fn new(app_config: AppConfig, authorization_code: String, redirect_uri: String) -> (r:
        AuthorizationCodeCredential)
        ensures
            r.app_config == app_config,
            r.authorization_code == authorization_code,
            r.redirect_uri == redirect_uri,
            r.code_verifier is None,
            r.scope@.len() == 0,
    {
        AuthorizationCodeCredential {
            app_config,
            authorization_code,
            redirect_uri,
            code_verifier: None,
            scope: Vec::new(),
        }
    }

    /// The validated form body of the token request, per the
    /// authorization-code grant.
    pub fn form_urlencode(&self) -> (r: Result<FormMap, IdentityError>)
        ensures
            ({
                let s = serializer::spec_authorization_code_form(
                    self.app_config.client_id@,
                    self.authorization_code@,
                    self.redirect_uri@,
                    match self.code_verifier {
                        Some(cv) => Some(cv@),
                        None => None,
                    },
                    str_views(self.scope@),
                );
                match r {
                    Ok(m) => m.wf() && s == Ok::<Seq<(Seq<char>, Seq<char>)>, IdentityError>(
                        m.entries_view(),
                    ),
                    Err(e) => s == Err::<Seq<(Seq<char>, Seq<char>)>, IdentityError>(e),
                }
            }),
    {
        serializer::build_authorization_code_form(
            self.app_config.client_id.as_str(),
            self.authorization_code.as_str(),
            self.redirect_uri.as_str(),
            &self.code_verifier,
            &self.scope,
        )
    }
}

/// The refresh-token grant: exchanges a refresh token from an earlier
/// acquisition for a new token.
#[derive(Debug)]
pub struct RefreshTokenCredential {
    pub app_config: AppConfig,
    pub refresh_token: String,
    pub scope: Vec<String>,
}

impl RefreshTokenCredential {
    /// A credential from a held refresh token.
    pub fn new(app_config: AppConfig, refresh_token: String) -> (r: RefreshTokenCredential)
        ensures
            r.app_config == app_config,
            r.refresh_token == refresh_token,
            r.scope@.len() == 0,
    {
        RefreshTokenCredential { app_config, refresh_token, scope: Vec::new() }
    }

    /// The validated form body of the token request, per the refresh-token
    /// grant.
    pub fn form_urlencode(&self) -> (r: Result<FormMap, IdentityError>)
        ensures
            ({
                let s = serializer::spec_refresh_token_form(
                    self.app_config.client_id@,
                    self.refresh_token@,
                    str_views(self.scope@),
                );
                match r {
                    Ok(m) => m.wf() && s == Ok::<Seq<(Seq<char>, Seq<char>)>, IdentityError>(
                        m.entries_view(),
                    ),
                    Err(e) => s == Err::<Seq<(Seq<char>, Seq<char>)>, IdentityError>(e),
                }
            }),
    {
        serializer::build_refresh_token_form(
            self.app_config.client_id.as_str(),
            self.refresh_token.as_str(),
            &self.scope,
        )
    }
}

/// The device-code grant: polls the token endpoint with a device code
/// while the user signs in on another surface.
#[derive(Debug)]
pub struct DeviceCodeCredential {
    pub app_config: AppConfig,
    /// The device code the device-authorization endpoint returned.
    pub device_code: String,
    /// Seconds to wait between polls of the token endpoint.
    pub polling_interval: u64,
    /// The second (since the Unix epoch) at which the device code expires.
    pub expires_at: u64,
    pub scope: Vec<String>,
}

impl DeviceCodeCredential {
    /// A credential from a device code and its polling bounds.
    pub fn new(app_config: AppConfig, device_code: String, polling_interval: u64, expires_at: u64)
        -> (r: DeviceCodeCredential)
        ensures
            r.app_config == app_config,
            r.device_code == device_code,
            r.polling_interval == polling_interval,
            r.expires_at == expires_at,
            r.scope@.len() == 0,
    {
        DeviceCodeCredential { app_config, device_code, polling_interval, expires_at, scope: Vec::new() }
    }

    /// The validated form body of the token request, per the device-code
    /// grant.
    pub fn form_urlencode(&self) -> (r: Result<FormMap, IdentityError>)
        ensures
            ({
                let s = serializer::spec_device_code_form(
                    self.app_config.client_id@,
                    self.device_code@,
                    str_views(self.scope@),
                );
                match r {
                    Ok(m) => m.wf() && s == Ok::<Seq<(Seq<char>, Seq<char>)>, IdentityError>(
                        m.entries_view(),
                    ),
                    Err(e) => s == Err::<Seq<(Seq<char>, Seq<char>)>, IdentityError>(e),
                }
            }),
    {
        serializer::build_device_code_form(
            self.app_config.client_id.as_str(),
            self.device_code.as_str(),
            &self.scope,
        )
    }
}

/// The query pairs of the interactive flow's authorization URL, in order:
/// the client id, `response_type=code`, the redirect URI, then the scopes
/// where any are named, the state where one is set, and the PKCE
/// challenge with its method where PKCE is used.
pub open spec fn spec_authorization_url_pairs(
    client_id: Seq<char>,
    redirect_uri: Seq<char>,
    scope: Seq<Seq<char>>,
    state: Option<Seq<char>>,
    code_challenge: Option<Seq<char>>,
) -> Seq<(Seq<char>, Seq<char>)> {
    let base = seq![
        ("client_id"@, client_id),
        ("response_type"@, "code"@),
        ("redirect_uri"@, redirect_uri),
    ];
    let with_scope = if scope.len() > 0 {
        base.push(("scope"@, crate::text::spec_join_spaces(scope)))
    } else {
        base
    };
    let with_state = match state {
        Some(x) => with_scope.push(("state"@, x)),
        None => with_scope,
    };
    match code_challenge {
        Some(x) => with_state.push(("code_challenge"@, x)).push(
            ("code_challenge_method"@, "S256"@),
        ),
        None => with_state,
    }
}

/// The interactive flow's authorization URL, or the reason it cannot be
/// built: a blank client id, a blank redirect URI, or a blank tenant.
pub open spec fn spec_authorization_url(
    c: crate::authority::AzureCloudInstance,
    a: crate::authority::Authority,
    client_id: Seq<char>,
    redirect_uri: Seq<char>,
    scope: Seq<Seq<char>>,
    state: Option<Seq<char>>,
    code_challenge: Option<Seq<char>>,
) -> Result<Seq<char>, IdentityError> {
    if crate::text::spec_is_blank(client_id) {
        Err(IdentityError::MissingRequiredParameter(OAuthParameter::ClientId))
    } else if crate::text::spec_is_blank(redirect_uri) {
        Err(IdentityError::MissingRequiredParameter(OAuthParameter::RedirectUri))
    } else if !a.spec_valid() {
        Err(IdentityError::MissingTenantId)
    } else {
        Ok(
            crate::authority::spec_authorization_endpoint(c, a) + "?"@
                + crate::url_support::form_urlencoded_of(
                spec_authorization_url_pairs(client_id, redirect_uri, scope, state, code_challenge),
            ),
        )
    }
}

/// The interactive flow: a browser surface drives the user through the
/// authorization endpoint; the captured code then proceeds as an
/// authorization-code credential. Until a code is captured there is no
/// token request to serialize.
#[derive(Debug)]
pub struct InteractiveCredential {
    pub app_config: AppConfig,
    pub redirect_uri: String,
    pub web_view_options: WebViewOptions,
    pub scope: Vec<String>,
}

impl InteractiveCredential {
    /// An interactive credential awaiting its browser-driven sign-in.
    pub fn new(app_config: AppConfig, redirect_uri: String, web_view_options: WebViewOptions) -> (r:
        InteractiveCredential)
        ensures
            r.app_config == app_config,
            r.redirect_uri == redirect_uri,
            r.web_view_options == web_view_options,
            r.scope@.len() == 0,
    {
        InteractiveCredential { app_config, redirect_uri, web_view_options, scope: Vec::new() }
    }

    /// The authorization URL the browser surface starts at: the authority's
    /// authorization endpoint carrying the client id, `response_type=code`,
    /// the redirect URI, the scopes, the echoed state, and the PKCE
    /// challenge where one is used.
    pub fn authorization_url(&self, state: &Option<String>, code_challenge: &Option<String>) -> (r:
        Result<String, IdentityError>)
        ensures
            ({
                let s = spec_authorization_url(
                    self.app_config.azure_cloud_instance,
                    self.app_config.authority,
                    self.app_config.client_id@,
                    self.redirect_uri@,
                    str_views(self.scope@),
                    match state {
                        Some(x) => Some(x@),
                        None => None,
                    },
                    match code_challenge {
                        Some(x) => Some(x@),
                        None => None,
                    },
                );
                match r {
                    Ok(u) => s == Ok::<Seq<char>, IdentityError>(u@),
                    Err(e) => s == Err::<Seq<char>, IdentityError>(e),
                }
            }),
    {
        if crate::text::is_blank(self.app_config.client_id.as_str()) {
            return Err(IdentityError::MissingRequiredParameter(OAuthParameter::ClientId));
        }
        if crate::text::is_blank(self.redirect_uri.as_str()) {
            return Err(IdentityError::MissingRequiredParameter(OAuthParameter::RedirectUri));
        }
        let mut pairs: Vec<(String, String)> = Vec::new();
        pairs.push((String::from_str("client_id"), self.app_config.client_id.clone()));
        pairs.push((String::from_str("response_type"), String::from_str("code")));
        pairs.push((String::from_str("redirect_uri"), self.redirect_uri.clone()));
        if self.scope.len() > 0 {
            pairs.push((String::from_str("scope"), crate::text::join_spaces(&self.scope)));
        }
        if let Some(x) = state {
            pairs.push((String::from_str("state"), x.clone()));
        }
        if let Some(x) = code_challenge {
            pairs.push((String::from_str("code_challenge"), x.clone()));
            pairs.push((String::from_str("code_challenge_method"), String::from_str("S256")));
        }
        proof {
            assert(pairs@.map_values(|p: (String, String)| (p.0@, p.1@))
                =~= spec_authorization_url_pairs(
                self.app_config.client_id@,
                self.redirect_uri@,
                str_views(self.scope@),
                match state {
                    Some(x) => Some(x@),
                    None => None,
                },
                match code_challenge {
                    Some(x) => Some(x@),
                    None => None,
                },
            ));
        }
        let query = crate::url_support::form_urlencode_pairs(&pairs);
        let mut base = match crate::authority::resolve(
            &self.app_config.azure_cloud_instance,
            &self.app_config.authority,
        ) {
            Ok(endpoints) => endpoints.authorization_endpoint,
            Err(e) => {
                return Err(e);
            },
        };
        base.append("?");
        base.append(query.as_str());
        Ok(base)
    }

    /// No form body exists before a code is captured: the build reports the
    /// missing client id first, else the missing authorization code.
    pub fn form_urlencode(&self) -> (r: Result<FormMap, IdentityError>)
        ensures
            r matches Err(e) && e == (if serializer::spec_client_id_missing(
                self.app_config.client_id@,
            ) {
                IdentityError::MissingRequiredParameter(OAuthParameter::ClientId)
            } else {
                IdentityError::MissingRequiredParameter(OAuthParameter::AuthorizationCode)
            }),
    {
        if serializer::client_id_missing(self.app_config.client_id.as_str()) {
            Err(IdentityError::MissingRequiredParameter(OAuthParameter::ClientId))
        } else {
            Err(IdentityError::MissingRequiredParameter(OAuthParameter::AuthorizationCode))
        }
    }
}

} // verus!
