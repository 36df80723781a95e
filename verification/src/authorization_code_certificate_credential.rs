use vstd::prelude::*;

use crate::app_config::AppConfig;
use crate::authority::Authority;
use crate::error::IdentityError;
use crate::form::FormMap;
use crate::serializer;
use crate::text::str_views;

verus! {

/// The authorization-code flow with a certificate assertion: the client
/// proves its identity with a signed JSON web token instead of a secret.
/// Exactly one of the authorization code and the refresh token drives the
/// exchange; where both are set the refresh token wins, and with neither
/// the build fails. The type has no `Debug` form: printing it would
/// expose the signed assertion.
pub struct AuthorizationCodeCertificateCredential {
    pub app_config: AppConfig,
    /// The code obtained from the authorization endpoint, for the first
    /// exchange.
    pub authorization_code: Option<String>,
    /// The refresh token of a later exchange; do not set a code with it.
    pub refresh_token: Option<String>,
    /// The redirect URI the code was delivered to.
    pub redirect_uri: Option<String>,
    /// The PKCE verifier, where PKCE was used to obtain the code.
    pub code_verifier: Option<String>,
    /// The signed assertion (a JSON web token) made with the registered
    /// certificate.
    pub client_assertion: String,
    /// The assertion type; a blank one serializes as the JWT-bearer type.
    pub client_assertion_type: String,
    pub scope: Vec<String>,
}

impl AuthorizationCodeCertificateCredential {
    /// A credential from a captured authorization code and a signed
    /// assertion, on the common authority.
    pub fn new(
        client_id: &str,
        authorization_code: &str,
        client_assertion: &str,
        redirect_uri: Option<String>,
    ) -> (r: AuthorizationCodeCertificateCredential)
        ensures
            r.app_config.client_id@ == client_id@,
            r.app_config.authority == Authority::AzureActiveDirectory,
            r.authorization_code matches Some(c) && c@ == authorization_code@,
            r.refresh_token is None,
            r.redirect_uri == redirect_uri,
            r.code_verifier is None,
            r.client_assertion@ == client_assertion@,
            r.client_assertion_type@ == "urn:ietf:params:oauth:client-assertion-type:jwt-bearer"@,
            r.scope@.len() == 0,
    {
        AuthorizationCodeCertificateCredential {
            app_config: AppConfig::new_with_client_id(client_id),
            authorization_code: Some(String::from_str(authorization_code)),
            refresh_token: None,
            redirect_uri,
            code_verifier: None,
            client_assertion: String::from_str(client_assertion),
            client_assertion_type: serializer::client_assertion_type_jwt(),
            scope: Vec::new(),
        }
    }

    /// A builder starting from an empty credential.
    pub fn builder() -> (r: AuthorizationCodeCertificateCredentialBuilder)
        ensures
            r.credential.authorization_code is None,
            r.credential.refresh_token is None,
    {
        AuthorizationCodeCertificateCredentialBuilder::new()
    }

    /// The token endpoint of this credential's authority and cloud.
    pub fn uri(&self) -> (r: Result<String, IdentityError>)
        ensures
            match r {
                Ok(u) => self.app_config.authority.spec_valid() && u@
                    == crate::authority::spec_token_endpoint(
                    self.app_config.azure_cloud_instance,
                    self.app_config.authority,
                ),
                Err(e) => !self.app_config.authority.spec_valid() && e
                    == IdentityError::MissingTenantId,
            },
    {
        match crate::authority::resolve(
            &self.app_config.azure_cloud_instance,
            &self.app_config.authority,
        ) {
            Ok(endpoints) => Ok(endpoints.token_endpoint),
            Err(e) => Err(e),
        }
    }

    /// The spec-level form of this credential's token request.
    pub open spec fn spec_form(self) -> Result<Seq<(Seq<char>, Seq<char>)>, IdentityError> {
        serializer::spec_certificate_form(
            self.app_config.client_id@,
            match self.authorization_code {
                Some(c) => Some(c@),
                None => None,
            },
            match self.refresh_token {
                Some(c) => Some(c@),
                None => None,
            },
            match self.redirect_uri {
                Some(c) => Some(c@),
                None => None,
            },
            match self.code_verifier {
                Some(c) => Some(c@),
                None => None,
            },
            self.client_assertion@,
            self.client_assertion_type@,
            str_views(self.scope@),
        )
    }

    /// The validated form body of the token request. A set, non-blank
    /// refresh token selects the refresh-token grant, whatever the
    /// authorization code holds.
    pub fn form_urlencode(&self) -> (r: Result<FormMap, IdentityError>)
        ensures
            match r {
                Ok(m) => m.wf() && self.spec_form() == Ok::<
                    Seq<(Seq<char>, Seq<char>)>,
                    IdentityError,
                >(m.entries_view()),
                Err(e) => self.spec_form() == Err::<Seq<(Seq<char>, Seq<char>)>, IdentityError>(e),
            },
    {
        serializer::build_certificate_form(
            self.app_config.client_id.as_str(),
            &self.authorization_code,
            &self.refresh_token,
            &self.redirect_uri,
            &self.code_verifier,
            self.client_assertion.as_str(),
            self.client_assertion_type.as_str(),
            &self.scope,
        )
    }

    /// The client (application) id.
    pub fn client_id(&self) -> (r: &String)
        ensures
            r == &self.app_config.client_id,
    {
        &self.app_config.client_id
    }
}

/// Builds a certificate credential step by step.
pub struct AuthorizationCodeCertificateCredentialBuilder {
    pub credential: AuthorizationCodeCertificateCredential,
}

impl AuthorizationCodeCertificateCredentialBuilder {
    fn new() -> (r: AuthorizationCodeCertificateCredentialBuilder)
        ensures
            r.credential.app_config.client_id@.len() == 0,
            r.credential.authorization_code is None,
            r.credential.refresh_token is None,
            r.credential.redirect_uri is None,
            r.credential.code_verifier is None,
            r.credential.client_assertion@.len() == 0,
            r.credential.client_assertion_type@
                == "urn:ietf:params:oauth:client-assertion-type:jwt-bearer"@,
            r.credential.scope@.len() == 0,
    {
        proof {
            reveal_strlit("");
        }
        AuthorizationCodeCertificateCredentialBuilder {
            credential: AuthorizationCodeCertificateCredential {
                app_config: AppConfig::new_with_client_id(""),
                authorization_code: None,
                refresh_token: None,
                redirect_uri: None,
                code_verifier: None,
                client_assertion: String::new(),
                client_assertion_type: serializer::client_assertion_type_jwt(),
                scope: Vec::new(),
            },
        }
    }

    /// Sets the client id.
    pub fn with_client_id(self, client_id: &str) -> (r: Self)
        ensures
            r.credential.app_config.client_id@ == client_id@,
            r.credential.app_config.authority == self.credential.app_config.authority,
            r.credential.authorization_code == self.credential.authorization_code,
            r.credential.refresh_token == self.credential.refresh_token,
            r.credential.redirect_uri == self.credential.redirect_uri,
            r.credential.code_verifier == self.credential.code_verifier,
            r.credential.client_assertion == self.credential.client_assertion,
            r.credential.client_assertion_type == self.credential.client_assertion_type,
            r.credential.scope == self.credential.scope,
    {
        let AuthorizationCodeCertificateCredentialBuilder { mut credential } = self;
        let AppConfig {
            client_id: _,
            authority,
            azure_cloud_instance,
            extra_header_parameters,
            extra_query_parameters,
        } = credential.app_config;
        credential.app_config = AppConfig {
            client_id: String::from_str(client_id),
            authority,
            azure_cloud_instance,
            extra_header_parameters,
            extra_query_parameters,
        };
        AuthorizationCodeCertificateCredentialBuilder { credential }
    }

    /// Sets the authority.
    pub fn with_authority(self, authority: Authority) -> (r: Self)
        ensures
            r.credential.app_config.authority == authority,
            r.credential.app_config.client_id == self.credential.app_config.client_id,
            r.credential.authorization_code == self.credential.authorization_code,
            r.credential.refresh_token == self.credential.refresh_token,
            r.credential.redirect_uri == self.credential.redirect_uri,
            r.credential.code_verifier == self.credential.code_verifier,
            r.credential.client_assertion == self.credential.client_assertion,
            r.credential.client_assertion_type == self.credential.client_assertion_type,
            r.credential.scope == self.credential.scope,
    {
        let AuthorizationCodeCertificateCredentialBuilder { mut credential } = self;
        let AppConfig {
            client_id,
            authority: _,
            azure_cloud_instance,
            extra_header_parameters,
            extra_query_parameters,
        } = credential.app_config;
        credential.app_config = AppConfig {
            client_id,
            authority,
            azure_cloud_instance,
            extra_header_parameters,
            extra_query_parameters,
        };
        AuthorizationCodeCertificateCredentialBuilder { credential }
    }

    /// Sets the authorization code for the first exchange.
    pub fn with_authorization_code(self, authorization_code: &str) -> (r: Self)
        ensures
            r.credential.authorization_code matches Some(c) && c@ == authorization_code@,
            r.credential.refresh_token == self.credential.refresh_token,
            r.credential.app_config == self.credential.app_config,
            r.credential.redirect_uri == self.credential.redirect_uri,
            r.credential.code_verifier == self.credential.code_verifier,
            r.credential.client_assertion == self.credential.client_assertion,
            r.credential.client_assertion_type == self.credential.client_assertion_type,
            r.credential.scope == self.credential.scope,
    {
        let AuthorizationCodeCertificateCredentialBuilder { mut credential } = self;
        credential.authorization_code = Some(String::from_str(authorization_code));
        AuthorizationCodeCertificateCredentialBuilder { credential }
    }

    /// Sets the refresh token and clears any authorization code: the two
    /// never travel together.
    pub fn with_refresh_token(self, refresh_token: &str) -> (r: Self)
        ensures
            r.credential.authorization_code is None,
            r.credential.refresh_token matches Some(t) && t@ == refresh_token@,
            r.credential.app_config == self.credential.app_config,
            r.credential.redirect_uri == self.credential.redirect_uri,
            r.credential.code_verifier == self.credential.code_verifier,
            r.credential.client_assertion == self.credential.client_assertion,
            r.credential.client_assertion_type == self.credential.client_assertion_type,
            r.credential.scope == self.credential.scope,
    {
        let AuthorizationCodeCertificateCredentialBuilder { mut credential } = self;
        credential.authorization_code = None;
        credential.refresh_token = Some(String::from_str(refresh_token));
        AuthorizationCodeCertificateCredentialBuilder { credential }
    }

    /// Sets the redirect URI the code was delivered to.
    pub fn with_redirect_uri(self, redirect_uri: &str) -> (r: Self)
        ensures
            r.credential.redirect_uri matches Some(u) && u@ == redirect_uri@,
            r.credential.app_config == self.credential.app_config,
            r.credential.authorization_code == self.credential.authorization_code,
            r.credential.refresh_token == self.credential.refresh_token,
            r.credential.code_verifier == self.credential.code_verifier,
            r.credential.client_assertion == self.credential.client_assertion,
            r.credential.client_assertion_type == self.credential.client_assertion_type,
            r.credential.scope == self.credential.scope,
    {
        let AuthorizationCodeCertificateCredentialBuilder { mut credential } = self;
        credential.redirect_uri = Some(String::from_str(redirect_uri));
        AuthorizationCodeCertificateCredentialBuilder { credential }
    }

    /// Sets the PKCE code verifier.
    pub fn with_code_verifier(self, code_verifier: &str) -> (r: Self)
        ensures
            r.credential.code_verifier matches Some(v) && v@ == code_verifier@,
            r.credential.app_config == self.credential.app_config,
            r.credential.authorization_code == self.credential.authorization_code,
            r.credential.refresh_token == self.credential.refresh_token,
            r.credential.redirect_uri == self.credential.redirect_uri,
            r.credential.client_assertion == self.credential.client_assertion,
            r.credential.client_assertion_type == self.credential.client_assertion_type,
            r.credential.scope == self.credential.scope,
    {
        let AuthorizationCodeCertificateCredentialBuilder { mut credential } = self;
        credential.code_verifier = Some(String::from_str(code_verifier));
        AuthorizationCodeCertificateCredentialBuilder { credential }
    }

    /// Sets the signed assertion.
    pub fn with_client_assertion(self, client_assertion: &str) -> (r: Self)
        ensures
            r.credential.client_assertion@ == client_assertion@,
            r.credential.app_config == self.credential.app_config,
            r.credential.authorization_code == self.credential.authorization_code,
            r.credential.refresh_token == self.credential.refresh_token,
            r.credential.redirect_uri == self.credential.redirect_uri,
            r.credential.code_verifier == self.credential.code_verifier,
            r.credential.client_assertion_type == self.credential.client_assertion_type,
            r.credential.scope == self.credential.scope,
    {
        let AuthorizationCodeCertificateCredentialBuilder { mut credential } = self;
        credential.client_assertion = String::from_str(client_assertion);
        AuthorizationCodeCertificateCredentialBuilder { credential }
    }

    /// Sets the assertion type.
    pub fn with_client_assertion_type(self, client_assertion_type: &str) -> (r: Self)
        ensures
            r.credential.client_assertion_type@ == client_assertion_type@,
            r.credential.app_config == self.credential.app_config,
            r.credential.authorization_code == self.credential.authorization_code,
            r.credential.refresh_token == self.credential.refresh_token,
            r.credential.redirect_uri == self.credential.redirect_uri,
            r.credential.code_verifier == self.credential.code_verifier,
            r.credential.client_assertion == self.credential.client_assertion,
            r.credential.scope == self.credential.scope,
    {
        let AuthorizationCodeCertificateCredentialBuilder { mut credential } = self;
        credential.client_assertion_type = String::from_str(client_assertion_type);
        AuthorizationCodeCertificateCredentialBuilder { credential }
    }

    /// Sets the scopes to request.
    pub fn with_scope(self, scope: Vec<String>) -> (r: Self)
        ensures
            r.credential.scope == scope,
            r.credential.app_config == self.credential.app_config,
            r.credential.authorization_code == self.credential.authorization_code,
            r.credential.refresh_token == self.credential.refresh_token,
            r.credential.redirect_uri == self.credential.redirect_uri,
            r.credential.code_verifier == self.credential.code_verifier,
            r.credential.client_assertion == self.credential.client_assertion,
            r.credential.client_assertion_type == self.credential.client_assertion_type,
    {
        let AuthorizationCodeCertificateCredentialBuilder { mut credential } = self;
        credential.scope = scope;
        AuthorizationCodeCertificateCredentialBuilder { credential }
    }

    /// The finished credential.
    pub fn build(self) -> (r: AuthorizationCodeCertificateCredential)
        ensures
            r == self.credential,
    {
        self.credential
    }
}

impl From<AuthorizationCodeCertificateCredential>
    for AuthorizationCodeCertificateCredentialBuilder {
    /// Reopens a credential for further changes.
    fn from(credential: AuthorizationCodeCertificateCredential) -> (r: Self) {
        AuthorizationCodeCertificateCredentialBuilder { credential }
    }
}

impl vstd::std_specs::convert::FromSpecImpl<AuthorizationCodeCertificateCredential>
    for AuthorizationCodeCertificateCredentialBuilder {
    open spec fn obeys_from_spec() -> bool {
        true
    }

    open spec fn from_spec(credential: AuthorizationCodeCertificateCredential) -> Self {
        AuthorizationCodeCertificateCredentialBuilder { credential }
    }
}

} // verus!
