use vstd::prelude::*;

use crate::authority;
use crate::authority::{Authority, AzureCloudInstance};
use crate::error::{IdentityError, OAuthParameter};
use crate::text;
use crate::url_support;

verus! {

/// The admin-consent authorization URL of the client-credentials flow: the
/// page an administrator visits to grant the application its consented
/// scopes.
#[derive(Debug)]
pub struct ClientCredentialsAuthorizationUrl {
    /// The client (application) id of the service principal.
    pub client_id: String,
    pub redirect_uri: String,
    pub state: Option<String>,
    pub authority: Authority,
}

/// The query pairs of the admin-consent URL, in order: the client id, the
/// redirect URI, and the state where one is set.
pub open spec fn spec_consent_query_pairs(
    client_id: Seq<char>,
    redirect_uri: Seq<char>,
    state: Option<Seq<char>>,
) -> Seq<(Seq<char>, Seq<char>)> {
    let base = seq![("client_id"@, client_id), ("redirect_uri"@, redirect_uri)];
    match state {
        Some(s) => base.push(("state"@, s)),
        None => base,
    }
}

/// The admin-consent URL, or the reason it cannot be built: a blank client
/// id, a blank redirect URI, or a blank tenant in a specific-tenant
/// authority.
pub open spec fn spec_client_credentials_url(
    c: AzureCloudInstance,
    a: Authority,
    client_id: Seq<char>,
    redirect_uri: Seq<char>,
    state: Option<Seq<char>>,
) -> Result<Seq<char>, IdentityError> {
    if text::spec_is_blank(client_id) {
        Err(IdentityError::MissingRequiredParameter(OAuthParameter::ClientId))
    } else if text::spec_is_blank(redirect_uri) {
        Err(IdentityError::MissingRequiredParameter(OAuthParameter::RedirectUri))
    } else if !a.spec_valid() {
        Err(IdentityError::MissingTenantId)
    } else {
        Ok(
            authority::spec_admin_consent_endpoint(c, a) + "?"@
                + url_support::form_urlencoded_of(
                spec_consent_query_pairs(client_id, redirect_uri, state),
            ),
        )
    }
}

impl ClientCredentialsAuthorizationUrl {
    /// A URL description for a client id and redirect URI, on the common
    /// authority.
    pub fn new(client_id: &str, redirect_uri: &str) -> (r: ClientCredentialsAuthorizationUrl)
        ensures
            r.client_id@ == client_id@,
            r.redirect_uri@ == redirect_uri@,
            r.state is None,
            r.authority == Authority::AzureActiveDirectory,
    {
        ClientCredentialsAuthorizationUrl {
            client_id: String::from_str(client_id),
            redirect_uri: String::from_str(redirect_uri),
            state: None,
            authority: Authority::AzureActiveDirectory,
        }
    }

    /// A builder for this URL description.
    pub fn builder() -> (r: ClientCredentialsAuthorizationUrlBuilder)
        ensures
            r.credential.client_id@.len() == 0,
            r.credential.redirect_uri@.len() == 0,
            r.credential.state is None,
            r.credential.authority == Authority::AzureActiveDirectory,
    {
        ClientCredentialsAuthorizationUrlBuilder::new()
    }

    /// The state value's character view, where one is set.
    pub open spec fn spec_state(self) -> Option<Seq<char>> {
        match self.state {
            Some(s) => Some(s@),
            None => None,
        }
    }

    /// The admin-consent URL on the public cloud.
    pub fn url(&self) -> (r: Result<String, IdentityError>)
        ensures
            match r {
                Ok(u) => spec_client_credentials_url(
                    AzureCloudInstance::AzurePublic,
                    self.authority,
                    self.client_id@,
                    self.redirect_uri@,
                    self.spec_state(),
                ) == Ok::<Seq<char>, IdentityError>(u@),
                Err(e) => spec_client_credentials_url(
                    AzureCloudInstance::AzurePublic,
                    self.authority,
                    self.client_id@,
                    self.redirect_uri@,
                    self.spec_state(),
                ) == Err::<Seq<char>, IdentityError>(e),
            },
    {
        self.url_with_host(&AzureCloudInstance::AzurePublic)
    }

    /// The admin-consent URL on the given cloud: the authority's
    /// admin-consent endpoint with the form-urlencoded query pairs.
    pub fn url_with_host(&self, azure_cloud_instance: &AzureCloudInstance) -> (r: Result<
        String,
        IdentityError,
    >)
        ensures
            match r {
                Ok(u) => spec_client_credentials_url(
                    *azure_cloud_instance,
                    self.authority,
                    self.client_id@,
                    self.redirect_uri@,
                    self.spec_state(),
                ) == Ok::<Seq<char>, IdentityError>(u@),
                Err(e) => spec_client_credentials_url(
                    *azure_cloud_instance,
                    self.authority,
                    self.client_id@,
                    self.redirect_uri@,
                    self.spec_state(),
                ) == Err::<Seq<char>, IdentityError>(e),
            },
    {
        if text::is_blank(self.client_id.as_str()) {
            return Err(IdentityError::MissingRequiredParameter(OAuthParameter::ClientId));
        }
        if text::is_blank(self.redirect_uri.as_str()) {
            return Err(IdentityError::MissingRequiredParameter(OAuthParameter::RedirectUri));
        }
        let mut pairs: Vec<(String, String)> = Vec::new();
        pairs.push((String::from_str("client_id"), self.client_id.clone()));
        pairs.push((String::from_str("redirect_uri"), self.redirect_uri.clone()));
        if let Some(s) = &self.state {
            pairs.push((String::from_str("state"), s.clone()));
        }
        proof {
            assert(pairs@.map_values(|p: (String, String)| (p.0@, p.1@))
                =~= spec_consent_query_pairs(
                self.client_id@,
                self.redirect_uri@,
                self.spec_state(),
            ));
        }
        let query = url_support::form_urlencode_pairs(&pairs);
        let mut base = match crate::authority::resolve_admin_consent(
            azure_cloud_instance,
            &self.authority,
        ) {
            Ok(b) => b,
            Err(e) => {
                return Err(e);
            },
        };
        base.append("?");
        base.append(query.as_str());
        Ok(base)
    }
}

/// Builds a client-credentials authorization URL step by step.
#[derive(Debug)]
pub struct ClientCredentialsAuthorizationUrlBuilder {
    pub credential: ClientCredentialsAuthorizationUrl,
}

impl ClientCredentialsAuthorizationUrlBuilder {
    fn new() -> (r: ClientCredentialsAuthorizationUrlBuilder)
        ensures
            r.credential.client_id@.len() == 0,
            r.credential.redirect_uri@.len() == 0,
            r.credential.state is None,
            r.credential.authority == Authority::AzureActiveDirectory,
    {
        ClientCredentialsAuthorizationUrlBuilder {
            credential: ClientCredentialsAuthorizationUrl {
                client_id: String::new(),
                redirect_uri: String::new(),
                state: None,
                authority: Authority::AzureActiveDirectory,
            },
        }
    }

    /// A builder seeded with a client id.
    pub(crate) fn new_with_client_id(client_id: &str) -> (r:
        ClientCredentialsAuthorizationUrlBuilder)
        ensures
            r.credential.client_id@ == client_id@,
            r.credential.redirect_uri@.len() == 0,
            r.credential.state is None,
            r.credential.authority == Authority::AzureActiveDirectory,
    {
        ClientCredentialsAuthorizationUrlBuilder {
            credential: ClientCredentialsAuthorizationUrl {
                client_id: String::from_str(client_id),
                redirect_uri: String::new(),
                state: None,
                authority: Authority::AzureActiveDirectory,
            },
        }
    }

    /// Sets the client id.
    pub fn with_client_id(self, client_id: &str) -> (r: Self)
        ensures
            r.credential.client_id@ == client_id@,
            r.credential.redirect_uri == self.credential.redirect_uri,
            r.credential.state == self.credential.state,
            r.credential.authority == self.credential.authority,
    {
        let ClientCredentialsAuthorizationUrlBuilder { credential } = self;
        let ClientCredentialsAuthorizationUrl { client_id: _, redirect_uri, state, authority } =
            credential;
        ClientCredentialsAuthorizationUrlBuilder {
            credential: ClientCredentialsAuthorizationUrl {
                client_id: String::from_str(client_id),
                redirect_uri,
                state,
                authority,
            },
        }
    }

    /// Sets the redirect URI.
    pub fn with_redirect_uri(self, redirect_uri: &str) -> (r: Self)
        ensures
            r.credential.redirect_uri@ == redirect_uri@,
            r.credential.client_id == self.credential.client_id,
            r.credential.state == self.credential.state,
            r.credential.authority == self.credential.authority,
    {
        let ClientCredentialsAuthorizationUrlBuilder { credential } = self;
        let ClientCredentialsAuthorizationUrl { client_id, redirect_uri: _, state, authority } =
            credential;
        ClientCredentialsAuthorizationUrlBuilder {
            credential: ClientCredentialsAuthorizationUrl {
                client_id,
                redirect_uri: String::from_str(redirect_uri),
                state,
                authority,
            },
        }
    }

    /// Scopes the URL to one specific tenant; the same as setting a
    /// tenant-id authority.
    pub fn with_tenant(self, tenant: &str) -> (r: Self)
        ensures
            r.credential.authority matches Authority::TenantId(t) && t@ == tenant@,
            r.credential.client_id == self.credential.client_id,
            r.credential.redirect_uri == self.credential.redirect_uri,
            r.credential.state == self.credential.state,
    {
        self.with_authority(Authority::TenantId(String::from_str(tenant)))
    }

    /// Sets the authority.
    pub fn with_authority(self, authority: Authority) -> (r: Self)
        ensures
            r.credential.authority == authority,
            r.credential.client_id == self.credential.client_id,
            r.credential.redirect_uri == self.credential.redirect_uri,
            r.credential.state == self.credential.state,
    {
        let ClientCredentialsAuthorizationUrlBuilder { credential } = self;
        let ClientCredentialsAuthorizationUrl { client_id, redirect_uri, state, authority: _ } =
            credential;
        ClientCredentialsAuthorizationUrlBuilder {
            credential: ClientCredentialsAuthorizationUrl {
                client_id,
                redirect_uri,
                state,
                authority,
            },
        }
    }

    /// Sets the opaque state echoed back on the redirect.
    pub fn with_state(self, state: &str) -> (r: Self)
        ensures
            r.credential.state matches Some(s) && s@ == state@,
            r.credential.client_id == self.credential.client_id,
            r.credential.redirect_uri == self.credential.redirect_uri,
            r.credential.authority == self.credential.authority,
    {
        let ClientCredentialsAuthorizationUrlBuilder { credential } = self;
        let ClientCredentialsAuthorizationUrl { client_id, redirect_uri, state: _, authority } =
            credential;
        ClientCredentialsAuthorizationUrlBuilder {
            credential: ClientCredentialsAuthorizationUrl {
                client_id,
                redirect_uri,
                state: Some(String::from_str(state)),
                authority,
            },
        }
    }

    /// The finished URL description.
    pub fn build(self) -> (r: ClientCredentialsAuthorizationUrl)
        ensures
            r == self.credential,
    {
        self.credential
    }
}

} // verus!
