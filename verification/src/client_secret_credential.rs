use vstd::prelude::*;

use crate::app_config::AppConfig;
use crate::authority::{Authority, AzureCloudInstance};
use crate::cache::CacheId;
use crate::client_credentials_authorization_url::ClientCredentialsAuthorizationUrlBuilder;
use crate::error::IdentityError;
use crate::form::FormMap;
use crate::serializer;
use crate::text::str_views;

verus! {

/// The client-credentials flow with a client secret: a confidential client
/// authenticating as itself, without a user, as for daemons and service
/// accounts. The client id and secret travel in the basic-auth header of
/// the token request, never in its form body. The type has no `Debug`
/// form: printing it would expose the secret.
pub struct ClientSecretCredential {
    pub app_config: AppConfig,
    /// The application secret from the app registration portal.
    pub client_secret: String,
    /// The scopes to request; defaults to the resource's `.default` scope.
    pub scope: Vec<String>,
}

impl ClientSecretCredential {
    /// A credential on the common authority, with the default scope.
    pub fn new(client_id: &str, client_secret: &str) -> (r: ClientSecretCredential)
        ensures
            r.app_config.client_id@ == client_id@,
            r.app_config.authority == Authority::AzureActiveDirectory,
            r.app_config.azure_cloud_instance == AzureCloudInstance::AzurePublic,
            r.client_secret@ == client_secret@,
            str_views(r.scope@) =~= seq!["https://graph.microsoft.com/.default"@],
    {
        let mut scope: Vec<String> = Vec::new();
        scope.push(serializer::default_scope());
        let r = ClientSecretCredential {
            app_config: AppConfig::new_with_client_id(client_id),
            client_secret: String::from_str(client_secret),
            scope,
        };
        proof {
            assert(str_views(r.scope@) =~= seq!["https://graph.microsoft.com/.default"@]);
        }
        r
    }

    /// A credential bound to one specific tenant, with the default scope.
    pub fn new_with_tenant(tenant_id: &str, client_id: &str, client_secret: &str) -> (r:
        ClientSecretCredential)
        ensures
            r.app_config.client_id@ == client_id@,
            r.app_config.authority matches Authority::TenantId(t) && t@ == tenant_id@,
            r.app_config.azure_cloud_instance == AzureCloudInstance::AzurePublic,
            r.client_secret@ == client_secret@,
            str_views(r.scope@) =~= seq!["https://graph.microsoft.com/.default"@],
    {
        let mut scope: Vec<String> = Vec::new();
        scope.push(serializer::default_scope());
        let r = ClientSecretCredential {
            app_config: AppConfig::new_with_tenant_and_client_id(tenant_id, client_id),
            client_secret: String::from_str(client_secret),
            scope,
        };
        proof {
            assert(str_views(r.scope@) =~= seq!["https://graph.microsoft.com/.default"@]);
        }
        r
    }

    /// A builder for the admin-consent authorization URL of this flow.
    pub fn authorization_url_builder(client_id: &str) -> (r:
        ClientCredentialsAuthorizationUrlBuilder)
        ensures
            r.credential.client_id@ == client_id@,
    {
        ClientCredentialsAuthorizationUrlBuilder::new_with_client_id(client_id)
    }

    /// The token endpoint of this credential's authority and cloud.
    pub fn uri(&self) -> (r: Result<String, IdentityError>)
        ensures
            match r {
                Ok(u) => self.app_config.authority.spec_valid() && u@
                    == crate::authority::spec_token_endpoint(
                    self.app_config.azure_cloud_instance,
                    self.app_config.authority,
                ),
                Err(e) => !self.app_config.authority.spec_valid() && e
                    == IdentityError::MissingTenantId,
            },
    {
        match crate::authority::resolve(
            &self.app_config.azure_cloud_instance,
            &self.app_config.authority,
        ) {
            Ok(endpoints) => Ok(endpoints.token_endpoint),
            Err(e) => Err(e),
        }
    }

    /// The validated form body of the token request, per the
    /// client-credentials grant.
    pub fn form_urlencode(&self) -> (r: Result<FormMap, IdentityError>)
        ensures
            ({
                let s = serializer::spec_client_secret_form(
                    self.app_config.client_id@,
                    self.client_secret@,
                    str_views(self.scope@),
                );
                match r {
                    Ok(m) => {
                        &&& m.wf()
                        &&& s == Ok::<Seq<(Seq<char>, Seq<char>)>, IdentityError>(
                            m.entries_view(),
                        )
                        &&& !m@.contains_key("client_id"@)
                        &&& !m@.contains_key("client_secret"@)
                    },
                    Err(e) => s == Err::<Seq<(Seq<char>, Seq<char>)>, IdentityError>(e),
                }
            }),
    {
        serializer::build_client_secret_form(
            self.app_config.client_id.as_str(),
            self.client_secret.as_str(),
            &self.scope,
        )
    }

    /// The basic-auth pair of this flow: the client id and the secret.
    pub fn basic_auth(&self) -> (r: Option<(String, String)>)
        ensures
            r matches Some(p) && p.0@ == self.app_config.client_id@ && p.1@
                == self.client_secret@,
    {
        Some((self.app_config.client_id.clone(), self.client_secret.clone()))
    }

    /// The client (application) id.
    pub fn client_id(&self) -> (r: &String)
        ensures
            r == &self.app_config.client_id,
    {
        &self.app_config.client_id
    }

    /// The tenant-scoping authority.
    pub fn authority(&self) -> (r: Authority)
        ensures
            r == self.app_config.authority,
    {
        self.app_config.authority.clone()
    }

    /// The sovereign cloud of this credential.
    pub fn azure_cloud_instance(&self) -> (r: AzureCloudInstance)
        ensures
            r == self.app_config.azure_cloud_instance,
    {
        self.app_config.azure_cloud_instance
    }

    /// The per-application configuration.
    pub fn app_config(&self) -> (r: &AppConfig)
        ensures
            r == &self.app_config,
    {
        &self.app_config
    }

    /// The identity under which tokens of this credential are cached:
    /// client id, tenant and scope set.
    pub fn cache_id(&self) -> (r: CacheId)
        ensures
            r.client_id@ == self.app_config.client_id@,
            match (r.tenant_id, self.app_config.authority.spec_tenant_id()) {
                (Some(a), Some(b)) => a@ == b,
                (None, None) => true,
                _ => false,
            },
            str_views(r.scopes@) == str_views(self.scope@),
    {
        let tenant = match self.app_config.tenant_id() {
            Some(t) => Some(t.clone()),
            None => None,
        };
        let scopes = crate::text::clone_strings(&self.scope);
        CacheId::new(self.app_config.client_id.clone(), tenant, scopes)
    }
}

/// Builds a client-secret credential step by step.
pub struct ClientSecretCredentialBuilder {
    pub credential: ClientSecretCredential,
}

impl ClientSecretCredentialBuilder {
    /// A builder seeded with the client id and secret.
    pub fn new(client_id: &str, client_secret: &str) -> (r: ClientSecretCredentialBuilder)
        ensures
            r.credential.app_config.client_id@ == client_id@,
            r.credential.client_secret@ == client_secret@,
            str_views(r.credential.scope@) =~= seq!["https://graph.microsoft.com/.default"@],
    {
        ClientSecretCredentialBuilder { credential: ClientSecretCredential::new(client_id, client_secret) }
    }

    /// A builder seeded with a secret and an existing configuration.
    pub fn new_with_client_secret(client_secret: &str, app_config: AppConfig) -> (r:
        ClientSecretCredentialBuilder)
        ensures
            r.credential.app_config == app_config,
            r.credential.client_secret@ == client_secret@,
            str_views(r.credential.scope@) =~= seq!["https://graph.microsoft.com/.default"@],
    {
        let mut scope: Vec<String> = Vec::new();
        scope.push(serializer::default_scope());
        let r = ClientSecretCredentialBuilder {
            credential: ClientSecretCredential {
                app_config,
                client_secret: String::from_str(client_secret),
                scope,
            },
        };
        proof {
            assert(str_views(r.credential.scope@) =~= seq![
                "https://graph.microsoft.com/.default"@,
            ]);
        }
        r
    }

    /// Replaces the client secret.
    pub fn with_client_secret(self, client_secret: &str) -> (r: Self)
        ensures
            r.credential.client_secret@ == client_secret@,
            r.credential.app_config == self.credential.app_config,
            r.credential.scope == self.credential.scope,
    {
        let ClientSecretCredentialBuilder { credential } = self;
        let ClientSecretCredential { app_config, client_secret: _, scope } = credential;
        ClientSecretCredentialBuilder {
            credential: ClientSecretCredential {
                app_config,
                client_secret: String::from_str(client_secret),
                scope,
            },
        }
    }

    /// The finished credential.
    pub fn credential(self) -> (r: ClientSecretCredential)
        ensures
            r == self.credential,
    {
        self.credential
    }
}

} // verus!
