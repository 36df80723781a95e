use vstd::prelude::*;

use crate::app_config::AppConfig;
use crate::authority;
use crate::authorization_code_certificate_credential::AuthorizationCodeCertificateCredential;
use crate::cache::{CacheId, TokenCache, REFRESH_MARGIN_SECS};
use crate::client_secret_credential::ClientSecretCredential;
use crate::error::{IdentityError, OAuthParameter};
use crate::form::FormMap;
use crate::grants::{
    AuthorizationCodeCredential, DeviceCodeCredential, InteractiveCredential,
    RefreshTokenCredential,
};
use crate::serializer;
use crate::text;
use crate::text::str_views;
use crate::token::{token_view_eq, Token};

verus! {

/// One token request, assembled and validated, ready for transport: the
/// endpoint, the form body, the optional basic-auth pair, and the extra
/// headers and query parameters of the application. Built fresh per
/// request, never cached. The type has no `Debug` form: printing it
/// would expose the basic-auth secret.
pub struct AuthorizationRequest {
    pub uri: String,
    pub form_urlencoded: FormMap,
    /// The (client id, secret) pair for the basic-auth header, for grants
    /// whose provider mandates credential transport there.
    pub basic_auth: Option<(String, String)>,
    pub headers: Vec<(String, String)>,
    pub query_parameters: Vec<(String, String)>,
}

impl AuthorizationRequest {
    /// A request from its three essential parts, with no extras.
    pub fn new(uri: String, form_urlencoded: FormMap, basic_auth: Option<(String, String)>) -> (r:
        AuthorizationRequest)
        ensures
            r.uri == uri,
            r.form_urlencoded == form_urlencoded,
            r.basic_auth == basic_auth,
            r.headers@.len() == 0,
            r.query_parameters@.len() == 0,
    {
        AuthorizationRequest {
            uri,
            form_urlencoded,
            basic_auth,
            headers: Vec::new(),
            query_parameters: Vec::new(),
        }
    }

    /// Replaces the extra headers.
    pub fn with_extra_headers(&mut self, headers: Vec<(String, String)>)
        ensures
            final(self).headers == headers,
            final(self).uri == old(self).uri,
            final(self).form_urlencoded == old(self).form_urlencoded,
            final(self).basic_auth == old(self).basic_auth,
            final(self).query_parameters == old(self).query_parameters,
    {
        self.headers = headers;
    }

    /// Replaces the extra query parameters.
    pub fn with_extra_query_parameters(&mut self, query_parameters: Vec<(String, String)>)
        ensures
            final(self).query_parameters == query_parameters,
            final(self).uri == old(self).uri,
            final(self).form_urlencoded == old(self).form_urlencoded,
            final(self).basic_auth == old(self).basic_auth,
            final(self).headers == old(self).headers,
    {
        self.query_parameters = query_parameters;
    }
}

/// One credential per OAuth grant the client supports: a closed sum over
/// the grant kinds, dispatched by match rather than by dynamic types.
pub enum Credential {
    AuthorizationCode(AuthorizationCodeCredential),
    AuthorizationCodeCertificate(AuthorizationCodeCertificateCredential),
    ClientSecret(ClientSecretCredential),
    RefreshToken(RefreshTokenCredential),
    DeviceCode(DeviceCodeCredential),
    Interactive(InteractiveCredential),
}

impl Credential {
    /// The per-application configuration of the variant.
    pub open spec fn spec_app_config(self) -> AppConfig {
        match self {
            Credential::AuthorizationCode(c) => c.app_config,
            Credential::AuthorizationCodeCertificate(c) => c.app_config,
            Credential::ClientSecret(c) => c.app_config,
            Credential::RefreshToken(c) => c.app_config,
            Credential::DeviceCode(c) => c.app_config,
            Credential::Interactive(c) => c.app_config,
        }
    }

    /// The scope list of the variant.
    pub open spec fn spec_scope(self) -> Seq<String> {
        match self {
            Credential::AuthorizationCode(c) => c.scope@,
            Credential::AuthorizationCodeCertificate(c) => c.scope@,
            Credential::ClientSecret(c) => c.scope@,
            Credential::RefreshToken(c) => c.scope@,
            Credential::DeviceCode(c) => c.scope@,
            Credential::Interactive(c) => c.scope@,
        }
    }

    /// What serialization yields for the variant: the grant-specific
    /// entries, or the first validation failure.
    pub open spec fn spec_serialize(self) -> Result<Seq<(Seq<char>, Seq<char>)>, IdentityError> {
        match self {
            Credential::AuthorizationCode(c) => serializer::spec_authorization_code_form(
                c.app_config.client_id@,
                c.authorization_code@,
                c.redirect_uri@,
                match c.code_verifier {
                    Some(v) => Some(v@),
                    None => None,
                },
                str_views(c.scope@),
            ),
            Credential::AuthorizationCodeCertificate(c) => c.spec_form(),
            Credential::ClientSecret(c) => serializer::spec_client_secret_form(
                c.app_config.client_id@,
                c.client_secret@,
                str_views(c.scope@),
            ),
            Credential::RefreshToken(c) => serializer::spec_refresh_token_form(
                c.app_config.client_id@,
                c.refresh_token@,
                str_views(c.scope@),
            ),
            Credential::DeviceCode(c) => serializer::spec_device_code_form(
                c.app_config.client_id@,
                c.device_code@,
                str_views(c.scope@),
            ),
            Credential::Interactive(c) => {
                if serializer::spec_client_id_missing(c.app_config.client_id@) {
                    Err(IdentityError::MissingRequiredParameter(OAuthParameter::ClientId))
                } else {
                    Err(IdentityError::MissingRequiredParameter(OAuthParameter::AuthorizationCode))
                }
            },
        }
    }

    /// The token endpoint of the variant's authority and cloud, or the
    /// missing-tenant failure.
    pub open spec fn spec_uri(self) -> Result<Seq<char>, IdentityError> {
        if self.spec_app_config().authority.spec_valid() {
            Ok(
                authority::spec_token_endpoint(
                    self.spec_app_config().azure_cloud_instance,
                    self.spec_app_config().authority,
                ),
            )
        } else {
            Err(IdentityError::MissingTenantId)
        }
    }

    /// The per-application configuration.
    pub fn app_config(&self) -> (r: &AppConfig)
        ensures
            *r == self.spec_app_config(),
    {
        match self {
            Credential::AuthorizationCode(c) => &c.app_config,
            Credential::AuthorizationCodeCertificate(c) => &c.app_config,
            Credential::ClientSecret(c) => &c.app_config,
            Credential::RefreshToken(c) => &c.app_config,
            Credential::DeviceCode(c) => &c.app_config,
            Credential::Interactive(c) => &c.app_config,
        }
    }

    /// The scope list.
    pub fn scope(&self) -> (r: &Vec<String>)
        ensures
            r@ == self.spec_scope(),
    {
        match self {
            Credential::AuthorizationCode(c) => &c.scope,
            Credential::AuthorizationCodeCertificate(c) => &c.scope,
            Credential::ClientSecret(c) => &c.scope,
            Credential::RefreshToken(c) => &c.scope,
            Credential::DeviceCode(c) => &c.scope,
            Credential::Interactive(c) => &c.scope,
        }
    }

    /// The client (application) id.
    pub fn client_id(&self) -> (r: &String)
        ensures
            *r == self.spec_app_config().client_id,
    {
        &self.app_config().client_id
    }

    /// The token endpoint for this credential.
    pub fn uri(&self) -> (r: Result<String, IdentityError>)
        ensures
            match r {
                Ok(u) => self.spec_uri() == Ok::<Seq<char>, IdentityError>(u@),
                Err(e) => self.spec_uri() == Err::<Seq<char>, IdentityError>(e),
            },
    {
        let cfg = self.app_config();
        match authority::resolve(&cfg.azure_cloud_instance, &cfg.authority) {
            Ok(endpoints) => Ok(endpoints.token_endpoint),
            Err(e) => Err(e),
        }
    }

    /// The validated, grant-specific form body; the same map `serialize`
    /// yields.
    pub fn form_body(&self) -> (r: Result<FormMap, IdentityError>)
        ensures
            match r {
                Ok(m) => m.wf() && self.spec_serialize() == Ok::<
                    Seq<(Seq<char>, Seq<char>)>,
                    IdentityError,
                >(m.entries_view()),
                Err(e) => self.spec_serialize() == Err::<
                    Seq<(Seq<char>, Seq<char>)>,
                    IdentityError,
                >(e),
            },
    {
        serialize(self)
    }

    /// The basic-auth pair: only the client-secret grant carries one.
    pub fn basic_auth(&self) -> (r: Option<(String, String)>)
        ensures
            match self {
                Credential::ClientSecret(c) => r matches Some(p) && p.0@ == c.app_config.client_id@
                    && p.1@ == c.client_secret@,
                _ => r is None,
            },
    {
        match self {
            Credential::ClientSecret(c) => c.basic_auth(),
            _ => None,
        }
    }

    /// The OpenID-configuration discovery endpoint for this credential.
    pub fn openid_configuration_url(&self) -> (r: Result<String, IdentityError>)
        ensures
            match r {
                Ok(u) => self.spec_app_config().authority.spec_valid() && u@
                    == authority::spec_openid_configuration_endpoint(
                    self.spec_app_config().azure_cloud_instance,
                    self.spec_app_config().authority,
                ),
                Err(e) => !self.spec_app_config().authority.spec_valid() && e
                    == IdentityError::MissingTenantId,
            },
    {
        let cfg = self.app_config();
        match authority::resolve(&cfg.azure_cloud_instance, &cfg.authority) {
            Ok(endpoints) => Ok(endpoints.openid_configuration_endpoint),
            Err(e) => Err(e),
        }
    }

    /// The scope list as the variant's own vector.
    pub open spec fn spec_scope_vec(self) -> Vec<String> {
        match self {
            Credential::AuthorizationCode(c) => c.scope,
            Credential::AuthorizationCodeCertificate(c) => c.scope,
            Credential::ClientSecret(c) => c.scope,
            Credential::RefreshToken(c) => c.scope,
            Credential::DeviceCode(c) => c.scope,
            Credential::Interactive(c) => c.scope,
        }
    }

    /// The identity under which this credential's tokens are cached.
    pub open spec fn spec_cache_id(self) -> CacheId {
        CacheId {
            client_id: self.spec_app_config().client_id,
            tenant_id: match self.spec_app_config().authority {
                crate::authority::Authority::TenantId(t) => Some(t),
                _ => None,
            },
            scopes: self.spec_scope_vec(),
        }
    }

    /// The cache identity: client id, tenant, and the scope set.
    pub fn cache_id(&self) -> (r: CacheId)
        ensures
            r.client_id@ == self.spec_app_config().client_id@,
            match (r.tenant_id, self.spec_app_config().authority.spec_tenant_id()) {
                (Some(a), Some(b)) => a@ == b,
                (None, None) => true,
                _ => false,
            },
            str_views(r.scopes@) == str_views(self.spec_scope()),
    {
        let cfg = self.app_config();
        let tenant = match cfg.tenant_id() {
            Some(t) => Some(t.clone()),
            None => None,
        };
        CacheId::new(cfg.client_id.clone(), tenant, text::clone_strings(self.scope()))
    }

    /// The assembled request is faithful to the credential: the resolved
    /// endpoint, the serialized form, the grant's basic-auth rule, and the
    /// application's extras, unchanged.
    pub open spec fn spec_request_ok(self, req: AuthorizationRequest) -> bool {
        &&& self.spec_uri() == Ok::<Seq<char>, IdentityError>(req.uri@)
        &&& req.form_urlencoded.wf()
        &&& self.spec_serialize() == Ok::<Seq<(Seq<char>, Seq<char>)>, IdentityError>(
            req.form_urlencoded.entries_view(),
        )
        &&& match self {
            Credential::ClientSecret(c) => req.basic_auth matches Some(p) && p.0@
                == c.app_config.client_id@ && p.1@ == c.client_secret@,
            _ => req.basic_auth is None,
        }
        &&& req.headers@ == self.spec_app_config().extra_header_parameters@
        &&& req.query_parameters@ == self.spec_app_config().extra_query_parameters@
    }

    /// Assembling a request fails with the endpoint's error first, else
    /// with the serializer's.
    pub open spec fn spec_request_err(self, e: IdentityError) -> bool {
        if self.spec_uri() is Err {
            self.spec_uri() == Err::<Seq<char>, IdentityError>(e)
        } else {
            self.spec_serialize() == Err::<Seq<(Seq<char>, Seq<char>)>, IdentityError>(e)
        }
    }

    /// Assembles the transport-ready request: the endpoint, the validated
    /// form body, the basic-auth pair, and the application's extra headers
    /// and query parameters.
    pub fn authorization_request_parts(&self) -> (r: Result<AuthorizationRequest, IdentityError>)
        ensures
            match r {
                Ok(req) => self.spec_request_ok(req),
                Err(e) => self.spec_request_err(e),
            },
    {
        let uri = match self.uri() {
            Ok(u) => u,
            Err(e) => {
                return Err(e);
            },
        };
        let form = match self.form_body() {
            Ok(f) => f,
            Err(e) => {
                return Err(e);
            },
        };
        let basic_auth = self.basic_auth();
        let mut request = AuthorizationRequest::new(uri, form, basic_auth);
        let cfg = self.app_config();
        request.with_extra_headers(text::clone_pairs(&cfg.extra_header_parameters));
        request.with_extra_query_parameters(text::clone_pairs(&cfg.extra_query_parameters));
        Ok(request)
    }

    /// Stores a freshly parsed token under this credential's cache
    /// identity; the previous entry for the identity, if any, is
    /// overwritten, and entries under other identities are untouched.
    pub fn store_token(&self, cache: &mut TokenCache, token: Token)
        requires
            old(cache).wf(),
        ensures
            final(cache).wf(),
            final(cache).spec_lookup(self.spec_cache_id()) == Some(token),
            forall|q: CacheId|
                !crate::cache::spec_matches(q, self.spec_cache_id()) ==> final(cache).spec_lookup(q)
                    == old(cache).spec_lookup(q),
    {
        let id = self.cache_id();
        let ghost spec_id = self.spec_cache_id();
        let ghost id_ghost = id;
        proof {
            assert(crate::cache::spec_matches(id_ghost, spec_id));
        }
        cache.store(id, token);
        proof {
            crate::cache::lemma_matches_sym(id_ghost, spec_id);
            cache.lemma_lookup_congruent(spec_id, id_ghost);
            assert forall|q: CacheId|
                !crate::cache::spec_matches(q, spec_id) implies final(cache).spec_lookup(q) == old(
                cache,
            ).spec_lookup(q) by {
                if crate::cache::spec_matches(q, id_ghost) {
                    crate::cache::lemma_matches_trans(q, spec_id, id_ghost);
                }
            }
        }
    }
}

/// The outcome of one silent acquisition step.
pub enum SilentTokenFlow {
    /// A cached token fresh beyond the refresh margin: reuse it; no
    /// network call happens.
    UseCachedToken(Token),
    /// No fresh cached token: send this request, parse the response into
    /// a token, and store it under the credential's cache identity.
    SendTokenRequest(AuthorizationRequest),
}

impl Credential {
    /// Decides one silent acquisition step at wall-clock second `now`. A
    /// cached token that does not expire within the refresh margin is
    /// returned unchanged and nothing else happens; otherwise the
    /// transport-ready request is assembled, and validation failures
    /// surface unchanged. Concurrent callers that both miss may both
    /// refresh: the cache keeps the last write.
    pub fn get_token_silent(&self, cache: &TokenCache, now: u64) -> (r: Result<
        SilentTokenFlow,
        IdentityError,
    >)
        requires
            cache.wf(),
        ensures
            ({
                let hit = cache.spec_lookup(self.spec_cache_id());
                let fresh = hit matches Some(t) && !t.spec_is_expired_within(
                    REFRESH_MARGIN_SECS,
                    now,
                );
                if fresh {
                    r matches Ok(f) && f matches SilentTokenFlow::UseCachedToken(t2)
                        && token_view_eq(t2, hit->Some_0)
                } else {
                    match r {
                        Ok(f) => f matches SilentTokenFlow::SendTokenRequest(req)
                            && self.spec_request_ok(req),
                        Err(e) => self.spec_request_err(e),
                    }
                }
            }),
    {
        let id = self.cache_id();
        let ghost id_ghost = id;
        let ghost spec_id = self.spec_cache_id();
        proof {
            assert(crate::cache::spec_matches(id_ghost, spec_id));
            crate::cache::lemma_matches_sym(id_ghost, spec_id);
            cache.lemma_lookup_congruent(spec_id, id_ghost);
        }
        match cache.get_if_fresh(&id, now) {
            Some(t) => Ok(SilentTokenFlow::UseCachedToken(t.clone())),
            None => match self.authorization_request_parts() {
                Ok(req) => Ok(SilentTokenFlow::SendTokenRequest(req)),
                Err(e) => Err(e),
            },
        }
    }
}

/// Two computations of the token endpoint from one credential state give
/// byte-identical URLs, or the same error: the endpoint is a pure
/// function of the state.
pub proof fn lemma_uri_idempotent(
    c: Credential,
    r1: Result<String, IdentityError>,
    r2: Result<String, IdentityError>,
)
    requires
        match r1 {
            Ok(u) => c.spec_uri() == Ok::<Seq<char>, IdentityError>(u@),
            Err(e) => c.spec_uri() == Err::<Seq<char>, IdentityError>(e),
        },
        match r2 {
            Ok(u) => c.spec_uri() == Ok::<Seq<char>, IdentityError>(u@),
            Err(e) => c.spec_uri() == Err::<Seq<char>, IdentityError>(e),
        },
    ensures
        match (r1, r2) {
            (Ok(u1), Ok(u2)) => u1@ == u2@,
            (Err(e1), Err(e2)) => e1 == e2,
            _ => false,
        },
{
}

/// Any two requests assembled from one credential state are observably
/// identical: same URI, same form fields, same basic-auth pair, same
/// extras. The blocking and the suspending execution paths both send a
/// request assembled here, so they send the same bytes.
pub proof fn lemma_request_parts_deterministic(
    c: Credential,
    r1: AuthorizationRequest,
    r2: AuthorizationRequest,
)
    requires
        c.spec_request_ok(r1),
        c.spec_request_ok(r2),
    ensures
        r1.uri@ == r2.uri@,
        r1.form_urlencoded.entries_view() == r2.form_urlencoded.entries_view(),
        match (r1.basic_auth, r2.basic_auth) {
            (Some(a), Some(b)) => a.0@ == b.0@ && a.1@ == b.1@,
            (None, None) => true,
            _ => false,
        },
        r1.headers@ == r2.headers@,
        r1.query_parameters@ == r2.query_parameters@,
{
}

/// Serialization with a blank client id fails with the missing-client-id
/// error, for every credential variant, and yields no form map at all.
pub proof fn lemma_serialize_blank_client_id(c: Credential)
    requires
        text::spec_is_blank(c.spec_app_config().client_id@),
    ensures
        c.spec_serialize() == Err::<Seq<(Seq<char>, Seq<char>)>, IdentityError>(
            IdentityError::MissingRequiredParameter(OAuthParameter::ClientId),
        ),
{
}

/// Converts a credential into its validated, grant-specific form map,
/// enforcing the required- and forbidden-field rules of its grant before
/// any network call. On failure no map exists, only the first error.
pub fn serialize(credential: &Credential) -> (r: Result<FormMap, IdentityError>)
    ensures
        match r {
            Ok(m) => m.wf() && credential.spec_serialize() == Ok::<
                Seq<(Seq<char>, Seq<char>)>,
                IdentityError,
            >(m.entries_view()),
            Err(e) => credential.spec_serialize() == Err::<
                Seq<(Seq<char>, Seq<char>)>,
                IdentityError,
            >(e),
        },
{
    match credential {
        Credential::AuthorizationCode(c) => c.form_urlencode(),
        Credential::AuthorizationCodeCertificate(c) => c.form_urlencode(),
        Credential::ClientSecret(c) => c.form_urlencode(),
        Credential::RefreshToken(c) => c.form_urlencode(),
        Credential::DeviceCode(c) => c.form_urlencode(),
        Credential::Interactive(c) => c.form_urlencode(),
    }
}

} // verus!
