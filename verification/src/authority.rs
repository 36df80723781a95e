use vstd::prelude::*;

use crate::error::IdentityError;
use crate::text;

verus! {

/// The tenant-scoping identifier of the identity provider: a multi-tenant
/// category, or one specific tenant (directory) id.
#[derive(Debug, PartialEq, Eq)]
pub enum Authority {
    /// The `common` endpoint: organizational and personal accounts alike.
    AzureActiveDirectory,
    /// Organizational (work or school) accounts of any tenant.
    Organizations,
    /// Personal Microsoft accounts only.
    Consumers,
    /// One specific tenant, by its directory id.
    TenantId(String),
}

impl Authority {
    /// The path segment that stands for this authority in provider URLs.
    pub open spec fn spec_segment(self) -> Seq<char> {
        match self {
            Authority::AzureActiveDirectory => "common"@,
            Authority::Organizations => "organizations"@,
            Authority::Consumers => "consumers"@,
            Authority::TenantId(t) => t@,
        }
    }

    /// A specific-tenant authority must carry a non-blank tenant id.
    pub open spec fn spec_valid(self) -> bool {
        self matches Authority::TenantId(t) ==> !text::spec_is_blank(t@)
    }

    /// The authority's path segment in provider URLs.
    pub fn segment(&self) -> (r: String)
        ensures
            r@ == self.spec_segment(),
    {
        match self {
            Authority::AzureActiveDirectory => String::from_str("common"),
            Authority::Organizations => String::from_str("organizations"),
            Authority::Consumers => String::from_str("consumers"),
            Authority::TenantId(t) => t.clone(),
        }
    }

    /// The tenant id, for a specific-tenant authority.
    pub open spec fn spec_tenant_id(self) -> Option<Seq<char>> {
        match self {
            Authority::TenantId(t) => Some(t@),
            _ => None,
        }
    }

    /// The tenant id, where this authority names one.
    pub fn tenant_id(&self) -> (r: Option<&String>)
        ensures
            match r {
                Some(t) => self.spec_tenant_id() == Some(t@),
                None => self.spec_tenant_id() is None,
            },
    {
        match self {
            Authority::TenantId(t) => Some(t),
            _ => None,
        }
    }
}

impl Clone for Authority {
    fn clone(&self) -> (r: Self)
        ensures
            r == *self,
    {
        match self {
            Authority::AzureActiveDirectory => Authority::AzureActiveDirectory,
            Authority::Organizations => Authority::Organizations,
            Authority::Consumers => Authority::Consumers,
            Authority::TenantId(t) => Authority::TenantId(t.clone()),
        }
    }
}

impl Default for Authority {
    /// The default authority is the `common` endpoint.
    fn default() -> (r: Self)
        ensures
            r == Authority::AzureActiveDirectory,
    {
        Authority::AzureActiveDirectory
    }
}

/// The sovereign cloud environment, which fixes the provider's base host.
#[derive(Clone, Copy, Debug, PartialEq, Eq, Structural)]
pub enum AzureCloudInstance {
    AzurePublic,
    AzureChina,
    AzureGermany,
    AzureUsGovernment,
}

impl AzureCloudInstance {
    /// The base URL of the identity provider in this cloud.
    pub open spec fn spec_base_url(self) -> Seq<char> {
        match self {
            AzureCloudInstance::AzurePublic => "https://login.microsoftonline.com"@,
            AzureCloudInstance::AzureChina => "https://login.chinacloudapi.cn"@,
            AzureCloudInstance::AzureGermany => "https://login.microsoftonline.de"@,
            AzureCloudInstance::AzureUsGovernment => "https://login.microsoftonline.us"@,
        }
    }

    /// The identity provider's base URL in this cloud.
    pub fn base_url(&self) -> (r: String)
        ensures
            r@ == self.spec_base_url(),
    {
        match self {
            AzureCloudInstance::AzurePublic => String::from_str("https://login.microsoftonline.com"),
            AzureCloudInstance::AzureChina => String::from_str("https://login.chinacloudapi.cn"),
            AzureCloudInstance::AzureGermany => String::from_str("https://login.microsoftonline.de"),
            AzureCloudInstance::AzureUsGovernment => String::from_str(
                "https://login.microsoftonline.us",
            ),
        }
    }
}

impl Default for AzureCloudInstance {
    /// The default cloud is the public one.
    fn default() -> (r: Self)
        ensures
            r == AzureCloudInstance::AzurePublic,
    {
        AzureCloudInstance::AzurePublic
    }
}

/// The authorization endpoint of an authority in a cloud.
pub open spec fn spec_authorization_endpoint(c: AzureCloudInstance, a: Authority) -> Seq<char> {
    c.spec_base_url() + "/"@ + a.spec_segment() + "/oauth2/v2.0/authorize"@
}

/// The token endpoint of an authority in a cloud.
pub open spec fn spec_token_endpoint(c: AzureCloudInstance, a: Authority) -> Seq<char> {
    c.spec_base_url() + "/"@ + a.spec_segment() + "/oauth2/v2.0/token"@
}

/// The OpenID-configuration discovery endpoint of an authority in a cloud.
pub open spec fn spec_openid_configuration_endpoint(
    c: AzureCloudInstance,
    a: Authority,
) -> Seq<char> {
    c.spec_base_url() + "/"@ + a.spec_segment() + "/v2.0/.well-known/openid-configuration"@
}

/// The admin-consent endpoint of an authority in a cloud, used by the
/// client-credentials authorization URL.
pub open spec fn spec_admin_consent_endpoint(c: AzureCloudInstance, a: Authority) -> Seq<char> {
    c.spec_base_url() + "/"@ + a.spec_segment() + "/adminconsent"@
}

/// The concrete endpoints that an authority resolves to in a cloud.
#[derive(Debug)]
pub struct Endpoints {
    pub authorization_endpoint: String,
    pub token_endpoint: String,
    pub openid_configuration_endpoint: String,
}

fn join_endpoint(c: &AzureCloudInstance, a: &Authority, suffix: &str) -> (r: String)
    ensures
        r@ == c.spec_base_url() + "/"@ + a.spec_segment() + suffix@,
{
    let mut s = c.base_url();
    s.append("/");
    let seg = a.segment();
    s.append(seg.as_str());
    s.append(suffix);
    s
}

/// Resolves the admin-consent endpoint of an authority in a cloud; fails
/// only when a specific-tenant authority carries a blank tenant string.
pub fn resolve_admin_consent(c: &AzureCloudInstance, a: &Authority) -> (r: Result<
    String,
    IdentityError,
>)
    ensures
        match r {
            Ok(u) => a.spec_valid() && u@ == spec_admin_consent_endpoint(*c, *a),
            Err(e) => !a.spec_valid() && e == IdentityError::MissingTenantId,
        },
{
    if let Authority::TenantId(t) = a {
        if text::is_blank(t.as_str()) {
            return Err(IdentityError::MissingTenantId);
        }
    }
    Ok(join_endpoint(c, a, "/adminconsent"))
}

/// Resolves the cloud instance and authority to concrete endpoints; a pure
/// function of the two values. Fails only when a specific-tenant authority
/// carries a blank tenant string.
pub fn resolve(c: &AzureCloudInstance, a: &Authority) -> (r: Result<Endpoints, IdentityError>)
    ensures
        match r {
            Ok(e) => {
                &&& a.spec_valid()
                &&& e.authorization_endpoint@ == spec_authorization_endpoint(*c, *a)
                &&& e.token_endpoint@ == spec_token_endpoint(*c, *a)
                &&& e.openid_configuration_endpoint@ == spec_openid_configuration_endpoint(*c, *a)
            },
            Err(e) => !a.spec_valid() && e == IdentityError::MissingTenantId,
        },
{
    if let Authority::TenantId(t) = a {
        if text::is_blank(t.as_str()) {
            return Err(IdentityError::MissingTenantId);
        }
    }
    Ok(
        Endpoints {
            authorization_endpoint: join_endpoint(c, a, "/oauth2/v2.0/authorize"),
            token_endpoint: join_endpoint(c, a, "/oauth2/v2.0/token"),
            openid_configuration_endpoint: join_endpoint(c, a, "/v2.0/.well-known/openid-configuration"),
        },
    )
}

} // verus!
