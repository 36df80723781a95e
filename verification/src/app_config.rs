use vstd::prelude::*;

use crate::authority::{Authority, AzureCloudInstance};

verus! {

/// Immutable per-application identity: the client (application) id, the
/// authority that scopes the tenant, the cloud instance, and extra header
/// and query parameters to carry on every request. Cloned into each
/// credential at construction.
#[derive(Debug)]
pub struct AppConfig {
    /// The application (client) id, as the UUID string the portal assigned.
    pub client_id: String,
    /// The tenant-scoping authority.
    pub authority: Authority,
    /// The sovereign cloud whose hosts serve this application.
    pub azure_cloud_instance: AzureCloudInstance,
    /// Extra headers to add to token requests, as (name, value) pairs.
    pub extra_header_parameters: Vec<(String, String)>,
    /// Extra query parameters to add to token requests.
    pub extra_query_parameters: Vec<(String, String)>,
}

impl AppConfig {
    /// A configuration for a client id, on the common authority in the
    /// public cloud, with no extra parameters.
    pub fn new_with_client_id(client_id: &str) -> (r: AppConfig)
        ensures
            r.client_id@ == client_id@,
            r.authority == Authority::AzureActiveDirectory,
            r.azure_cloud_instance == AzureCloudInstance::AzurePublic,
            r.extra_header_parameters@.len() == 0,
            r.extra_query_parameters@.len() == 0,
    {
        AppConfig {
            client_id: String::from_str(client_id),
            authority: Authority::AzureActiveDirectory,
            azure_cloud_instance: AzureCloudInstance::AzurePublic,
            extra_header_parameters: Vec::new(),
            extra_query_parameters: Vec::new(),
        }
    }

    /// A configuration for a client id bound to one specific tenant.
    pub fn new_with_tenant_and_client_id(tenant_id: &str, client_id: &str) -> (r: AppConfig)
        ensures
            r.client_id@ == client_id@,
            r.authority matches Authority::TenantId(t) && t@ == tenant_id@,
            r.azure_cloud_instance == AzureCloudInstance::AzurePublic,
            r.extra_header_parameters@.len() == 0,
            r.extra_query_parameters@.len() == 0,
    {
        AppConfig {
            client_id: String::from_str(client_id),
            authority: Authority::TenantId(String::from_str(tenant_id)),
            azure_cloud_instance: AzureCloudInstance::AzurePublic,
            extra_header_parameters: Vec::new(),
            extra_query_parameters: Vec::new(),
        }
    }

    /// The tenant id, where the authority names one.
    pub fn tenant_id(&self) -> (r: Option<&String>)
        ensures
            match r {
                Some(t) => self.authority.spec_tenant_id() == Some(t@),
                None => self.authority.spec_tenant_id() is None,
            },
    {
        self.authority.tenant_id()
    }
}

} // verus!
