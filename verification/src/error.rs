use vstd::prelude::*;

verus! {

/// The form parameters a token request may require. A serializer reports the
/// first of these that is missing or blank for the chosen grant.
#[derive(Clone, Copy, Debug, PartialEq, Eq, Structural)]
pub enum OAuthParameter {
    ClientId,
    ClientSecret,
    RedirectUri,
    AuthorizationCode,
    RefreshToken,
    ClientAssertion,
    DeviceCode,
}

/// Configuration and validation failures, all detected before any network
/// call and returned synchronously, never retried.
#[derive(Clone, Copy, Debug, PartialEq, Eq, Structural)]
pub enum IdentityError {
    /// A required field of the grant is absent or blank after trimming.
    MissingRequiredParameter(OAuthParameter),
    /// A flow that accepts either an authorization code or a refresh token
    /// was asked to serialize with both of them unset.
    MissingCodeAndRefreshToken,
    /// A specific-tenant authority carries an empty tenant string.
    MissingTenantId,
}

impl IdentityError {
    /// The diagnostic text of each failure.
    pub open spec fn spec_as_str(self) -> Seq<char> {
        match self {
            IdentityError::MissingRequiredParameter(_) => "missing required parameter"@,
            IdentityError::MissingCodeAndRefreshToken => {
                "authorization code or refresh token is required"@
            },
            IdentityError::MissingTenantId => "tenant id is required for this authority"@,
        }
    }

    /// A short diagnostic name for the failure, for logs and messages.
    pub fn as_str(&self) -> (r: &'static str)
        ensures
            r@ == self.spec_as_str(),
            r@.len() > 0,
    {
        proof {
            reveal_strlit("missing required parameter");
            reveal_strlit("authorization code or refresh token is required");
            reveal_strlit("tenant id is required for this authority");
        }
        match self {
            IdentityError::MissingRequiredParameter(_) => "missing required parameter",
            IdentityError::MissingCodeAndRefreshToken => {
                "authorization code or refresh token is required"
            },
            IdentityError::MissingTenantId => "tenant id is required for this authority",
        }
    }
}

} // verus!
