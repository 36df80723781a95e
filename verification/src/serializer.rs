use vstd::prelude::*;

use crate::error::{IdentityError, OAuthParameter};
use crate::form::FormMap;
use crate::text;
use crate::text::str_views;

verus! {

/// The scope requested when a credential names none: the resource's
/// `.default` scope.
pub fn default_scope() -> (r: String)
    ensures
        r@ == "https://graph.microsoft.com/.default"@,
{
    String::from_str("https://graph.microsoft.com/.default")
}

/// The client-assertion type for certificate credentials, fixed by the
/// provider.
pub fn client_assertion_type_jwt() -> (r: String)
    ensures
        r@ == "urn:ietf:params:oauth:client-assertion-type:jwt-bearer"@,
{
    String::from_str("urn:ietf:params:oauth:client-assertion-type:jwt-bearer")
}

/// The `scope` value of a form: the scopes space-joined in insertion order,
/// or the default scope where the list is empty.
pub open spec fn spec_scope_value(scope: Seq<Seq<char>>) -> Seq<char> {
    if scope.len() == 0 {
        "https://graph.microsoft.com/.default"@
    } else {
        text::spec_join_spaces(scope)
    }
}

fn scope_value(scope: &Vec<String>) -> (r: String)
    ensures
        r@ == spec_scope_value(str_views(scope@)),
{
    if scope.len() == 0 {
        default_scope()
    } else {
        text::join_spaces(scope)
    }
}

/// A client id is missing when it is blank after trimming, or is the nil
/// UUID.
pub open spec fn spec_client_id_missing(client_id: Seq<char>) -> bool {
    text::spec_is_blank(client_id) || client_id == "00000000-0000-0000-0000-000000000000"@
}

/// Whether a client id is absent: blank, or the nil UUID.
pub fn client_id_missing(client_id: &str) -> (r: bool)
    ensures
        r == spec_client_id_missing(client_id@),
{
    text::is_blank(client_id) || text::str_eq(client_id, "00000000-0000-0000-0000-000000000000")
}

/// The form entries of the client-credentials grant. The client id and
/// client secret travel in the basic-auth header, never in the body.
pub open spec fn spec_client_secret_form(
    client_id: Seq<char>,
    client_secret: Seq<char>,
    scope: Seq<Seq<char>>,
) -> Result<Seq<(Seq<char>, Seq<char>)>, IdentityError> {
    if spec_client_id_missing(client_id) {
        Err(IdentityError::MissingRequiredParameter(OAuthParameter::ClientId))
    } else if text::spec_is_blank(client_secret) {
        Err(IdentityError::MissingRequiredParameter(OAuthParameter::ClientSecret))
    } else {
        Ok(
            seq![
                ("grant_type"@, "client_credentials"@),
                ("scope"@, spec_scope_value(scope)),
            ],
        )
    }
}

/// Builds the client-credentials grant form. On success the map holds the
/// grant type and the scope, and nothing else: in particular neither
/// `client_id` nor `client_secret`, which basic-auth carries.
pub fn build_client_secret_form(
    client_id: &str,
    client_secret: &str,
    scope: &Vec<String>,
) -> (r: Result<FormMap, IdentityError>)
    ensures
        match r {
            Ok(m) => {
                &&& m.wf()
                &&& spec_client_secret_form(client_id@, client_secret@, str_views(scope@))
                    == Ok::<Seq<(Seq<char>, Seq<char>)>, IdentityError>(m.entries_view())
                &&& !m@.contains_key("client_id"@)
                &&& !m@.contains_key("client_secret"@)
            },
            Err(e) => spec_client_secret_form(client_id@, client_secret@, str_views(scope@))
                == Err::<Seq<(Seq<char>, Seq<char>)>, IdentityError>(e),
        },
{
    if client_id_missing(client_id) {
        return Err(IdentityError::MissingRequiredParameter(OAuthParameter::ClientId));
    }
    if text::is_blank(client_secret) {
        return Err(IdentityError::MissingRequiredParameter(OAuthParameter::ClientSecret));
    }
    let mut m = FormMap::new();
    proof {
        reveal_strlit("grant_type");
        reveal_strlit("scope");
        reveal_strlit("client_id");
        reveal_strlit("client_secret");
        assert("grant_type"@.len() == 10);
        assert("scope"@.len() == 5);
        assert("client_id"@.len() == 9);
        assert("client_secret"@.len() == 13);
    }
    m.insert(String::from_str("grant_type"), String::from_str("client_credentials"));
    m.insert(String::from_str("scope"), scope_value(scope));
    proof {
        assert(m.entries_view() =~= seq![
            ("grant_type"@, "client_credentials"@),
            ("scope"@, spec_scope_value(str_views(scope@))),
        ]);
    }
    Ok(m)
}

/// The client-credentials form never carries the client id or the client
/// secret, whatever the secret's value: both travel in the basic-auth
/// header alone, since some providers reject duplicated credentials.
pub proof fn lemma_client_secret_form_omits_credentials(
    client_id: Seq<char>,
    client_secret: Seq<char>,
    scope: Seq<Seq<char>>,
)
    requires
        spec_client_secret_form(client_id, client_secret, scope) is Ok,
    ensures
        ({
            let m = crate::form::spec_map_of(
                spec_client_secret_form(client_id, client_secret, scope)->Ok_0,
            );
            !m.contains_key("client_id"@) && !m.contains_key("client_secret"@)
        }),
{
    reveal_strlit("grant_type");
    reveal_strlit("scope");
    reveal_strlit("client_id");
    reveal_strlit("client_secret");
    assert("grant_type"@.len() == 10);
    assert("scope"@.len() == 5);
    assert("client_id"@.len() == 9);
    assert("client_secret"@.len() == 13);
    let entries = spec_client_secret_form(client_id, client_secret, scope)->Ok_0;
    crate::form::lemma_map_of_contains(entries, "client_id"@);
    crate::form::lemma_map_of_contains(entries, "client_secret"@);
}

/// `s` with `(key, v)` appended where `v` is present.
pub open spec fn spec_push_opt(
    s: Seq<(Seq<char>, Seq<char>)>,
    key: Seq<char>,
    v: Option<Seq<char>>,
) -> Seq<(Seq<char>, Seq<char>)> {
    match v {
        Some(x) => s.push((key, x)),
        None => s,
    }
}

/// `s` with the space-joined scope appended where the list is non-empty.
pub open spec fn spec_push_scope(
    s: Seq<(Seq<char>, Seq<char>)>,
    scope: Seq<Seq<char>>,
) -> Seq<(Seq<char>, Seq<char>)> {
    if scope.len() > 0 {
        s.push(("scope"@, text::spec_join_spaces(scope)))
    } else {
        s
    }
}

/// The form entries of the authorization-code grant.
pub open spec fn spec_authorization_code_form(
    client_id: Seq<char>,
    code: Seq<char>,
    redirect_uri: Seq<char>,
    code_verifier: Option<Seq<char>>,
    scope: Seq<Seq<char>>,
) -> Result<Seq<(Seq<char>, Seq<char>)>, IdentityError> {
    if spec_client_id_missing(client_id) {
        Err(IdentityError::MissingRequiredParameter(OAuthParameter::ClientId))
    } else if text::spec_is_blank(code) {
        Err(IdentityError::MissingRequiredParameter(OAuthParameter::AuthorizationCode))
    } else {
        let base = seq![
            ("client_id"@, client_id),
            ("grant_type"@, "authorization_code"@),
            ("code"@, code),
            ("redirect_uri"@, redirect_uri),
        ];
        Ok(spec_push_scope(spec_push_opt(base, "code_verifier"@, code_verifier), scope))
    }
}

/// Builds the authorization-code grant form.
pub fn build_authorization_code_form(
    client_id: &str,
    code: &str,
    redirect_uri: &str,
    code_verifier: &Option<String>,
    scope: &Vec<String>,
) -> (r: Result<FormMap, IdentityError>)
    ensures
        ({
            let s = spec_authorization_code_form(
                client_id@,
                code@,
                redirect_uri@,
                match code_verifier {
                    Some(cv) => Some(cv@),
                    None => None,
                },
                str_views(scope@),
            );
            match r {
                Ok(m) => m.wf() && s == Ok::<Seq<(Seq<char>, Seq<char>)>, IdentityError>(
                    m.entries_view(),
                ),
                Err(e) => s == Err::<Seq<(Seq<char>, Seq<char>)>, IdentityError>(e),
            }
        }),
{
    if client_id_missing(client_id) {
        return Err(IdentityError::MissingRequiredParameter(OAuthParameter::ClientId));
    }
    if text::is_blank(code) {
        return Err(IdentityError::MissingRequiredParameter(OAuthParameter::AuthorizationCode));
    }
    proof {
        reveal_strlit("client_id");
        reveal_strlit("grant_type");
        reveal_strlit("code");
        reveal_strlit("redirect_uri");
        reveal_strlit("code_verifier");
        reveal_strlit("scope");
        assert("client_id"@.len() == 9);
        assert("grant_type"@.len() == 10);
        assert("code"@.len() == 4);
        assert("redirect_uri"@.len() == 12);
        assert("code_verifier"@.len() == 13);
        assert("scope"@.len() == 5);
    }
    let mut m = FormMap::new();
    m.insert(String::from_str("client_id"), String::from_str(client_id));
    m.insert(String::from_str("grant_type"), String::from_str("authorization_code"));
    m.insert(String::from_str("code"), String::from_str(code));
    m.insert(String::from_str("redirect_uri"), String::from_str(redirect_uri));
    if let Some(cv) = code_verifier {
        m.insert(String::from_str("code_verifier"), cv.clone());
    }
    if scope.len() > 0 {
        m.insert(String::from_str("scope"), text::join_spaces(scope));
    }
    proof {
        let s = spec_authorization_code_form(
            client_id@,
            code@,
            redirect_uri@,
            match code_verifier {
                Some(cv) => Some(cv@),
                None => None,
            },
            str_views(scope@),
        );
        assert(m.entries_view() =~= s->Ok_0);
    }
    Ok(m)
}

/// The form entries of the certificate-assertion flow: a refresh-token
/// exchange where a refresh token is set, else an authorization-code
/// exchange. A blank assertion type is replaced by the JWT-bearer type.
pub open spec fn spec_certificate_form(
    client_id: Seq<char>,
    authorization_code: Option<Seq<char>>,
    refresh_token: Option<Seq<char>>,
    redirect_uri: Option<Seq<char>>,
    code_verifier: Option<Seq<char>>,
    client_assertion: Seq<char>,
    client_assertion_type: Seq<char>,
    scope: Seq<Seq<char>>,
) -> Result<Seq<(Seq<char>, Seq<char>)>, IdentityError> {
    if spec_client_id_missing(client_id) {
        Err(IdentityError::MissingRequiredParameter(OAuthParameter::ClientId))
    } else if text::spec_is_blank(client_assertion) {
        Err(IdentityError::MissingRequiredParameter(OAuthParameter::ClientAssertion))
    } else {
        let cat = if text::spec_is_blank(client_assertion_type) {
            "urn:ietf:params:oauth:client-assertion-type:jwt-bearer"@
        } else {
            client_assertion_type
        };
        match refresh_token {
            Some(rt) => {
                if text::spec_is_blank(rt) {
                    Err(IdentityError::MissingRequiredParameter(OAuthParameter::RefreshToken))
                } else {
                    let base = seq![
                        ("refresh_token"@, rt),
                        ("client_id"@, client_id),
                        ("grant_type"@, "refresh_token"@),
                        ("client_assertion"@, client_assertion),
                        ("client_assertion_type"@, cat),
                    ];
                    Ok(spec_push_scope(base, scope))
                }
            },
            None => match authorization_code {
                Some(code) => {
                    if text::spec_is_blank(code) {
                        Err(
                            IdentityError::MissingRequiredParameter(
                                OAuthParameter::AuthorizationCode,
                            ),
                        )
                    } else {
                        let base = seq![
                            ("code"@, code),
                            ("client_id"@, client_id),
                            ("grant_type"@, "authorization_code"@),
                        ];
                        let with_uri = spec_push_opt(base, "redirect_uri"@, redirect_uri);
                        let with_cv = spec_push_opt(with_uri, "code_verifier"@, code_verifier);
                        let with_assertion = with_cv.push(
                            ("client_assertion"@, client_assertion),
                        ).push(("client_assertion_type"@, cat));
                        Ok(spec_push_scope(with_assertion, scope))
                    }
                },
                None => Err(IdentityError::MissingCodeAndRefreshToken),
            },
        }
    }
}

/// Builds the certificate-assertion flow form. A set refresh token takes
/// precedence over a set authorization code; with neither set the build
/// fails.
pub fn build_certificate_form(
    client_id: &str,
    authorization_code: &Option<String>,
    refresh_token: &Option<String>,
    redirect_uri: &Option<String>,
    code_verifier: &Option<String>,
    client_assertion: &str,
    client_assertion_type: &str,
    scope: &Vec<String>,
) -> (r: Result<FormMap, IdentityError>)
    ensures
        ({
            let s = spec_certificate_form(
                client_id@,
                match authorization_code {
                    Some(c) => Some(c@),
                    None => None,
                },
                match refresh_token {
                    Some(c) => Some(c@),
                    None => None,
                },
                match redirect_uri {
                    Some(c) => Some(c@),
                    None => None,
                },
                match code_verifier {
                    Some(c) => Some(c@),
                    None => None,
                },
                client_assertion@,
                client_assertion_type@,
                str_views(scope@),
            );
            match r {
                Ok(m) => m.wf() && s == Ok::<Seq<(Seq<char>, Seq<char>)>, IdentityError>(
                    m.entries_view(),
                ),
                Err(e) => s == Err::<Seq<(Seq<char>, Seq<char>)>, IdentityError>(e),
            }
        }),
{
    if client_id_missing(client_id) {
        return Err(IdentityError::MissingRequiredParameter(OAuthParameter::ClientId));
    }
    if text::is_blank(client_assertion) {
        return Err(IdentityError::MissingRequiredParameter(OAuthParameter::ClientAssertion));
    }
    proof {
        reveal_strlit("refresh_token");
        reveal_strlit("client_id");
        reveal_strlit("grant_type");
        reveal_strlit("client_assertion");
        reveal_strlit("client_assertion_type");
        reveal_strlit("scope");
        reveal_strlit("code");
        reveal_strlit("redirect_uri");
        reveal_strlit("code_verifier");
        assert("refresh_token"@.len() == 13);
        assert("client_id"@.len() == 9);
        assert("grant_type"@.len() == 10);
        assert("client_assertion"@.len() == 16);
        assert("client_assertion_type"@.len() == 21);
        assert("scope"@.len() == 5);
        assert("code"@.len() == 4);
        assert("redirect_uri"@.len() == 12);
        assert("code_verifier"@.len() == 13);
    }
    let cat = if text::is_blank(client_assertion_type) {
        client_assertion_type_jwt()
    } else {
        String::from_str(client_assertion_type)
    };
    let ghost spec_result = spec_certificate_form(
        client_id@,
        match authorization_code {
            Some(c) => Some(c@),
            None => None,
        },
        match refresh_token {
            Some(c) => Some(c@),
            None => None,
        },
        match redirect_uri {
            Some(c) => Some(c@),
            None => None,
        },
        match code_verifier {
            Some(c) => Some(c@),
            None => None,
        },
        client_assertion@,
        client_assertion_type@,
        str_views(scope@),
    );
    if let Some(rt) = refresh_token {
        if text::is_blank(rt.as_str()) {
            return Err(IdentityError::MissingRequiredParameter(OAuthParameter::RefreshToken));
        }
        let mut m = FormMap::new();
        m.insert(String::from_str("refresh_token"), rt.clone());
        m.insert(String::from_str("client_id"), String::from_str(client_id));
        m.insert(String::from_str("grant_type"), String::from_str("refresh_token"));
        m.insert(String::from_str("client_assertion"), String::from_str(client_assertion));
        m.insert(String::from_str("client_assertion_type"), cat);
        if scope.len() > 0 {
            m.insert(String::from_str("scope"), text::join_spaces(scope));
        }
        proof {
            assert(m.entries_view() =~= spec_result->Ok_0);
        }
        return Ok(m);
    }
    if let Some(code) = authorization_code {
        if text::is_blank(code.as_str()) {
            return Err(
                IdentityError::MissingRequiredParameter(OAuthParameter::AuthorizationCode),
            );
        }
        let mut m = FormMap::new();
        m.insert(String::from_str("code"), code.clone());
        m.insert(String::from_str("client_id"), String::from_str(client_id));
        m.insert(String::from_str("grant_type"), String::from_str("authorization_code"));
        if let Some(uri) = redirect_uri {
            m.insert(String::from_str("redirect_uri"), uri.clone());
        }
        if let Some(cv) = code_verifier {
            m.insert(String::from_str("code_verifier"), cv.clone());
        }
        m.insert(String::from_str("client_assertion"), String::from_str(client_assertion));
        m.insert(String::from_str("client_assertion_type"), cat);
        if scope.len() > 0 {
            m.insert(String::from_str("scope"), text::join_spaces(scope));
        }
        proof {
            assert(m.entries_view() =~= spec_result->Ok_0);
        }
        return Ok(m);
    }
    Err(IdentityError::MissingCodeAndRefreshToken)
}

/// With both an authorization code and a refresh token set, a successful
/// serialization of the certificate flow selects the refresh-token grant:
/// its form carries `grant_type` `refresh_token`, deterministically.
pub proof fn lemma_refresh_token_selected(
    client_id: Seq<char>,
    authorization_code: Option<Seq<char>>,
    refresh_token: Seq<char>,
    redirect_uri: Option<Seq<char>>,
    code_verifier: Option<Seq<char>>,
    client_assertion: Seq<char>,
    client_assertion_type: Seq<char>,
    scope: Seq<Seq<char>>,
)
    requires
        spec_certificate_form(
            client_id,
            authorization_code,
            Some(refresh_token),
            redirect_uri,
            code_verifier,
            client_assertion,
            client_assertion_type,
            scope,
        ) is Ok,
    ensures
        ({
            let m = crate::form::spec_map_of(
                spec_certificate_form(
                    client_id,
                    authorization_code,
                    Some(refresh_token),
                    redirect_uri,
                    code_verifier,
                    client_assertion,
                    client_assertion_type,
                    scope,
                )->Ok_0,
            );
            m.contains_key("grant_type"@) && m["grant_type"@] == "refresh_token"@
        }),
{
    reveal_strlit("refresh_token");
    reveal_strlit("client_id");
    reveal_strlit("grant_type");
    reveal_strlit("client_assertion");
    reveal_strlit("client_assertion_type");
    reveal_strlit("scope");
    assert("refresh_token"@.len() == 13);
    assert("client_id"@.len() == 9);
    assert("grant_type"@.len() == 10);
    assert("client_assertion"@.len() == 16);
    assert("client_assertion_type"@.len() == 21);
    assert("scope"@.len() == 5);
    let entries = spec_certificate_form(
        client_id,
        authorization_code,
        Some(refresh_token),
        redirect_uri,
        code_verifier,
        client_assertion,
        client_assertion_type,
        scope,
    )->Ok_0;
    assert(entries[2] == ("grant_type"@, "refresh_token"@));
    assert(crate::form::unique_keys(entries));
    crate::form::lemma_map_of_get(entries, 2);
}

/// The form entries of the refresh-token grant.
pub open spec fn spec_refresh_token_form(
    client_id: Seq<char>,
    refresh_token: Seq<char>,
    scope: Seq<Seq<char>>,
) -> Result<Seq<(Seq<char>, Seq<char>)>, IdentityError> {
    if spec_client_id_missing(client_id) {
        Err(IdentityError::MissingRequiredParameter(OAuthParameter::ClientId))
    } else if text::spec_is_blank(refresh_token) {
        Err(IdentityError::MissingRequiredParameter(OAuthParameter::RefreshToken))
    } else {
        let base = seq![
            ("client_id"@, client_id),
            ("grant_type"@, "refresh_token"@),
            ("refresh_token"@, refresh_token),
        ];
        Ok(spec_push_scope(base, scope))
    }
}

/// Builds the refresh-token grant form.
pub fn build_refresh_token_form(
    client_id: &str,
    refresh_token: &str,
    scope: &Vec<String>,
) -> (r: Result<FormMap, IdentityError>)
    ensures
        ({
            let s = spec_refresh_token_form(client_id@, refresh_token@, str_views(scope@));
            match r {
                Ok(m) => m.wf() && s == Ok::<Seq<(Seq<char>, Seq<char>)>, IdentityError>(
                    m.entries_view(),
                ),
                Err(e) => s == Err::<Seq<(Seq<char>, Seq<char>)>, IdentityError>(e),
            }
        }),
{
    if client_id_missing(client_id) {
        return Err(IdentityError::MissingRequiredParameter(OAuthParameter::ClientId));
    }
    if text::is_blank(refresh_token) {
        return Err(IdentityError::MissingRequiredParameter(OAuthParameter::RefreshToken));
    }
    proof {
        reveal_strlit("client_id");
        reveal_strlit("grant_type");
        reveal_strlit("refresh_token");
        reveal_strlit("scope");
        assert("client_id"@.len() == 9);
        assert("grant_type"@.len() == 10);
        assert("refresh_token"@.len() == 13);
        assert("scope"@.len() == 5);
    }
    let mut m = FormMap::new();
    m.insert(String::from_str("client_id"), String::from_str(client_id));
    m.insert(String::from_str("grant_type"), String::from_str("refresh_token"));
    m.insert(String::from_str("refresh_token"), String::from_str(refresh_token));
    if scope.len() > 0 {
        m.insert(String::from_str("scope"), text::join_spaces(scope));
    }
    proof {
        let s = spec_refresh_token_form(client_id@, refresh_token@, str_views(scope@));
        assert(m.entries_view() =~= s->Ok_0);
    }
    Ok(m)
}

/// The form entries of the device-code grant.
pub open spec fn spec_device_code_form(
    client_id: Seq<char>,
    device_code: Seq<char>,
    scope: Seq<Seq<char>>,
) -> Result<Seq<(Seq<char>, Seq<char>)>, IdentityError> {
    if spec_client_id_missing(client_id) {
        Err(IdentityError::MissingRequiredParameter(OAuthParameter::ClientId))
    } else if text::spec_is_blank(device_code) {
        Err(IdentityError::MissingRequiredParameter(OAuthParameter::DeviceCode))
    } else {
        let base = seq![
            ("client_id"@, client_id),
            ("grant_type"@, "urn:ietf:params:oauth:grant-type:device_code"@),
            ("device_code"@, device_code),
        ];
        Ok(spec_push_scope(base, scope))
    }
}

/// Builds the device-code grant form.
pub fn build_device_code_form(
    client_id: &str,
    device_code: &str,
    scope: &Vec<String>,
) -> (r: Result<FormMap, IdentityError>)
    ensures
        ({
            let s = spec_device_code_form(client_id@, device_code@, str_views(scope@));
            match r {
                Ok(m) => m.wf() && s == Ok::<Seq<(Seq<char>, Seq<char>)>, IdentityError>(
                    m.entries_view(),
                ),
                Err(e) => s == Err::<Seq<(Seq<char>, Seq<char>)>, IdentityError>(e),
            }
        }),
{
    if client_id_missing(client_id) {
        return Err(IdentityError::MissingRequiredParameter(OAuthParameter::ClientId));
    }
    if text::is_blank(device_code) {
        return Err(IdentityError::MissingRequiredParameter(OAuthParameter::DeviceCode));
    }
    proof {
        reveal_strlit("client_id");
        reveal_strlit("grant_type");
        reveal_strlit("device_code");
        reveal_strlit("scope");
        assert("client_id"@.len() == 9);
        assert("grant_type"@.len() == 10);
        assert("device_code"@.len() == 11);
        assert("scope"@.len() == 5);
    }
    let mut m = FormMap::new();
    m.insert(String::from_str("client_id"), String::from_str(client_id));
    m.insert(
        String::from_str("grant_type"),
        String::from_str("urn:ietf:params:oauth:grant-type:device_code"),
    );
    m.insert(String::from_str("device_code"), String::from_str(device_code));
    if scope.len() > 0 {
        m.insert(String::from_str("scope"), text::join_spaces(scope));
    }
    proof {
        let s = spec_device_code_form(client_id@, device_code@, str_views(scope@));
        assert(m.entries_view() =~= s->Ok_0);
    }
    Ok(m)
}

} // verus!
